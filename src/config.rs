//! Settings of the runtime and the rules that a usable configuration obeys.
//!
//! Fractional settings are held as integers: percentages in hundredths of a
//! percent, temperatures in tenths of a degree Celsius, and the byzantine
//! tolerance in thousandths.
use crate::consensus::ConsensusConfig;
use crate::text::{decimal_of, decimal_text, signed_decimal_of, signed_decimal_text};
use vstd::prelude::*;
use vstd::string::StringExecFns;

verus! {

/// Main configuration of the runtime.
#[derive(Clone, Debug)]
pub struct CoreConfig {
    pub nats_url: String,
    pub metrics_port: u16,
    pub log_level: String,
    pub consensus: ConsensusConfig,
    pub nano_cores: NanoCoresConfig,
    pub security: SecurityConfig,
    pub performance: PerformanceConfig,
}

/// Settings of each functional domain.
#[derive(Clone, Debug)]
pub struct NanoCoresConfig {
    pub os_core: OSCoreConfig,
    pub hardware_core: HardwareCoreConfig,
    pub network_core: NetworkCoreConfig,
    pub security_core: SecurityCoreConfig,
}

/// Settings of the operating-system domain.
#[derive(Clone, Debug)]
pub struct OSCoreConfig {
    pub enable_ebpf: bool,
    pub monitor_interval_ms: u64,
    pub process_whitelist: Vec<String>,
    pub resource_limits: ResourceLimits,
}

/// Settings of the hardware domain.
#[derive(Clone, Copy, Debug, PartialEq, Eq, Structural)]
pub struct HardwareCoreConfig {
    /// In tenths of a degree Celsius.
    pub temperature_threshold: i32,
    /// In hundredths of a percent.
    pub cpu_usage_threshold: u32,
    /// In hundredths of a percent.
    pub memory_usage_threshold: u32,
    pub enable_predictive_monitoring: bool,
}

/// Settings of the network domain.
#[derive(Clone, Copy, Debug, PartialEq, Eq, Structural)]
pub struct NetworkCoreConfig {
    pub enable_dpdk: bool,
    pub max_connections: u32,
    pub timeout_ms: u64,
    pub qos_enabled: bool,
}

/// Settings of the security domain.
#[derive(Clone, Debug)]
pub struct SecurityCoreConfig {
    pub sandbox_enabled: bool,
    pub encryption_algorithm: String,
    pub key_rotation_interval_hours: u64,
    pub threat_detection_enabled: bool,
}

/// Resource limits of a domain.
#[derive(Clone, Copy, Debug, PartialEq, Eq, Structural)]
pub struct ResourceLimits {
    /// In hundredths of a percent.
    pub max_cpu_percent: u32,
    pub max_memory_mb: u64,
    pub max_file_descriptors: u32,
    pub max_network_connections: u32,
}

/// Global security settings.
#[derive(Clone, Copy, Debug, PartialEq, Eq, Structural)]
pub struct SecurityConfig {
    pub enable_sandboxing: bool,
    pub encryption_key_size: u32,
    pub audit_log_enabled: bool,
    pub intrusion_detection: bool,
}

/// Thread and cache settings.
#[derive(Clone, Copy, Debug, PartialEq, Eq, Structural)]
pub struct PerformanceConfig {
    pub thread_pool_size: usize,
    pub async_runtime_threads: usize,
    pub gc_interval_ms: u64,
    pub cache_size_mb: u64,
}

/// The first rule that a configuration breaks.
#[derive(Clone, Copy, Debug, PartialEq, Eq, Structural)]
pub enum ConfigError {
    EmptyNatsUrl,
    ZeroMetricsPort,
    TooFewReplicas,
    ByzantineToleranceOutOfRange,
    CpuLimitOutOfRange,
    ZeroMemoryLimit,
    NonPositiveTemperatureThreshold,
    ZeroMaxConnections,
    EmptyEncryptionAlgorithm,
    ZeroKeyRotationInterval,
    ZeroThreadPool,
    ZeroRuntimeThreads,
}

/// Relies on num_cpus::get: the number of logical CPUs, documented as
/// always at least one.
#[verifier::external_body]
fn available_cpus() -> (r: usize)
    ensures
        r >= 1,
{
    num_cpus::get()
}

impl NetworkCoreConfig {
    /// Up to ten thousand connections, thirty-second timeout, QoS on.
    pub fn default() -> (r: NetworkCoreConfig)
        ensures
            r == (NetworkCoreConfig {
                enable_dpdk: false,
                max_connections: 10000,
                timeout_ms: 30000,
                qos_enabled: true,
            }),
    {
        NetworkCoreConfig {
            enable_dpdk: false,
            max_connections: 10000,
            timeout_ms: 30000,
            qos_enabled: true,
        }
    }
}

impl HardwareCoreConfig {
    /// Alerts at 80 degrees, 90% CPU and 85% memory; prediction on.
    pub fn default() -> (r: HardwareCoreConfig)
        ensures
            r == (HardwareCoreConfig {
                temperature_threshold: 800,
                cpu_usage_threshold: 9000,
                memory_usage_threshold: 8500,
                enable_predictive_monitoring: true,
            }),
    {
        HardwareCoreConfig {
            temperature_threshold: 800,
            cpu_usage_threshold: 9000,
            memory_usage_threshold: 8500,
            enable_predictive_monitoring: true,
        }
    }
}

impl SecurityCoreConfig {
    /// Sandboxing and threat detection on, AES-256-GCM keys rotated daily.
    pub fn default() -> (r: SecurityCoreConfig)
        ensures
            r.sandbox_enabled,
            r.encryption_algorithm@ == "AES-256-GCM"@,
            r.key_rotation_interval_hours == 24,
            r.threat_detection_enabled,
    {
        SecurityCoreConfig {
            sandbox_enabled: true,
            encryption_algorithm: "AES-256-GCM".to_string(),
            key_rotation_interval_hours: 24,
            threat_detection_enabled: true,
        }
    }
}

impl ResourceLimits {
    /// 80% CPU, 4 GiB of memory, 1024 descriptors, 1000 connections.
    pub fn default() -> (r: ResourceLimits)
        ensures
            r == (ResourceLimits {
                max_cpu_percent: 8000,
                max_memory_mb: 4096,
                max_file_descriptors: 1024,
                max_network_connections: 1000,
            }),
    {
        ResourceLimits {
            max_cpu_percent: 8000,
            max_memory_mb: 4096,
            max_file_descriptors: 1024,
            max_network_connections: 1000,
        }
    }
}

impl SecurityConfig {
    /// Everything on, 256-bit keys.
    pub fn default() -> (r: SecurityConfig)
        ensures
            r == (SecurityConfig {
                enable_sandboxing: true,
                encryption_key_size: 256,
                audit_log_enabled: true,
                intrusion_detection: true,
            }),
    {
        SecurityConfig {
            enable_sandboxing: true,
            encryption_key_size: 256,
            audit_log_enabled: true,
            intrusion_detection: true,
        }
    }
}

impl PerformanceConfig {
    /// One pool thread and one runtime thread per logical CPU, collection
    /// every minute, 512 MiB of cache.
    pub fn default() -> (r: PerformanceConfig)
        ensures
            r.thread_pool_size >= 1,
            r.async_runtime_threads == r.thread_pool_size,
            r.gc_interval_ms == 60000,
            r.cache_size_mb == 512,
    {
        let cpus = available_cpus();
        PerformanceConfig {
            thread_pool_size: cpus,
            async_runtime_threads: cpus,
            gc_interval_ms: 60000,
            cache_size_mb: 512,
        }
    }
}

impl OSCoreConfig {
    /// eBPF probes on, a one-second monitoring interval, the runtime's own
    /// processes whitelisted, and the default resource limits.
    pub fn default() -> (r: OSCoreConfig)
        ensures
            r.enable_ebpf,
            r.monitor_interval_ms == 1000,
            r.process_whitelist@.len() == 2,
            r.resource_limits == ResourceLimits::default_spec(),
    {
        let mut whitelist: Vec<String> = Vec::new();
        whitelist.push("saai-core".to_string());
        whitelist.push("saai-agents".to_string());
        OSCoreConfig {
            enable_ebpf: true,
            monitor_interval_ms: 1000,
            process_whitelist: whitelist,
            resource_limits: ResourceLimits::default(),
        }
    }
}

impl ResourceLimits {
    /// The default limits.
    pub open spec fn default_spec() -> ResourceLimits {
        ResourceLimits {
            max_cpu_percent: 8000,
            max_memory_mb: 4096,
            max_file_descriptors: 1024,
            max_network_connections: 1000,
        }
    }
}

impl NanoCoresConfig {
    /// The default settings of every domain.
    pub fn default() -> (r: NanoCoresConfig)
        ensures
            r.os_core.resource_limits == ResourceLimits::default_spec(),
            r.network_core.max_connections == 10000,
            r.hardware_core.temperature_threshold == 800,
            r.security_core.encryption_algorithm@ == "AES-256-GCM"@,
            r.security_core.key_rotation_interval_hours == 24,
            r.security_core.sandbox_enabled,
    {
        NanoCoresConfig {
            os_core: OSCoreConfig::default(),
            hardware_core: HardwareCoreConfig::default(),
            network_core: NetworkCoreConfig::default(),
            security_core: SecurityCoreConfig::default(),
        }
    }
}

/// The first rule, in order, that `c` breaks, if any.
pub open spec fn first_violation(c: CoreConfig) -> Option<ConfigError> {
    if c.nats_url@.len() == 0 {
        Some(ConfigError::EmptyNatsUrl)
    } else if c.metrics_port == 0 {
        Some(ConfigError::ZeroMetricsPort)
    } else if c.consensus.replica_count < 3 {
        Some(ConfigError::TooFewReplicas)
    } else if c.consensus.byzantine_tolerance == 0 || c.consensus.byzantine_tolerance >= 500 {
        Some(ConfigError::ByzantineToleranceOutOfRange)
    } else if c.nano_cores.os_core.resource_limits.max_cpu_percent == 0
        || c.nano_cores.os_core.resource_limits.max_cpu_percent > 10000 {
        Some(ConfigError::CpuLimitOutOfRange)
    } else if c.nano_cores.os_core.resource_limits.max_memory_mb == 0 {
        Some(ConfigError::ZeroMemoryLimit)
    } else if c.nano_cores.hardware_core.temperature_threshold <= 0 {
        Some(ConfigError::NonPositiveTemperatureThreshold)
    } else if c.nano_cores.network_core.max_connections == 0 {
        Some(ConfigError::ZeroMaxConnections)
    } else if c.nano_cores.security_core.encryption_algorithm@.len() == 0 {
        Some(ConfigError::EmptyEncryptionAlgorithm)
    } else if c.nano_cores.security_core.key_rotation_interval_hours == 0 {
        Some(ConfigError::ZeroKeyRotationInterval)
    } else if c.performance.thread_pool_size == 0 {
        Some(ConfigError::ZeroThreadPool)
    } else if c.performance.async_runtime_threads == 0 {
        Some(ConfigError::ZeroRuntimeThreads)
    } else {
        None
    }
}

impl CoreConfig {
    /// Local event bus, metrics on port 9090, `info` logging, and the
    /// default settings of every part.
    pub fn default() -> (r: CoreConfig)
        ensures
            r.nats_url@ == "nats://localhost:4222"@,
            r.metrics_port == 9090,
            r.log_level@ == "info"@,
            r.consensus.replica_count == 3,
            r.consensus.byzantine_tolerance == 330,
            first_violation(r) is None,
    {
        let r = CoreConfig {
            nats_url: "nats://localhost:4222".to_string(),
            metrics_port: 9090,
            log_level: "info".to_string(),
            consensus: ConsensusConfig::default(),
            nano_cores: NanoCoresConfig::default(),
            security: SecurityConfig::default(),
            performance: PerformanceConfig::default(),
        };
        proof {
            reveal_strlit("nats://localhost:4222");
            reveal_strlit("AES-256-GCM");
        }
        r
    }

    /// Checks the configuration: `Ok` when it breaks no rule, else the first
    /// rule it breaks.
    pub fn validate(&self) -> (r: Result<(), ConfigError>)
        ensures
            r == match first_violation(*self) {
                None => Ok::<(), ConfigError>(()),
                Some(e) => Err(e),
            },
    {
        if self.nats_url.as_str().is_empty() {
            return Err(ConfigError::EmptyNatsUrl);
        }
        if self.metrics_port == 0 {
            return Err(ConfigError::ZeroMetricsPort);
        }
        if self.consensus.replica_count < 3 {
            return Err(ConfigError::TooFewReplicas);
        }
        if self.consensus.byzantine_tolerance == 0 || self.consensus.byzantine_tolerance >= 500 {
            return Err(ConfigError::ByzantineToleranceOutOfRange);
        }
        let limits = &self.nano_cores.os_core.resource_limits;
        if limits.max_cpu_percent == 0 || limits.max_cpu_percent > 10000 {
            return Err(ConfigError::CpuLimitOutOfRange);
        }
        if limits.max_memory_mb == 0 {
            return Err(ConfigError::ZeroMemoryLimit);
        }
        if self.nano_cores.hardware_core.temperature_threshold <= 0 {
            return Err(ConfigError::NonPositiveTemperatureThreshold);
        }
        if self.nano_cores.network_core.max_connections == 0 {
            return Err(ConfigError::ZeroMaxConnections);
        }
        if self.nano_cores.security_core.encryption_algorithm.as_str().is_empty() {
            return Err(ConfigError::EmptyEncryptionAlgorithm);
        }
        if self.nano_cores.security_core.key_rotation_interval_hours == 0 {
            return Err(ConfigError::ZeroKeyRotationInterval);
        }
        if self.performance.thread_pool_size == 0 {
            return Err(ConfigError::ZeroThreadPool);
        }
        if self.performance.async_runtime_threads == 0 {
            return Err(ConfigError::ZeroRuntimeThreads);
        }
        Ok(())
    }
}

impl CoreConfig {
    /// `self` and `other` hold the same settings.
    pub open spec fn same_as(self, other: CoreConfig) -> bool {
        &&& self.nats_url@ == other.nats_url@
        &&& self.metrics_port == other.metrics_port
        &&& self.log_level@ == other.log_level@
        &&& self.consensus == other.consensus
        &&& self.nano_cores.os_core.enable_ebpf == other.nano_cores.os_core.enable_ebpf
        &&& self.nano_cores.os_core.monitor_interval_ms
            == other.nano_cores.os_core.monitor_interval_ms
        &&& self.nano_cores.os_core.process_whitelist@.len()
            == other.nano_cores.os_core.process_whitelist@.len()
        &&& forall|i: int|
            0 <= i < self.nano_cores.os_core.process_whitelist@.len()
                ==> (#[trigger] self.nano_cores.os_core.process_whitelist@[i])@
                == other.nano_cores.os_core.process_whitelist@[i]@
        &&& self.nano_cores.os_core.resource_limits == other.nano_cores.os_core.resource_limits
        &&& self.nano_cores.hardware_core == other.nano_cores.hardware_core
        &&& self.nano_cores.network_core == other.nano_cores.network_core
        &&& self.nano_cores.security_core.sandbox_enabled
            == other.nano_cores.security_core.sandbox_enabled
        &&& self.nano_cores.security_core.encryption_algorithm@
            == other.nano_cores.security_core.encryption_algorithm@
        &&& self.nano_cores.security_core.key_rotation_interval_hours
            == other.nano_cores.security_core.key_rotation_interval_hours
        &&& self.nano_cores.security_core.threat_detection_enabled
            == other.nano_cores.security_core.threat_detection_enabled
        &&& self.security == other.security
        &&& self.performance == other.performance
    }

    /// A copy of the configuration.
    pub fn duplicate(&self) -> (r: CoreConfig)
        ensures
            r.same_as(*self),
    {
        let wl = &self.nano_cores.os_core.process_whitelist;
        let mut whitelist: Vec<String> = Vec::new();
        let mut i: usize = 0;
        while i < wl.len()
            invariant
                i <= wl@.len(),
                whitelist@.len() == i,
                forall|j: int| 0 <= j < i ==> (#[trigger] whitelist@[j])@ == wl@[j]@,
            decreases wl@.len() - i,
        {
            whitelist.push(wl[i].clone());
            i = i + 1;
        }
        let sc = &self.nano_cores.security_core;
        CoreConfig {
            nats_url: self.nats_url.clone(),
            metrics_port: self.metrics_port,
            log_level: self.log_level.clone(),
            consensus: self.consensus,
            nano_cores: NanoCoresConfig {
                os_core: OSCoreConfig {
                    enable_ebpf: self.nano_cores.os_core.enable_ebpf,
                    monitor_interval_ms: self.nano_cores.os_core.monitor_interval_ms,
                    process_whitelist: whitelist,
                    resource_limits: self.nano_cores.os_core.resource_limits,
                },
                hardware_core: self.nano_cores.hardware_core,
                network_core: self.nano_cores.network_core,
                security_core: SecurityCoreConfig {
                    sandbox_enabled: sc.sandbox_enabled,
                    encryption_algorithm: sc.encryption_algorithm.clone(),
                    key_rotation_interval_hours: sc.key_rotation_interval_hours,
                    threat_detection_enabled: sc.threat_detection_enabled,
                },
            },
            security: self.security,
            performance: self.performance,
        }
    }

    /// Development settings: debug logging, the minimum of three replicas,
    /// no sandbox, a small cache.
    pub fn development() -> (r: CoreConfig)
        ensures
            r.log_level@ == "debug"@,
            r.consensus.replica_count == 3,
            !r.nano_cores.security_core.sandbox_enabled,
            r.performance.cache_size_mb == 128,
            first_violation(r) is None,
    {
        let mut config = CoreConfig::default();
        config.log_level = "debug".to_string();
        config.consensus.replica_count = 3;
        config.nano_cores.security_core.sandbox_enabled = false;
        config.performance.cache_size_mb = 128;
        config
    }

    /// Production settings: warnings only, five replicas, sandboxing, threat
    /// and intrusion detection, a large cache.
    pub fn production() -> (r: CoreConfig)
        ensures
            r.log_level@ == "warn"@,
            r.consensus.replica_count == 5,
            r.nano_cores.security_core.sandbox_enabled,
            r.nano_cores.security_core.threat_detection_enabled,
            r.security.intrusion_detection,
            r.performance.cache_size_mb == 1024,
            first_violation(r) is None,
    {
        let mut config = CoreConfig::default();
        config.log_level = "warn".to_string();
        config.consensus.replica_count = 5;
        config.nano_cores.security_core.sandbox_enabled = true;
        config.nano_cores.security_core.threat_detection_enabled = true;
        config.security.intrusion_detection = true;
        config.performance.cache_size_mb = 1024;
        config
    }
}

/// A configuration that was replaced, kept for rollback.
pub struct ConfigVersion {
    /// Label of the version: `v` followed by the time of the change.
    pub version: String,
    /// Time of the change, in seconds since the Unix epoch.
    pub timestamp: i64,
    /// The configuration in force before the change.
    pub config: CoreConfig,
    /// Descriptions of the settings that changed.
    pub changes: Vec<String>,
}

/// What `ConfigManager::rollback` could not find.
#[derive(Clone, Copy, Debug, PartialEq, Eq, Structural)]
pub enum ConfigManagerError {
    /// The new configuration breaks a rule.
    Invalid(ConfigError),
    /// No version has that label.
    VersionNotFound,
}

/// The settings that `ConfigManager` watches for changes.
pub open spec fn changed_count(old: CoreConfig, new: CoreConfig) -> nat {
    (if old.nats_url@ != new.nats_url@ {
        1nat
    } else {
        0nat
    }) + (if old.metrics_port != new.metrics_port {
        1nat
    } else {
        0nat
    }) + (if old.log_level@ != new.log_level@ {
        1nat
    } else {
        0nat
    }) + (if old.consensus.replica_count != new.consensus.replica_count {
        1nat
    } else {
        0nat
    })
}

/// A line naming a changed setting, with its old and new value.
pub open spec fn change_line(label: Seq<char>, old: Seq<char>, new: Seq<char>) -> Seq<char> {
    label + ": "@ + old + " -> "@ + new
}

/// Lines describing the watched settings that differ between `old` and
/// `new`, in the order event-bus URL, metrics port, log level, replicas.
pub open spec fn change_lines(old: CoreConfig, new: CoreConfig) -> Seq<Seq<char>> {
    let a = if old.nats_url@ != new.nats_url@ {
        seq![change_line("NATS URL"@, old.nats_url@, new.nats_url@)]
    } else {
        Seq::empty()
    };
    let b = if old.metrics_port != new.metrics_port {
        a.push(
            change_line(
                "Metrics port"@,
                decimal_of(old.metrics_port as nat),
                decimal_of(new.metrics_port as nat),
            ),
        )
    } else {
        a
    };
    let c = if old.log_level@ != new.log_level@ {
        b.push(change_line("Log level"@, old.log_level@, new.log_level@))
    } else {
        b
    };
    if old.consensus.replica_count != new.consensus.replica_count {
        c.push(
            change_line(
                "Consensus replicas"@,
                decimal_of(old.consensus.replica_count as nat),
                decimal_of(new.consensus.replica_count as nat),
            ),
        )
    } else {
        c
    }
}

/// A line naming a changed setting, with its old and new value.
fn describe_change(label: &str, old: &str, new: &str) -> (r: String)
    ensures
        r@ == change_line(label@, old@, new@),
{
    let mut line = label.to_string();
    line.append(": ");
    line.append(old);
    line.append(" -> ");
    line.append(new);
    line
}

/// A line naming a changed numeric setting.
fn describe_number_change(label: &str, old: u64, new: u64) -> (r: String)
    ensures
        r@ == change_line(label@, decimal_of(old as nat), decimal_of(new as nat)),
{
    let o = decimal_text(old);
    let n = decimal_text(new);
    describe_change(label, o.as_str(), n.as_str())
}

/// Label of the version made at `seconds`: `v` and the time in decimal.
pub open spec fn version_label_of(seconds: i64) -> Seq<char> {
    "v"@ + signed_decimal_of(seconds as int)
}

/// Label of the version made at `seconds`.
fn version_label(seconds: i64) -> (r: String)
    ensures
        r@ == version_label_of(seconds),
{
    let mut label = "v".to_string();
    let digits = signed_decimal_text(seconds);
    label.append(digits.as_str());
    label
}

/// A first version in `history` labelled `label` is at `i`.
pub open spec fn first_version_at(history: Seq<ConfigVersion>, label: Seq<char>, i: int) -> bool {
    &&& 0 <= i < history.len()
    &&& history[i].version@ == label
    &&& forall|j: int| 0 <= j < i ==> (#[trigger] history[j]).version@ != label
}

/// The configuration in force, with the history of the configurations it
/// replaced.
pub struct ConfigManager {
    current_config: CoreConfig,
    config_path: String,
    version_history: Vec<ConfigVersion>,
}

impl ConfigManager {
    pub closed spec fn current(&self) -> CoreConfig {
        self.current_config
    }

    pub closed spec fn history(&self) -> Seq<ConfigVersion> {
        self.version_history@
    }

    pub closed spec fn path(&self) -> Seq<char> {
        self.config_path@
    }

    /// A manager for `current_config`, read from `config_path`, with no
    /// history.
    pub fn new(current_config: CoreConfig, config_path: String) -> (r: Self)
        ensures
            r.current() == current_config,
            r.path() == config_path@,
            r.history().len() == 0,
    {
        ConfigManager { current_config, config_path, version_history: Vec::new() }
    }

    pub fn get_config(&self) -> (r: &CoreConfig)
        ensures
            *r == self.current(),
    {
        &self.current_config
    }

    pub fn get_version_history(&self) -> (r: &Vec<ConfigVersion>)
        ensures
            r@ == self.history(),
    {
        &self.version_history
    }

    /// Path of the file the configuration is kept in.
    pub fn config_path(&self) -> (r: &String)
        ensures
            r@ == self.path(),
    {
        &self.config_path
    }

    /// Descriptions of the watched settings (event-bus URL, metrics port,
    /// log level, replica count) that differ between `old` and `new`.
    pub fn detect_changes(old: &CoreConfig, new: &CoreConfig) -> (r: Vec<String>)
        ensures
            r@.len() == changed_count(*old, *new),
            r@.len() == change_lines(*old, *new).len(),
            forall|i: int| 0 <= i < r@.len() ==> (#[trigger] r@[i])@ == change_lines(*old, *new)[i],
    {
        let mut changes: Vec<String> = Vec::new();
        if old.nats_url != new.nats_url {
            changes.push(describe_change("NATS URL", old.nats_url.as_str(), new.nats_url.as_str()));
        }
        if old.metrics_port != new.metrics_port {
            changes.push(
                describe_number_change("Metrics port", old.metrics_port as u64, new.metrics_port as u64),
            );
        }
        if old.log_level != new.log_level {
            changes.push(describe_change("Log level", old.log_level.as_str(), new.log_level.as_str()));
        }
        if old.consensus.replica_count != new.consensus.replica_count {
            changes.push(
                describe_number_change(
                    "Consensus replicas",
                    old.consensus.replica_count as u64,
                    new.consensus.replica_count as u64,
                ),
            );
        }
        proof {
            assert(changes@.map_values(|c: String| c@) =~= change_lines(*old, *new));
            assert forall|i: int| 0 <= i < changes@.len() implies (#[trigger] changes@[i])@
                == change_lines(*old, *new)[i] by {
                assert(changes@.map_values(|c: String| c@)[i] == changes@[i]@);
            }
        }
        changes
    }

    /// Puts `new_config` in force at time `now` (seconds since the Unix
    /// epoch), keeping the replaced configuration in the history. A
    /// configuration that breaks a rule is refused; one that changes none of
    /// the watched settings leaves everything as it is. Returns the
    /// descriptions of the changes, which the caller saves to the file.
    pub fn update_config(&mut self, new_config: CoreConfig, now: i64) -> (r: Result<
        Vec<String>,
        ConfigManagerError,
    >)
        ensures
            final(self).path() == old(self).path(),
            first_violation(new_config) is Some ==> r == Err::<Vec<String>, ConfigManagerError>(
                ConfigManagerError::Invalid(first_violation(new_config)->0),
            ) && final(self).current() == old(self).current() && final(self).history() == old(
                self,
            ).history(),
            first_violation(new_config) is None ==> r is Ok,
            match r {
                Ok(changes) => {
                    &&& changes@.len() == changed_count(old(self).current(), new_config)
                    &&& changes@.len() == 0 ==> final(self).current() == old(self).current()
                        && final(self).history() == old(self).history()
                    &&& changes@.len() > 0 ==> {
                        &&& final(self).current() == new_config
                        &&& final(self).history().len() == old(self).history().len() + 1
                        &&& final(self).history().drop_last() == old(self).history()
                        &&& final(self).history().last().config == old(self).current()
                        &&& final(self).history().last().timestamp == now
                        &&& final(self).history().last().changes@ == changes@
                        &&& final(self).history().last().version@ == version_label_of(now)
                    }
                },
                Err(_) => true,
            },
    {
        match new_config.validate() {
            Err(e) => {
                return Err(ConfigManagerError::Invalid(e));
            },
            Ok(()) => {},
        }
        let changes = Self::detect_changes(&self.current_config, &new_config);
        if changes.len() == 0 {
            return Ok(changes);
        }
        let mut recorded: Vec<String> = Vec::new();
        let mut i: usize = 0;
        while i < changes.len()
            invariant
                i <= changes@.len(),
                recorded@.len() == i,
                forall|j: int| 0 <= j < i ==> recorded@[j] == changes@[j],
            decreases changes@.len() - i,
        {
            recorded.push(changes[i].clone());
            i = i + 1;
        }
        proof {
            assert(recorded@ =~= changes@);
        }
        let mut previous = new_config;
        std::mem::swap(&mut previous, &mut self.current_config);
        self.version_history.push(
            ConfigVersion {
                version: version_label(now),
                timestamp: now,
                config: previous,
                changes: recorded,
            },
        );
        proof {
            assert(self.version_history@.drop_last() =~= old(self).version_history@);
        }
        Ok(changes)
    }

    /// Puts back in force the configuration kept under `version` (the
    /// earliest one with that label). The caller saves it to the file.
    pub fn rollback(&mut self, version: &str) -> (r: Result<(), ConfigManagerError>)
        ensures
            final(self).path() == old(self).path(),
            final(self).history() == old(self).history(),
            r is Ok <==> exists|i: int| first_version_at(old(self).history(), version@, i),
            r is Ok ==> exists|i: int|
                first_version_at(old(self).history(), version@, i) && final(self).current().same_as(
                    old(self).history()[i].config,
                ),
            r is Err ==> r == Err::<(), ConfigManagerError>(ConfigManagerError::VersionNotFound)
                && final(self).current() == old(self).current(),
    {
        let wanted = version.to_string();
        let mut i: usize = 0;
        while i < self.version_history.len()
            invariant
                i <= self.version_history@.len(),
                wanted@ == version@,
                self.version_history@ == old(self).version_history@,
                self.config_path == old(self).config_path,
                self.current_config == old(self).current_config,
                forall|j: int| 0 <= j < i ==> (#[trigger] self.version_history@[j]).version@ != version@,
            decreases self.version_history@.len() - i,
        {
            if self.version_history[i].version == wanted {
                let restored = self.version_history[i].config.duplicate();
                self.current_config = restored;
                proof {
                    assert(first_version_at(old(self).history(), version@, i as int));
                }
                return Ok(());
            }
            i = i + 1;
        }
        proof {
            assert forall|k: int| !first_version_at(old(self).history(), version@, k) by {
                if 0 <= k < old(self).history().len() {
                    assert(old(self).history()[k].version@ != version@);
                }
            }
        }
        Err(ConfigManagerError::VersionNotFound)
    }
}

} // verus!
