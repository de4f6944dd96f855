use std::collections::hash_map::DefaultHasher;
use std::hash::{Hash, Hasher};
use saai_core::communication::{get_subject_for_event, EventPriority, EventType};
use saai_core::config::{
    ConfigError, ConfigManager, ConfigManagerError, CoreConfig, NetworkCoreConfig,
    PerformanceConfig, SecurityConfig, SecurityCoreConfig,
};
use saai_core::consensus::{ConsensusConfig, ConsensusManager, ReplicaState};
use saai_core::metrics::MetricsConfig;
use saai_core::nano_cores::hardware_core::{
    check_hardware_alerts, DiskUsage, FailingComponent, FailurePredictor, HardwareAlert,
    HardwareOptimization, HardwareOptimizer, HardwareSample, RiskLevel, ThermalMonitor,
    ThermalState,
};
use saai_core::nano_cores::network_core::{hash_clock_reading, random, InterfaceStatistics};
use saai_core::nano_cores::security_core::{
    calculate_overall_security_level, check_security_alerts, FirewallManager, FirewallStatus, SecurityLevel as HostLevel,
    ThreatInfo, ThreatSeverity, ThreatStatus, ThreatType, VulnerabilityInfo,
    VulnerabilitySeverity,
};
use saai_core::nano_cores::{
    overall_state, CoreLoopAction, NanoCoreHealth, NanoCoreManager, NanoCoreState, NanoCoreType,
    OrchestrationError,
};
use saai_core::security::{
    contains_bytes, AuthorizationDecision, IntegrityVerifier, SecurityContext, SecurityEvent,
    SecurityEventType, SecurityLevel, SecuritySeverity, ThreatDetector, ThreatPattern,
    ThreatPatternType,
};

fn health(id: u128, state: NanoCoreState) -> NanoCoreHealth {
    NanoCoreHealth {
        core_type: NanoCoreType::OS,
        instance_id: id,
        state,
        cpu_usage: 1500,
        memory_usage: 2500,
        last_heartbeat: 0,
        error_count: 0,
        uptime_seconds: 1,
    }
}

#[test]
fn overall_state_thresholds() {
    assert_eq!(overall_state(5, 5), NanoCoreState::Running);
    assert_eq!(overall_state(4, 5), NanoCoreState::Degraded);
    assert_eq!(overall_state(3, 5), NanoCoreState::Degraded);
    assert_eq!(overall_state(1, 2), NanoCoreState::Failed);
    assert_eq!(overall_state(0, 0), NanoCoreState::Failed);
}

#[test]
fn health_status_counts_failed_checks() {
    let mut m = NanoCoreManager::new(CoreConfig::default());
    m.start_nano_core(NanoCoreType::OS, vec![1, 2, 3]).unwrap();
    m.start_nano_core(NanoCoreType::Network, vec![4, 5, 6]).unwrap();
    assert_eq!(m.started_domains(), vec![NanoCoreType::OS, NanoCoreType::Network]);
    let reports = vec![
        vec![Some(health(1, NanoCoreState::Running)), None, Some(health(3, NanoCoreState::Running))],
        vec![None, None, None],
    ];
    let h = m.get_health_status(&reports, 950, 2500);
    assert_eq!(h.cores.len(), 2);
    assert_eq!(h.cores[0].core_type, NanoCoreType::OS);
    assert_eq!(h.cores[0].instances.len(), 2);
    assert_eq!(h.cores[1].core_type, NanoCoreType::Network);
    assert!(h.cores[1].instances.is_empty());
    assert_eq!(h.overall_state, NanoCoreState::Failed);
    assert!(!h.is_healthy());
    let all = vec![
        vec![Some(health(1, NanoCoreState::Running)); 3],
        vec![Some(health(4, NanoCoreState::Running)); 3],
    ];
    assert!(m.get_health_status(&all, 950, 2500).is_healthy());
    assert!(!m.get_health_status(&all, 950, 10000).is_healthy());
    let mostly = vec![
        vec![Some(health(1, NanoCoreState::Running)); 3],
        vec![Some(health(4, NanoCoreState::Running)), Some(health(5, NanoCoreState::Degraded)), None],
    ];
    assert_eq!(m.get_health_status(&mostly, 950, 0).overall_state, NanoCoreState::Degraded);
}

#[test]
fn start_needs_the_configured_replica_count() {
    let mut m = NanoCoreManager::new(CoreConfig::default());
    assert_eq!(
        m.start_nano_core(NanoCoreType::Network, vec![1, 2]),
        Err(OrchestrationError::WrongReplicaCount { given: 2, required: 3 })
    );
    assert!(!m.is_running());
    assert!(m.start_nano_core(NanoCoreType::Network, vec![1, 2, 3]).is_ok());
    assert!(m.is_running());
    assert_eq!(m.instances(NanoCoreType::Network), Some(vec![1, 2, 3]));
    assert_eq!(m.instances(NanoCoreType::OS), None);
}

#[test]
fn hot_swap_keeps_replica_count_and_registers_newcomer() {
    let mut m = NanoCoreManager::new(CoreConfig::default());
    m.start_nano_core(NanoCoreType::Security, vec![1, 2, 3]).unwrap();
    let mut c = ConsensusManager::new(ConsensusConfig::default());
    m.register_cores_in_consensus(&mut c, 0);
    assert_eq!(m.core_loop_step(false), CoreLoopAction::RecordFailureAndReplace);
    assert_eq!(m.core_loop_step(true), CoreLoopAction::RecordSuccess);
    assert_eq!(m.hot_swap(&mut c, NanoCoreType::Security, 1, 9, 5), Ok(2));
    assert_eq!(m.instances(NanoCoreType::Security), Some(vec![1, 9, 3]));
    assert_eq!(c.replica_state(9), Some(ReplicaState::Healthy));
    assert_eq!(c.replica(9).unwrap().instance_type, "Security");
    assert_eq!(
        m.hot_swap(&mut c, NanoCoreType::Security, 3, 10, 5),
        Err(OrchestrationError::NoSuchSlot { core_type: NanoCoreType::Security, slot: 3 })
    );
    assert_eq!(m.replace_instance(NanoCoreType::OS, 0, 11), Err(OrchestrationError::DomainNotStarted(NanoCoreType::OS)));
}

#[test]
fn shutdown_hands_back_every_replica() {
    let mut m = NanoCoreManager::new(CoreConfig::default());
    m.start_nano_core(NanoCoreType::OS, vec![1, 2, 3]).unwrap();
    m.start_nano_core(NanoCoreType::Hardware, vec![4, 5, 6]).unwrap();
    let gone = m.shutdown();
    assert_eq!(gone.len(), 2);
    assert_eq!(gone[1].instances, vec![4, 5, 6]);
    assert!(!m.is_running());
    assert_eq!(m.core_loop_step(true), CoreLoopAction::Stop);
    assert_eq!(m.instances(NanoCoreType::OS), None);
}

#[test]
fn reregistration_resets_in_place() {
    let mut c = ConsensusManager::new(ConsensusConfig::default());
    c.register_participant(1, "OS".to_string(), 0);
    c.register_participant(2, "OS".to_string(), 0);
    c.record_health_check(1, saai_core::consensus::HealthReport::Failure, 1);
    c.register_participant(1, "Network".to_string(), 4);
    assert_eq!(c.replica_count(), 2);
    assert_eq!(c.replica_state(1), Some(ReplicaState::Healthy));
    assert_eq!(c.replica(1).unwrap().failure_count, 0);
    assert_eq!(c.replica(1).unwrap().instance_type, "Network");
}

#[test]
fn default_config_is_valid() {
    let c = CoreConfig::default();
    assert_eq!(c.validate(), Ok(()));
    assert_eq!(CoreConfig::development().validate(), Ok(()));
    assert_eq!(CoreConfig::production().consensus.replica_count, 5);
    assert_eq!(NetworkCoreConfig::default().max_connections, 10000);
    assert_eq!(SecurityCoreConfig::default().encryption_algorithm, "AES-256-GCM");
    assert_eq!(SecurityConfig::default().encryption_key_size, 256);
    assert!(PerformanceConfig::default().thread_pool_size >= 1);
    assert_eq!(MetricsConfig::default().port, 9090);
    assert_eq!(MetricsConfig::with_port(8080).retention_hours, 24);
}

#[test]
fn validation_reports_first_broken_rule() {
    let mut c = CoreConfig::default();
    c.consensus.replica_count = 2;
    assert_eq!(c.validate(), Err(ConfigError::TooFewReplicas));
    c.nats_url = String::new();
    assert_eq!(c.validate(), Err(ConfigError::EmptyNatsUrl));
    let mut d = CoreConfig::default();
    d.consensus.byzantine_tolerance = 500;
    assert_eq!(d.validate(), Err(ConfigError::ByzantineToleranceOutOfRange));
    let mut e = CoreConfig::default();
    e.nano_cores.os_core.resource_limits.max_cpu_percent = 10001;
    assert_eq!(e.validate(), Err(ConfigError::CpuLimitOutOfRange));
    let mut f = CoreConfig::default();
    f.performance.async_runtime_threads = 0;
    assert_eq!(f.validate(), Err(ConfigError::ZeroRuntimeThreads));
    let mut g = CoreConfig::default();
    g.nano_cores.hardware_core.temperature_threshold = 0;
    assert_eq!(g.validate(), Err(ConfigError::NonPositiveTemperatureThreshold));
}

#[test]
fn config_update_and_rollback() {
    let mut m = ConfigManager::new(CoreConfig::default(), "config/core.toml".to_string());
    assert_eq!(m.update_config(CoreConfig::default(), 100).unwrap().len(), 0);
    assert_eq!(m.get_version_history().len(), 0);
    let mut bad = CoreConfig::default();
    bad.metrics_port = 0;
    assert!(matches!(m.update_config(bad, 100), Err(ConfigManagerError::Invalid(ConfigError::ZeroMetricsPort))));
    let changes = m.update_config(CoreConfig::production(), 100).unwrap();
    assert_eq!(changes.len(), 2);
    assert_eq!(changes[0], "Log level: info -> warn");
    assert_eq!(changes[1], "Consensus replicas: 3 -> 5");
    assert_eq!(m.get_version_history()[0].version, "v100");
    assert_eq!(m.get_config().consensus.replica_count, 5);
    assert_eq!(m.rollback("v100"), Ok(()));
    assert_eq!(m.get_config().consensus.replica_count, 3);
    assert_eq!(m.rollback("v7"), Err(ConfigManagerError::VersionNotFound));
}

#[test]
fn event_subjects() {
    assert_eq!(get_subject_for_event(&EventType::ConsensusVote), "saai.consensus.votes");
    assert_eq!(get_subject_for_event(&EventType::HealthCheck), "saai.health");
    assert_eq!(get_subject_for_event(&EventType::Custom("x".to_string())), "saai.custom.x");
    assert_eq!(EventPriority::Critical.rank(), 0);
    assert_eq!(EventPriority::Low.rank(), 3);
}

#[test]
fn thermal_classification() {
    let t = ThermalMonitor::new();
    assert_eq!(t.classify(&vec![]), ThermalState::Optimal);
    assert_eq!(t.classify(&vec![550, 700]), ThermalState::Warm);
    assert_eq!(t.classify(&vec![849]), ThermalState::Hot);
    assert_eq!(t.classify(&vec![300, 850]), ThermalState::Critical);
}

fn threat(severity: ThreatSeverity) -> ThreatInfo {
    ThreatInfo {
        id: "t".to_string(),
        threat_type: ThreatType::Malware,
        severity,
        source: "s".to_string(),
        target: "t".to_string(),
        description: "d".to_string(),
        detected_at: 0,
        status: ThreatStatus::Active,
        mitigation_actions: vec![],
    }
}

fn vuln(severity: VulnerabilitySeverity) -> VulnerabilityInfo {
    VulnerabilityInfo {
        id: "v".to_string(),
        cve_id: None,
        severity,
        component: "c".to_string(),
        description: "d".to_string(),
        remediation: "r".to_string(),
        exploitable: true,
    }
}

#[test]
fn security_level_grading() {
    let fw = FirewallManager::new().get_status(3);
    assert_eq!(fw.last_rule_update, 3);
    assert_eq!(calculate_overall_security_level(&vec![], &vec![], &fw, true), HostLevel::High);
    let off = FirewallStatus { enabled: false, ..fw };
    assert_eq!(calculate_overall_security_level(&vec![threat(ThreatSeverity::Critical)], &vec![], &off, false), HostLevel::Medium);
    assert_eq!(
        calculate_overall_security_level(&vec![threat(ThreatSeverity::Critical)], &vec![vuln(VulnerabilitySeverity::Critical)], &off, false),
        HostLevel::Minimal
    );
    assert_eq!(
        calculate_overall_security_level(&vec![threat(ThreatSeverity::Critical), threat(ThreatSeverity::High)], &vec![vuln(VulnerabilitySeverity::Critical)], &off, false),
        HostLevel::Critical
    );
}

#[test]
fn integrity_digest() {
    let abc = "ba7816bf8f01cfea414140de5dae2223b00361a396177a9cb410ff61f20015ad";
    assert_eq!(IntegrityVerifier::calculate_hash(b"abc"), abc);
    assert!(IntegrityVerifier::verify_integrity(b"abc", abc));
    assert!(!IntegrityVerifier::verify_integrity(b"abd", abc));
    assert!(IntegrityVerifier::digest_matches(&[0x0f, 0xa0], "0fa0"));
    assert!(!IntegrityVerifier::digest_matches(&[0x0f, 0xa0], "0FA0"));
}

#[test]
fn authorization_checks_level_then_permission() {
    let ctx = SecurityContext {
        user_id: Some("u".to_string()),
        session_id: 1,
        security_level: SecurityLevel::Confidential,
        permissions: vec!["read".to_string(), "write".to_string()],
        source_ip: None,
        timestamp: 0,
    };
    assert_eq!(ctx.check_authorization("write", SecurityLevel::Internal), AuthorizationDecision::Granted);
    assert_eq!(ctx.check_authorization("write", SecurityLevel::Secret), AuthorizationDecision::InsufficientLevel);
    assert_eq!(ctx.check_authorization("admin", SecurityLevel::Public), AuthorizationDecision::MissingPermission);
}

fn event(kind: SecurityEventType, description: &str, t: i64) -> SecurityEvent {
    SecurityEvent {
        id: 0,
        event_type: kind,
        severity: SecuritySeverity::Low,
        source: "session-1".to_string(),
        target: None,
        description: description.to_string(),
        context: vec![],
        timestamp: t,
    }
}

#[test]
fn frequent_failures_raise_a_threat() {
    let mut d = ThreatDetector::new();
    for k in 0..5 {
        assert!(d.analyze_event(event(SecurityEventType::AuthenticationFailure, "bad password", 1000 + k), 1010, 50).is_empty());
    }
    let old = d.analyze_event(event(SecurityEventType::AuthorizationDenied, "x", 1), 1010, 50);
    assert!(old.is_empty());
    let threats = d.analyze_event(event(SecurityEventType::AuthenticationFailure, "bad password", 1006), 1010, 50);
    assert_eq!(threats.len(), 1);
    assert_eq!(threats[0].id, 50);
    assert_eq!(threats[0].event_type, SecurityEventType::ThreatDetected);
    assert_eq!(threats[0].target, Some("session-1".to_string()));
    assert_eq!(threats[0].description, "Pattern detected: Frequent authentication failures");
    assert_eq!(threats[0].context[0], ("pattern_id".to_string(), "freq_auth_fail".to_string()));
    assert_eq!(threats[0].context[1], ("event_count".to_string(), "6".to_string()));
    assert_eq!(d.count_recent(SecurityEventType::AuthenticationFailure, 2000), 0);
}

#[test]
fn keywords_match_whatever_the_case() {
    let mut d = ThreatDetector::new();
    d.add_pattern(ThreatPattern {
        id: "kw".to_string(),
        name: "Keywords".to_string(),
        description: "k".to_string(),
        pattern_type: ThreatPatternType::SuspiciousPattern { keywords: vec!["rootkit".to_string(), "Exfil".to_string()] },
        severity: SecuritySeverity::Critical,
        enabled: true,
    });
    let threats = d.analyze_event(event(SecurityEventType::SuspiciousActivity, "Possible EXFILTRATION", 5), 5, 7);
    assert_eq!(threats.len(), 1);
    assert_eq!(threats[0].description, "Suspicious activity detected: Exfil");
    assert_eq!(threats[0].context[1], ("keyword".to_string(), "Exfil".to_string()));
    assert_eq!(threats[0].id, 7);
    assert_eq!(threats[0].severity, SecuritySeverity::Critical);
    assert!(d.analyze_event(event(SecurityEventType::SuspiciousActivity, "nothing", 5), 5, 7).is_empty());
}

#[test]
fn byte_search() {
    assert!(contains_bytes(&b"hello".to_vec(), &b"ell".to_vec()));
    assert!(contains_bytes(&b"hello".to_vec(), &vec![]));
    assert!(!contains_bytes(&b"hello".to_vec(), &b"hex".to_vec()));
    assert!(!contains_bytes(&b"he".to_vec(), &b"hello".to_vec()));
}

#[test]
fn clock_readings_hash_deterministically() {
    assert_eq!(hash_clock_reading(42), hash_clock_reading(42));
    assert_ne!(hash_clock_reading(42), hash_clock_reading(43));
    let mut h = DefaultHasher::new();
    42u128.hash(&mut h);
    assert_eq!(h.finish(), hash_clock_reading(42));
    let _ = random();
}

#[test]
fn optimizer_steps() {
    let o = HardwareOptimizer::new();
    assert!(o.optimize(8000, 700, Some(750)).is_empty());
    assert_eq!(
        o.optimize(8001, 701, Some(751)),
        vec![HardwareOptimization::RebalanceCpuLoad, HardwareOptimization::OptimizeMemory, HardwareOptimization::AdjustThermalProfile]
    );
    assert_eq!(o.optimize(0, 900, None), vec![HardwareOptimization::OptimizeMemory]);
}

#[test]
fn failure_predictions() {
    let mut p = FailurePredictor::new();
    let sample = HardwareSample {
        cpu_temperature: Some(950),
        memory_pressure: 850,
        disks: vec![DiskUsage { name: "sda".to_string(), usage: 9900 }, DiskUsage { name: "sdb".to_string(), usage: 5000 }],
    };
    let r = p.analyze(sample);
    assert_eq!(r.len(), 3);
    assert_eq!(r[0].component, FailingComponent::Cpu);
    assert_eq!(r[0].risk_level, RiskLevel::Critical);
    assert_eq!(r[0].probability, 750);
    assert_eq!(r[0].time_to_failure, Some(18000));
    assert_eq!(r[1].component, FailingComponent::Memory);
    assert_eq!(r[1].probability, 850);
    assert_eq!(r[2].component, FailingComponent::Disk("sda".to_string()));
    assert_eq!(r[2].probability, 900);
    assert_eq!(r[2].time_to_failure, Some(86400));
    let calm = HardwareSample { cpu_temperature: Some(800), memory_pressure: 800, disks: vec![] };
    assert!(p.analyze(calm).is_empty());
}

#[test]
fn error_rate_threshold() {
    let mut s = InterfaceStatistics {
        bytes_sent: 0,
        bytes_received: 0,
        packets_sent: 50,
        packets_received: 50,
        errors_sent: 3,
        errors_received: 2,
        dropped_sent: 0,
        dropped_received: 0,
        collisions: 0,
    };
    assert!(!s.has_high_error_rate());
    s.errors_sent = 4;
    assert!(s.has_high_error_rate());
    s.packets_sent = 0;
    s.packets_received = 0;
    assert!(!s.has_high_error_rate());
}

#[test]
fn hardware_alert_thresholds() {
    let disks = vec![DiskUsage { name: "a".to_string(), usage: 9501 }, DiskUsage { name: "b".to_string(), usage: 9500 }];
    assert_eq!(
        check_hardware_alerts(Some(851), 9001, &disks),
        vec![HardwareAlert::CriticalTemperature(851), HardwareAlert::CriticalMemory(9001), HardwareAlert::CriticalDiskSpace("a".to_string(), 9501)]
    );
    assert!(check_hardware_alerts(Some(850), 9000, &vec![]).is_empty());
    assert!(check_hardware_alerts(None, 0, &vec![]).is_empty());
}

#[test]
fn security_alert_selection() {
    let mut harmless = vuln(VulnerabilitySeverity::Critical);
    harmless.exploitable = false;
    let (t, v) = check_security_alerts(
        &vec![threat(ThreatSeverity::High), threat(ThreatSeverity::Critical)],
        &vec![harmless, vuln(VulnerabilitySeverity::High), vuln(VulnerabilitySeverity::Critical)],
    );
    assert_eq!(t, vec![1]);
    assert_eq!(v, vec![2]);
}
