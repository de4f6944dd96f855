//! Data of the security domain and the grading of its overall security level.
use vstd::prelude::*;

verus! {

/// Overall security level of the host.
#[derive(Clone, Copy, Debug, PartialEq, Eq, Hash, Structural)]
pub enum SecurityLevel {
    Critical,
    High,
    Medium,
    Low,
    Minimal,
}

/// A detected threat.
#[derive(Clone, Debug, PartialEq, Eq)]
pub struct ThreatInfo {
    pub id: String,
    pub threat_type: ThreatType,
    pub severity: ThreatSeverity,
    pub source: String,
    pub target: String,
    pub description: String,
    /// In milliseconds since the Unix epoch.
    pub detected_at: u64,
    pub status: ThreatStatus,
    pub mitigation_actions: Vec<String>,
}

/// Kind of threat.
#[derive(Clone, Copy, Debug, PartialEq, Eq, Hash, Structural)]
pub enum ThreatType {
    Malware,
    IntrusionAttempt,
    DataBreach,
    DenialOfService,
    PrivilegeEscalation,
    SuspiciousActivity,
    PolicyViolation,
    AnomalousAccess,
}

/// Severity of a threat.
#[derive(Clone, Copy, Debug, PartialEq, Eq, Hash, Structural)]
pub enum ThreatSeverity {
    Critical,
    High,
    Medium,
    Low,
    Info,
}

/// Handling state of a threat.
#[derive(Clone, Copy, Debug, PartialEq, Eq, Hash, Structural)]
pub enum ThreatStatus {
    Active,
    Mitigated,
    Investigating,
    FalsePositive,
    Resolved,
}

/// How strongly a sandbox isolates its process.
#[derive(Clone, Copy, Debug, PartialEq, Eq, Hash, Structural)]
pub enum IsolationLevel {
    /// No isolation at all.
    Unisolated,
    Process,
    Container,
    VirtualMachine,
    HardwareAssisted,
}

/// A permission granted inside a sandbox.
#[derive(Clone, Debug, PartialEq, Eq)]
pub struct Permission {
    pub resource_type: ResourceType,
    pub access_level: AccessLevel,
    pub path: Option<String>,
}

/// Kind of resource a permission covers.
#[derive(Clone, Copy, Debug, PartialEq, Eq, Hash, Structural)]
pub enum ResourceType {
    File,
    Network,
    Process,
    Registry,
    Device,
    Memory,
}

/// Access granted by a permission.
#[derive(Clone, Copy, Debug, PartialEq, Eq, Hash, Structural)]
pub enum AccessLevel {
    /// No access at all.
    NoAccess,
    Read,
    Write,
    Execute,
    Full,
}

/// State of a sandboxed process.
#[derive(Clone, Copy, Debug, PartialEq, Eq, Hash, Structural)]
pub enum SandboxProcessStatus {
    Running,
    Suspended,
    Terminated,
    Quarantined,
}

/// State of the firewall.
#[derive(Clone, Copy, Debug, PartialEq, Eq, Structural)]
pub struct FirewallStatus {
    pub enabled: bool,
    pub active_rules: u32,
    pub blocked_connections: u64,
    pub allowed_connections: u64,
    /// In milliseconds since the Unix epoch.
    pub last_rule_update: u64,
}

/// A known vulnerability.
#[derive(Clone, Debug, PartialEq, Eq)]
pub struct VulnerabilityInfo {
    pub id: String,
    pub cve_id: Option<String>,
    pub severity: VulnerabilitySeverity,
    pub component: String,
    pub description: String,
    pub remediation: String,
    pub exploitable: bool,
}

/// Severity of a vulnerability.
#[derive(Clone, Copy, Debug, PartialEq, Eq, Hash, Structural)]
pub enum VulnerabilitySeverity {
    Critical,
    High,
    Medium,
    Low,
    Info,
}

/// State of authentication and authorization.
#[derive(Clone, Copy, Debug, PartialEq, Eq, Structural)]
pub struct AccessControlStatus {
    pub authentication_enabled: bool,
    pub authorization_enabled: bool,
    pub active_sessions: u32,
    pub failed_login_attempts: u64,
    /// In milliseconds since the Unix epoch.
    pub last_policy_update: u64,
}

/// What a firewall rule does with matching traffic.
#[derive(Clone, Copy, Debug, PartialEq, Eq, Hash, Structural)]
pub enum FirewallAction {
    Allow,
    Deny,
    Log,
    Quarantine,
}

/// Points a threat of severity `s` takes off the security score.
pub open spec fn threat_penalty(s: ThreatSeverity) -> int {
    match s {
        ThreatSeverity::Critical => 30,
        ThreatSeverity::High => 20,
        ThreatSeverity::Medium => 10,
        ThreatSeverity::Low => 5,
        ThreatSeverity::Info => 1,
    }
}

/// Points a vulnerability of severity `s` takes off the security score.
pub open spec fn vulnerability_penalty(s: VulnerabilitySeverity) -> int {
    match s {
        VulnerabilitySeverity::Critical => 25,
        VulnerabilitySeverity::High => 15,
        VulnerabilitySeverity::Medium => 8,
        VulnerabilitySeverity::Low => 3,
        VulnerabilitySeverity::Info => 1,
    }
}

/// Sum of the penalties of `threats`.
pub open spec fn threats_penalty(threats: Seq<ThreatInfo>) -> int
    decreases threats.len(),
{
    if threats.len() == 0 {
        0
    } else {
        threats_penalty(threats.drop_last()) + threat_penalty(threats.last().severity)
    }
}

/// Sum of the penalties of `vulnerabilities`.
pub open spec fn vulnerabilities_penalty(vulnerabilities: Seq<VulnerabilityInfo>) -> int
    decreases vulnerabilities.len(),
{
    if vulnerabilities.len() == 0 {
        0
    } else {
        vulnerabilities_penalty(vulnerabilities.drop_last()) + vulnerability_penalty(
            vulnerabilities.last().severity,
        )
    }
}

/// Security score: 100, less the penalties, plus 10 for an enabled firewall
/// and 10 for enabled intrusion detection.
pub open spec fn security_score(
    threats: Seq<ThreatInfo>,
    vulnerabilities: Seq<VulnerabilityInfo>,
    firewall_enabled: bool,
    intrusion_detection_enabled: bool,
) -> int {
    100 - threats_penalty(threats) - vulnerabilities_penalty(vulnerabilities) + (if firewall_enabled {
        10int
    } else {
        0int
    }) + (if intrusion_detection_enabled {
        10int
    } else {
        0int
    })
}

/// Security level for a score: High from 90, Medium from 70, Low from 50,
/// Minimal from 30, Critical below.
pub open spec fn level_for_score(score: int) -> SecurityLevel {
    if score >= 90 {
        SecurityLevel::High
    } else if score >= 70 {
        SecurityLevel::Medium
    } else if score >= 50 {
        SecurityLevel::Low
    } else if score >= 30 {
        SecurityLevel::Minimal
    } else {
        SecurityLevel::Critical
    }
}

/// Grades the host's security from its active threats, its known
/// vulnerabilities and whether the firewall and intrusion detection run.
pub fn calculate_overall_security_level(
    threats: &Vec<ThreatInfo>,
    vulnerabilities: &Vec<VulnerabilityInfo>,
    firewall: &FirewallStatus,
    intrusion_detection_enabled: bool,
) -> (r: SecurityLevel)
    ensures
        r == level_for_score(
            security_score(threats@, vulnerabilities@, firewall.enabled, intrusion_detection_enabled),
        ),
{
    let mut penalty: u128 = 0;
    let mut i: usize = 0;
    while i < threats.len()
        invariant
            i <= threats@.len(),
            penalty == threats_penalty(threats@.take(i as int)),
            penalty <= 30 * i,
        decreases threats@.len() - i,
    {
        proof {
            assert(threats@.take(i + 1).drop_last() =~= threats@.take(i as int));
        }
        let p: u128 = match threats[i].severity {
            ThreatSeverity::Critical => 30,
            ThreatSeverity::High => 20,
            ThreatSeverity::Medium => 10,
            ThreatSeverity::Low => 5,
            ThreatSeverity::Info => 1,
        };
        penalty = penalty + p;
        i = i + 1;
    }
    proof {
        assert(threats@.take(i as int) =~= threats@);
    }
    let mut j: usize = 0;
    let ghost tp = penalty as int;
    while j < vulnerabilities.len()
        invariant
            j <= vulnerabilities@.len(),
            tp <= 30 * usize::MAX,
            penalty == tp + vulnerabilities_penalty(vulnerabilities@.take(j as int)),
            penalty <= tp + 25 * j,
        decreases vulnerabilities@.len() - j,
    {
        proof {
            assert(vulnerabilities@.take(j + 1).drop_last() =~= vulnerabilities@.take(j as int));
        }
        let p: u128 = match vulnerabilities[j].severity {
            VulnerabilitySeverity::Critical => 25,
            VulnerabilitySeverity::High => 15,
            VulnerabilitySeverity::Medium => 8,
            VulnerabilitySeverity::Low => 3,
            VulnerabilitySeverity::Info => 1,
        };
        penalty = penalty + p;
        j = j + 1;
    }
    proof {
        assert(vulnerabilities@.take(j as int) =~= vulnerabilities@);
    }
    let mut bonus: u128 = 100;
    if firewall.enabled {
        bonus = bonus + 10;
    }
    if intrusion_detection_enabled {
        bonus = bonus + 10;
    }
    if bonus >= penalty + 90 {
        SecurityLevel::High
    } else if bonus >= penalty + 70 {
        SecurityLevel::Medium
    } else if bonus >= penalty + 50 {
        SecurityLevel::Low
    } else if bonus >= penalty + 30 {
        SecurityLevel::Minimal
    } else {
        SecurityLevel::Critical
    }
}

/// Positions of the critical threats of `threats`, in order.
pub open spec fn critical_threats(threats: Seq<ThreatInfo>) -> Seq<int>
    decreases threats.len(),
{
    if threats.len() == 0 {
        Seq::empty()
    } else if threats.last().severity == ThreatSeverity::Critical {
        critical_threats(threats.drop_last()).push(threats.len() - 1)
    } else {
        critical_threats(threats.drop_last())
    }
}

/// Positions of the critical, exploitable vulnerabilities of `vs`, in order.
pub open spec fn critical_vulnerabilities(vs: Seq<VulnerabilityInfo>) -> Seq<int>
    decreases vs.len(),
{
    if vs.len() == 0 {
        Seq::empty()
    } else if vs.last().severity == VulnerabilitySeverity::Critical && vs.last().exploitable {
        critical_vulnerabilities(vs.drop_last()).push(vs.len() - 1)
    } else {
        critical_vulnerabilities(vs.drop_last())
    }
}

/// What calls for an alert: the positions of the critical threats, and of
/// the critical vulnerabilities that can be exploited.
pub fn check_security_alerts(threats: &Vec<ThreatInfo>, vulnerabilities: &Vec<VulnerabilityInfo>) -> (r: (
    Vec<usize>,
    Vec<usize>,
))
    ensures
        r.0@.map_values(|i: usize| i as int) == critical_threats(threats@),
        r.1@.map_values(|i: usize| i as int) == critical_vulnerabilities(vulnerabilities@),
{
    let mut t: Vec<usize> = Vec::new();
    let mut i: usize = 0;
    while i < threats.len()
        invariant
            i <= threats@.len(),
            t@.map_values(|k: usize| k as int) == critical_threats(threats@.take(i as int)),
        decreases threats@.len() - i,
    {
        proof {
            assert(threats@.take(i + 1).drop_last() =~= threats@.take(i as int));
        }
        let ghost before = t@;
        if threats[i].severity == ThreatSeverity::Critical {
            t.push(i);
            proof {
                assert(t@.map_values(|k: usize| k as int) =~= before.map_values(|k: usize| k as int).push(
                    i as int,
                ));
            }
        }
        i = i + 1;
    }
    proof {
        assert(threats@.take(i as int) =~= threats@);
    }
    let mut v: Vec<usize> = Vec::new();
    let mut j: usize = 0;
    while j < vulnerabilities.len()
        invariant
            j <= vulnerabilities@.len(),
            v@.map_values(|k: usize| k as int) == critical_vulnerabilities(
                vulnerabilities@.take(j as int),
            ),
        decreases vulnerabilities@.len() - j,
    {
        proof {
            assert(vulnerabilities@.take(j + 1).drop_last() =~= vulnerabilities@.take(j as int));
        }
        let ghost before = v@;
        if vulnerabilities[j].severity == VulnerabilitySeverity::Critical
            && vulnerabilities[j].exploitable {
            v.push(j);
            proof {
                assert(v@.map_values(|k: usize| k as int) =~= before.map_values(|k: usize| k as int).push(
                    j as int,
                ));
            }
        }
        j = j + 1;
    }
    proof {
        assert(vulnerabilities@.take(j as int) =~= vulnerabilities@);
    }
    (t, v)
}

/// Runs process sandboxes.
pub struct SandboxManager {}

impl SandboxManager {
    pub fn new() -> (r: Self) {
        SandboxManager {  }
    }
}

/// Holds the firewall rules.
pub struct FirewallManager {}

impl FirewallManager {
    pub fn new() -> (r: Self) {
        FirewallManager {  }
    }

    /// Current firewall state, read at `now`.
    pub fn get_status(&self, now: u64) -> (r: FirewallStatus)
        ensures
            r == (FirewallStatus {
                enabled: true,
                active_rules: 25,
                blocked_connections: 150,
                allowed_connections: 5000,
                last_rule_update: now,
            }),
    {
        FirewallStatus {
            enabled: true,
            active_rules: 25,
            blocked_connections: 150,
            allowed_connections: 5000,
            last_rule_update: now,
        }
    }
}

/// Scans for known vulnerabilities.
pub struct VulnerabilityScanner {}

impl VulnerabilityScanner {
    pub fn new() -> (r: Self) {
        VulnerabilityScanner {  }
    }
}

/// Watches for intrusions.
pub struct IntrusionDetector {}

impl IntrusionDetector {
    pub fn new() -> (r: Self) {
        IntrusionDetector {  }
    }
}

} // verus!
