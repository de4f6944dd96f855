//! Security levels, security events, integrity digests and authorization
//! checks.
use crate::text::{decimal_of, decimal_text};
use vstd::prelude::*;
use vstd::string::StringExecFns;

verus! {

/// Global switches of the security manager.
#[derive(Clone, Copy, Debug, PartialEq, Eq, Structural)]
pub struct SecurityConfig {
    pub enable_sandboxing: bool,
    pub encryption_enabled: bool,
    pub integrity_checks: bool,
    pub threat_detection: bool,
    pub audit_logging: bool,
}

/// Clearance levels, from least to most restricted.
#[derive(Clone, Copy, Debug, PartialEq, Eq, Hash, PartialOrd, Ord, Structural)]
pub enum SecurityLevel {
    Public,
    Internal,
    Confidential,
    Secret,
    TopSecret,
}

/// Kinds of security events.
#[derive(Clone, Copy, Debug, PartialEq, Eq, Hash, Structural)]
pub enum SecurityEventType {
    AuthenticationFailure,
    AuthorizationDenied,
    SuspiciousActivity,
    IntegrityViolation,
    EncryptionFailure,
    SandboxBreach,
    AnomalousAccess,
    ThreatDetected,
}

/// Severity of security events, from least to most severe.
#[derive(Clone, Copy, Debug, PartialEq, Eq, Hash, PartialOrd, Ord, Structural)]
pub enum SecuritySeverity {
    Info,
    Low,
    Medium,
    High,
    Critical,
}

/// Rank of a clearance level: 0 for Public up to 4 for TopSecret.
pub open spec fn level_rank(l: SecurityLevel) -> int {
    match l {
        SecurityLevel::Public => 0,
        SecurityLevel::Internal => 1,
        SecurityLevel::Confidential => 2,
        SecurityLevel::Secret => 3,
        SecurityLevel::TopSecret => 4,
    }
}

impl SecurityLevel {
    /// Rank of the level: 0 for Public up to 4 for TopSecret.
    pub fn rank(&self) -> (r: u8)
        ensures
            r == level_rank(*self),
    {
        match self {
            SecurityLevel::Public => 0,
            SecurityLevel::Internal => 1,
            SecurityLevel::Confidential => 2,
            SecurityLevel::Secret => 3,
            SecurityLevel::TopSecret => 4,
        }
    }
}

/// Identity and rights of a session.
#[derive(Clone, Debug)]
pub struct SecurityContext {
    pub user_id: Option<String>,
    pub session_id: u128,
    pub security_level: SecurityLevel,
    pub permissions: Vec<String>,
    pub source_ip: Option<String>,
    /// In milliseconds since the Unix epoch.
    pub timestamp: u64,
}

/// Outcome of an authorization check.
#[derive(Clone, Copy, Debug, PartialEq, Eq, Structural)]
pub enum AuthorizationDecision {
    Granted,
    /// The session's clearance is below the required level.
    InsufficientLevel,
    /// The session lacks the required permission.
    MissingPermission,
}

/// One of `permissions` is `wanted`.
pub open spec fn has_permission(permissions: Seq<String>, wanted: Seq<char>) -> bool {
    exists|i: int| 0 <= i < permissions.len() && (#[trigger] permissions[i])@ == wanted
}

impl SecurityContext {
    /// Whether the session may act with `required_permission` at
    /// `required_level`: its level must be at least the required one, then
    /// the permission must be among its own.
    pub fn check_authorization(&self, required_permission: &str, required_level: SecurityLevel) -> (r:
        AuthorizationDecision)
        ensures
            r == if level_rank(self.security_level) < level_rank(required_level) {
                AuthorizationDecision::InsufficientLevel
            } else if has_permission(self.permissions@, required_permission@) {
                AuthorizationDecision::Granted
            } else {
                AuthorizationDecision::MissingPermission
            },
    {
        let own = self.security_level.rank();
        let needed = required_level.rank();
        if own < needed {
            return AuthorizationDecision::InsufficientLevel;
        }
        let wanted = required_permission.to_string();
        let mut i: usize = 0;
        while i < self.permissions.len()
            invariant
                i <= self.permissions@.len(),
                wanted@ == required_permission@,
                level_rank(self.security_level) >= level_rank(required_level),
                forall|j: int| 0 <= j < i ==> (#[trigger] self.permissions@[j])@ != required_permission@,
            decreases self.permissions@.len() - i,
        {
            let found = self.permissions[i].eq(&wanted);
            if found {
                proof {
                    assert(self.permissions@[i as int]@ == required_permission@);
                    assert(has_permission(self.permissions@, required_permission@));
                }
                return AuthorizationDecision::Granted;
            }
            i = i + 1;
        }
        AuthorizationDecision::MissingPermission
    }
}

/// The SHA-256 digest of `data`, as ring computes it.
pub uninterp spec fn sha256_of(data: Seq<u8>) -> Seq<u8>;

/// Relies on ring::digest::digest with SHA256: the 32-byte digest of the
/// data. ring refuses inputs of 2^61 bytes or more.
#[verifier::external_body]
fn sha256_digest(data: &[u8]) -> (r: Vec<u8>)
    requires
        data@.len() < 0x2000_0000_0000_0000,
    ensures
        r@ == sha256_of(data@),
        r@.len() == 32,
{
    ring::digest::digest(&ring::digest::SHA256, data).as_ref().to_vec()
}

/// Lower-case hexadecimal digit for `n` in 0..16.
pub open spec fn hex_digit(n: int) -> char {
    seq!['0', '1', '2', '3', '4', '5', '6', '7', '8', '9', 'a', 'b', 'c', 'd', 'e', 'f'][n]
}

/// Lower-case hexadecimal text of `bytes`: two digits per byte, the high
/// half first.
pub open spec fn hex_of(bytes: Seq<u8>) -> Seq<char>
    decreases bytes.len(),
{
    if bytes.len() == 0 {
        Seq::empty()
    } else {
        hex_of(bytes.drop_last()).push(hex_digit(bytes.last() as int / 16)).push(
            hex_digit(bytes.last() as int % 16),
        )
    }
}

/// Relies on hex::encode: two lower-case digits per byte, high half first.
#[verifier::external_body]
fn hex_encode(bytes: &[u8]) -> (r: String)
    ensures
        r@ == hex_of(bytes@),
{
    hex::encode(bytes)
}

/// Digests that guard the integrity of data.
pub struct IntegrityVerifier {}

impl IntegrityVerifier {
    /// Hexadecimal SHA-256 digest of `data`.
    pub fn calculate_hash(data: &[u8]) -> (r: String)
        requires
            data@.len() < 0x2000_0000_0000_0000,
        ensures
            r@ == hex_of(sha256_of(data@)),
    {
        let digest = sha256_digest(data);
        hex_encode(digest.as_slice())
    }

    /// Whether `digest`, written in hexadecimal, is `expected_hash`.
    pub fn digest_matches(digest: &[u8], expected_hash: &str) -> (r: bool)
        ensures
            r == (hex_of(digest@) == expected_hash@),
    {
        let calculated = hex_encode(digest);
        let expected = expected_hash.to_string();
        calculated == expected
    }

    /// Whether `data` has the hexadecimal SHA-256 digest `expected_hash`.
    pub fn verify_integrity(data: &[u8], expected_hash: &str) -> (r: bool)
        requires
            data@.len() < 0x2000_0000_0000_0000,
        ensures
            r == (hex_of(sha256_of(data@)) == expected_hash@),
    {
        let digest = sha256_digest(data);
        Self::digest_matches(digest.as_slice(), expected_hash)
    }
}

/// A security event.
#[derive(Clone, Debug)]
pub struct SecurityEvent {
    pub id: u128,
    pub event_type: SecurityEventType,
    pub severity: SecuritySeverity,
    pub source: String,
    pub target: Option<String>,
    pub description: String,
    /// Key-value details of the event.
    pub context: Vec<(String, String)>,
    /// In seconds since the Unix epoch.
    pub timestamp: i64,
}

/// A rule that turns security events into detected threats.
pub struct ThreatPattern {
    pub id: String,
    pub name: String,
    pub description: String,
    pub pattern_type: ThreatPatternType,
    pub severity: SecuritySeverity,
    pub enabled: bool,
}

/// How a threat pattern recognises a threat.
pub enum ThreatPatternType {
    /// More than `max_events` events of one kind within `window_seconds`.
    FrequencyAnomaly { max_events: u32, window_seconds: u64 },
    /// The event's description mentions a keyword, whatever the case.
    SuspiciousPattern { keywords: Vec<String> },
    AccessAnomaly { unusual_times: bool, unusual_locations: bool },
    /// `cpu_threshold` in hundredths of a percent.
    ResourceAbuse { cpu_threshold: u32, memory_threshold: u64 },
}

/// What std's `to_lowercase` makes of the text `s`, as UTF-8 bytes.
pub uninterp spec fn lower_bytes_of(s: Seq<char>) -> Seq<u8>;

/// Relies on str::to_lowercase: the lower-case form of the text, as bytes.
#[verifier::external_body]
fn lowercase_bytes(s: &str) -> (r: Vec<u8>)
    ensures
        r@ == lower_bytes_of(s@),
{
    s.to_lowercase().into_bytes()
}

/// `prefix` followed by `name`.
fn describe(prefix: &str, name: &String) -> (r: String)
    ensures
        r@ == prefix@ + name@,
{
    let mut text = prefix.to_string();
    text.append(name.as_str());
    text
}

/// `needle` occurs in `hay` at position `i`.
pub open spec fn occurs_at(hay: Seq<u8>, needle: Seq<u8>, i: int) -> bool {
    0 <= i && i + needle.len() <= hay.len() && hay.subrange(i, i + needle.len()) == needle
}

/// `needle` occurs somewhere in `hay`.
pub open spec fn occurs_in(hay: Seq<u8>, needle: Seq<u8>) -> bool {
    exists|i: int| occurs_at(hay, needle, i)
}

/// Whether `needle` occurs in `hay`.
pub fn contains_bytes(hay: &Vec<u8>, needle: &Vec<u8>) -> (r: bool)
    ensures
        r == occurs_in(hay@, needle@),
{
    if needle.len() > hay.len() {
        proof {
            assert forall|i: int| !occurs_at(hay@, needle@, i) by {}
        }
        return false;
    }
    let hay_len = hay.len();
    let last = hay_len - needle.len();
    let mut i: usize = 0;
    while i <= last
        invariant
            last == hay@.len() - needle@.len(),
            hay@.len() >= needle@.len(),
            hay_len == hay@.len(),
            forall|k: int| 0 <= k < i ==> !occurs_at(hay@, needle@, k),
        ensures
            forall|k: int| 0 <= k <= last ==> !occurs_at(hay@, needle@, k),
        decreases last + 1 - i,
    {
        let mut j: usize = 0;
        let mut same = true;
        while j < needle.len()
            invariant
                i <= last,
                last == hay@.len() - needle@.len(),
                hay@.len() >= needle@.len(),
                hay@.len() <= usize::MAX,
                j <= needle@.len(),
                same == forall|m: int| 0 <= m < j ==> hay@[i + m] == needle@[m],
            decreases needle@.len() - j,
        {
            let at = i + j;
            if hay[at] != needle[j] {
                same = false;
            }
            j = j + 1;
        }
        if same {
            proof {
                assert(hay@.subrange(i as int, i + needle@.len()) =~= needle@);
                assert(occurs_at(hay@, needle@, i as int));
            }
            return true;
        }
        proof {
            assert(!occurs_at(hay@, needle@, i as int)) by {
                let m = choose|m: int| 0 <= m < needle@.len() && hay@[i + m] != needle@[m];
                if hay@.subrange(i as int, i + needle@.len()) == needle@ {
                    assert(hay@.subrange(i as int, i + needle@.len())[m] == hay@[i + m]);
                }
            }
        }
        if i == last {
            break;
        }
        i = i + 1;
    }
    proof {
        assert forall|k: int| !occurs_at(hay@, needle@, k) by {}
    }
    false
}

/// Number of events in `events` of kind `kind` at or after `since`.
pub open spec fn recent_count(events: Seq<SecurityEvent>, kind: SecurityEventType, since: i64) -> nat
    decreases events.len(),
{
    if events.len() == 0 {
        0
    } else {
        recent_count(events.drop_last(), kind, since) + if events.last().event_type == kind
            && events.last().timestamp >= since {
            1nat
        } else {
            0nat
        }
    }
}

/// Start of a window of `window_seconds` that ends at `now`; the window
/// reaches back no further than the smallest time.
pub open spec fn window_start(now: i64, window_seconds: u64) -> i64 {
    if now as int - window_seconds as int >= i64::MIN {
        (now as int - window_seconds as int) as i64
    } else {
        i64::MIN
    }
}

/// Index of the first keyword of `keywords` whose lower-case form occurs in
/// the lower-case `description`, or -1.
pub open spec fn first_keyword_hit(description: Seq<char>, keywords: Seq<String>) -> int
    decreases keywords.len(),
{
    if keywords.len() == 0 {
        -1
    } else {
        let rest = first_keyword_hit(description, keywords.drop_last());
        if rest >= 0 {
            rest
        } else if occurs_in(lower_bytes_of(description), lower_bytes_of(keywords.last()@)) {
            keywords.len() - 1
        } else {
            -1
        }
    }
}

/// `pattern` finds a threat in `event` at `now`, given the events seen so
/// far.
pub open spec fn fires(
    history: Seq<SecurityEvent>,
    event: SecurityEvent,
    pattern: ThreatPattern,
    now: i64,
) -> bool {
    match pattern.pattern_type {
        ThreatPatternType::FrequencyAnomaly { max_events, window_seconds } => recent_count(
            history,
            event.event_type,
            window_start(now, window_seconds),
        ) > max_events,
        ThreatPatternType::SuspiciousPattern { keywords } => first_keyword_hit(
            event.description@,
            keywords@,
        ) >= 0,
        _ => false,
    }
}

/// `t` is the threat that `pattern` reports on `event` at `now`, with id
/// `id`: a frequency pattern names itself and the count of recent events; a
/// keyword pattern names itself and the first keyword found.
pub open spec fn finding_for(
    t: SecurityEvent,
    history: Seq<SecurityEvent>,
    event: SecurityEvent,
    pattern: ThreatPattern,
    now: i64,
    id: u128,
) -> bool {
    &&& t.id == id
    &&& t.severity == pattern.severity
    &&& t.timestamp == now
    &&& t.source@ == "threat-detector"@
    &&& t.target == Some(event.source)
    &&& t.context@.len() == 2
    &&& t.context@[0].0@ == "pattern_id"@
    &&& t.context@[0].1@ == pattern.id@
    &&& match pattern.pattern_type {
        ThreatPatternType::FrequencyAnomaly { window_seconds, .. } => {
            &&& t.event_type == SecurityEventType::ThreatDetected
            &&& t.description@ == "Pattern detected: "@ + pattern.name@
            &&& t.context@[1].0@ == "event_count"@
            &&& t.context@[1].1@ == decimal_of(
                recent_count(history, event.event_type, window_start(now, window_seconds)),
            )
        },
        ThreatPatternType::SuspiciousPattern { keywords } => {
            let k = first_keyword_hit(event.description@, keywords@);
            &&& t.event_type == SecurityEventType::SuspiciousActivity
            &&& t.description@ == "Suspicious activity detected: "@ + keywords@[k]@
            &&& t.context@[1].0@ == "keyword"@
            &&& t.context@[1].1 == keywords@[k]
        },
        _ => false,
    }
}

/// Positions, in `patterns`, of the enabled patterns that find a threat.
pub open spec fn firing(
    history: Seq<SecurityEvent>,
    event: SecurityEvent,
    patterns: Seq<ThreatPattern>,
    now: i64,
) -> Seq<int>
    decreases patterns.len(),
{
    if patterns.len() == 0 {
        Seq::empty()
    } else {
        let rest = firing(history, event, patterns.drop_last(), now);
        if patterns.last().enabled && fires(history, event, patterns.last(), now) {
            rest.push(patterns.len() - 1)
        } else {
            rest
        }
    }
}

/// Watches security events for known threat patterns.
pub struct ThreatDetector {
    patterns: Vec<ThreatPattern>,
    events: Vec<SecurityEvent>,
}

impl ThreatDetector {
    pub closed spec fn spec_patterns(&self) -> Seq<ThreatPattern> {
        self.patterns@
    }

    /// Events seen so far, oldest first.
    pub closed spec fn history(&self) -> Seq<SecurityEvent> {
        self.events@
    }

    /// A detector with the built-in patterns: more than five events of one
    /// kind in five minutes, and resource abuse.
    pub fn new() -> (r: Self)
        ensures
            r.history().len() == 0,
            r.spec_patterns().len() == 2,
    {
        let mut patterns: Vec<ThreatPattern> = Vec::new();
        patterns.push(
            ThreatPattern {
                id: "freq_auth_fail".to_string(),
                name: "Frequent authentication failures".to_string(),
                description: "Many authentication failures in a short time".to_string(),
                pattern_type: ThreatPatternType::FrequencyAnomaly { max_events: 5, window_seconds: 300 },
                severity: SecuritySeverity::High,
                enabled: true,
            },
        );
        patterns.push(
            ThreatPattern {
                id: "resource_abuse".to_string(),
                name: "Resource abuse".to_string(),
                description: "Excessive CPU or memory use".to_string(),
                pattern_type: ThreatPatternType::ResourceAbuse {
                    cpu_threshold: 9000,
                    memory_threshold: 1024 * 1024 * 1024,
                },
                severity: SecuritySeverity::Medium,
                enabled: true,
            },
        );
        ThreatDetector { patterns, events: Vec::new() }
    }

    /// Adds a threat pattern.
    pub fn add_pattern(&mut self, pattern: ThreatPattern)
        ensures
            final(self).spec_patterns() == old(self).spec_patterns().push(pattern),
            final(self).history() == old(self).history(),
    {
        self.patterns.push(pattern);
    }

    /// Number of events seen of kind `kind` at or after `since`.
    pub fn count_recent(&self, kind: SecurityEventType, since: i64) -> (r: usize)
        ensures
            r == recent_count(self.history(), kind, since),
    {
        let mut n: usize = 0;
        let mut i: usize = 0;
        while i < self.events.len()
            invariant
                i <= self.events@.len(),
                n <= i,
                n == recent_count(self.events@.take(i as int), kind, since),
            decreases self.events@.len() - i,
        {
            proof {
                assert(self.events@.take(i + 1).drop_last() =~= self.events@.take(i as int));
            }
            if self.events[i].event_type == kind && self.events[i].timestamp >= since {
                n = n + 1;
            }
            i = i + 1;
        }
        proof {
            assert(self.events@.take(i as int) =~= self.events@);
        }
        n
    }

    /// Checks `event` against `pattern` at time `now` (seconds). A frequency
    /// pattern fires when more than `max_events` events of the event's kind
    /// fall in the window; a keyword pattern fires on the first keyword that
    /// the description mentions. The threat found is reported as an event
    /// with id `threat_id`, aimed at the event's source.
    pub fn check_pattern(
        &self,
        event: &SecurityEvent,
        pattern: &ThreatPattern,
        now: i64,
        threat_id: u128,
    ) -> (r: Option<SecurityEvent>)
        ensures
            (r is Some) == fires(self.history(), *event, *pattern, now),
            r is Some ==> finding_for(r->0, self.history(), *event, *pattern, now, threat_id),
    {
        match &pattern.pattern_type {
            ThreatPatternType::FrequencyAnomaly { max_events, window_seconds } => {
                let since: i64 = if (now as i128) - (*window_seconds as i128) >= i64::MIN as i128 {
                    ((now as i128) - (*window_seconds as i128)) as i64
                } else {
                    i64::MIN
                };
                let recent = self.count_recent(event.event_type, since);
                if recent > *max_events as usize {
                    let mut context: Vec<(String, String)> = Vec::new();
                    context.push(("pattern_id".to_string(), pattern.id.clone()));
                    context.push(("event_count".to_string(), decimal_text(recent as u64)));
                    return Some(
                        SecurityEvent {
                            id: threat_id,
                            event_type: SecurityEventType::ThreatDetected,
                            severity: pattern.severity,
                            source: "threat-detector".to_string(),
                            target: Some(event.source.clone()),
                            description: describe("Pattern detected: ", &pattern.name),
                            context,
                            timestamp: now,
                        },
                    );
                }
                None
            },
            ThreatPatternType::SuspiciousPattern { keywords } => {
                let text = lowercase_bytes(event.description.as_str());
                let mut k: usize = 0;
                while k < keywords.len()
                    invariant
                        k <= keywords@.len(),
                        pattern.pattern_type == (ThreatPatternType::SuspiciousPattern {
                            keywords: *keywords,
                        }),
                        text@ == lower_bytes_of(event.description@),
                        first_keyword_hit(event.description@, keywords@.take(k as int)) == -1,
                    decreases keywords@.len() - k,
                {
                    proof {
                        assert(keywords@.take(k + 1).drop_last() =~= keywords@.take(k as int));
                    }
                    let kw = lowercase_bytes(keywords[k].as_str());
                    if contains_bytes(&text, &kw) {
                        proof {
                            lemma_first_hit_prefix(event.description@, keywords@, k as int + 1);
                        }
                        let mut context: Vec<(String, String)> = Vec::new();
                        context.push(("pattern_id".to_string(), pattern.id.clone()));
                        context.push(("keyword".to_string(), keywords[k].clone()));
                        return Some(
                            SecurityEvent {
                                id: threat_id,
                                event_type: SecurityEventType::SuspiciousActivity,
                                severity: pattern.severity,
                                source: "threat-detector".to_string(),
                                target: Some(event.source.clone()),
                                description: describe(
                                    "Suspicious activity detected: ",
                                    &keywords[k],
                                ),
                                context,
                                timestamp: now,
                            },
                        );
                    }
                    k = k + 1;
                }
                proof {
                    assert(keywords@.take(k as int) =~= keywords@);
                }
                None
            },
            _ => None,
        }
    }

    /// Records `event` at time `now` and returns the threats that the enabled
    /// patterns find in it; the k-th threat gets id `first_threat_id + k`
    /// (wrapping).
    pub fn analyze_event(&mut self, event: SecurityEvent, now: i64, first_threat_id: u128) -> (r:
        Vec<SecurityEvent>)
        ensures
            final(self).history() == old(self).history().push(event),
            final(self).spec_patterns() == old(self).spec_patterns(),
            r@.len() == firing(final(self).history(), event, old(self).spec_patterns(), now).len(),
            forall|k: int|
                0 <= k < r@.len() ==> finding_for(
                    #[trigger] r@[k],
                    final(self).history(),
                    event,
                    old(self).spec_patterns()[firing(
                        final(self).history(),
                        event,
                        old(self).spec_patterns(),
                        now,
                    )[k]],
                    now,
                    first_threat_id.wrapping_add(k as u128),
                ),
    {
        self.events.push(event);
        let last = self.events.len() - 1;
        let mut threats: Vec<SecurityEvent> = Vec::new();
        let mut p: usize = 0;
        let ghost h = self.events@;
        let ghost pats = self.patterns@;
        while p < self.patterns.len()
            invariant
                p <= self.patterns@.len(),
                threats@.len() <= p,
                self.patterns@ == old(self).patterns@,
                pats == self.patterns@,
                self.events@ == old(self).events@.push(event),
                h == self.events@,
                last == self.events@.len() - 1,
                threats@.len() == firing(h, event, pats.take(p as int), now).len(),
                forall|j: int|
                    0 <= j < firing(h, event, pats.take(p as int), now).len() ==> 0 <= #[trigger] firing(
                        h,
                        event,
                        pats.take(p as int),
                        now,
                    )[j] < p,
                forall|k: int|
                    0 <= k < threats@.len() ==> finding_for(
                        #[trigger] threats@[k],
                        h,
                        event,
                        pats[firing(h, event, pats.take(p as int), now)[k]],
                        now,
                        first_threat_id.wrapping_add(k as u128),
                    ),
            decreases self.patterns@.len() - p,
        {
            proof {
                assert(pats.take(p + 1).drop_last() =~= pats.take(p as int));
                assert(pats.take(p + 1).last() == pats[p as int]);
            }
            if self.patterns[p].enabled {
                let id = first_threat_id.wrapping_add(threats.len() as u128);
                match self.check_pattern(&self.events[last], &self.patterns[p], now, id) {
                    Some(t) => {
                        threats.push(t);
                    },
                    None => {},
                }
            }
            p = p + 1;
        }
        proof {
            assert(pats.take(p as int) =~= pats);
        }
        threats
    }
}

/// When the keyword at `k - 1` is the first to hit, it is the first hit of
/// the whole list.
proof fn lemma_first_hit_prefix(description: Seq<char>, keywords: Seq<String>, k: int)
    requires
        0 < k <= keywords.len(),
        first_keyword_hit(description, keywords.take(k - 1)) == -1,
        occurs_in(lower_bytes_of(description), lower_bytes_of(keywords[k - 1]@)),
    ensures
        first_keyword_hit(description, keywords) == k - 1,
    decreases keywords.len() - k,
{
    assert(keywords.take(k).drop_last() =~= keywords.take(k - 1));
    assert(first_keyword_hit(description, keywords.take(k)) == k - 1);
    if k < keywords.len() {
        lemma_first_hit_extends(description, keywords, k);
    } else {
        assert(keywords.take(k) =~= keywords);
    }
}

/// A hit found in a prefix stays the first hit of longer prefixes.
proof fn lemma_first_hit_extends(description: Seq<char>, keywords: Seq<String>, k: int)
    requires
        0 < k <= keywords.len(),
        first_keyword_hit(description, keywords.take(k)) >= 0,
    ensures
        first_keyword_hit(description, keywords) == first_keyword_hit(description, keywords.take(k)),
    decreases keywords.len() - k,
{
    if k < keywords.len() {
        assert(keywords.take(k + 1).drop_last() =~= keywords.take(k));
        lemma_first_hit_extends(description, keywords, k + 1);
    } else {
        assert(keywords.take(k) =~= keywords);
    }
}

} // verus!
