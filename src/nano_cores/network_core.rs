//! Data of the network domain, and the clock-seeded numbers its simulated
//! measurements draw on.
use std::collections::hash_map::DefaultHasher;
use std::hash::Hasher;
use vstd::std_specs::hash::DefaultHasherAdditionalSpecFns;
use vstd::prelude::*;

verus! {

/// Duplex mode of a link.
#[derive(Clone, Copy, Debug, PartialEq, Eq, Hash, Structural)]
pub enum DuplexMode {
    Half,
    Full,
    Unknown,
}

/// Administrative state of an interface.
#[derive(Clone, Copy, Debug, PartialEq, Eq, Hash, Structural)]
pub enum InterfaceStatus {
    Up,
    Down,
    Testing,
    Unknown,
}

/// Counters of an interface.
#[derive(Clone, Copy, Debug, PartialEq, Eq, Structural)]
pub struct InterfaceStatistics {
    pub bytes_sent: u64,
    pub bytes_received: u64,
    pub packets_sent: u64,
    pub packets_received: u64,
    pub errors_sent: u64,
    pub errors_received: u64,
    pub dropped_sent: u64,
    pub dropped_received: u64,
    pub collisions: u64,
}

/// Network protocol of a connection.
#[derive(Clone, Copy, Debug, PartialEq, Eq, Hash, Structural)]
pub enum Protocol {
    TCP,
    UDP,
    ICMP,
    HTTP,
    HTTPS,
    GRPC,
    WebSocket,
}

/// State of a connection.
#[derive(Clone, Copy, Debug, PartialEq, Eq, Hash, Structural)]
pub enum ConnectionState {
    Established,
    Connecting,
    Listening,
    Closing,
    Closed,
    TimeWait,
}

impl InterfaceStatistics {
    /// Packets that went through the interface, both ways.
    pub open spec fn spec_packets(&self) -> int {
        self.packets_sent + self.packets_received
    }

    /// Errors on the interface, both ways.
    pub open spec fn spec_errors(&self) -> int {
        self.errors_sent + self.errors_received
    }

    /// More than 5% of the packets through the interface failed.
    pub fn has_high_error_rate(&self) -> (r: bool)
        ensures
            r == (self.spec_packets() > 0 && 20 * self.spec_errors() > self.spec_packets()),
    {
        let packets = self.packets_sent as u128 + self.packets_received as u128;
        let errors = self.errors_sent as u128 + self.errors_received as u128;
        packets > 0 && 20 * errors > packets
    }
}

/// A packet queue of the traffic shaper.
#[derive(Clone, Debug, PartialEq, Eq)]
pub struct PriorityQueue {
    pub id: String,
    pub priority: u8,
    pub weight: u8,
    pub max_packets: u32,
    pub current_packets: u32,
}

/// What a firewall rule does with matching traffic.
#[derive(Clone, Copy, Debug, PartialEq, Eq, Hash, Structural)]
pub enum FirewallAction {
    Allow,
    Deny,
    Log,
}

/// Measures round-trip latency.
pub struct LatencyMonitor {}

impl LatencyMonitor {
    pub fn new() -> (r: Self) {
        LatencyMonitor {  }
    }
}

/// Measures link bandwidth.
pub struct BandwidthMonitor {}

impl BandwidthMonitor {
    pub fn new() -> (r: Self) {
        BandwidthMonitor {  }
    }
}

/// Relies on std's SystemTime: nanoseconds since the Unix epoch now, or 0
/// if the clock is set before the epoch.
#[verifier::external_body]
fn clock_nanos() -> u128 {
    std::time::SystemTime::now().duration_since(std::time::UNIX_EPOCH).map(|d| d.as_nanos()).unwrap_or(
        0,
    )
}

/// The 16 bytes of `x`, least significant first.
pub open spec fn le_bytes_of(x: u128) -> Seq<u8> {
    Seq::new(16, |i: int| ((x >> (8 * i) as u128) & 0xff) as u8)
}

/// Hash, by std's default hasher, of the 16 bytes of a clock reading `t`
/// (nanoseconds since the Unix epoch), least significant first: equal
/// readings give equal numbers.
pub fn hash_clock_reading(t: u128) -> (r: u64)
    ensures
        r == DefaultHasher::spec_finish(seq![le_bytes_of(t)]),
{
    let mut bytes: Vec<u8> = Vec::new();
    let mut i: u32 = 0;
    while i < 16
        invariant
            i <= 16,
            bytes@.len() == i,
            forall|j: int| 0 <= j < i ==> bytes@[j] == ((t >> (8 * j) as u128) & 0xff) as u8,
        decreases 16 - i,
    {
        bytes.push(((t >> (8 * i)) & 0xff) as u8);
        i = i + 1;
    }
    proof {
        assert(bytes@ =~= le_bytes_of(t));
    }
    let mut hasher = DefaultHasher::new();
    hasher.write(bytes.as_slice());
    proof {
        assert(hasher@ =~= seq![le_bytes_of(t)]);
    }
    hasher.finish()
}

/// A pseudo-random number: the clock, in nanoseconds, hashed with std's
/// default hasher.
pub fn random() -> (r: u64)
    ensures
        exists|t: u128| r == DefaultHasher::spec_finish(seq![le_bytes_of(t)]),
{
    hash_clock_reading(clock_nanos())
}

} // verus!
