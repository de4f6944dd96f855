//! Functional domains run as redundant replicas: their identities, their
//! health, and the orchestrator that keeps a fixed number of replicas per
//! domain and enrols them as voters.
use crate::config::CoreConfig;
use crate::consensus::{
    registry_after_register, replica_index, ConsensusManager, ReplicaInfo, ReplicaState,
    SCORE_SCALE,
};
use vstd::prelude::*;

pub mod consensus_participant;
pub mod hardware_core;
pub mod network_core;
pub mod os_core;
pub mod security_core;

use consensus_participant::NanoCoreConsensusParticipant;

verus! {

/// The functional domains.
#[derive(Clone, Copy, Debug, PartialEq, Eq, Hash, Structural)]
pub enum NanoCoreType {
    OS,
    Hardware,
    Network,
    Security,
}

/// Life-cycle state of one replica.
#[derive(Clone, Copy, Debug, PartialEq, Eq, Hash, Structural)]
pub enum NanoCoreState {
    Initializing,
    Running,
    Degraded,
    Failed,
    Shutdown,
}

/// Health snapshot of one replica, as its own health check reports it.
#[derive(Clone, Copy, Debug, PartialEq, Eq, Structural)]
pub struct NanoCoreHealth {
    pub core_type: NanoCoreType,
    pub instance_id: u128,
    pub state: NanoCoreState,
    /// In hundredths of a percent.
    pub cpu_usage: u32,
    /// In hundredths of a percent.
    pub memory_usage: u32,
    /// In milliseconds.
    pub last_heartbeat: u64,
    pub error_count: u64,
    pub uptime_seconds: u64,
}

/// Health snapshots of the replicas of one domain whose health check
/// answered.
#[derive(Clone, Debug)]
pub struct DomainHealth {
    pub core_type: NanoCoreType,
    pub instances: Vec<NanoCoreHealth>,
}

/// Health of the whole runtime at one moment.
#[derive(Clone, Debug)]
pub struct SystemHealth {
    /// One entry per started domain, in order of first start.
    pub cores: Vec<DomainHealth>,
    pub overall_state: NanoCoreState,
    /// On the `SCORE_SCALE` scale.
    pub consensus_health: u32,
    /// In microseconds.
    pub fabric_latency_us: u64,
}

/// Overall state when `running` of `total` replicas run: Running above 80%,
/// Degraded above 50%, Failed otherwise (and when there is no replica).
pub open spec fn overall_state_for(running: int, total: int) -> NanoCoreState {
    if 5 * running > 4 * total {
        NanoCoreState::Running
    } else if 2 * running > total {
        NanoCoreState::Degraded
    } else {
        NanoCoreState::Failed
    }
}

/// Snapshots among `reports` (a failed health check gives none).
pub open spec fn answered(reports: Seq<Option<NanoCoreHealth>>) -> Seq<NanoCoreHealth>
    decreases reports.len(),
{
    if reports.len() == 0 {
        Seq::empty()
    } else {
        match reports.last() {
            Some(h) => answered(reports.drop_last()).push(h),
            None => answered(reports.drop_last()),
        }
    }
}

/// Number of `reports` that show a Running replica.
pub open spec fn running_count(reports: Seq<Option<NanoCoreHealth>>) -> nat
    decreases reports.len(),
{
    if reports.len() == 0 {
        0
    } else {
        running_count(reports.drop_last()) + match reports.last() {
            Some(h) => if h.state == NanoCoreState::Running {
                1nat
            } else {
                0nat
            },
            None => 0nat,
        }
    }
}

/// Health reports of the `d`-th started domain (none when missing).
pub open spec fn group_of(reports: Seq<Vec<Option<NanoCoreHealth>>>, d: int) -> Seq<
    Option<NanoCoreHealth>,
> {
    if 0 <= d < reports.len() {
        reports[d]@
    } else {
        Seq::empty()
    }
}

/// Number of reports of the first `k` domains.
pub open spec fn total_reports(reports: Seq<Vec<Option<NanoCoreHealth>>>, k: int) -> nat
    decreases k,
{
    if k <= 0 {
        0
    } else {
        total_reports(reports, k - 1) + group_of(reports, k - 1).len()
    }
}

/// Number of reports of the first `k` domains that show a Running replica.
pub open spec fn total_running(reports: Seq<Vec<Option<NanoCoreHealth>>>, k: int) -> nat
    decreases k,
{
    if k <= 0 {
        0
    } else {
        total_running(reports, k - 1) + running_count(group_of(reports, k - 1))
    }
}

/// A count of Running reports never exceeds the count of reports.
proof fn lemma_running_le(reports: Seq<Option<NanoCoreHealth>>)
    ensures
        running_count(reports) <= reports.len(),
    decreases reports.len(),
{
    if reports.len() > 0 {
        lemma_running_le(reports.drop_last());
    }
}

/// Snapshots and Running count of one domain's reports.
fn summarize_group(reports: &Vec<Option<NanoCoreHealth>>) -> (r: (Vec<NanoCoreHealth>, usize))
    ensures
        r.0@ == answered(reports@),
        r.1 == running_count(reports@),
{
    let mut cores: Vec<NanoCoreHealth> = Vec::new();
    let mut running: usize = 0;
    let mut i: usize = 0;
    while i < reports.len()
        invariant
            i <= reports@.len(),
            running <= i,
            running == running_count(reports@.take(i as int)),
            cores@ == answered(reports@.take(i as int)),
        decreases reports@.len() - i,
    {
        proof {
            assert(reports@.take(i + 1).drop_last() =~= reports@.take(i as int));
            assert(reports@.take(i + 1).last() == reports@[i as int]);
        }
        match reports[i] {
            Some(h) => {
                if h.state == NanoCoreState::Running {
                    running = running + 1;
                }
                cores.push(h);
            },
            None => {},
        }
        i = i + 1;
    }
    proof {
        assert(reports@.take(i as int) =~= reports@);
    }
    (cores, running)
}

/// Overall state of `total` replicas of which `running` run.
pub fn overall_state(running: usize, total: usize) -> (r: NanoCoreState)
    ensures
        r == overall_state_for(running as int, total as int),
{
    let running = running as u128;
    let total = total as u128;
    if 5 * running > 4 * total {
        NanoCoreState::Running
    } else if 2 * running > total {
        NanoCoreState::Degraded
    } else {
        NanoCoreState::Failed
    }
}

impl SystemHealth {
    /// The runtime runs, consensus health is above 0.8 and the event bus
    /// answers within 10 ms.
    pub fn is_healthy(&self) -> (r: bool)
        ensures
            r == (self.overall_state == NanoCoreState::Running && self.consensus_health > 800
                && self.fabric_latency_us < 10000),
    {
        self.overall_state == NanoCoreState::Running && self.consensus_health > 800
            && self.fabric_latency_us < 10000
    }
}

/// The replicas of one domain, by slot.
pub struct DomainReplicas {
    pub core_type: NanoCoreType,
    pub instances: Vec<u128>,
}

/// Mathematical view of the replicas of one domain.
pub struct DomainView {
    pub core_type: NanoCoreType,
    pub instances: Seq<u128>,
}

/// Why the orchestrator refused a request.
#[derive(Clone, Copy, Debug, PartialEq, Eq, Structural)]
pub enum OrchestrationError {
    /// A domain must be started with exactly the configured number of
    /// replicas.
    WrongReplicaCount { given: usize, required: usize },
    /// The domain has not been started.
    DomainNotStarted(NanoCoreType),
    /// The domain has no replica in that slot.
    NoSuchSlot { core_type: NanoCoreType, slot: usize },
}

/// What a replica's supervising loop does after one unit of work.
#[derive(Clone, Copy, Debug, PartialEq, Eq, Structural)]
pub enum CoreLoopAction {
    /// The orchestrator stopped: leave the loop.
    Stop,
    /// Record a success and go on after the pause.
    RecordSuccess,
    /// Record a failure and replace the replica in its slot.
    RecordFailureAndReplace,
}

/// Pause between two units of work of a replica, in milliseconds.
pub const CORE_LOOP_INTERVAL_MS: u64 = 100;

/// Position of the domain `t` in `ds` (the last if several), or -1.
pub open spec fn domain_index(ds: Seq<DomainView>, t: NanoCoreType) -> int
    decreases ds.len(),
{
    if ds.len() == 0 {
        -1
    } else if ds.last().core_type == t {
        ds.len() - 1
    } else {
        domain_index(ds.drop_last(), t)
    }
}

/// Facts on `domain_index`.
pub proof fn lemma_domain_index(ds: Seq<DomainView>, t: NanoCoreType)
    ensures
        -1 <= domain_index(ds, t) < ds.len(),
        domain_index(ds, t) >= 0 ==> ds[domain_index(ds, t)].core_type == t,
        domain_index(ds, t) == -1 <==> forall|i: int| 0 <= i < ds.len() ==> ds[i].core_type != t,
    decreases ds.len(),
{
    if ds.len() > 0 {
        lemma_domain_index(ds.drop_last(), t);
        if ds.last().core_type != t {
            assert forall|i: int| 0 <= i < ds.len() - 1 implies ds[i] == ds.drop_last()[i] by {}
        }
    }
}

/// Name of domain `t`.
pub open spec fn domain_name(t: NanoCoreType) -> Seq<char> {
    match t {
        NanoCoreType::OS => "OS"@,
        NanoCoreType::Hardware => "Hardware"@,
        NanoCoreType::Network => "Network"@,
        NanoCoreType::Security => "Security"@,
    }
}

impl NanoCoreType {
    /// Name of the domain.
    pub fn name(&self) -> (r: String)
        ensures
            r@ == domain_name(*self),
    {
        match self {
            NanoCoreType::OS => "OS".to_string(),
            NanoCoreType::Hardware => "Hardware".to_string(),
            NanoCoreType::Network => "Network".to_string(),
            NanoCoreType::Security => "Security".to_string(),
        }
    }
}

/// Replica `y` is registered in `rs` and Healthy.
pub open spec fn healthy_registered(rs: Seq<ReplicaInfo>, y: u128) -> bool {
    replica_index(rs, y) >= 0 && rs[replica_index(rs, y)].state == ReplicaState::Healthy
}

/// Replicas of `ds`, domain after domain and slot after slot, as (domain,
/// id, slot).
pub open spec fn instance_slots(ds: Seq<DomainView>) -> Seq<(NanoCoreType, u128, int)>
    decreases ds.len(),
{
    if ds.len() == 0 {
        Seq::empty()
    } else {
        instance_slots(ds.drop_last()) + slots_of(ds.last())
    }
}

/// Replicas of one domain as (domain, id, slot).
pub open spec fn slots_of(d: DomainView) -> Seq<(NanoCoreType, u128, int)> {
    d.instances.map(|k: int, id: u128| (d.core_type, id, k))
}

/// Registering a replica keeps every registered replica registered (and
/// Healthy if it was), and registers it in its given state.
proof fn lemma_register_keeps(before: Seq<ReplicaInfo>, info: ReplicaInfo, y: u128)
    requires
        replica_index(before, y) >= 0 || y == info.id,
    ensures
        replica_index(registry_after_register(before, info), y) >= 0,
        y == info.id ==> registry_after_register(before, info)[replica_index(
            registry_after_register(before, info),
            y,
        )] == info,
        y != info.id ==> registry_after_register(before, info)[replica_index(
            registry_after_register(before, info),
            y,
        )] == before[replica_index(before, y)],
{
    let after = registry_after_register(before, info);
    crate::consensus::lemma_replica_index(before, y);
    crate::consensus::lemma_replica_index(before, info.id);
    crate::consensus::lemma_replica_index(after, y);
    if replica_index(before, info.id) >= 0 {
        assert(after[replica_index(before, info.id)].id == info.id);
    } else {
        assert(after[before.len() as int].id == info.id);
    }
    if replica_index(before, y) >= 0 {
        let p = replica_index(before, y);
        assert(after[p].id == y);
        if y != info.id {
            assert(after[p] == before[p]);
            assert forall|q: int| p < q < after.len() implies after[q].id != y by {
                if q < before.len() {
                    assert(after[q] == before[q] || after[q] == info);
                }
            }
            crate::consensus::lemma_replica_index_at(after, y, p);
        }
    }
    if y == info.id {
        let j = replica_index(after, y);
        assert(after[j].id == y);
        if replica_index(before, info.id) >= 0 {
            let p = replica_index(before, info.id);
            assert forall|q: int| p < q < after.len() implies after[q].id != info.id by {
                assert(after[q] == before[q]);
            }
            crate::consensus::lemma_replica_index_at(after, info.id, p);
        }
    }
}

/// Creates, supervises and enrols the replicas of every domain.
pub struct NanoCoreManager {
    config: CoreConfig,
    cores: Vec<DomainReplicas>,
    running: bool,
}

impl NanoCoreManager {
    pub closed spec fn spec_config(&self) -> CoreConfig {
        self.config
    }

    /// Number of replicas kept per domain.
    pub open spec fn spec_replica_count(&self) -> usize {
        self.spec_config().consensus.replica_count
    }

    /// Started domains with their replicas, in order of first start.
    pub closed spec fn domains(&self) -> Seq<DomainView> {
        self.cores@.map_values(
            |d: DomainReplicas| DomainView { core_type: d.core_type, instances: d.instances@ },
        )
    }

    pub closed spec fn spec_running(&self) -> bool {
        self.running
    }

    /// Every started domain appears once and holds exactly the configured
    /// number of replicas.
    pub closed spec fn wf(&self) -> bool {
        &&& forall|i: int, j: int|
            0 <= i < j < self.cores@.len() ==> self.cores@[i].core_type != self.cores@[j].core_type
        &&& forall|i: int|
            0 <= i < self.cores@.len() ==> self.cores@[i].instances@.len()
                == self.config.consensus.replica_count
    }

    /// Every started domain of a consistent orchestrator holds exactly the
    /// configured number of replicas, and no domain is listed twice.
    pub proof fn lemma_replica_count_kept(&self)
        requires
            self.wf(),
        ensures
            forall|d: int|
                0 <= d < self.domains().len() ==> (#[trigger] self.domains()[d]).instances.len()
                    == self.spec_replica_count(),
            forall|d: int, e: int|
                0 <= d < e < self.domains().len() ==> self.domains()[d].core_type
                    != self.domains()[e].core_type,
    {
    }

    /// There are four domains, each started at most once.
    proof fn lemma_at_most_four_domains(&self)
        requires
            self.wf(),
        ensures
            self.cores@.len() <= 4,
    {
        if self.cores@.len() >= 5 {
            let c = self.cores@;
            assert(c[0].core_type != c[1].core_type);
            assert(c[0].core_type != c[2].core_type);
            assert(c[0].core_type != c[3].core_type);
            assert(c[0].core_type != c[4].core_type);
            assert(c[1].core_type != c[2].core_type);
            assert(c[1].core_type != c[3].core_type);
            assert(c[1].core_type != c[4].core_type);
            assert(c[2].core_type != c[3].core_type);
            assert(c[2].core_type != c[4].core_type);
            assert(c[3].core_type != c[4].core_type);
        }
    }

    /// An orchestrator with no domain started, not running.
    pub fn new(config: CoreConfig) -> (r: Self)
        ensures
            r.wf(),
            r.spec_config() == config,
            r.domains().len() == 0,
            !r.spec_running(),
    {
        let r = NanoCoreManager { config, cores: Vec::new(), running: false };
        proof {
            assert(r.domains() =~= Seq::<DomainView>::empty());
        }
        r
    }

    pub fn is_running(&self) -> (r: bool)
        ensures
            r == self.spec_running(),
    {
        self.running
    }

    /// Number of replicas kept per domain.
    pub fn replica_count(&self) -> (r: usize)
        ensures
            r == self.spec_replica_count(),
    {
        self.config.consensus.replica_count
    }

    /// Position of domain `t` among the started domains.
    fn find_domain(&self, t: NanoCoreType) -> (r: Option<usize>)
        ensures
            match r {
                Some(i) => i < self.domains().len() && i == domain_index(self.domains(), t),
                None => domain_index(self.domains(), t) == -1,
            },
    {
        proof {
            lemma_domain_index(self.domains(), t);
            assert(self.domains().subrange(0, self.domains().len() as int) =~= self.domains());
        }
        let mut i: usize = self.cores.len();
        while i > 0
            invariant
                i <= self.cores@.len(),
                self.domains().len() == self.cores@.len(),
                domain_index(self.domains(), t) == domain_index(
                    self.domains().subrange(0, i as int),
                    t,
                ),
            decreases i,
        {
            proof {
                let pre = self.domains().subrange(0, i as int);
                assert(pre.drop_last() =~= self.domains().subrange(0, i - 1));
            }
            if self.cores[i - 1].core_type == t {
                return Some(i - 1);
            }
            i = i - 1;
        }
        proof {
            assert(self.domains().subrange(0, 0).len() == 0);
        }
        None
    }

    /// Replica ids of domain `t`, by slot; `None` if it was not started.
    pub fn instances(&self, t: NanoCoreType) -> (r: Option<Vec<u128>>)
        ensures
            match r {
                Some(ids) => domain_index(self.domains(), t) >= 0 && ids@ == self.domains()[domain_index(
                    self.domains(),
                    t,
                )].instances,
                None => domain_index(self.domains(), t) == -1,
            },
    {
        match self.find_domain(t) {
            Some(i) => Some(self.cores[i].instances.clone()),
            None => None,
        }
    }

    /// Stores the replicas of domain `core_type`, once each of them was
    /// created and initialized, and marks the orchestrator running. The
    /// domain must get exactly the configured number of replicas; a domain
    /// started before has its replicas replaced.
    pub fn start_nano_core(&mut self, core_type: NanoCoreType, instances: Vec<u128>) -> (r: Result<
        (),
        OrchestrationError,
    >)
        requires
            old(self).wf(),
        ensures
            final(self).wf(),
            final(self).spec_config() == old(self).spec_config(),
            r.is_ok() <==> instances@.len() == old(self).spec_replica_count(),
            match r {
                Ok(()) => {
                    &&& final(self).spec_running()
                    &&& final(self).domains() == if domain_index(old(self).domains(), core_type) >= 0 {
                        old(self).domains().update(
                            domain_index(old(self).domains(), core_type),
                            DomainView { core_type, instances: instances@ },
                        )
                    } else {
                        old(self).domains().push(DomainView { core_type, instances: instances@ })
                    }
                },
                Err(e) => e == OrchestrationError::WrongReplicaCount {
                    given: instances@.len() as usize,
                    required: old(self).spec_replica_count(),
                } && final(self).domains() == old(self).domains() && final(self).spec_running()
                    == old(self).spec_running(),
            },
    {
        let required = self.config.consensus.replica_count;
        if instances.len() != required {
            return Err(OrchestrationError::WrongReplicaCount { given: instances.len(), required });
        }
        let ghost ins = instances@;
        let entry = DomainReplicas { core_type, instances };
        proof {
            lemma_domain_index(self.domains(), core_type);
        }
        match self.find_domain(core_type) {
            Some(i) => {
                self.cores.set(i, entry);
                proof {
                    assert(self.domains() =~= old(self).domains().update(
                        i as int,
                        DomainView { core_type, instances: ins },
                    ));
                }
            },
            None => {
                self.cores.push(entry);
                proof {
                    assert(self.domains() =~= old(self).domains().push(
                        DomainView { core_type, instances: ins },
                    ));
                    assert forall|i: int| 0 <= i < old(self).cores@.len() implies old(
                        self,
                    ).cores@[i].core_type != core_type by {
                        assert(old(self).domains()[i].core_type == old(self).cores@[i].core_type);
                    }
                }
            },
        }
        self.running = true;
        Ok(())
    }

    /// Swaps the replica in `slot` of domain `core_type` for the freshly
    /// initialized replica `new_id`, keeping the number of replicas of the
    /// domain. Returns the id of the replaced replica.
    pub fn replace_instance(&mut self, core_type: NanoCoreType, slot: usize, new_id: u128) -> (r:
        Result<u128, OrchestrationError>)
        requires
            old(self).wf(),
        ensures
            final(self).wf(),
            final(self).spec_config() == old(self).spec_config(),
            final(self).spec_running() == old(self).spec_running(),
            domain_index(old(self).domains(), core_type) == -1 ==> r == Err::<
                u128,
                OrchestrationError,
            >(OrchestrationError::DomainNotStarted(core_type)),
            domain_index(old(self).domains(), core_type) >= 0 && slot >= old(
                self,
            ).spec_replica_count() ==> r == Err::<u128, OrchestrationError>(
                OrchestrationError::NoSuchSlot { core_type, slot },
            ),
            domain_index(old(self).domains(), core_type) >= 0 && slot < old(
                self,
            ).spec_replica_count() ==> r is Ok,
            match r {
                Ok(old_id) => {
                    let i = domain_index(old(self).domains(), core_type);
                    &&& i >= 0
                    &&& slot < old(self).spec_replica_count()
                    &&& old_id == old(self).domains()[i].instances[slot as int]
                    &&& final(self).domains() == old(self).domains().update(
                        i,
                        DomainView {
                            core_type,
                            instances: old(self).domains()[i].instances.update(slot as int, new_id),
                        },
                    )
                },
                Err(_) => final(self).domains() == old(self).domains(),
            },
    {
        let i = match self.find_domain(core_type) {
            Some(i) => i,
            None => {
                return Err(OrchestrationError::DomainNotStarted(core_type));
            },
        };
        proof {
            lemma_domain_index(self.domains(), core_type);
            assert(self.domains()[i as int].instances == self.cores@[i as int].instances@);
        }
        if slot >= self.cores[i].instances.len() {
            return Err(OrchestrationError::NoSuchSlot { core_type, slot });
        }
        let mut instances = self.cores[i].instances.clone();
        let old_id = instances[slot];
        instances.set(slot, new_id);
        let ghost ins = instances@;
        self.cores.set(i, DomainReplicas { core_type, instances });
        proof {
            assert(self.domains() =~= old(self).domains().update(
                i as int,
                DomainView { core_type, instances: ins },
            ));
            assert forall|a: int, b: int| 0 <= a < b < self.cores@.len() implies self.cores@[a].core_type
                != self.cores@[b].core_type by {
                assert(old(self).cores@[a].core_type == self.cores@[a].core_type);
                assert(old(self).cores@[b].core_type == self.cores@[b].core_type);
            }
        }
        Ok(old_id)
    }

    /// Registers every live replica with `consensus` as a healthy voter,
    /// under its domain's name, and returns one participant adapter per
    /// replica.
    pub fn register_cores_in_consensus(&self, consensus: &mut ConsensusManager, now: u64) -> (r: Vec<
        NanoCoreConsensusParticipant,
    >)
        requires
            self.wf(),
            old(consensus).wf(),
        ensures
            final(consensus).wf(),
            final(consensus).spec_config() == old(consensus).spec_config(),
            final(consensus).active_view() == old(consensus).active_view(),
            forall|y: u128|
                replica_index(old(consensus).replicas_view(), y) >= 0 ==> replica_index(
                    final(consensus).replicas_view(),
                    y,
                ) >= 0,
            forall|d: int, k: int|
                0 <= d < self.domains().len() && 0 <= k < self.domains()[d].instances.len()
                    ==> healthy_registered(
                    final(consensus).replicas_view(),
                    #[trigger] self.domains()[d].instances[k],
                ),
            r@.len() == instance_slots(self.domains()).len(),
            forall|j: int|
                0 <= j < r@.len() ==> {
                    &&& (#[trigger] r@[j]).wf()
                    &&& r@[j].spec_health() == SCORE_SCALE
                    &&& r@[j].spec_core_type() == instance_slots(self.domains())[j].0
                    &&& r@[j].spec_id() == instance_slots(self.domains())[j].1
                    &&& r@[j].spec_instance_number() == instance_slots(self.domains())[j].2
                },
    {
        let mut participants: Vec<NanoCoreConsensusParticipant> = Vec::new();
        let mut d: usize = 0;
        while d < self.cores.len()
            invariant
                d <= self.cores@.len(),
                self.domains().len() == self.cores@.len(),
                consensus.wf(),
                consensus.spec_config() == old(consensus).spec_config(),
                consensus.active_view() == old(consensus).active_view(),
                forall|y: u128|
                    replica_index(old(consensus).replicas_view(), y) >= 0 ==> replica_index(
                        consensus.replicas_view(),
                        y,
                    ) >= 0,
                forall|a: int, k: int|
                    0 <= a < d && 0 <= k < self.domains()[a].instances.len() ==> healthy_registered(
                        consensus.replicas_view(),
                        #[trigger] self.domains()[a].instances[k],
                    ),
                participants@.len() == instance_slots(self.domains().take(d as int)).len(),
                forall|j: int|
                    0 <= j < participants@.len() ==> {
                        &&& (#[trigger] participants@[j]).wf()
                        &&& participants@[j].spec_health() == SCORE_SCALE
                        &&& participants@[j].spec_core_type() == instance_slots(
                            self.domains().take(d as int),
                        )[j].0
                        &&& participants@[j].spec_id() == instance_slots(
                            self.domains().take(d as int),
                        )[j].1
                        &&& participants@[j].spec_instance_number() == instance_slots(
                            self.domains().take(d as int),
                        )[j].2
                    },
            decreases self.cores@.len() - d,
        {
            let core_type = self.cores[d].core_type;
            let mut k: usize = 0;
            proof {
                assert(self.domains()[d as int].instances == self.cores@[d as int].instances@);
            }
            while k < self.cores[d].instances.len()
                invariant
                    d < self.cores@.len(),
                    k <= self.cores@[d as int].instances@.len(),
                    self.domains().len() == self.cores@.len(),
                    self.domains()[d as int].instances == self.cores@[d as int].instances@,
                    consensus.wf(),
                    consensus.spec_config() == old(consensus).spec_config(),
                    consensus.active_view() == old(consensus).active_view(),
                    forall|y: u128|
                        replica_index(old(consensus).replicas_view(), y) >= 0 ==> replica_index(
                            consensus.replicas_view(),
                            y,
                        ) >= 0,
                    forall|a: int, q: int|
                        0 <= a < d && 0 <= q < self.domains()[a].instances.len() ==> healthy_registered(
                            consensus.replicas_view(),
                            #[trigger] self.domains()[a].instances[q],
                        ),
                    forall|q: int|
                        0 <= q < k ==> healthy_registered(
                            consensus.replicas_view(),
                            #[trigger] self.domains()[d as int].instances[q],
                        ),
                    self.domains()[d as int].core_type == core_type,
                    participants@.len() == instance_slots(self.domains().take(d as int)).len() + k,
                    forall|j: int|
                        0 <= j < participants@.len() ==> {
                            &&& (#[trigger] participants@[j]).wf()
                            &&& participants@[j].spec_health() == SCORE_SCALE
                            &&& participants@[j].spec_core_type() == (instance_slots(
                                self.domains().take(d as int),
                            ) + slots_of(self.domains()[d as int]))[j].0
                            &&& participants@[j].spec_id() == (instance_slots(
                                self.domains().take(d as int),
                            ) + slots_of(self.domains()[d as int]))[j].1
                            &&& participants@[j].spec_instance_number() == (instance_slots(
                                self.domains().take(d as int),
                            ) + slots_of(self.domains()[d as int]))[j].2
                        },
                decreases self.cores@[d as int].instances@.len() - k,
            {
                let id = self.cores[d].instances[k];
                let ghost before = consensus.replicas_view();
                let name = core_type.name();
                let ghost info = ConsensusManager::fresh_replica(id, name, now);
                consensus.register_participant(id, name, now);
                proof {
                    assert forall|y: u128| replica_index(before, y) >= 0 implies replica_index(
                        consensus.replicas_view(),
                        y,
                    ) >= 0 by {
                        lemma_register_keeps(before, info, y);
                    }
                    assert forall|y: u128| healthy_registered(before, y) implies healthy_registered(
                        consensus.replicas_view(),
                        y,
                    ) by {
                        lemma_register_keeps(before, info, y);
                    }
                    lemma_register_keeps(before, info, id);
                }
                participants.push(NanoCoreConsensusParticipant::new(id, core_type, k));
                k = k + 1;
            }
            proof {
                let ds = self.domains();
                assert(ds.take(d + 1).drop_last() =~= ds.take(d as int));
                assert(ds.take(d + 1).last() == ds[d as int]);
                assert(instance_slots(ds.take(d + 1)) == instance_slots(ds.take(d as int)) + slots_of(
                    ds[d as int],
                ));
            }
            d = d + 1;
        }
        proof {
            assert(self.domains().take(d as int) =~= self.domains());
        }
        participants
    }

    /// Hot swap: puts the freshly initialized replica `new_id` in `slot` of
    /// domain `core_type` and registers it with `consensus`, so that the
    /// domain keeps its number of live replicas. Returns the replaced id.
    pub fn hot_swap(
        &mut self,
        consensus: &mut ConsensusManager,
        core_type: NanoCoreType,
        slot: usize,
        new_id: u128,
        now: u64,
    ) -> (r: Result<u128, OrchestrationError>)
        requires
            old(self).wf(),
            old(consensus).wf(),
        ensures
            final(self).wf(),
            final(consensus).wf(),
            final(consensus).active_view() == old(consensus).active_view(),
            final(self).spec_config() == old(self).spec_config(),
            final(self).spec_running() == old(self).spec_running(),
            domain_index(old(self).domains(), core_type) == -1 ==> r == Err::<
                u128,
                OrchestrationError,
            >(OrchestrationError::DomainNotStarted(core_type)),
            domain_index(old(self).domains(), core_type) >= 0 && slot >= old(
                self,
            ).spec_replica_count() ==> r == Err::<u128, OrchestrationError>(
                OrchestrationError::NoSuchSlot { core_type, slot },
            ),
            domain_index(old(self).domains(), core_type) >= 0 && slot < old(
                self,
            ).spec_replica_count() ==> r is Ok,
            match r {
                Ok(old_id) => {
                    let i = domain_index(old(self).domains(), core_type);
                    &&& i >= 0
                    &&& slot < old(self).spec_replica_count()
                    &&& old_id == old(self).domains()[i].instances[slot as int]
                    &&& final(self).domains() == old(self).domains().update(
                        i,
                        DomainView {
                            core_type,
                            instances: old(self).domains()[i].instances.update(slot as int, new_id),
                        },
                    )
                    &&& replica_index(final(consensus).replicas_view(), new_id) >= 0
                    &&& final(consensus).replicas_view()[replica_index(
                        final(consensus).replicas_view(),
                        new_id,
                    )].state == crate::consensus::ReplicaState::Healthy
                },
                Err(_) => final(self).domains() == old(self).domains()
                    && final(consensus).replicas_view() == old(consensus).replicas_view(),
            },
    {
        let old_id = self.replace_instance(core_type, slot, new_id)?;
        let ghost before = consensus.replicas_view();
        let name = core_type.name();
        let ghost info = ConsensusManager::fresh_replica(new_id, name, now);
        consensus.register_participant(new_id, name, now);
        proof {
            lemma_register_keeps(before, info, new_id);
        }
        Ok(old_id)
    }

    /// What a supervising loop does after its replica's unit of work.
    pub fn core_loop_step(&self, succeeded: bool) -> (r: CoreLoopAction)
        ensures
            r == if !self.spec_running() {
                CoreLoopAction::Stop
            } else if succeeded {
                CoreLoopAction::RecordSuccess
            } else {
                CoreLoopAction::RecordFailureAndReplace
            },
    {
        if !self.running {
            CoreLoopAction::Stop
        } else if succeeded {
            CoreLoopAction::RecordSuccess
        } else {
            CoreLoopAction::RecordFailureAndReplace
        }
    }

    /// Started domains, in order of first start.
    pub fn started_domains(&self) -> (r: Vec<NanoCoreType>)
        ensures
            r@.len() == self.domains().len(),
            forall|d: int| 0 <= d < r@.len() ==> r@[d] == self.domains()[d].core_type,
    {
        let mut r: Vec<NanoCoreType> = Vec::new();
        let mut d: usize = 0;
        while d < self.cores.len()
            invariant
                d <= self.cores@.len(),
                self.domains().len() == self.cores@.len(),
                r@.len() == d,
                forall|j: int| 0 <= j < d ==> r@[j] == self.domains()[j].core_type,
            decreases self.cores@.len() - d,
        {
            r.push(self.cores[d].core_type);
            d = d + 1;
        }
        r
    }

    /// Snapshot of the whole runtime. `reports[d]` holds one health report
    /// per replica of the `d`-th started domain (`None` where the health
    /// check failed; see `started_domains`). Every started domain gets an
    /// entry, even when none of its checks answered; failed checks count
    /// among the replicas that do not run.
    pub fn get_health_status(
        &self,
        reports: &Vec<Vec<Option<NanoCoreHealth>>>,
        consensus_health: u32,
        fabric_latency_us: u64,
    ) -> (r: SystemHealth)
        requires
            self.wf(),
        ensures
            r.cores@.len() == self.domains().len(),
            forall|d: int|
                0 <= d < r.cores@.len() ==> (#[trigger] r.cores@[d]).core_type
                    == self.domains()[d].core_type && r.cores@[d].instances@ == answered(
                    group_of(reports@, d),
                ),
            r.overall_state == overall_state_for(
                total_running(reports@, self.domains().len() as int) as int,
                total_reports(reports@, self.domains().len() as int) as int,
            ),
            r.consensus_health == consensus_health,
            r.fabric_latency_us == fabric_latency_us,
    {
        proof {
            self.lemma_at_most_four_domains();
        }
        let mut cores: Vec<DomainHealth> = Vec::new();
        let mut running: u128 = 0;
        let mut total: u128 = 0;
        let mut d: usize = 0;
        let empty: Vec<Option<NanoCoreHealth>> = Vec::new();
        while d < self.cores.len()
            invariant
                d <= self.cores@.len(),
                self.domains().len() == self.cores@.len(),
                empty@.len() == 0,
                cores@.len() == d,
                forall|j: int|
                    0 <= j < d ==> (#[trigger] cores@[j]).core_type == self.domains()[j].core_type
                        && cores@[j].instances@ == answered(group_of(reports@, j)),
                running == total_running(reports@, d as int),
                total == total_reports(reports@, d as int),
                running <= total,
                d <= 4,
                self.cores@.len() <= 4,
                total <= d * 0xffff_ffff_ffff_ffffu128,
            decreases self.cores@.len() - d,
        {
            let group = if d < reports.len() {
                &reports[d]
            } else {
                &empty
            };
            proof {
                assert(group@ == group_of(reports@, d as int));
                lemma_running_le(group@);
            }
            let (instances, up) = summarize_group(group);
            let glen = group.len();
            running = running + up as u128;
            total = total + glen as u128;
            cores.push(DomainHealth { core_type: self.cores[d].core_type, instances });
            d = d + 1;
        }
        let overall = if 5 * running > 4 * total {
            NanoCoreState::Running
        } else if 2 * running > total {
            NanoCoreState::Degraded
        } else {
            NanoCoreState::Failed
        };
        SystemHealth { cores, overall_state: overall, consensus_health, fabric_latency_us }
    }

    /// Stops every supervising loop and forgets all replicas. Returns the
    /// replicas that were live, domain by domain, to be shut down one by one.
    pub fn shutdown(&mut self) -> (r: Vec<DomainReplicas>)
        requires
            old(self).wf(),
        ensures
            final(self).wf(),
            final(self).spec_config() == old(self).spec_config(),
            !final(self).spec_running(),
            final(self).domains().len() == 0,
            r@.map_values(
                |d: DomainReplicas| DomainView { core_type: d.core_type, instances: d.instances@ },
            ) == old(self).domains(),
    {
        self.running = false;
        let mut cores: Vec<DomainReplicas> = Vec::new();
        std::mem::swap(&mut cores, &mut self.cores);
        proof {
            assert(self.domains() =~= Seq::<DomainView>::empty());
        }
        cores
    }
}

} // verus!
