//! Proposal and vote lifecycle: the quorum rule, the replica health registry
//! and the expiry of proposals that never reach quorum.
use std::collections::HashMap;
use vstd::prelude::*;

verus! {

/// Scale of health and performance scores: `SCORE_SCALE` stands for a
/// perfectly healthy replica, 0 for a dead one.
pub const SCORE_SCALE: u32 = 1000;

/// Scale of vote confidences: `CONFIDENCE_SCALE` stands for full confidence.
pub const CONFIDENCE_SCALE: u32 = 10000;

/// Health state of a replica, as seen by the consensus manager.
#[derive(Clone, Copy, Debug, PartialEq, Eq, Hash, Structural)]
pub enum ReplicaState {
    Healthy,
    Degraded,
    Failed,
    Recovering,
    Quarantined,
}

/// What a proposal asks the replicas to decide.
#[derive(Clone, Copy, Debug, PartialEq, Eq, Hash, Structural)]
pub enum ProposalType {
    HealthCheck,
    ConfigChange,
    ReplicaReplacement,
    SystemMutation,
    SecurityAction,
}

/// A replica's answer to a proposal.
#[derive(Clone, Copy, Debug, PartialEq, Eq, Hash, Structural)]
pub enum VoteDecision {
    Approve,
    Reject,
    Abstain,
}

/// Number of votes cast for each decision.
#[derive(Clone, Copy, Debug, PartialEq, Eq, Structural)]
pub struct VoteCount {
    pub approve: usize,
    pub reject: usize,
    pub abstain: usize,
}

/// Decision taken on counts of votes, by the conservative quorum rule (so
/// that counts of 0 approvals, 0 rejections and 3 abstentions give Reject,
/// not Abstain). Approve needs strictly more votes than
/// each other answer; otherwise Reject wins whenever it is not behind Approve
/// (so every tie and every doubt ends in Reject); Abstain wins only when
/// Approve leads Reject but not Abstain.
pub open spec fn quorum_decision(approve: int, reject: int, abstain: int) -> VoteDecision {
    if approve > reject && approve > abstain {
        VoteDecision::Approve
    } else if reject >= approve {
        VoteDecision::Reject
    } else {
        VoteDecision::Abstain
    }
}

impl VoteCount {
    /// Number of votes cast for `decision`.
    pub open spec fn spec_get(self, decision: VoteDecision) -> nat {
        match decision {
            VoteDecision::Approve => self.approve as nat,
            VoteDecision::Reject => self.reject as nat,
            VoteDecision::Abstain => self.abstain as nat,
        }
    }

    /// Number of votes cast for `decision`.
    pub fn get(&self, decision: VoteDecision) -> (r: usize)
        ensures
            r == self.spec_get(decision),
    {
        match decision {
            VoteDecision::Approve => self.approve,
            VoteDecision::Reject => self.reject,
            VoteDecision::Abstain => self.abstain,
        }
    }
}

/// Applies the quorum rule to counts of votes.
pub fn determine_consensus_decision(vote_counts: &VoteCount) -> (r: VoteDecision)
    ensures
        r == quorum_decision(
            vote_counts.approve as int,
            vote_counts.reject as int,
            vote_counts.abstain as int,
        ),
{
    let approve = vote_counts.approve;
    let reject = vote_counts.reject;
    let abstain = vote_counts.abstain;
    if approve > reject && approve > abstain {
        VoteDecision::Approve
    } else if reject >= approve {
        VoteDecision::Reject
    } else {
        VoteDecision::Abstain
    }
}


/// Settings of the consensus manager.
#[derive(Clone, Copy, Debug, PartialEq, Eq, Structural)]
pub struct ConsensusConfig {
    /// Number of healthy replicas needed before a proposal is accepted.
    pub replica_count: usize,
    pub vote_timeout_ms: u64,
    pub health_check_interval_ms: u64,
    pub failure_threshold: u32,
    /// Share of replicas that may fail or misbehave, in thousandths.
    pub byzantine_tolerance: u32,
}

impl ConsensusConfig {
    /// Three replicas, one second per vote, a health check every five
    /// seconds, and a third of the replicas allowed to fail.
    pub fn default() -> (r: ConsensusConfig)
        ensures
            r.replica_count == 3,
            r.vote_timeout_ms == 1000,
            r.health_check_interval_ms == 5000,
            r.failure_threshold == 3,
            r.byzantine_tolerance == 330,
    {
        ConsensusConfig {
            replica_count: 3,
            vote_timeout_ms: 1000,
            health_check_interval_ms: 5000,
            failure_threshold: 3,
            byzantine_tolerance: 330,
        }
    }
}

/// Registry entry of one consensus participant.
#[derive(Clone, Debug)]
pub struct ReplicaInfo {
    pub id: u128,
    pub instance_type: String,
    pub state: ReplicaState,
    /// Time of the last successful health check, in milliseconds.
    pub last_heartbeat: u64,
    pub failure_count: u32,
    /// Weight of the replica's vote, on the `SCORE_SCALE` scale.
    pub vote_weight: u32,
    /// Last reported health score, on the `SCORE_SCALE` scale.
    pub performance_score: u32,
}

/// A decision submitted to the replicas.
#[derive(Clone, Debug)]
pub struct ConsensusProposal {
    pub id: u128,
    pub proposal_type: ProposalType,
    pub proposer: u128,
    /// Opaque payload, read by the voters.
    pub data: Vec<u8>,
    /// Creation time, in milliseconds.
    pub timestamp: u64,
    /// Number of recorded votes after which the proposal is decided.
    pub required_votes: usize,
}

/// One replica's vote on one proposal.
#[derive(Clone, Debug)]
pub struct Vote {
    pub proposal_id: u128,
    pub voter_id: u128,
    pub decision: VoteDecision,
    /// Confidence of the voter, on the `CONFIDENCE_SCALE` scale.
    pub confidence: u32,
    pub reasoning: Option<String>,
    /// Time of the vote, in milliseconds.
    pub timestamp: u64,
}

/// Outcome of a proposal that reached its quorum.
#[derive(Clone, Debug)]
pub struct ConsensusResult {
    pub proposal_id: u128,
    pub decision: VoteDecision,
    pub vote_count: VoteCount,
    /// Mean confidence of the recorded votes (rounded down), on the
    /// `CONFIDENCE_SCALE` scale.
    pub confidence_score: u32,
    /// Voters of the recorded votes, in the order the votes came in.
    pub participating_replicas: Vec<u128>,
    /// Time of the decision, in milliseconds.
    pub timestamp: u64,
}

/// Why a proposal or a vote was refused.
#[derive(Clone, Copy, Debug, PartialEq, Eq, Structural)]
pub enum ConsensusError {
    /// Fewer healthy replicas than the configured replica count.
    InsufficientReplicas { healthy: usize, required: usize },
    /// The proposal is unknown, already decided or expired.
    ProposalNotFound(u128),
    /// The voter was never registered.
    VoterNotRegistered(u128),
}

/// What became of an accepted vote.
#[derive(Clone, Debug)]
pub enum VoteOutcome {
    /// The voter is not healthy: the vote was dropped without effect.
    Discarded,
    /// The vote was recorded; the proposal still waits for votes.
    Recorded,
    /// The vote completed the quorum: the proposal is decided and removed.
    Resolved(ConsensusResult),
}

/// Result of one health check of a participant.
#[derive(Clone, Copy, Debug, PartialEq, Eq, Structural)]
pub enum HealthReport {
    /// The participant answered with this score, on the `SCORE_SCALE` scale.
    Score(u32),
    /// The health check itself failed.
    Failure,
}

/// A proposal still waiting for votes, with the votes recorded so far.
pub struct ActiveProposal {
    pub proposal: ConsensusProposal,
    pub votes: Vec<Vote>,
}

/// Mathematical view of an active proposal.
pub struct ProposalState {
    pub proposal: ConsensusProposal,
    pub votes: Seq<Vote>,
}

/// Number of votes in `votes` for `decision`.
pub open spec fn count_of(votes: Seq<Vote>, decision: VoteDecision) -> nat
    decreases votes.len(),
{
    if votes.len() == 0 {
        0
    } else {
        count_of(votes.drop_last(), decision) + if votes.last().decision == decision {
            1nat
        } else {
            0nat
        }
    }
}

/// Sum of the confidences of `votes`.
pub open spec fn confidence_total(votes: Seq<Vote>) -> nat
    decreases votes.len(),
{
    if votes.len() == 0 {
        0
    } else {
        confidence_total(votes.drop_last()) + votes.last().confidence as nat
    }
}

/// Voters of `votes`, in order.
pub open spec fn voters_of(votes: Seq<Vote>) -> Seq<u128> {
    votes.map_values(|v: Vote| v.voter_id)
}

/// `r` is the outcome of proposal `id` decided at `now` on `votes`.
pub open spec fn is_result_for(r: ConsensusResult, id: u128, votes: Seq<Vote>, now: u64) -> bool {
    &&& r.proposal_id == id
    &&& r.vote_count.approve == count_of(votes, VoteDecision::Approve)
    &&& r.vote_count.reject == count_of(votes, VoteDecision::Reject)
    &&& r.vote_count.abstain == count_of(votes, VoteDecision::Abstain)
    &&& r.decision == quorum_decision(
        count_of(votes, VoteDecision::Approve) as int,
        count_of(votes, VoteDecision::Reject) as int,
        count_of(votes, VoteDecision::Abstain) as int,
    )
    &&& r.confidence_score == confidence_total(votes) / votes.len()
    &&& r.participating_replicas@ == voters_of(votes)
    &&& r.timestamp == now
}

/// Number of replicas in `rs` whose state is Healthy.
pub open spec fn healthy_count(rs: Seq<ReplicaInfo>) -> nat
    decreases rs.len(),
{
    if rs.len() == 0 {
        0
    } else {
        healthy_count(rs.drop_last()) + if rs.last().state == ReplicaState::Healthy {
            1nat
        } else {
            0nat
        }
    }
}

/// Position of the replica with id `id` in `rs` (the last one if several),
/// or -1.
pub open spec fn replica_index(rs: Seq<ReplicaInfo>, id: u128) -> int
    decreases rs.len(),
{
    if rs.len() == 0 {
        -1
    } else if rs.last().id == id {
        rs.len() - 1
    } else {
        replica_index(rs.drop_last(), id)
    }
}

/// Registry `rs` once `info` is registered: an entry with the same id is
/// replaced in place, else `info` is appended.
pub open spec fn registry_after_register(rs: Seq<ReplicaInfo>, info: ReplicaInfo) -> Seq<ReplicaInfo> {
    if replica_index(rs, info.id) >= 0 {
        rs.update(replica_index(rs, info.id), info)
    } else {
        rs.push(info)
    }
}

/// No two replicas of `rs` share an id.
pub open spec fn ids_unique(rs: Seq<ReplicaInfo>) -> bool {
    forall|i: int, j: int| 0 <= i < j < rs.len() ==> rs[i].id != rs[j].id
}

/// The vote is recorded: its proposal is active and its voter is a
/// registered, healthy replica.
pub open spec fn vote_accepted(
    rs: Seq<ReplicaInfo>,
    active: Map<u128, ProposalState>,
    vote: Vote,
) -> bool {
    &&& active.contains_key(vote.proposal_id)
    &&& replica_index(rs, vote.voter_id) >= 0
    &&& rs[replica_index(rs, vote.voter_id)].state == ReplicaState::Healthy
}

/// Votes of the vote's proposal once the vote is recorded.
pub open spec fn votes_with(active: Map<u128, ProposalState>, vote: Vote) -> Seq<Vote> {
    active[vote.proposal_id].votes.push(vote)
}

/// The vote is recorded and brings its proposal to the required number of
/// votes.
pub open spec fn vote_resolves(
    rs: Seq<ReplicaInfo>,
    active: Map<u128, ProposalState>,
    vote: Vote,
) -> bool {
    &&& vote_accepted(rs, active, vote)
    &&& votes_with(active, vote).len() >= active[vote.proposal_id].proposal.required_votes
}

/// Active proposals after `vote` is processed.
pub open spec fn active_after_vote(
    rs: Seq<ReplicaInfo>,
    active: Map<u128, ProposalState>,
    vote: Vote,
) -> Map<u128, ProposalState> {
    if !vote_accepted(rs, active, vote) {
        active
    } else if vote_resolves(rs, active, vote) {
        active.remove(vote.proposal_id)
    } else {
        active.insert(
            vote.proposal_id,
            ProposalState {
                proposal: active[vote.proposal_id].proposal,
                votes: votes_with(active, vote),
            },
        )
    }
}

/// Replica state for a reported health score.
pub open spec fn state_for_score(score: u32) -> ReplicaState {
    if score > 800 {
        ReplicaState::Healthy
    } else if score > 500 {
        ReplicaState::Degraded
    } else {
        ReplicaState::Failed
    }
}

/// A registry entry after a health report taken at `now`.
pub open spec fn replica_after_report(r: ReplicaInfo, report: HealthReport, now: u64) -> ReplicaInfo {
    match report {
        HealthReport::Score(score) => ReplicaInfo {
            last_heartbeat: now,
            performance_score: score,
            state: state_for_score(score),
            ..r
        },
        HealthReport::Failure => ReplicaInfo {
            failure_count: if r.failure_count < u32::MAX {
                (r.failure_count + 1) as u32
            } else {
                r.failure_count
            },
            state: ReplicaState::Failed,
            ..r
        },
    }
}

/// Coordinates proposals, votes and the health registry of the replicas.
pub struct ConsensusManager {
    config: ConsensusConfig,
    replicas: Vec<ReplicaInfo>,
    active_proposals: HashMap<u128, ActiveProposal>,
}

impl ConsensusManager {
    /// Settings the manager was made with.
    pub closed spec fn spec_config(&self) -> ConsensusConfig {
        self.config
    }

    /// Registered replicas, in order of first registration.
    pub closed spec fn replicas_view(&self) -> Seq<ReplicaInfo> {
        self.replicas@
    }

    /// Active proposals by id, with their recorded votes.
    pub closed spec fn active_view(&self) -> Map<u128, ProposalState> {
        self.active_proposals@.map_values(
            |a: ActiveProposal| ProposalState { proposal: a.proposal, votes: a.votes@ },
        )
    }

    /// Internal consistency: replica ids are unique, and each active
    /// proposal is stored under its own id.
    pub closed spec fn wf(&self) -> bool {
        &&& ids_unique(self.replicas@)
        &&& forall|id: u128| #[trigger]
            self.active_proposals@.contains_key(id) ==> self.active_proposals@[id].proposal.id
                == id
    }

    /// In a consistent manager each replica is registered once.
    pub proof fn lemma_replicas_unique(&self)
        requires
            self.wf(),
        ensures
            ids_unique(self.replicas_view()),
    {
    }

    /// A manager with no replicas and no proposals.
    pub fn new(config: ConsensusConfig) -> (r: ConsensusManager)
        ensures
            r.wf(),
            r.spec_config() == config,
            r.replicas_view().len() == 0,
            r.active_view() == Map::<u128, ProposalState>::empty(),
    {
        let r = ConsensusManager { config, replicas: Vec::new(), active_proposals: HashMap::new() };
        proof {
            assert(r.active_view() =~= Map::<u128, ProposalState>::empty());
        }
        r
    }

    /// The registry entry given to a newly registered participant.
    pub open spec fn fresh_replica(id: u128, instance_type: String, now: u64) -> ReplicaInfo {
        ReplicaInfo {
            id,
            instance_type,
            state: ReplicaState::Healthy,
            last_heartbeat: now,
            failure_count: 0,
            vote_weight: SCORE_SCALE,
            performance_score: SCORE_SCALE,
        }
    }

    /// Position of replica `id` in the registry, if it is registered.
    fn find_replica(&self, id: u128) -> (r: Option<usize>)
        ensures
            match r {
                Some(i) => i < self.replicas@.len() && i == replica_index(self.replicas@, id),
                None => replica_index(self.replicas@, id) == -1,
            },
    {
        proof {
            lemma_replica_index(self.replicas@, id);
            assert(self.replicas@.subrange(0, self.replicas@.len() as int) =~= self.replicas@);
        }
        let mut i: usize = self.replicas.len();
        while i > 0
            invariant
                i <= self.replicas@.len(),
                replica_index(self.replicas@, id) == replica_index(
                    self.replicas@.subrange(0, i as int),
                    id,
                ),
            decreases i,
        {
            proof {
                let pre = self.replicas@.subrange(0, i as int);
                assert(pre.drop_last() =~= self.replicas@.subrange(0, i - 1));
            }
            if self.replicas[i - 1].id == id {
                return Some(i - 1);
            }
            i = i - 1;
        }
        proof {
            assert(self.replicas@.subrange(0, 0).len() == 0);
        }
        None
    }

    /// Registers participant `id` as a healthy replica with full score; a
    /// participant registered before is reset in place.
    pub fn register_participant(&mut self, id: u128, instance_type: String, now: u64)
        requires
            old(self).wf(),
        ensures
            final(self).wf(),
            final(self).spec_config() == old(self).spec_config(),
            final(self).active_view() == old(self).active_view(),
            final(self).replicas_view() == registry_after_register(
                old(self).replicas_view(),
                Self::fresh_replica(id, instance_type, now),
            ),
    {
        let info = ReplicaInfo {
            id,
            instance_type,
            state: ReplicaState::Healthy,
            last_heartbeat: now,
            failure_count: 0,
            vote_weight: SCORE_SCALE,
            performance_score: SCORE_SCALE,
        };
        proof {
            lemma_replica_index(self.replicas@, id);
        }
        match self.find_replica(id) {
            Some(i) => {
                self.replicas.set(i, info);
            },
            None => {
                self.replicas.push(info);
            },
        }
    }

    /// Number of registered replicas that are Healthy.
    pub fn count_healthy_replicas(&self) -> (r: usize)
        ensures
            r == healthy_count(self.replicas_view()),
    {
        let mut n: usize = 0;
        let mut i: usize = 0;
        while i < self.replicas.len()
            invariant
                i <= self.replicas@.len(),
                n <= i,
                n == healthy_count(self.replicas@.take(i as int)),
            decreases self.replicas@.len() - i,
        {
            proof {
                assert(self.replicas@.take(i + 1).drop_last() =~= self.replicas@.take(i as int));
            }
            if self.replicas[i].state == ReplicaState::Healthy {
                n = n + 1;
            }
            i = i + 1;
        }
        proof {
            assert(self.replicas@.take(i as int) =~= self.replicas@);
        }
        n
    }

    /// State of replica `id`, if it is registered.
    pub fn replica_state(&self, id: u128) -> (r: Option<ReplicaState>)
        ensures
            match r {
                Some(st) => replica_index(self.replicas_view(), id) >= 0 && st
                    == self.replicas_view()[replica_index(self.replicas_view(), id)].state,
                None => replica_index(self.replicas_view(), id) == -1,
            },
    {
        match self.find_replica(id) {
            Some(i) => Some(self.replicas[i].state),
            None => None,
        }
    }

    /// Registry entry of replica `id`, if it is registered.
    pub fn replica(&self, id: u128) -> (r: Option<&ReplicaInfo>)
        ensures
            match r {
                Some(info) => replica_index(self.replicas_view(), id) >= 0 && *info
                    == self.replicas_view()[replica_index(self.replicas_view(), id)],
                None => replica_index(self.replicas_view(), id) == -1,
            },
    {
        match self.find_replica(id) {
            Some(i) => Some(&self.replicas[i]),
            None => None,
        }
    }

    /// Number of registered replicas.
    pub fn replica_count(&self) -> (r: usize)
        ensures
            r == self.replicas_view().len(),
    {
        self.replicas.len()
    }

    /// Whether proposal `id` is still waiting for votes.
    pub fn is_active(&self, id: u128) -> (r: bool)
        ensures
            r == self.active_view().contains_key(id),
    {
        self.active_proposals.contains_key(&id)
    }

    /// Number of votes recorded so far on active proposal `id`.
    pub fn recorded_votes(&self, id: u128) -> (r: Option<usize>)
        ensures
            match r {
                Some(n) => self.active_view().contains_key(id) && n
                    == self.active_view()[id].votes.len(),
                None => !self.active_view().contains_key(id),
            },
    {
        match self.active_proposals.get(&id) {
            Some(a) => Some(a.votes.len()),
            None => None,
        }
    }

    /// Submits a proposal. It is accepted only while at least
    /// `replica_count` replicas are Healthy; it then waits for votes, with
    /// none recorded, replacing any proposal that had the same id.
    pub fn propose(&mut self, proposal: ConsensusProposal) -> (r: Result<u128, ConsensusError>)
        requires
            old(self).wf(),
        ensures
            final(self).wf(),
            final(self).spec_config() == old(self).spec_config(),
            final(self).replicas_view() == old(self).replicas_view(),
            r.is_ok() <==> healthy_count(old(self).replicas_view())
                >= old(self).spec_config().replica_count,
            match r {
                Ok(id) => id == proposal.id && final(self).active_view() == old(
                    self,
                ).active_view().insert(
                    proposal.id,
                    ProposalState { proposal, votes: Seq::empty() },
                ),
                Err(e) => e == ConsensusError::InsufficientReplicas {
                    healthy: healthy_count(old(self).replicas_view()) as usize,
                    required: old(self).spec_config().replica_count,
                } && final(self).active_view() == old(self).active_view(),
            },
    {
        let healthy = self.count_healthy_replicas();
        if healthy < self.config.replica_count {
            return Err(
                ConsensusError::InsufficientReplicas {
                    healthy,
                    required: self.config.replica_count,
                },
            );
        }
        let id = proposal.id;
        let entry = ActiveProposal { proposal, votes: Vec::new() };
        proof {
            let f = |a: ActiveProposal| ProposalState { proposal: a.proposal, votes: a.votes@ };
            assert(self.active_proposals@.insert(id, entry).map_values(f) =~= self.active_view().insert(
                id,
                ProposalState { proposal: entry.proposal, votes: Seq::empty() },
            ));
        }
        self.active_proposals.insert(id, entry);
        Ok(id)
    }

    /// Processes a vote received at `now`.
    ///
    /// The vote's proposal must be active, else `ProposalNotFound`; its voter
    /// must be registered, else `VoterNotRegistered`. A vote from a replica
    /// that is not Healthy is discarded without effect. Otherwise the vote is
    /// recorded, and once the proposal has `required_votes` votes it is
    /// decided: the result is returned and the proposal removed.
    pub fn process_vote(&mut self, vote: Vote, now: u64) -> (r: Result<VoteOutcome, ConsensusError>)
        requires
            old(self).wf(),
        ensures
            final(self).wf(),
            final(self).spec_config() == old(self).spec_config(),
            final(self).replicas_view() == old(self).replicas_view(),
            final(self).active_view() == active_after_vote(
                old(self).replicas_view(),
                old(self).active_view(),
                vote,
            ),
            !old(self).active_view().contains_key(vote.proposal_id) ==> r == Err::<
                VoteOutcome,
                ConsensusError,
            >(ConsensusError::ProposalNotFound(vote.proposal_id)),
            old(self).active_view().contains_key(vote.proposal_id) && replica_index(
                old(self).replicas_view(),
                vote.voter_id,
            ) == -1 ==> r == Err::<VoteOutcome, ConsensusError>(
                ConsensusError::VoterNotRegistered(vote.voter_id),
            ),
            old(self).active_view().contains_key(vote.proposal_id) && replica_index(
                old(self).replicas_view(),
                vote.voter_id,
            ) >= 0 && old(self).replicas_view()[replica_index(
                old(self).replicas_view(),
                vote.voter_id,
            )].state != ReplicaState::Healthy ==> (r matches Ok(VoteOutcome::Discarded))
                && final(self).active_view() == old(self).active_view(),
            vote_accepted(old(self).replicas_view(), old(self).active_view(), vote) ==> match r {
                Ok(VoteOutcome::Recorded) => !vote_resolves(
                    old(self).replicas_view(),
                    old(self).active_view(),
                    vote,
                ),
                Ok(VoteOutcome::Resolved(res)) => vote_resolves(
                    old(self).replicas_view(),
                    old(self).active_view(),
                    vote,
                ) && is_result_for(
                    res,
                    vote.proposal_id,
                    votes_with(old(self).active_view(), vote),
                    now,
                ),
                _ => false,
            },
    {
        let pid = vote.proposal_id;
        if !self.active_proposals.contains_key(&pid) {
            return Err(ConsensusError::ProposalNotFound(pid));
        }
        match self.find_replica(vote.voter_id) {
            None => {
                return Err(ConsensusError::VoterNotRegistered(vote.voter_id));
            },
            Some(i) => {
                if self.replicas[i].state != ReplicaState::Healthy {
                    return Ok(VoteOutcome::Discarded);
                }
            },
        }
        let ghost old_map = self.active_proposals@;
        let ghost f = |a: ActiveProposal| ProposalState { proposal: a.proposal, votes: a.votes@ };
        let removed = self.active_proposals.remove(&pid);
        let mut entry = match removed {
            Some(e) => e,
            None => {
                return Err(ConsensusError::ProposalNotFound(pid));
            },
        };
        proof {
            assert(self.active_proposals@.map_values(f) =~= old_map.map_values(f).remove(pid));
        }
        entry.votes.push(vote);
        match check_consensus_completion(&entry.votes, entry.proposal.required_votes, pid, now) {
            Some(result) => Ok(VoteOutcome::Resolved(result)),
            None => {
                proof {
                    assert(self.active_proposals@.insert(pid, entry).map_values(f)
                        =~= old_map.map_values(f).insert(
                        pid,
                        ProposalState { proposal: old_map[pid].proposal, votes: entry.votes@ },
                    ));
                }
                self.active_proposals.insert(pid, entry);
                Ok(VoteOutcome::Recorded)
            },
        }
    }

    /// Drops proposal `id` when its voting time is over. Returns whether it
    /// was still active; a proposal already decided or expired is left alone.
    pub fn expire_proposal(&mut self, id: u128) -> (r: bool)
        requires
            old(self).wf(),
        ensures
            final(self).wf(),
            final(self).spec_config() == old(self).spec_config(),
            final(self).replicas_view() == old(self).replicas_view(),
            r == old(self).active_view().contains_key(id),
            final(self).active_view() == old(self).active_view().remove(id),
    {
        let ghost old_map = self.active_proposals@;
        let removed = self.active_proposals.remove(&id);
        proof {
            let f = |a: ActiveProposal| ProposalState { proposal: a.proposal, votes: a.votes@ };
            assert(self.active_proposals@.map_values(f) =~= old_map.map_values(f).remove(id));
        }
        removed.is_some()
    }

    /// Applies the outcome of one health check of replica `id`, taken at
    /// `now`. A score updates the heartbeat and the score and sets the state:
    /// Healthy above 800, Degraded above 500, Failed otherwise. A failed check
    /// counts one more failure and sets the state to Failed, whatever the
    /// score was. Returns whether the replica is registered; if not, nothing
    /// changes.
    pub fn record_health_check(&mut self, id: u128, report: HealthReport, now: u64) -> (r: bool)
        requires
            old(self).wf(),
        ensures
            final(self).wf(),
            final(self).spec_config() == old(self).spec_config(),
            final(self).active_view() == old(self).active_view(),
            r == (replica_index(old(self).replicas_view(), id) >= 0),
            final(self).replicas_view() == if r {
                old(self).replicas_view().update(
                    replica_index(old(self).replicas_view(), id),
                    replica_after_report(
                        old(self).replicas_view()[replica_index(old(self).replicas_view(), id)],
                        report,
                        now,
                    ),
                )
            } else {
                old(self).replicas_view()
            },
            r && report == HealthReport::Failure ==> final(self).replicas_view()[replica_index(
                old(self).replicas_view(),
                id,
            )].state == ReplicaState::Failed,
    {
        match self.find_replica(id) {
            None => false,
            Some(i) => {
                let mut info = self.replicas[i].clone_info();
                match report {
                    HealthReport::Score(score) => {
                        info.last_heartbeat = now;
                        info.performance_score = score;
                        info.state = if score > 800 {
                            ReplicaState::Healthy
                        } else if score > 500 {
                            ReplicaState::Degraded
                        } else {
                            ReplicaState::Failed
                        };
                    },
                    HealthReport::Failure => {
                        info.failure_count = info.failure_count.saturating_add(1);
                        info.state = ReplicaState::Failed;
                    },
                }
                proof {
                    lemma_replica_index(self.replicas@, id);
                }
                self.replicas.set(i, info);
                proof {
                    assert forall|a: int, b: int|
                        0 <= a < b < self.replicas@.len() implies self.replicas@[a].id
                        != self.replicas@[b].id by {
                        assert(old(self).replicas@[a].id == self.replicas@[a].id);
                        assert(old(self).replicas@[b].id == self.replicas@[b].id);
                    }
                }
                true
            },
        }
    }

    /// Drops every active proposal; the registry is kept.
    pub fn shutdown(&mut self)
        requires
            old(self).wf(),
        ensures
            final(self).wf(),
            final(self).spec_config() == old(self).spec_config(),
            final(self).replicas_view() == old(self).replicas_view(),
            final(self).active_view() == Map::<u128, ProposalState>::empty(),
    {
        self.active_proposals.clear();
        proof {
            assert(self.active_view() =~= Map::<u128, ProposalState>::empty());
        }
    }

    /// Settings the manager was made with.
    pub fn config(&self) -> (r: ConsensusConfig)
        ensures
            r == self.spec_config(),
    {
        self.config
    }
}


impl ReplicaInfo {
    /// A copy of the entry.
    pub fn clone_info(&self) -> (r: ReplicaInfo)
        ensures
            r == *self,
    {
        ReplicaInfo {
            id: self.id,
            instance_type: self.instance_type.clone(),
            state: self.state,
            last_heartbeat: self.last_heartbeat,
            failure_count: self.failure_count,
            vote_weight: self.vote_weight,
            performance_score: self.performance_score,
        }
    }
}

/// Decides a proposal once `votes` holds at least `required` votes: counts
/// the votes per decision, applies the quorum rule and averages the
/// confidences. `None` while votes are missing.
fn check_consensus_completion(votes: &Vec<Vote>, required: usize, id: u128, now: u64) -> (r:
    Option<ConsensusResult>)
    requires
        votes@.len() > 0,
    ensures
        match r {
            Some(res) => votes@.len() >= required && is_result_for(res, id, votes@, now),
            None => votes@.len() < required,
        },
{
    if votes.len() < required {
        return None;
    }
    let mut approve: usize = 0;
    let mut reject: usize = 0;
    let mut abstain: usize = 0;
    let mut total: u128 = 0;
    let mut voters: Vec<u128> = Vec::new();
    let mut i: usize = 0;
    while i < votes.len()
        invariant
            i <= votes@.len(),
            approve == count_of(votes@.take(i as int), VoteDecision::Approve),
            reject == count_of(votes@.take(i as int), VoteDecision::Reject),
            abstain == count_of(votes@.take(i as int), VoteDecision::Abstain),
            approve + reject + abstain == i,
            total == confidence_total(votes@.take(i as int)),
            total <= i * 0xffff_ffff,
            voters@ == voters_of(votes@.take(i as int)),
        decreases votes@.len() - i,
    {
        let v = &votes[i];
        proof {
            assert(votes@.take(i + 1).drop_last() =~= votes@.take(i as int));
            assert(votes@.take(i + 1).last() == votes@[i as int]);
            assert(voters_of(votes@.take(i + 1)) =~= voters_of(votes@.take(i as int)).push(
                votes@[i as int].voter_id,
            ));
        }
        match v.decision {
            VoteDecision::Approve => approve = approve + 1,
            VoteDecision::Reject => reject = reject + 1,
            VoteDecision::Abstain => abstain = abstain + 1,
        }
        total = total + v.confidence as u128;
        voters.push(v.voter_id);
        i = i + 1;
    }
    proof {
        assert(votes@.take(i as int) =~= votes@);
    }
    let n = votes.len() as u128;
    let mean = total / n;
    proof {
        assert(total / n <= 0xffff_ffff) by (nonlinear_arith)
            requires
                total <= n * 0xffff_ffff,
                n > 0,
        ;
    }
    let vote_count = VoteCount { approve, reject, abstain };
    Some(
        ConsensusResult {
            proposal_id: id,
            decision: determine_consensus_decision(&vote_count),
            vote_count,
            confidence_score: mean as u32,
            participating_replicas: voters,
            timestamp: now,
        },
    )
}

/// The last position holding `id` is `replica_index(rs, id)`.
pub proof fn lemma_replica_index_at(rs: Seq<ReplicaInfo>, id: u128, p: int)
    requires
        0 <= p < rs.len(),
        rs[p].id == id,
        forall|q: int| p < q < rs.len() ==> rs[q].id != id,
    ensures
        replica_index(rs, id) == p,
    decreases rs.len(),
{
    if p < rs.len() - 1 {
        let pre = rs.drop_last();
        assert forall|q: int| p < q < pre.len() implies pre[q].id != id by {
            assert(pre[q] == rs[q]);
        }
        lemma_replica_index_at(pre, id, p);
    }
}

/// Facts on `replica_index`: it is -1 or a position holding `id`, and -1
/// exactly when no replica has that id.
pub proof fn lemma_replica_index(rs: Seq<ReplicaInfo>, id: u128)
    ensures
        -1 <= replica_index(rs, id) < rs.len(),
        replica_index(rs, id) >= 0 ==> rs[replica_index(rs, id)].id == id,
        replica_index(rs, id) == -1 <==> forall|i: int| 0 <= i < rs.len() ==> rs[i].id != id,
        forall|q: int| replica_index(rs, id) < q < rs.len() ==> rs[q].id != id,
    decreases rs.len(),
{
    if rs.len() > 0 {
        lemma_replica_index(rs.drop_last(), id);
        if rs.last().id != id {
            assert forall|i: int| 0 <= i < rs.len() - 1 implies rs[i] == rs.drop_last()[i] by {}
        }
    }
}

/// Something that may end a proposal: a vote, or the expiry of the voting
/// time of a proposal.
pub enum ConsensusEvent {
    Vote(Vote),
    Timeout(u128),
}

/// Active proposals after `event` (see `process_vote` and
/// `expire_proposal`).
pub open spec fn active_after_event(
    rs: Seq<ReplicaInfo>,
    active: Map<u128, ProposalState>,
    event: ConsensusEvent,
) -> Map<u128, ProposalState> {
    match event {
        ConsensusEvent::Vote(v) => active_after_vote(rs, active, v),
        ConsensusEvent::Timeout(id) => active.remove(id),
    }
}

/// `event` ends proposal `id`: a vote that produces its result, or an
/// expiry that finds it still active.
pub open spec fn event_resolves(
    rs: Seq<ReplicaInfo>,
    active: Map<u128, ProposalState>,
    event: ConsensusEvent,
    id: u128,
) -> bool {
    match event {
        ConsensusEvent::Vote(v) => v.proposal_id == id && vote_resolves(rs, active, v),
        ConsensusEvent::Timeout(t) => t == id && active.contains_key(id),
    }
}

/// How many of `events`, applied in order from `active`, end proposal `id`.
pub open spec fn resolution_count(
    rs: Seq<ReplicaInfo>,
    active: Map<u128, ProposalState>,
    events: Seq<ConsensusEvent>,
    id: u128,
) -> nat
    decreases events.len(),
{
    if events.len() == 0 {
        0
    } else {
        (if event_resolves(rs, active, events[0], id) {
            1nat
        } else {
            0nat
        }) + resolution_count(
            rs,
            active_after_event(rs, active, events[0]),
            events.subrange(1, events.len() as int),
            id,
        )
    }
}

/// A proposal that is not active is never ended again.
pub proof fn lemma_inactive_stays_unresolved(
    rs: Seq<ReplicaInfo>,
    active: Map<u128, ProposalState>,
    events: Seq<ConsensusEvent>,
    id: u128,
)
    requires
        !active.contains_key(id),
    ensures
        resolution_count(rs, active, events, id) == 0,
    decreases events.len(),
{
    if events.len() > 0 {
        let next = active_after_event(rs, active, events[0]);
        assert(!next.contains_key(id));
        lemma_inactive_stays_unresolved(rs, next, events.subrange(1, events.len() as int), id);
    }
}

/// Every proposal is resolved exactly once: along any run of votes and
/// expiries, an active proposal is ended (by its quorum result or by its
/// expiry) at most once, and exactly once when its expiry is among the
/// events.
pub proof fn lemma_single_resolution(
    rs: Seq<ReplicaInfo>,
    active: Map<u128, ProposalState>,
    events: Seq<ConsensusEvent>,
    id: u128,
)
    requires
        active.contains_key(id),
    ensures
        resolution_count(rs, active, events, id) <= 1,
        (exists|i: int| 0 <= i < events.len() && events[i] == ConsensusEvent::Timeout(id))
            ==> resolution_count(rs, active, events, id) == 1,
    decreases events.len(),
{
    if events.len() > 0 {
        let e = events[0];
        let next = active_after_event(rs, active, e);
        let rest = events.subrange(1, events.len() as int);
        if event_resolves(rs, active, e, id) {
            assert(!next.contains_key(id));
            lemma_inactive_stays_unresolved(rs, next, rest, id);
        } else {
            assert(next.contains_key(id));
            lemma_single_resolution(rs, next, rest, id);
            if exists|i: int| 0 <= i < events.len() && events[i] == ConsensusEvent::Timeout(id) {
                let i = choose|i: int|
                    0 <= i < events.len() && events[i] == ConsensusEvent::Timeout(id);
                assert(i != 0);
                assert(rest[i - 1] == ConsensusEvent::Timeout(id));
            }
        }
    }
}

/// Counting a list of votes that all carry the same decision.
proof fn lemma_count_uniform(votes: Seq<Vote>, d: VoteDecision)
    requires
        forall|i: int| 0 <= i < votes.len() ==> (#[trigger] votes[i]).decision == d,
    ensures
        count_of(votes, d) == votes.len(),
        forall|e: VoteDecision| e != d ==> count_of(votes, e) == 0,
    decreases votes.len(),
{
    if votes.len() > 0 {
        let pre = votes.drop_last();
        assert forall|i: int| 0 <= i < pre.len() implies (#[trigger] pre[i]).decision == d by {
            assert(pre[i] == votes[i]);
        }
        lemma_count_uniform(pre, d);
        assert(votes.last() == votes[votes.len() - 1]);
        assert forall|e: VoteDecision| e != d implies count_of(votes, e) == 0 by {
            assert(count_of(pre, e) == 0);
        }
    }
}

/// Unanimous approval decides: when every vote recorded on a proposal is
/// Approve and one more accepted Approve vote brings it to its required
/// number, that vote resolves the proposal, with decision Approve and every
/// vote counted as an approval.
pub proof fn lemma_unanimous_quorum(
    rs: Seq<ReplicaInfo>,
    active: Map<u128, ProposalState>,
    vote: Vote,
)
    requires
        vote_accepted(rs, active, vote),
        vote.decision == VoteDecision::Approve,
        forall|i: int|
            0 <= i < active[vote.proposal_id].votes.len() ==> (#[trigger] active[vote.proposal_id].votes[i]).decision
                == VoteDecision::Approve,
        active[vote.proposal_id].proposal.required_votes == active[vote.proposal_id].votes.len() + 1,
    ensures
        vote_resolves(rs, active, vote),
        count_of(votes_with(active, vote), VoteDecision::Approve) == votes_with(active, vote).len(),
        count_of(votes_with(active, vote), VoteDecision::Reject) == 0,
        count_of(votes_with(active, vote), VoteDecision::Abstain) == 0,
        quorum_decision(
            count_of(votes_with(active, vote), VoteDecision::Approve) as int,
            count_of(votes_with(active, vote), VoteDecision::Reject) as int,
            count_of(votes_with(active, vote), VoteDecision::Abstain) as int,
        ) == VoteDecision::Approve,
{
    let all = votes_with(active, vote);
    assert forall|i: int| 0 <= i < all.len() implies (#[trigger] all[i]).decision
        == VoteDecision::Approve by {
        if i < all.len() - 1 {
            assert(all[i] == active[vote.proposal_id].votes[i]);
        }
    }
    lemma_count_uniform(all, VoteDecision::Approve);
}

} // verus!
