//! Adapter through which one replica votes on proposals without knowing the
//! consensus manager.
use crate::consensus::{
    ConsensusProposal, ProposalType, Vote, VoteDecision, CONFIDENCE_SCALE, SCORE_SCALE,
};
use crate::nano_cores::{domain_name, NanoCoreType};
use crate::text::{decimal_of, decimal_text};
use vstd::string::StringExecFns;
use vstd::prelude::*;

verus! {

/// What serde_json reads as the member `key` of the JSON document in `data`,
/// as the bit pattern of the double it holds: `None` when `data` is not JSON
/// or the member is absent or not a number.
pub uninterp spec fn number_member_bits_of(data: Seq<u8>, key: Seq<char>) -> Option<u64>;

/// Name of the payload member that carries a mutation's fitness score.
pub const FITNESS_KEY: &'static str = "fitnessScore";

/// Fitness score carried by a mutation payload, as double bits.
pub open spec fn fitness_bits_of(data: Seq<u8>) -> Option<u64> {
    number_member_bits_of(data, FITNESS_KEY@)
}

/// Relies on serde_json::from_slice, Value::get and Value::as_f64: parses
/// the payload as JSON and reads its numeric member `key`, handed back as the
/// bits of the double.
#[verifier::external_body]
fn number_member_bits(data: &[u8], key: &str) -> (r: Option<u64>)
    ensures
        r == number_member_bits_of(data@, key@),
{
    serde_json::from_slice::<serde_json::Value>(data).ok().and_then(
        |v| v.get(key).and_then(|f| f.as_f64()),
    ).map(|f| f.to_bits())
}

/// Human-readable line on who voted and with what health.
pub open spec fn reasoning_text(core_type: NanoCoreType, instance_number: usize, health: u32) -> Seq<
    char,
> {
    "Vote of "@ + domain_name(core_type) + " instance "@ + decimal_of(instance_number as nat)
        + " - health "@ + decimal_of(health as nat) + "/1000"@
}

/// Human-readable line on who voted and with what health.
fn vote_reasoning(core_type: NanoCoreType, instance_number: usize, health: u32) -> (r: String)
    ensures
        r@ == reasoning_text(core_type, instance_number, health),
{
    let mut text = "Vote of ".to_string();
    let name = core_type.name();
    text.append(name.as_str());
    text.append(" instance ");
    let n = decimal_text(instance_number as u64);
    text.append(n.as_str());
    text.append(" - health ");
    let h = decimal_text(health as u64);
    text.append(h.as_str());
    text.append("/1000");
    text
}

/// The double with bit pattern `bits` is greater than 0.8 (whose nearest
/// double has bits 0x3FE999999999999A). Non-negative doubles are ordered
/// as their bit patterns; patterns with the sign bit are negative, and those
/// above the one of positive infinity are not numbers.
pub open spec fn exceeds_fitness_threshold(bits: u64) -> bool {
    0x3FE9_9999_9999_999A < bits <= 0x7FF0_0000_0000_0000
}

/// Decision on a system mutation for a fitness score given as double bits:
/// Abstain without a score, Approve above 0.8, Reject otherwise.
pub open spec fn mutation_decision(fitness: Option<u64>) -> VoteDecision {
    match fitness {
        None => VoteDecision::Abstain,
        Some(bits) => if exceeds_fitness_threshold(bits) {
            VoteDecision::Approve
        } else {
            VoteDecision::Reject
        },
    }
}

/// Decision of a replica of domain `core_type`, with health score `health`,
/// on a proposal of kind `kind` whose payload has fitness `fitness`.
pub open spec fn participant_decision(
    core_type: NanoCoreType,
    health: u32,
    kind: ProposalType,
    fitness: Option<u64>,
) -> VoteDecision {
    match kind {
        ProposalType::HealthCheck => if health > 700 {
            VoteDecision::Approve
        } else {
            VoteDecision::Abstain
        },
        ProposalType::ConfigChange => VoteDecision::Approve,
        ProposalType::ReplicaReplacement => if health > 800 {
            VoteDecision::Approve
        } else {
            VoteDecision::Reject
        },
        ProposalType::SystemMutation => mutation_decision(fitness),
        ProposalType::SecurityAction => if core_type == NanoCoreType::Security {
            VoteDecision::Approve
        } else {
            VoteDecision::Abstain
        },
    }
}

/// Confidence of a vote, on the `CONFIDENCE_SCALE` scale, for a health score
/// on the `SCORE_SCALE` scale: health * 0.9 + 0.1.
pub open spec fn confidence_for(health: u32) -> int {
    9 * health + 1000
}

/// Decides a system mutation from the fitness score read from its payload.
pub fn decide_system_mutation(fitness: Option<u64>) -> (r: VoteDecision)
    ensures
        r == mutation_decision(fitness),
{
    match fitness {
        None => VoteDecision::Abstain,
        Some(bits) => {
            if 0x3FE9_9999_9999_999A < bits && bits <= 0x7FF0_0000_0000_0000 {
                VoteDecision::Approve
            } else {
                VoteDecision::Reject
            }
        },
    }
}

/// Decides a proposal for a replica, given the fitness read from the
/// proposal's payload.
pub fn decide_vote(core_type: NanoCoreType, health: u32, kind: ProposalType, fitness: Option<u64>) -> (r:
    VoteDecision)
    ensures
        r == participant_decision(core_type, health, kind, fitness),
{
    match kind {
        ProposalType::HealthCheck => {
            if health > 700 {
                VoteDecision::Approve
            } else {
                VoteDecision::Abstain
            }
        },
        ProposalType::ConfigChange => VoteDecision::Approve,
        ProposalType::ReplicaReplacement => {
            if health > 800 {
                VoteDecision::Approve
            } else {
                VoteDecision::Reject
            }
        },
        ProposalType::SystemMutation => decide_system_mutation(fitness),
        ProposalType::SecurityAction => {
            if core_type == NanoCoreType::Security {
                VoteDecision::Approve
            } else {
                VoteDecision::Abstain
            }
        },
    }
}

/// Confidence of a vote cast with health score `health`: health * 0.9 + 0.1,
/// so that no vote carries zero confidence. Full health gives full
/// confidence, zero health a tenth of it.
pub fn vote_confidence(health: u32) -> (r: u32)
    requires
        health <= SCORE_SCALE,
    ensures
        r == confidence_for(health),
        r <= CONFIDENCE_SCALE,
        r >= 1000,
{
    9 * health + 1000
}

/// One replica of a domain, as a voter.
pub struct NanoCoreConsensusParticipant {
    id: u128,
    core_type: NanoCoreType,
    instance_number: usize,
    health_score: u32,
}

impl NanoCoreConsensusParticipant {
    pub closed spec fn spec_id(&self) -> u128 {
        self.id
    }

    pub closed spec fn spec_core_type(&self) -> NanoCoreType {
        self.core_type
    }

    pub closed spec fn spec_instance_number(&self) -> usize {
        self.instance_number
    }

    /// Current health score, on the `SCORE_SCALE` scale.
    pub closed spec fn spec_health(&self) -> u32 {
        self.health_score
    }

    /// The health score stays within its scale.
    pub closed spec fn wf(&self) -> bool {
        self.health_score <= SCORE_SCALE
    }

    /// Participant for replica `id`, the `instance_number`-th of its domain,
    /// starting at full health.
    pub fn new(id: u128, core_type: NanoCoreType, instance_number: usize) -> (r: Self)
        ensures
            r.wf(),
            r.spec_id() == id,
            r.spec_core_type() == core_type,
            r.spec_instance_number() == instance_number,
            r.spec_health() == SCORE_SCALE,
    {
        NanoCoreConsensusParticipant { id, core_type, instance_number, health_score: SCORE_SCALE }
    }

    /// Replaces the health score with a newly measured one.
    pub fn update_health_score(&mut self, score: u32)
        requires
            score <= SCORE_SCALE,
        ensures
            final(self).wf(),
            final(self).spec_health() == score,
            final(self).spec_id() == old(self).spec_id(),
            final(self).spec_core_type() == old(self).spec_core_type(),
            final(self).spec_instance_number() == old(self).spec_instance_number(),
    {
        self.health_score = score;
    }

    pub fn participant_id(&self) -> (r: u128)
        ensures
            r == self.spec_id(),
    {
        self.id
    }

    pub fn core_type(&self) -> (r: NanoCoreType)
        ensures
            r == self.spec_core_type(),
    {
        self.core_type
    }

    pub fn instance_number(&self) -> (r: usize)
        ensures
            r == self.spec_instance_number(),
    {
        self.instance_number
    }

    /// The cached health score.
    pub fn health_check(&self) -> (r: u32)
        ensures
            r == self.spec_health(),
    {
        self.health_score
    }

    /// Security replicas weigh configuration changes on their own; they
    /// accept them for now.
    fn evaluate_security_config_change(&self, _proposal: &ConsensusProposal) -> (r: VoteDecision)
        ensures
            r == VoteDecision::Approve,
    {
        VoteDecision::Approve
    }

    /// Network replicas weigh the impact on connectivity; they accept
    /// configuration changes for now.
    fn evaluate_network_config_change(&self, _proposal: &ConsensusProposal) -> (r: VoteDecision)
        ensures
            r == VoteDecision::Approve,
    {
        VoteDecision::Approve
    }

    /// Approve a replacement only while this replica is itself healthy.
    fn evaluate_replica_replacement(&self) -> (r: VoteDecision)
        ensures
            r == participant_decision(
                self.core_type,
                self.health_score,
                ProposalType::ReplicaReplacement,
                None,
            ),
    {
        if self.health_score > 800 {
            VoteDecision::Approve
        } else {
            VoteDecision::Reject
        }
    }

    /// Decision on a system mutation, from the fitness score in its payload.
    fn evaluate_system_mutation(&self, proposal: &ConsensusProposal) -> (r: VoteDecision)
        ensures
            r == mutation_decision(fitness_bits_of(proposal.data@)),
    {
        let fitness = number_member_bits(proposal.data.as_slice(), FITNESS_KEY);
        decide_system_mutation(fitness)
    }

    /// This replica's decision on `proposal`.
    pub fn evaluate_proposal(&self, proposal: &ConsensusProposal) -> (r: VoteDecision)
        ensures
            r == participant_decision(
                self.spec_core_type(),
                self.spec_health(),
                proposal.proposal_type,
                fitness_bits_of(proposal.data@),
            ),
    {
        match proposal.proposal_type {
            ProposalType::HealthCheck => decide_vote(
                self.core_type,
                self.health_score,
                ProposalType::HealthCheck,
                None,
            ),
            ProposalType::ConfigChange => match self.core_type {
                NanoCoreType::Security => self.evaluate_security_config_change(proposal),
                NanoCoreType::Network => self.evaluate_network_config_change(proposal),
                _ => VoteDecision::Approve,
            },
            ProposalType::ReplicaReplacement => self.evaluate_replica_replacement(),
            ProposalType::SystemMutation => self.evaluate_system_mutation(proposal),
            ProposalType::SecurityAction => decide_vote(
                self.core_type,
                self.health_score,
                ProposalType::SecurityAction,
                None,
            ),
        }
    }

    /// This replica's vote on `proposal`, cast at `now`, with a confidence
    /// that follows its health.
    pub fn vote(&self, proposal: &ConsensusProposal, now: u64) -> (r: Vote)
        requires
            self.wf(),
        ensures
            r.proposal_id == proposal.id,
            r.voter_id == self.spec_id(),
            r.decision == participant_decision(
                self.spec_core_type(),
                self.spec_health(),
                proposal.proposal_type,
                fitness_bits_of(proposal.data@),
            ),
            r.confidence == confidence_for(self.spec_health()),
            1000 <= r.confidence <= CONFIDENCE_SCALE,
            r.reasoning is Some,
            r.reasoning->0@ == reasoning_text(
                self.spec_core_type(),
                self.spec_instance_number(),
                self.spec_health(),
            ),
            r.timestamp == now,
    {
        let decision = self.evaluate_proposal(proposal);
        let confidence = vote_confidence(self.health_score);
        Vote {
            proposal_id: proposal.id,
            voter_id: self.id,
            decision,
            confidence,
            reasoning: Some(vote_reasoning(self.core_type, self.instance_number, self.health_score)),
            timestamp: now,
        }
    }
}

} // verus!
