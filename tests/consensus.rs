use saai_core::config::CoreConfig;
use saai_core::consensus::{
    determine_consensus_decision, ConsensusConfig, ConsensusError, ConsensusManager,
    ConsensusProposal, HealthReport, ProposalType, ReplicaState, Vote, VoteCount, VoteDecision,
    VoteOutcome,
};
use saai_core::nano_cores::consensus_participant::{
    decide_system_mutation, decide_vote, vote_confidence, NanoCoreConsensusParticipant,
};
use saai_core::nano_cores::{NanoCoreManager, NanoCoreType};
use saai_core::{BUILD_INFO, VERSION};

fn proposal(id: u128, kind: ProposalType, data: &[u8], required_votes: usize) -> ConsensusProposal {
    ConsensusProposal {
        id,
        proposal_type: kind,
        proposer: 99,
        data: data.to_vec(),
        timestamp: 0,
        required_votes,
    }
}

fn vote(proposal_id: u128, voter_id: u128, decision: VoteDecision, confidence: u32) -> Vote {
    Vote { proposal_id, voter_id, decision, confidence, reasoning: None, timestamp: 5 }
}

fn manager_with(ids: &[u128]) -> ConsensusManager {
    let mut m = ConsensusManager::new(ConsensusConfig::default());
    for id in ids {
        m.register_participant(*id, "OS".to_string(), 0);
    }
    m
}

#[test]
fn test_version_info() {
    assert!(!VERSION.is_empty());
    assert!(BUILD_INFO.contains("SAAI Core"));
}

#[test]
fn tie_between_approve_and_reject_rejects() {
    let c = VoteCount { approve: 2, reject: 2, abstain: 0 };
    assert_eq!(determine_consensus_decision(&c), VoteDecision::Reject);
}

#[test]
fn clear_majority_approves() {
    let c = VoteCount { approve: 3, reject: 1, abstain: 1 };
    assert_eq!(determine_consensus_decision(&c), VoteDecision::Approve);
}

#[test]
fn only_abstentions_fall_back_to_reject() {
    // Reject wins whenever it is not behind Approve, even against abstentions.
    let c = VoteCount { approve: 0, reject: 0, abstain: 3 };
    assert_eq!(determine_consensus_decision(&c), VoteDecision::Reject);
}

#[test]
fn abstain_wins_when_it_leads_and_approve_beats_reject() {
    let c = VoteCount { approve: 2, reject: 1, abstain: 3 };
    assert_eq!(determine_consensus_decision(&c), VoteDecision::Abstain);
}

#[test]
fn no_votes_at_all_rejects() {
    let c = VoteCount { approve: 0, reject: 0, abstain: 0 };
    assert_eq!(determine_consensus_decision(&c), VoteDecision::Reject);
}

#[test]
fn propose_needs_enough_healthy_replicas() {
    let mut m = manager_with(&[1, 2]);
    let r = m.propose(proposal(10, ProposalType::HealthCheck, b"", 2));
    assert_eq!(r.unwrap_err(), ConsensusError::InsufficientReplicas { healthy: 2, required: 3 });
    assert!(!m.is_active(10));
    m.register_participant(3, "OS".to_string(), 0);
    assert_eq!(m.propose(proposal(10, ProposalType::HealthCheck, b"", 2)), Ok(10));
    assert!(m.is_active(10));
    assert_eq!(m.recorded_votes(10), Some(0));
}

#[test]
fn degraded_replica_does_not_count_toward_propose() {
    let mut m = manager_with(&[1, 2, 3]);
    assert!(m.record_health_check(3, HealthReport::Score(600), 7));
    assert_eq!(m.count_healthy_replicas(), 2);
    assert!(m.propose(proposal(10, ProposalType::HealthCheck, b"", 2)).is_err());
}

#[test]
fn vote_from_degraded_replica_is_discarded_silently() {
    let mut m = manager_with(&[1, 2, 3]);
    m.propose(proposal(10, ProposalType::HealthCheck, b"", 3)).unwrap();
    assert!(matches!(m.process_vote(vote(10, 1, VoteDecision::Approve, 10000), 1), Ok(VoteOutcome::Recorded)));
    m.record_health_check(2, HealthReport::Score(600), 2);
    m.record_health_check(3, HealthReport::Failure, 2);
    assert!(matches!(m.process_vote(vote(10, 2, VoteDecision::Reject, 10000), 3), Ok(VoteOutcome::Discarded)));
    assert!(matches!(m.process_vote(vote(10, 3, VoteDecision::Reject, 10000), 3), Ok(VoteOutcome::Discarded)));
    assert_eq!(m.recorded_votes(10), Some(1));
}

#[test]
fn unknown_proposal_and_unknown_voter_are_errors() {
    let mut m = manager_with(&[1, 2, 3]);
    assert!(matches!(m.process_vote(vote(77, 1, VoteDecision::Approve, 1), 0), Err(ConsensusError::ProposalNotFound(77))));
    m.propose(proposal(10, ProposalType::HealthCheck, b"", 3)).unwrap();
    assert!(matches!(m.process_vote(vote(10, 42, VoteDecision::Approve, 1), 0), Err(ConsensusError::VoterNotRegistered(42))));
    assert_eq!(m.recorded_votes(10), Some(0));
}

#[test]
fn quorum_resolves_once_with_mean_confidence() {
    let mut m = manager_with(&[1, 2, 3]);
    m.propose(proposal(10, ProposalType::ConfigChange, b"", 2)).unwrap();
    m.process_vote(vote(10, 1, VoteDecision::Approve, 10000), 1).unwrap();
    let out = m.process_vote(vote(10, 2, VoteDecision::Approve, 5001), 9).unwrap();
    match out {
        VoteOutcome::Resolved(r) => {
            assert_eq!(r.proposal_id, 10);
            assert_eq!(r.decision, VoteDecision::Approve);
            assert_eq!(r.vote_count.get(VoteDecision::Approve), 2);
            assert_eq!(r.vote_count.get(VoteDecision::Reject), 0);
            assert_eq!(r.confidence_score, 7500);
            assert_eq!(r.participating_replicas, vec![1, 2]);
            assert_eq!(r.timestamp, 9);
        }
        _ => panic!("expected a result"),
    }
    assert!(!m.is_active(10));
    assert!(!m.expire_proposal(10));
    assert!(matches!(m.process_vote(vote(10, 3, VoteDecision::Approve, 1), 0), Err(ConsensusError::ProposalNotFound(10))));
}

#[test]
fn expired_proposal_never_resolves() {
    let mut m = manager_with(&[1, 2, 3]);
    m.propose(proposal(10, ProposalType::ConfigChange, b"", 2)).unwrap();
    m.process_vote(vote(10, 1, VoteDecision::Approve, 10000), 1).unwrap();
    assert!(m.expire_proposal(10));
    assert!(!m.expire_proposal(10));
    assert!(matches!(m.process_vote(vote(10, 2, VoteDecision::Approve, 1), 0), Err(ConsensusError::ProposalNotFound(10))));
}

#[test]
fn health_monitor_downgrades_and_fails() {
    let mut m = manager_with(&[1]);
    m.record_health_check(1, HealthReport::Score(950), 1);
    assert_eq!(m.replica_state(1), Some(ReplicaState::Healthy));
    m.record_health_check(1, HealthReport::Score(600), 2);
    assert_eq!(m.replica_state(1), Some(ReplicaState::Degraded));
    assert_eq!(m.replica(1).unwrap().performance_score, 600);
    assert_eq!(m.replica(1).unwrap().last_heartbeat, 2);
    m.record_health_check(1, HealthReport::Score(950), 3);
    m.record_health_check(1, HealthReport::Failure, 4);
    assert_eq!(m.replica_state(1), Some(ReplicaState::Failed));
    assert_eq!(m.replica(1).unwrap().failure_count, 1);
    assert_eq!(m.replica(1).unwrap().performance_score, 950);
    m.record_health_check(1, HealthReport::Score(500), 5);
    assert_eq!(m.replica_state(1), Some(ReplicaState::Failed));
    assert!(!m.record_health_check(8, HealthReport::Failure, 5));
}

#[test]
fn confidence_follows_health() {
    assert_eq!(vote_confidence(1000), 10000);
    assert_eq!(vote_confidence(0), 1000);
    assert_eq!(vote_confidence(500), 5500);
}

#[test]
fn participant_decisions_by_proposal_kind() {
    assert_eq!(decide_vote(NanoCoreType::OS, 800, ProposalType::HealthCheck, None), VoteDecision::Approve);
    assert_eq!(decide_vote(NanoCoreType::OS, 700, ProposalType::HealthCheck, None), VoteDecision::Abstain);
    assert_eq!(decide_vote(NanoCoreType::OS, 810, ProposalType::ReplicaReplacement, None), VoteDecision::Approve);
    assert_eq!(decide_vote(NanoCoreType::OS, 800, ProposalType::ReplicaReplacement, None), VoteDecision::Reject);
    assert_eq!(decide_vote(NanoCoreType::Network, 0, ProposalType::ConfigChange, None), VoteDecision::Approve);
    assert_eq!(decide_vote(NanoCoreType::Security, 0, ProposalType::SecurityAction, None), VoteDecision::Approve);
    assert_eq!(decide_vote(NanoCoreType::Hardware, 1000, ProposalType::SecurityAction, None), VoteDecision::Abstain);
}

#[test]
fn mutation_fitness_threshold() {
    assert_eq!(decide_system_mutation(Some(0.9f64.to_bits())), VoteDecision::Approve);
    assert_eq!(decide_system_mutation(Some(0.8f64.to_bits())), VoteDecision::Reject);
    assert_eq!(decide_system_mutation(Some((-3.0f64).to_bits())), VoteDecision::Reject);
    assert_eq!(decide_system_mutation(Some(0.80000001f64.to_bits())), VoteDecision::Approve);
    assert_eq!(decide_system_mutation(None), VoteDecision::Abstain);
}

#[test]
fn participant_reads_fitness_from_payload() {
    let p = NanoCoreConsensusParticipant::new(5, NanoCoreType::OS, 0);
    let good = proposal(1, ProposalType::SystemMutation, br#"{"fitnessScore": 0.9}"#, 1);
    let bad = proposal(1, ProposalType::SystemMutation, br#"{"fitnessScore": 0.5}"#, 1);
    let none = proposal(1, ProposalType::SystemMutation, br#"{"other": 1}"#, 1);
    let garbage = proposal(1, ProposalType::SystemMutation, b"not json", 1);
    assert_eq!(p.evaluate_proposal(&good), VoteDecision::Approve);
    assert_eq!(p.evaluate_proposal(&bad), VoteDecision::Reject);
    assert_eq!(p.evaluate_proposal(&none), VoteDecision::Abstain);
    assert_eq!(p.evaluate_proposal(&garbage), VoteDecision::Abstain);
}

#[test]
fn participant_vote_carries_confidence() {
    let mut p = NanoCoreConsensusParticipant::new(5, NanoCoreType::Hardware, 2);
    p.update_health_score(0);
    let v = p.vote(&proposal(4, ProposalType::HealthCheck, b"", 1), 77);
    assert_eq!(v.voter_id, 5);
    assert_eq!(v.proposal_id, 4);
    assert_eq!(v.decision, VoteDecision::Abstain);
    assert_eq!(v.confidence, 1000);
    assert_eq!(v.timestamp, 77);
    assert_eq!(v.reasoning.as_deref(), Some("Vote of Hardware instance 2 - health 0/1000"));
}

#[test]
fn end_to_end_system_mutation_is_approved() {
    let mut config = CoreConfig::default();
    config.consensus.replica_count = 3;
    let mut cores = NanoCoreManager::new(config);
    assert!(cores.start_nano_core(NanoCoreType::OS, vec![101, 102, 103]).is_ok());
    let mut consensus = ConsensusManager::new(ConsensusConfig::default());
    let participants = cores.register_cores_in_consensus(&mut consensus, 0);
    assert_eq!(participants.len(), 3);
    let p = proposal(500, ProposalType::SystemMutation, br#"{"fitnessScore": 0.9}"#, 3);
    assert_eq!(consensus.propose(p.clone()), Ok(500));
    let mut result = None;
    for participant in &participants {
        let v = participant.vote(&p, 10);
        assert_eq!(v.decision, VoteDecision::Approve);
        if let VoteOutcome::Resolved(r) = consensus.process_vote(v, 11).unwrap() {
            result = Some(r);
        }
    }
    let r = result.expect("quorum reached");
    assert_eq!(r.decision, VoteDecision::Approve);
    assert_eq!(r.vote_count.get(VoteDecision::Approve), 3);
    assert_eq!(r.confidence_score, 10000);
}
