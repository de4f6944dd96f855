//! Kinds and priorities of the events carried by the event bus, and the
//! topic each kind is published on.
use vstd::prelude::*;
use vstd::string::StringExecFns;

verus! {

/// Kind of an event on the bus.
#[derive(Clone, Debug, PartialEq, Eq, Hash)]
pub enum EventType {
    SystemMetrics,
    AgentCommand,
    ConsensusVote,
    MutationRequest,
    HealthCheck,
    SecurityAlert,
    UserInteraction,
    Custom(String),
}

/// Priority of an event, most urgent first.
#[derive(Clone, Copy, Debug, PartialEq, Eq, Hash, PartialOrd, Ord, Structural)]
pub enum EventPriority {
    Critical,
    High,
    Normal,
    Low,
}

impl EventPriority {
    /// Rank of the priority: 0 for the most urgent.
    pub fn rank(&self) -> (r: u8)
        ensures
            r == match self {
                EventPriority::Critical => 0u8,
                EventPriority::High => 1u8,
                EventPriority::Normal => 2u8,
                EventPriority::Low => 3u8,
            },
    {
        match self {
            EventPriority::Critical => 0,
            EventPriority::High => 1,
            EventPriority::Normal => 2,
            EventPriority::Low => 3,
        }
    }
}

/// Topic on which events of kind `event_type` are published.
pub open spec fn subject_of(event_type: EventType) -> Seq<char> {
    match event_type {
        EventType::SystemMetrics => "saai.metrics"@,
        EventType::AgentCommand => "saai.agents.commands"@,
        EventType::ConsensusVote => "saai.consensus.votes"@,
        EventType::MutationRequest => "saai.meca.mutations"@,
        EventType::HealthCheck => "saai.health"@,
        EventType::SecurityAlert => "saai.security.alerts"@,
        EventType::UserInteraction => "saai.ui.interactions"@,
        EventType::Custom(name) => "saai.custom."@ + name@,
    }
}

/// Topic on which events of kind `event_type` are published.
pub fn get_subject_for_event(event_type: &EventType) -> (r: String)
    ensures
        r@ == subject_of(*event_type),
{
    match event_type {
        EventType::SystemMetrics => "saai.metrics".to_string(),
        EventType::AgentCommand => "saai.agents.commands".to_string(),
        EventType::ConsensusVote => "saai.consensus.votes".to_string(),
        EventType::MutationRequest => "saai.meca.mutations".to_string(),
        EventType::HealthCheck => "saai.health".to_string(),
        EventType::SecurityAlert => "saai.security.alerts".to_string(),
        EventType::UserInteraction => "saai.ui.interactions".to_string(),
        EventType::Custom(name) => {
            let mut subject = "saai.custom.".to_string();
            subject.append(name.as_str());
            subject
        },
    }
}

} // verus!
