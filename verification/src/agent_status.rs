//! How the status of an agent follows from the events that it emits.

use crate::protocol::{AgentEvent, AgentStatus, TurnAbortReason};
use crate::text::clone_opt;
use vstd::prelude::*;

verus! {

/// Derives the next status of an agent from one emitted event; `None` where the event does
/// not bear on it.
pub fn agent_status_from_event(msg: &AgentEvent) -> (result: Option<AgentStatus>)
    ensures
        result == match *msg {
            AgentEvent::TurnStarted => Some(AgentStatus::Running),
            AgentEvent::TurnComplete { last_agent_message } => Some(
                AgentStatus::Completed(last_agent_message),
            ),
            AgentEvent::TurnAborted { reason: TurnAbortReason::Other(name) } => Some(
                AgentStatus::Errored(name),
            ),
            AgentEvent::TurnAborted { .. } => Some(AgentStatus::Interrupted),
            AgentEvent::Error { message } => Some(AgentStatus::Errored(message)),
            AgentEvent::ShutdownComplete => Some(AgentStatus::Shutdown),
            AgentEvent::Other => None,
        },
{
    match msg {
        AgentEvent::TurnStarted => Some(AgentStatus::Running),
        AgentEvent::TurnComplete { last_agent_message } => Some(
            AgentStatus::Completed(clone_opt(last_agent_message)),
        ),
        AgentEvent::TurnAborted { reason } => match reason {
            TurnAbortReason::Interrupted | TurnAbortReason::BudgetLimited => Some(
                AgentStatus::Interrupted,
            ),
            TurnAbortReason::Other(name) => Some(AgentStatus::Errored(name.clone())),
        },
        AgentEvent::Error { message } => Some(AgentStatus::Errored(message.clone())),
        AgentEvent::ShutdownComplete => Some(AgentStatus::Shutdown),
        AgentEvent::Other => None,
    }
}

/// Whether an agent in this status has come to rest.
pub open spec fn final_status(status: AgentStatus) -> bool {
    !(status is PendingInit || status is Running || status is Interrupted)
}

/// Whether an agent in this status is done and has delivered something to build on: a
/// report, or a determinate error or shutdown. An empty report is not a delivery, and an
/// unknown agent is not done.
pub open spec fn delivered_status(status: AgentStatus) -> bool {
    ||| status matches AgentStatus::Completed(Some(_))
    ||| status is Errored
    ||| status is Shutdown
}

/// Whether an agent in this status has come to rest.
pub fn is_final(status: &AgentStatus) -> (result: bool)
    ensures
        result == final_status(*status),
{
    match status {
        AgentStatus::PendingInit | AgentStatus::Running | AgentStatus::Interrupted => false,
        _ => true,
    }
}

/// Whether an agent in this status is done with a delivered result.
pub fn is_terminal_with_delivery(status: &AgentStatus) -> (result: bool)
    ensures
        result == delivered_status(*status),
{
    match status {
        AgentStatus::Completed(Some(_)) | AgentStatus::Errored(_) | AgentStatus::Shutdown => true,
        _ => false,
    }
}

/// A delivered result is stricter than a final status: exactly the unknown agent and the
/// empty report are final without being delivered.
pub proof fn lemma_delivery_is_stricter(status: AgentStatus)
    ensures
        delivered_status(status) <==> final_status(status) && !(status is NotFound) && status
            != AgentStatus::Completed(None),
{
}

} // verus!
