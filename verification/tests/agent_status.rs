use gemini_orchestration::agent_status::{
    agent_status_from_event, is_final, is_terminal_with_delivery,
};
use gemini_orchestration::protocol::{AgentEvent, AgentStatus, TurnAbortReason};

#[test]
fn is_terminal_with_delivery_excludes_null_completion() {
    assert!(is_terminal_with_delivery(&AgentStatus::Completed(Some(
        "report".to_string()
    ))));
    assert!(is_terminal_with_delivery(&AgentStatus::Errored(
        "boom".to_string()
    )));
    assert!(is_terminal_with_delivery(&AgentStatus::Shutdown));
    assert!(!is_terminal_with_delivery(&AgentStatus::Completed(None)));
    assert!(!is_terminal_with_delivery(&AgentStatus::NotFound));
    assert!(!is_terminal_with_delivery(&AgentStatus::PendingInit));
    assert!(!is_terminal_with_delivery(&AgentStatus::Running));
    assert!(!is_terminal_with_delivery(&AgentStatus::Interrupted));
}

#[test]
fn an_agent_at_rest_is_final() {
    assert!(is_final(&AgentStatus::Completed(None)));
    assert!(is_final(&AgentStatus::NotFound));
    assert!(is_final(&AgentStatus::Shutdown));
    assert!(is_final(&AgentStatus::Errored(String::new())));
    assert!(!is_final(&AgentStatus::PendingInit));
    assert!(!is_final(&AgentStatus::Running));
    assert!(!is_final(&AgentStatus::Interrupted));
}

#[test]
fn the_status_follows_the_events() {
    assert_eq!(
        agent_status_from_event(&AgentEvent::TurnStarted),
        Some(AgentStatus::Running)
    );
    assert_eq!(
        agent_status_from_event(&AgentEvent::TurnComplete {
            last_agent_message: Some("done".to_string())
        }),
        Some(AgentStatus::Completed(Some("done".to_string())))
    );
    assert_eq!(
        agent_status_from_event(&AgentEvent::TurnAborted {
            reason: TurnAbortReason::Interrupted
        }),
        Some(AgentStatus::Interrupted)
    );
    assert_eq!(
        agent_status_from_event(&AgentEvent::TurnAborted {
            reason: TurnAbortReason::BudgetLimited
        }),
        Some(AgentStatus::Interrupted)
    );
    assert_eq!(
        agent_status_from_event(&AgentEvent::TurnAborted {
            reason: TurnAbortReason::Other("Replaced".to_string())
        }),
        Some(AgentStatus::Errored("Replaced".to_string()))
    );
    assert_eq!(
        agent_status_from_event(&AgentEvent::Error {
            message: "boom".to_string()
        }),
        Some(AgentStatus::Errored("boom".to_string()))
    );
    assert_eq!(
        agent_status_from_event(&AgentEvent::ShutdownComplete),
        Some(AgentStatus::Shutdown)
    );
    assert_eq!(agent_status_from_event(&AgentEvent::Other), None);
}
