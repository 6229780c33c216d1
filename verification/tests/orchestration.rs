use gemini_orchestration::orchestration::{
    is_gemini_native_root, is_root_orchestrator, token_usage_delta, ChildPoll, NudgeEvent,
    NudgeStage, OrchestrationRuntimeInner, CEILING_PROMPT, NUDGE_PROMPT,
};
use gemini_orchestration::protocol::{
    AgentPath, AgentStatus, ContentItem, ModeKind, ResponseItem, SessionSource, SubAgentSource,
    WireApi,
};
use gemini_orchestration::token_usage::TokenUsage;

fn usage(input: i64) -> TokenUsage {
    TokenUsage {
        input_tokens: input,
        ..TokenUsage::default()
    }
}

fn started() -> OrchestrationRuntimeInner {
    let mut state = OrchestrationRuntimeInner::new();
    state.mark_orchestration_started_if_first(
        WireApi::GeminiNative,
        &SessionSource::Cli,
        Some(usage(1_000)),
    );
    state
}

fn turn_end(state: &mut OrchestrationRuntimeInner, answered: bool) -> NudgeStage {
    state.maybe_nudge_gemini_orchestration_idle(
        WireApi::GeminiNative,
        &SessionSource::Cli,
        ModeKind::Default,
        answered,
    )
}

fn text_of(item: ResponseItem) -> String {
    let ResponseItem::Message { content, .. } = item else {
        panic!("expected a message");
    };
    match content.into_iter().next() {
        Some(ContentItem::InputText { text }) => text,
        other => panic!("expected a text, got {other:?}"),
    }
}

#[test]
fn roots_are_told_from_workers() {
    let spawned = |path: Option<&str>| {
        SessionSource::SubAgent(SubAgentSource::ThreadSpawn {
            agent_path: path.map(|path| AgentPath {
                path: path.to_string(),
            }),
        })
    };
    for source in [
        SessionSource::Cli,
        SessionSource::VSCode,
        SessionSource::Exec,
        SessionSource::Mcp,
        SessionSource::Custom("ide".to_string()),
        SessionSource::Unknown,
        spawned(Some("/root")),
    ] {
        assert!(is_root_orchestrator(&source), "{source:?}");
    }
    for source in [
        SessionSource::Internal,
        SessionSource::SubAgent(SubAgentSource::Other),
        spawned(None),
        spawned(Some("/root/worker")),
    ] {
        assert!(!is_root_orchestrator(&source), "{source:?}");
    }
    assert!(!is_gemini_native_root(
        WireApi::Responses,
        &SessionSource::Cli
    ));
}

#[test]
fn only_the_first_delegation_fixes_the_baseline() {
    let mut state = started();
    assert!(state.started);
    assert_eq!(state.token_baseline, Some(usage(1_000)));
    state.mark_orchestration_started_if_first(
        WireApi::GeminiNative,
        &SessionSource::Cli,
        Some(usage(9_000)),
    );
    assert_eq!(state.token_baseline, Some(usage(1_000)));

    let mut other = OrchestrationRuntimeInner::new();
    other.mark_orchestration_started_if_first(WireApi::Responses, &SessionSource::Cli, None);
    assert_eq!(other, OrchestrationRuntimeInner::new());
}

#[test]
fn an_idle_orchestrator_is_nudged_once_for_each_delegation() {
    let mut state = started();
    let stage = turn_end(&mut state, false);
    let stage = stage.next(NudgeEvent::Mailbox { pending: false });
    let stage = stage.next(NudgeEvent::Children(vec![1, 2]));
    let stage = stage.next(NudgeEvent::Status(AgentStatus::Errored("boom".to_string())));
    let stage = stage.next(NudgeEvent::Status(AgentStatus::Completed(Some(
        "report".to_string(),
    ))));
    assert_eq!(stage, NudgeStage::Claim);
    let item = state.claim_nudge().expect("the nudge should be claimed");
    assert_eq!(
        text_of(item),
        format!("<codex_internal_context source=\"orchestration\">\n{NUDGE_PROMPT}\n</codex_internal_context>")
    );
    assert_eq!(state.claim_nudge(), None);
    assert_eq!(turn_end(&mut state, false), NudgeStage::Stop);
    state.mark_orchestration_reengaged(WireApi::GeminiNative, &SessionSource::Cli);
    assert_eq!(turn_end(&mut state, false), NudgeStage::CheckMailbox);
}

#[test]
fn an_answer_makes_a_nudge_needless() {
    let mut state = started();
    assert_eq!(turn_end(&mut state, true), NudgeStage::Stop);
    assert!(state.answer_emitted_since_reengagement);
    assert_eq!(turn_end(&mut state, false), NudgeStage::Stop);
}

#[test]
fn nothing_is_nudged_before_delegation_or_in_plan_mode() {
    assert_eq!(
        turn_end(&mut OrchestrationRuntimeInner::new(), false),
        NudgeStage::Stop
    );
    assert_eq!(
        started().maybe_nudge_gemini_orchestration_idle(
            WireApi::GeminiNative,
            &SessionSource::Cli,
            ModeKind::Plan,
            false
        ),
        NudgeStage::Stop
    );
}

#[test]
fn a_nudge_waits_for_mail_and_children() {
    assert_eq!(
        NudgeStage::CheckMailbox.next(NudgeEvent::Mailbox { pending: true }),
        NudgeStage::Stop
    );
    assert_eq!(
        NudgeStage::ListChildren.next(NudgeEvent::ChildrenFailed),
        NudgeStage::Stop
    );
    assert_eq!(
        NudgeStage::ListChildren.next(NudgeEvent::Children(vec![])),
        NudgeStage::Claim
    );
    for status in [
        AgentStatus::Completed(None),
        AgentStatus::Running,
        AgentStatus::NotFound,
    ] {
        assert_eq!(
            NudgeStage::ListChildren
                .next(NudgeEvent::Children(vec![1, 2]))
                .next(NudgeEvent::Status(status)),
            NudgeStage::Stop
        );
    }
    assert_eq!(
        ChildPoll::start(vec![4]).next(&AgentStatus::Shutdown),
        ChildPoll::AllDelivered
    );
}

#[test]
fn the_ceiling_steers_at_each_multiple() {
    let mut state = started();
    let steer = |state: &OrchestrationRuntimeInner, input: i64| {
        state.maybe_steer_gemini_orchestration_ceiling(
            WireApi::GeminiNative,
            &SessionSource::Cli,
            ModeKind::Default,
            Some(usage(input)),
        )
    };
    assert_eq!(steer(&state, 250_999), None);
    let first = steer(&state, 251_000).expect("the ceiling is reached");
    assert_eq!(first.target_multiple, 1);
    assert_eq!(
        text_of(first.item),
        format!("<codex_internal_context source=\"orchestration\">\n{CEILING_PROMPT}\n</codex_internal_context>")
    );
    state.ceiling_steered(1, false);
    assert!(steer(&state, 251_000).is_some());
    state.ceiling_steered(1, true);
    assert_eq!(steer(&state, 500_999), None);
    state.mark_orchestration_reengaged(WireApi::GeminiNative, &SessionSource::Cli);
    assert_eq!(steer(&state, 500_999), None);
    assert_eq!(
        steer(&state, 1_001_000).map(|steer| steer.target_multiple),
        Some(4)
    );
    assert_eq!(
        state.maybe_steer_gemini_orchestration_ceiling(
            WireApi::GeminiNative,
            &SessionSource::Cli,
            ModeKind::Plan,
            Some(usage(900_000)),
        ),
        None
    );
    assert_eq!(steer(&OrchestrationRuntimeInner::new(), 900_000), None);
}

#[test]
fn usage_since_the_first_delegation_never_falls_below_zero() {
    let delta = token_usage_delta(&usage(5), &usage(9));
    assert_eq!(delta, TokenUsage::default());
    assert_eq!(token_usage_delta(&usage(12), &usage(9)), usage(3));
}
