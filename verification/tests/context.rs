use gemini_orchestration::context::{render_fragment, status_json, SubagentNotification};
use gemini_orchestration::protocol::{
    AgentStatus, ContentItem, MessagePhase, MultiAgentVersion, ResponseItem, SessionSource,
    SubAgentSource, WireApi,
};
use gemini_orchestration::usage_hint::{
    subagent_usage_hint_text_for_wire_api, usage_hint_text, UsageHintConfig,
    GEMINI_MULTI_AGENT_V2_SUBAGENT_USAGE_HINT_TEXT,
};

#[test]
fn a_notification_is_an_object_on_a_line_of_its_own() {
    let notification = SubagentNotification::new(
        "/root/worker".to_string(),
        AgentStatus::Completed(Some("say \"hi\"\n\u{1}\\ é".to_string())),
    );
    assert_eq!(notification.role(), "user");
    assert_eq!(
        notification.body(),
        "\n{\"agent_path\":\"/root/worker\",\"status\":{\"completed\":\"say \\\"hi\\\"\\n\\u0001\\\\ é\"}}\n"
    );
    let (open, close) = SubagentNotification::type_markers();
    assert_eq!(
        render_fragment(
            open,
            &SubagentNotification::new("a".to_string(), AgentStatus::Running).body(),
            close
        ),
        "<subagent_notification>\n{\"agent_path\":\"a\",\"status\":\"running\"}\n</subagent_notification>"
    );
}

#[test]
fn statuses_are_written_as_json() {
    for (status, expected) in [
        (AgentStatus::PendingInit, "\"pending_init\""),
        (AgentStatus::Running, "\"running\""),
        (AgentStatus::Interrupted, "\"interrupted\""),
        (AgentStatus::Completed(None), "{\"completed\":null}"),
        (
            AgentStatus::Errored("bad\u{8}\u{c}\r\t\u{1f}\u{7f}".to_string()),
            "{\"errored\":\"bad\\b\\f\\r\\t\\u001f\u{7f}\"}",
        ),
        (AgentStatus::Shutdown, "\"shutdown\""),
        (AgentStatus::NotFound, "\"not_found\""),
    ] {
        assert_eq!(status_json(&status), expected);
    }
}

fn message(role: &str, content: Vec<ContentItem>, phase: Option<MessagePhase>) -> ResponseItem {
    ResponseItem::Message {
        id: None,
        role: role.to_string(),
        content,
        phase,
    }
}

fn text(text: &str) -> ContentItem {
    ContentItem::OutputText {
        text: text.to_string(),
    }
}

#[test]
fn a_clean_notification_is_a_single_comment_of_the_assistant() {
    let clean = message("assistant", vec![text("note")], Some(MessagePhase::Commentary));
    assert_eq!(
        SubagentNotification::clean_response_text(&clean),
        Some("note".to_string())
    );
    assert!(SubagentNotification::matches_clean_response_item(&clean, true));
    assert!(!SubagentNotification::matches_clean_response_item(&clean, false));
    for item in [
        message("user", vec![text("note")], Some(MessagePhase::Commentary)),
        message("assistant", vec![text("note")], None),
        message("assistant", vec![text("note")], Some(MessagePhase::FinalAnswer)),
        message("assistant", vec![], Some(MessagePhase::Commentary)),
        message(
            "assistant",
            vec![text("note"), text("more")],
            Some(MessagePhase::Commentary),
        ),
        message(
            "assistant",
            vec![ContentItem::InputText {
                text: "note".to_string(),
            }],
            Some(MessagePhase::Commentary),
        ),
        ResponseItem::Other,
    ] {
        assert!(!SubagentNotification::matches_clean_response_item(&item, true));
    }
}

#[test]
fn workers_are_given_the_gemini_hint_in_place_of_the_default() {
    let default_hint = "You are a worker.";
    assert_eq!(
        subagent_usage_hint_text_for_wire_api(WireApi::GeminiNative, default_hint, default_hint),
        GEMINI_MULTI_AGENT_V2_SUBAGENT_USAGE_HINT_TEXT
    );
    assert_eq!(
        subagent_usage_hint_text_for_wire_api(WireApi::GeminiNative, "custom", default_hint),
        "custom"
    );
    assert_eq!(
        subagent_usage_hint_text_for_wire_api(WireApi::Responses, default_hint, default_hint),
        default_hint
    );
    assert!(GEMINI_MULTI_AGENT_V2_SUBAGENT_USAGE_HINT_TEXT
        .starts_with("You are a worker agent completing one delegated task.\n\nYou cannot spawn"));
    assert!(GEMINI_MULTI_AGENT_V2_SUBAGENT_USAGE_HINT_TEXT
        .ends_with("Do not end on a trailing assistant message.\n"));
}

#[test]
fn hints_depend_on_the_session() {
    let config = UsageHintConfig {
        usage_hint_enabled: true,
        root_agent_usage_hint_text: Some("root".to_string()),
        subagent_usage_hint_text: Some("worker".to_string()),
    };
    let hint = |version, config, source: &SessionSource| {
        usage_hint_text(version, config, WireApi::Responses, source, "default")
            .map(str::to_string)
    };
    let spawned = SessionSource::SubAgent(SubAgentSource::ThreadSpawn { agent_path: None });
    assert_eq!(
        hint(MultiAgentVersion::V2, &config, &SessionSource::Cli),
        Some("root".to_string())
    );
    assert_eq!(
        hint(MultiAgentVersion::V2, &config, &spawned),
        Some("worker".to_string())
    );
    assert_eq!(hint(MultiAgentVersion::V1, &config, &spawned), None);
    assert_eq!(
        hint(MultiAgentVersion::V2, &config, &SessionSource::Internal),
        None
    );
    assert_eq!(
        hint(
            MultiAgentVersion::V2,
            &config,
            &SessionSource::SubAgent(SubAgentSource::Other)
        ),
        None
    );
    let off = UsageHintConfig {
        usage_hint_enabled: false,
        root_agent_usage_hint_text: Some("root".to_string()),
        subagent_usage_hint_text: None,
    };
    assert_eq!(hint(MultiAgentVersion::V2, &off, &SessionSource::Cli), None);
}
