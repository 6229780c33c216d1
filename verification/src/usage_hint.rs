//! The hints on using agents that a session is given.

use crate::protocol::{MultiAgentVersion, SessionSource, SubAgentSource, WireApi};
use crate::text::same_text;
use vstd::prelude::*;

verus! {

/// What a worker is told on the Gemini wire protocol.
pub const GEMINI_MULTI_AGENT_V2_SUBAGENT_USAGE_HINT_TEXT: &'static str = "You are a worker agent completing one delegated task.\n\nYou cannot spawn sub-agents or wait on other agents. Complete the assigned task yourself. Coordinate with other agents only through `send_message`.\n\nWhen you finish, call `complete_task` with a self-contained final report and status `completed`, `partial`, or `failed`. Do not end on a trailing assistant message.\n";

/// The hint for a worker: on the Gemini wire protocol the default hint gives way to that of
/// its own; a hint that was configured otherwise stays.
pub open spec fn worker_hint(
    wire_api: WireApi,
    hint: Seq<char>,
    default_hint: Seq<char>,
) -> Seq<char> {
    if wire_api is GeminiNative && hint == default_hint {
        GEMINI_MULTI_AGENT_V2_SUBAGENT_USAGE_HINT_TEXT@
    } else {
        hint
    }
}

/// The hint for a worker.
pub fn subagent_usage_hint_text_for_wire_api<'a>(
    wire_api: WireApi,
    subagent_usage_hint_text: &'a str,
    default_hint: &str,
) -> (result: &'a str)
    ensures
        result@ == worker_hint(wire_api, subagent_usage_hint_text@, default_hint@),
{
    if wire_api == WireApi::GeminiNative && same_text(subagent_usage_hint_text, default_hint) {
        GEMINI_MULTI_AGENT_V2_SUBAGENT_USAGE_HINT_TEXT
    } else {
        subagent_usage_hint_text
    }
}

/// The hints that are configured.
#[derive(Debug, PartialEq, Eq)]
pub struct UsageHintConfig {
    pub usage_hint_enabled: bool,
    pub root_agent_usage_hint_text: Option<String>,
    pub subagent_usage_hint_text: Option<String>,
}

/// The hint that a session is given. Workers have one of their own, and neither internal
/// sessions nor other sub-agents are given any.
pub open spec fn hint_for(
    version: MultiAgentVersion,
    config: UsageHintConfig,
    wire_api: WireApi,
    source: SessionSource,
    default_hint: Seq<char>,
) -> Option<Seq<char>> {
    if !(version is V2) || !config.usage_hint_enabled {
        None
    } else {
        match source {
            SessionSource::SubAgent(SubAgentSource::ThreadSpawn { .. }) =>
            match config.subagent_usage_hint_text {
                Some(hint) => Some(worker_hint(wire_api, hint@, default_hint)),
                None => None,
            },
            SessionSource::SubAgent(SubAgentSource::Other) => None,
            SessionSource::Internal => None,
            _ => match config.root_agent_usage_hint_text {
                Some(hint) => Some(hint@),
                None => None,
            },
        }
    }
}

/// The hint that a session is given.
pub fn usage_hint_text<'a>(
    version: MultiAgentVersion,
    config: &'a UsageHintConfig,
    wire_api: WireApi,
    session_source: &SessionSource,
    default_hint: &str,
) -> (result: Option<&'a str>)
    ensures
        match hint_for(version, *config, wire_api, *session_source, default_hint@) {
            Some(hint) => result is Some && result->Some_0@ == hint,
            None => result is None,
        },
{
    if version != MultiAgentVersion::V2 {
        return None;
    }
    if !config.usage_hint_enabled {
        return None;
    }
    match session_source {
        SessionSource::SubAgent(source) => match source {
            SubAgentSource::ThreadSpawn { agent_path: _ } => match &config.subagent_usage_hint_text {
                Some(hint) => Some(
                    subagent_usage_hint_text_for_wire_api(wire_api, hint.as_str(), default_hint),
                ),
                None => None,
            },
            SubAgentSource::Other => None,
        },
        SessionSource::Internal => None,
        SessionSource::Cli
        | SessionSource::VSCode
        | SessionSource::Exec
        | SessionSource::Mcp
        | SessionSource::Custom(_)
        | SessionSource::Unknown => match &config.root_agent_usage_hint_text {
            Some(hint) => Some(hint.as_str()),
            None => None,
        },
    }
}

} // verus!
