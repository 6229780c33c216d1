//! What reports, hints and fragments of context promise their callers, in terms of what goes
//! into an operation and what comes out of it.

use crate::complete_task::{
    cap_result_bytes, handle_complete_task, CompleteTaskArgs, CompleteTaskResult,
    CompleteTaskStatus,
};
use crate::context::{
    internal_context_item, render_fragment, status_json, CollaborationMode,
    CollaborationModeInstructions, SubagentNotification,
};
use crate::json_text::{json_char, json_quoted};
use crate::orchestration_laws::lemma_user_text_parts;
use crate::protocol::{
    AgentPath, AgentStatus, ContentItem, FunctionCallError, MessagePhase, ModeKind,
    MultiAgentVersion, ResponseItem, SessionSource, SubAgentSource, WireApi,
};
use crate::templates::plan_for_gemini;
use crate::text::{
    byte_len, byte_prefix, fitting, is_space, lemma_byte_prefix, opt_text,
    take_bytes_at_char_boundary, trimmed,
};
use crate::usage_hint::{subagent_usage_hint_text_for_wire_api, usage_hint_text, UsageHintConfig};
use vstd::prelude::*;
use vstd::utf8::encode_utf8;

verus! {

// ---------------------------------------------------------------------------
// The report of a child
// ---------------------------------------------------------------------------

/// A report that takes at most twelve thousand bytes is kept as it is. A longer one is cut
/// between two characters, as late as leaves room for the marker, and the marker follows.
pub proof fn lemma_report_is_kept_within_the_limit(
    report: &str,
    kept: String,
    status: CompleteTaskStatus,
    packed: CompleteTaskResult,
    result: String,
)
    requires
        call_ensures(cap_result_bytes, (report,), result),
        call_ensures(take_bytes_at_char_boundary, (report, 11_971usize), kept),
        call_ensures(CompleteTaskResult::new, (status, report), packed),
    ensures
        encode_utf8(result@).len() <= 12_000,
        encode_utf8(report@).len() <= 12_000 ==> result@ == report@,
        encode_utf8(report@).len() > 12_000 ==> result@ == kept@ + "…[truncated at 12000 bytes]"@,
        packed.status == status,
        packed.result@ == result@,
{
    crate::complete_task::lemma_capped_fits(report@);
    crate::complete_task::lemma_marker_bytes();
    assert(byte_len(report@) == encode_utf8(report@).len());
    assert(byte_len(result@) == encode_utf8(result@).len());
}

/// A report is refused exactly where it is blank; else it is kept with its status, within the
/// limit.
pub proof fn lemma_blank_report_is_refused(
    args: CompleteTaskArgs,
    report: &str,
    capped: String,
    result: Result<CompleteTaskResult, FunctionCallError>,
)
    requires
        call_ensures(handle_complete_task, (&args,), result),
        report@ == args.result@,
        call_ensures(cap_result_bytes, (report,), capped),
    ensures
        result is Err <==> forall|k: int|
            0 <= k < args.result@.len() ==> is_space(#[trigger] args.result@[k]),
        result matches Ok(kept) ==> kept.status == args.status && kept.result@ == capped@,
        result is Err ==> (result->Err_0 matches FunctionCallError::RespondToModel(message)
            && message@
            == "complete_task requires a non-empty `result` containing your final report."@),
{
    crate::text_laws::lemma_trimmed(args.result@);
    let s = args.result@;
    let t = trimmed(s);
    let (i, j) = choose|i: int, j: int|
        0 <= i <= j <= s.len() && #[trigger] s.subrange(i, j) == trimmed(s) && (forall|k: int|
            0 <= k < i ==> is_space(#[trigger] s[k])) && (forall|k: int|
            j <= k < s.len() ==> is_space(#[trigger] s[k]));
    if t.len() > 0 {
        assert(t[0] == s[i]);
    }
}

/// A status is named by its word, a task without a word is complete, and any other word is
/// refused by name.
pub proof fn lemma_words_for_a_status(
    word: &str,
    result: Result<CompleteTaskStatus, String>,
    unsaid: Result<CompleteTaskStatus, String>,
)
    requires
        call_ensures(CompleteTaskStatus::from_word, (Some(word),), result),
        call_ensures(CompleteTaskStatus::from_word, (None,), unsaid),
    ensures
        unsaid == Ok::<CompleteTaskStatus, String>(CompleteTaskStatus::Completed),
        result == Ok::<CompleteTaskStatus, String>(CompleteTaskStatus::Completed) <==> word@
            == "completed"@,
        result == Ok::<CompleteTaskStatus, String>(CompleteTaskStatus::Partial) <==> word@
            == "partial"@,
        result == Ok::<CompleteTaskStatus, String>(CompleteTaskStatus::Failed) <==> word@
            == "failed"@,
        result is Err ==> result->Err_0@ == "unknown variant `"@ + word@
            + "`, expected one of `completed`, `partial`, `failed`"@,
{
    reveal_strlit("completed");
    reveal_strlit("partial");
    reveal_strlit("failed");
    assert("completed"@.len() == 9 && "partial"@.len() == 7 && "failed"@.len() == 6);
}

// ---------------------------------------------------------------------------
// Fragments
// ---------------------------------------------------------------------------

/// A hidden fragment names its source, and holds its prompt on lines of its own; a fragment
/// stands between its markers.
pub proof fn lemma_fragments_stand_between_markers(
    source: &str,
    prompt: &str,
    item: ResponseItem,
    opening: &str,
    body: &str,
    closing: &str,
    fragment: String,
)
    requires
        call_ensures(internal_context_item, (source, prompt), item),
        call_ensures(render_fragment, (opening, body, closing), fragment),
    ensures
        item matches ResponseItem::Message { id, role, content, phase } && {
            &&& id is None
            &&& role@ == "user"@
            &&& phase is None
            &&& content@.len() == 1
            &&& content@[0] matches ContentItem::InputText { text } && text@
                == "<codex_internal_context source=\""@ + source@ + "\">\n"@ + prompt@
                + "\n</codex_internal_context>"@
        },
        fragment@ == opening@ + body@ + closing@,
{
    lemma_user_text_parts(
        item,
        "<codex_internal_context source=\""@ + source@ + "\">\n"@ + prompt@
            + "\n</codex_internal_context>"@,
    );
}

/// The instructions of a mode are given as they are, none where they are empty. Only the stock
/// instructions of plan mode, on the Gemini wire protocol, are followed by the addendum on a
/// new line.
pub proof fn lemma_instructions_of_a_mode(
    mode: CollaborationMode,
    is_gemini: bool,
    plan: &str,
    addendum: &str,
    extended: String,
    result: Option<CollaborationModeInstructions>,
)
    requires
        call_ensures(
            CollaborationModeInstructions::from_collaboration_mode,
            (&mode, is_gemini, plan, addendum),
            result,
        ),
        call_ensures(plan_for_gemini, (plan, addendum), extended),
    ensures
        extended@ == plan@ + "\n"@ + addendum@,
        result is Some <==> mode.developer_instructions is Some
            && mode.developer_instructions->Some_0@.len() > 0,
        result is Some ==> result->Some_0.instructions@ == if is_gemini && mode.mode
            == ModeKind::Plan && mode.developer_instructions->Some_0@ == plan@ {
            extended@
        } else {
            mode.developer_instructions->Some_0@
        },
{
}

/// A status is written by its name, with what the child said, where it said something.
pub proof fn lemma_status_is_written_by_name(status: AgentStatus, result: String)
    requires
        call_ensures(status_json, (&status,), result),
    ensures
        status is PendingInit ==> result@ == "\"pending_init\""@,
        status is Running ==> result@ == "\"running\""@,
        status is Interrupted ==> result@ == "\"interrupted\""@,
        status is Shutdown ==> result@ == "\"shutdown\""@,
        status is NotFound ==> result@ == "\"not_found\""@,
        status matches AgentStatus::Completed(report) ==> result@ == if report is Some {
            "{\"completed\":"@ + json_quoted(report->Some_0@) + "}"@
        } else {
            "{\"completed\":null}"@
        },
        status matches AgentStatus::Errored(message) ==> result@ == "{\"errored\":"@ + json_quoted(
            message@,
        ) + "}"@,
{
}

/// Inside quotes a text is written character by character; quotes, backslashes and line breaks
/// are escaped, and letters stand for themselves.
pub proof fn lemma_quoted_texts(a: Seq<char>, c: char)
    ensures
        json_quoted(Seq::empty()) == seq!['"', '"'],
        json_quoted(a.push(c)) == json_quoted(a).drop_last() + json_char(c) + seq!['"'],
        json_char('"') == seq!['\\', '"'],
        json_char('\\') == seq!['\\', '\\'],
        json_char('\n') == seq!['\\', 'n'],
        c as u32 >= 0x20 && c != '"' && c != '\\' ==> json_char(c) == seq![c],
{
    let none = Seq::<char>::empty();
    assert(json_quoted(none) =~= seq!['"', '"']);
    assert(a.push(c).drop_last() =~= a);
    assert(json_quoted(a.push(c)) =~= json_quoted(a).drop_last() + json_char(c) + seq!['"']);
}

/// A parent is told which child it is and how it stands, as an object on a line of its own.
pub proof fn lemma_parent_is_told_of_its_child(
    reference: String,
    status: AgentStatus,
    notification: SubagentNotification,
    written_status: String,
    body: String,
)
    requires
        call_ensures(SubagentNotification::new, (reference, status), notification),
        call_ensures(SubagentNotification::body, (&notification,), body),
        call_ensures(status_json, (&status,), written_status),
    ensures
        notification.agent_reference == reference,
        notification.status == status,
        body@ == "\n{\"agent_path\":"@ + json_quoted(reference@) + ",\"status\":"@
            + written_status@ + "}\n"@,
{
}

/// A message may be a notification in its clean form where it is a comment of the assistant
/// with one text and nothing else; it is one where the text stands between the markers.
pub proof fn lemma_clean_notification(
    item: ResponseItem,
    text_matches: bool,
    text: Option<String>,
    result: bool,
)
    requires
        call_ensures(SubagentNotification::clean_response_text, (&item,), text),
        call_ensures(
            SubagentNotification::matches_clean_response_item,
            (&item, text_matches),
            result,
        ),
    ensures
        text is Some <==> (item matches ResponseItem::Message { id, role, content, phase } && {
            &&& role@ == "assistant"@
            &&& phase == Some(MessagePhase::Commentary)
            &&& content@.len() == 1
            &&& content@[0] is OutputText
        }),
        text is Some ==> (item matches ResponseItem::Message { id, role, content, phase } && (
        content@[0] matches ContentItem::OutputText { text: said } && text->Some_0@ == said@)),
        result <==> text is Some && text_matches,
{
    if let ResponseItem::Message { id, role, content, phase } = item {
        if content@.len() == 1 {
            assert(item@->content[0] == content@[0]@);
        }
        assert(item@->content.len() == content@.len());
    }
}

// ---------------------------------------------------------------------------
// Hints
// ---------------------------------------------------------------------------

/// Hints are given in the second generation of the tools, where they are enabled: to a worker
/// the hint for workers, to any other session of the user that for the root, and to nobody
/// else. On the Gemini wire protocol the default hint for workers gives way to another.
pub proof fn lemma_who_is_given_a_hint(
    version: MultiAgentVersion,
    config: UsageHintConfig,
    wire_api: WireApi,
    source: SessionSource,
    default_hint: &str,
    result: Option<&str>,
    configured: &str,
    worker: &str,
)
    requires
        call_ensures(usage_hint_text, (version, &config, wire_api, &source, default_hint), result),
        config.subagent_usage_hint_text is Some ==> configured@
            == config.subagent_usage_hint_text->Some_0@,
        call_ensures(
            subagent_usage_hint_text_for_wire_api,
            (wire_api, configured, default_hint),
            worker,
        ),
    ensures
        ({
            let given = version == MultiAgentVersion::V2 && config.usage_hint_enabled;
            let is_worker = source matches SessionSource::SubAgent(SubAgentSource::ThreadSpawn {
                agent_path,
            });
            let is_user = !(source is SubAgent) && !(source is Internal);
            &&& result is Some <==> given && ((is_worker && config.subagent_usage_hint_text is Some)
                || (is_user && config.root_agent_usage_hint_text is Some))
            &&& result is Some && is_worker ==> result->Some_0@ == worker@
            &&& result is Some && is_user ==> result->Some_0@
                == config.root_agent_usage_hint_text->Some_0@
            &&& worker@ != configured@ ==> wire_api == WireApi::GeminiNative && configured@
                == default_hint@
            &&& wire_api == WireApi::GeminiNative && configured@ == default_hint@ ==> worker@
                == "You are a worker agent completing one delegated task.\n\nYou cannot spawn sub-agents or wait on other agents. Complete the assigned task yourself. Coordinate with other agents only through `send_message`.\n\nWhen you finish, call `complete_task` with a self-contained final report and status `completed`, `partial`, or `failed`. Do not end on a trailing assistant message.\n"@
        }),
{
}

/// The root of the tree of agents has the path of its own.
pub proof fn lemma_path_of_the_root(path: AgentPath, result: bool)
    requires
        call_ensures(AgentPath::is_root, (&path,), result),
    ensures
        result <==> path.path@ == "/root"@,
{
}

/// Instructions come from the developer and notifications from the user; a notification stands
/// between markers of its own.
pub proof fn lemma_who_speaks(
    instructions: CollaborationModeInstructions,
    notification: SubagentNotification,
    developer: &'static str,
    body: String,
    user: &'static str,
    markers: (&'static str, &'static str),
)
    requires
        call_ensures(CollaborationModeInstructions::role, (&instructions,), developer),
        call_ensures(CollaborationModeInstructions::body, (&instructions,), body),
        call_ensures(SubagentNotification::role, (&notification,), user),
        call_ensures(SubagentNotification::type_markers, (), markers),
    ensures
        developer@ == "developer"@,
        body@ == instructions.instructions@,
        user@ == "user"@,
        markers.0@ == "<subagent_notification>"@,
        markers.1@ == "</subagent_notification>"@,
{
}

} // verus!
