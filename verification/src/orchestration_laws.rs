//! What the recovery of an orchestrator promises its callers, in terms of what goes into an
//! operation and what comes out of it.

use crate::orchestration::{
    is_gemini_native_root, is_plan_mode, is_root_orchestrator, orchestration_context_item,
    CeilingSteer, ChildPoll, NudgeEvent, NudgeStage, OrchestrationRuntimeInner,
};
use crate::protocol::{
    user_text, user_text_item, AgentStatus, ContentItem, ModeKind, ResponseItem, SessionSource,
    SubAgentSource, WireApi,
};
use crate::thread_id::ThreadId;
use crate::token_usage::TokenUsage;
use vstd::math::max;
use vstd::prelude::*;

verus! {

/// What a message of the user with one text is made of.
pub proof fn lemma_user_text_parts(item: ResponseItem, text: Seq<char>)
    requires
        item@ == user_text_item(text),
    ensures
        item matches ResponseItem::Message { id, role, content, phase } && {
            &&& id is None
            &&& role@ == "user"@
            &&& phase is None
            &&& content@.len() == 1
            &&& content@[0] matches ContentItem::InputText { text: said } && said@ == text
        },
{
    let parts = item->content@;
    assert(item@->content =~= seq![crate::protocol::ContentView::InputText { text }]);
    assert(parts.len() == item@->content.len());
    assert(item@->content[0] == parts[0]@);
}

// ---------------------------------------------------------------------------
// Which sessions orchestrate
// ---------------------------------------------------------------------------

/// Every session orchestrates but the internal ones and the sub-agents, and of the latter
/// those that were spawned at the root do too.
pub proof fn lemma_who_orchestrates(source: SessionSource, wire_api: WireApi, root: bool, gemini: bool)
    requires
        call_ensures(is_root_orchestrator, (&source,), root),
        call_ensures(is_gemini_native_root, (wire_api, &source), gemini),
    ensures
        source is Internal ==> !root,
        source matches SessionSource::SubAgent(agent) ==> (root <==> (
        agent matches SubAgentSource::ThreadSpawn { agent_path: Some(path) } && path.path@
            == "/root"@)),
        !(source is Internal) && !(source is SubAgent) ==> root,
        gemini <==> root && wire_api == WireApi::GeminiNative,
{
}

// ---------------------------------------------------------------------------
// The state
// ---------------------------------------------------------------------------

/// The first delegation of a root on the Gemini wire protocol starts the orchestration from
/// the usage at hand; no other session starts one, and no later delegation changes it.
pub proof fn lemma_first_delegation_fixes_the_baseline(
    state: &mut OrchestrationRuntimeInner,
    wire_api: WireApi,
    source: SessionSource,
    usage: Option<TokenUsage>,
    root: bool,
)
    requires
        call_ensures(
            OrchestrationRuntimeInner::mark_orchestration_started_if_first,
            (state, wire_api, &source, usage),
            (),
        ),
        call_ensures(is_root_orchestrator, (&source,), root),
    ensures
        old(state).started || !root || wire_api != WireApi::GeminiNative ==> *final(state)
            == *old(state),
        !old(state).started && root && wire_api == WireApi::GeminiNative ==> {
            &&& final(state).started
            &&& usage is Some ==> final(state).token_baseline == usage
            &&& usage is None ==> final(state).token_baseline == Some(
                TokenUsage {
                    input_tokens: 0,
                    cached_input_tokens: 0,
                    output_tokens: 0,
                    reasoning_output_tokens: 0,
                    total_tokens: 0,
                },
            )
            &&& final(state).answer_emitted_since_reengagement
                == old(state).answer_emitted_since_reengagement
            &&& final(state).nudge_fired == old(state).nudge_fired
            &&& final(state).steer_multiples_fired == old(state).steer_multiples_fired
        },
{
}

/// Engaging a child again owes an answer and allows a nudge once more, and nothing else
/// changes: not what was started, not the baseline, not the ceilings that were steered at.
pub proof fn lemma_reengagement_reopens_the_answer(
    state: &mut OrchestrationRuntimeInner,
    wire_api: WireApi,
    source: SessionSource,
    root: bool,
)
    requires
        call_ensures(
            OrchestrationRuntimeInner::mark_orchestration_reengaged,
            (state, wire_api, &source),
            (),
        ),
        call_ensures(is_root_orchestrator, (&source,), root),
    ensures
        !root || wire_api != WireApi::GeminiNative ==> *final(state) == *old(state),
        root && wire_api == WireApi::GeminiNative ==> {
            &&& !final(state).answer_emitted_since_reengagement
            &&& !final(state).nudge_fired
        },
        final(state).started == old(state).started,
        final(state).token_baseline == old(state).token_baseline,
        final(state).steer_multiples_fired == old(state).steer_multiples_fired,
{
}

/// A session begins with nothing delegated, answered, nudged or steered.
pub proof fn lemma_orchestration_begins_anew(fresh: OrchestrationRuntimeInner)
    requires
        call_ensures(OrchestrationRuntimeInner::new, (), fresh),
    ensures
        !fresh.started,
        fresh.token_baseline is None,
        !fresh.answer_emitted_since_reengagement,
        !fresh.nudge_fired,
        fresh.steer_multiples_fired == 0,
{
}

// ---------------------------------------------------------------------------
// The nudge
// ---------------------------------------------------------------------------

/// The end of a turn leads towards a nudge exactly where a root on the Gemini wire protocol
/// has delegated, is not in plan mode, owes an answer, ended the turn without one and was not
/// nudged since. An answer is remembered, and nothing else of the state changes.
pub proof fn lemma_idle_root_without_answer_is_nudged(
    state: &mut OrchestrationRuntimeInner,
    wire_api: WireApi,
    source: SessionSource,
    mode: ModeKind,
    emitted_final_answer: bool,
    result: NudgeStage,
    root: bool,
)
    requires
        call_ensures(
            OrchestrationRuntimeInner::maybe_nudge_gemini_orchestration_idle,
            (state, wire_api, &source, mode, emitted_final_answer),
            result,
        ),
        call_ensures(is_root_orchestrator, (&source,), root),
    ensures
        ({
            let concerned = root && wire_api == WireApi::GeminiNative && mode != ModeKind::Plan
                && old(state).started;
            &&& result is CheckMailbox <==> concerned && !emitted_final_answer
                && !old(state).answer_emitted_since_reengagement && !old(state).nudge_fired
            &&& result is CheckMailbox || result is Stop
            &&& final(state).answer_emitted_since_reengagement <==> old(state).answer_emitted_since_reengagement || (concerned && emitted_final_answer)
        }),
        final(state).started == old(state).started,
        final(state).token_baseline == old(state).token_baseline,
        final(state).nudge_fired == old(state).nudge_fired,
        final(state).steer_multiples_fired == old(state).steer_multiples_fired,
{
}

/// A nudge can be claimed once; it asks for the consolidated answer, and claiming it changes
/// nothing but that it is claimed.
pub proof fn lemma_nudge_is_claimed_once(
    state: &mut OrchestrationRuntimeInner,
    result: Option<ResponseItem>,
)
    requires
        call_ensures(OrchestrationRuntimeInner::claim_nudge, (state,), result),
    ensures
        result is Some <==> !old(state).nudge_fired,
        final(state).nudge_fired,
        final(state).started == old(state).started,
        final(state).token_baseline == old(state).token_baseline,
        final(state).answer_emitted_since_reengagement
            == old(state).answer_emitted_since_reengagement,
        final(state).steer_multiples_fired == old(state).steer_multiples_fired,
        result matches Some(item) ==> item matches ResponseItem::Message { id, role, content, phase }
            && {
            &&& role@ == "user"@
            &&& phase is None
            &&& id is None
            &&& content@.len() == 1
            &&& content@[0] matches ContentItem::InputText { text } && text@
                == "<codex_internal_context source=\""@ + "orchestration"@ + "\">\n"@
                + "All delegated children have reported. Emit the consolidated final answer to the user NOW, in the final channel. Do not re-verify or re-do delegated work; treat child reports as authoritative."@
                + "\n</codex_internal_context>"@
        },
{
    if let Some(item) = result {
        lemma_user_text_parts(
            item,
            "<codex_internal_context source=\""@ + "orchestration"@ + "\">\n"@
                + "All delegated children have reported. Emit the consolidated final answer to the user NOW, in the final channel. Do not re-verify or re-do delegated work; treat child reports as authoritative."@
                + "\n</codex_internal_context>"@,
        );
    }
}

/// The way to a nudge: pending mail and an unknown list of children end it; where the list is
/// known, each child is polled in turn, from the first to the last; the first that has not
/// delivered ends it, and the last that has, or an empty list, leads to the claim. What is
/// delivered is a report, an error or a shutdown.
pub proof fn lemma_nudge_waits_for_every_child(
    stage: NudgeStage,
    event: NudgeEvent,
    result: NudgeStage,
)
    requires
        call_ensures(NudgeStage::next, (stage, event), result),
    ensures
        stage is CheckMailbox ==> (event matches NudgeEvent::Mailbox { pending } ==> if pending {
            result is Stop
        } else {
            result is ListChildren
        }),
        stage is ListChildren && event is ChildrenFailed ==> result is Stop,
        stage is ListChildren ==> (event matches NudgeEvent::Children(children) ==> if children@.len()
            == 0 {
            result is Claim
        } else {
            result matches NudgeStage::Poll { poll: ChildPoll::Poll { children: polled, next } }
                && polled@ == children@ && next == 0
        }),
        stage matches NudgeStage::Poll { poll: ChildPoll::Poll { children, next } } ==> (
        event matches NudgeEvent::Status(status) ==> if !(status is Errored || status is Shutdown
            || (status matches AgentStatus::Completed(report) && report is Some)) {
            result is Stop
        } else if next + 1 >= children@.len() {
            result is Claim
        } else {
            result matches NudgeStage::Poll {
                poll: ChildPoll::Poll { children: polled, next: then },
            } && polled@ == children@ && then == next + 1
        }),
        stage is Stop ==> result is Stop,
        stage is Claim ==> result is Claim,
        event is Mailbox && !(stage is CheckMailbox) ==> result@ == stage@,
        (event is Children || event is ChildrenFailed) && !(stage is ListChildren) ==> result@
            == stage@,
        event is Status && !(stage is Poll) ==> result@ == stage@,
{
}

/// Polling children one by one: it starts with the first, where there is one, goes on while
/// the children have delivered, stops at the first that has not, and is done with the last.
pub proof fn lemma_poll_goes_through_the_children(
    children: Vec<ThreadId>,
    started: ChildPoll,
    poll: ChildPoll,
    status: AgentStatus,
    result: ChildPoll,
)
    requires
        call_ensures(ChildPoll::start, (children,), started),
        call_ensures(ChildPoll::next, (poll, &status), result),
    ensures
        children@.len() == 0 ==> started is AllDelivered,
        children@.len() > 0 ==> (started matches ChildPoll::Poll { children: all, next } && all@
            == children@ && next == 0),
        poll is AllDelivered ==> result is AllDelivered,
        poll is Blocked ==> result is Blocked,
        poll matches ChildPoll::Poll { children: all, next } ==> if !(status is Errored
            || status is Shutdown || (status matches AgentStatus::Completed(report)
            && report is Some)) {
            result is Blocked
        } else if next + 1 >= all@.len() {
            result is AllDelivered
        } else {
            result matches ChildPoll::Poll { children: rest, next: then } && rest@ == all@ && then
                == next + 1
        },
{
}

// ---------------------------------------------------------------------------
// The ceiling
// ---------------------------------------------------------------------------

/// A root that has delegated is steered, outside plan mode, exactly where the fresh input and
/// the output since the first delegation fill one more ceiling than it was steered at. The
/// steer stands for all ceilings that are full, and asks to wrap up.
pub proof fn lemma_each_full_ceiling_is_steered_at(
    state: OrchestrationRuntimeInner,
    wire_api: WireApi,
    source: SessionSource,
    mode: ModeKind,
    usage: TokenUsage,
    result: Option<CeilingSteer>,
    root: bool,
)
    requires
        call_ensures(
            OrchestrationRuntimeInner::maybe_steer_gemini_orchestration_ceiling,
            (&state, wire_api, &source, mode, Some(usage)),
            result,
        ),
        call_ensures(is_root_orchestrator, (&source,), root),
        state.token_baseline is Some,
    ensures
        ({
            let base = state.token_baseline->Some_0;
            let input = max(0, usage.input_tokens - base.input_tokens);
            let cached = max(0, usage.cached_input_tokens - base.cached_input_tokens);
            let output = max(0, usage.output_tokens - base.output_tokens);
            let spent = max(0, input - cached) + output;
            let concerned = root && wire_api == WireApi::GeminiNative && mode != ModeKind::Plan
                && state.started;
            let fits = input <= i64::MAX && cached <= i64::MAX && output <= i64::MAX && spent
                <= i64::MAX;
            &&& !concerned ==> result is None
            &&& concerned && fits ==> (result is Some <==> spent >= 250_000 * (
            state.steer_multiples_fired + 1))
            &&& concerned && fits && result is Some ==> {
                let multiple = result->Some_0.target_multiple;
                250_000 * multiple <= spent < 250_000 * (multiple + 1)
            }
        }),
        result matches Some(steer) ==> steer.item matches ResponseItem::Message {
            id,
            role,
            content,
            phase,
        } && {
            &&& role@ == "user"@
            &&& phase is None
            &&& id is None
            &&& content@.len() == 1
            &&& content@[0] matches ContentItem::InputText { text } && text@
                == "<codex_internal_context source=\""@ + "orchestration"@ + "\">\n"@
                + "Token budget for this orchestration is exhausted. Stop verifying and re-checking. Synthesize what you already have and emit the consolidated final answer in the final channel now."@
                + "\n</codex_internal_context>"@
        },
{
    if let Some(steer) = result {
        lemma_user_text_parts(
            steer.item,
            "<codex_internal_context source=\""@ + "orchestration"@ + "\">\n"@
                + "Token budget for this orchestration is exhausted. Stop verifying and re-checking. Synthesize what you already have and emit the consolidated final answer in the final channel now."@
                + "\n</codex_internal_context>"@,
        );
    }
}

/// A session whose usage is not known is taken to have used nothing, and one without a
/// baseline to have begun with nothing.
pub proof fn lemma_unknown_usage_counts_as_none(
    state: OrchestrationRuntimeInner,
    zeroed: OrchestrationRuntimeInner,
    wire_api: WireApi,
    source: SessionSource,
    mode: ModeKind,
    usage: TokenUsage,
    unknown: Option<CeilingSteer>,
    without_baseline: Option<CeilingSteer>,
    with_zero_baseline: Option<CeilingSteer>,
)
    requires
        call_ensures(
            OrchestrationRuntimeInner::maybe_steer_gemini_orchestration_ceiling,
            (&state, wire_api, &source, mode, None),
            unknown,
        ),
        call_ensures(
            OrchestrationRuntimeInner::maybe_steer_gemini_orchestration_ceiling,
            (&state, wire_api, &source, mode, Some(usage)),
            without_baseline,
        ),
        call_ensures(
            OrchestrationRuntimeInner::maybe_steer_gemini_orchestration_ceiling,
            (&zeroed, wire_api, &source, mode, Some(usage)),
            with_zero_baseline,
        ),
        state.token_baseline is None,
        state.steer_multiples_fired >= 0,
        zeroed == (OrchestrationRuntimeInner {
            token_baseline: Some(
                TokenUsage {
                    input_tokens: 0,
                    cached_input_tokens: 0,
                    output_tokens: 0,
                    reasoning_output_tokens: 0,
                    total_tokens: 0,
                },
            ),
            ..state
        }),
    ensures
        unknown is None,
        without_baseline is Some <==> with_zero_baseline is Some,
        without_baseline is Some ==> without_baseline->Some_0.target_multiple
            == with_zero_baseline->Some_0.target_multiple,
{
}

/// A steer that reached the orchestrator is remembered; one that did not is owed still.
pub proof fn lemma_only_a_steer_that_arrived_counts(
    state: &mut OrchestrationRuntimeInner,
    target_multiple: i64,
    injected: bool,
)
    requires
        call_ensures(
            OrchestrationRuntimeInner::ceiling_steered,
            (state, target_multiple, injected),
            (),
        ),
    ensures
        !injected ==> *final(state) == *old(state),
        injected ==> final(state).steer_multiples_fired == target_multiple,
        final(state).started == old(state).started,
        final(state).token_baseline == old(state).token_baseline,
        final(state).nudge_fired == old(state).nudge_fired,
        final(state).answer_emitted_since_reengagement
            == old(state).answer_emitted_since_reengagement,
{
}

/// A prompt about the orchestration is a hidden message that names its source.
pub proof fn lemma_prompt_about_the_orchestration(
    prompt: &str,
    text: String,
    item: ResponseItem,
    plain: ResponseItem,
    mode: ModeKind,
    plan: bool,
)
    requires
        call_ensures(orchestration_context_item, (prompt,), item),
        call_ensures(user_text, (text,), plain),
        call_ensures(is_plan_mode, (mode,), plan),
    ensures
        item matches ResponseItem::Message { id, role, content, phase } && {
            &&& role@ == "user"@
            &&& content@.len() == 1
            &&& content@[0] matches ContentItem::InputText { text: said } && said@
                == "<codex_internal_context source=\""@ + "orchestration"@ + "\">\n"@ + prompt@
                + "\n</codex_internal_context>"@
        },
        plain matches ResponseItem::Message { id, role, content, phase } && {
            &&& id is None
            &&& role@ == "user"@
            &&& phase is None
            &&& content@.len() == 1
            &&& content@[0] matches ContentItem::InputText { text: said } && said@ == text@
        },
        plan <==> mode == ModeKind::Plan,
{
    lemma_user_text_parts(
        item,
        "<codex_internal_context source=\""@ + "orchestration"@ + "\">\n"@ + prompt@
            + "\n</codex_internal_context>"@,
    );
    lemma_user_text_parts(plain, text@);
}

} // verus!
