//! Recovery of an orchestrator that delegated its work: a nudge where it idles although all
//! children have reported, and a steer where it spends too many tokens.

use crate::agent_status::{delivered_status, is_terminal_with_delivery};
use crate::context::{internal_context, internal_context_item};
use crate::goal_runtime::{usage_or_default, usage_or_zero};
use crate::protocol::{
    user_text_item, AgentStatus, ModeKind, ResponseItem, SessionSource, SubAgentSource, WireApi,
};
use crate::thread_id::ThreadId;
use crate::token_usage::{
    at_least_zero, goal_token_delta_for_usage, goal_tokens, non_negative, TokenUsage,
};
use vstd::prelude::*;

verus! {

/// The tokens after which the orchestrator is told, time and again, to wrap up.
pub const ORCHESTRATION_TOKEN_CEILING: i64 = 250_000;

/// What the orchestrator is told when all children have reported.
pub const NUDGE_PROMPT: &'static str = "All delegated children have reported. Emit the consolidated final answer to the user NOW, in the final channel. Do not re-verify or re-do delegated work; treat child reports as authoritative.";

/// What the orchestrator is told when it has spent too many tokens.
pub const CEILING_PROMPT: &'static str = "Token budget for this orchestration is exhausted. Stop verifying and re-checking. Synthesize what you already have and emit the consolidated final answer in the final channel now.";

// ---------------------------------------------------------------------------
// Which sessions orchestrate
// ---------------------------------------------------------------------------

/// Whether a session stands at the root of the tree of agents.
pub open spec fn root_source(source: SessionSource) -> bool {
    match source {
        SessionSource::SubAgent(SubAgentSource::ThreadSpawn { agent_path: Some(path) }) =>
        path.spec_is_root(),
        SessionSource::SubAgent(_) => false,
        SessionSource::Internal => false,
        _ => true,
    }
}

/// Whether a session stands at the root of the tree of agents.
pub fn is_root_orchestrator(session_source: &SessionSource) -> (result: bool)
    ensures
        result == root_source(*session_source),
{
    match session_source {
        SessionSource::Cli
        | SessionSource::VSCode
        | SessionSource::Exec
        | SessionSource::Mcp
        | SessionSource::Custom(_)
        | SessionSource::Unknown => true,
        SessionSource::SubAgent(source) => match source {
            SubAgentSource::ThreadSpawn { agent_path } => match agent_path {
                Some(path) => path.is_root(),
                None => false,
            },
            SubAgentSource::Other => false,
        },
        SessionSource::Internal => false,
    }
}

/// Whether a session orchestrates on the Gemini wire protocol.
pub open spec fn gemini_root(wire_api: WireApi, source: SessionSource) -> bool {
    wire_api is GeminiNative && root_source(source)
}

/// Whether a session orchestrates on the Gemini wire protocol.
pub fn is_gemini_native_root(wire_api: WireApi, session_source: &SessionSource) -> (result: bool)
    ensures
        result == gemini_root(wire_api, *session_source),
{
    wire_api == WireApi::GeminiNative && is_root_orchestrator(session_source)
}

/// A prompt about the orchestration, hidden from the user, as a message.
pub fn orchestration_context_item(prompt: &str) -> (result: ResponseItem)
    ensures
        result@ == user_text_item(internal_context("orchestration"@, prompt@)),
{
    internal_context_item("orchestration", prompt)
}

// ---------------------------------------------------------------------------
// Polling the children
// ---------------------------------------------------------------------------

/// Whether the children have delivered, as they are polled one after the other.
#[derive(Debug, PartialEq, Eq)]
pub enum ChildPoll {
    /// Poll the child at index `next`.
    Poll { children: Vec<ThreadId>, next: usize },
    /// Every child has delivered. That holds where there is none.
    AllDelivered,
    /// A child has not delivered.
    Blocked,
}

/// The mathematical content of a `ChildPoll`.
pub enum PollView {
    Poll { children: Seq<ThreadId>, next: int },
    AllDelivered,
    Blocked,
}

impl View for ChildPoll {
    type V = PollView;

    open spec fn view(&self) -> PollView {
        match self {
            ChildPoll::Poll { children, next } => PollView::Poll {
                children: children@,
                next: *next as int,
            },
            ChildPoll::AllDelivered => PollView::AllDelivered,
            ChildPoll::Blocked => PollView::Blocked,
        }
    }
}

/// The poll with `next` children done.
pub open spec fn poll_from(children: Seq<ThreadId>, next: int) -> PollView {
    if next < children.len() {
        PollView::Poll { children, next }
    } else {
        PollView::AllDelivered
    }
}

/// The poll after the status of the next child came.
pub open spec fn next_poll(poll: PollView, status: AgentStatus) -> PollView {
    match poll {
        PollView::Poll { children, next } => if delivered_status(status) {
            poll_from(children, next + 1)
        } else {
            PollView::Blocked
        },
        _ => poll,
    }
}

/// The poll after several statuses came.
pub open spec fn polled(poll: PollView, statuses: Seq<AgentStatus>) -> PollView
    decreases statuses.len(),
{
    if statuses.len() == 0 {
        poll
    } else {
        polled(next_poll(poll, statuses[0]), statuses.skip(1))
    }
}

impl ChildPoll {
    /// Starts to poll some children.
    pub fn start(children: Vec<ThreadId>) -> (result: Self)
        ensures
            result@ == poll_from(children@, 0),
    {
        if children.len() > 0 {
            ChildPoll::Poll { children, next: 0 }
        } else {
            ChildPoll::AllDelivered
        }
    }

    /// Takes in the status of the next child.
    pub fn next(self, status: &AgentStatus) -> (result: Self)
        ensures
            result@ == next_poll(self@, *status),
    {
        match self {
            ChildPoll::Poll { children, next } => {
                if !is_terminal_with_delivery(status) {
                    return ChildPoll::Blocked;
                }
                if next < children.len() && next + 1 < children.len() {
                    ChildPoll::Poll { children, next: next + 1 }
                } else {
                    ChildPoll::AllDelivered
                }
            },
            ChildPoll::AllDelivered => ChildPoll::AllDelivered,
            ChildPoll::Blocked => ChildPoll::Blocked,
        }
    }
}

/// A poll of all children finds all delivered exactly where each of them has delivered.
pub proof fn lemma_poll_finds_all_delivered(children: Seq<ThreadId>, statuses: Seq<AgentStatus>)
    requires
        statuses.len() == children.len(),
    ensures
        polled(poll_from(children, 0), statuses) is AllDelivered <==> forall|i: int|
            0 <= i < statuses.len() ==> delivered_status(#[trigger] statuses[i]),
        polled(poll_from(children, 0), statuses) is AllDelivered || polled(
            poll_from(children, 0),
            statuses,
        ) is Blocked,
{
    lemma_poll_from(children, 0, statuses);
}

proof fn lemma_poll_from(children: Seq<ThreadId>, next: int, statuses: Seq<AgentStatus>)
    requires
        0 <= next <= children.len(),
        statuses.len() == children.len() - next,
    ensures
        polled(poll_from(children, next), statuses) is AllDelivered <==> forall|i: int|
            0 <= i < statuses.len() ==> delivered_status(#[trigger] statuses[i]),
        polled(poll_from(children, next), statuses) is AllDelivered || polled(
            poll_from(children, next),
            statuses,
        ) is Blocked,
    decreases statuses.len(),
{
    if statuses.len() > 0 {
        let rest = statuses.skip(1);
        if delivered_status(statuses[0]) {
            lemma_poll_from(children, next + 1, rest);
            assert forall|i: int| 0 <= i < statuses.len() && (forall|j: int|
                0 <= j < rest.len() ==> delivered_status(#[trigger] rest[j])) implies delivered_status(
                #[trigger] statuses[i],
            ) by {
                if i > 0 {
                    assert(rest[i - 1] == statuses[i]);
                }
            }
            assert forall|j: int| 0 <= j < rest.len() && (forall|i: int|
                0 <= i < statuses.len() ==> delivered_status(#[trigger] statuses[i])) implies delivered_status(
                #[trigger] rest[j],
            ) by {
                assert(rest[j] == statuses[j + 1]);
            }
        } else {
            lemma_blocked_stays(rest);
        }
    }
}

proof fn lemma_blocked_stays(statuses: Seq<AgentStatus>)
    ensures
        polled(PollView::Blocked, statuses) is Blocked,
    decreases statuses.len(),
{
    if statuses.len() > 0 {
        lemma_blocked_stays(statuses.skip(1));
    }
}

// ---------------------------------------------------------------------------
// The state
// ---------------------------------------------------------------------------

/// What a session remembers of its orchestration while it runs.
#[derive(Clone, Copy, Debug, PartialEq, Eq, Structural)]
pub struct OrchestrationRuntimeInner {
    /// Whether the session has delegated work; it never turns back.
    pub started: bool,
    /// The usage when work was first delegated; it is never captured again.
    pub token_baseline: Option<TokenUsage>,
    /// Whether an answer was given since a child was last engaged.
    pub answer_emitted_since_reengagement: bool,
    /// Whether the orchestrator was nudged since a child was last engaged.
    pub nudge_fired: bool,
    /// How many full ceilings the orchestrator was steered at.
    pub steer_multiples_fired: i64,
}

/// The state of a session that has delegated nothing.
pub open spec fn fresh_orchestration() -> OrchestrationRuntimeInner {
    OrchestrationRuntimeInner {
        started: false,
        token_baseline: None,
        answer_emitted_since_reengagement: false,
        nudge_fired: false,
        steer_multiples_fired: 0,
    }
}

/// The state after work was delegated.
pub open spec fn after_started(
    state: OrchestrationRuntimeInner,
    is_root: bool,
    usage: Option<TokenUsage>,
) -> OrchestrationRuntimeInner {
    if is_root && !state.started {
        OrchestrationRuntimeInner {
            started: true,
            token_baseline: Some(usage_or_zero(usage)),
            ..state
        }
    } else {
        state
    }
}

/// The state after a child was engaged again.
pub open spec fn after_reengaged(
    state: OrchestrationRuntimeInner,
    is_root: bool,
) -> OrchestrationRuntimeInner {
    if is_root {
        OrchestrationRuntimeInner {
            answer_emitted_since_reengagement: false,
            nudge_fired: false,
            ..state
        }
    } else {
        state
    }
}

/// Whether the end of a turn may lead to a nudge.
pub open spec fn nudge_owed(
    state: OrchestrationRuntimeInner,
    is_root: bool,
    mode: ModeKind,
    emitted_final_answer: bool,
) -> bool {
    &&& is_root
    &&& !(mode is Plan)
    &&& state.started
    &&& !emitted_final_answer
    &&& !state.answer_emitted_since_reengagement
    &&& !state.nudge_fired
}

/// The state after the end of a turn.
pub open spec fn after_turn_end(
    state: OrchestrationRuntimeInner,
    is_root: bool,
    mode: ModeKind,
    emitted_final_answer: bool,
) -> OrchestrationRuntimeInner {
    if is_root && !(mode is Plan) && state.started && emitted_final_answer {
        OrchestrationRuntimeInner { answer_emitted_since_reengagement: true, ..state }
    } else {
        state
    }
}

/// The usage since the first delegation, each count for itself and none below zero.
pub open spec fn usage_over(current: TokenUsage, baseline: TokenUsage) -> TokenUsage {
    TokenUsage {
        input_tokens: non_negative(current.input_tokens - baseline.input_tokens) as i64,
        cached_input_tokens: non_negative(
            current.cached_input_tokens - baseline.cached_input_tokens,
        ) as i64,
        output_tokens: non_negative(current.output_tokens - baseline.output_tokens) as i64,
        reasoning_output_tokens: non_negative(
            current.reasoning_output_tokens - baseline.reasoning_output_tokens,
        ) as i64,
        total_tokens: non_negative(current.total_tokens - baseline.total_tokens) as i64,
    }
}

/// Whether a difference is a 64-bit number.
pub open spec fn fits(n: int) -> bool {
    i64::MIN <= n <= i64::MAX
}

/// Whether every count can be subtracted.
pub open spec fn subtractable(current: TokenUsage, baseline: TokenUsage) -> bool {
    &&& fits(current.input_tokens - baseline.input_tokens)
    &&& fits(current.cached_input_tokens - baseline.cached_input_tokens)
    &&& fits(current.output_tokens - baseline.output_tokens)
    &&& fits(current.reasoning_output_tokens - baseline.reasoning_output_tokens)
    &&& fits(current.total_tokens - baseline.total_tokens)
}

/// The usage since the first delegation.
pub fn token_usage_delta(current: &TokenUsage, baseline: &TokenUsage) -> (result: TokenUsage)
    requires
        subtractable(*current, *baseline),
    ensures
        result == usage_over(*current, *baseline),
{
    TokenUsage {
        input_tokens: at_least_zero(current.input_tokens - baseline.input_tokens),
        cached_input_tokens: at_least_zero(
            current.cached_input_tokens - baseline.cached_input_tokens,
        ),
        output_tokens: at_least_zero(current.output_tokens - baseline.output_tokens),
        reasoning_output_tokens: at_least_zero(
            current.reasoning_output_tokens - baseline.reasoning_output_tokens,
        ),
        total_tokens: at_least_zero(current.total_tokens - baseline.total_tokens),
    }
}

/// How many full ceilings were spent since the first delegation.
pub open spec fn ceilings_spent(
    state: OrchestrationRuntimeInner,
    usage: Option<TokenUsage>,
) -> int {
    goal_tokens(usage_over(usage_or_zero(usage), usage_or_zero(state.token_baseline)))
        / (ORCHESTRATION_TOKEN_CEILING as int)
}

/// The steer that is owed after a tool has finished: the number of ceilings that it stands
/// for, where that is more than the orchestrator was steered at.
pub open spec fn steer_owed(
    state: OrchestrationRuntimeInner,
    is_root: bool,
    mode: ModeKind,
    usage: Option<TokenUsage>,
) -> Option<int> {
    if is_root && !(mode is Plan) && state.started && ceilings_spent(state, usage)
        > state.steer_multiples_fired {
        Some(ceilings_spent(state, usage))
    } else {
        None
    }
}

/// What the orchestrator is steered with.
#[derive(Debug, PartialEq, Eq)]
pub struct CeilingSteer {
    pub item: ResponseItem,
    pub target_multiple: i64,
}

impl OrchestrationRuntimeInner {
    pub fn new() -> (result: Self)
        ensures
            result == fresh_orchestration(),
    {
        OrchestrationRuntimeInner {
            started: false,
            token_baseline: None,
            answer_emitted_since_reengagement: false,
            nudge_fired: false,
            steer_multiples_fired: 0,
        }
    }

    /// Records that work was delegated. Only the first time counts.
    pub fn mark_orchestration_started_if_first(
        &mut self,
        wire_api: WireApi,
        session_source: &SessionSource,
        token_usage: Option<TokenUsage>,
    )
        ensures
            *final(self) == after_started(
                *old(self),
                gemini_root(wire_api, *session_source),
                token_usage,
            ),
    {
        if !is_gemini_native_root(wire_api, session_source) {
            return;
        }
        let baseline = usage_or_default(token_usage);
        if self.started {
            return;
        }
        self.started = true;
        self.token_baseline = Some(baseline);
    }

    /// Records that a child was engaged again: an answer is owed, and a nudge is possible,
    /// once more. How often the orchestrator was steered stays.
    pub fn mark_orchestration_reengaged(
        &mut self,
        wire_api: WireApi,
        session_source: &SessionSource,
    )
        ensures
            *final(self) == after_reengaged(*old(self), gemini_root(wire_api, *session_source)),
    {
        if !is_gemini_native_root(wire_api, session_source) {
            return;
        }
        self.answer_emitted_since_reengagement = false;
        self.nudge_fired = false;
    }

    /// Takes in the end of a turn, and starts on a nudge where one may be owed.
    pub fn maybe_nudge_gemini_orchestration_idle(
        &mut self,
        wire_api: WireApi,
        session_source: &SessionSource,
        mode: ModeKind,
        emitted_final_answer: bool,
    ) -> (result: NudgeStage)
        ensures
            *final(self) == after_turn_end(
                *old(self),
                gemini_root(wire_api, *session_source),
                mode,
                emitted_final_answer,
            ),
            result@ == if nudge_owed(
                *old(self),
                gemini_root(wire_api, *session_source),
                mode,
                emitted_final_answer,
            ) {
                NudgeView::CheckMailbox
            } else {
                NudgeView::Stop
            },
    {
        if !is_gemini_native_root(wire_api, session_source) {
            return NudgeStage::Stop;
        }
        if is_plan_mode(mode) {
            return NudgeStage::Stop;
        }
        if !self.started {
            return NudgeStage::Stop;
        }
        if emitted_final_answer {
            self.answer_emitted_since_reengagement = true;
            return NudgeStage::Stop;
        }
        if self.answer_emitted_since_reengagement {
            return NudgeStage::Stop;
        }
        if self.nudge_fired {
            return NudgeStage::Stop;
        }
        NudgeStage::CheckMailbox
    }

    /// Claims the nudge of this delegation; only one claim succeeds. What it gives starts a
    /// turn, where the session is idle, and is forfeited otherwise.
    pub fn claim_nudge(&mut self) -> (result: Option<ResponseItem>)
        ensures
            *final(self) == (OrchestrationRuntimeInner { nudge_fired: true, ..*old(self) }),
            result is None <==> old(self).nudge_fired,
            result matches Some(item) ==> item@ == user_text_item(
                internal_context("orchestration"@, NUDGE_PROMPT@),
            ),
    {
        if self.nudge_fired {
            return None;
        }
        self.nudge_fired = true;
        Some(orchestration_context_item(NUDGE_PROMPT))
    }

    /// The steer that is owed after a tool has finished.
    pub fn maybe_steer_gemini_orchestration_ceiling(
        &self,
        wire_api: WireApi,
        session_source: &SessionSource,
        mode: ModeKind,
        token_usage: Option<TokenUsage>,
    ) -> (result: Option<CeilingSteer>)
        requires
            gemini_root(wire_api, *session_source) && !(mode is Plan) && self.started
                ==> subtractable(
                usage_or_zero(token_usage),
                usage_or_zero(self.token_baseline),
            ),
        ensures
            match steer_owed(*self, gemini_root(wire_api, *session_source), mode, token_usage) {
                Some(multiple) => {
                    &&& result is Some
                    &&& result->Some_0.target_multiple == multiple
                    &&& result->Some_0.item@ == user_text_item(
                        internal_context("orchestration"@, CEILING_PROMPT@),
                    )
                },
                None => result is None,
            },
    {
        if !is_gemini_native_root(wire_api, session_source) {
            return None;
        }
        if is_plan_mode(mode) {
            return None;
        }
        if !self.started {
            return None;
        }
        let baseline = usage_or_default(self.token_baseline);
        let current = usage_or_default(token_usage);
        let delta: i64 = goal_token_delta_for_usage(&token_usage_delta(&current, &baseline));
        let target_multiple: i64 = delta / ORCHESTRATION_TOKEN_CEILING;
        if target_multiple <= self.steer_multiples_fired {
            return None;
        }
        Some(
            CeilingSteer { item: orchestration_context_item(CEILING_PROMPT), target_multiple },
        )
    }

    /// Records whether a steer reached a running turn. One that did not is owed still.
    pub fn ceiling_steered(&mut self, target_multiple: i64, injected: bool)
        ensures
            *final(self) == if injected {
                OrchestrationRuntimeInner { steer_multiples_fired: target_multiple, ..*old(self) }
            } else {
                *old(self)
            },
    {
        if injected {
            self.steer_multiples_fired = target_multiple;
        }
    }
}

/// Plan mode suspends the recovery.
pub fn is_plan_mode(mode: ModeKind) -> (result: bool)
    ensures
        result == (mode is Plan),
{
    mode == ModeKind::Plan
}

// ---------------------------------------------------------------------------
// The nudge
// ---------------------------------------------------------------------------

/// What is to be done next on the way to a nudge.
#[derive(Debug, PartialEq, Eq)]
pub enum NudgeStage {
    /// See whether mail is pending that starts a turn anyway.
    CheckMailbox,
    /// List the live children.
    ListChildren,
    /// Poll the children one after the other.
    Poll { poll: ChildPoll },
    /// Claim the nudge, and start a turn with it.
    Claim,
    /// There is no nudge.
    Stop,
}

/// The mathematical content of a `NudgeStage`.
pub enum NudgeView {
    CheckMailbox,
    ListChildren,
    Poll { poll: PollView },
    Claim,
    Stop,
}

impl View for NudgeStage {
    type V = NudgeView;

    open spec fn view(&self) -> NudgeView {
        match self {
            NudgeStage::CheckMailbox => NudgeView::CheckMailbox,
            NudgeStage::ListChildren => NudgeView::ListChildren,
            NudgeStage::Poll { poll } => NudgeView::Poll { poll: poll@ },
            NudgeStage::Claim => NudgeView::Claim,
            NudgeStage::Stop => NudgeView::Stop,
        }
    }
}

/// What came of a stage.
#[derive(Debug, PartialEq, Eq)]
pub enum NudgeEvent {
    Mailbox { pending: bool },
    Children(Vec<ThreadId>),
    ChildrenFailed,
    Status(AgentStatus),
}

/// The stage that a poll stands for.
pub open spec fn nudge_at(poll: PollView) -> NudgeView {
    match poll {
        PollView::Poll { .. } => NudgeView::Poll { poll },
        PollView::AllDelivered => NudgeView::Claim,
        PollView::Blocked => NudgeView::Stop,
    }
}

/// The stage that an event leads to. An event that cannot come of a stage changes nothing.
pub open spec fn next_nudge(stage: NudgeView, event: NudgeEvent) -> NudgeView {
    match (stage, event) {
        (NudgeView::CheckMailbox, NudgeEvent::Mailbox { pending }) => if pending {
            NudgeView::Stop
        } else {
            NudgeView::ListChildren
        },
        (NudgeView::ListChildren, NudgeEvent::ChildrenFailed) => NudgeView::Stop,
        (NudgeView::ListChildren, NudgeEvent::Children(children)) => nudge_at(
            poll_from(children@, 0),
        ),
        (NudgeView::Poll { poll }, NudgeEvent::Status(status)) => nudge_at(
            next_poll(poll, status),
        ),
        _ => stage,
    }
}

fn nudge_stage_at(poll: ChildPoll) -> (result: NudgeStage)
    ensures
        result@ == nudge_at(poll@),
{
    match poll {
        ChildPoll::Poll { children, next } => NudgeStage::Poll {
            poll: ChildPoll::Poll { children, next },
        },
        ChildPoll::AllDelivered => NudgeStage::Claim,
        ChildPoll::Blocked => NudgeStage::Stop,
    }
}

impl NudgeStage {
    /// The stage that an event leads to.
    pub fn next(self, event: NudgeEvent) -> (result: Self)
        ensures
            result@ == next_nudge(self@, event),
    {
        match (self, event) {
            (NudgeStage::CheckMailbox, NudgeEvent::Mailbox { pending }) => {
                if pending {
                    NudgeStage::Stop
                } else {
                    NudgeStage::ListChildren
                }
            },
            (NudgeStage::ListChildren, NudgeEvent::ChildrenFailed) => NudgeStage::Stop,
            (NudgeStage::ListChildren, NudgeEvent::Children(children)) => nudge_stage_at(
                ChildPoll::start(children),
            ),
            (NudgeStage::Poll { poll }, NudgeEvent::Status(status)) => nudge_stage_at(
                poll.next(&status),
            ),
            (stage, _) => stage,
        }
    }
}

// ---------------------------------------------------------------------------
// Laws
// ---------------------------------------------------------------------------

/// Delegation starts once: the first delegation of a root fixes the baseline for good, and
/// nothing else that happens to the state changes it.
pub proof fn lemma_first_delegation_counts(
    state: OrchestrationRuntimeInner,
    is_root: bool,
    usage: Option<TokenUsage>,
    mode: ModeKind,
    emitted_final_answer: bool,
)
    requires
        state.started,
    ensures
        after_started(state, is_root, usage) == state,
        after_reengaged(state, is_root).started,
        after_reengaged(state, is_root).token_baseline == state.token_baseline,
        after_reengaged(state, is_root).steer_multiples_fired == state.steer_multiples_fired,
        after_turn_end(state, is_root, mode, emitted_final_answer).token_baseline
            == state.token_baseline,
{
}

/// The state after the ends of several turns, each given by its mode and whether it ended
/// with an answer.
pub open spec fn after_turn_ends(
    state: OrchestrationRuntimeInner,
    is_root: bool,
    turns: Seq<(ModeKind, bool)>,
) -> OrchestrationRuntimeInner
    decreases turns.len(),
{
    if turns.len() == 0 {
        state
    } else {
        after_turn_ends(
            after_turn_end(state, is_root, turns[0].0, turns[0].1),
            is_root,
            turns.skip(1),
        )
    }
}

/// The orchestrator is nudged at most once for each delegation: after a claim, and after an
/// answer, no end of a turn leads to a nudge, however many turns end, until a child is engaged
/// again; and then one does.
pub proof fn lemma_nudged_at_most_once(
    state: OrchestrationRuntimeInner,
    turns: Seq<(ModeKind, bool)>,
    mode: ModeKind,
    emitted_final_answer: bool,
)
    requires
        state.nudge_fired || state.answer_emitted_since_reengagement,
    ensures
        !nudge_owed(after_turn_ends(state, true, turns), true, mode, emitted_final_answer),
        state.started && !(mode is Plan) ==> nudge_owed(
            after_reengaged(after_turn_ends(state, true, turns), true),
            true,
            mode,
            false,
        ),
    decreases turns.len(),
{
    if turns.len() > 0 {
        lemma_nudged_at_most_once(
            after_turn_end(state, true, turns[0].0, turns[0].1),
            turns.skip(1),
            mode,
            emitted_final_answer,
        );
    }
}

/// Only an idle orchestrator whose children have all delivered is nudged: the way to a claim
/// goes through an empty mailbox and a poll that finds every child delivered.
pub proof fn lemma_nudge_needs_all_delivered(
    children: Vec<ThreadId>,
    statuses: Seq<AgentStatus>,
    pending: bool,
)
    requires
        statuses.len() == children@.len(),
    ensures
        ({
            let mailbox = next_nudge(NudgeView::CheckMailbox, NudgeEvent::Mailbox { pending });
            let listed = next_nudge(mailbox, NudgeEvent::Children(children));
            &&& pending ==> mailbox is Stop && listed is Stop
            &&& !pending ==> (nudged(listed, statuses) is Claim <==> forall|i: int|
                0 <= i < statuses.len() ==> delivered_status(#[trigger] statuses[i]))
        }),
{
    lemma_nudged_follows_poll(poll_from(children@, 0), statuses);
    lemma_poll_finds_all_delivered(children@, statuses);
}

/// The stage after several statuses came.
pub open spec fn nudged(stage: NudgeView, statuses: Seq<AgentStatus>) -> NudgeView
    decreases statuses.len(),
{
    if statuses.len() == 0 {
        stage
    } else {
        nudged(next_nudge(stage, NudgeEvent::Status(statuses[0])), statuses.skip(1))
    }
}

proof fn lemma_nudged_follows_poll(poll: PollView, statuses: Seq<AgentStatus>)
    ensures
        nudged(nudge_at(poll), statuses) == nudge_at(polled(poll, statuses)),
    decreases statuses.len(),
{
    if statuses.len() > 0 {
        lemma_nudged_follows_poll(next_poll(poll, statuses[0]), statuses.skip(1));
    }
}

/// The orchestrator is steered once for each further ceiling: a steer that reached it is not
/// owed again at the same spend, and one more is owed as soon as another ceiling is full,
/// whether or not a child was engaged again in between.
pub proof fn lemma_steered_at_each_ceiling(
    state: OrchestrationRuntimeInner,
    mode: ModeKind,
    usage: Option<TokenUsage>,
    later_usage: Option<TokenUsage>,
    reengaged: bool,
)
    requires
        state.started,
        !(mode is Plan),
        steer_owed(state, true, mode, usage) is Some,
    ensures
        ({
            let steered = OrchestrationRuntimeInner {
                steer_multiples_fired: ceilings_spent(state, usage) as i64,
                ..state
            };
            let later = after_reengaged(steered, reengaged);
            &&& steer_owed(later, true, mode, usage) is None
            &&& steer_owed(later, true, mode, later_usage) is Some <==> ceilings_spent(
                state,
                later_usage,
            ) > ceilings_spent(state, usage)
            &&& later.steer_multiples_fired > state.steer_multiples_fired
        }),
{
    let tokens = goal_tokens(
        usage_over(usage_or_zero(usage), usage_or_zero(state.token_baseline)),
    );
    assert(0 <= tokens <= i64::MAX);
    assert(ceilings_spent(state, usage) <= tokens);
}

} // verus!
