//! Continuing an active goal while a session is idle.

use crate::context::internal_context;
use crate::goal::{
    goal_context_input_item, protocol_goal_from_state, published_goal, StateGoal, StateGoalStatus,
    ThreadGoal,
};
use crate::goal_runtime::{goals_apply, minds_goals, GoalRuntimeState, RuntimeView};
use crate::protocol::{user_text_item, ModeKind, ResponseItem};
use crate::text::{opt_is, same_text};
use vstd::prelude::*;

verus! {

// ---------------------------------------------------------------------------
// The turn at hand
// ---------------------------------------------------------------------------

/// The turn at hand: the identity of its state, and whether a task runs in it. A turn without
/// a task is reserved.
#[derive(Clone, Copy, Debug, PartialEq, Eq, Structural)]
pub struct ActiveTurn {
    pub turn_state: u64,
    pub has_task: bool,
}

/// Whether a turn is reserved under the given identity.
pub open spec fn reserved_as(active: Option<ActiveTurn>, turn_state: u64) -> bool {
    active == Some(ActiveTurn { turn_state, has_task: false })
}

/// The turn at hand after one was asked to be reserved.
pub open spec fn after_reserving(active: Option<ActiveTurn>, turn_state: u64) -> Option<
    ActiveTurn,
> {
    if active is None {
        Some(ActiveTurn { turn_state, has_task: false })
    } else {
        active
    }
}

/// The turn at hand after a reserved one was given up.
pub open spec fn after_releasing(active: Option<ActiveTurn>, turn_state: u64) -> Option<
    ActiveTurn,
> {
    if reserved_as(active, turn_state) {
        None
    } else {
        active
    }
}

/// Reserves a turn, where none is at hand.
pub fn reserve_turn(active_turn: &mut Option<ActiveTurn>, turn_state: u64) -> (result: bool)
    ensures
        result == (*old(active_turn) is None),
        *final(active_turn) == after_reserving(*old(active_turn), turn_state),
{
    if active_turn.is_some() {
        return false;
    }
    *active_turn = Some(ActiveTurn { turn_state, has_task: false });
    true
}

/// Whether a turn is still reserved under the given identity.
pub fn still_reserved(active_turn: &Option<ActiveTurn>, turn_state: u64) -> (result: bool)
    ensures
        result == reserved_as(*active_turn, turn_state),
{
    match active_turn {
        Some(turn) => !turn.has_task && turn.turn_state == turn_state,
        None => false,
    }
}

/// Gives a reserved turn up, where it is still reserved.
pub fn clear_reserved_goal_continuation_turn(
    active_turn: &mut Option<ActiveTurn>,
    turn_state: u64,
)
    ensures
        *final(active_turn) == after_releasing(*old(active_turn), turn_state),
{
    if still_reserved(active_turn, turn_state) {
        *active_turn = None;
    }
}

// ---------------------------------------------------------------------------
// The continuation
// ---------------------------------------------------------------------------

/// Which prompt continues a goal.
#[derive(Clone, Copy, Debug, PartialEq, Eq, Structural)]
pub enum ContinuationPrompt {
    /// The goal was set up by an orchestrator: the reports of the children are authoritative.
    Orchestration,
    /// Any other goal.
    Solo,
}

/// A goal that is to be continued, with what the model is told.
#[derive(Debug, PartialEq, Eq)]
pub struct GoalContinuationCandidate {
    pub goal_id: String,
    pub items: Vec<ResponseItem>,
}

/// What is to be done next to continue a goal.
#[derive(Debug, PartialEq, Eq)]
pub enum ContinuationStage {
    /// Wait until no other continuation is under way, and see whether the session is idle.
    CheckIdle,
    /// Read the goal of the thread, and see whether the session is still idle.
    ReadGoal,
    /// Have the prompt written.
    WritePrompt { goal_id: String, goal: ThreadGoal, prompt: ContinuationPrompt },
    /// Reserve a turn.
    Reserve { candidate: GoalContinuationCandidate },
    /// Read the goal of the thread again.
    Recheck { candidate: GoalContinuationCandidate, turn_state: u64 },
    /// Queue what the model is told for the reserved turn, prepare the turn, and see whether it
    /// is still reserved.
    Queue { items: Vec<ResponseItem>, turn_state: u64 },
    /// Start the turn, and record that it continues the goal.
    Start,
    /// Give the reserved turn up.
    Release { turn_state: u64 },
    /// There is nothing to continue.
    Stop,
}

/// What came of a stage.
#[derive(Debug, PartialEq, Eq)]
pub enum ContinuationEvent {
    /// How the session stands.
    Session { enabled: bool, mode: ModeKind, turn_active: bool, mailbox_pending: bool },
    /// The goal of the thread, and how the session stands after it was read.
    Goal { stored: Option<StateGoal>, turn_active: bool, mailbox_pending: bool },
    /// The prompt.
    Prompt(String),
    /// The identity of the turn that was reserved, where none was at hand.
    Reserved(Option<u64>),
    /// The goal of the thread, read again.
    Reread(Option<StateGoal>),
    /// Whether the turn is still reserved.
    Queued { still_reserved: bool },
    /// The thread has no store, or the store failed.
    Unavailable,
}

/// Whether a goal is the active one of the given identity.
pub open spec fn is_current(stored: Option<StateGoal>, goal_id: Seq<char>) -> bool {
    stored matches Some(goal) && goal.goal_id@ == goal_id && goal.status is Active
}

/// The prompt that continues a goal.
pub open spec fn prompt_for(state: RuntimeView, goal: StateGoal) -> ContinuationPrompt {
    if state.auto_armed == Some(goal.goal_id@) {
        ContinuationPrompt::Orchestration
    } else {
        ContinuationPrompt::Solo
    }
}

/// Whether an event leads from one stage to another, with the given state.
pub open spec fn continuation_leads(
    stage: ContinuationStage,
    event: ContinuationEvent,
    state: RuntimeView,
    after: ContinuationStage,
) -> bool {
    match (stage, event) {
        (ContinuationStage::Start, _) => after == stage,
        (ContinuationStage::Release { .. }, _) => after == stage,
        (ContinuationStage::Stop, _) => after == stage,
        (ContinuationStage::Recheck { candidate, turn_state }, ContinuationEvent::Unavailable) =>
        after == (ContinuationStage::Release { turn_state }),
        (ContinuationStage::Queue { items, turn_state }, ContinuationEvent::Unavailable) => after
            == stage,
        (_, ContinuationEvent::Unavailable) => after is Stop,
        (
            ContinuationStage::CheckIdle,
            ContinuationEvent::Session { enabled, mode, turn_active, mailbox_pending },
        ) => after == if minds_goals(enabled, mode) && !state.continuation.suppressed
            && !turn_active && !mailbox_pending {
            ContinuationStage::ReadGoal
        } else {
            ContinuationStage::Stop
        },
        (
            ContinuationStage::ReadGoal,
            ContinuationEvent::Goal { stored, turn_active, mailbox_pending },
        ) => after == match stored {
            Some(goal) => if goal.status is Active && !turn_active && !mailbox_pending {
                ContinuationStage::WritePrompt {
                    goal_id: goal.goal_id,
                    goal: published_goal(goal),
                    prompt: prompt_for(state, goal),
                }
            } else {
                ContinuationStage::Stop
            },
            None => ContinuationStage::Stop,
        },
        (
            ContinuationStage::WritePrompt { goal_id, goal, prompt },
            ContinuationEvent::Prompt(text),
        ) => {
            &&& after matches ContinuationStage::Reserve { candidate }
            &&& candidate.goal_id == goal_id
            &&& candidate.items@.len() == 1
            &&& candidate.items@[0]@ == user_text_item(internal_context("goal"@, text@))
        },
        (
            ContinuationStage::Reserve { candidate },
            ContinuationEvent::Reserved(reserved),
        ) => after == match reserved {
            Some(turn_state) => ContinuationStage::Recheck { candidate, turn_state },
            None => ContinuationStage::Stop,
        },
        (
            ContinuationStage::Recheck { candidate, turn_state },
            ContinuationEvent::Reread(stored),
        ) => after == if is_current(stored, candidate.goal_id@) {
            ContinuationStage::Queue { items: candidate.items, turn_state }
        } else {
            ContinuationStage::Release { turn_state }
        },
        (
            ContinuationStage::Queue { items, turn_state },
            ContinuationEvent::Queued { still_reserved },
        ) => after == if still_reserved {
            ContinuationStage::Start
        } else {
            ContinuationStage::Release { turn_state }
        },
        _ => after == stage,
    }
}

fn goal_is_current(stored: &Option<StateGoal>, goal_id: &str) -> (result: bool)
    ensures
        result == is_current(*stored, goal_id@),
{
    match stored {
        Some(goal) => same_text(goal.goal_id.as_str(), goal_id) && goal.status
            == StateGoalStatus::Active,
        None => false,
    }
}

impl ContinuationStage {
    /// The stage that an event leads to.
    pub fn next(self, event: ContinuationEvent, state: &GoalRuntimeState) -> (result: Self)
        ensures
            continuation_leads(self, event, state@, result),
    {
        match (self, event) {
            (ContinuationStage::Start, _) => ContinuationStage::Start,
            (ContinuationStage::Release { turn_state }, _) => ContinuationStage::Release {
                turn_state,
            },
            (ContinuationStage::Stop, _) => ContinuationStage::Stop,
            (
                ContinuationStage::Recheck { candidate: _, turn_state },
                ContinuationEvent::Unavailable,
            ) => ContinuationStage::Release { turn_state },
            (
                ContinuationStage::Queue { items, turn_state },
                ContinuationEvent::Unavailable,
            ) => ContinuationStage::Queue { items, turn_state },
            (_, ContinuationEvent::Unavailable) => ContinuationStage::Stop,
            (
                ContinuationStage::CheckIdle,
                ContinuationEvent::Session { enabled, mode, turn_active, mailbox_pending },
            ) => {
                if goals_apply(enabled, mode) && !state.continuation.suppressed && !turn_active
                    && !mailbox_pending {
                    ContinuationStage::ReadGoal
                } else {
                    ContinuationStage::Stop
                }
            },
            (
                ContinuationStage::ReadGoal,
                ContinuationEvent::Goal { stored, turn_active, mailbox_pending },
            ) => match stored {
                Some(goal) => {
                    if goal.status == StateGoalStatus::Active && !turn_active && !mailbox_pending {
                        let prompt = if opt_is(
                            &state.auto_armed_orchestration_goal_id,
                            goal.goal_id.as_str(),
                        ) {
                            ContinuationPrompt::Orchestration
                        } else {
                            ContinuationPrompt::Solo
                        };
                        ContinuationStage::WritePrompt {
                            goal_id: goal.goal_id.clone(),
                            goal: protocol_goal_from_state(goal),
                            prompt,
                        }
                    } else {
                        ContinuationStage::Stop
                    }
                },
                None => ContinuationStage::Stop,
            },
            (
                ContinuationStage::WritePrompt { goal_id, goal: _, prompt: _ },
                ContinuationEvent::Prompt(text),
            ) => {
                let mut items: Vec<ResponseItem> = Vec::new();
                items.push(goal_context_input_item(text.as_str()));
                ContinuationStage::Reserve {
                    candidate: GoalContinuationCandidate { goal_id, items },
                }
            },
            (
                ContinuationStage::Reserve { candidate },
                ContinuationEvent::Reserved(reserved),
            ) => match reserved {
                Some(turn_state) => ContinuationStage::Recheck { candidate, turn_state },
                None => ContinuationStage::Stop,
            },
            (
                ContinuationStage::Recheck { candidate, turn_state },
                ContinuationEvent::Reread(stored),
            ) => {
                if goal_is_current(&stored, candidate.goal_id.as_str()) {
                    ContinuationStage::Queue { items: candidate.items, turn_state }
                } else {
                    ContinuationStage::Release { turn_state }
                }
            },
            (
                ContinuationStage::Queue { items: _, turn_state },
                ContinuationEvent::Queued { still_reserved },
            ) => {
                if still_reserved {
                    ContinuationStage::Start
                } else {
                    ContinuationStage::Release { turn_state }
                }
            },
            (stage, _) => stage,
        }
    }
}

// ---------------------------------------------------------------------------
// Laws
// ---------------------------------------------------------------------------

/// A continuation gets past its beginning only in an idle session that minds goals, in plan
/// mode none does, and none does while continuations are suppressed.
pub proof fn lemma_continuation_needs_idle_session(
    event: ContinuationEvent,
    state: RuntimeView,
    after: ContinuationStage,
)
    requires
        continuation_leads(ContinuationStage::CheckIdle, event, state, after),
        !(after is CheckIdle),
        !(after is Stop),
    ensures
        after is ReadGoal,
        event matches ContinuationEvent::Session { enabled, mode, turn_active, mailbox_pending }
            && enabled && !(mode is Plan) && !turn_active && !mailbox_pending,
        !state.continuation.suppressed,
{
}

/// Only an active goal is continued: one that was completed, stopped or exhausted ends the
/// continuation as soon as it is read, and also when it is read again.
pub proof fn lemma_only_active_goals_are_continued(
    goal: StateGoal,
    turn_active: bool,
    mailbox_pending: bool,
    candidate: GoalContinuationCandidate,
    turn_state: u64,
    state: RuntimeView,
    after: ContinuationStage,
    after_recheck: ContinuationStage,
)
    requires
        !(goal.status is Active),
        continuation_leads(
            ContinuationStage::ReadGoal,
            ContinuationEvent::Goal { stored: Some(goal), turn_active, mailbox_pending },
            state,
            after,
        ),
        continuation_leads(
            ContinuationStage::Recheck { candidate, turn_state },
            ContinuationEvent::Reread(Some(goal)),
            state,
            after_recheck,
        ),
    ensures
        after is Stop,
        after_recheck == (ContinuationStage::Release { turn_state }),
{
}

/// A reserved turn is started or given up: once a turn is reserved, no event drops it
/// otherwise, and it is used only for the goal that it was reserved for, read again as active.
pub proof fn lemma_reserved_turn_is_used_or_released(
    stage: ContinuationStage,
    event: ContinuationEvent,
    state: RuntimeView,
    after: ContinuationStage,
    turn_state: u64,
)
    requires
        continuation_leads(stage, event, state, after),
        stage matches ContinuationStage::Recheck { turn_state: t, .. } && t == turn_state || (
        stage matches ContinuationStage::Queue { turn_state: t, .. } && t == turn_state),
    ensures
        after == stage || after == (ContinuationStage::Release { turn_state }) || after is Start
            || (after matches ContinuationStage::Queue { turn_state: t, .. } && t == turn_state),
        stage is Recheck && after is Queue ==> event is Reread && is_current(
            event->Reread_0,
            stage->Recheck_candidate.goal_id@,
        ) && after->Queue_items == stage->Recheck_candidate.items,
        after is Start ==> event == (ContinuationEvent::Queued { still_reserved: true }),
{
}

/// Giving a reserved turn up undoes its reservation, and touches neither a turn in which a
/// task runs nor one that was reserved by another.
pub proof fn lemma_release_undoes_reservation(active: Option<ActiveTurn>, turn_state: u64)
    ensures
        active is None ==> after_releasing(after_reserving(active, turn_state), turn_state)
            == active,
        active matches Some(turn) && (turn.has_task || turn.turn_state != turn_state)
            ==> after_releasing(active, turn_state) == active,
{
}

} // verus!
