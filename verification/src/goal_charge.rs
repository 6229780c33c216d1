//! The order in which a charge, a usage limit and a resume come about.
//!
//! Each stage says what is to be done next; the event that comes of it leads to the next
//! stage. Where nothing is to be charged the way ends early.

use crate::goal::{current_goal_status_for_metrics, status_for_metrics, StateGoal, StateGoalStatus};
use crate::goal_accounting::seconds_since;
use crate::goal_progress::{due_charge, ProgressCharge, WallClockCharge};
use crate::goal_runtime::{goals_apply, minds_goals, usage_or_zero, GoalRuntimeState, RuntimeView};
use crate::protocol::ModeKind;
use crate::text::opt_text;
use crate::token_usage::TokenUsage;
use vstd::prelude::*;

verus! {

/// What came of a stage.
#[derive(Debug, PartialEq, Eq)]
pub enum ChargeEvent {
    /// Whether the thread has a store.
    Store { present: bool },
    /// The usage of the session and the present instant, once no other charge is under way.
    Measured { token_usage: Option<TokenUsage>, now: u128 },
    /// The goal that is stored.
    Goal(Option<StateGoal>),
    /// The progress of the turn was accounted.
    ProgressAccounted,
    /// The session failed.
    Failed,
}

// ---------------------------------------------------------------------------
// Progress of a turn
// ---------------------------------------------------------------------------

/// What is to be done next to charge the progress of a turn.
#[derive(Debug, PartialEq, Eq)]
pub enum ProgressStage {
    OpenStore,
    /// Wait until no other charge is under way, and measure.
    Measure,
    /// Read the goal, for the status before the charge.
    ReadGoal { charge: ProgressCharge },
    /// Ask the store to charge, and hand its answer to the runtime state.
    Charge { charge: ProgressCharge, previous_status: Option<StateGoalStatus> },
    /// There is nothing to charge.
    Nothing,
    /// Pass on the failure of the session.
    Failed,
}

/// Whether a stage holds the charge that is due.
pub open spec fn is_due(
    charge: ProgressCharge,
    state: RuntimeView,
    turn_id: Seq<char>,
    usage: Option<TokenUsage>,
    now: int,
) -> bool {
    due_charge(state, turn_id, usage, now) == Some(
        (
            charge.token_delta as int,
            charge.time_delta_seconds as int,
            charge.expected_goal_id@,
        ),
    ) && charge.current_token_usage == usage_or_zero(usage)
}

/// Whether an event leads from one stage to another, with the given state and turn.
pub open spec fn progress_leads(
    stage: ProgressStage,
    event: ChargeEvent,
    state: RuntimeView,
    turn_id: Seq<char>,
    after: ProgressStage,
) -> bool {
    match (stage, event) {
        (ProgressStage::Charge { .. }, _) => after == stage,
        (ProgressStage::Nothing, _) => after == stage,
        (ProgressStage::Failed, _) => after == stage,
        (_, ChargeEvent::Failed) => after is Failed,
        (ProgressStage::OpenStore, ChargeEvent::Store { present }) => after == if present {
            ProgressStage::Measure
        } else {
            ProgressStage::Nothing
        },
        (ProgressStage::Measure, ChargeEvent::Measured { token_usage, now }) => if due_charge(
            state,
            turn_id,
            token_usage,
            now as int,
        ) is Some {
            after matches ProgressStage::ReadGoal { charge } && is_due(
                charge,
                state,
                turn_id,
                token_usage,
                now as int,
            )
        } else {
            after is Nothing
        },
        (ProgressStage::ReadGoal { charge }, ChargeEvent::Goal(goal)) => after == (
        ProgressStage::Charge {
            charge,
            previous_status: status_for_metrics(goal, Some(charge.expected_goal_id@)),
        }),
        _ => after == stage,
    }
}

impl ProgressStage {
    /// The stage that charging the progress of a turn starts with.
    pub fn start(enabled: bool, mode: ModeKind) -> (result: Self)
        ensures
            result == if minds_goals(enabled, mode) {
                ProgressStage::OpenStore
            } else {
                ProgressStage::Nothing
            },
    {
        if goals_apply(enabled, mode) {
            ProgressStage::OpenStore
        } else {
            ProgressStage::Nothing
        }
    }

    /// The stage that an event leads to.
    pub fn next(self, event: ChargeEvent, state: &GoalRuntimeState, turn_id: &str) -> (result: Self)
        ensures
            progress_leads(self, event, state@, turn_id@, result),
    {
        match (self, event) {
            (ProgressStage::Charge { charge, previous_status }, _) => ProgressStage::Charge {
                charge,
                previous_status,
            },
            (ProgressStage::Nothing, _) => ProgressStage::Nothing,
            (ProgressStage::Failed, _) => ProgressStage::Failed,
            (_, ChargeEvent::Failed) => ProgressStage::Failed,
            (ProgressStage::OpenStore, ChargeEvent::Store { present }) => {
                if present {
                    ProgressStage::Measure
                } else {
                    ProgressStage::Nothing
                }
            },
            (ProgressStage::Measure, ChargeEvent::Measured { token_usage, now }) => {
                match state.begin_progress(turn_id, token_usage, now) {
                    Some(charge) => ProgressStage::ReadGoal { charge },
                    None => ProgressStage::Nothing,
                }
            },
            (ProgressStage::ReadGoal { charge }, ChargeEvent::Goal(goal)) => {
                let previous_status = match &goal {
                    Some(goal) => current_goal_status_for_metrics(
                        Some(goal),
                        Some(charge.expected_goal_id.as_str()),
                    ),
                    None => None,
                };
                ProgressStage::Charge { charge, previous_status }
            },
            (stage, _) => stage,
        }
    }
}

// ---------------------------------------------------------------------------
// The clock alone
// ---------------------------------------------------------------------------

/// What is to be done next to charge the clock.
#[derive(Debug, PartialEq, Eq)]
pub enum WallClockStage {
    /// Wait until no other charge is under way, and measure.
    Measure,
    /// Read the goal, for the status before the charge.
    ReadGoal { charge: WallClockCharge },
    /// Ask the store to charge, and hand its answer to the runtime state.
    Charge { charge: WallClockCharge, previous_status: Option<StateGoalStatus> },
    /// There is nothing to charge.
    Nothing,
    /// Pass on the failure of the session.
    Failed,
}

/// Whether an event leads from one stage to another, with the given state.
pub open spec fn wall_clock_leads(
    stage: WallClockStage,
    event: ChargeEvent,
    state: RuntimeView,
    after: WallClockStage,
) -> bool {
    match (stage, event) {
        (WallClockStage::Charge { .. }, _) => after == stage,
        (WallClockStage::Nothing, _) => after == stage,
        (WallClockStage::Failed, _) => after == stage,
        (_, ChargeEvent::Failed) => after is Failed,
        (WallClockStage::Measure, ChargeEvent::Measured { token_usage, now }) => {
            let seconds = seconds_since(state.accounting.clock.accounted, now as int);
            if seconds == 0 {
                after is Nothing
            } else {
                after matches WallClockStage::ReadGoal { charge } && charge.time_delta_seconds
                    == seconds && opt_text(charge.expected_goal_id) == state.accounting.clock.goal
            }
        },
        (WallClockStage::ReadGoal { charge }, ChargeEvent::Goal(goal)) => after == (
        WallClockStage::Charge {
            charge,
            previous_status: status_for_metrics(goal, opt_text(charge.expected_goal_id)),
        }),
        _ => after == stage,
    }
}

impl WallClockStage {
    /// The stage that an event leads to.
    pub fn next(self, event: ChargeEvent, state: &GoalRuntimeState) -> (result: Self)
        ensures
            wall_clock_leads(self, event, state@, result),
    {
        match (self, event) {
            (WallClockStage::Charge { charge, previous_status }, _) => WallClockStage::Charge {
                charge,
                previous_status,
            },
            (WallClockStage::Nothing, _) => WallClockStage::Nothing,
            (WallClockStage::Failed, _) => WallClockStage::Failed,
            (_, ChargeEvent::Failed) => WallClockStage::Failed,
            (WallClockStage::Measure, ChargeEvent::Measured { token_usage: _, now }) => {
                match state.begin_wall_clock(now) {
                    Some(charge) => WallClockStage::ReadGoal { charge },
                    None => WallClockStage::Nothing,
                }
            },
            (WallClockStage::ReadGoal { charge }, ChargeEvent::Goal(goal)) => {
                let previous_status = match (&goal, &charge.expected_goal_id) {
                    (Some(goal), Some(expected)) => current_goal_status_for_metrics(
                        Some(goal),
                        Some(expected.as_str()),
                    ),
                    (Some(goal), None) => current_goal_status_for_metrics(Some(goal), None),
                    (None, _) => None,
                };
                WallClockStage::Charge { charge, previous_status }
            },
            (stage, _) => stage,
        }
    }
}

// ---------------------------------------------------------------------------
// Usage limit
// ---------------------------------------------------------------------------

/// What is to be done next when a usage limit is reached.
#[derive(Clone, Copy, Debug, PartialEq, Eq, Structural)]
pub enum UsageLimitStage {
    /// Wait until no continuation is under way, and open the store.
    OpenStore,
    /// Account the progress of the turn, without telling the model of its budget.
    AccountProgress,
    /// Read the goal, for the status before it is stopped.
    ReadGoal,
    /// Ask the store to stop the active goal, and hand its answer to the runtime state.
    StopGoal { previous_status: Option<StateGoalStatus> },
    Nothing,
    /// Pass on the failure of the session.
    Failed,
}

/// The stage that an event leads to. An event that cannot come of a stage changes nothing.
pub open spec fn next_usage_limit(stage: UsageLimitStage, event: ChargeEvent) -> UsageLimitStage {
    match (stage, event) {
        (UsageLimitStage::StopGoal { .. }, _) => stage,
        (UsageLimitStage::Nothing, _) => stage,
        (UsageLimitStage::Failed, _) => stage,
        (_, ChargeEvent::Failed) => UsageLimitStage::Failed,
        (UsageLimitStage::OpenStore, ChargeEvent::Store { present }) => if present {
            UsageLimitStage::AccountProgress
        } else {
            UsageLimitStage::Nothing
        },
        (UsageLimitStage::AccountProgress, ChargeEvent::ProgressAccounted) =>
        UsageLimitStage::ReadGoal,
        (UsageLimitStage::ReadGoal, ChargeEvent::Goal(goal)) => UsageLimitStage::StopGoal {
            previous_status: status_for_metrics(goal, None),
        },
        _ => stage,
    }
}

impl UsageLimitStage {
    /// The stage that a usage limit starts with.
    pub fn start(enabled: bool, mode: ModeKind) -> (result: Self)
        ensures
            result == if minds_goals(enabled, mode) {
                UsageLimitStage::OpenStore
            } else {
                UsageLimitStage::Nothing
            },
    {
        if goals_apply(enabled, mode) {
            UsageLimitStage::OpenStore
        } else {
            UsageLimitStage::Nothing
        }
    }

    /// The stage that an event leads to.
    pub fn next(self, event: &ChargeEvent) -> (result: Self)
        ensures
            result == next_usage_limit(self, *event),
    {
        match (self, event) {
            (UsageLimitStage::StopGoal { previous_status }, _) => UsageLimitStage::StopGoal {
                previous_status,
            },
            (UsageLimitStage::Nothing, _) => UsageLimitStage::Nothing,
            (UsageLimitStage::Failed, _) => UsageLimitStage::Failed,
            (_, ChargeEvent::Failed) => UsageLimitStage::Failed,
            (UsageLimitStage::OpenStore, ChargeEvent::Store { present }) => {
                if *present {
                    UsageLimitStage::AccountProgress
                } else {
                    UsageLimitStage::Nothing
                }
            },
            (UsageLimitStage::AccountProgress, ChargeEvent::ProgressAccounted) =>
            UsageLimitStage::ReadGoal,
            (UsageLimitStage::ReadGoal, ChargeEvent::Goal(goal)) => {
                let previous_status = match goal {
                    Some(goal) => current_goal_status_for_metrics(Some(goal), None),
                    None => None,
                };
                UsageLimitStage::StopGoal { previous_status }
            },
            (stage, _) => stage,
        }
    }
}

} // verus!
