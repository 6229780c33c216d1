//! Charging a goal with the tokens and seconds that were used.
//!
//! Each charge has two halves: what is to be charged follows from the runtime state, and what
//! the store answers changes it. The store itself stands between the two.

use crate::goal::{
    goal_terminal_metrics_if_status_changed, protocol_goal_from_state, published_goal,
    terminal_metrics, StateGoal, StateGoalStatus, TerminalMetrics, ThreadGoal,
};
use crate::goal_accounting::{
    accounted_after, accounts_turn, cleared_accounting, seconds_since, stopped_clock, usage_since,
    AccountingView, ClockView, TurnView,
};
use crate::goal_runtime::{
    usage_or_default, usage_or_zero, BudgetLimitSteering, GoalRuntimeState, RuntimeView,
    TerminalMetricEmission,
};
use crate::text::{opt_is, opt_text};
use crate::token_usage::{goal_tokens, TokenUsage};
use vstd::prelude::*;

verus! {

/// What the store answers a charge.
#[derive(Debug, PartialEq, Eq)]
pub enum GoalAccountingOutcome {
    Updated(StateGoal),
    Unchanged(Option<StateGoal>),
}

/// Which goals a charge applies to.
#[derive(Clone, Copy, Debug, PartialEq, Eq, Structural)]
pub enum GoalAccountingMode {
    ActiveOnly,
}

// ---------------------------------------------------------------------------
// Progress of a turn
// ---------------------------------------------------------------------------

/// A charge for the progress of a turn.
#[derive(Debug, PartialEq, Eq)]
pub struct ProgressCharge {
    pub token_delta: i64,
    pub time_delta_seconds: i64,
    pub expected_goal_id: String,
    /// The usage that the turn is accounted up to by this charge.
    pub current_token_usage: TokenUsage,
}

/// The charge for the progress of a turn; none where the turn is not charged to a goal, or
/// where nothing was used.
pub open spec fn due_charge(
    state: RuntimeView,
    turn_id: Seq<char>,
    usage: Option<TokenUsage>,
    now: int,
) -> Option<(int, int, Seq<char>)> {
    let accounting = state.accounting;
    if accounts_turn(accounting, turn_id) && accounting.turn->Some_0.goal is Some {
        let turn = accounting.turn->Some_0;
        let tokens = goal_tokens(usage_since(usage_or_zero(usage), turn.accounted));
        let seconds = seconds_since(accounting.clock.accounted, now);
        if seconds == 0 && tokens <= 0 {
            None
        } else {
            Some((tokens, seconds, turn.goal->Some_0))
        }
    } else {
        None
    }
}

/// What a charge leads to, besides the change of the state.
#[derive(Debug, PartialEq, Eq)]
pub struct ProgressEffects {
    /// The goal to announce.
    pub goal: ThreadGoal,
    pub terminal_metrics: Option<TerminalMetrics>,
    /// The goal whose exhausted budget the model is to be told of.
    pub steer_goal_id: Option<String>,
}

/// Whether a goal in this status is charged no further with the turn and the clock.
pub open spec fn stops_charging(status: StateGoalStatus, steering: BudgetLimitSteering) -> bool {
    match status {
        StateGoalStatus::Active => false,
        StateGoalStatus::BudgetLimited => steering is Suppressed,
        _ => true,
    }
}

/// Whether the model is told that the budget of a charged goal is exhausted: where that is
/// allowed, and it was not told before.
pub open spec fn steers(
    state: RuntimeView,
    charge: ProgressCharge,
    goal: StateGoal,
    steering: BudgetLimitSteering,
) -> bool {
    &&& steering is Allowed
    &&& goal.status is BudgetLimited
    &&& state.budget_reported != Some(charge.expected_goal_id@)
}

/// The accounting after a goal was charged.
pub open spec fn charged_accounting(
    accounting: AccountingView,
    turn_id: Seq<char>,
    charge: ProgressCharge,
    stops: bool,
    now: int,
) -> AccountingView {
    AccountingView {
        turn: if accounts_turn(accounting, turn_id) {
            let turn = accounting.turn->Some_0;
            Some(
                TurnView {
                    accounted: charge.current_token_usage,
                    goal: if stops {
                        None
                    } else {
                        turn.goal
                    },
                    ..turn
                },
            )
        } else {
            accounting.turn
        },
        clock: if stops {
            stopped_clock(now)
        } else {
            ClockView {
                accounted: accounted_after(
                    accounting.clock.accounted,
                    charge.time_delta_seconds as int,
                    now,
                ),
                ..accounting.clock
            }
        },
    }
}

/// The state after the store answered a charge.
pub open spec fn charged(
    state: RuntimeView,
    turn_id: Seq<char>,
    charge: ProgressCharge,
    outcome: GoalAccountingOutcome,
    steering: BudgetLimitSteering,
    now: int,
) -> RuntimeView {
    match outcome {
        GoalAccountingOutcome::Unchanged(_) => state,
        GoalAccountingOutcome::Updated(goal) => RuntimeView {
            budget_reported: if goal.status is BudgetLimited {
                state.budget_reported
            } else {
                None
            },
            accounting: charged_accounting(
                state.accounting,
                turn_id,
                charge,
                stops_charging(goal.status, steering),
                now,
            ),
            ..state
        },
    }
}

impl GoalRuntimeState {
    /// The charge for the progress of a turn.
    pub fn begin_progress(&self, turn_id: &str, token_usage: Option<TokenUsage>, now: u128) -> (result:
        Option<ProgressCharge>)
        ensures
            match due_charge(self@, turn_id@, token_usage, now as int) {
                Some((tokens, seconds, goal_id)) => {
                    &&& result is Some
                    &&& result->Some_0.token_delta == tokens
                    &&& result->Some_0.time_delta_seconds == seconds
                    &&& result->Some_0.expected_goal_id@ == goal_id
                    &&& result->Some_0.current_token_usage == usage_or_zero(token_usage)
                },
                None => result is None,
            },
    {
        if !self.accounting.accounts(turn_id) {
            return None;
        }
        let current_token_usage = usage_or_default(token_usage);
        match &self.accounting.turn {
            Some(turn) => {
                match turn.active_goal_id() {
                    Some(expected_goal_id) => {
                        let token_delta: i64 = turn.token_delta_since_last_accounting(
                            &current_token_usage,
                        );
                        let time_delta_seconds: i64 =
                            self.accounting.wall_clock.time_delta_since_last_accounting(now);
                        if time_delta_seconds == 0 && token_delta <= 0 {
                            return None;
                        }
                        Some(
                            ProgressCharge {
                                token_delta,
                                time_delta_seconds,
                                expected_goal_id,
                                current_token_usage,
                            },
                        )
                    },
                    None => None,
                }
            },
            None => None,
        }
    }

    /// Takes in what the store answered a charge for the progress of a turn. `previous_status`
    /// is the status of the goal before the charge.
    pub fn account_thread_goal_progress(
        &mut self,
        turn_id: &str,
        charge: &ProgressCharge,
        outcome: GoalAccountingOutcome,
        previous_status: Option<StateGoalStatus>,
        steering: BudgetLimitSteering,
        emission: TerminalMetricEmission,
        now: u128,
    ) -> (result: Option<ProgressEffects>)
        ensures
            final(self)@ == charged(
                old(self)@,
                turn_id@,
                *charge,
                outcome,
                steering,
                now as int,
            ),
            match outcome {
                GoalAccountingOutcome::Unchanged(_) => result is None,
                GoalAccountingOutcome::Updated(goal) => {
                    &&& result is Some
                    &&& result->Some_0.goal == published_goal(goal)
                    &&& result->Some_0.terminal_metrics == if emission is Emit {
                        terminal_metrics(previous_status, goal)
                    } else {
                        None
                    }
                    &&& result->Some_0.steer_goal_id == if steers(
                        old(self)@,
                        *charge,
                        goal,
                        steering,
                    ) {
                        Some(goal.goal_id)
                    } else {
                        None
                    }
                },
            },
    {
        let already_reported = opt_is(
            &self.budget_limit_reported_goal_id,
            charge.expected_goal_id.as_str(),
        );
        let goal = match outcome {
            GoalAccountingOutcome::Updated(goal) => goal,
            GoalAccountingOutcome::Unchanged(_) => {
                return None;
            },
        };
        let clear_active_goal = match goal.status {
            StateGoalStatus::Active => false,
            StateGoalStatus::BudgetLimited => steering == BudgetLimitSteering::Suppressed,
            _ => true,
        };
        if self.accounting.accounts(turn_id) {
            if let Some(turn) = self.accounting.turn.as_mut() {
                turn.mark_accounted(charge.current_token_usage);
                if clear_active_goal {
                    turn.clear_active_goal();
                }
            }
        }
        self.accounting.wall_clock.mark_accounted(charge.time_delta_seconds, now);
        if clear_active_goal {
            self.accounting.wall_clock.clear_active_goal(now);
        }
        let metrics = if emission == TerminalMetricEmission::Emit {
            goal_terminal_metrics_if_status_changed(previous_status, &goal)
        } else {
            None
        };
        let limited = goal.status == StateGoalStatus::BudgetLimited;
        if !limited {
            self.budget_limit_reported_goal_id = None;
        }
        let steer_goal_id = if steering == BudgetLimitSteering::Allowed && limited
            && !already_reported {
            Some(goal.goal_id.clone())
        } else {
            None
        };
        Some(
            ProgressEffects {
                goal: protocol_goal_from_state(goal),
                terminal_metrics: metrics,
                steer_goal_id,
            },
        )
    }

    /// Records that the model was told of the exhausted budget of a goal, whether or not a
    /// turn was there to be told.
    pub fn budget_limit_steered(&mut self, goal_id: String)
        ensures
            final(self)@ == (RuntimeView { budget_reported: Some(goal_id@), ..old(self)@ }),
    {
        self.budget_limit_reported_goal_id = Some(goal_id);
    }
}

/// The model is told of an exhausted budget at most once: after it was told, no charge to
/// the same goal tells it again, as long as the goal stays exhausted.
pub proof fn lemma_budget_limit_told_once(
    state: RuntimeView,
    turn_id: Seq<char>,
    charge: ProgressCharge,
    goal: StateGoal,
    steering: BudgetLimitSteering,
    now: int,
)
    requires
        state.budget_reported == Some(charge.expected_goal_id@),
        goal.status is BudgetLimited,
    ensures
        !steers(state, charge, goal, steering),
        charged(
            state,
            turn_id,
            charge,
            GoalAccountingOutcome::Updated(goal),
            steering,
            now,
        ).budget_reported == state.budget_reported,
{
}

/// A charged turn owes nothing for the usage that was charged: the tokens that were accounted
/// are not due again, and where the clock does not stop neither are the seconds.
pub proof fn lemma_progress_is_charged_once(
    state: RuntimeView,
    turn_id: Seq<char>,
    usage: Option<TokenUsage>,
    charge: ProgressCharge,
    goal: StateGoal,
    steering: BudgetLimitSteering,
    now: int,
)
    requires
        0 <= state.accounting.clock.accounted,
        0 <= now <= crate::goal_accounting::LAST_INSTANT,
        due_charge(state, turn_id, usage, now) == Some(
            (
                charge.token_delta as int,
                charge.time_delta_seconds as int,
                charge.expected_goal_id@,
            ),
        ),
        charge.current_token_usage == usage_or_zero(usage),
    ensures
        due_charge(
            charged(
                state,
                turn_id,
                charge,
                GoalAccountingOutcome::Updated(goal),
                steering,
                now,
            ),
            turn_id,
            usage,
            now,
        ) is None,
{
    let clock = state.accounting.clock.accounted;
    let after = charged(
        state,
        turn_id,
        charge,
        GoalAccountingOutcome::Updated(goal),
        steering,
        now,
    );
    crate::goal_accounting::lemma_accounted_is_not_charged_again(usage_or_zero(usage));
    if clock <= now {
        crate::goal_accounting::lemma_clock_charges_every_second_once(clock, now, now);
    }
}

// ---------------------------------------------------------------------------
// The clock alone
// ---------------------------------------------------------------------------

/// A charge for the clock alone.
#[derive(Debug, PartialEq, Eq)]
pub struct WallClockCharge {
    pub time_delta_seconds: i64,
    pub expected_goal_id: Option<String>,
}

/// What a charge for the clock leads to, besides the change of the state.
#[derive(Debug, PartialEq, Eq)]
pub struct WallClockEffects {
    pub goal: Option<ThreadGoal>,
    pub terminal_metrics: Option<TerminalMetrics>,
}

impl GoalRuntimeState {
    /// The charge for the clock; none where no whole second passed.
    pub fn begin_wall_clock(&self, now: u128) -> (result: Option<WallClockCharge>)
        ensures
            result is None <==> seconds_since(self@.accounting.clock.accounted, now as int) == 0,
            result matches Some(charge) ==> {
                &&& charge.time_delta_seconds == seconds_since(
                    self@.accounting.clock.accounted,
                    now as int,
                )
                &&& opt_text(charge.expected_goal_id) == self@.accounting.clock.goal
            },
    {
        let time_delta_seconds: i64 =
            self.accounting.wall_clock.time_delta_since_last_accounting(now);
        if time_delta_seconds == 0 {
            return None;
        }
        Some(
            WallClockCharge {
                time_delta_seconds,
                expected_goal_id: self.accounting.wall_clock.active_goal_id(),
            },
        )
    }

    /// Takes in what the store answered a charge for the clock. Where it charged nothing, the
    /// clock stops.
    pub fn account_thread_goal_wall_clock_usage(
        &mut self,
        charge: &WallClockCharge,
        outcome: GoalAccountingOutcome,
        previous_status: Option<StateGoalStatus>,
        emission: TerminalMetricEmission,
        now: u128,
    ) -> (result: WallClockEffects)
        ensures
            final(self)@ == (RuntimeView {
                accounting: AccountingView {
                    clock: match outcome {
                        GoalAccountingOutcome::Updated(_) => ClockView {
                            accounted: accounted_after(
                                old(self)@.accounting.clock.accounted,
                                charge.time_delta_seconds as int,
                                now as int,
                            ),
                            ..old(self)@.accounting.clock
                        },
                        GoalAccountingOutcome::Unchanged(_) => stopped_clock(now as int),
                    },
                    ..old(self)@.accounting
                },
                ..old(self)@
            }),
            result.goal == match outcome {
                GoalAccountingOutcome::Updated(goal) => Some(published_goal(goal)),
                GoalAccountingOutcome::Unchanged(Some(goal)) => Some(published_goal(goal)),
                GoalAccountingOutcome::Unchanged(None) => None,
            },
            result.terminal_metrics == match outcome {
                GoalAccountingOutcome::Updated(goal) => if emission is Emit {
                    terminal_metrics(previous_status, goal)
                } else {
                    None
                },
                GoalAccountingOutcome::Unchanged(_) => None,
            },
    {
        match outcome {
            GoalAccountingOutcome::Updated(goal) => {
                let metrics = if emission == TerminalMetricEmission::Emit {
                    goal_terminal_metrics_if_status_changed(previous_status, &goal)
                } else {
                    None
                };
                self.accounting.wall_clock.mark_accounted(charge.time_delta_seconds, now);
                WallClockEffects {
                    goal: Some(protocol_goal_from_state(goal)),
                    terminal_metrics: metrics,
                }
            },
            GoalAccountingOutcome::Unchanged(stored) => {
                self.accounting.wall_clock.reset_baseline(now);
                self.accounting.wall_clock.clear_active_goal(now);
                let goal = match stored {
                    Some(goal) => Some(protocol_goal_from_state(goal)),
                    None => None,
                };
                WallClockEffects { goal, terminal_metrics: None }
            },
        }
    }
}

// ---------------------------------------------------------------------------
// Before a mutation from outside, and at a usage limit
// ---------------------------------------------------------------------------

/// What is accounted before a goal is changed from outside.
#[derive(Clone, Copy, Debug, PartialEq, Eq, Structural)]
pub enum ExternalMutationAccounting {
    /// The progress of the turn at hand.
    Progress { steering: BudgetLimitSteering, emission: TerminalMetricEmission },
    /// The clock alone, where there is a store.
    WallClock { mode: GoalAccountingMode, emission: TerminalMetricEmission },
}

/// What is accounted before a goal is changed from outside: the progress of the turn at hand,
/// else the clock.
pub fn account_thread_goal_before_external_mutation(turn_active: bool) -> (result:
    ExternalMutationAccounting)
    ensures
        result == if turn_active {
            ExternalMutationAccounting::Progress {
                steering: BudgetLimitSteering::Suppressed,
                emission: TerminalMetricEmission::Emit,
            }
        } else {
            ExternalMutationAccounting::WallClock {
                mode: GoalAccountingMode::ActiveOnly,
                emission: TerminalMetricEmission::Suppress,
            }
        },
{
    if turn_active {
        ExternalMutationAccounting::Progress {
            steering: BudgetLimitSteering::Suppressed,
            emission: TerminalMetricEmission::Emit,
        }
    } else {
        ExternalMutationAccounting::WallClock {
            mode: GoalAccountingMode::ActiveOnly,
            emission: TerminalMetricEmission::Suppress,
        }
    }
}

/// What a usage limit leads to, besides the change of the state.
#[derive(Debug, PartialEq, Eq)]
pub struct UsageLimitEffects {
    /// The goal to announce.
    pub goal: ThreadGoal,
    pub terminal_metrics: Option<TerminalMetrics>,
}

impl GoalRuntimeState {
    /// Takes in the goal that the store stopped because a usage limit was reached; nothing
    /// where it stopped none.
    pub fn usage_limit_active_thread_goal_for_turn(
        &mut self,
        turn_id: &str,
        stopped_goal: Option<StateGoal>,
        previous_status: Option<StateGoalStatus>,
        now: u128,
    ) -> (result: Option<UsageLimitEffects>)
        ensures
            match stopped_goal {
                Some(goal) => {
                    &&& final(self)@ == (RuntimeView {
                        budget_reported: None,
                        accounting: cleared_accounting(
                            old(self)@.accounting,
                            turn_id@,
                            now as int,
                        ),
                        ..old(self)@
                    })
                    &&& result == Some(
                        UsageLimitEffects {
                            goal: published_goal(goal),
                            terminal_metrics: terminal_metrics(previous_status, goal),
                        },
                    )
                },
                None => final(self)@ == old(self)@ && result is None,
            },
    {
        match stopped_goal {
            Some(goal) => {
                let metrics = goal_terminal_metrics_if_status_changed(previous_status, &goal);
                let goal = protocol_goal_from_state(goal);
                self.budget_limit_reported_goal_id = None;
                self.accounting.clear_active_goal(turn_id, now);
                Some(UsageLimitEffects { goal, terminal_metrics: metrics })
            },
            None => None,
        }
    }
}

} // verus!
