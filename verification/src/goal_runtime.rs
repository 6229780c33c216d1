//! The runtime state of goals, and how the events of a session change it.

use crate::goal::{
    goal_resumed_metric_if_status_changed, goal_terminal_metrics_if_status_changed,
    protocol_goal_from_state, published_goal, resumes, should_ignore_goal_for_mode,
    terminal_metrics, ExternalGoalPreviousStatus, ExternalGoalSet, StateGoal, StateGoalStatus,
    TerminalMetrics, ThreadGoal, UPDATE_GOAL_TOOL_NAME,
};
use crate::goal_accounting::{
    active_accounting, clock_for_goal, stopped_accounting, stopped_clock, with_turn_goal,
    without_turn, AccountingView, GoalAccountingSnapshot, GoalTurnAccountingSnapshot, TurnView,
};
use crate::goal_activity::{
    after_continuing, after_event, no_activity, ActivityView, ContinuationActivity,
};
use crate::protocol::ModeKind;
use crate::text::{opt_text, same_text};
use crate::token_usage::{zero_usage, TokenUsage};
use vstd::prelude::*;

verus! {

/// What a session remembers of goals while it runs.
#[derive(Debug, PartialEq, Eq)]
pub struct GoalRuntimeState {
    /// The goal whose exhausted budget the model was told of.
    pub budget_limit_reported_goal_id: Option<String>,
    /// The goal that was set up by the orchestrator itself when it first delegated work. Only
    /// this goal may be completed without the model, and never one that the user created.
    pub auto_armed_orchestration_goal_id: Option<String>,
    /// The goal for which a consolidated answer was given since a child was last engaged.
    pub orchestration_answer_emitted_goal_id: Option<String>,
    pub accounting: GoalAccountingSnapshot,
    pub continuation: ContinuationActivity,
}

/// The mathematical content of a `GoalRuntimeState`.
pub struct RuntimeView {
    pub budget_reported: Option<Seq<char>>,
    pub auto_armed: Option<Seq<char>>,
    pub answered: Option<Seq<char>>,
    pub accounting: AccountingView,
    pub continuation: ActivityView,
}

impl View for GoalRuntimeState {
    type V = RuntimeView;

    open spec fn view(&self) -> RuntimeView {
        RuntimeView {
            budget_reported: opt_text(self.budget_limit_reported_goal_id),
            auto_armed: opt_text(self.auto_armed_orchestration_goal_id),
            answered: opt_text(self.orchestration_answer_emitted_goal_id),
            accounting: self.accounting@,
            continuation: self.continuation@,
        }
    }
}

/// The usage, or none where there is none yet.
pub open spec fn usage_or_zero(usage: Option<TokenUsage>) -> TokenUsage {
    match usage {
        Some(usage) => usage,
        None => zero_usage(),
    }
}

/// The usage, or none where there is none yet.
pub fn usage_or_default(usage: Option<TokenUsage>) -> (result: TokenUsage)
    ensures
        result == usage_or_zero(usage),
{
    match usage {
        Some(usage) => usage,
        None => TokenUsage::default(),
    }
}

/// The state after a goal was stopped.
pub open spec fn stopped(state: RuntimeView, now: int) -> RuntimeView {
    RuntimeView {
        budget_reported: None,
        accounting: stopped_accounting(state.accounting, now),
        ..state
    }
}

// ---------------------------------------------------------------------------
// Routing
// ---------------------------------------------------------------------------

/// Whether the model may be told of an exhausted budget.
#[derive(Clone, Copy, Debug, PartialEq, Eq, Structural)]
pub enum BudgetLimitSteering {
    Allowed,
    Suppressed,
}

/// Whether a goal that comes to rest is measured.
#[derive(Clone, Copy, Debug, PartialEq, Eq, Structural)]
pub enum TerminalMetricEmission {
    Emit,
    Suppress,
}

/// The events of a session that bear on goals.
#[derive(Debug, PartialEq, Eq)]
pub enum GoalRuntimeEvent {
    TurnStarted,
    ToolCompleted { tool_name: String },
    ToolCompletedGoal,
    TurnFinished { turn_completed: bool },
    MaybeContinueIfIdle,
    TaskAborted { has_turn: bool },
    UsageLimitReached,
    ExternalMutationStarting,
    ExternalSet,
    ExternalClear,
    ThreadResumed,
}

/// What an event sets off.
#[derive(Clone, Copy, Debug, PartialEq, Eq, Structural)]
pub enum GoalRuntimeAction {
    Nothing,
    MarkTurnStarted,
    AccountProgress {
        steering: BudgetLimitSteering,
        emission: TerminalMetricEmission,
        /// Whether the turn leaves the accounting afterwards, however the charge ends.
        ends_turn: bool,
    },
    ContinueIfIdle,
    UsageLimit,
    AccountBeforeExternalMutation,
    ApplyExternalStatus,
    ClearStopped,
    RestoreAfterResume,
}

/// What an event sets off.
pub open spec fn routed(event: GoalRuntimeEvent) -> GoalRuntimeAction {
    let accounting_at_end = GoalRuntimeAction::AccountProgress {
        steering: BudgetLimitSteering::Suppressed,
        emission: TerminalMetricEmission::Emit,
        ends_turn: true,
    };
    match event {
        GoalRuntimeEvent::TurnStarted => GoalRuntimeAction::MarkTurnStarted,
        GoalRuntimeEvent::ToolCompleted { tool_name } => if tool_name@ == UPDATE_GOAL_TOOL_NAME@ {
            GoalRuntimeAction::Nothing
        } else {
            GoalRuntimeAction::AccountProgress {
                steering: BudgetLimitSteering::Allowed,
                emission: TerminalMetricEmission::Emit,
                ends_turn: false,
            }
        },
        GoalRuntimeEvent::ToolCompletedGoal => GoalRuntimeAction::AccountProgress {
            steering: BudgetLimitSteering::Suppressed,
            emission: TerminalMetricEmission::Suppress,
            ends_turn: false,
        },
        GoalRuntimeEvent::TurnFinished { turn_completed } => if turn_completed {
            accounting_at_end
        } else {
            GoalRuntimeAction::Nothing
        },
        GoalRuntimeEvent::MaybeContinueIfIdle => GoalRuntimeAction::ContinueIfIdle,
        GoalRuntimeEvent::TaskAborted { has_turn } => if has_turn {
            accounting_at_end
        } else {
            GoalRuntimeAction::Nothing
        },
        GoalRuntimeEvent::UsageLimitReached => GoalRuntimeAction::UsageLimit,
        GoalRuntimeEvent::ExternalMutationStarting =>
        GoalRuntimeAction::AccountBeforeExternalMutation,
        GoalRuntimeEvent::ExternalSet => GoalRuntimeAction::ApplyExternalStatus,
        GoalRuntimeEvent::ExternalClear => GoalRuntimeAction::ClearStopped,
        GoalRuntimeEvent::ThreadResumed => GoalRuntimeAction::RestoreAfterResume,
    }
}

/// What an event sets off.
pub fn goal_runtime_action(event: &GoalRuntimeEvent) -> (result: GoalRuntimeAction)
    ensures
        result == routed(*event),
{
    match event {
        GoalRuntimeEvent::TurnStarted => GoalRuntimeAction::MarkTurnStarted,
        GoalRuntimeEvent::ToolCompleted { tool_name } => {
            if same_text(tool_name.as_str(), UPDATE_GOAL_TOOL_NAME) {
                GoalRuntimeAction::Nothing
            } else {
                GoalRuntimeAction::AccountProgress {
                    steering: BudgetLimitSteering::Allowed,
                    emission: TerminalMetricEmission::Emit,
                    ends_turn: false,
                }
            }
        },
        GoalRuntimeEvent::ToolCompletedGoal => GoalRuntimeAction::AccountProgress {
            steering: BudgetLimitSteering::Suppressed,
            emission: TerminalMetricEmission::Suppress,
            ends_turn: false,
        },
        GoalRuntimeEvent::TurnFinished { turn_completed } => account_at_end(*turn_completed),
        GoalRuntimeEvent::MaybeContinueIfIdle => GoalRuntimeAction::ContinueIfIdle,
        GoalRuntimeEvent::TaskAborted { has_turn } => account_at_end(*has_turn),
        GoalRuntimeEvent::UsageLimitReached => GoalRuntimeAction::UsageLimit,
        GoalRuntimeEvent::ExternalMutationStarting =>
        GoalRuntimeAction::AccountBeforeExternalMutation,
        GoalRuntimeEvent::ExternalSet => GoalRuntimeAction::ApplyExternalStatus,
        GoalRuntimeEvent::ExternalClear => GoalRuntimeAction::ClearStopped,
        GoalRuntimeEvent::ThreadResumed => GoalRuntimeAction::RestoreAfterResume,
    }
}

fn account_at_end(applies: bool) -> (result: GoalRuntimeAction)
    ensures
        result == if applies {
            GoalRuntimeAction::AccountProgress {
                steering: BudgetLimitSteering::Suppressed,
                emission: TerminalMetricEmission::Emit,
                ends_turn: true,
            }
        } else {
            GoalRuntimeAction::Nothing
        },
{
    if applies {
        GoalRuntimeAction::AccountProgress {
            steering: BudgetLimitSteering::Suppressed,
            emission: TerminalMetricEmission::Emit,
            ends_turn: true,
        }
    } else {
        GoalRuntimeAction::Nothing
    }
}

impl GoalRuntimeAction {
    /// Whether a failure of what was set off is passed on; others are only logged.
    pub fn passes_failure_on(self) -> (result: bool)
        ensures
            result == match self {
                GoalRuntimeAction::AccountProgress { ends_turn, .. } => !ends_turn,
                GoalRuntimeAction::UsageLimit => true,
                GoalRuntimeAction::RestoreAfterResume => true,
                _ => false,
            },
    {
        match self {
            GoalRuntimeAction::AccountProgress { steering: _, emission: _, ends_turn } => !ends_turn,
            GoalRuntimeAction::UsageLimit => true,
            GoalRuntimeAction::RestoreAfterResume => true,
            _ => false,
        }
    }
}

/// Accounting may tell the model of an exhausted budget only while the turn goes on after a
/// tool, and the tool about the goal itself sets off no accounting by its completion.
pub proof fn lemma_steering_only_after_other_tools(event: GoalRuntimeEvent)
    ensures
        routed(event) matches GoalRuntimeAction::AccountProgress { steering, ends_turn, .. } ==> (
        steering is Allowed ==> !ends_turn && event is ToolCompleted),
        event matches GoalRuntimeEvent::ToolCompleted { tool_name } && tool_name@
            == UPDATE_GOAL_TOOL_NAME@ ==> routed(event) is Nothing,
{
}

// ---------------------------------------------------------------------------
// The state
// ---------------------------------------------------------------------------

/// Where goals are read at the start of a turn: the feature is on, and the mode minds goals.
pub open spec fn minds_goals(enabled: bool, mode: ModeKind) -> bool {
    enabled && !(mode is Plan)
}

/// What an external change of a goal sets off, besides the change of the state.
#[derive(Debug, PartialEq, Eq)]
pub struct ExternalSetEffects {
    pub created: bool,
    pub resumed: bool,
    pub terminal_metrics: Option<TerminalMetrics>,
    /// The goal that the model is told the new objective of.
    pub steering_goal: Option<ThreadGoal>,
    pub continue_if_idle: bool,
}

/// The goal that a mutation changed, where it did not create or replace one.
pub open spec fn status_before(set: ExternalGoalSet) -> Option<StateGoalStatus> {
    match set.previous_status {
        ExternalGoalPreviousStatus::NewGoal => None,
        ExternalGoalPreviousStatus::Existing(previous) => if previous.goal_id@
            == set.goal.goal_id@ {
            Some(previous.status)
        } else {
            None
        },
    }
}

/// Whether a mutation changed the objective of the goal that was there.
pub open spec fn objective_changed(set: ExternalGoalSet) -> bool {
    set.previous_status matches ExternalGoalPreviousStatus::Existing(previous)
        && previous.objective@ != set.goal.objective@
}

/// The state after a goal was changed from outside.
pub open spec fn after_external_set(
    state: RuntimeView,
    set: ExternalGoalSet,
    active_turn_id: Option<Seq<char>>,
    usage: Option<TokenUsage>,
    now: int,
) -> RuntimeView {
    match set.goal.status {
        StateGoalStatus::Active => RuntimeView {
            accounting: active_accounting(
                state.accounting,
                set.goal.goal_id@,
                active_turn_id,
                usage_or_zero(usage),
                now,
            ),
            ..state
        },
        StateGoalStatus::BudgetLimited => if active_turn_id is None {
            stopped(state, now)
        } else {
            state
        },
        _ => stopped(state, now),
    }
}

impl GoalRuntimeState {
    pub fn new(now: u128) -> (result: Self)
        ensures
            result@ == (RuntimeView {
                budget_reported: None,
                auto_armed: None,
                answered: None,
                accounting: AccountingView { turn: None, clock: stopped_clock(now as int) },
                continuation: no_activity(),
            }),
    {
        GoalRuntimeState {
            budget_limit_reported_goal_id: None,
            auto_armed_orchestration_goal_id: None,
            orchestration_answer_emitted_goal_id: None,
            accounting: GoalAccountingSnapshot::new(now),
            continuation: ContinuationActivity::new(),
        }
    }

    /// Takes in an event, in the given turn where it has one. Returns what it sets off.
    pub fn goal_runtime_apply(&mut self, event: &GoalRuntimeEvent, turn_id: Option<&str>) -> (result:
        GoalRuntimeAction)
        ensures
            result == routed(*event),
            final(self)@ == (RuntimeView {
                continuation: after_event(
                    old(self)@.continuation,
                    *event,
                    match turn_id {
                        Some(turn_id) => Some(turn_id@),
                        None => None,
                    },
                ),
                ..old(self)@
            }),
    {
        self.continuation.observe(event, turn_id);
        goal_runtime_action(event)
    }

    /// Records that a turn was started to continue the goal.
    pub fn goal_continuation_started(&mut self, turn_id: &str)
        ensures
            final(self)@ == (RuntimeView {
                continuation: after_continuing(old(self)@.continuation, turn_id@),
                ..old(self)@
            }),
    {
        self.continuation.continuing(turn_id);
    }

    /// Takes a goal that was stopped out of the state.
    pub fn clear_stopped_thread_goal_runtime_state(&mut self, now: u128)
        ensures
            final(self)@ == stopped(old(self)@, now as int),
    {
        self.budget_limit_reported_goal_id = None;
        self.accounting.stop(now);
    }

    /// Records the goal that the orchestrator set up for itself, where one was read.
    pub fn mark_auto_armed_orchestration_goal(&mut self, stored: Option<&StateGoal>)
        ensures
            final(self)@ == (match stored {
                Some(goal) => RuntimeView { auto_armed: Some(goal.goal_id@), ..old(self)@ },
                None => old(self)@,
            }),
    {
        if let Some(goal) = stored {
            self.auto_armed_orchestration_goal_id = Some(goal.goal_id.clone());
        }
    }

    /// Records that a child was engaged again: a new answer is owed. The flag of the turn at
    /// hand, where there is one, is set.
    pub fn mark_reengaged_child_this_turn(&mut self, turn_flag: Option<&mut bool>)
        ensures
            final(self)@ == (RuntimeView { answered: None, ..old(self)@ }),
            turn_flag matches Some(flag) ==> *final(flag),
    {
        self.orchestration_answer_emitted_goal_id = None;
        if let Some(flag) = turn_flag {
            *flag = true;
        }
    }

    /// Starts the accounting of a turn. Returns whether the goal of the thread is to be read.
    pub fn mark_thread_goal_turn_started(
        &mut self,
        turn_id: &str,
        token_usage: TokenUsage,
        enabled: bool,
        mode: ModeKind,
        now: u128,
    ) -> (result: bool)
        ensures
            result == minds_goals(enabled, mode),
            ({
                let started = TurnView { turn_id: turn_id@, accounted: token_usage, goal: None };
                let accounting = AccountingView {
                    turn: Some(started),
                    clock: if enabled && mode is Plan {
                        stopped_clock(now as int)
                    } else {
                        old(self)@.accounting.clock
                    },
                };
                final(self)@ == (RuntimeView { accounting, ..old(self)@ })
            }),
    {
        self.accounting.turn = Some(
            GoalTurnAccountingSnapshot::new(turn_id.to_owned(), token_usage),
        );
        if !enabled {
            return false;
        }
        if should_ignore_goal_for_mode(mode) {
            self.accounting.clear_active_goal(turn_id, now);
            return false;
        }
        true
    }

    /// Takes in the goal that was read at the start of a turn: an active or exhausted one is
    /// charged with the turn; otherwise the clock stops.
    pub fn turn_started_with_goal(&mut self, turn_id: &str, stored: Option<&StateGoal>, now: u128)
        ensures
            ({
                let before = old(self)@.accounting;
                let accounting = match stored {
                    Some(goal) => if goal.status is Active || goal.status is BudgetLimited {
                        AccountingView {
                            clock: clock_for_goal(before.clock, goal.goal_id@, now as int),
                            ..with_turn_goal(before, turn_id@, Some(goal.goal_id@))
                        }
                    } else {
                        AccountingView { clock: stopped_clock(now as int), ..before }
                    },
                    None => AccountingView { clock: stopped_clock(now as int), ..before },
                };
                final(self)@ == (RuntimeView { accounting, ..old(self)@ })
            }),
    {
        match stored {
            Some(goal) => {
                if goal.status == StateGoalStatus::Active || goal.status
                    == StateGoalStatus::BudgetLimited {
                    if self.accounting.accounts(turn_id) {
                        if let Some(turn) = self.accounting.turn.as_mut() {
                            turn.mark_active_goal(goal.goal_id.clone());
                        }
                    }
                    self.accounting.wall_clock.mark_active_goal(goal.goal_id.clone(), now);
                } else {
                    self.accounting.wall_clock.clear_active_goal(now);
                }
            },
            None => {
                self.accounting.wall_clock.clear_active_goal(now);
            },
        }
    }

    /// Ends the accounting of a turn.
    pub fn finish_thread_goal_turn(&mut self, turn_id: &str)
        ensures
            final(self)@ == (RuntimeView {
                accounting: without_turn(old(self)@.accounting, turn_id@),
                ..old(self)@
            }),
    {
        self.accounting.end_turn(turn_id);
    }

    /// Takes in a goal that was changed from outside.
    pub fn apply_external_thread_goal_status(
        &mut self,
        external_set: ExternalGoalSet,
        active_turn_id: Option<String>,
        token_usage: Option<TokenUsage>,
        now: u128,
    ) -> (result: ExternalSetEffects)
        ensures
            final(self)@ == after_external_set(
                old(self)@,
                external_set,
                opt_text(active_turn_id),
                token_usage,
                now as int,
            ),
            result.created == match external_set.previous_status {
                ExternalGoalPreviousStatus::NewGoal => true,
                ExternalGoalPreviousStatus::Existing(previous) => previous.goal_id@
                    != external_set.goal.goal_id@,
            },
            result.resumed == resumes(status_before(external_set), external_set.goal.status),
            result.terminal_metrics == terminal_metrics(
                status_before(external_set),
                external_set.goal,
            ),
            result.steering_goal == if external_set.goal.status is Active && objective_changed(
                external_set,
            ) {
                Some(published_goal(external_set.goal))
            } else {
                None
            },
            result.continue_if_idle == (external_set.goal.status is Active),
    {
        let goal = external_set.goal;
        let (created, changed, previous_status) = match &external_set.previous_status {
            ExternalGoalPreviousStatus::NewGoal => (true, false, None),
            ExternalGoalPreviousStatus::Existing(previous) => {
                let same_goal = same_text(previous.goal_id.as_str(), goal.goal_id.as_str());
                let changed = !same_text(previous.objective.as_str(), goal.objective.as_str());
                let status = if same_goal {
                    Some(previous.status)
                } else {
                    None
                };
                (!same_goal, changed, status)
            },
        };
        let resumed = goal_resumed_metric_if_status_changed(previous_status, goal.status);
        let metrics = goal_terminal_metrics_if_status_changed(previous_status, &goal);
        match goal.status {
            StateGoalStatus::Active => {
                self.accounting.mark_active_goal(
                    goal.goal_id.as_str(),
                    active_turn_id,
                    usage_or_default(token_usage),
                    now,
                );
                let steering_goal = if changed {
                    Some(protocol_goal_from_state(goal))
                } else {
                    None
                };
                ExternalSetEffects {
                    created,
                    resumed,
                    terminal_metrics: metrics,
                    steering_goal,
                    continue_if_idle: true,
                }
            },
            StateGoalStatus::BudgetLimited => {
                if active_turn_id.is_none() {
                    self.clear_stopped_thread_goal_runtime_state(now);
                }
                ExternalSetEffects {
                    created,
                    resumed,
                    terminal_metrics: metrics,
                    steering_goal: None,
                    continue_if_idle: false,
                }
            },
            _ => {
                self.clear_stopped_thread_goal_runtime_state(now);
                ExternalSetEffects {
                    created,
                    resumed,
                    terminal_metrics: metrics,
                    steering_goal: None,
                    continue_if_idle: false,
                }
            },
        }
    }

    /// Takes in the goal that was read when a thread is resumed: the clock of an active goal
    /// runs, and everything else stops. Returns whether the goal counts as resumed.
    pub fn restore_thread_goal_runtime_after_resume(
        &mut self,
        stored: Option<&StateGoal>,
        now: u128,
    ) -> (result: bool)
        ensures
            result == (stored matches Some(goal) && goal.status is Active),
            final(self)@ == if result {
                RuntimeView {
                    accounting: AccountingView {
                        clock: clock_for_goal(
                            old(self)@.accounting.clock,
                            stored->Some_0.goal_id@,
                            now as int,
                        ),
                        ..old(self)@.accounting
                    },
                    ..old(self)@
                }
            } else {
                stopped(old(self)@, now as int)
            },
    {
        match stored {
            Some(goal) => {
                if goal.status == StateGoalStatus::Active {
                    self.accounting.wall_clock.mark_active_goal(goal.goal_id.clone(), now);
                    true
                } else {
                    self.clear_stopped_thread_goal_runtime_state(now);
                    false
                }
            },
            None => {
                self.clear_stopped_thread_goal_runtime_state(now);
                false
            },
        }
    }
}

/// Whether the runtime of goals is restored when a thread is resumed, whether a turn is
/// charged to a goal, and whether a usage limit stops a goal: the feature is on, and the mode
/// minds goals.
pub fn goals_apply(enabled: bool, mode: ModeKind) -> (result: bool)
    ensures
        result == minds_goals(enabled, mode),
{
    enabled && !should_ignore_goal_for_mode(mode)
}

} // verus!
