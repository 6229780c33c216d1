//! What the runtime state of goals promises its callers, in terms of what goes into an
//! operation and what comes out of it.

use crate::goal::{
    ExternalGoalPreviousGoal, ExternalGoalPreviousStatus, ExternalGoalSet, GoalCounter, StateGoal, StateGoalStatus,
    TerminalMetrics, ThreadGoal, ThreadGoalStatus,
};
use crate::goal_accounting::{
    GoalAccountingSnapshot, GoalTurnAccountingSnapshot, GoalWallClockAccountingSnapshot,
};
use crate::goal_activity::ContinuationActivity;
use crate::goal_charge::{ChargeEvent, ProgressStage, UsageLimitStage, WallClockStage};
use crate::goal_progress::{
    account_thread_goal_before_external_mutation, ExternalMutationAccounting,
    GoalAccountingOutcome, ProgressCharge, ProgressEffects, UsageLimitEffects, WallClockCharge,
    WallClockEffects,
};
use crate::goal_runtime::{
    goal_runtime_action, goals_apply, BudgetLimitSteering, ExternalSetEffects, GoalRuntimeAction,
    GoalRuntimeEvent, GoalRuntimeState, TerminalMetricEmission,
};
use crate::protocol::ModeKind;
use crate::text::opt_text;
use crate::token_usage::TokenUsage;
use vstd::math::{max, min};
use vstd::prelude::*;

verus! {

// ---------------------------------------------------------------------------
// What stays
// ---------------------------------------------------------------------------

/// Whether the accounting of a turn is as it was.
pub open spec fn turn_kept(
    before: Option<GoalTurnAccountingSnapshot>,
    after: Option<GoalTurnAccountingSnapshot>,
) -> bool {
    &&& before is Some <==> after is Some
    &&& before is Some ==> {
        &&& after->Some_0.turn_id@ == before->Some_0.turn_id@
        &&& after->Some_0.last_accounted_token_usage == before->Some_0.last_accounted_token_usage
        &&& opt_text(after->Some_0.active_goal_id) == opt_text(before->Some_0.active_goal_id)
    }
}

/// Whether a clock is as it was.
pub open spec fn clock_kept(
    before: GoalWallClockAccountingSnapshot,
    after: GoalWallClockAccountingSnapshot,
) -> bool {
    &&& after.last_accounted_at == before.last_accounted_at
    &&& opt_text(after.active_goal_id) == opt_text(before.active_goal_id)
}

/// Whether what is remembered of orchestration and of continuations is as it was.
pub open spec fn memory_kept(before: GoalRuntimeState, after: GoalRuntimeState) -> bool {
    &&& opt_text(after.auto_armed_orchestration_goal_id) == opt_text(
        before.auto_armed_orchestration_goal_id,
    )
    &&& opt_text(after.orchestration_answer_emitted_goal_id) == opt_text(
        before.orchestration_answer_emitted_goal_id,
    )
    &&& opt_text(after.continuation.turn_id) == opt_text(before.continuation.turn_id)
    &&& after.continuation.active == before.continuation.active
    &&& after.continuation.suppressed == before.continuation.suppressed
}

/// Whether what was reported of an exhausted budget is as it was.
pub open spec fn report_kept(before: GoalRuntimeState, after: GoalRuntimeState) -> bool {
    opt_text(after.budget_limit_reported_goal_id) == opt_text(before.budget_limit_reported_goal_id)
}

/// Whether a published goal is a stored one.
pub open spec fn publishes(stored: StateGoal, goal: ThreadGoal) -> bool {
    &&& goal.thread_id == stored.thread_id
    &&& goal.objective@ == stored.objective@
    &&& goal.token_budget == stored.token_budget
    &&& goal.tokens_used == stored.tokens_used
    &&& goal.time_used_seconds == stored.time_used_seconds
    &&& goal.created_at == stored.created_at
    &&& goal.updated_at == stored.updated_at
    &&& goal.status is Active <==> stored.status is Active
    &&& goal.status is Paused <==> stored.status is Paused
    &&& goal.status is Blocked <==> stored.status is Blocked
    &&& goal.status is UsageLimited <==> stored.status is UsageLimited
    &&& goal.status is BudgetLimited <==> stored.status is BudgetLimited
    &&& goal.status is Complete <==> stored.status is Complete
}

/// Whether what is measured is a goal that came to rest by a change of its status.
pub open spec fn measures(
    previous: Option<StateGoalStatus>,
    goal: StateGoal,
    metrics: Option<TerminalMetrics>,
) -> bool {
    &&& metrics is Some <==> previous != Some(goal.status) && !(goal.status is Active) && !(
    goal.status is Paused)
    &&& metrics matches Some(measured) ==> {
        &&& measured.status == goal.status
        &&& measured.tokens_used == goal.tokens_used
        &&& measured.time_used_seconds == goal.time_used_seconds
        &&& measured.counter is Blocked <==> goal.status is Blocked
        &&& measured.counter is UsageLimited <==> goal.status is UsageLimited
        &&& measured.counter is BudgetLimited <==> goal.status is BudgetLimited
        &&& measured.counter is Completed <==> goal.status is Complete
    }
}

// ---------------------------------------------------------------------------
// Accounting
// ---------------------------------------------------------------------------

/// A clock owes the whole seconds since it was accounted, and moves on by what it was charged,
/// so that the rest of a second is owed later.
pub proof fn lemma_clock_moves_by_what_it_charges(
    clock: &mut GoalWallClockAccountingSnapshot,
    before: GoalWallClockAccountingSnapshot,
    now: u128,
    seconds: i64,
    owed: i64,
)
    requires
        call_ensures(
            GoalWallClockAccountingSnapshot::time_delta_since_last_accounting,
            (&before, now),
            owed,
        ),
        call_ensures(GoalWallClockAccountingSnapshot::mark_accounted, (clock, seconds, now), ()),
    ensures
        owed == min(i64::MAX as int, max(0, now - before.last_accounted_at) / 1_000_000_000),
        opt_text(final(clock).active_goal_id) == opt_text(old(clock).active_goal_id),
        seconds <= 0 ==> final(clock).last_accounted_at == old(clock).last_accounted_at,
        seconds > 0 && old(clock).last_accounted_at + seconds * 1_000_000_000
            <= 9_223_372_036_854_775_807_999_999_999 ==> final(clock).last_accounted_at == old(clock).last_accounted_at + seconds * 1_000_000_000,
        seconds > 0 && old(clock).last_accounted_at + seconds * 1_000_000_000
            > 9_223_372_036_854_775_807_999_999_999 ==> final(clock).last_accounted_at == now,
{
}

/// The clock of a goal runs on where it is asked for the same goal, and starts anew for
/// another; stopping it forgets the goal.
pub proof fn lemma_clock_follows_its_goal(
    clock: &mut GoalWallClockAccountingSnapshot,
    other: &mut GoalWallClockAccountingSnapshot,
    goal_id: String,
    now: u128,
    fresh: GoalWallClockAccountingSnapshot,
)
    requires
        call_ensures(GoalWallClockAccountingSnapshot::mark_active_goal, (clock, goal_id, now), ()),
        call_ensures(GoalWallClockAccountingSnapshot::clear_active_goal, (other, now), ()),
        call_ensures(GoalWallClockAccountingSnapshot::new, (now,), fresh),
    ensures
        opt_text(final(clock).active_goal_id) == Some(goal_id@),
        final(clock).last_accounted_at == if opt_text(old(clock).active_goal_id) == Some(
            goal_id@,
        ) {
            old(clock).last_accounted_at
        } else {
            now
        },
        final(other).active_goal_id is None,
        final(other).last_accounted_at == now,
        fresh.active_goal_id is None,
        fresh.last_accounted_at == now,
{
}

/// A turn begins charged to no goal, owes the fresh input and the output since it was
/// accounted, and nothing more once it was accounted up to the same usage.
pub proof fn lemma_turn_owes_since_it_was_accounted(
    turn_id: String,
    usage: TokenUsage,
    current: TokenUsage,
    fresh: GoalTurnAccountingSnapshot,
    owed: i64,
    turn: &mut GoalTurnAccountingSnapshot,
)
    requires
        call_ensures(GoalTurnAccountingSnapshot::new, (turn_id, usage), fresh),
        call_ensures(
            GoalTurnAccountingSnapshot::token_delta_since_last_accounting,
            (&fresh, &current),
            owed,
        ),
        call_ensures(GoalTurnAccountingSnapshot::mark_accounted, (turn, current), ()),
    ensures
        fresh.turn_id@ == turn_id@,
        fresh.last_accounted_token_usage == usage,
        fresh.active_goal_id is None,
        ({
            let clamp = |n: int| max(i64::MIN as int, min(i64::MAX as int, n));
            let input = clamp(current.input_tokens - usage.input_tokens);
            let cached = clamp(current.cached_input_tokens - usage.cached_input_tokens);
            let output = clamp(current.output_tokens - usage.output_tokens);
            owed == min(i64::MAX as int, max(0, input - max(0, cached)) + max(0, output))
        }),
        final(turn).last_accounted_token_usage == current,
        final(turn).turn_id@ == old(turn).turn_id@,
        opt_text(final(turn).active_goal_id) == opt_text(old(turn).active_goal_id),
{
}

/// An active goal is charged with the given turn from its present usage on, and with the
/// clock; without a turn the turn at hand stays as it is.
pub proof fn lemma_active_goal_is_accounted(
    accounting: &mut GoalAccountingSnapshot,
    goal_id: &str,
    turn_id: Option<String>,
    usage: TokenUsage,
    now: u128,
)
    requires
        call_ensures(
            GoalAccountingSnapshot::mark_active_goal,
            (accounting, goal_id, turn_id, usage, now),
            (),
        ),
    ensures
        turn_id is None ==> turn_kept(old(accounting).turn, final(accounting).turn),
        turn_id is Some ==> final(accounting).turn is Some && {
            let turn = final(accounting).turn->Some_0;
            &&& turn.turn_id@ == turn_id->Some_0@
            &&& turn.last_accounted_token_usage == usage
            &&& opt_text(turn.active_goal_id) == Some(goal_id@)
        },
        opt_text(final(accounting).wall_clock.active_goal_id) == Some(goal_id@),
        final(accounting).wall_clock.last_accounted_at == if opt_text(
            old(accounting).wall_clock.active_goal_id,
        ) == Some(goal_id@) {
            old(accounting).wall_clock.last_accounted_at
        } else {
            now
        },
{
}

/// Stopping a goal takes it off the clock and off the turn: off any turn, or off the given one
/// alone. The end of a turn takes that turn away, and no other.
pub proof fn lemma_stopped_goal_is_accounted_no_more(
    any: &mut GoalAccountingSnapshot,
    own: &mut GoalAccountingSnapshot,
    ended: &mut GoalAccountingSnapshot,
    turn_id: &str,
    now: u128,
)
    requires
        call_ensures(GoalAccountingSnapshot::stop, (any, now), ()),
        call_ensures(GoalAccountingSnapshot::clear_active_goal, (own, turn_id, now), ()),
        call_ensures(GoalAccountingSnapshot::end_turn, (ended, turn_id), ()),
    ensures
        final(any).wall_clock.active_goal_id is None,
        final(any).wall_clock.last_accounted_at == now,
        final(any).turn is Some <==> old(any).turn is Some,
        final(any).turn is Some ==> {
            &&& final(any).turn->Some_0.active_goal_id is None
            &&& final(any).turn->Some_0.turn_id@ == old(any).turn->Some_0.turn_id@
            &&& final(any).turn->Some_0.last_accounted_token_usage
                == old(any).turn->Some_0.last_accounted_token_usage
        },
        final(own).wall_clock.active_goal_id is None,
        final(own).wall_clock.last_accounted_at == now,
        if old(own).turn is Some && old(own).turn->Some_0.turn_id@ == turn_id@ {
            &&& final(own).turn is Some
            &&& final(own).turn->Some_0.active_goal_id is None
            &&& final(own).turn->Some_0.turn_id@ == turn_id@
            &&& final(own).turn->Some_0.last_accounted_token_usage
                == old(own).turn->Some_0.last_accounted_token_usage
        } else {
            turn_kept(old(own).turn, final(own).turn)
        },
        clock_kept(old(ended).wall_clock, final(ended).wall_clock),
        if old(ended).turn is Some && old(ended).turn->Some_0.turn_id@ == turn_id@ {
            final(ended).turn is None
        } else {
            turn_kept(old(ended).turn, final(ended).turn)
        },
{
}

// ---------------------------------------------------------------------------
// Charges that the store answered
// ---------------------------------------------------------------------------

/// What the store answers a charge. Where it charged the goal, the turn is accounted up to the
/// usage of the charge and the clock up to its seconds; a goal that is charged no further
/// leaves the turn and the clock. That is one that came to rest, or whose budget is exhausted
/// where the model may not be told. Where nothing was charged nothing changes.
pub proof fn lemma_charged_turn_is_accounted(
    state: &mut GoalRuntimeState,
    turn_id: &str,
    charge: ProgressCharge,
    outcome: GoalAccountingOutcome,
    previous: Option<StateGoalStatus>,
    steering: BudgetLimitSteering,
    emission: TerminalMetricEmission,
    now: u128,
    result: Option<ProgressEffects>,
)
    requires
        call_ensures(
            GoalRuntimeState::account_thread_goal_progress,
            (state, turn_id, &charge, outcome, previous, steering, emission, now),
            result,
        ),
    ensures
        memory_kept(*old(state), *final(state)),
        result is Some <==> outcome is Updated,
        outcome is Unchanged ==> {
            &&& turn_kept(old(state).accounting.turn, final(state).accounting.turn)
            &&& clock_kept(old(state).accounting.wall_clock, final(state).accounting.wall_clock)
            &&& report_kept(*old(state), *final(state))
        },
        outcome matches GoalAccountingOutcome::Updated(goal) ==> {
            let before = old(state).accounting;
            let after = final(state).accounting;
            let own = before.turn is Some && before.turn->Some_0.turn_id@ == turn_id@;
            let ends = match goal.status {
                StateGoalStatus::Active => false,
                StateGoalStatus::BudgetLimited => steering == BudgetLimitSteering::Suppressed,
                _ => true,
            };
            let moved = before.wall_clock.last_accounted_at + max(
                0,
                charge.time_delta_seconds as int,
            ) * 1_000_000_000;
            &&& !own ==> turn_kept(before.turn, after.turn)
            &&& own ==> {
                &&& after.turn is Some
                &&& after.turn->Some_0.turn_id@ == turn_id@
                &&& after.turn->Some_0.last_accounted_token_usage == charge.current_token_usage
                &&& opt_text(after.turn->Some_0.active_goal_id) == if ends {
                    None
                } else {
                    opt_text(before.turn->Some_0.active_goal_id)
                }
            }
            &&& ends ==> after.wall_clock.active_goal_id is None
                && after.wall_clock.last_accounted_at == now
            &&& !ends ==> opt_text(after.wall_clock.active_goal_id) == opt_text(
                before.wall_clock.active_goal_id,
            )
            &&& !ends && moved <= 9_223_372_036_854_775_807_999_999_999
                ==> after.wall_clock.last_accounted_at == moved
            &&& !ends && charge.time_delta_seconds > 0 && moved
                > 9_223_372_036_854_775_807_999_999_999 ==> after.wall_clock.last_accounted_at
                == now
            &&& publishes(goal, result->Some_0.goal)
            &&& emission == TerminalMetricEmission::Emit ==> measures(
                previous,
                goal,
                result->Some_0.terminal_metrics,
            )
            &&& emission == TerminalMetricEmission::Suppress
                ==> result->Some_0.terminal_metrics is None
        },
{
}

/// The model is told of an exhausted budget where it may be and was not told of this goal
/// before. A goal that is not exhausted makes it be told again next time.
pub proof fn lemma_model_is_told_of_exhausted_budget(
    state: &mut GoalRuntimeState,
    turn_id: &str,
    charge: ProgressCharge,
    goal: StateGoal,
    previous: Option<StateGoalStatus>,
    steering: BudgetLimitSteering,
    emission: TerminalMetricEmission,
    now: u128,
    result: Option<ProgressEffects>,
    told: &mut GoalRuntimeState,
    told_goal: String,
)
    requires
        call_ensures(
            GoalRuntimeState::account_thread_goal_progress,
            (
                state,
                turn_id,
                &charge,
                GoalAccountingOutcome::Updated(goal),
                previous,
                steering,
                emission,
                now,
            ),
            result,
        ),
        call_ensures(GoalRuntimeState::budget_limit_steered, (told, told_goal), ()),
    ensures
        result is Some,
        result->Some_0.steer_goal_id is Some <==> steering == BudgetLimitSteering::Allowed
            && goal.status is BudgetLimited && opt_text(old(state).budget_limit_reported_goal_id)
            != Some(charge.expected_goal_id@),
        result->Some_0.steer_goal_id is Some ==> result->Some_0.steer_goal_id->Some_0@
            == goal.goal_id@,
        goal.status is BudgetLimited ==> report_kept(*old(state), *final(state)),
        !(goal.status is BudgetLimited) ==> final(state).budget_limit_reported_goal_id is None,
        opt_text(final(told).budget_limit_reported_goal_id) == Some(told_goal@),
        memory_kept(*old(told), *final(told)),
        turn_kept(old(told).accounting.turn, final(told).accounting.turn),
        clock_kept(old(told).accounting.wall_clock, final(told).accounting.wall_clock),
{
}

/// The clock alone is charged with its whole seconds, to the goal that it runs for; nothing is
/// charged where no whole second passed.
pub proof fn lemma_clock_alone_is_charged(
    state: GoalRuntimeState,
    now: u128,
    result: Option<WallClockCharge>,
)
    requires
        call_ensures(GoalRuntimeState::begin_wall_clock, (&state, now), result),
    ensures
        ({
            let elapsed = max(0, now - state.accounting.wall_clock.last_accounted_at);
            &&& result is Some <==> elapsed >= 1_000_000_000
            &&& result matches Some(charge) ==> {
                &&& charge.time_delta_seconds == min(i64::MAX as int, elapsed / 1_000_000_000)
                &&& opt_text(charge.expected_goal_id) == opt_text(
                    state.accounting.wall_clock.active_goal_id,
                )
            }
        }),
{
}

/// What the store answers a charge of the clock: where it charged, the clock moves on by the
/// seconds; where it did not, the clock stops. The turn stays as it is, and a goal that is
/// there is announced.
pub proof fn lemma_charged_clock_is_accounted(
    state: &mut GoalRuntimeState,
    charge: WallClockCharge,
    outcome: GoalAccountingOutcome,
    previous: Option<StateGoalStatus>,
    emission: TerminalMetricEmission,
    now: u128,
    result: WallClockEffects,
)
    requires
        call_ensures(
            GoalRuntimeState::account_thread_goal_wall_clock_usage,
            (state, &charge, outcome, previous, emission, now),
            result,
        ),
    ensures
        memory_kept(*old(state), *final(state)),
        report_kept(*old(state), *final(state)),
        turn_kept(old(state).accounting.turn, final(state).accounting.turn),
        outcome is Unchanged ==> {
            &&& final(state).accounting.wall_clock.active_goal_id is None
            &&& final(state).accounting.wall_clock.last_accounted_at == now
            &&& result.terminal_metrics is None
        },
        outcome matches GoalAccountingOutcome::Unchanged(stored) ==> {
            &&& stored is None <==> result.goal is None
            &&& stored is Some ==> publishes(stored->Some_0, result.goal->Some_0)
        },
        outcome matches GoalAccountingOutcome::Updated(goal) ==> {
            let before = old(state).accounting.wall_clock;
            let after = final(state).accounting.wall_clock;
            let moved = before.last_accounted_at + max(0, charge.time_delta_seconds as int)
                * 1_000_000_000;
            &&& opt_text(after.active_goal_id) == opt_text(before.active_goal_id)
            &&& moved <= 9_223_372_036_854_775_807_999_999_999 ==> after.last_accounted_at == moved
            &&& result.goal is Some && publishes(goal, result.goal->Some_0)
            &&& emission == TerminalMetricEmission::Emit ==> measures(
                previous,
                goal,
                result.terminal_metrics,
            )
            &&& emission == TerminalMetricEmission::Suppress ==> result.terminal_metrics is None
        },
{
}

/// Before a goal is changed from outside, the turn at hand is charged for what it used, where
/// there is one, and else the clock; the model is told nothing by it.
pub proof fn lemma_accounted_before_a_change_from_outside(
    turn_active: bool,
    result: ExternalMutationAccounting,
)
    requires
        call_ensures(account_thread_goal_before_external_mutation, (turn_active,), result),
    ensures
        turn_active <==> result is Progress,
        result matches ExternalMutationAccounting::Progress { steering, emission } ==> steering
            == BudgetLimitSteering::Suppressed && emission == TerminalMetricEmission::Emit,
        result matches ExternalMutationAccounting::WallClock { mode, emission } ==> emission
            == TerminalMetricEmission::Suppress,
{
}

/// A usage limit takes the goal that it stopped off the turn and off the clock; where it
/// stopped none nothing changes.
pub proof fn lemma_usage_limit_stops_the_goal(
    state: &mut GoalRuntimeState,
    turn_id: &str,
    stopped: Option<StateGoal>,
    previous: Option<StateGoalStatus>,
    now: u128,
    result: Option<UsageLimitEffects>,
)
    requires
        call_ensures(
            GoalRuntimeState::usage_limit_active_thread_goal_for_turn,
            (state, turn_id, stopped, previous, now),
            result,
        ),
    ensures
        memory_kept(*old(state), *final(state)),
        result is Some <==> stopped is Some,
        stopped is None ==> {
            &&& turn_kept(old(state).accounting.turn, final(state).accounting.turn)
            &&& clock_kept(old(state).accounting.wall_clock, final(state).accounting.wall_clock)
            &&& report_kept(*old(state), *final(state))
        },
        stopped matches Some(goal) ==> {
            let before = old(state).accounting.turn;
            let after = final(state).accounting.turn;
            &&& publishes(goal, result->Some_0.goal)
            &&& measures(previous, goal, result->Some_0.terminal_metrics)
            &&& final(state).budget_limit_reported_goal_id is None
            &&& final(state).accounting.wall_clock.active_goal_id is None
            &&& final(state).accounting.wall_clock.last_accounted_at == now
            &&& if before is Some && before->Some_0.turn_id@ == turn_id@ {
                &&& after is Some
                &&& after->Some_0.active_goal_id is None
                &&& after->Some_0.turn_id@ == turn_id@
                &&& after->Some_0.last_accounted_token_usage
                    == before->Some_0.last_accounted_token_usage
            } else {
                turn_kept(before, after)
            }
        },
{
}

// ---------------------------------------------------------------------------
// The order of a charge
// ---------------------------------------------------------------------------

/// The progress of a turn is charged where goals apply and the thread has a store: it is
/// measured, the goal is read for its status before, and then it is charged what is due. Where
/// nothing is due it ends there.
pub proof fn lemma_progress_is_charged_in_order(
    enabled: bool,
    mode: ModeKind,
    started: ProgressStage,
    stage: ProgressStage,
    event: ChargeEvent,
    state: GoalRuntimeState,
    turn_id: &str,
    result: ProgressStage,
)
    requires
        call_ensures(ProgressStage::start, (enabled, mode), started),
        call_ensures(ProgressStage::next, (stage, event, &state, turn_id), result),
    ensures
        started is OpenStore <==> enabled && mode != ModeKind::Plan,
        started is OpenStore || started is Nothing,
        stage is OpenStore ==> (event matches ChargeEvent::Store { present } ==> if present {
            result is Measure
        } else {
            result is Nothing
        }),
        stage matches ProgressStage::ReadGoal { charge } ==> (event matches ChargeEvent::Goal(goal)
            ==> (result matches ProgressStage::Charge { charge: same, previous_status } && same
            == charge && previous_status == if goal is Some && goal->Some_0.goal_id@
            == charge.expected_goal_id@ {
            Some(goal->Some_0.status)
        } else {
            None
        })),
        event is Failed && (stage is OpenStore || stage is Measure || stage is ReadGoal)
            ==> result is Failed,
        stage is Charge || stage is Nothing || stage is Failed ==> result == stage,
{
}

/// What is measured is what is charged.
pub proof fn lemma_measured_progress_is_charged(
    state: GoalRuntimeState,
    turn_id: &str,
    usage: Option<TokenUsage>,
    now: u128,
    due: Option<ProgressCharge>,
    result: ProgressStage,
)
    requires
        call_ensures(GoalRuntimeState::begin_progress, (&state, turn_id, usage, now), due),
        call_ensures(
            ProgressStage::next,
            (
                ProgressStage::Measure,
                ChargeEvent::Measured { token_usage: usage, now },
                &state,
                turn_id,
            ),
            result,
        ),
    ensures
        due is None ==> result is Nothing,
        due is Some ==> (result matches ProgressStage::ReadGoal { charge } && {
            &&& charge.token_delta == due->Some_0.token_delta
            &&& charge.time_delta_seconds == due->Some_0.time_delta_seconds
            &&& charge.expected_goal_id@ == due->Some_0.expected_goal_id@
            &&& charge.current_token_usage == due->Some_0.current_token_usage
        }),
{
}

/// The clock is charged in the same order, with what it owes.
pub proof fn lemma_clock_is_charged_in_order(
    stage: WallClockStage,
    event: ChargeEvent,
    state: GoalRuntimeState,
    now: u128,
    usage: Option<TokenUsage>,
    due: Option<WallClockCharge>,
    measured: WallClockStage,
    result: WallClockStage,
)
    requires
        call_ensures(WallClockStage::next, (stage, event, &state), result),
        call_ensures(
            WallClockStage::next,
            (
                WallClockStage::Measure,
                ChargeEvent::Measured { token_usage: usage, now },
                &state,
            ),
            measured,
        ),
        call_ensures(GoalRuntimeState::begin_wall_clock, (&state, now), due),
    ensures
        due is None ==> measured is Nothing,
        due is Some ==> (measured matches WallClockStage::ReadGoal { charge } && {
            &&& charge.time_delta_seconds == due->Some_0.time_delta_seconds
            &&& opt_text(charge.expected_goal_id) == opt_text(due->Some_0.expected_goal_id)
        }),
        stage matches WallClockStage::ReadGoal { charge } ==> (event matches ChargeEvent::Goal(goal)
            ==> (result matches WallClockStage::Charge { charge: same, previous_status } && same
            == charge && previous_status == if goal is Some && (charge.expected_goal_id is None
            || charge.expected_goal_id->Some_0@ == goal->Some_0.goal_id@) {
            Some(goal->Some_0.status)
        } else {
            None
        })),
        event is Failed && (stage is Measure || stage is ReadGoal) ==> result is Failed,
        stage is Charge || stage is Nothing || stage is Failed ==> result == stage,
{
}

/// At a usage limit the progress is accounted before the goal is read and stopped, where goals
/// apply and the thread has a store.
pub proof fn lemma_usage_limit_in_order(
    enabled: bool,
    mode: ModeKind,
    started: UsageLimitStage,
    stage: UsageLimitStage,
    event: ChargeEvent,
    result: UsageLimitStage,
)
    requires
        call_ensures(UsageLimitStage::start, (enabled, mode), started),
        call_ensures(UsageLimitStage::next, (stage, &event), result),
    ensures
        started is OpenStore <==> enabled && mode != ModeKind::Plan,
        started is OpenStore || started is Nothing,
        stage is OpenStore ==> (event matches ChargeEvent::Store { present } ==> if present {
            result is AccountProgress
        } else {
            result is Nothing
        }),
        stage is AccountProgress && event is ProgressAccounted ==> result is ReadGoal,
        stage is ReadGoal ==> (event matches ChargeEvent::Goal(goal) ==> (
        result matches UsageLimitStage::StopGoal { previous_status } && previous_status
            == if goal is Some {
            Some(goal->Some_0.status)
        } else {
            None
        })),
        event is Failed && (stage is OpenStore || stage is AccountProgress || stage is ReadGoal)
            ==> result is Failed,
        stage is StopGoal || stage is Nothing || stage is Failed ==> result == stage,
        result is StopGoal && !(stage is StopGoal) ==> stage is ReadGoal,
        result is ReadGoal && !(stage is ReadGoal) ==> stage is AccountProgress,
{
}

// ---------------------------------------------------------------------------
// Events
// ---------------------------------------------------------------------------

/// What an event sets off. Only the completion of another tool than that of the goal may tell
/// the model of an exhausted budget; the end of a turn, completed or aborted, accounts it once
/// more and ends it.
pub proof fn lemma_what_an_event_sets_off(event: GoalRuntimeEvent, result: GoalRuntimeAction)
    requires
        call_ensures(goal_runtime_action, (&event,), result),
    ensures
        event is TurnStarted ==> result is MarkTurnStarted,
        event matches GoalRuntimeEvent::ToolCompleted { tool_name } ==> if tool_name@
            == "update_goal"@ {
            result is Nothing
        } else {
            result == (GoalRuntimeAction::AccountProgress {
                steering: BudgetLimitSteering::Allowed,
                emission: TerminalMetricEmission::Emit,
                ends_turn: false,
            })
        },
        event is ToolCompletedGoal ==> result == (GoalRuntimeAction::AccountProgress {
            steering: BudgetLimitSteering::Suppressed,
            emission: TerminalMetricEmission::Suppress,
            ends_turn: false,
        }),
        event == (GoalRuntimeEvent::TurnFinished { turn_completed: true }) || event == (
        GoalRuntimeEvent::TaskAborted { has_turn: true }) ==> result == (
        GoalRuntimeAction::AccountProgress {
            steering: BudgetLimitSteering::Suppressed,
            emission: TerminalMetricEmission::Emit,
            ends_turn: true,
        }),
        event == (GoalRuntimeEvent::TurnFinished { turn_completed: false }) || event == (
        GoalRuntimeEvent::TaskAborted { has_turn: false }) ==> result is Nothing,
        event is MaybeContinueIfIdle <==> result is ContinueIfIdle,
        event is UsageLimitReached <==> result is UsageLimit,
        event is ExternalMutationStarting <==> result is AccountBeforeExternalMutation,
        event is ExternalSet <==> result is ApplyExternalStatus,
        event is ExternalClear <==> result is ClearStopped,
        event is ThreadResumed <==> result is RestoreAfterResume,
{
}

/// A failure is passed on where a tool, a usage limit or a resume set it off.
pub proof fn lemma_which_failures_are_passed_on(action: GoalRuntimeAction, result: bool)
    requires
        call_ensures(GoalRuntimeAction::passes_failure_on, (action,), result),
    ensures
        result <==> action is UsageLimit || action is RestoreAfterResume || (
        action matches GoalRuntimeAction::AccountProgress { steering, emission, ends_turn }
            && !ends_turn),
{
}

/// An event changes nothing but what is remembered of continuations. A counted tool, a change
/// from outside, a resume and the start of another turn lift a suppression; a continuation that
/// is completed without a counted tool brings one about; the end of a continuation forgets its
/// turn.
pub proof fn lemma_event_is_remembered(
    state: &mut GoalRuntimeState,
    event: GoalRuntimeEvent,
    turn_id: Option<&str>,
    action: GoalRuntimeAction,
    result: GoalRuntimeAction,
)
    requires
        call_ensures(GoalRuntimeState::goal_runtime_apply, (state, &event, turn_id), result),
        call_ensures(goal_runtime_action, (&event,), action),
    ensures
        result == action,
        turn_kept(old(state).accounting.turn, final(state).accounting.turn),
        clock_kept(old(state).accounting.wall_clock, final(state).accounting.wall_clock),
        report_kept(*old(state), *final(state)),
        opt_text(final(state).auto_armed_orchestration_goal_id) == opt_text(
            old(state).auto_armed_orchestration_goal_id,
        ),
        opt_text(final(state).orchestration_answer_emitted_goal_id) == opt_text(
            old(state).orchestration_answer_emitted_goal_id,
        ),
        ({
            let before = old(state).continuation;
            let after = final(state).continuation;
            let own = turn_id is Some && opt_text(before.turn_id) == Some(turn_id->Some_0@);
            let counted = event is ToolCompletedGoal || (
            event matches GoalRuntimeEvent::ToolCompleted { tool_name } && tool_name@
                != "update_goal"@);
            let outside = event is ExternalMutationStarting || event is ExternalSet
                || event is ExternalClear || event is ThreadResumed;
            let completed = event == (GoalRuntimeEvent::TurnFinished { turn_completed: true });
            let ended = event is TurnFinished || event is TaskAborted;
            let another = event is TurnStarted && !own;
            &&& after.suppressed <==> if counted || outside || another {
                false
            } else {
                before.suppressed || (own && completed && !before.active)
            }
            &&& opt_text(after.turn_id) == if another || (own && ended) {
                None
            } else {
                opt_text(before.turn_id)
            }
            &&& after.active <==> if another || (own && ended) {
                false
            } else {
                before.active || (own && counted)
            }
        }),
{
}

/// A turn that continues a goal is remembered, and no tool is counted in it yet.
pub proof fn lemma_continuation_is_remembered(
    state: &mut GoalRuntimeState,
    turn_id: &str,
    activity: &mut ContinuationActivity,
)
    requires
        call_ensures(GoalRuntimeState::goal_continuation_started, (state, turn_id), ()),
        call_ensures(ContinuationActivity::continuing, (activity, turn_id), ()),
    ensures
        opt_text(final(state).continuation.turn_id) == Some(turn_id@),
        !final(state).continuation.active,
        final(state).continuation.suppressed == old(state).continuation.suppressed,
        turn_kept(old(state).accounting.turn, final(state).accounting.turn),
        clock_kept(old(state).accounting.wall_clock, final(state).accounting.wall_clock),
        report_kept(*old(state), *final(state)),
        opt_text(final(state).auto_armed_orchestration_goal_id) == opt_text(
            old(state).auto_armed_orchestration_goal_id,
        ),
        opt_text(final(state).orchestration_answer_emitted_goal_id) == opt_text(
            old(state).orchestration_answer_emitted_goal_id,
        ),
        opt_text(final(activity).turn_id) == Some(turn_id@),
        !final(activity).active,
        final(activity).suppressed == old(activity).suppressed,
{
}

// ---------------------------------------------------------------------------
// Turns and goals
// ---------------------------------------------------------------------------

/// A session begins with nothing remembered, and its clock runs for no goal.
pub proof fn lemma_runtime_begins_anew(now: u128, fresh: GoalRuntimeState)
    requires
        call_ensures(GoalRuntimeState::new, (now,), fresh),
    ensures
        fresh.budget_limit_reported_goal_id is None,
        fresh.auto_armed_orchestration_goal_id is None,
        fresh.orchestration_answer_emitted_goal_id is None,
        fresh.accounting.turn is None,
        fresh.accounting.wall_clock.active_goal_id is None,
        fresh.accounting.wall_clock.last_accounted_at == now,
        fresh.continuation.turn_id is None,
        !fresh.continuation.active,
        !fresh.continuation.suppressed,
{
}

/// Goals apply where the feature is on, outside plan mode.
pub proof fn lemma_where_goals_apply(enabled: bool, mode: ModeKind, result: bool)
    requires
        call_ensures(goals_apply, (enabled, mode), result),
    ensures
        result <==> enabled && mode != ModeKind::Plan,
{
}

/// A turn that starts is accounted from its usage on, and charged to no goal yet. The goal is
/// read where goals apply; in plan mode the clock stops.
pub proof fn lemma_turn_starts(
    state: &mut GoalRuntimeState,
    turn_id: &str,
    usage: TokenUsage,
    enabled: bool,
    mode: ModeKind,
    now: u128,
    result: bool,
)
    requires
        call_ensures(
            GoalRuntimeState::mark_thread_goal_turn_started,
            (state, turn_id, usage, enabled, mode, now),
            result,
        ),
    ensures
        result <==> enabled && mode != ModeKind::Plan,
        memory_kept(*old(state), *final(state)),
        report_kept(*old(state), *final(state)),
        final(state).accounting.turn is Some,
        final(state).accounting.turn->Some_0.turn_id@ == turn_id@,
        final(state).accounting.turn->Some_0.last_accounted_token_usage == usage,
        final(state).accounting.turn->Some_0.active_goal_id is None,
        if enabled && mode == ModeKind::Plan {
            &&& final(state).accounting.wall_clock.active_goal_id is None
            &&& final(state).accounting.wall_clock.last_accounted_at == now
        } else {
            clock_kept(old(state).accounting.wall_clock, final(state).accounting.wall_clock)
        },
{
}

/// The goal that is read at the start of a turn is charged with it, and with the clock, where
/// it is active or its budget is exhausted; else the clock stops.
pub proof fn lemma_turn_is_charged_to_its_goal(
    state: &mut GoalRuntimeState,
    turn_id: &str,
    stored: Option<&StateGoal>,
    now: u128,
)
    requires
        call_ensures(GoalRuntimeState::turn_started_with_goal, (state, turn_id, stored, now), ()),
    ensures
        memory_kept(*old(state), *final(state)),
        report_kept(*old(state), *final(state)),
        ({
            let before = old(state).accounting;
            let after = final(state).accounting;
            let own = before.turn is Some && before.turn->Some_0.turn_id@ == turn_id@;
            if stored is Some && (stored->Some_0.status is Active
                || stored->Some_0.status is BudgetLimited) {
                let goal_id = stored->Some_0.goal_id@;
                &&& !own ==> turn_kept(before.turn, after.turn)
                &&& own ==> {
                    &&& after.turn is Some
                    &&& after.turn->Some_0.turn_id@ == turn_id@
                    &&& after.turn->Some_0.last_accounted_token_usage
                        == before.turn->Some_0.last_accounted_token_usage
                    &&& opt_text(after.turn->Some_0.active_goal_id) == Some(goal_id)
                }
                &&& opt_text(after.wall_clock.active_goal_id) == Some(goal_id)
                &&& after.wall_clock.last_accounted_at == if opt_text(
                    before.wall_clock.active_goal_id,
                ) == Some(goal_id) {
                    before.wall_clock.last_accounted_at
                } else {
                    now
                }
            } else {
                &&& turn_kept(before.turn, after.turn)
                &&& after.wall_clock.active_goal_id is None
                &&& after.wall_clock.last_accounted_at == now
            }
        }),
{
}

/// The end of a turn takes that turn out of the accounting, and nothing else changes.
pub proof fn lemma_turn_ends(state: &mut GoalRuntimeState, turn_id: &str)
    requires
        call_ensures(GoalRuntimeState::finish_thread_goal_turn, (state, turn_id), ()),
    ensures
        memory_kept(*old(state), *final(state)),
        report_kept(*old(state), *final(state)),
        clock_kept(old(state).accounting.wall_clock, final(state).accounting.wall_clock),
        if old(state).accounting.turn is Some && old(state).accounting.turn->Some_0.turn_id@
            == turn_id@ {
            final(state).accounting.turn is None
        } else {
            turn_kept(old(state).accounting.turn, final(state).accounting.turn)
        },
{
}

/// Whether a goal was taken out of a state: off the turn at hand and off the clock, and what
/// was reported of its budget is forgotten.
pub open spec fn goal_taken_out(before: GoalRuntimeState, after: GoalRuntimeState, now: u128) -> bool {
    &&& after.budget_limit_reported_goal_id is None
    &&& after.accounting.wall_clock.active_goal_id is None
    &&& after.accounting.wall_clock.last_accounted_at == now
    &&& after.accounting.turn is Some <==> before.accounting.turn is Some
    &&& after.accounting.turn is Some ==> {
        &&& after.accounting.turn->Some_0.active_goal_id is None
        &&& after.accounting.turn->Some_0.turn_id@ == before.accounting.turn->Some_0.turn_id@
        &&& after.accounting.turn->Some_0.last_accounted_token_usage
            == before.accounting.turn->Some_0.last_accounted_token_usage
    }
}

/// A goal that was stopped or cleared is taken out.
pub proof fn lemma_stopped_goal_is_taken_out(state: &mut GoalRuntimeState, now: u128)
    requires
        call_ensures(
            GoalRuntimeState::clear_stopped_thread_goal_runtime_state,
            (state, now),
            (),
        ),
    ensures
        memory_kept(*old(state), *final(state)),
        goal_taken_out(*old(state), *final(state), now),
{
}

/// When a thread is resumed, the clock of an active goal runs; any other goal is taken out.
pub proof fn lemma_resumed_thread(
    state: &mut GoalRuntimeState,
    stored: Option<&StateGoal>,
    now: u128,
    result: bool,
)
    requires
        call_ensures(
            GoalRuntimeState::restore_thread_goal_runtime_after_resume,
            (state, stored, now),
            result,
        ),
    ensures
        memory_kept(*old(state), *final(state)),
        result <==> stored is Some && stored->Some_0.status is Active,
        !result ==> goal_taken_out(*old(state), *final(state), now),
        result ==> {
            let before = old(state).accounting.wall_clock;
            let after = final(state).accounting.wall_clock;
            &&& turn_kept(old(state).accounting.turn, final(state).accounting.turn)
            &&& report_kept(*old(state), *final(state))
            &&& opt_text(after.active_goal_id) == Some(stored->Some_0.goal_id@)
            &&& after.last_accounted_at == if opt_text(before.active_goal_id) == Some(
                stored->Some_0.goal_id@,
            ) {
                before.last_accounted_at
            } else {
                now
            }
        },
{
}

/// A goal that was changed from outside: an active one is accounted from now on, and continued
/// where the session is idle; an exhausted one is taken out where no turn is at hand; any other
/// is taken out. What is counted and what the model is told follows from the goal before.
pub proof fn lemma_goal_changed_from_outside(
    state: &mut GoalRuntimeState,
    set: ExternalGoalSet,
    active_turn_id: Option<String>,
    usage: Option<TokenUsage>,
    now: u128,
    result: ExternalSetEffects,
)
    requires
        call_ensures(
            GoalRuntimeState::apply_external_thread_goal_status,
            (state, set, active_turn_id, usage, now),
            result,
        ),
    ensures
        memory_kept(*old(state), *final(state)),
        ({
            let goal = set.goal;
            let same = set.previous_status matches ExternalGoalPreviousStatus::Existing(previous)
                && previous.goal_id@ == goal.goal_id@;
            let before = if same {
                Some(set.previous_status->Existing_0.status)
            } else {
                None
            };
            let reworded = set.previous_status matches ExternalGoalPreviousStatus::Existing(previous)
                && previous.objective@ != goal.objective@;
            &&& result.created <==> !same
            &&& result.resumed <==> goal.status is Active && before is Some && (
            before->Some_0 is Paused || before->Some_0 is Blocked || before->Some_0 is UsageLimited)
            &&& measures(before, goal, result.terminal_metrics)
            &&& result.steering_goal is Some <==> goal.status is Active && reworded
            &&& result.steering_goal is Some ==> publishes(goal, result.steering_goal->Some_0)
            &&& result.continue_if_idle <==> goal.status is Active
            &&& goal.status is BudgetLimited && active_turn_id is Some ==> {
                &&& turn_kept(old(state).accounting.turn, final(state).accounting.turn)
                &&& clock_kept(
                    old(state).accounting.wall_clock,
                    final(state).accounting.wall_clock,
                )
                &&& report_kept(*old(state), *final(state))
            }
            &&& !(goal.status is Active) && !(goal.status is BudgetLimited
                && active_turn_id is Some) ==> goal_taken_out(*old(state), *final(state), now)
            &&& goal.status is Active ==> {
                let after = final(state).accounting;
                let clock = old(state).accounting.wall_clock;
                &&& report_kept(*old(state), *final(state))
                &&& active_turn_id is None ==> turn_kept(old(state).accounting.turn, after.turn)
                &&& active_turn_id is Some ==> {
                    &&& after.turn is Some
                    &&& after.turn->Some_0.turn_id@ == active_turn_id->Some_0@
                    &&& opt_text(after.turn->Some_0.active_goal_id) == Some(goal.goal_id@)
                    &&& usage is Some ==> after.turn->Some_0.last_accounted_token_usage
                        == usage->Some_0
                    &&& usage is None ==> after.turn->Some_0.last_accounted_token_usage == (
                    TokenUsage {
                        input_tokens: 0,
                        cached_input_tokens: 0,
                        output_tokens: 0,
                        reasoning_output_tokens: 0,
                        total_tokens: 0,
                    })
                }
                &&& opt_text(after.wall_clock.active_goal_id) == Some(goal.goal_id@)
                &&& after.wall_clock.last_accounted_at == if opt_text(clock.active_goal_id) == Some(
                    goal.goal_id@,
                ) {
                    clock.last_accounted_at
                } else {
                    now
                }
            }
        }),
{
}

/// The goal that an orchestrator set up for itself is remembered, where one was read; engaging
/// a child again forgets that an answer was given. Nothing else changes.
pub proof fn lemma_orchestration_is_remembered(
    state: &mut GoalRuntimeState,
    stored: Option<&StateGoal>,
    engaged: &mut GoalRuntimeState,
    flag: Option<&mut bool>,
)
    requires
        call_ensures(GoalRuntimeState::mark_auto_armed_orchestration_goal, (state, stored), ()),
        call_ensures(GoalRuntimeState::mark_reengaged_child_this_turn, (engaged, flag), ()),
    ensures
        opt_text(final(state).auto_armed_orchestration_goal_id) == if stored is Some {
            Some(stored->Some_0.goal_id@)
        } else {
            opt_text(old(state).auto_armed_orchestration_goal_id)
        },
        opt_text(final(state).orchestration_answer_emitted_goal_id) == opt_text(
            old(state).orchestration_answer_emitted_goal_id,
        ),
        turn_kept(old(state).accounting.turn, final(state).accounting.turn),
        clock_kept(old(state).accounting.wall_clock, final(state).accounting.wall_clock),
        report_kept(*old(state), *final(state)),
        final(state).continuation.suppressed == old(state).continuation.suppressed,
        final(engaged).orchestration_answer_emitted_goal_id is None,
        opt_text(final(engaged).auto_armed_orchestration_goal_id) == opt_text(
            old(engaged).auto_armed_orchestration_goal_id,
        ),
        turn_kept(old(engaged).accounting.turn, final(engaged).accounting.turn),
        clock_kept(old(engaged).accounting.wall_clock, final(engaged).accounting.wall_clock),
        report_kept(*old(engaged), *final(engaged)),
        final(engaged).continuation.suppressed == old(engaged).continuation.suppressed,
        flag matches Some(set) ==> *final(set),
{
}

/// The accounting of a turn is set part by part: the goal and the usage, each for itself.
pub proof fn lemma_turn_is_set_part_by_part(
    marked: &mut GoalTurnAccountingSnapshot,
    cleared: &mut GoalTurnAccountingSnapshot,
    reset: &mut GoalTurnAccountingSnapshot,
    turn: GoalTurnAccountingSnapshot,
    accounting: GoalAccountingSnapshot,
    goal_id: String,
    turn_id: &str,
    usage: TokenUsage,
    active: bool,
    at_hand: bool,
)
    requires
        call_ensures(GoalTurnAccountingSnapshot::mark_active_goal, (marked, goal_id), ()),
        call_ensures(GoalTurnAccountingSnapshot::clear_active_goal, (cleared,), ()),
        call_ensures(GoalTurnAccountingSnapshot::reset_baseline, (reset, usage), ()),
        call_ensures(GoalTurnAccountingSnapshot::active_this_turn, (&turn,), active),
        call_ensures(GoalAccountingSnapshot::accounts, (&accounting, turn_id), at_hand),
    ensures
        opt_text(final(marked).active_goal_id) == Some(goal_id@),
        final(marked).turn_id@ == old(marked).turn_id@,
        final(marked).last_accounted_token_usage == old(marked).last_accounted_token_usage,
        final(cleared).active_goal_id is None,
        final(cleared).turn_id@ == old(cleared).turn_id@,
        final(cleared).last_accounted_token_usage == old(cleared).last_accounted_token_usage,
        final(reset).last_accounted_token_usage == usage,
        final(reset).turn_id@ == old(reset).turn_id@,
        opt_text(final(reset).active_goal_id) == opt_text(old(reset).active_goal_id),
        active <==> turn.active_goal_id is Some,
        at_hand <==> accounting.turn is Some && accounting.turn->Some_0.turn_id@ == turn_id@,
{
}

/// What is remembered of continuations follows the events alone.
pub proof fn lemma_activity_follows_events(
    activity: &mut ContinuationActivity,
    event: GoalRuntimeEvent,
    turn_id: Option<&str>,
)
    requires
        call_ensures(ContinuationActivity::observe, (activity, &event, turn_id), ()),
    ensures
        ({
            let before = *old(activity);
            let after = *final(activity);
            let own = turn_id is Some && opt_text(before.turn_id) == Some(turn_id->Some_0@);
            let counted = event is ToolCompletedGoal || (
            event matches GoalRuntimeEvent::ToolCompleted { tool_name } && tool_name@
                != "update_goal"@);
            let outside = event is ExternalMutationStarting || event is ExternalSet
                || event is ExternalClear || event is ThreadResumed;
            let another = event is TurnStarted && !own;
            let ended = own && (event is TurnFinished || event is TaskAborted);
            &&& after.suppressed <==> !counted && !outside && !another && (before.suppressed || (own
                && event == (GoalRuntimeEvent::TurnFinished { turn_completed: true })
                && !before.active))
            &&& opt_text(after.turn_id) == if another || ended {
                None
            } else {
                opt_text(before.turn_id)
            }
            &&& after.active <==> !another && !ended && (before.active || (own && counted))
        }),
{
}

/// What is kept of a goal that is changed from outside is the goal as it was.
pub proof fn lemma_goal_before_a_change(
    goal: StateGoal,
    kept: ExternalGoalPreviousGoal,
    previous: ExternalGoalPreviousStatus,
)
    requires
        call_ensures(<ExternalGoalPreviousGoal as From<&StateGoal>>::from, (&goal,), kept),
        call_ensures(<ExternalGoalPreviousStatus as From<&StateGoal>>::from, (&goal,), previous),
    ensures
        kept.goal_id@ == goal.goal_id@ && kept.status == goal.status && kept.objective@
            == goal.objective@,
        previous matches ExternalGoalPreviousStatus::Existing(same) && same.goal_id@
            == goal.goal_id@ && same.status == goal.status && same.objective@ == goal.objective@,
{
}

} // verus!
