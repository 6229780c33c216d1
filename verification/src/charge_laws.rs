//! What the charging of tokens and seconds promises its callers, in terms of what goes into
//! an operation and what comes out of it.

use crate::child_token_budget::{
    child_token_spend, ChildTokenBudgetAction, ChildTokenBudgetRuntimeState, ExhaustionPhase,
};
use crate::goal_progress::ProgressCharge;
use crate::goal_runtime::{usage_or_default, GoalRuntimeState};
use crate::token_usage::{
    at_least_zero, goal_token_delta_for_usage, saturating_difference, saturating_sum, TokenUsage,
};
use vstd::math::{max, min};
use vstd::prelude::*;

verus! {

// ---------------------------------------------------------------------------
// Tokens
// ---------------------------------------------------------------------------

/// A goal is charged what was read afresh and what was written. Input from a cache is free,
/// reasoning is not charged on top of the output that it is part of, and no count that is
/// negative is charged.
pub proof fn lemma_goal_pays_fresh_input_and_output(usage: TokenUsage, result: i64)
    requires
        call_ensures(goal_token_delta_for_usage, (&usage,), result),
    ensures
        result == min(
            i64::MAX as int,
            max(0, usage.input_tokens - max(0, usage.cached_input_tokens as int)) + max(
                0,
                usage.output_tokens as int,
            ),
        ),
{
}

/// A child is charged its reasoning besides what a goal is charged.
pub proof fn lemma_child_pays_for_reasoning(usage: TokenUsage, result: i64)
    requires
        call_ensures(child_token_spend, (&usage,), result),
    ensures
        result == min(
            i64::MAX as int,
            max(0, usage.input_tokens - max(0, usage.cached_input_tokens as int)) + max(
                0,
                usage.output_tokens as int,
            ) + max(0, usage.reasoning_output_tokens as int),
        ),
{
}

// ---------------------------------------------------------------------------
// The progress of a turn
// ---------------------------------------------------------------------------

/// A turn owes its goal the fresh input and the output since it was last accounted, and the
/// whole seconds since the clock was. Nothing is charged only where neither is anything. What
/// is charged is charged to the goal of the turn, up to the usage at hand.
pub proof fn lemma_turn_owes_what_it_used(
    state: GoalRuntimeState,
    turn_id: &str,
    usage: Option<TokenUsage>,
    now: u128,
    result: Option<ProgressCharge>,
)
    requires
        call_ensures(GoalRuntimeState::begin_progress, (&state, turn_id, usage, now), result),
        state.accounting.turn is Some,
        state.accounting.turn->Some_0.turn_id@ == turn_id@,
        state.accounting.turn->Some_0.active_goal_id is Some,
    ensures
        ({
            let turn = state.accounting.turn->Some_0;
            let last = turn.last_accounted_token_usage;
            let zero = TokenUsage {
                input_tokens: 0,
                cached_input_tokens: 0,
                output_tokens: 0,
                reasoning_output_tokens: 0,
                total_tokens: 0,
            };
            let used = if usage is Some {
                usage->Some_0
            } else {
                zero
            };
            let clamp = |n: int| max(i64::MIN as int, min(i64::MAX as int, n));
            let input = clamp(used.input_tokens - last.input_tokens);
            let cached = clamp(used.cached_input_tokens - last.cached_input_tokens);
            let output = clamp(used.output_tokens - last.output_tokens);
            let tokens = min(
                i64::MAX as int,
                max(0, input - max(0, cached)) + max(0, output),
            );
            let elapsed = max(0, now - state.accounting.wall_clock.last_accounted_at);
            let seconds = min(i64::MAX as int, elapsed / 1_000_000_000);
            &&& result is None <==> tokens == 0 && elapsed < 1_000_000_000
            &&& result matches Some(charge) ==> {
                &&& charge.token_delta == tokens
                &&& charge.time_delta_seconds == seconds
                &&& charge.expected_goal_id@ == turn.active_goal_id->Some_0@
                &&& charge.current_token_usage == used
            }
        }),
{
}

/// Where input and cached input grow by the same amount and nothing is written, no tokens are
/// due; where only the output grows, exactly its growth is.
pub proof fn lemma_cached_input_is_free(
    state: GoalRuntimeState,
    turn_id: &str,
    read: int,
    written: int,
    usage: TokenUsage,
    now: u128,
    result: Option<ProgressCharge>,
)
    requires
        call_ensures(
            GoalRuntimeState::begin_progress,
            (&state, turn_id, Some(usage), now),
            result,
        ),
        state.accounting.turn is Some,
        state.accounting.turn->Some_0.turn_id@ == turn_id@,
        state.accounting.turn->Some_0.active_goal_id is Some,
        0 <= read <= i64::MAX,
        0 <= written <= i64::MAX,
        ({
            let last = state.accounting.turn->Some_0.last_accounted_token_usage;
            &&& usage.input_tokens == last.input_tokens + read
            &&& usage.cached_input_tokens == last.cached_input_tokens + read
            &&& usage.output_tokens == last.output_tokens + written
        }),
    ensures
        result matches Some(charge) ==> charge.token_delta == written,
        written > 0 ==> result is Some,
{
}

/// A turn is charged only where it is the turn at hand and has a goal.
pub proof fn lemma_only_the_turn_at_hand_is_charged(
    state: GoalRuntimeState,
    turn_id: &str,
    usage: Option<TokenUsage>,
    now: u128,
    result: Option<ProgressCharge>,
)
    requires
        call_ensures(GoalRuntimeState::begin_progress, (&state, turn_id, usage, now), result),
        result is Some,
    ensures
        state.accounting.turn is Some,
        state.accounting.turn->Some_0.turn_id@ == turn_id@,
        state.accounting.turn->Some_0.active_goal_id is Some,
{
}

// ---------------------------------------------------------------------------
// The budget of a child
// ---------------------------------------------------------------------------

/// A child whose budget is set up answers for the fresh input, the output and the reasoning
/// since its baseline. It is reminded once, where at most a fifth of the budget is left; it is
/// given one turn of grace, where nothing is left; and it is ended at the next observation,
/// whatever has been spent by then.
pub proof fn lemma_child_answers_for_its_spend(
    state: &mut ChildTokenBudgetRuntimeState,
    current: TokenUsage,
    result: ChildTokenBudgetAction,
)
    requires
        call_ensures(ChildTokenBudgetRuntimeState::observe, (state, &current), result),
        old(state).baseline is Some,
        old(state).limit > 0,
    ensures
        ({
            let before = *old(state);
            let after = *final(state);
            let base = before.baseline->Some_0;
            let limit = before.limit;
            let since = |now: i64, then: i64| max(0, min(i64::MAX as int, now - then));
            let input = since(current.input_tokens, base.input_tokens);
            let cached = since(current.cached_input_tokens, base.cached_input_tokens);
            let output = since(current.output_tokens, base.output_tokens);
            let reasoning = since(
                current.reasoning_output_tokens,
                base.reasoning_output_tokens,
            );
            let spent = min(i64::MAX as int, max(0, input - cached) + output + reasoning);
            let grace = before.exhaustion_phase is Normal && spent >= limit;
            let reminded = before.exhaustion_phase is Normal && spent < limit
                && !before.reminder_fired && 5 * (limit - spent) <= limit;
            let forced = !(before.exhaustion_phase is Normal);
            &&& result is Reminder <==> reminded
            &&& result is BeginExhaustionGrace <==> grace
            &&& result is ForceCompletion <==> forced
            &&& result matches ChildTokenBudgetAction::Reminder {
                spent: told,
                remaining,
                limit: of,
            } ==> told == spent && remaining == limit - spent && of == limit
            &&& result matches ChildTokenBudgetAction::BeginExhaustionGrace {
                spent: told,
                limit: of,
            } ==> told == spent && of == limit
            &&& result matches ChildTokenBudgetAction::ForceCompletion {
                spent: told,
                limit: of,
            } ==> told == spent && of == limit
            &&& after.baseline == before.baseline
            &&& after.limit == before.limit
            &&& after.reminder_fired <==> before.reminder_fired || reminded
            &&& after.exhaustion_phase is Normal <==> !grace && !forced
            &&& after.exhaustion_phase is GraceInFlight <==> grace
            &&& after.exhaustion_phase is ForceCompletion <==> forced
        }),
{
}

/// A child without a budget, or whose budget is not set up, is left alone.
pub proof fn lemma_child_without_budget_is_left_alone(
    state: &mut ChildTokenBudgetRuntimeState,
    current: TokenUsage,
    result: ChildTokenBudgetAction,
)
    requires
        call_ensures(ChildTokenBudgetRuntimeState::observe, (state, &current), result),
        old(state).baseline is None || old(state).limit == 0,
    ensures
        result is Nothing,
        *final(state) == *old(state),
{
}

/// The budget that is set up is the one that is given, none where it is below zero, and it
/// stands for good: setting it up again changes nothing.
pub proof fn lemma_budget_is_set_up_once(
    state: &mut ChildTokenBudgetRuntimeState,
    baseline: TokenUsage,
    limit: i64,
)
    requires
        call_ensures(ChildTokenBudgetRuntimeState::initialize, (state, baseline, limit), ()),
    ensures
        old(state).baseline is Some ==> *final(state) == *old(state),
        old(state).baseline is None ==> {
            &&& final(state).baseline == Some(baseline)
            &&& final(state).limit == max(0, limit as int)
            &&& final(state).reminder_fired == old(state).reminder_fired
            &&& final(state).exhaustion_phase == old(state).exhaustion_phase
        },
{
}

/// A child begins without a budget, not reminded and far from its end; whether it is in its
/// turn of grace or was ended follows from what was observed last.
pub proof fn lemma_child_begins_anew(
    fresh: ChildTokenBudgetRuntimeState,
    state: ChildTokenBudgetRuntimeState,
    in_grace: bool,
    ended: bool,
)
    requires
        call_ensures(ChildTokenBudgetRuntimeState::new, (), fresh),
        call_ensures(ChildTokenBudgetRuntimeState::exhaustion_grace_in_flight, (&state,), in_grace),
        call_ensures(ChildTokenBudgetRuntimeState::has_force_completed, (&state,), ended),
    ensures
        fresh.baseline is None,
        fresh.limit == 0,
        !fresh.reminder_fired,
        fresh.exhaustion_phase is Normal,
        in_grace <==> state.exhaustion_phase == ExhaustionPhase::GraceInFlight,
        ended <==> state.exhaustion_phase == ExhaustionPhase::ForceCompletion,
{
}

/// What was used since a baseline is counted kind by kind, and nothing counts below zero.
pub proof fn lemma_usage_is_counted_by_kind(
    current: TokenUsage,
    baseline: TokenUsage,
    of_child: TokenUsage,
    of_orchestration: TokenUsage,
)
    requires
        call_ensures(
            crate::child_token_budget::token_usage_delta,
            (&current, &baseline),
            of_child,
        ),
        call_ensures(
            crate::orchestration::token_usage_delta,
            (&current, &baseline),
            of_orchestration,
        ),
    ensures
        ({
            let since = |now: i64, then: i64| max(0, min(i64::MAX as int, now - then));
            &&& of_child.input_tokens == since(current.input_tokens, baseline.input_tokens)
            &&& of_child.cached_input_tokens == since(
                current.cached_input_tokens,
                baseline.cached_input_tokens,
            )
            &&& of_child.output_tokens == since(current.output_tokens, baseline.output_tokens)
            &&& of_child.reasoning_output_tokens == since(
                current.reasoning_output_tokens,
                baseline.reasoning_output_tokens,
            )
            &&& of_child.total_tokens == since(current.total_tokens, baseline.total_tokens)
        }),
        current.input_tokens - baseline.input_tokens <= i64::MAX
            ==> of_orchestration.input_tokens == of_child.input_tokens,
        current.cached_input_tokens - baseline.cached_input_tokens <= i64::MAX
            ==> of_orchestration.cached_input_tokens == of_child.cached_input_tokens,
        current.output_tokens - baseline.output_tokens <= i64::MAX
            ==> of_orchestration.output_tokens == of_child.output_tokens,
        current.reasoning_output_tokens - baseline.reasoning_output_tokens <= i64::MAX
            ==> of_orchestration.reasoning_output_tokens == of_child.reasoning_output_tokens,
        current.total_tokens - baseline.total_tokens <= i64::MAX
            ==> of_orchestration.total_tokens == of_child.total_tokens,
{
}

/// Sums and differences stop at the ends of the range, and nothing else changes them.
pub proof fn lemma_arithmetic_stops_at_the_ends(
    a: i64,
    b: i64,
    sum: i64,
    difference: i64,
    raised: i64,
    usage: Option<TokenUsage>,
    known: TokenUsage,
)
    requires
        call_ensures(saturating_sum, (a, b), sum),
        call_ensures(saturating_difference, (a, b), difference),
        call_ensures(at_least_zero, (a,), raised),
        call_ensures(usage_or_default, (usage,), known),
    ensures
        sum == max(i64::MIN as int, min(i64::MAX as int, a + b)),
        difference == max(i64::MIN as int, min(i64::MAX as int, a - b)),
        raised == max(0, a as int),
        usage is Some ==> known == usage->Some_0,
        usage is None ==> known.input_tokens == 0 && known.cached_input_tokens == 0
            && known.output_tokens == 0 && known.reasoning_output_tokens == 0
            && known.total_tokens == 0,
{
}

} // verus!
