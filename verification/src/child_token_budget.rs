//! The token budget of a spawned child: a reminder when most of it is spent, one turn of
//! grace when all of it is, and then a forced end.

use crate::goal_accounting::usage_since;
use crate::token_usage::{
    at_least_zero, goal_token_delta_for_usage, goal_tokens, non_negative, saturated,
    saturating_difference, saturating_sum, TokenUsage,
};
use vstd::prelude::*;

verus! {

/// What a child is to be told or made to do.
#[derive(Clone, Copy, Debug, PartialEq, Eq, Structural)]
pub enum ChildTokenBudgetAction {
    Nothing,
    Reminder { spent: i64, remaining: i64, limit: i64 },
    BeginExhaustionGrace { spent: i64, limit: i64 },
    ForceCompletion { spent: i64, limit: i64 },
}

/// How far a child is past its budget.
#[derive(Clone, Copy, Debug, PartialEq, Eq, Structural)]
pub enum ExhaustionPhase {
    Normal,
    GraceInFlight,
    ForceCompletion,
}

/// The budget of a child, fixed for the life of its session.
#[derive(Clone, Copy, Debug, PartialEq, Eq, Structural)]
pub struct ChildTokenBudgetRuntimeState {
    /// The usage that the child began with.
    pub baseline: Option<TokenUsage>,
    /// The budget; zero is none.
    pub limit: i64,
    pub reminder_fired: bool,
    pub exhaustion_phase: ExhaustionPhase,
}

/// The usage since the baseline, each count for itself and none below zero.
pub open spec fn usage_above(current: TokenUsage, baseline: TokenUsage) -> TokenUsage {
    let since = usage_since(current, baseline);
    TokenUsage {
        input_tokens: non_negative(since.input_tokens as int) as i64,
        cached_input_tokens: non_negative(since.cached_input_tokens as int) as i64,
        output_tokens: non_negative(since.output_tokens as int) as i64,
        reasoning_output_tokens: non_negative(since.reasoning_output_tokens as int) as i64,
        total_tokens: non_negative(since.total_tokens as int) as i64,
    }
}

/// The usage since the baseline.
pub fn token_usage_delta(current: &TokenUsage, baseline: &TokenUsage) -> (result: TokenUsage)
    ensures
        result == usage_above(*current, *baseline),
{
    TokenUsage {
        input_tokens: at_least_zero(
            saturating_difference(current.input_tokens, baseline.input_tokens),
        ),
        cached_input_tokens: at_least_zero(
            saturating_difference(current.cached_input_tokens, baseline.cached_input_tokens),
        ),
        output_tokens: at_least_zero(
            saturating_difference(current.output_tokens, baseline.output_tokens),
        ),
        reasoning_output_tokens: at_least_zero(
            saturating_difference(
                current.reasoning_output_tokens,
                baseline.reasoning_output_tokens,
            ),
        ),
        total_tokens: at_least_zero(
            saturating_difference(current.total_tokens, baseline.total_tokens),
        ),
    }
}

/// The tokens that a child is charged: what a goal is charged, and its reasoning.
pub open spec fn child_tokens(usage: TokenUsage) -> int {
    saturated(goal_tokens(usage) + non_negative(usage.reasoning_output_tokens as int))
}

/// The tokens that a child is charged for a usage.
pub fn child_token_spend(usage: &TokenUsage) -> (result: i64)
    ensures
        result == child_tokens(*usage),
        result >= 0,
{
    saturating_sum(
        goal_token_delta_for_usage(usage),
        at_least_zero(usage.reasoning_output_tokens),
    )
}

/// The state of a child whose budget is not set up.
pub open spec fn fresh_budget() -> ChildTokenBudgetRuntimeState {
    ChildTokenBudgetRuntimeState {
        baseline: None,
        limit: 0,
        reminder_fired: false,
        exhaustion_phase: ExhaustionPhase::Normal,
    }
}

/// The state after the budget was set up; only the first time counts.
pub open spec fn initialized(
    state: ChildTokenBudgetRuntimeState,
    baseline: TokenUsage,
    limit: int,
) -> ChildTokenBudgetRuntimeState {
    if state.baseline is Some {
        state
    } else {
        ChildTokenBudgetRuntimeState {
            baseline: Some(baseline),
            limit: non_negative(limit) as i64,
            ..state
        }
    }
}

/// The tokens that a child has spent of its budget.
pub open spec fn spent_of(state: ChildTokenBudgetRuntimeState, current: TokenUsage) -> int {
    child_tokens(usage_above(current, state.baseline->Some_0))
}

/// Whether a child has a budget at all.
pub open spec fn has_budget(state: ChildTokenBudgetRuntimeState) -> bool {
    state.baseline is Some && state.limit != 0
}

/// The spend at which a child is reminded: four fifths of the budget, rounded up.
pub open spec fn reminder_threshold(limit: int) -> int {
    limit - limit / 5
}

/// What a child is to be told or made to do at a usage.
pub open spec fn budget_action(
    state: ChildTokenBudgetRuntimeState,
    current: TokenUsage,
) -> ChildTokenBudgetAction {
    let spent = spent_of(state, current) as i64;
    let limit = state.limit;
    if !has_budget(state) {
        ChildTokenBudgetAction::Nothing
    } else if !(state.exhaustion_phase is Normal) {
        ChildTokenBudgetAction::ForceCompletion { spent, limit }
    } else if spent >= limit {
        ChildTokenBudgetAction::BeginExhaustionGrace { spent, limit }
    } else if !state.reminder_fired && spent >= reminder_threshold(limit as int) {
        ChildTokenBudgetAction::Reminder { spent, remaining: (limit - spent) as i64, limit }
    } else {
        ChildTokenBudgetAction::Nothing
    }
}

/// The state after a usage was observed.
pub open spec fn observed(
    state: ChildTokenBudgetRuntimeState,
    current: TokenUsage,
) -> ChildTokenBudgetRuntimeState {
    match budget_action(state, current) {
        ChildTokenBudgetAction::Nothing => state,
        ChildTokenBudgetAction::Reminder { .. } => ChildTokenBudgetRuntimeState {
            reminder_fired: true,
            ..state
        },
        ChildTokenBudgetAction::BeginExhaustionGrace { .. } => ChildTokenBudgetRuntimeState {
            exhaustion_phase: ExhaustionPhase::GraceInFlight,
            ..state
        },
        ChildTokenBudgetAction::ForceCompletion { .. } => ChildTokenBudgetRuntimeState {
            exhaustion_phase: ExhaustionPhase::ForceCompletion,
            ..state
        },
    }
}

impl ChildTokenBudgetRuntimeState {
    /// The budget is not negative.
    pub open spec fn well_formed(&self) -> bool {
        self.limit >= 0
    }

    pub fn new() -> (result: Self)
        ensures
            result == fresh_budget(),
            result.well_formed(),
    {
        ChildTokenBudgetRuntimeState {
            baseline: None,
            limit: 0,
            reminder_fired: false,
            exhaustion_phase: ExhaustionPhase::Normal,
        }
    }

    /// Captures the usage that the child began with, and its budget, once.
    pub fn initialize(&mut self, baseline: TokenUsage, limit: i64)
        ensures
            *final(self) == initialized(*old(self), baseline, limit as int),
            old(self).well_formed() ==> final(self).well_formed(),
    {
        if self.baseline.is_some() {
            return;
        }
        self.baseline = Some(baseline);
        self.limit = at_least_zero(limit);
    }

    /// Observes the usage of the session after a request to the model was completed.
    pub fn observe(&mut self, current: &TokenUsage) -> (result: ChildTokenBudgetAction)
        requires
            old(self).well_formed(),
        ensures
            result == budget_action(*old(self), *current),
            *final(self) == observed(*old(self), *current),
            final(self).well_formed(),
    {
        let baseline = match self.baseline {
            Some(baseline) => baseline,
            None => {
                return ChildTokenBudgetAction::Nothing;
            },
        };
        if self.limit == 0 {
            return ChildTokenBudgetAction::Nothing;
        }
        let spent: i64 = child_token_spend(&token_usage_delta(current, &baseline));
        let limit: i64 = self.limit;
        match self.exhaustion_phase {
            ExhaustionPhase::GraceInFlight => {
                self.exhaustion_phase = ExhaustionPhase::ForceCompletion;
                return ChildTokenBudgetAction::ForceCompletion { spent, limit };
            },
            ExhaustionPhase::ForceCompletion => {
                return ChildTokenBudgetAction::ForceCompletion { spent, limit };
            },
            ExhaustionPhase::Normal => {},
        }
        if spent >= limit {
            self.exhaustion_phase = ExhaustionPhase::GraceInFlight;
            return ChildTokenBudgetAction::BeginExhaustionGrace { spent, limit };
        }
        let threshold: i64 = limit - limit / 5;
        if !self.reminder_fired && spent >= threshold {
            self.reminder_fired = true;
            return ChildTokenBudgetAction::Reminder { spent, remaining: limit - spent, limit };
        }
        ChildTokenBudgetAction::Nothing
    }

    /// Whether the turn of grace runs.
    pub fn exhaustion_grace_in_flight(&self) -> (result: bool)
        ensures
            result == (self.exhaustion_phase is GraceInFlight),
    {
        self.exhaustion_phase == ExhaustionPhase::GraceInFlight
    }

    /// Whether the end was forced.
    pub fn has_force_completed(&self) -> (result: bool)
        ensures
            result == (self.exhaustion_phase is ForceCompletion),
    {
        self.exhaustion_phase == ExhaustionPhase::ForceCompletion
    }
}

// ---------------------------------------------------------------------------
// Laws
// ---------------------------------------------------------------------------

/// The state after several usages were observed.
pub open spec fn observed_all(
    state: ChildTokenBudgetRuntimeState,
    usages: Seq<TokenUsage>,
) -> ChildTokenBudgetRuntimeState
    decreases usages.len(),
{
    if usages.len() == 0 {
        state
    } else {
        observed_all(observed(state, usages[0]), usages.skip(1))
    }
}

/// A budget is set up once: neither setting it up again nor observing changes the baseline
/// or the limit.
pub proof fn lemma_budget_is_fixed(
    state: ChildTokenBudgetRuntimeState,
    usages: Seq<TokenUsage>,
    baseline: TokenUsage,
    limit: int,
)
    requires
        state.baseline is Some,
    ensures
        initialized(state, baseline, limit) == state,
        observed_all(state, usages).baseline == state.baseline,
        observed_all(state, usages).limit == state.limit,
    decreases usages.len(),
{
    if usages.len() > 0 {
        lemma_budget_is_fixed(observed(state, usages[0]), usages.skip(1), baseline, limit);
    }
}

/// A reminder comes at most once, whatever is observed after it.
pub proof fn lemma_reminded_at_most_once(
    state: ChildTokenBudgetRuntimeState,
    current: TokenUsage,
    between: Seq<TokenUsage>,
    later: TokenUsage,
)
    requires
        budget_action(state, current) is Reminder,
    ensures
        !(budget_action(observed_all(observed(state, current), between), later) is Reminder),
{
    lemma_reminder_stays_fired(observed(state, current), between);
}

proof fn lemma_reminder_stays_fired(
    state: ChildTokenBudgetRuntimeState,
    usages: Seq<TokenUsage>,
)
    requires
        state.reminder_fired,
    ensures
        observed_all(state, usages).reminder_fired,
    decreases usages.len(),
{
    if usages.len() > 0 {
        lemma_reminder_stays_fired(observed(state, usages[0]), usages.skip(1));
    }
}

/// There is exactly one turn of grace: the first observation after it began forces the end,
/// and so does every later one, even where less is spent by then.
pub proof fn lemma_one_grace_then_forced(
    state: ChildTokenBudgetRuntimeState,
    current: TokenUsage,
    between: Seq<TokenUsage>,
    later: TokenUsage,
)
    requires
        budget_action(state, current) is BeginExhaustionGrace,
    ensures
        observed(state, current).exhaustion_phase is GraceInFlight,
        budget_action(observed_all(observed(state, current), between), later) is ForceCompletion,
{
    lemma_exhaustion_stays(observed(state, current), between);
}

proof fn lemma_exhaustion_stays(state: ChildTokenBudgetRuntimeState, usages: Seq<TokenUsage>)
    requires
        has_budget(state),
        !(state.exhaustion_phase is Normal),
    ensures
        has_budget(observed_all(state, usages)),
        !(observed_all(state, usages).exhaustion_phase is Normal),
    decreases usages.len(),
{
    if usages.len() > 0 {
        lemma_exhaustion_stays(observed(state, usages[0]), usages.skip(1));
    }
}

/// A child with no budget, by a limit of zero or below or because it was not set up, is never
/// told or made to do anything.
pub proof fn lemma_no_budget_no_action(
    baseline: TokenUsage,
    limit: int,
    current: TokenUsage,
)
    requires
        limit <= 0,
    ensures
        budget_action(fresh_budget(), current) is Nothing,
        budget_action(initialized(fresh_budget(), baseline, limit), current) is Nothing,
{
}

/// What a child inherited is not charged: at the usage that it began with it has spent
/// nothing.
pub proof fn lemma_inherited_usage_is_free(baseline: TokenUsage, limit: int)
    requires
        0 < limit <= i64::MAX,
    ensures
        spent_of(initialized(fresh_budget(), baseline, limit), baseline) == 0,
        budget_action(initialized(fresh_budget(), baseline, limit), baseline) is Nothing,
{
}

} // verus!
