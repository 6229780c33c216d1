use gemini_orchestration::child_token_budget::{
    child_token_spend, token_usage_delta, ChildTokenBudgetAction, ChildTokenBudgetRuntimeState,
};
use gemini_orchestration::token_usage::TokenUsage;

fn usage(input: i64, cached: i64, output: i64, reasoning: i64) -> TokenUsage {
    TokenUsage {
        input_tokens: input,
        cached_input_tokens: cached,
        output_tokens: output,
        reasoning_output_tokens: reasoning,
        total_tokens: input.saturating_add(output).saturating_add(reasoning),
    }
}

#[test]
fn inherited_usage_is_not_charged_to_the_child() {
    let mut state = ChildTokenBudgetRuntimeState::new();
    state.initialize(usage(10_000, 2_000, 4_000, 1_000), 1_000);

    assert_eq!(
        ChildTokenBudgetAction::Nothing,
        state.observe(&usage(10_500, 2_400, 4_100, 1_100))
    );
}

#[test]
fn cached_input_is_excluded_and_gemini_reasoning_is_included() {
    let mut state = ChildTokenBudgetRuntimeState::new();
    state.initialize(TokenUsage::default(), 1_000);

    assert_eq!(
        ChildTokenBudgetAction::Reminder {
            spent: 800,
            remaining: 200,
            limit: 1_000,
        },
        state.observe(&usage(700, 500, 300, 300))
    );
}

#[test]
fn reminder_fires_once_at_the_twenty_percent_remaining_boundary() {
    let mut state = ChildTokenBudgetRuntimeState::new();
    state.initialize(TokenUsage::default(), 1_000);

    assert_eq!(
        ChildTokenBudgetAction::Nothing,
        state.observe(&usage(799, 0, 0, 0))
    );
    assert_eq!(
        ChildTokenBudgetAction::Reminder {
            spent: 800,
            remaining: 200,
            limit: 1_000,
        },
        state.observe(&usage(800, 0, 0, 0))
    );
    assert_eq!(
        ChildTokenBudgetAction::Nothing,
        state.observe(&usage(900, 0, 0, 0))
    );
}

#[test]
fn exhaustion_supersedes_the_reminder_and_allows_one_grace_sample() {
    let mut state = ChildTokenBudgetRuntimeState::new();
    state.initialize(TokenUsage::default(), 1_000);

    assert_eq!(
        ChildTokenBudgetAction::BeginExhaustionGrace {
            spent: 1_000,
            limit: 1_000,
        },
        state.observe(&usage(1_000, 0, 0, 0))
    );
    assert!(state.exhaustion_grace_in_flight());
    assert_eq!(
        ChildTokenBudgetAction::ForceCompletion {
            spent: 1_100,
            limit: 1_000,
        },
        state.observe(&usage(1_100, 0, 0, 0))
    );
    assert!(!state.exhaustion_grace_in_flight());
    assert!(state.has_force_completed());
    assert_eq!(
        ChildTokenBudgetAction::ForceCompletion {
            spent: 1_200,
            limit: 1_000,
        },
        state.observe(&usage(1_200, 0, 0, 0))
    );
}

#[test]
fn zero_limit_disables_budget_actions() {
    let mut state = ChildTokenBudgetRuntimeState::new();
    state.initialize(TokenUsage::default(), 0);

    assert_eq!(
        ChildTokenBudgetAction::Nothing,
        state.observe(&usage(i64::MAX, 0, i64::MAX, i64::MAX))
    );
}

#[test]
fn initialization_is_fixed_for_the_session_lifetime() {
    let mut state = ChildTokenBudgetRuntimeState::new();
    state.initialize(TokenUsage::default(), 1_000);
    state.initialize(TokenUsage::default(), 10);

    assert_eq!(
        ChildTokenBudgetAction::Nothing,
        state.observe(&usage(100, 0, 0, 0))
    );
}

#[test]
fn a_negative_limit_is_no_budget() {
    let mut state = ChildTokenBudgetRuntimeState::new();
    state.initialize(TokenUsage::default(), -5);
    assert_eq!(state.limit, 0);
    assert_eq!(
        state.observe(&usage(1_000_000, 0, 0, 0)),
        ChildTokenBudgetAction::Nothing
    );
}

#[test]
fn a_child_that_is_not_set_up_is_left_alone() {
    let mut state = ChildTokenBudgetRuntimeState::new();
    assert_eq!(
        state.observe(&usage(1_000_000, 0, 0, 0)),
        ChildTokenBudgetAction::Nothing
    );
}

#[test]
fn the_forced_end_lasts_even_where_usage_falls() {
    let mut state = ChildTokenBudgetRuntimeState::new();
    state.initialize(TokenUsage::default(), 100);
    state.observe(&usage(100, 0, 0, 0));
    state.observe(&usage(110, 0, 0, 0));
    assert_eq!(
        state.observe(&usage(0, 0, 0, 0)),
        ChildTokenBudgetAction::ForceCompletion {
            spent: 0,
            limit: 100,
        }
    );
}

#[test]
fn spend_saturates_and_never_falls_below_zero() {
    assert_eq!(
        child_token_spend(&usage(i64::MAX, 0, i64::MAX, i64::MAX)),
        i64::MAX
    );
    let delta = token_usage_delta(&usage(5, 5, 5, 5), &usage(10, 0, 1, 9));
    assert_eq!(delta.input_tokens, 0);
    assert_eq!(delta.cached_input_tokens, 5);
    assert_eq!(delta.output_tokens, 4);
    assert_eq!(delta.reasoning_output_tokens, 0);
    assert_eq!(
        token_usage_delta(&usage(i64::MAX, 0, 0, 0), &usage(i64::MIN, 0, 0, 0)).input_tokens,
        i64::MAX
    );
}
