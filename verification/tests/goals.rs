use gemini_orchestration::goal::{
    current_goal_status_for_metrics, get_thread_goal, goal_context_input_item,
    goal_resumed_metric_if_status_changed, goal_terminal_metrics_if_status_changed,
    protocol_goal_status_from_state, require_goals_feature, should_ignore_goal_for_mode,
    state_goal_status_from_protocol, validate_goal_budget, ExternalGoalPreviousGoal,
    ExternalGoalPreviousStatus, ExternalGoalSet, GoalCounter, GoalError, StateGoal,
    StateGoalStatus, TerminalMetrics, ThreadGoal, ThreadGoalStatus,
};
use gemini_orchestration::goal_accounting::{
    GoalTurnAccountingSnapshot, GoalWallClockAccountingSnapshot, LAST_INSTANT, NANOS_PER_SECOND,
};
use gemini_orchestration::goal_auto_complete::{AutoCompleteEvent, AutoCompleteStage};
use gemini_orchestration::goal_charge::{
    ChargeEvent, ProgressStage, UsageLimitStage, WallClockStage,
};
use gemini_orchestration::goal_continuation::{
    clear_reserved_goal_continuation_turn, reserve_turn, still_reserved, ActiveTurn,
    ContinuationEvent, ContinuationPrompt, ContinuationStage,
};
use gemini_orchestration::goal_progress::{
    account_thread_goal_before_external_mutation, ExternalMutationAccounting,
    GoalAccountingMode, GoalAccountingOutcome, ProgressCharge, UsageLimitEffects,
    WallClockCharge,
};
use gemini_orchestration::goal_runtime::{
    goal_runtime_action, goals_apply, BudgetLimitSteering, GoalRuntimeAction, GoalRuntimeEvent,
    GoalRuntimeState, TerminalMetricEmission,
};
use gemini_orchestration::goal_set::{
    start_create_goal, start_set_goal, CreateGoalRequest, CreateGoalStage, GoalInsert,
    GoalRequestEvent, GoalUpdate, GoalWrite, SetGoalRequest, SetGoalStage,
};
use gemini_orchestration::goal_store::{StoreEvent, StoreFailure, StoreSource, StoreStage};
use gemini_orchestration::protocol::{
    AgentPath, AgentStatus, ContentItem, ModeKind, ResponseItem, SessionSource, SubAgentSource,
    WireApi,
};
use gemini_orchestration::token_usage::{goal_token_delta_for_usage, TokenUsage};

const SECOND: u128 = NANOS_PER_SECOND;

fn goal(goal_id: &str, status: StateGoalStatus) -> StateGoal {
    StateGoal {
        thread_id: 1,
        goal_id: goal_id.to_string(),
        objective: "Review all worker results".to_string(),
        status,
        token_budget: Some(1_000),
        tokens_used: 40,
        time_used_seconds: 7,
        created_at: 100,
        updated_at: 200,
    }
}

fn usage(input: i64) -> TokenUsage {
    TokenUsage {
        input_tokens: input,
        ..TokenUsage::default()
    }
}

fn running_state(goal_id: &str) -> GoalRuntimeState {
    let mut state = GoalRuntimeState::new(0);
    assert!(state.mark_thread_goal_turn_started(
        "turn-1",
        usage(100),
        true,
        ModeKind::Default,
        0
    ));
    state.turn_started_with_goal("turn-1", Some(&goal(goal_id, StateGoalStatus::Active)), 0);
    state
}

#[test]
fn goal_continuation_is_ignored_only_in_plan_mode() {
    assert!(should_ignore_goal_for_mode(ModeKind::Plan));
    assert!(!should_ignore_goal_for_mode(ModeKind::Default));
    assert!(!should_ignore_goal_for_mode(ModeKind::PairProgramming));
    assert!(!should_ignore_goal_for_mode(ModeKind::Execute));
}

#[test]
fn goal_token_delta_excludes_cached_input_and_does_not_double_count_reasoning() {
    let usage = TokenUsage {
        input_tokens: 900,
        cached_input_tokens: 400,
        output_tokens: 80,
        reasoning_output_tokens: 20,
        total_tokens: 1_000,
    };

    assert_eq!(580, goal_token_delta_for_usage(&usage));
}

#[test]
fn wall_clock_accounting_advances_by_persisted_seconds() {
    let now = 10 * SECOND;
    let mut snapshot = GoalWallClockAccountingSnapshot::new(now);
    let original = now - 1500 * 1_000_000;
    snapshot.last_accounted_at = original;

    snapshot.mark_accounted(1, now);
    assert_eq!(original + SECOND, snapshot.last_accounted_at);

    let token_only_original = snapshot.last_accounted_at;
    snapshot.mark_accounted(0, now);
    assert_eq!(token_only_original, snapshot.last_accounted_at);
}

#[test]
fn goal_context_input_item_is_hidden_user_context() {
    let item = goal_context_input_item("Continue working.");

    assert_eq!(
        item,
        ResponseItem::Message {
            id: None,
            role: "user".to_string(),
            content: vec![ContentItem::InputText {
                text: "<codex_internal_context source=\"goal\">\nContinue working.\n</codex_internal_context>".to_string(),
            }],
            phase: None,
        }
    );
}

#[test]
fn the_clock_charges_whole_seconds_and_keeps_the_rest() {
    let mut clock = GoalWallClockAccountingSnapshot::new(0);
    let first = SECOND + SECOND / 2;
    assert_eq!(clock.time_delta_since_last_accounting(first), 1);
    clock.mark_accounted(1, first);
    assert_eq!(clock.time_delta_since_last_accounting(first), 0);
    assert_eq!(clock.time_delta_since_last_accounting(2 * SECOND), 1);
    assert_eq!(clock.time_delta_since_last_accounting(0), 0);
}

#[test]
fn a_clock_past_its_end_starts_from_the_present() {
    let mut clock = GoalWallClockAccountingSnapshot::new(LAST_INSTANT - SECOND / 2);
    clock.mark_accounted(1, LAST_INSTANT);
    assert_eq!(clock.last_accounted_at, LAST_INSTANT);
    assert_eq!(
        GoalWallClockAccountingSnapshot::new(0).time_delta_since_last_accounting(u128::MAX),
        i64::MAX
    );
}

#[test]
fn the_clock_runs_on_for_the_same_goal_only() {
    let mut clock = GoalWallClockAccountingSnapshot::new(0);
    clock.mark_active_goal("a".to_string(), 5);
    clock.mark_active_goal("a".to_string(), 9);
    assert_eq!(clock.last_accounted_at, 5);
    clock.mark_active_goal("b".to_string(), 9);
    assert_eq!(clock.last_accounted_at, 9);
    assert_eq!(clock.active_goal_id(), Some("b".to_string()));
    clock.clear_active_goal(12);
    assert_eq!(clock.active_goal_id(), None);
    clock.reset_baseline(13);
    assert_eq!(clock.last_accounted_at, 13);
}

#[test]
fn turn_tokens_are_charged_since_the_baseline() {
    let mut turn = GoalTurnAccountingSnapshot::new("t".to_string(), usage(100));
    assert_eq!(turn.token_delta_since_last_accounting(&usage(180)), 80);
    turn.mark_accounted(usage(180));
    assert_eq!(turn.token_delta_since_last_accounting(&usage(180)), 0);
    assert!(!turn.active_this_turn());
    turn.mark_active_goal("g".to_string());
    assert_eq!(turn.active_goal_id(), Some("g".to_string()));
    turn.reset_baseline(usage(300));
    assert_eq!(turn.token_delta_since_last_accounting(&usage(200)), 0);
    turn.clear_active_goal();
    assert!(!turn.active_this_turn());
}

#[test]
fn statuses_are_published_and_stored_one_for_one() {
    for status in [
        StateGoalStatus::Active,
        StateGoalStatus::Paused,
        StateGoalStatus::Blocked,
        StateGoalStatus::UsageLimited,
        StateGoalStatus::BudgetLimited,
        StateGoalStatus::Complete,
    ] {
        assert_eq!(
            state_goal_status_from_protocol(protocol_goal_status_from_state(status)),
            status
        );
    }
    assert_eq!(
        get_thread_goal(Some(goal("g", StateGoalStatus::Paused))),
        Some(ThreadGoal {
            thread_id: 1,
            objective: "Review all worker results".to_string(),
            status: ThreadGoalStatus::Paused,
            token_budget: Some(1_000),
            tokens_used: 40,
            time_used_seconds: 7,
            created_at: 100,
            updated_at: 200,
        })
    );
    assert_eq!(get_thread_goal(None), None);
}

#[test]
fn goal_errors_are_worded() {
    assert_eq!(validate_goal_budget(Some(1)), Ok(()));
    assert_eq!(validate_goal_budget(None), Ok(()));
    assert_eq!(validate_goal_budget(Some(0)), Err(GoalError::InvalidBudget));
    assert_eq!(
        require_goals_feature(false).map_err(|err| err.message()),
        Err("goals feature is disabled".to_string())
    );
    assert_eq!(
        GoalError::InvalidBudget.message(),
        "goal budgets must be positive when provided"
    );
    assert_eq!(
        GoalError::NoGoalToUpdate(0xabc).message(),
        "cannot update goal for thread 00000000-0000-0000-0000-000000000abc: no goal exists"
    );
    assert_eq!(
        GoalError::GoalExists(1).message(),
        "cannot create a new goal because thread 00000000-0000-0000-0000-000000000001 already has a goal"
    );
    assert_eq!(
        GoalError::InvalidObjective("too long".to_string()).message(),
        "too long"
    );
    assert_eq!(
        GoalError::EphemeralThread.message(),
        "thread goals require a persisted thread; this thread is ephemeral"
    );
    for (failure, message) in [
        (
            StoreFailure::NoStateDb,
            "thread goals require a local persisted thread with a state database",
        ),
        (
            StoreFailure::NoThreadMetadata,
            "thread goals require materialized thread metadata",
        ),
        (
            StoreFailure::ThreadMetadataUnavailable,
            "thread metadata is unavailable after reconciling thread goals",
        ),
        (
            StoreFailure::MaterializeRollout,
            "failed to materialize rollout before opening state db for thread goals",
        ),
        (
            StoreFailure::ReadMetadata,
            "failed to read thread metadata before reconciling thread goals",
        ),
        (
            StoreFailure::LocateRollout,
            "failed to locate rollout before reconciling thread goals",
        ),
        (
            StoreFailure::RereadMetadata,
            "failed to read thread metadata after reconciling thread goals",
        ),
    ] {
        assert_eq!(failure.error().message(), message);
    }
}

#[test]
fn metrics_are_emitted_on_a_change_only() {
    assert!(goal_resumed_metric_if_status_changed(
        Some(StateGoalStatus::Paused),
        StateGoalStatus::Active
    ));
    assert!(!goal_resumed_metric_if_status_changed(
        Some(StateGoalStatus::BudgetLimited),
        StateGoalStatus::Active
    ));
    assert!(!goal_resumed_metric_if_status_changed(
        None,
        StateGoalStatus::Active
    ));
    let done = goal("g", StateGoalStatus::Complete);
    assert_eq!(
        goal_terminal_metrics_if_status_changed(Some(StateGoalStatus::Active), &done),
        Some(TerminalMetrics {
            counter: GoalCounter::Completed,
            status: StateGoalStatus::Complete,
            tokens_used: 40,
            time_used_seconds: 7,
        })
    );
    assert_eq!(
        goal_terminal_metrics_if_status_changed(Some(StateGoalStatus::Complete), &done),
        None
    );
    assert_eq!(
        goal_terminal_metrics_if_status_changed(None, &goal("g", StateGoalStatus::Paused)),
        None
    );
    assert_eq!(
        current_goal_status_for_metrics(Some(&done), Some("other")),
        None
    );
    assert_eq!(
        current_goal_status_for_metrics(Some(&done), None),
        Some(StateGoalStatus::Complete)
    );
}

#[test]
fn events_are_routed() {
    let tool = |name: &str| {
        goal_runtime_action(&GoalRuntimeEvent::ToolCompleted {
            tool_name: name.to_string(),
        })
    };
    assert_eq!(tool("update_goal"), GoalRuntimeAction::Nothing);
    let steering = tool("shell");
    assert_eq!(
        steering,
        GoalRuntimeAction::AccountProgress {
            steering: BudgetLimitSteering::Allowed,
            emission: TerminalMetricEmission::Emit,
            ends_turn: false,
        }
    );
    assert!(steering.passes_failure_on());
    assert_eq!(
        goal_runtime_action(&GoalRuntimeEvent::ToolCompletedGoal),
        GoalRuntimeAction::AccountProgress {
            steering: BudgetLimitSteering::Suppressed,
            emission: TerminalMetricEmission::Suppress,
            ends_turn: false,
        }
    );
    let finished = goal_runtime_action(&GoalRuntimeEvent::TurnFinished {
        turn_completed: true,
    });
    assert_eq!(
        finished,
        GoalRuntimeAction::AccountProgress {
            steering: BudgetLimitSteering::Suppressed,
            emission: TerminalMetricEmission::Emit,
            ends_turn: true,
        }
    );
    assert!(!finished.passes_failure_on());
    assert_eq!(
        goal_runtime_action(&GoalRuntimeEvent::TurnFinished {
            turn_completed: false
        }),
        GoalRuntimeAction::Nothing
    );
    assert_eq!(
        goal_runtime_action(&GoalRuntimeEvent::TaskAborted { has_turn: false }),
        GoalRuntimeAction::Nothing
    );
    assert!(goal_runtime_action(&GoalRuntimeEvent::UsageLimitReached).passes_failure_on());
    assert!(goal_runtime_action(&GoalRuntimeEvent::ThreadResumed).passes_failure_on());
    assert!(
        !goal_runtime_action(&GoalRuntimeEvent::ExternalMutationStarting).passes_failure_on()
    );
    assert!(!goals_apply(true, ModeKind::Plan));
    assert!(!goals_apply(false, ModeKind::Default));
    assert!(goals_apply(true, ModeKind::Execute));
}

#[test]
fn plan_mode_stops_the_clock_at_the_start_of_a_turn() {
    let mut state = running_state("g");
    assert!(!state.mark_thread_goal_turn_started("turn-2", usage(5), true, ModeKind::Plan, 77));
    assert_eq!(state.accounting.wall_clock.active_goal_id(), None);
    assert_eq!(state.accounting.wall_clock.last_accounted_at, 77);

    let mut off = running_state("g");
    assert!(!off.mark_thread_goal_turn_started("turn-2", usage(5), false, ModeKind::Plan, 77));
    assert_eq!(
        off.accounting.wall_clock.active_goal_id(),
        Some("g".to_string())
    );
}

#[test]
fn a_turn_is_charged_once() {
    let mut state = running_state("g");
    let now = 3 * SECOND + 1;
    let charge = state
        .begin_progress("turn-1", Some(usage(160)), now)
        .expect("a charge should be due");
    assert_eq!(
        charge,
        ProgressCharge {
            token_delta: 60,
            time_delta_seconds: 3,
            expected_goal_id: "g".to_string(),
            current_token_usage: usage(160),
        }
    );
    let effects = state
        .account_thread_goal_progress(
            "turn-1",
            &charge,
            GoalAccountingOutcome::Updated(goal("g", StateGoalStatus::Active)),
            Some(StateGoalStatus::Active),
            BudgetLimitSteering::Allowed,
            TerminalMetricEmission::Emit,
            now,
        )
        .expect("the goal should be announced");
    assert_eq!(effects.terminal_metrics, None);
    assert_eq!(effects.steer_goal_id, None);
    assert_eq!(state.begin_progress("turn-1", Some(usage(160)), now), None);
    assert_eq!(state.begin_progress("turn-2", Some(usage(999)), now), None);
}

#[test]
fn the_model_is_told_of_an_exhausted_budget_once() {
    let mut state = running_state("g");
    let charge = state
        .begin_progress("turn-1", Some(usage(200)), SECOND)
        .expect("a charge should be due");
    let limited = || GoalAccountingOutcome::Updated(goal("g", StateGoalStatus::BudgetLimited));
    let effects = state
        .account_thread_goal_progress(
            "turn-1",
            &charge,
            limited(),
            Some(StateGoalStatus::Active),
            BudgetLimitSteering::Allowed,
            TerminalMetricEmission::Emit,
            SECOND,
        )
        .expect("the goal should be announced");
    assert_eq!(effects.steer_goal_id, Some("g".to_string()));
    assert_eq!(
        effects.terminal_metrics.map(|metrics| metrics.counter),
        Some(GoalCounter::BudgetLimited)
    );
    state.budget_limit_steered("g".to_string());

    let charge = state
        .begin_progress("turn-1", Some(usage(300)), 2 * SECOND)
        .expect("the exhausted goal is still charged while it is steered");
    let effects = state
        .account_thread_goal_progress(
            "turn-1",
            &charge,
            limited(),
            Some(StateGoalStatus::BudgetLimited),
            BudgetLimitSteering::Allowed,
            TerminalMetricEmission::Emit,
            2 * SECOND,
        )
        .expect("the goal should be announced");
    assert_eq!(effects.steer_goal_id, None);
    assert_eq!(effects.terminal_metrics, None);
    assert_eq!(
        state.budget_limit_reported_goal_id,
        Some("g".to_string())
    );
}

#[test]
fn a_suppressed_charge_stops_an_exhausted_goal() {
    let mut state = running_state("g");
    let charge = state
        .begin_progress("turn-1", Some(usage(200)), 0)
        .expect("a charge should be due");
    let effects = state
        .account_thread_goal_progress(
            "turn-1",
            &charge,
            GoalAccountingOutcome::Updated(goal("g", StateGoalStatus::BudgetLimited)),
            Some(StateGoalStatus::Active),
            BudgetLimitSteering::Suppressed,
            TerminalMetricEmission::Suppress,
            0,
        )
        .expect("the goal should be announced");
    assert_eq!(effects.steer_goal_id, None);
    assert_eq!(effects.terminal_metrics, None);
    assert_eq!(state.begin_progress("turn-1", Some(usage(900)), SECOND), None);
    assert_eq!(state.accounting.wall_clock.active_goal_id(), None);
}

#[test]
fn an_unchanged_goal_is_not_announced() {
    let mut state = running_state("g");
    let charge = state
        .begin_progress("turn-1", Some(usage(200)), 0)
        .expect("a charge should be due");
    assert_eq!(
        state.account_thread_goal_progress(
            "turn-1",
            &charge,
            GoalAccountingOutcome::Unchanged(None),
            None,
            BudgetLimitSteering::Allowed,
            TerminalMetricEmission::Emit,
            0,
        ),
        None
    );
    assert!(state.begin_progress("turn-1", Some(usage(200)), 0).is_some());
}

#[test]
fn a_charge_goes_through_its_stages() {
    let state = running_state("g");
    assert_eq!(
        ProgressStage::start(true, ModeKind::Plan),
        ProgressStage::Nothing
    );
    let stage = ProgressStage::start(true, ModeKind::Default);
    let stage = stage.next(ChargeEvent::Store { present: true }, &state, "turn-1");
    assert_eq!(stage, ProgressStage::Measure);
    let stage = stage.next(
        ChargeEvent::Measured {
            token_usage: Some(usage(110)),
            now: 0,
        },
        &state,
        "turn-1",
    );
    let ProgressStage::ReadGoal { charge } = &stage else {
        panic!("a charge should be due");
    };
    assert_eq!(charge.token_delta, 10);
    let stage = stage.next(
        ChargeEvent::Goal(Some(goal("other", StateGoalStatus::Active))),
        &state,
        "turn-1",
    );
    assert!(matches!(
        stage,
        ProgressStage::Charge {
            previous_status: None,
            ..
        }
    ));
    assert_eq!(
        ProgressStage::OpenStore.next(ChargeEvent::Store { present: false }, &state, "turn-1"),
        ProgressStage::Nothing
    );
    assert_eq!(
        ProgressStage::OpenStore.next(ChargeEvent::Failed, &state, "turn-1"),
        ProgressStage::Failed
    );
}

#[test]
fn the_clock_alone_is_charged_and_stops_where_nothing_is() {
    let mut state = running_state("g");
    assert_eq!(state.begin_wall_clock(SECOND - 1), None);
    let stage = WallClockStage::Measure.next(
        ChargeEvent::Measured {
            token_usage: None,
            now: 2 * SECOND,
        },
        &state,
    );
    let stage = stage.next(
        ChargeEvent::Goal(Some(goal("g", StateGoalStatus::Active))),
        &state,
    );
    let WallClockStage::Charge {
        charge,
        previous_status,
    } = stage
    else {
        panic!("the clock should be charged");
    };
    assert_eq!(
        charge,
        WallClockCharge {
            time_delta_seconds: 2,
            expected_goal_id: Some("g".to_string()),
        }
    );
    assert_eq!(previous_status, Some(StateGoalStatus::Active));
    let effects = state.account_thread_goal_wall_clock_usage(
        &charge,
        GoalAccountingOutcome::Updated(goal("g", StateGoalStatus::Complete)),
        previous_status,
        TerminalMetricEmission::Emit,
        2 * SECOND,
    );
    assert_eq!(
        effects.terminal_metrics.map(|metrics| metrics.counter),
        Some(GoalCounter::Completed)
    );
    assert_eq!(state.accounting.wall_clock.last_accounted_at, 2 * SECOND);

    let charge = state
        .begin_wall_clock(5 * SECOND)
        .expect("the clock should be charged");
    let effects = state.account_thread_goal_wall_clock_usage(
        &charge,
        GoalAccountingOutcome::Unchanged(None),
        None,
        TerminalMetricEmission::Emit,
        5 * SECOND,
    );
    assert_eq!(effects.goal, None);
    assert_eq!(state.accounting.wall_clock.active_goal_id(), None);
    assert_eq!(state.accounting.wall_clock.last_accounted_at, 5 * SECOND);
}

#[test]
fn a_mutation_from_outside_accounts_the_turn_or_the_clock() {
    assert_eq!(
        account_thread_goal_before_external_mutation(true),
        ExternalMutationAccounting::Progress {
            steering: BudgetLimitSteering::Suppressed,
            emission: TerminalMetricEmission::Emit,
        }
    );
    assert_eq!(
        account_thread_goal_before_external_mutation(false),
        ExternalMutationAccounting::WallClock {
            mode: GoalAccountingMode::ActiveOnly,
            emission: TerminalMetricEmission::Suppress,
        }
    );
}

#[test]
fn a_usage_limit_stops_the_goal() {
    let stage = UsageLimitStage::start(true, ModeKind::Default);
    let stage = stage.next(&ChargeEvent::Store { present: true });
    let stage = stage.next(&ChargeEvent::ProgressAccounted);
    let stage = stage.next(&ChargeEvent::Goal(Some(goal("g", StateGoalStatus::Active))));
    assert_eq!(
        stage,
        UsageLimitStage::StopGoal {
            previous_status: Some(StateGoalStatus::Active)
        }
    );
    assert_eq!(
        UsageLimitStage::start(false, ModeKind::Default),
        UsageLimitStage::Nothing
    );

    let mut state = running_state("g");
    let effects = state.usage_limit_active_thread_goal_for_turn(
        "turn-1",
        Some(goal("g", StateGoalStatus::UsageLimited)),
        Some(StateGoalStatus::Active),
        9,
    );
    let Some(UsageLimitEffects {
        goal: announced,
        terminal_metrics,
    }) = effects
    else {
        panic!("the goal should be announced");
    };
    assert_eq!(announced.status, ThreadGoalStatus::UsageLimited);
    assert_eq!(
        terminal_metrics.map(|metrics| metrics.counter),
        Some(GoalCounter::UsageLimited)
    );
    assert_eq!(state.begin_progress("turn-1", Some(usage(500)), 9), None);
    assert_eq!(
        state.usage_limit_active_thread_goal_for_turn("turn-1", None, None, 9),
        None
    );
}

#[test]
fn a_goal_is_set_in_order() {
    let request = |objective: Option<&str>| SetGoalRequest {
        objective: objective.map(str::to_string),
        status: None,
        token_budget: Some(Some(5)),
    };
    assert_eq!(
        start_set_goal(false, request(None)),
        SetGoalStage::Refused {
            error: GoalError::FeatureDisabled
        }
    );
    assert_eq!(
        start_set_goal(
            true,
            SetGoalRequest {
                objective: None,
                status: None,
                token_budget: Some(Some(0)),
            }
        ),
        SetGoalStage::Refused {
            error: GoalError::InvalidBudget
        }
    );
    let stage = start_set_goal(true, request(Some("  ship it \n")));
    assert_eq!(
        start_set_goal(true, request(None)).next(GoalRequestEvent::Store { present: false }),
        SetGoalStage::Refused {
            error: GoalError::EphemeralThread
        }
    );
    let stage = stage.next(GoalRequestEvent::Store { present: true });
    let SetGoalStage::ValidateObjective { request: checked } = &stage else {
        panic!("the objective should be validated");
    };
    assert_eq!(checked.objective, Some("ship it".to_string()));
    let stage = stage.next(GoalRequestEvent::Validation(Ok(())));
    let stage = stage.next(GoalRequestEvent::ClockAccounted);
    let stage = stage.next(GoalRequestEvent::Goal(None));
    let SetGoalStage::Write { pending } = stage else {
        panic!("the store should be asked");
    };
    assert_eq!(
        pending.write,
        GoalWrite::Replace(GoalInsert {
            objective: "ship it".to_string(),
            status: StateGoalStatus::Active,
            token_budget: Some(5),
        })
    );

    let mut state = GoalRuntimeState::new(0);
    state.budget_limit_steered("old".to_string());
    let effects = state
        .set_thread_goal(
            1,
            "turn-1",
            pending,
            Some(goal("new", StateGoalStatus::Active)),
            Some(usage(7)),
            4,
        )
        .expect("the goal should be set");
    assert!(effects.created);
    assert!(!effects.resumed);
    assert_eq!(
        effects.preview,
        Some("Review all worker results".to_string())
    );
    assert_eq!(state.budget_limit_reported_goal_id, None);
    assert_eq!(
        state.accounting.wall_clock.active_goal_id(),
        Some("new".to_string())
    );
    assert_eq!(
        state
            .accounting
            .turn
            .as_ref()
            .and_then(|turn| turn.active_goal_id()),
        Some("new".to_string())
    );
}

#[test]
fn an_invalid_objective_is_refused() {
    let stage = start_set_goal(
        true,
        SetGoalRequest {
            objective: Some(" ".to_string()),
            status: None,
            token_budget: None,
        },
    )
    .next(GoalRequestEvent::Store { present: true })
    .next(GoalRequestEvent::Validation(Err(
        "goal objective must not be empty".to_string(),
    )));
    assert_eq!(
        stage,
        SetGoalStage::Refused {
            error: GoalError::InvalidObjective("goal objective must not be empty".to_string())
        }
    );
}

#[test]
fn completing_a_goal_stops_its_accounting() {
    let stage = start_set_goal(true, AutoCompleteStage::completion_request())
        .next(GoalRequestEvent::Store { present: true })
        .next(GoalRequestEvent::ClockAccounted)
        .next(GoalRequestEvent::Goal(Some(goal(
            "g",
            StateGoalStatus::Active,
        ))));
    let SetGoalStage::Write { pending } = stage else {
        panic!("the store should be asked");
    };
    assert_eq!(
        pending.write,
        GoalWrite::Update(GoalUpdate {
            objective: None,
            status: Some(StateGoalStatus::Complete),
            token_budget: None,
            expected_goal_id: Some("g".to_string()),
        })
    );
    let mut state = running_state("g");
    let effects = state
        .set_thread_goal(
            1,
            "turn-1",
            pending,
            Some(goal("g", StateGoalStatus::Complete)),
            None,
            8,
        )
        .expect("the goal should be set");
    assert_eq!(effects.preview, None);
    assert_eq!(
        effects.terminal_metrics.map(|metrics| metrics.counter),
        Some(GoalCounter::Completed)
    );
    assert_eq!(state.accounting.wall_clock.active_goal_id(), None);
    assert_eq!(state.begin_progress("turn-1", Some(usage(900)), SECOND), None);
}

#[test]
fn a_missing_goal_cannot_be_updated() {
    let stage = start_set_goal(true, AutoCompleteStage::completion_request())
        .next(GoalRequestEvent::Store { present: true })
        .next(GoalRequestEvent::ClockAccounted)
        .next(GoalRequestEvent::Goal(None));
    let SetGoalStage::Write { pending } = stage else {
        panic!("the store should be asked");
    };
    let mut state = GoalRuntimeState::new(0);
    assert_eq!(
        state.set_thread_goal(9, "turn-1", pending, None, None, 0),
        Err(GoalError::NoGoalToUpdate(9))
    );
}

#[test]
fn a_goal_is_created_active() {
    let stage = start_create_goal(
        true,
        CreateGoalRequest {
            objective: " win ".to_string(),
            token_budget: None,
        },
    );
    let stage = stage
        .next(GoalRequestEvent::Validation(Ok(())))
        .next(GoalRequestEvent::Store { present: true })
        .next(GoalRequestEvent::ClockAccounted);
    assert_eq!(
        stage,
        CreateGoalStage::Insert {
            insert: GoalInsert {
                objective: "win".to_string(),
                status: StateGoalStatus::Active,
                token_budget: None,
            }
        }
    );
    let mut state = GoalRuntimeState::new(0);
    assert_eq!(
        state.create_thread_goal(1, "turn-1", None, None, 0),
        Err(GoalError::GoalExists(1))
    );
    let effects = state
        .create_thread_goal(
            1,
            "turn-1",
            Some(goal("new", StateGoalStatus::Active)),
            None,
            3,
        )
        .expect("the goal should be created");
    assert_eq!(effects.preview, "Review all worker results");
    assert_eq!(
        state.accounting.wall_clock.active_goal_id(),
        Some("new".to_string())
    );
    assert_eq!(
        start_create_goal(
            true,
            CreateGoalRequest {
                objective: String::new(),
                token_budget: Some(-1),
            }
        ),
        CreateGoalStage::Refused {
            error: GoalError::InvalidBudget
        }
    );
}

#[test]
fn a_goal_changed_from_outside_is_taken_in() {
    let old = goal("g", StateGoalStatus::Paused);
    let mut changed = goal("g", StateGoalStatus::Active);
    changed.objective = "Ship".to_string();
    let mut state = GoalRuntimeState::new(0);
    let set = ExternalGoalSet {
        goal: changed,
        previous_status: ExternalGoalPreviousStatus::from(&old),
    };
    let effects = state.apply_external_thread_goal_status(
        set.clone(),
        Some("turn-1".to_string()),
        Some(usage(3)),
        6,
    );
    assert!(!effects.created);
    assert!(effects.resumed);
    assert!(effects.continue_if_idle);
    assert_eq!(
        effects.steering_goal.map(|goal| goal.objective),
        Some("Ship".to_string())
    );
    assert_eq!(
        state.accounting.wall_clock.active_goal_id(),
        Some("g".to_string())
    );

    let limited = ExternalGoalSet {
        goal: goal("g", StateGoalStatus::BudgetLimited),
        previous_status: ExternalGoalPreviousStatus::Existing(ExternalGoalPreviousGoal::from(
            &old,
        )),
    };
    let effects = state.apply_external_thread_goal_status(
        limited.clone(),
        Some("turn-1".to_string()),
        None,
        7,
    );
    assert_eq!(
        effects.terminal_metrics.map(|metrics| metrics.counter),
        Some(GoalCounter::BudgetLimited)
    );
    assert_eq!(
        state.accounting.wall_clock.active_goal_id(),
        Some("g".to_string())
    );
    state.apply_external_thread_goal_status(limited, None, None, 8);
    assert_eq!(state.accounting.wall_clock.active_goal_id(), None);

    let replaced = ExternalGoalSet {
        goal: goal("h", StateGoalStatus::Complete),
        previous_status: ExternalGoalPreviousStatus::from(&goal("g", StateGoalStatus::Complete)),
    };
    let effects = state.apply_external_thread_goal_status(replaced, None, None, 9);
    assert!(effects.created);
    assert!(effects.terminal_metrics.is_some());
    assert!(!effects.continue_if_idle);

    let new = ExternalGoalSet {
        goal: goal("i", StateGoalStatus::Active),
        previous_status: ExternalGoalPreviousStatus::NewGoal,
    };
    let effects = state.apply_external_thread_goal_status(new, None, None, 10);
    assert!(effects.created);
    assert_eq!(effects.steering_goal, None);
}

#[test]
fn a_resumed_thread_restores_an_active_goal_only() {
    let mut state = GoalRuntimeState::new(0);
    assert!(state.restore_thread_goal_runtime_after_resume(
        Some(&goal("g", StateGoalStatus::Active)),
        5
    ));
    assert_eq!(
        state.accounting.wall_clock.active_goal_id(),
        Some("g".to_string())
    );
    assert!(!state.restore_thread_goal_runtime_after_resume(
        Some(&goal("g", StateGoalStatus::BudgetLimited)),
        6
    ));
    assert_eq!(state.accounting.wall_clock.active_goal_id(), None);
    assert!(!state.restore_thread_goal_runtime_after_resume(None, 7));
}

#[test]
fn a_finished_turn_leaves_the_accounting() {
    let mut state = running_state("g");
    state.finish_thread_goal_turn("turn-2");
    assert!(state.accounting.turn.is_some());
    state.finish_thread_goal_turn("turn-1");
    assert!(state.accounting.turn.is_none());
}

#[test]
fn an_active_goal_is_continued_while_idle() {
    let mut state = GoalRuntimeState::new(0);
    state.mark_auto_armed_orchestration_goal(Some(&goal("g", StateGoalStatus::Active)));
    let idle = || ContinuationEvent::Session {
        enabled: true,
        mode: ModeKind::Default,
        turn_active: false,
        mailbox_pending: false,
    };
    let stage = ContinuationStage::CheckIdle.next(idle(), &state);
    let stage = stage.next(
        ContinuationEvent::Goal {
            stored: Some(goal("g", StateGoalStatus::Active)),
            turn_active: false,
            mailbox_pending: false,
        },
        &state,
    );
    let ContinuationStage::WritePrompt {
        goal_id, prompt, ..
    } = &stage
    else {
        panic!("the prompt should be written");
    };
    assert_eq!(goal_id, "g");
    assert_eq!(*prompt, ContinuationPrompt::Orchestration);
    let stage = stage.next(ContinuationEvent::Prompt("Go on.".to_string()), &state);
    let stage = stage.next(ContinuationEvent::Reserved(Some(42)), &state);
    let stage = stage.next(
        ContinuationEvent::Reread(Some(goal("g", StateGoalStatus::Active))),
        &state,
    );
    assert_eq!(
        stage,
        ContinuationStage::Queue {
            items: vec![goal_context_input_item("Go on.")],
            turn_state: 42,
        }
    );
    assert_eq!(
        stage.next(
            ContinuationEvent::Queued {
                still_reserved: true
            },
            &state
        ),
        ContinuationStage::Start
    );
}

#[test]
fn a_continuation_stops_or_gives_its_turn_up() {
    let state = GoalRuntimeState::new(0);
    assert_eq!(
        ContinuationStage::CheckIdle.next(
            ContinuationEvent::Session {
                enabled: true,
                mode: ModeKind::Plan,
                turn_active: false,
                mailbox_pending: false,
            },
            &state
        ),
        ContinuationStage::Stop
    );
    let read = |status, mailbox_pending| {
        ContinuationStage::ReadGoal.next(
            ContinuationEvent::Goal {
                stored: Some(goal("g", status)),
                turn_active: false,
                mailbox_pending,
            },
            &GoalRuntimeState::new(0),
        )
    };
    assert_eq!(
        read(StateGoalStatus::Complete, false),
        ContinuationStage::Stop
    );
    assert_eq!(read(StateGoalStatus::Active, true), ContinuationStage::Stop);
    assert!(matches!(
        read(StateGoalStatus::Active, false),
        ContinuationStage::WritePrompt {
            prompt: ContinuationPrompt::Solo,
            ..
        }
    ));
    let recheck = || {
        read(StateGoalStatus::Active, false)
            .next(
                ContinuationEvent::Prompt("Go on.".to_string()),
                &GoalRuntimeState::new(0),
            )
            .next(
                ContinuationEvent::Reserved(Some(1)),
                &GoalRuntimeState::new(0),
            )
    };
    for event in [
        ContinuationEvent::Reread(None),
        ContinuationEvent::Reread(Some(goal("other", StateGoalStatus::Active))),
        ContinuationEvent::Reread(Some(goal("g", StateGoalStatus::Complete))),
        ContinuationEvent::Unavailable,
    ] {
        assert_eq!(
            recheck().next(event, &state),
            ContinuationStage::Release { turn_state: 1 }
        );
    }
}

#[test]
fn a_turn_is_reserved_and_released() {
    let mut active = None;
    assert!(reserve_turn(&mut active, 5));
    assert!(!reserve_turn(&mut active, 6));
    assert!(still_reserved(&active, 5));
    assert!(!still_reserved(&active, 6));
    clear_reserved_goal_continuation_turn(&mut active, 6);
    assert!(active.is_some());
    clear_reserved_goal_continuation_turn(&mut active, 5);
    assert_eq!(active, None);

    let mut busy = Some(ActiveTurn {
        turn_state: 5,
        has_task: true,
    });
    clear_reserved_goal_continuation_turn(&mut busy, 5);
    assert!(busy.is_some());
}

fn auto_complete_stage(state: &mut GoalRuntimeState, answered: bool) -> AutoCompleteStage {
    state.maybe_auto_complete_gemini_orchestration_goal(
        WireApi::GeminiNative,
        &SessionSource::Exec,
        answered,
        false,
    )
}

#[test]
fn an_orchestration_goal_is_completed_when_every_guard_holds() {
    let mut state = GoalRuntimeState::new(0);
    state.mark_auto_armed_orchestration_goal(Some(&goal("g", StateGoalStatus::Active)));
    let stage = auto_complete_stage(&mut state, true);
    let stage = stage.next(AutoCompleteEvent::Mailbox { pending: false });
    let stage = stage.next(AutoCompleteEvent::Goal(Some(goal(
        "g",
        StateGoalStatus::Active,
    ))));
    let stage = stage.next(AutoCompleteEvent::Children(vec![1, 2]));
    let stage = stage.next(AutoCompleteEvent::Status(AgentStatus::Completed(Some(
        "done".to_string(),
    ))));
    let stage = stage.next(AutoCompleteEvent::Status(AgentStatus::Shutdown));
    assert_eq!(
        stage,
        AutoCompleteStage::Complete {
            goal_id: "g".to_string()
        }
    );
}

#[test]
fn an_answer_lasts_until_a_child_is_engaged_again() {
    let mut state = GoalRuntimeState::new(0);
    state.mark_auto_armed_orchestration_goal(Some(&goal("g", StateGoalStatus::Active)));
    assert_eq!(auto_complete_stage(&mut state, false), AutoCompleteStage::Stop);
    assert_ne!(auto_complete_stage(&mut state, true), AutoCompleteStage::Stop);
    assert_ne!(auto_complete_stage(&mut state, false), AutoCompleteStage::Stop);
    let mut flag = false;
    state.mark_reengaged_child_this_turn(Some(&mut flag));
    assert!(flag);
    assert_eq!(auto_complete_stage(&mut state, false), AutoCompleteStage::Stop);
    state.mark_reengaged_child_this_turn(None);
    assert_ne!(auto_complete_stage(&mut state, true), AutoCompleteStage::Stop);
}

#[test]
fn an_orchestration_goal_is_left_alone_where_a_guard_fails() {
    let armed = || {
        let mut state = GoalRuntimeState::new(0);
        state.mark_auto_armed_orchestration_goal(Some(&goal("g", StateGoalStatus::Active)));
        state
    };
    assert_eq!(
        auto_complete_stage(&mut GoalRuntimeState::new(0), true),
        AutoCompleteStage::Stop
    );
    assert_eq!(
        armed().maybe_auto_complete_gemini_orchestration_goal(
            WireApi::Responses,
            &SessionSource::Exec,
            true,
            false
        ),
        AutoCompleteStage::Stop
    );
    assert_eq!(
        armed().maybe_auto_complete_gemini_orchestration_goal(
            WireApi::GeminiNative,
            &SessionSource::SubAgent(SubAgentSource::ThreadSpawn {
                agent_path: Some(AgentPath {
                    path: "/root/worker".to_string()
                })
            }),
            true,
            false
        ),
        AutoCompleteStage::Stop
    );
    assert_eq!(
        armed().maybe_auto_complete_gemini_orchestration_goal(
            WireApi::GeminiNative,
            &SessionSource::Exec,
            true,
            true
        ),
        AutoCompleteStage::Stop
    );
    let mailbox = |pending| {
        auto_complete_stage(&mut armed(), true).next(AutoCompleteEvent::Mailbox { pending })
    };
    assert_eq!(mailbox(true), AutoCompleteStage::Stop);
    assert_eq!(
        mailbox(false).next(AutoCompleteEvent::Goal(Some(goal(
            "user",
            StateGoalStatus::Active
        )))),
        AutoCompleteStage::Stop
    );
    assert_eq!(
        mailbox(false).next(AutoCompleteEvent::Unavailable),
        AutoCompleteStage::Stop
    );
    let listed = mailbox(false)
        .next(AutoCompleteEvent::Goal(Some(goal(
            "g",
            StateGoalStatus::Active,
        ))))
        .next(AutoCompleteEvent::Children(vec![1]));
    assert_eq!(
        listed.next(AutoCompleteEvent::Status(AgentStatus::Completed(None))),
        AutoCompleteStage::Stop
    );
    let empty = mailbox(false)
        .next(AutoCompleteEvent::Goal(Some(goal(
            "g",
            StateGoalStatus::Active,
        ))))
        .next(AutoCompleteEvent::Children(vec![]));
    assert_eq!(
        empty,
        AutoCompleteStage::Complete {
            goal_id: "g".to_string()
        }
    );
}

#[test]
fn the_store_is_opened_from_the_first_source() {
    let found = |present| StoreEvent::Found { present };
    assert_eq!(
        StoreStage::ReadConfig.next(StoreEvent::Config { ephemeral: true }),
        StoreStage::Ephemeral
    );
    let asked = StoreStage::ReadConfig
        .next(StoreEvent::Config { ephemeral: false })
        .next(StoreEvent::Done);
    assert_eq!(
        asked.next(found(true)).next(found(true)),
        StoreStage::Open {
            source: StoreSource::Session
        }
    );
    assert_eq!(
        asked.next(found(false)).next(found(true)).next(found(true)),
        StoreStage::Open {
            source: StoreSource::Remembered
        }
    );
    let local = asked.next(found(false)).next(found(false));
    assert_eq!(
        local.next(found(false)),
        StoreStage::Failed {
            failure: StoreFailure::NoStateDb
        }
    );
    let unknown = local.next(found(true)).next(found(false));
    assert_eq!(
        unknown,
        StoreStage::LocateRollout {
            source: StoreSource::LocalThreads
        }
    );
    assert_eq!(
        unknown.next(found(false)),
        StoreStage::Failed {
            failure: StoreFailure::NoThreadMetadata
        }
    );
    assert_eq!(
        unknown.next(found(true)).next(found(true)),
        StoreStage::Open {
            source: StoreSource::LocalThreads
        }
    );
    assert_eq!(
        unknown.next(found(true)).next(found(false)),
        StoreStage::Failed {
            failure: StoreFailure::ThreadMetadataUnavailable
        }
    );
    assert_eq!(
        unknown.next(found(true)).next(StoreEvent::Failed),
        StoreStage::Failed {
            failure: StoreFailure::RereadMetadata
        }
    );
    assert_eq!(
        unknown.next(StoreEvent::Failed),
        StoreStage::Failed {
            failure: StoreFailure::LocateRollout
        }
    );
    assert_eq!(
        local.next(found(true)).next(StoreEvent::Failed),
        StoreStage::Failed {
            failure: StoreFailure::ReadMetadata
        }
    );
    assert_eq!(
        StoreStage::Materialize.next(StoreEvent::Failed),
        StoreStage::Failed {
            failure: StoreFailure::MaterializeRollout
        }
    );
}

#[test]
fn only_changes_of_status_are_measured() {
    let complete = goal("goal", StateGoalStatus::Complete);
    assert_eq!(
        goal_terminal_metrics_if_status_changed(Some(StateGoalStatus::Complete), &complete),
        None
    );
    assert_eq!(
        goal_terminal_metrics_if_status_changed(Some(StateGoalStatus::Active), &complete),
        Some(TerminalMetrics {
            counter: GoalCounter::Completed,
            status: StateGoalStatus::Complete,
            tokens_used: 40,
            time_used_seconds: 7,
        })
    );
    assert!(!goal_resumed_metric_if_status_changed(
        Some(StateGoalStatus::Active),
        StateGoalStatus::Active
    ));
}

fn may_continue(state: &GoalRuntimeState) -> bool {
    let idle = ContinuationEvent::Session {
        enabled: true,
        mode: ModeKind::Default,
        turn_active: false,
        mailbox_pending: false,
    };
    ContinuationStage::CheckIdle.next(idle, state) == ContinuationStage::ReadGoal
}

/// Runs a turn that continues the goal, with the given tools.
fn continue_once(state: &mut GoalRuntimeState, turn_id: &str, tools: &[&str], completed: bool) {
    state.goal_continuation_started(turn_id);
    let mut apply = |event| state.goal_runtime_apply(&event, Some(turn_id));
    assert_eq!(
        apply(GoalRuntimeEvent::TurnStarted),
        GoalRuntimeAction::MarkTurnStarted
    );
    for tool in tools {
        apply(GoalRuntimeEvent::ToolCompleted {
            tool_name: tool.to_string(),
        });
    }
    apply(GoalRuntimeEvent::TurnFinished {
        turn_completed: completed,
    });
}

#[test]
fn a_continuation_without_activity_suppresses_the_next() {
    let mut state = GoalRuntimeState::new(0);
    assert!(may_continue(&state));

    continue_once(&mut state, "c-1", &["exec_command"], true);
    assert!(may_continue(&state));
    continue_once(&mut state, "c-2", &[], false);
    assert!(may_continue(&state));
    continue_once(&mut state, "c-3", &["update_goal"], true);
    assert!(!may_continue(&state));

    assert_eq!(
        state.goal_runtime_apply(&GoalRuntimeEvent::MaybeContinueIfIdle, None),
        GoalRuntimeAction::ContinueIfIdle
    );
    assert!(!may_continue(&state));
}

#[test]
fn activity_lifts_the_suppression() {
    let lifting = [
        (GoalRuntimeEvent::TurnStarted, Some("user-turn")),
        (
            GoalRuntimeEvent::ToolCompleted {
                tool_name: "exec_command".to_string(),
            },
            Some("user-turn"),
        ),
        (GoalRuntimeEvent::ToolCompletedGoal, Some("user-turn")),
        (GoalRuntimeEvent::ExternalSet, None),
        (GoalRuntimeEvent::ExternalClear, None),
        (GoalRuntimeEvent::ExternalMutationStarting, None),
        (GoalRuntimeEvent::ThreadResumed, None),
    ];
    for (event, turn_id) in lifting {
        let mut state = GoalRuntimeState::new(0);
        continue_once(&mut state, "c-1", &[], true);
        assert!(!may_continue(&state));
        state.goal_runtime_apply(&event, turn_id);
        assert!(may_continue(&state), "{event:?} should lift the suppression");
    }
}

#[test]
fn an_ordinary_turn_suppresses_nothing() {
    let mut state = GoalRuntimeState::new(0);
    state.goal_runtime_apply(&GoalRuntimeEvent::TurnStarted, Some("user-turn"));
    state.goal_runtime_apply(
        &GoalRuntimeEvent::TurnFinished {
            turn_completed: true,
        },
        Some("user-turn"),
    );
    assert!(may_continue(&state));

    state.goal_continuation_started("c-1");
    state.goal_runtime_apply(&GoalRuntimeEvent::TurnStarted, Some("c-1"));
    state.goal_runtime_apply(&GoalRuntimeEvent::TaskAborted { has_turn: true }, Some("c-1"));
    assert!(may_continue(&state));
}

#[test]
fn only_valid_objectives_reach_the_store() {
    let request = || SetGoalRequest {
        objective: Some("  Ship it  ".to_string()),
        status: None,
        token_budget: None,
    };
    let opened = start_set_goal(true, request()).next(GoalRequestEvent::Store { present: true });
    let unvalidated = opened
        .next(GoalRequestEvent::ClockAccounted)
        .next(GoalRequestEvent::Goal(None));
    assert!(matches!(
        unvalidated,
        SetGoalStage::ValidateObjective { .. }
    ));
    let ephemeral = start_set_goal(true, request())
        .next(GoalRequestEvent::Store { present: false })
        .next(GoalRequestEvent::Validation(Ok(())));
    assert_eq!(
        ephemeral,
        SetGoalStage::Refused {
            error: GoalError::EphemeralThread
        }
    );
}
