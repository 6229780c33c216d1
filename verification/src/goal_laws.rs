//! What goals and the requests for them promise their callers, in terms of what goes into an
//! operation and what comes out of it.

use crate::goal::{
    current_goal_status_for_metrics, get_thread_goal, goal_context_input_item,
    goal_resumed_metric_if_status_changed, goal_terminal_metrics_if_status_changed,
    protocol_goal_from_state, protocol_goal_status_from_state, require_goals_feature,
    should_ignore_goal_for_mode, state_goal_status_from_protocol, validate_goal_budget, GoalError,
    StateGoal, StateGoalStatus, TerminalMetrics, ThreadGoal, ThreadGoalStatus,
};
use crate::goal_auto_complete::{AutoCompleteEvent, AutoCompleteStage};
use crate::goal_continuation::{
    clear_reserved_goal_continuation_turn, reserve_turn, still_reserved, ActiveTurn,
    ContinuationEvent, ContinuationPrompt, ContinuationStage,
};
use crate::goal_runtime::GoalRuntimeState;
use crate::goal_runtime_laws::{
    clock_kept, measures, memory_kept, publishes, report_kept, turn_kept,
};
use crate::goal_set::{
    check_set_goal, objective_validated, plan_set_goal, start_create_goal, start_set_goal,
    CheckedSetGoal, CreateGoalEffects, CreateGoalRequest, CreateGoalStage, GoalInsert,
    GoalRequestEvent, GoalWrite, PendingSetGoal, SetGoalEffects, SetGoalRequest, SetGoalStage,
};
use crate::goal_store::{StoreEvent, StoreFailure, StoreSource, StoreStage};
use crate::orchestration::{is_root_orchestrator, ChildPoll};
use crate::orchestration_laws::lemma_user_text_parts;
use crate::protocol::{
    AgentStatus, ContentItem, ModeKind, ResponseItem, SessionSource, WireApi,
};
use crate::text::{opt_text, trimmed};
use crate::thread_id::{thread_text, ThreadId};
use crate::token_usage::TokenUsage;
use vstd::prelude::*;

verus! {

// ---------------------------------------------------------------------------
// Goals
// ---------------------------------------------------------------------------

/// Storing a status and publishing it keep what it says.
pub proof fn lemma_statuses_keep_their_meaning(
    stored: StateGoalStatus,
    published: ThreadGoalStatus,
    to_published: ThreadGoalStatus,
    to_stored: StateGoalStatus,
)
    requires
        call_ensures(protocol_goal_status_from_state, (stored,), to_published),
        call_ensures(state_goal_status_from_protocol, (published,), to_stored),
    ensures
        stored is Active <==> to_published is Active,
        stored is Paused <==> to_published is Paused,
        stored is Blocked <==> to_published is Blocked,
        stored is UsageLimited <==> to_published is UsageLimited,
        stored is BudgetLimited <==> to_published is BudgetLimited,
        stored is Complete <==> to_published is Complete,
        published is Active <==> to_stored is Active,
        published is Paused <==> to_stored is Paused,
        published is Blocked <==> to_stored is Blocked,
        published is UsageLimited <==> to_stored is UsageLimited,
        published is BudgetLimited <==> to_stored is BudgetLimited,
        published is Complete <==> to_stored is Complete,
{
}

/// A goal is published as it is stored, and a thread without one publishes none.
pub proof fn lemma_goal_is_published_as_stored(
    stored: StateGoal,
    published: ThreadGoal,
    read: Option<StateGoal>,
    answered: Option<ThreadGoal>,
)
    requires
        call_ensures(protocol_goal_from_state, (stored,), published),
        call_ensures(get_thread_goal, (read,), answered),
    ensures
        publishes(stored, published),
        read is Some <==> answered is Some,
        read is Some ==> publishes(read->Some_0, answered->Some_0),
{
}

/// Only a positive budget is accepted, where one is given; goals rest while their feature is
/// off, and in plan mode.
pub proof fn lemma_what_is_asked_of_goals(
    budget: Option<i64>,
    checked: Result<(), GoalError>,
    enabled: bool,
    feature: Result<(), GoalError>,
    mode: ModeKind,
    rests: bool,
)
    requires
        call_ensures(validate_goal_budget, (budget,), checked),
        call_ensures(require_goals_feature, (enabled,), feature),
        call_ensures(should_ignore_goal_for_mode, (mode,), rests),
    ensures
        checked is Ok <==> (budget is Some ==> budget->Some_0 > 0),
        checked is Err ==> checked->Err_0 is InvalidBudget,
        feature is Ok <==> enabled,
        feature is Err ==> feature->Err_0 is FeatureDisabled,
        rests <==> mode == ModeKind::Plan,
{
}

/// A prompt about a goal reaches the model as a hidden message that names its source.
pub proof fn lemma_prompt_about_a_goal(prompt: &str, result: ResponseItem)
    requires
        call_ensures(goal_context_input_item, (prompt,), result),
    ensures
        result matches ResponseItem::Message { id, role, content, phase } && {
            &&& id is None
            &&& role@ == "user"@
            &&& phase is None
            &&& content@.len() == 1
            &&& content@[0] matches ContentItem::InputText { text } && text@
                == "<codex_internal_context source=\""@ + "goal"@ + "\">\n"@ + prompt@
                + "\n</codex_internal_context>"@
        },
{
    lemma_user_text_parts(
        result,
        "<codex_internal_context source=\""@ + "goal"@ + "\">\n"@ + prompt@
            + "\n</codex_internal_context>"@,
    );
}

/// A goal counts as resumed where it becomes active after it was paused, blocked or limited by
/// usage; and it is measured where it comes to rest. Neither is so where its status stays.
pub proof fn lemma_goal_is_measured(
    previous: Option<StateGoalStatus>,
    goal: StateGoal,
    resumed: bool,
    metrics: Option<TerminalMetrics>,
)
    requires
        call_ensures(goal_resumed_metric_if_status_changed, (previous, goal.status), resumed),
        call_ensures(goal_terminal_metrics_if_status_changed, (previous, &goal), metrics),
    ensures
        resumed <==> goal.status is Active && previous is Some && (previous->Some_0 is Paused
            || previous->Some_0 is Blocked || previous->Some_0 is UsageLimited),
        measures(previous, goal, metrics),
{
}

/// A change is measured against the status of the goal that is there, where it is the expected
/// one or none is expected.
pub proof fn lemma_status_that_a_change_is_measured_against(
    goal: Option<&StateGoal>,
    expected: Option<&str>,
    result: Option<StateGoalStatus>,
)
    requires
        call_ensures(current_goal_status_for_metrics, (goal, expected), result),
    ensures
        result == if goal is Some && (expected is None || expected->Some_0@
            == goal->Some_0.goal_id@) {
            Some(goal->Some_0.status)
        } else {
            None
        },
{
}

/// The refusals that name a thread name the right one, and an objective is refused with its
/// reason.
pub proof fn lemma_refusals_say_why(error: GoalError, result: String)
    requires
        call_ensures(GoalError::message, (&error,), result),
    ensures
        error matches GoalError::NoGoalToUpdate(id) ==> result@ == "cannot update goal for thread "@
            + thread_text(id) + ": no goal exists"@,
        error matches GoalError::GoalExists(id) ==> result@
            == "cannot create a new goal because thread "@ + thread_text(id)
            + " already has a goal"@,
        error matches GoalError::InvalidObjective(reason) ==> result@ == reason@,
        error is FeatureDisabled ==> result@ == "goals feature is disabled"@,
        error is InvalidBudget ==> result@ == "goal budgets must be positive when provided"@,
        error is EphemeralThread ==> result@
            == "thread goals require a persisted thread; this thread is ephemeral"@,
        error is NoStateDb ==> result@
            == "thread goals require a local persisted thread with a state database"@,
        error is NoThreadMetadata ==> result@
            == "thread goals require materialized thread metadata"@,
        error is ThreadMetadataUnavailable ==> result@
            == "thread metadata is unavailable after reconciling thread goals"@,
        error is MaterializeRollout ==> result@
            == "failed to materialize rollout before opening state db for thread goals"@,
        error is ReadMetadata ==> result@
            == "failed to read thread metadata before reconciling thread goals"@,
        error is LocateRollout ==> result@
            == "failed to locate rollout before reconciling thread goals"@,
        error is RereadMetadata ==> result@
            == "failed to read thread metadata after reconciling thread goals"@,
{
}

// ---------------------------------------------------------------------------
// Setting a goal
// ---------------------------------------------------------------------------

/// A request is refused where the feature is off or its budget is not positive; else it is
/// taken as it is, with the white space at the ends of its objective taken off.
pub proof fn lemma_request_is_checked(
    enabled: bool,
    request: SetGoalRequest,
    checked: Result<CheckedSetGoal, GoalError>,
    started: SetGoalStage,
)
    requires
        call_ensures(check_set_goal, (enabled, request), checked),
        call_ensures(start_set_goal, (enabled, request), started),
    ensures
        ({
            let bad_budget = request.token_budget is Some && request.token_budget->Some_0 is Some
                && request.token_budget->Some_0->Some_0 <= 0;
            &&& checked is Ok <==> enabled && !bad_budget
            &&& !enabled ==> checked->Err_0 is FeatureDisabled
            &&& enabled && bad_budget ==> checked->Err_0 is InvalidBudget
            &&& checked matches Ok(taken) ==> {
                &&& taken.status == request.status
                &&& taken.token_budget == request.token_budget
                &&& opt_text(taken.objective) == if request.objective is Some {
                    Some(trimmed(request.objective->Some_0@))
                } else {
                    None
                }
            }
            &&& checked is Err ==> (started matches SetGoalStage::Refused { error } && error
                == checked->Err_0)
            &&& checked is Ok ==> (started matches SetGoalStage::OpenStore { request: taken } && {
                &&& taken.status == request.status
                &&& taken.token_budget == request.token_budget
                &&& opt_text(taken.objective) == opt_text(checked->Ok_0.objective)
            })
        }),
{
}

/// What the store is asked: a new goal is put in place where there is none and an objective is
/// given, active where no status is; else the goal that is there is changed in what is given,
/// where it is still the same.
pub proof fn lemma_what_the_store_is_asked(
    request: CheckedSetGoal,
    existing: Option<&StateGoal>,
    result: PendingSetGoal,
    to_stored: StateGoalStatus,
)
    requires
        call_ensures(plan_set_goal, (request, existing), result),
        request.status is Some ==> call_ensures(
            state_goal_status_from_protocol,
            (request.status->Some_0,),
            to_stored,
        ),
    ensures
        result.write is Replace <==> request.objective is Some && existing is None,
        result.write matches GoalWrite::Replace(insert) ==> {
            &&& insert.objective@ == request.objective->Some_0@
            &&& request.status is Some ==> insert.status == to_stored
            &&& request.status is None ==> insert.status is Active
            &&& insert.token_budget == if request.token_budget is Some {
                request.token_budget->Some_0
            } else {
                None
            }
        },
        result.write matches GoalWrite::Update(update) ==> {
            &&& opt_text(update.objective) == opt_text(request.objective)
            &&& update.status is Some <==> request.status is Some
            &&& request.status is Some ==> update.status->Some_0 == to_stored
            &&& update.token_budget == request.token_budget
            &&& opt_text(update.expected_goal_id) == if existing is Some {
                Some(existing->Some_0.goal_id@)
            } else {
                None
            }
        },
        result.previous_status == if existing is Some {
            Some(existing->Some_0.status)
        } else {
            None
        },
        result.sets_objective <==> request.objective is Some,
{
}

/// The way of a request: a thread without a store refuses it; an objective is validated before
/// the clock is accounted, and the goal is read after that; then the store is asked.
pub proof fn lemma_way_of_a_request(
    stage: SetGoalStage,
    event: GoalRequestEvent,
    result: SetGoalStage,
)
    requires
        call_ensures(SetGoalStage::next, (stage, event), result),
    ensures
        stage matches SetGoalStage::OpenStore { request } ==> (
        event matches GoalRequestEvent::Store { present } ==> if !present {
            result matches SetGoalStage::Refused { error } && error is EphemeralThread
        } else if request.objective is Some {
            result == (SetGoalStage::ValidateObjective { request })
        } else {
            result == (SetGoalStage::AccountClock { request })
        }),
        stage matches SetGoalStage::ValidateObjective { request } ==> (
        event matches GoalRequestEvent::Validation(validation) ==> if validation is Ok {
            result == (SetGoalStage::AccountClock { request })
        } else {
            result matches SetGoalStage::Refused { error } && error == GoalError::InvalidObjective(
                validation->Err_0,
            )
        }),
        stage matches SetGoalStage::AccountClock { request } ==> (event is ClockAccounted ==> result
            == (SetGoalStage::ReadGoal { request })),
        event is Failed && !(stage is Write) && !(stage is Refused) ==> result is Failed,
        stage is Write || stage is Refused || stage is Failed ==> result == stage,
        result is Write && !(stage is Write) ==> stage is ReadGoal && event is Goal,
        result is ReadGoal && !(stage is ReadGoal) ==> stage is AccountClock,
        result is AccountClock && !(stage is AccountClock) ==> stage is OpenStore
            || stage is ValidateObjective,
{
}

/// The store is asked for the goal that was read.
pub proof fn lemma_store_is_asked_for_the_goal_at_hand(
    request: CheckedSetGoal,
    existing: StateGoal,
    planned: PendingSetGoal,
    planned_new: PendingSetGoal,
    result: SetGoalStage,
    result_new: SetGoalStage,
)
    requires
        call_ensures(plan_set_goal, (request, Some(&existing)), planned),
        call_ensures(plan_set_goal, (request, None), planned_new),
        call_ensures(
            SetGoalStage::next,
            (SetGoalStage::ReadGoal { request }, GoalRequestEvent::Goal(Some(existing))),
            result,
        ),
        call_ensures(
            SetGoalStage::next,
            (SetGoalStage::ReadGoal { request }, GoalRequestEvent::Goal(None)),
            result_new,
        ),
    ensures
        result == (SetGoalStage::Write { pending: planned }),
        result_new == (SetGoalStage::Write { pending: planned_new }),
{
}

/// What the store wrote: a goal that became active is charged with the turn from now on; one
/// that is not active is charged no more; one that stays active is charged as before. Where
/// there was no goal to change the request is refused and nothing changes.
pub proof fn lemma_written_goal_is_accounted(
    state: &mut GoalRuntimeState,
    thread_id: ThreadId,
    turn_id: &str,
    pending: PendingSetGoal,
    written: Option<StateGoal>,
    usage: Option<TokenUsage>,
    now: u128,
    result: Result<SetGoalEffects, GoalError>,
)
    requires
        call_ensures(
            GoalRuntimeState::set_thread_goal,
            (state, thread_id, turn_id, pending, written, usage, now),
            result,
        ),
    ensures
        memory_kept(*old(state), *final(state)),
        result is Ok <==> written is Some,
        written is None ==> {
            &&& result->Err_0 == GoalError::NoGoalToUpdate(thread_id)
            &&& turn_kept(old(state).accounting.turn, final(state).accounting.turn)
            &&& clock_kept(old(state).accounting.wall_clock, final(state).accounting.wall_clock)
            &&& report_kept(*old(state), *final(state))
        },
        written matches Some(goal) ==> {
            let before = old(state).accounting;
            let after = final(state).accounting;
            let created = pending.write is Replace;
            let previous = if created {
                None
            } else {
                pending.previous_status
            };
            let effects = result->Ok_0;
            let own = before.turn is Some && before.turn->Some_0.turn_id@ == turn_id@;
            &&& publishes(goal, effects.goal)
            &&& effects.created == created
            &&& effects.resumed <==> goal.status is Active && previous is Some && (
            previous->Some_0 is Paused || previous->Some_0 is Blocked
                || previous->Some_0 is UsageLimited)
            &&& measures(previous, goal, effects.terminal_metrics)
            &&& opt_text(effects.preview) == if pending.sets_objective {
                Some(goal.objective@)
            } else {
                None
            }
            &&& final(state).budget_limit_reported_goal_id is None
            &&& goal.status is Active && (created || (pending.previous_status is Some && !(
            pending.previous_status->Some_0 is Active))) ==> {
                &&& after.turn is Some
                &&& after.turn->Some_0.turn_id@ == turn_id@
                &&& opt_text(after.turn->Some_0.active_goal_id) == Some(goal.goal_id@)
                &&& usage is Some ==> after.turn->Some_0.last_accounted_token_usage
                    == usage->Some_0
                &&& usage is None ==> after.turn->Some_0.last_accounted_token_usage == (
                TokenUsage {
                    input_tokens: 0,
                    cached_input_tokens: 0,
                    output_tokens: 0,
                    reasoning_output_tokens: 0,
                    total_tokens: 0,
                })
                &&& opt_text(after.wall_clock.active_goal_id) == Some(goal.goal_id@)
                &&& after.wall_clock.last_accounted_at == if opt_text(
                    before.wall_clock.active_goal_id,
                ) == Some(goal.goal_id@) {
                    before.wall_clock.last_accounted_at
                } else {
                    now
                }
            }
            &&& goal.status is Active && !created && (pending.previous_status is None
                || pending.previous_status->Some_0 is Active) ==> {
                &&& turn_kept(before.turn, after.turn)
                &&& clock_kept(before.wall_clock, after.wall_clock)
            }
            &&& !(goal.status is Active) ==> {
                &&& after.wall_clock.active_goal_id is None
                &&& after.wall_clock.last_accounted_at == now
                &&& !own ==> turn_kept(before.turn, after.turn)
                &&& own ==> {
                    &&& after.turn is Some
                    &&& after.turn->Some_0.turn_id@ == turn_id@
                    &&& after.turn->Some_0.active_goal_id is None
                    &&& after.turn->Some_0.last_accounted_token_usage
                        == before.turn->Some_0.last_accounted_token_usage
                }
            }
        },
{
}

// ---------------------------------------------------------------------------
// Creating a goal
// ---------------------------------------------------------------------------

/// A new goal is active, with the objective and the budget that were asked for. The request is
/// refused where the feature is off or the budget is not positive, then where the objective is
/// not valid, and then where the thread has no store.
pub proof fn lemma_new_goal_is_asked_for(
    enabled: bool,
    request: CreateGoalRequest,
    started: CreateGoalStage,
    stage: CreateGoalStage,
    event: GoalRequestEvent,
    result: CreateGoalStage,
    validation: Result<(), String>,
    validated: Result<(), GoalError>,
)
    requires
        call_ensures(start_create_goal, (enabled, request), started),
        call_ensures(CreateGoalStage::next, (stage, event), result),
        call_ensures(objective_validated, (validation,), validated),
    ensures
        ({
            let bad_budget = request.token_budget is Some && request.token_budget->Some_0 <= 0;
            &&& started is ValidateObjective <==> enabled && !bad_budget
            &&& !enabled ==> (started matches CreateGoalStage::Refused { error }
                && error is FeatureDisabled)
            &&& enabled && bad_budget ==> (started matches CreateGoalStage::Refused { error }
                && error is InvalidBudget)
            &&& started matches CreateGoalStage::ValidateObjective { insert } ==> {
                &&& insert.objective@ == trimmed(request.objective@)
                &&& insert.status is Active
                &&& insert.token_budget == request.token_budget
            }
        }),
        validated is Ok <==> validation is Ok,
        validation matches Err(reason) ==> validated->Err_0 == GoalError::InvalidObjective(reason),
        stage matches CreateGoalStage::ValidateObjective { insert } ==> (
        event matches GoalRequestEvent::Validation(valid) ==> if valid is Ok {
            result == (CreateGoalStage::OpenStore { insert })
        } else {
            result matches CreateGoalStage::Refused { error } && error
                == GoalError::InvalidObjective(valid->Err_0)
        }),
        stage matches CreateGoalStage::OpenStore { insert } ==> (
        event matches GoalRequestEvent::Store { present } ==> if present {
            result == (CreateGoalStage::AccountClock { insert })
        } else {
            result matches CreateGoalStage::Refused { error } && error is EphemeralThread
        }),
        stage matches CreateGoalStage::AccountClock { insert } ==> (event is ClockAccounted
            ==> result == (CreateGoalStage::Insert { insert })),
        event is Failed && !(stage is Insert) && !(stage is Refused) ==> result is Failed,
        stage is Insert || stage is Refused || stage is Failed ==> result == stage,
        result is Insert && !(stage is Insert) ==> stage is AccountClock,
        result is AccountClock && !(stage is AccountClock) ==> stage is OpenStore,
        result is OpenStore && !(stage is OpenStore) ==> stage is ValidateObjective,
{
}

/// A goal that was created is charged with the turn from now on; where there is one already
/// the request is refused and nothing changes.
pub proof fn lemma_created_goal_is_accounted(
    state: &mut GoalRuntimeState,
    thread_id: ThreadId,
    turn_id: &str,
    inserted: Option<StateGoal>,
    usage: Option<TokenUsage>,
    now: u128,
    result: Result<CreateGoalEffects, GoalError>,
)
    requires
        call_ensures(
            GoalRuntimeState::create_thread_goal,
            (state, thread_id, turn_id, inserted, usage, now),
            result,
        ),
    ensures
        memory_kept(*old(state), *final(state)),
        result is Ok <==> inserted is Some,
        inserted is None ==> {
            &&& result->Err_0 == GoalError::GoalExists(thread_id)
            &&& turn_kept(old(state).accounting.turn, final(state).accounting.turn)
            &&& clock_kept(old(state).accounting.wall_clock, final(state).accounting.wall_clock)
            &&& report_kept(*old(state), *final(state))
        },
        inserted matches Some(goal) ==> {
            let clock = old(state).accounting.wall_clock;
            let after = final(state).accounting;
            &&& publishes(goal, result->Ok_0.goal)
            &&& result->Ok_0.preview@ == goal.objective@
            &&& final(state).budget_limit_reported_goal_id is None
            &&& after.turn is Some
            &&& after.turn->Some_0.turn_id@ == turn_id@
            &&& opt_text(after.turn->Some_0.active_goal_id) == Some(goal.goal_id@)
            &&& usage is Some ==> after.turn->Some_0.last_accounted_token_usage == usage->Some_0
            &&& usage is None ==> after.turn->Some_0.last_accounted_token_usage == (
                TokenUsage {
                    input_tokens: 0,
                    cached_input_tokens: 0,
                    output_tokens: 0,
                    reasoning_output_tokens: 0,
                    total_tokens: 0,
                })
            &&& opt_text(after.wall_clock.active_goal_id) == Some(goal.goal_id@)
            &&& after.wall_clock.last_accounted_at == if opt_text(clock.active_goal_id) == Some(
                goal.goal_id@,
            ) {
                clock.last_accounted_at
            } else {
                now
            }
        },
{
}

// ---------------------------------------------------------------------------
// Opening the store
// ---------------------------------------------------------------------------

/// An ephemeral thread has no store. For any other its record is written out; the session, the
/// store that was opened before and the local store of threads are asked in this order; and the
/// first that is there is opened once it knows the thread, which it may learn from the record.
pub proof fn lemma_store_is_opened(stage: StoreStage, event: StoreEvent, result: StoreStage)
    requires
        call_ensures(StoreStage::next, (stage, event), result),
    ensures
        stage is ReadConfig ==> (event matches StoreEvent::Config { ephemeral } ==> if ephemeral {
            result is Ephemeral
        } else {
            result is Materialize
        }),
        stage is Materialize && event is Done ==> result is AskSession,
        stage is AskSession && event == (StoreEvent::Found { present: true }) ==> result == (
        StoreStage::ReadMetadata { source: StoreSource::Session }),
        stage is AskSession && event == (StoreEvent::Found { present: false })
            ==> result is AskRemembered,
        stage is AskRemembered && event == (StoreEvent::Found { present: true }) ==> result == (
        StoreStage::ReadMetadata { source: StoreSource::Remembered }),
        stage is AskRemembered && event == (StoreEvent::Found { present: false })
            ==> result is AskLocalThreads,
        stage is AskLocalThreads && event == (StoreEvent::Found { present: true }) ==> result == (
        StoreStage::ReadMetadata { source: StoreSource::LocalThreads }),
        stage is AskLocalThreads && event == (StoreEvent::Found { present: false }) ==> result == (
        StoreStage::Failed { failure: StoreFailure::NoStateDb }),
        stage matches StoreStage::ReadMetadata { source } ==> {
            &&& event == (StoreEvent::Found { present: true }) ==> result == (StoreStage::Open {
                source,
            })
            &&& event == (StoreEvent::Found { present: false }) ==> result == (
            StoreStage::LocateRollout { source })
            &&& event is Failed ==> result == (StoreStage::Failed {
                failure: StoreFailure::ReadMetadata,
            })
        },
        stage matches StoreStage::LocateRollout { source } ==> {
            &&& event == (StoreEvent::Found { present: true }) ==> result == (
            StoreStage::Reconcile { source })
            &&& event == (StoreEvent::Found { present: false }) ==> result == (StoreStage::Failed {
                failure: StoreFailure::NoThreadMetadata,
            })
            &&& event is Failed ==> result == (StoreStage::Failed {
                failure: StoreFailure::LocateRollout,
            })
        },
        stage matches StoreStage::Reconcile { source } ==> {
            &&& event == (StoreEvent::Found { present: true }) ==> result == (StoreStage::Open {
                source,
            })
            &&& event == (StoreEvent::Found { present: false }) ==> result == (StoreStage::Failed {
                failure: StoreFailure::ThreadMetadataUnavailable,
            })
            &&& event is Failed ==> result == (StoreStage::Failed {
                failure: StoreFailure::RereadMetadata,
            })
        },
        stage is Materialize && event is Failed ==> result == (StoreStage::Failed {
            failure: StoreFailure::MaterializeRollout,
        }),
        stage is Open || stage is Ephemeral || stage is Failed ==> result == stage,
{
}

/// A failure is the error of its name.
pub proof fn lemma_failures_of_the_store(failure: StoreFailure, result: GoalError)
    requires
        call_ensures(StoreFailure::error, (failure,), result),
    ensures
        failure is NoStateDb <==> result is NoStateDb,
        failure is NoThreadMetadata <==> result is NoThreadMetadata,
        failure is ThreadMetadataUnavailable <==> result is ThreadMetadataUnavailable,
        failure is MaterializeRollout <==> result is MaterializeRollout,
        failure is ReadMetadata <==> result is ReadMetadata,
        failure is LocateRollout <==> result is LocateRollout,
        failure is RereadMetadata <==> result is RereadMetadata,
{
}

// ---------------------------------------------------------------------------
// Continuing a goal
// ---------------------------------------------------------------------------

/// A turn is reserved where none is at hand, and given up where it is the reserved one and no
/// task runs in it; any other turn stays.
pub proof fn lemma_turn_is_reserved_and_given_up(
    reserved: &mut Option<ActiveTurn>,
    given_up: &mut Option<ActiveTurn>,
    active: Option<ActiveTurn>,
    turn_state: u64,
    could_reserve: bool,
    is_reserved: bool,
)
    requires
        call_ensures(reserve_turn, (reserved, turn_state), could_reserve),
        call_ensures(clear_reserved_goal_continuation_turn, (given_up, turn_state), ()),
        call_ensures(still_reserved, (&active, turn_state), is_reserved),
    ensures
        could_reserve <==> (*old(reserved)) is None,
        could_reserve ==> (*final(reserved)) is Some && (*final(reserved))->Some_0.turn_state
            == turn_state && !(*final(reserved))->Some_0.has_task,
        !could_reserve ==> *final(reserved) == *old(reserved),
        is_reserved <==> active is Some && active->Some_0.turn_state == turn_state
            && !active->Some_0.has_task,
        *final(given_up) == if (*old(given_up)) is Some && (*old(given_up))->Some_0.turn_state
            == turn_state && !(*old(given_up))->Some_0.has_task {
            None
        } else {
            *old(given_up)
        },
{
}

/// A goal is continued where goals apply, no continuation is suppressed and the session is
/// idle; where the goal that is read is active and the session is idle still; and where the
/// goal is the same active one after a turn was reserved for it. The reserved turn is started
/// or given up.
pub proof fn lemma_goal_is_continued(
    stage: ContinuationStage,
    event: ContinuationEvent,
    state: GoalRuntimeState,
    result: ContinuationStage,
)
    requires
        call_ensures(ContinuationStage::next, (stage, event, &state), result),
    ensures
        stage is CheckIdle ==> (event matches ContinuationEvent::Session {
            enabled,
            mode,
            turn_active,
            mailbox_pending,
        } ==> if enabled && mode != ModeKind::Plan && !state.continuation.suppressed && !turn_active
            && !mailbox_pending {
            result is ReadGoal
        } else {
            result is Stop
        }),
        stage is ReadGoal ==> (event matches ContinuationEvent::Goal {
            stored,
            turn_active,
            mailbox_pending,
        } ==> if stored is Some && stored->Some_0.status is Active && !turn_active
            && !mailbox_pending {
            result matches ContinuationStage::WritePrompt { goal_id, goal, prompt } && {
                &&& goal_id@ == stored->Some_0.goal_id@
                &&& publishes(stored->Some_0, goal)
                &&& prompt is Orchestration <==> opt_text(state.auto_armed_orchestration_goal_id)
                    == Some(stored->Some_0.goal_id@)
            }
        } else {
            result is Stop
        }),
        stage matches ContinuationStage::Reserve { candidate } ==> (
        event matches ContinuationEvent::Reserved(reserved) ==> if reserved is Some {
            result == (ContinuationStage::Recheck { candidate, turn_state: reserved->Some_0 })
        } else {
            result is Stop
        }),
        stage matches ContinuationStage::Recheck { candidate, turn_state } ==> {
            &&& event matches ContinuationEvent::Reread(stored) ==> if stored is Some
                && stored->Some_0.status is Active && stored->Some_0.goal_id@
                == candidate.goal_id@ {
                result == (ContinuationStage::Queue { items: candidate.items, turn_state })
            } else {
                result == (ContinuationStage::Release { turn_state })
            }
            &&& event is Unavailable ==> result == (ContinuationStage::Release { turn_state })
        },
        stage matches ContinuationStage::Queue { items, turn_state } ==> (
        event matches ContinuationEvent::Queued { still_reserved: kept } ==> if kept {
            result is Start
        } else {
            result == (ContinuationStage::Release { turn_state })
        }),
        event is Unavailable && (stage is CheckIdle || stage is ReadGoal || stage is WritePrompt
            || stage is Reserve) ==> result is Stop,
        stage is Start || stage is Release || stage is Stop ==> result == stage,
{
}

/// The prompt reaches the model as one hidden message about the goal.
pub proof fn lemma_continuation_prompt(
    goal_id: String,
    goal: ThreadGoal,
    prompt: ContinuationPrompt,
    text: String,
    state: GoalRuntimeState,
    result: ContinuationStage,
)
    requires
        call_ensures(
            ContinuationStage::next,
            (
                ContinuationStage::WritePrompt { goal_id, goal, prompt },
                ContinuationEvent::Prompt(text),
                &state,
            ),
            result,
        ),
    ensures
        result matches ContinuationStage::Reserve { candidate } && {
            &&& candidate.goal_id == goal_id
            &&& candidate.items@.len() == 1
            &&& candidate.items@[0] matches ResponseItem::Message { id, role, content, phase } && {
                &&& role@ == "user"@
                &&& content@.len() == 1
                &&& content@[0] matches ContentItem::InputText { text: said } && said@
                    == "<codex_internal_context source=\""@ + "goal"@ + "\">\n"@ + text@
                    + "\n</codex_internal_context>"@
            }
        },
{
    if let ContinuationStage::Reserve { candidate } = result {
        lemma_user_text_parts(
            candidate.items@[0],
            "<codex_internal_context source=\""@ + "goal"@ + "\">\n"@ + text@
                + "\n</codex_internal_context>"@,
        );
    }
}

// ---------------------------------------------------------------------------
// Completing the goal of an orchestrator
// ---------------------------------------------------------------------------

/// The end of a turn leads towards completing a goal exactly where a root on the Gemini wire
/// protocol engaged no child again, set the goal up for itself, and gave an answer for it in
/// this turn or before. The answer is remembered, and nothing else changes.
pub proof fn lemma_answered_goal_may_be_complete(
    state: &mut GoalRuntimeState,
    wire_api: WireApi,
    source: SessionSource,
    emitted_final_answer: bool,
    reengaged_child: bool,
    root: bool,
    result: AutoCompleteStage,
)
    requires
        call_ensures(
            GoalRuntimeState::maybe_auto_complete_gemini_orchestration_goal,
            (state, wire_api, &source, emitted_final_answer, reengaged_child),
            result,
        ),
        call_ensures(is_root_orchestrator, (&source,), root),
    ensures
        ({
            let armed = opt_text(old(state).auto_armed_orchestration_goal_id);
            let answered = opt_text(old(state).orchestration_answer_emitted_goal_id);
            let concerned = root && wire_api == WireApi::GeminiNative && !reengaged_child
                && armed is Some;
            &&& result is CheckMailbox <==> concerned && (emitted_final_answer || answered == armed)
            &&& result is CheckMailbox || result is Stop
            &&& result matches AutoCompleteStage::CheckMailbox { goal_id } ==> armed == Some(
                goal_id@,
            )
            &&& opt_text(final(state).orchestration_answer_emitted_goal_id) == if concerned
                && emitted_final_answer {
                armed
            } else {
                answered
            }
            &&& opt_text(final(state).auto_armed_orchestration_goal_id) == armed
        }),
        turn_kept(old(state).accounting.turn, final(state).accounting.turn),
        clock_kept(old(state).accounting.wall_clock, final(state).accounting.wall_clock),
        report_kept(*old(state), *final(state)),
        final(state).continuation.suppressed == old(state).continuation.suppressed,
        final(state).continuation.active == old(state).continuation.active,
        opt_text(final(state).continuation.turn_id) == opt_text(old(state).continuation.turn_id),
{
}

/// The way to completing a goal: no mail may be pending, the goal of the thread must be the
/// same one and active, and every child must have delivered, each polled in turn. It is this
/// goal that is completed, and anything else leaves it as it is.
pub proof fn lemma_goal_is_completed_when_all_delivered(
    stage: AutoCompleteStage,
    event: AutoCompleteEvent,
    result: AutoCompleteStage,
)
    requires
        call_ensures(AutoCompleteStage::next, (stage, event), result),
    ensures
        stage matches AutoCompleteStage::CheckMailbox { goal_id } ==> (
        event matches AutoCompleteEvent::Mailbox { pending } ==> if pending {
            result is Stop
        } else {
            result matches AutoCompleteStage::ReadGoal { goal_id: same } && same@ == goal_id@
        }),
        stage matches AutoCompleteStage::ReadGoal { goal_id } ==> {
            &&& event matches AutoCompleteEvent::Goal(stored) ==> if stored is Some
                && stored->Some_0.status is Active && stored->Some_0.goal_id@ == goal_id@ {
                result matches AutoCompleteStage::ListChildren { goal_id: same } && same@
                    == goal_id@
            } else {
                result is Stop
            }
            &&& event is Unavailable ==> result is Stop
        },
        stage matches AutoCompleteStage::ListChildren { goal_id } ==> {
            &&& event matches AutoCompleteEvent::Children(children) ==> if children@.len() == 0 {
                result matches AutoCompleteStage::Complete { goal_id: same } && same@ == goal_id@
            } else {
                result matches AutoCompleteStage::Poll {
                    goal_id: same,
                    poll: ChildPoll::Poll { children: all, next },
                } && same@ == goal_id@ && all@ == children@ && next == 0
            }
            &&& event is Unavailable ==> result is Stop
        },
        stage matches AutoCompleteStage::Poll {
            goal_id,
            poll: ChildPoll::Poll { children, next },
        } ==> (event matches AutoCompleteEvent::Status(status) ==> if !(status is Errored
            || status is Shutdown || (status matches AgentStatus::Completed(report)
            && report is Some)) {
            result is Stop
        } else if next + 1 >= children@.len() {
            result matches AutoCompleteStage::Complete { goal_id: same } && same@ == goal_id@
        } else {
            result matches AutoCompleteStage::Poll {
                goal_id: same,
                poll: ChildPoll::Poll { children: all, next: then },
            } && same@ == goal_id@ && all@ == children@ && then == next + 1
        }),
        stage is Stop ==> result is Stop,
        stage is Complete ==> result is Complete,
        result is Complete && !(stage is Complete) ==> stage is Poll || stage is ListChildren,
{
}

/// Completing a goal changes its status alone.
pub proof fn lemma_completion_changes_the_status_alone(result: SetGoalRequest)
    requires
        call_ensures(AutoCompleteStage::completion_request, (), result),
    ensures
        result.status == Some(ThreadGoalStatus::Complete),
        result.objective is None,
        result.token_budget is None,
{
}

} // verus!
