//! Setting and creating the goal of a thread.
//!
//! A request is checked, the store is asked, and what it answers changes the runtime state.
//! Between the checks and the answer the host opens the store, has the objective validated
//! and accounts the clock.

use crate::goal::{
    goal_resumed_metric_if_status_changed, goal_terminal_metrics_if_status_changed,
    protocol_goal_from_state, published_goal, require_goals_feature, resumes,
    state_goal_status_from_protocol, stored_status, terminal_metrics, validate_goal_budget,
    GoalError, StateGoal, StateGoalStatus, TerminalMetrics, ThreadGoal, ThreadGoalStatus,
};
use crate::goal_accounting::{active_accounting, cleared_accounting};
use crate::goal_runtime::{usage_or_default, usage_or_zero, GoalRuntimeState, RuntimeView};
use crate::text::{opt_text, trim, trimmed};
use crate::thread_id::ThreadId;
use crate::token_usage::TokenUsage;
use vstd::prelude::*;

verus! {

/// What is asked of the goal of a thread: each part that is given is changed.
#[derive(Debug, PartialEq, Eq)]
pub struct SetGoalRequest {
    pub objective: Option<String>,
    pub status: Option<ThreadGoalStatus>,
    /// `Some(None)` takes the budget away.
    pub token_budget: Option<Option<i64>>,
}

/// A request that was checked, with its objective trimmed. The objective is still to be
/// validated.
#[derive(Debug, PartialEq, Eq)]
pub struct CheckedSetGoal {
    pub objective: Option<String>,
    pub status: Option<ThreadGoalStatus>,
    pub token_budget: Option<Option<i64>>,
}

/// The budget that a request gives.
pub open spec fn flat_budget(budget: Option<Option<i64>>) -> Option<i64> {
    match budget {
        Some(inner) => inner,
        None => None,
    }
}

fn flatten_budget(budget: Option<Option<i64>>) -> (result: Option<i64>)
    ensures
        result == flat_budget(budget),
{
    match budget {
        Some(inner) => inner,
        None => None,
    }
}

/// Why a budget is refused while the feature is on or off.
pub open spec fn request_refusal(enabled: bool, budget: Option<i64>) -> Option<GoalError> {
    if !enabled {
        Some(GoalError::FeatureDisabled)
    } else if budget is Some && budget->Some_0 <= 0 {
        Some(GoalError::InvalidBudget)
    } else {
        None
    }
}

/// Checks a request before the store is opened.
pub fn check_set_goal(enabled: bool, request: SetGoalRequest) -> (result: Result<
    CheckedSetGoal,
    GoalError,
>)
    ensures
        match request_refusal(enabled, flat_budget(request.token_budget)) {
            Some(error) => result == Err::<CheckedSetGoal, GoalError>(error),
            None => {
                &&& result is Ok
                &&& result->Ok_0.status == request.status
                &&& result->Ok_0.token_budget == request.token_budget
                &&& opt_text(result->Ok_0.objective) == match request.objective {
                    Some(objective) => Some(trimmed(objective@)),
                    None => None,
                }
            },
        },
{
    if let Err(error) = require_goals_feature(enabled) {
        return Err(error);
    }
    if let Err(error) = validate_goal_budget(flatten_budget(request.token_budget)) {
        return Err(error);
    }
    let objective = match request.objective {
        Some(objective) => Some(trim(objective.as_str())),
        None => None,
    };
    Ok(
        CheckedSetGoal {
            objective,
            status: request.status,
            token_budget: request.token_budget,
        },
    )
}

/// Takes in whether an objective is valid.
pub fn objective_validated(validation: Result<(), String>) -> (result: Result<(), GoalError>)
    ensures
        result == match validation {
            Ok(()) => Ok(()),
            Err(reason) => Err(GoalError::InvalidObjective(reason)),
        },
{
    match validation {
        Ok(()) => Ok(()),
        Err(reason) => Err(GoalError::InvalidObjective(reason)),
    }
}

/// A change of a goal: the parts that are given, where the goal is the expected one.
#[derive(Debug, PartialEq, Eq)]
pub struct GoalUpdate {
    pub objective: Option<String>,
    pub status: Option<StateGoalStatus>,
    pub token_budget: Option<Option<i64>>,
    pub expected_goal_id: Option<String>,
}

/// A new goal.
#[derive(Debug, PartialEq, Eq)]
pub struct GoalInsert {
    pub objective: String,
    pub status: StateGoalStatus,
    pub token_budget: Option<i64>,
}

/// What the store is asked.
#[derive(Debug, PartialEq, Eq)]
pub enum GoalWrite {
    /// Change the goal of the thread.
    Update(GoalUpdate),
    /// Put a new goal in place.
    Replace(GoalInsert),
}

/// A write that the store was asked, and what is needed when it answers.
#[derive(Debug, PartialEq, Eq)]
pub struct PendingSetGoal {
    pub write: GoalWrite,
    /// The status of the goal that was there.
    pub previous_status: Option<StateGoalStatus>,
    pub sets_objective: bool,
}

/// The stored form of a status, where one is given.
pub open spec fn stored_opt(status: Option<ThreadGoalStatus>) -> Option<StateGoalStatus> {
    match status {
        Some(status) => Some(stored_status(status)),
        None => None,
    }
}

/// What the store is asked for a checked request, given the goal that is there: a new goal is
/// put in place where there is none and an objective is given; otherwise the goal that is
/// there is changed.
pub open spec fn set_goal_write(request: CheckedSetGoal, existing: Option<StateGoal>) -> GoalWrite {
    if request.objective is Some && existing is None {
        GoalWrite::Replace(
            GoalInsert {
                objective: request.objective->Some_0,
                status: match stored_opt(request.status) {
                    Some(status) => status,
                    None => StateGoalStatus::Active,
                },
                token_budget: flat_budget(request.token_budget),
            },
        )
    } else {
        GoalWrite::Update(
            GoalUpdate {
                objective: request.objective,
                status: stored_opt(request.status),
                token_budget: request.token_budget,
                expected_goal_id: match existing {
                    Some(goal) => Some(goal.goal_id),
                    None => None,
                },
            },
        )
    }
}

/// Settles what the store is asked for a checked request.
pub fn plan_set_goal(request: CheckedSetGoal, existing: Option<&StateGoal>) -> (result:
    PendingSetGoal)
    ensures
        result.write == set_goal_write(
            request,
            match existing {
                Some(goal) => Some(*goal),
                None => None,
            },
        ),
        result.previous_status == match existing {
            Some(goal) => Some(goal.status),
            None => None,
        },
        result.sets_objective == (request.objective is Some),
{
    let status = match request.status {
        Some(status) => Some(state_goal_status_from_protocol(status)),
        None => None,
    };
    match existing {
        Some(goal) => {
            let sets_objective = request.objective.is_some();
            PendingSetGoal {
                write: GoalWrite::Update(
                    GoalUpdate {
                        objective: request.objective,
                        status,
                        token_budget: request.token_budget,
                        expected_goal_id: Some(goal.goal_id.clone()),
                    },
                ),
                previous_status: Some(goal.status),
                sets_objective,
            }
        },
        None => {
            match request.objective {
                Some(objective) => PendingSetGoal {
                    write: GoalWrite::Replace(
                        GoalInsert {
                            objective,
                            status: match status {
                                Some(status) => status,
                                None => StateGoalStatus::Active,
                            },
                            token_budget: flatten_budget(request.token_budget),
                        },
                    ),
                    previous_status: None,
                    sets_objective: true,
                },
                None => PendingSetGoal {
                    write: GoalWrite::Update(
                        GoalUpdate {
                            objective: None,
                            status,
                            token_budget: request.token_budget,
                            expected_goal_id: None,
                        },
                    ),
                    previous_status: None,
                    sets_objective: false,
                },
            }
        },
    }
}

/// What is to be done next for a request to set a goal.
#[derive(Debug, PartialEq, Eq)]
pub enum SetGoalStage {
    /// Open the store.
    OpenStore { request: CheckedSetGoal },
    /// Have the objective validated.
    ValidateObjective { request: CheckedSetGoal },
    /// Account the clock, and measure a goal that comes to rest by it.
    AccountClock { request: CheckedSetGoal },
    /// Read the goal of the thread.
    ReadGoal { request: CheckedSetGoal },
    /// Ask the store, and hand its answer to the runtime state.
    Write { pending: PendingSetGoal },
    /// Refuse the request.
    Refused { error: GoalError },
    /// Pass on the failure of the session.
    Failed,
}

/// What came of a stage.
#[derive(Debug, PartialEq, Eq)]
pub enum GoalRequestEvent {
    /// Whether the thread has a store.
    Store { present: bool },
    Validation(Result<(), String>),
    ClockAccounted,
    Goal(Option<StateGoal>),
    /// The session failed.
    Failed,
}

/// The stage that a request to set a goal starts with.
pub fn start_set_goal(enabled: bool, request: SetGoalRequest) -> (result: SetGoalStage)
    ensures
        match request_refusal(enabled, flat_budget(request.token_budget)) {
            Some(error) => result == (SetGoalStage::Refused { error }),
            None => {
                &&& result is OpenStore
                &&& result->OpenStore_request.status == request.status
                &&& result->OpenStore_request.token_budget == request.token_budget
                &&& opt_text(result->OpenStore_request.objective) == match request.objective {
                    Some(objective) => Some(trimmed(objective@)),
                    None => None,
                }
            },
        },
{
    match check_set_goal(enabled, request) {
        Ok(request) => SetGoalStage::OpenStore { request },
        Err(error) => SetGoalStage::Refused { error },
    }
}

/// The stage that an event leads to. An event that cannot come of a stage changes nothing.
pub open spec fn next_set_goal(stage: SetGoalStage, event: GoalRequestEvent) -> SetGoalStage {
    match (stage, event) {
        (SetGoalStage::Write { .. }, _) => stage,
        (SetGoalStage::Refused { .. }, _) => stage,
        (SetGoalStage::Failed, _) => stage,
        (_, GoalRequestEvent::Failed) => SetGoalStage::Failed,
        (SetGoalStage::OpenStore { request }, GoalRequestEvent::Store { present }) => if !present {
            SetGoalStage::Refused { error: GoalError::EphemeralThread }
        } else if request.objective is Some {
            SetGoalStage::ValidateObjective { request }
        } else {
            SetGoalStage::AccountClock { request }
        },
        (
            SetGoalStage::ValidateObjective { request },
            GoalRequestEvent::Validation(validation),
        ) => match validation {
            Ok(_) => SetGoalStage::AccountClock { request },
            Err(reason) => SetGoalStage::Refused { error: GoalError::InvalidObjective(reason) },
        },
        (SetGoalStage::AccountClock { request }, GoalRequestEvent::ClockAccounted) =>
        SetGoalStage::ReadGoal { request },
        (SetGoalStage::ReadGoal { request }, GoalRequestEvent::Goal(existing)) =>
        SetGoalStage::Write {
            pending: PendingSetGoal {
                write: set_goal_write(request, existing),
                previous_status: match existing {
                    Some(goal) => Some(goal.status),
                    None => None,
                },
                sets_objective: request.objective is Some,
            },
        },
        _ => stage,
    }
}

impl SetGoalStage {
    /// The stage that an event leads to.
    pub fn next(self, event: GoalRequestEvent) -> (result: Self)
        ensures
            result == next_set_goal(self, event),
    {
        match (self, event) {
            (SetGoalStage::Write { pending }, _) => SetGoalStage::Write { pending },
            (SetGoalStage::Refused { error }, _) => SetGoalStage::Refused { error },
            (SetGoalStage::Failed, _) => SetGoalStage::Failed,
            (_, GoalRequestEvent::Failed) => SetGoalStage::Failed,
            (SetGoalStage::OpenStore { request }, GoalRequestEvent::Store { present }) => {
                if !present {
                    SetGoalStage::Refused { error: GoalError::EphemeralThread }
                } else if request.objective.is_some() {
                    SetGoalStage::ValidateObjective { request }
                } else {
                    SetGoalStage::AccountClock { request }
                }
            },
            (
                SetGoalStage::ValidateObjective { request },
                GoalRequestEvent::Validation(validation),
            ) => match objective_validated(validation) {
                Ok(_) => SetGoalStage::AccountClock { request },
                Err(error) => SetGoalStage::Refused { error },
            },
            (SetGoalStage::AccountClock { request }, GoalRequestEvent::ClockAccounted) =>
            SetGoalStage::ReadGoal { request },
            (SetGoalStage::ReadGoal { request }, GoalRequestEvent::Goal(existing)) => {
                let pending = match &existing {
                    Some(goal) => plan_set_goal(request, Some(goal)),
                    None => plan_set_goal(request, None),
                };
                SetGoalStage::Write { pending }
            },
            (stage, _) => stage,
        }
    }
}

/// What setting a goal leads to, besides the change of the state. The goal is announced and
/// returned.
#[derive(Debug, PartialEq, Eq)]
pub struct SetGoalEffects {
    pub goal: ThreadGoal,
    /// The text that the thread is previewed by, where it has no preview yet.
    pub preview: Option<String>,
    pub created: bool,
    pub resumed: bool,
    pub terminal_metrics: Option<TerminalMetrics>,
}

/// Whether a write made a goal active that was not.
pub open spec fn newly_active(pending: PendingSetGoal, goal: StateGoal) -> bool {
    goal.status is Active && (pending.write is Replace || (pending.previous_status is Some
        && !(pending.previous_status->Some_0 is Active)))
}

/// The state after a goal was written: a newly active goal is charged with the turn from now
/// on, a goal that is not active is charged no more, and one that stays active as before.
pub open spec fn after_set_goal(
    state: RuntimeView,
    pending: PendingSetGoal,
    goal: StateGoal,
    turn_id: Seq<char>,
    usage: Option<TokenUsage>,
    now: int,
) -> RuntimeView {
    RuntimeView {
        budget_reported: None,
        accounting: if newly_active(pending, goal) {
            active_accounting(
                state.accounting,
                goal.goal_id@,
                Some(turn_id),
                usage_or_zero(usage),
                now,
            )
        } else if !(goal.status is Active) {
            cleared_accounting(state.accounting, turn_id, now)
        } else {
            state.accounting
        },
        ..state
    }
}

impl GoalRuntimeState {
    /// Takes in the goal that the store wrote, or that there was none to change.
    pub fn set_thread_goal(
        &mut self,
        thread_id: ThreadId,
        turn_id: &str,
        pending: PendingSetGoal,
        written: Option<StateGoal>,
        token_usage: Option<TokenUsage>,
        now: u128,
    ) -> (result: Result<SetGoalEffects, GoalError>)
        ensures
            match written {
                None => {
                    &&& result == Err::<SetGoalEffects, GoalError>(
                        GoalError::NoGoalToUpdate(thread_id),
                    )
                    &&& final(self)@ == old(self)@
                },
                Some(goal) => {
                    &&& final(self)@ == after_set_goal(
                        old(self)@,
                        pending,
                        goal,
                        turn_id@,
                        token_usage,
                        now as int,
                    )
                    &&& result is Ok
                    &&& result->Ok_0.goal == published_goal(goal)
                    &&& result->Ok_0.preview == if pending.sets_objective {
                        Some(goal.objective)
                    } else {
                        None
                    }
                    &&& result->Ok_0.created == (pending.write is Replace)
                    &&& result->Ok_0.resumed == (!(pending.write is Replace) && resumes(
                        pending.previous_status,
                        goal.status,
                    ))
                    &&& result->Ok_0.terminal_metrics == terminal_metrics(
                        if pending.write is Replace {
                            None
                        } else {
                            pending.previous_status
                        },
                        goal,
                    )
                },
            },
    {
        let goal = match written {
            Some(goal) => goal,
            None => {
                return Err(GoalError::NoGoalToUpdate(thread_id));
            },
        };
        let preview = if pending.sets_objective {
            Some(goal.objective.clone())
        } else {
            None
        };
        let created = match &pending.write {
            GoalWrite::Replace(_) => true,
            GoalWrite::Update(_) => false,
        };
        let previous_status_for_goal = if created {
            None
        } else {
            pending.previous_status
        };
        let resumed = goal_resumed_metric_if_status_changed(previous_status_for_goal, goal.status);
        let metrics = goal_terminal_metrics_if_status_changed(previous_status_for_goal, &goal);
        self.budget_limit_reported_goal_id = None;
        let was_inactive = match pending.previous_status {
            Some(status) => status != StateGoalStatus::Active,
            None => false,
        };
        if goal.status == StateGoalStatus::Active {
            if created || was_inactive {
                self.accounting.mark_active_goal(
                    goal.goal_id.as_str(),
                    Some(turn_id.to_owned()),
                    usage_or_default(token_usage),
                    now,
                );
            }
        } else {
            self.accounting.clear_active_goal(turn_id, now);
        }
        Ok(
            SetGoalEffects {
                goal: protocol_goal_from_state(goal),
                preview,
                created,
                resumed,
                terminal_metrics: metrics,
            },
        )
    }
}

// ---------------------------------------------------------------------------
// Creating
// ---------------------------------------------------------------------------

/// A new goal that is asked for.
#[derive(Debug, PartialEq, Eq)]
pub struct CreateGoalRequest {
    pub objective: String,
    pub token_budget: Option<i64>,
}

/// What is to be done next for a request to create a goal.
#[derive(Debug, PartialEq, Eq)]
pub enum CreateGoalStage {
    /// Have the objective validated.
    ValidateObjective { insert: GoalInsert },
    /// Open the store.
    OpenStore { insert: GoalInsert },
    /// Account the clock, and measure a goal that comes to rest by it.
    AccountClock { insert: GoalInsert },
    /// Ask the store to insert the goal, and hand its answer to the runtime state.
    Insert { insert: GoalInsert },
    /// Refuse the request.
    Refused { error: GoalError },
    /// Pass on the failure of the session.
    Failed,
}

/// The stage that a request to create a goal starts with. A new goal is active.
pub fn start_create_goal(enabled: bool, request: CreateGoalRequest) -> (result: CreateGoalStage)
    ensures
        match request_refusal(enabled, request.token_budget) {
            Some(error) => result == (CreateGoalStage::Refused { error }),
            None => {
                &&& result is ValidateObjective
                &&& result->ValidateObjective_insert.objective@ == trimmed(request.objective@)
                &&& result->ValidateObjective_insert.status is Active
                &&& result->ValidateObjective_insert.token_budget == request.token_budget
            },
        },
{
    if let Err(error) = require_goals_feature(enabled) {
        return CreateGoalStage::Refused { error };
    }
    if let Err(error) = validate_goal_budget(request.token_budget) {
        return CreateGoalStage::Refused { error };
    }
    CreateGoalStage::ValidateObjective {
        insert: GoalInsert {
            objective: trim(request.objective.as_str()),
            status: StateGoalStatus::Active,
            token_budget: request.token_budget,
        },
    }
}

/// The stage that an event leads to. An event that cannot come of a stage changes nothing.
pub open spec fn next_create_goal(
    stage: CreateGoalStage,
    event: GoalRequestEvent,
) -> CreateGoalStage {
    match (stage, event) {
        (CreateGoalStage::Insert { .. }, _) => stage,
        (CreateGoalStage::Refused { .. }, _) => stage,
        (CreateGoalStage::Failed, _) => stage,
        (_, GoalRequestEvent::Failed) => CreateGoalStage::Failed,
        (
            CreateGoalStage::ValidateObjective { insert },
            GoalRequestEvent::Validation(validation),
        ) => match validation {
            Ok(_) => CreateGoalStage::OpenStore { insert },
            Err(reason) => CreateGoalStage::Refused { error: GoalError::InvalidObjective(reason) },
        },
        (CreateGoalStage::OpenStore { insert }, GoalRequestEvent::Store { present }) => if present {
            CreateGoalStage::AccountClock { insert }
        } else {
            CreateGoalStage::Refused { error: GoalError::EphemeralThread }
        },
        (CreateGoalStage::AccountClock { insert }, GoalRequestEvent::ClockAccounted) =>
        CreateGoalStage::Insert { insert },
        _ => stage,
    }
}

impl CreateGoalStage {
    /// The stage that an event leads to.
    pub fn next(self, event: GoalRequestEvent) -> (result: Self)
        ensures
            result == next_create_goal(self, event),
    {
        match (self, event) {
            (CreateGoalStage::Insert { insert }, _) => CreateGoalStage::Insert { insert },
            (CreateGoalStage::Refused { error }, _) => CreateGoalStage::Refused { error },
            (CreateGoalStage::Failed, _) => CreateGoalStage::Failed,
            (_, GoalRequestEvent::Failed) => CreateGoalStage::Failed,
            (
                CreateGoalStage::ValidateObjective { insert },
                GoalRequestEvent::Validation(validation),
            ) => match objective_validated(validation) {
                Ok(_) => CreateGoalStage::OpenStore { insert },
                Err(error) => CreateGoalStage::Refused { error },
            },
            (CreateGoalStage::OpenStore { insert }, GoalRequestEvent::Store { present }) => {
                if present {
                    CreateGoalStage::AccountClock { insert }
                } else {
                    CreateGoalStage::Refused { error: GoalError::EphemeralThread }
                }
            },
            (CreateGoalStage::AccountClock { insert }, GoalRequestEvent::ClockAccounted) =>
            CreateGoalStage::Insert { insert },
            (stage, _) => stage,
        }
    }
}

/// What creating a goal leads to, besides the change of the state. The goal is counted as
/// created, announced and returned.
#[derive(Debug, PartialEq, Eq)]
pub struct CreateGoalEffects {
    pub goal: ThreadGoal,
    /// The text that the thread is previewed by, where it has no preview yet.
    pub preview: String,
}

impl GoalRuntimeState {
    /// Takes in the goal that the store inserted, or that there is one already.
    pub fn create_thread_goal(
        &mut self,
        thread_id: ThreadId,
        turn_id: &str,
        inserted: Option<StateGoal>,
        token_usage: Option<TokenUsage>,
        now: u128,
    ) -> (result: Result<CreateGoalEffects, GoalError>)
        ensures
            match inserted {
                None => {
                    &&& result == Err::<CreateGoalEffects, GoalError>(
                        GoalError::GoalExists(thread_id),
                    )
                    &&& final(self)@ == old(self)@
                },
                Some(goal) => {
                    &&& final(self)@ == (RuntimeView {
                        budget_reported: None,
                        accounting: active_accounting(
                            old(self)@.accounting,
                            goal.goal_id@,
                            Some(turn_id@),
                            usage_or_zero(token_usage),
                            now as int,
                        ),
                        ..old(self)@
                    })
                    &&& result == Ok::<CreateGoalEffects, GoalError>(
                        CreateGoalEffects {
                            goal: published_goal(goal),
                            preview: goal.objective,
                        },
                    )
                },
            },
    {
        let goal = match inserted {
            Some(goal) => goal,
            None => {
                return Err(GoalError::GoalExists(thread_id));
            },
        };
        let preview = goal.objective.clone();
        self.budget_limit_reported_goal_id = None;
        self.accounting.mark_active_goal(
            goal.goal_id.as_str(),
            Some(turn_id.to_owned()),
            usage_or_default(token_usage),
            now,
        );
        Ok(CreateGoalEffects { goal: protocol_goal_from_state(goal), preview })
    }
}

/// The stage of a request to set a goal after several events.
pub open spec fn set_goal_run(stage: SetGoalStage, events: Seq<GoalRequestEvent>) -> SetGoalStage
    decreases events.len(),
{
    if events.len() == 0 {
        stage
    } else {
        set_goal_run(next_set_goal(stage, events[0]), events.skip(1))
    }
}

/// The stage of a request to create a goal after several events.
pub open spec fn create_goal_run(
    stage: CreateGoalStage,
    events: Seq<GoalRequestEvent>,
) -> CreateGoalStage
    decreases events.len(),
{
    if events.len() == 0 {
        stage
    } else {
        create_goal_run(next_create_goal(stage, events[0]), events.skip(1))
    }
}

/// Whether an objective was found valid.
pub open spec fn grants(event: GoalRequestEvent) -> bool {
    event matches GoalRequestEvent::Validation(Ok(_))
}

/// Whether a thread was found to have a store.
pub open spec fn finds_store(event: GoalRequestEvent) -> bool {
    event == (GoalRequestEvent::Store { present: true })
}

/// No objective reaches the store that was not found valid, and nothing at all is asked of the
/// store of a thread that has none, whatever else happens.
pub proof fn lemma_only_valid_requests_are_stored(
    request: CheckedSetGoal,
    insert: GoalInsert,
    events: Seq<GoalRequestEvent>,
)
    ensures
        request.objective is Some && (forall|i: int| 0 <= i < events.len() ==> !grants(#[trigger] events[i]))
            ==> !(set_goal_run(SetGoalStage::OpenStore { request }, events) is Write),
        (forall|i: int| 0 <= i < events.len() ==> !finds_store(#[trigger] events[i])) ==> !(
        set_goal_run(SetGoalStage::OpenStore { request }, events) is Write),
        (forall|i: int| 0 <= i < events.len() ==> !grants(#[trigger] events[i])) || (forall|i: int|
            0 <= i < events.len() ==> !finds_store(#[trigger] events[i])) ==> !(create_goal_run(
            CreateGoalStage::ValidateObjective { insert },
            events,
        ) is Insert),
{
    if forall|i: int| 0 <= i < events.len() ==> !grants(#[trigger] events[i]) {
        lemma_set_needs_validation(SetGoalStage::OpenStore { request }, events);
        lemma_create_needs_validation(CreateGoalStage::ValidateObjective { insert }, events);
    }
    if forall|i: int| 0 <= i < events.len() ==> !finds_store(#[trigger] events[i]) {
        lemma_set_needs_store(SetGoalStage::OpenStore { request }, events);
        lemma_create_needs_store(CreateGoalStage::ValidateObjective { insert }, events);
    }
}

proof fn lemma_set_needs_validation(stage: SetGoalStage, events: Seq<GoalRequestEvent>)
    requires
        forall|i: int| 0 <= i < events.len() ==> !grants(#[trigger] events[i]),
    ensures
        (stage matches SetGoalStage::OpenStore { request } && request.objective is Some)
            || stage is ValidateObjective || stage is Refused || stage is Failed ==> !(
        set_goal_run(stage, events) is Write),
    decreases events.len(),
{
    if events.len() > 0 {
        assert(!grants(events[0]));
        assert forall|i: int| 0 <= i < events.skip(1).len() implies !grants(
            #[trigger] events.skip(1)[i],
        ) by {
            assert(events.skip(1)[i] == events[i + 1]);
        }
        lemma_set_needs_validation(next_set_goal(stage, events[0]), events.skip(1));
    }
}

proof fn lemma_set_needs_store(stage: SetGoalStage, events: Seq<GoalRequestEvent>)
    requires
        forall|i: int| 0 <= i < events.len() ==> !finds_store(#[trigger] events[i]),
    ensures
        stage is OpenStore || stage is Refused || stage is Failed ==> !(set_goal_run(
            stage,
            events,
        ) is Write),
    decreases events.len(),
{
    if events.len() > 0 {
        assert(!finds_store(events[0]));
        assert forall|i: int| 0 <= i < events.skip(1).len() implies !finds_store(
            #[trigger] events.skip(1)[i],
        ) by {
            assert(events.skip(1)[i] == events[i + 1]);
        }
        lemma_set_needs_store(next_set_goal(stage, events[0]), events.skip(1));
    }
}

proof fn lemma_create_needs_validation(stage: CreateGoalStage, events: Seq<GoalRequestEvent>)
    requires
        forall|i: int| 0 <= i < events.len() ==> !grants(#[trigger] events[i]),
    ensures
        stage is ValidateObjective || stage is Refused || stage is Failed ==> !(create_goal_run(
            stage,
            events,
        ) is Insert),
    decreases events.len(),
{
    if events.len() > 0 {
        assert(!grants(events[0]));
        assert forall|i: int| 0 <= i < events.skip(1).len() implies !grants(
            #[trigger] events.skip(1)[i],
        ) by {
            assert(events.skip(1)[i] == events[i + 1]);
        }
        lemma_create_needs_validation(next_create_goal(stage, events[0]), events.skip(1));
    }
}

proof fn lemma_create_needs_store(stage: CreateGoalStage, events: Seq<GoalRequestEvent>)
    requires
        forall|i: int| 0 <= i < events.len() ==> !finds_store(#[trigger] events[i]),
    ensures
        stage is ValidateObjective || stage is OpenStore || stage is Refused || stage is Failed
            ==> !(create_goal_run(stage, events) is Insert),
    decreases events.len(),
{
    if events.len() > 0 {
        assert(!finds_store(events[0]));
        assert forall|i: int| 0 <= i < events.skip(1).len() implies !finds_store(
            #[trigger] events.skip(1)[i],
        ) by {
            assert(events.skip(1)[i] == events[i + 1]);
        }
        lemma_create_needs_store(next_create_goal(stage, events[0]), events.skip(1));
    }
}

/// Setting or creating a goal never touches what is remembered of orchestration, and forgets
/// what was reported of an exhausted budget, so that the model is told again.
pub proof fn lemma_set_goal_frames(
    state: RuntimeView,
    pending: PendingSetGoal,
    goal: StateGoal,
    turn_id: Seq<char>,
    usage: Option<TokenUsage>,
    now: int,
)
    ensures
        ({
            let after = after_set_goal(state, pending, goal, turn_id, usage, now);
            &&& after.auto_armed == state.auto_armed
            &&& after.answered == state.answered
            &&& after.budget_reported is None
            &&& !(goal.status is Active) ==> after.accounting.clock.goal is None
            &&& newly_active(pending, goal) ==> after.accounting.clock.goal == Some(goal.goal_id@)
        }),
{
}

} // verus!
