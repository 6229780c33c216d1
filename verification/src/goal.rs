//! The goals of threads: their stored and their published form, and what is asked of them.

use crate::context::{internal_context, internal_context_item};
use crate::protocol::{user_text_item, ModeKind, ResponseItem};
use crate::thread_id::{thread_id_text, thread_text, ThreadId};
use vstd::prelude::*;
use vstd::std_specs::convert::FromSpecImpl;

verus! {

/// The tool by which a model updates its goal.
pub const UPDATE_GOAL_TOOL_NAME: &'static str = "update_goal";

/// The status of a goal, as it is stored.
#[derive(Clone, Copy, Debug, PartialEq, Eq, Structural)]
pub enum StateGoalStatus {
    Active,
    Paused,
    Blocked,
    UsageLimited,
    BudgetLimited,
    Complete,
}

/// The status of a goal, as it is published.
#[derive(Clone, Copy, Debug, PartialEq, Eq, Structural)]
pub enum ThreadGoalStatus {
    Active,
    Paused,
    Blocked,
    UsageLimited,
    BudgetLimited,
    Complete,
}

/// A goal, as it is stored. Times are in seconds.
#[derive(Debug, PartialEq, Eq)]
pub struct StateGoal {
    pub thread_id: ThreadId,
    pub goal_id: String,
    pub objective: String,
    pub status: StateGoalStatus,
    pub token_budget: Option<i64>,
    pub tokens_used: i64,
    pub time_used_seconds: i64,
    pub created_at: i64,
    pub updated_at: i64,
}

impl Clone for StateGoal {
    fn clone(&self) -> (result: Self)
        ensures
            result == *self,
    {
        StateGoal {
            thread_id: self.thread_id,
            goal_id: self.goal_id.clone(),
            objective: self.objective.clone(),
            status: self.status,
            token_budget: self.token_budget,
            tokens_used: self.tokens_used,
            time_used_seconds: self.time_used_seconds,
            created_at: self.created_at,
            updated_at: self.updated_at,
        }
    }
}

/// A goal, as it is published: the stored one without its identity.
#[derive(Debug, PartialEq, Eq)]
pub struct ThreadGoal {
    pub thread_id: ThreadId,
    pub objective: String,
    pub status: ThreadGoalStatus,
    pub token_budget: Option<i64>,
    pub tokens_used: i64,
    pub time_used_seconds: i64,
    pub created_at: i64,
    pub updated_at: i64,
}

/// The published form of a status.
pub open spec fn published_status(status: StateGoalStatus) -> ThreadGoalStatus {
    match status {
        StateGoalStatus::Active => ThreadGoalStatus::Active,
        StateGoalStatus::Paused => ThreadGoalStatus::Paused,
        StateGoalStatus::Blocked => ThreadGoalStatus::Blocked,
        StateGoalStatus::UsageLimited => ThreadGoalStatus::UsageLimited,
        StateGoalStatus::BudgetLimited => ThreadGoalStatus::BudgetLimited,
        StateGoalStatus::Complete => ThreadGoalStatus::Complete,
    }
}

/// The stored form of a status.
pub open spec fn stored_status(status: ThreadGoalStatus) -> StateGoalStatus {
    match status {
        ThreadGoalStatus::Active => StateGoalStatus::Active,
        ThreadGoalStatus::Paused => StateGoalStatus::Paused,
        ThreadGoalStatus::Blocked => StateGoalStatus::Blocked,
        ThreadGoalStatus::UsageLimited => StateGoalStatus::UsageLimited,
        ThreadGoalStatus::BudgetLimited => StateGoalStatus::BudgetLimited,
        ThreadGoalStatus::Complete => StateGoalStatus::Complete,
    }
}

/// Publishing a status and storing it undo each other.
pub proof fn lemma_status_round_trip(stored: StateGoalStatus, published: ThreadGoalStatus)
    ensures
        stored_status(published_status(stored)) == stored,
        published_status(stored_status(published)) == published,
{
}

/// The published form of a status.
pub fn protocol_goal_status_from_state(status: StateGoalStatus) -> (result: ThreadGoalStatus)
    ensures
        result == published_status(status),
{
    match status {
        StateGoalStatus::Active => ThreadGoalStatus::Active,
        StateGoalStatus::Paused => ThreadGoalStatus::Paused,
        StateGoalStatus::Blocked => ThreadGoalStatus::Blocked,
        StateGoalStatus::UsageLimited => ThreadGoalStatus::UsageLimited,
        StateGoalStatus::BudgetLimited => ThreadGoalStatus::BudgetLimited,
        StateGoalStatus::Complete => ThreadGoalStatus::Complete,
    }
}

/// The stored form of a status.
pub fn state_goal_status_from_protocol(status: ThreadGoalStatus) -> (result: StateGoalStatus)
    ensures
        result == stored_status(status),
{
    match status {
        ThreadGoalStatus::Active => StateGoalStatus::Active,
        ThreadGoalStatus::Paused => StateGoalStatus::Paused,
        ThreadGoalStatus::Blocked => StateGoalStatus::Blocked,
        ThreadGoalStatus::UsageLimited => StateGoalStatus::UsageLimited,
        ThreadGoalStatus::BudgetLimited => StateGoalStatus::BudgetLimited,
        ThreadGoalStatus::Complete => StateGoalStatus::Complete,
    }
}

/// The published form of a goal.
pub open spec fn published_goal(goal: StateGoal) -> ThreadGoal {
    ThreadGoal {
        thread_id: goal.thread_id,
        objective: goal.objective,
        status: published_status(goal.status),
        token_budget: goal.token_budget,
        tokens_used: goal.tokens_used,
        time_used_seconds: goal.time_used_seconds,
        created_at: goal.created_at,
        updated_at: goal.updated_at,
    }
}

/// The published form of a goal.
pub fn protocol_goal_from_state(goal: StateGoal) -> (result: ThreadGoal)
    ensures
        result == published_goal(goal),
{
    ThreadGoal {
        thread_id: goal.thread_id,
        objective: goal.objective,
        status: protocol_goal_status_from_state(goal.status),
        token_budget: goal.token_budget,
        tokens_used: goal.tokens_used,
        time_used_seconds: goal.time_used_seconds,
        created_at: goal.created_at,
        updated_at: goal.updated_at,
    }
}

/// Whether a goal mutation from outside created a new goal or changed one.
#[derive(Debug, PartialEq, Eq)]
pub enum ExternalGoalPreviousStatus {
    NewGoal,
    Existing(ExternalGoalPreviousGoal),
}

/// What is kept of a goal that was changed from outside.
#[derive(Debug, PartialEq, Eq)]
pub struct ExternalGoalPreviousGoal {
    pub goal_id: String,
    pub status: StateGoalStatus,
    pub objective: String,
}

impl Clone for ExternalGoalPreviousGoal {
    fn clone(&self) -> (result: Self)
        ensures
            result == *self,
    {
        ExternalGoalPreviousGoal {
            goal_id: self.goal_id.clone(),
            status: self.status,
            objective: self.objective.clone(),
        }
    }
}

impl Clone for ExternalGoalPreviousStatus {
    fn clone(&self) -> (result: Self)
        ensures
            result == *self,
    {
        match self {
            ExternalGoalPreviousStatus::NewGoal => ExternalGoalPreviousStatus::NewGoal,
            ExternalGoalPreviousStatus::Existing(goal) => ExternalGoalPreviousStatus::Existing(
                goal.clone(),
            ),
        }
    }
}

impl From<&StateGoal> for ExternalGoalPreviousGoal {
    fn from(goal: &StateGoal) -> (result: Self) {
        ExternalGoalPreviousGoal {
            goal_id: goal.goal_id.clone(),
            status: goal.status,
            objective: goal.objective.clone(),
        }
    }
}

impl FromSpecImpl<&StateGoal> for ExternalGoalPreviousGoal {
    open spec fn obeys_from_spec() -> bool {
        true
    }

    open spec fn from_spec(goal: &StateGoal) -> Self {
        ExternalGoalPreviousGoal {
            goal_id: goal.goal_id,
            status: goal.status,
            objective: goal.objective,
        }
    }
}

impl From<&StateGoal> for ExternalGoalPreviousStatus {
    fn from(goal: &StateGoal) -> (result: Self) {
        ExternalGoalPreviousStatus::Existing(ExternalGoalPreviousGoal::from(goal))
    }
}

impl FromSpecImpl<&StateGoal> for ExternalGoalPreviousStatus {
    open spec fn obeys_from_spec() -> bool {
        true
    }

    open spec fn from_spec(goal: &StateGoal) -> Self {
        ExternalGoalPreviousStatus::Existing(
            ExternalGoalPreviousGoal {
                goal_id: goal.goal_id,
                status: goal.status,
                objective: goal.objective,
            },
        )
    }
}

/// A goal mutation that was stored from outside.
#[derive(Debug, PartialEq, Eq)]
pub struct ExternalGoalSet {
    pub goal: StateGoal,
    pub previous_status: ExternalGoalPreviousStatus,
}

impl Clone for ExternalGoalSet {
    fn clone(&self) -> (result: Self)
        ensures
            result == *self,
    {
        ExternalGoalSet {
            goal: self.goal.clone(),
            previous_status: self.previous_status.clone(),
        }
    }
}

/// Why something asked of a goal is refused.
#[derive(Debug, PartialEq, Eq)]
pub enum GoalError {
    FeatureDisabled,
    InvalidBudget,
    /// The objective is refused, for the given reason.
    InvalidObjective(String),
    NoGoalToUpdate(ThreadId),
    GoalExists(ThreadId),
    EphemeralThread,
    NoStateDb,
    NoThreadMetadata,
    ThreadMetadataUnavailable,
    MaterializeRollout,
    ReadMetadata,
    LocateRollout,
    RereadMetadata,
}

impl GoalError {
    /// The text of an error.
    pub open spec fn spec_message(&self) -> Seq<char> {
        match self {
            GoalError::FeatureDisabled => "goals feature is disabled"@,
            GoalError::InvalidBudget => "goal budgets must be positive when provided"@,
            GoalError::InvalidObjective(reason) => reason@,
            GoalError::NoGoalToUpdate(thread_id) => "cannot update goal for thread "@ + thread_text(
                *thread_id,
            ) + ": no goal exists"@,
            GoalError::GoalExists(thread_id) => "cannot create a new goal because thread "@
                + thread_text(*thread_id) + " already has a goal"@,
            GoalError::EphemeralThread =>
            "thread goals require a persisted thread; this thread is ephemeral"@,
            GoalError::NoStateDb =>
            "thread goals require a local persisted thread with a state database"@,
            GoalError::NoThreadMetadata => "thread goals require materialized thread metadata"@,
            GoalError::ThreadMetadataUnavailable =>
            "thread metadata is unavailable after reconciling thread goals"@,
            GoalError::MaterializeRollout =>
            "failed to materialize rollout before opening state db for thread goals"@,
            GoalError::ReadMetadata =>
            "failed to read thread metadata before reconciling thread goals"@,
            GoalError::LocateRollout => "failed to locate rollout before reconciling thread goals"@,
            GoalError::RereadMetadata =>
            "failed to read thread metadata after reconciling thread goals"@,
        }
    }

    /// The text of an error.
    pub fn message(&self) -> (result: String)
        ensures
            result@ == self.spec_message(),
    {
        match self {
            GoalError::FeatureDisabled => "goals feature is disabled".to_owned(),
            GoalError::InvalidBudget => "goal budgets must be positive when provided".to_owned(),
            GoalError::InvalidObjective(reason) => reason.clone(),
            GoalError::NoGoalToUpdate(thread_id) => {
                let mut text = "cannot update goal for thread ".to_owned();
                text.append(thread_id_text(*thread_id).as_str());
                text.append(": no goal exists");
                text
            },
            GoalError::GoalExists(thread_id) => {
                let mut text = "cannot create a new goal because thread ".to_owned();
                text.append(thread_id_text(*thread_id).as_str());
                text.append(" already has a goal");
                text
            },
            GoalError::EphemeralThread =>
            "thread goals require a persisted thread; this thread is ephemeral".to_owned(),
            GoalError::NoStateDb =>
            "thread goals require a local persisted thread with a state database".to_owned(),
            GoalError::NoThreadMetadata =>
            "thread goals require materialized thread metadata".to_owned(),
            GoalError::ThreadMetadataUnavailable =>
            "thread metadata is unavailable after reconciling thread goals".to_owned(),
            GoalError::MaterializeRollout =>
            "failed to materialize rollout before opening state db for thread goals".to_owned(),
            GoalError::ReadMetadata =>
            "failed to read thread metadata before reconciling thread goals".to_owned(),
            GoalError::LocateRollout =>
            "failed to locate rollout before reconciling thread goals".to_owned(),
            GoalError::RereadMetadata =>
            "failed to read thread metadata after reconciling thread goals".to_owned(),
        }
    }
}

/// A goal budget is positive where it is given.
pub fn validate_goal_budget(value: Option<i64>) -> (result: Result<(), GoalError>)
    ensures
        result == if value is Some && value->Some_0 <= 0 {
            Err(GoalError::InvalidBudget)
        } else {
            Ok(())
        },
{
    match value {
        Some(value) => if value <= 0 {
            Err(GoalError::InvalidBudget)
        } else {
            Ok(())
        },
        None => Ok(()),
    }
}

/// Goals rest in plan mode, and only there.
pub fn should_ignore_goal_for_mode(mode: ModeKind) -> (result: bool)
    ensures
        result == (mode is Plan),
{
    mode == ModeKind::Plan
}

/// A prompt about a goal, hidden from the user, as a message.
pub fn goal_context_input_item(prompt: &str) -> (result: ResponseItem)
    ensures
        result@ == user_text_item(internal_context("goal"@, prompt@)),
{
    internal_context_item("goal", prompt)
}

// ---------------------------------------------------------------------------
// Metrics
// ---------------------------------------------------------------------------

/// What is counted when a goal comes to rest.
#[derive(Clone, Copy, Debug, PartialEq, Eq, Structural)]
pub enum GoalCounter {
    Blocked,
    UsageLimited,
    BudgetLimited,
    Completed,
}

/// What is measured when a goal comes to rest: one more on the counter, and the tokens and
/// seconds that it used, by status.
#[derive(Clone, Copy, Debug, PartialEq, Eq, Structural)]
pub struct TerminalMetrics {
    pub counter: GoalCounter,
    pub status: StateGoalStatus,
    pub tokens_used: i64,
    pub time_used_seconds: i64,
}

/// Whether a change of status resumes a goal.
pub open spec fn resumes(previous: Option<StateGoalStatus>, status: StateGoalStatus) -> bool {
    &&& status is Active
    &&& previous matches Some(before)
    &&& before is Paused || before is Blocked || before is UsageLimited
}

/// Whether a change of status is counted as a resumed goal.
pub fn goal_resumed_metric_if_status_changed(
    previous_status: Option<StateGoalStatus>,
    goal_status: StateGoalStatus,
) -> (result: bool)
    ensures
        result == resumes(previous_status, goal_status),
{
    goal_status == StateGoalStatus::Active && match previous_status {
        Some(StateGoalStatus::Paused)
        | Some(StateGoalStatus::Blocked)
        | Some(StateGoalStatus::UsageLimited) => true,
        _ => false,
    }
}

/// What is measured when a goal changes to its status: nothing where the status is the
/// previous one, or where the goal is active or paused.
pub open spec fn terminal_metrics(
    previous: Option<StateGoalStatus>,
    goal: StateGoal,
) -> Option<TerminalMetrics> {
    let measured = |counter: GoalCounter|
        Some(
            TerminalMetrics {
                counter,
                status: goal.status,
                tokens_used: goal.tokens_used,
                time_used_seconds: goal.time_used_seconds,
            },
        );
    if previous == Some(goal.status) {
        None
    } else {
        match goal.status {
            StateGoalStatus::Blocked => measured(GoalCounter::Blocked),
            StateGoalStatus::UsageLimited => measured(GoalCounter::UsageLimited),
            StateGoalStatus::BudgetLimited => measured(GoalCounter::BudgetLimited),
            StateGoalStatus::Complete => measured(GoalCounter::Completed),
            StateGoalStatus::Active | StateGoalStatus::Paused => None,
        }
    }
}

/// What is measured when a goal changes to its status.
pub fn goal_terminal_metrics_if_status_changed(
    previous_status: Option<StateGoalStatus>,
    goal: &StateGoal,
) -> (result: Option<TerminalMetrics>)
    ensures
        result == terminal_metrics(previous_status, *goal),
{
    if let Some(previous) = previous_status {
        if previous == goal.status {
            return None;
        }
    }
    let counter = match goal.status {
        StateGoalStatus::Blocked => GoalCounter::Blocked,
        StateGoalStatus::UsageLimited => GoalCounter::UsageLimited,
        StateGoalStatus::BudgetLimited => GoalCounter::BudgetLimited,
        StateGoalStatus::Complete => GoalCounter::Completed,
        StateGoalStatus::Active | StateGoalStatus::Paused => {
            return None;
        },
    };
    Some(
        TerminalMetrics {
            counter,
            status: goal.status,
            tokens_used: goal.tokens_used,
            time_used_seconds: goal.time_used_seconds,
        },
    )
}

/// Only a change is measured: a goal that keeps its status is neither counted as resumed nor
/// as come to rest, no change is counted as both, and a goal is counted as come to rest by
/// every other change to a status that is neither active nor paused.
pub proof fn lemma_only_changes_are_measured(previous: Option<StateGoalStatus>, goal: StateGoal)
    ensures
        previous == Some(goal.status) ==> terminal_metrics(previous, goal) is None && !resumes(
            previous,
            goal.status,
        ),
        resumes(previous, goal.status) ==> terminal_metrics(previous, goal) is None,
        terminal_metrics(previous, goal) is Some <==> previous != Some(goal.status) && !(
        goal.status is Active) && !(goal.status is Paused),
{
}

/// The status that a change is measured against: that of the stored goal, where it is the
/// expected one.
pub open spec fn status_for_metrics(
    goal: Option<StateGoal>,
    expected_goal_id: Option<Seq<char>>,
) -> Option<StateGoalStatus> {
    match goal {
        Some(goal) => if expected_goal_id is None || expected_goal_id == Some(goal.goal_id@) {
            Some(goal.status)
        } else {
            None
        },
        None => None,
    }
}

/// The status that a change is measured against.
pub fn current_goal_status_for_metrics(
    goal: Option<&StateGoal>,
    expected_goal_id: Option<&str>,
) -> (result: Option<StateGoalStatus>)
    ensures
        result == status_for_metrics(
            match goal {
                Some(goal) => Some(*goal),
                None => None,
            },
            match expected_goal_id {
                Some(id) => Some(id@),
                None => None,
            },
        ),
{
    match goal {
        Some(goal) => {
            let expected = match expected_goal_id {
                Some(id) => crate::text::same_text(goal.goal_id.as_str(), id),
                None => true,
            };
            if expected {
                Some(goal.status)
            } else {
                None
            }
        },
        None => None,
    }
}

/// Nothing is asked of goals while their feature is off.
pub fn require_goals_feature(enabled: bool) -> (result: Result<(), GoalError>)
    ensures
        result == if enabled {
            Ok(())
        } else {
            Err(GoalError::FeatureDisabled)
        },
{
    if enabled {
        Ok(())
    } else {
        Err(GoalError::FeatureDisabled)
    }
}

/// The goal that was read for a thread, as it is published.
pub fn get_thread_goal(stored: Option<StateGoal>) -> (result: Option<ThreadGoal>)
    ensures
        result == match stored {
            Some(goal) => Some(published_goal(goal)),
            None => None,
        },
{
    match stored {
        Some(goal) => Some(protocol_goal_from_state(goal)),
        None => None,
    }
}

} // verus!
