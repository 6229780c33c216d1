//! Completing the goal of an orchestrator without the model, once the work that it delegated
//! is done and an answer was given.

use crate::agent_status::delivered_status;
use crate::goal::{StateGoal, StateGoalStatus, ThreadGoalStatus};
use crate::goal_runtime::{GoalRuntimeState, RuntimeView};
use crate::goal_set::SetGoalRequest;
use crate::orchestration::{
    gemini_root, is_gemini_native_root, lemma_poll_finds_all_delivered, next_poll, poll_from,
    polled, ChildPoll, PollView,
};
use crate::protocol::{AgentStatus, SessionSource, WireApi};
use crate::text::{opt_is, same_text};
use crate::thread_id::ThreadId;
use vstd::prelude::*;

verus! {

/// What is to be done next on the way to completing a goal. Each stage holds the identity of
/// the goal that the orchestrator set up for itself.
#[derive(Debug, PartialEq, Eq)]
pub enum AutoCompleteStage {
    /// See whether mail is pending that starts a turn anyway.
    CheckMailbox { goal_id: String },
    /// Read the goal of the thread.
    ReadGoal { goal_id: String },
    /// List the live children.
    ListChildren { goal_id: String },
    /// Poll the children one after the other.
    Poll { goal_id: String, poll: ChildPoll },
    /// Set the goal complete, as the model would.
    Complete { goal_id: String },
    /// Leave the goal as it is.
    Stop,
}

/// The mathematical content of an `AutoCompleteStage`.
pub enum AutoCompleteView {
    CheckMailbox { goal_id: Seq<char> },
    ReadGoal { goal_id: Seq<char> },
    ListChildren { goal_id: Seq<char> },
    Poll { goal_id: Seq<char>, poll: PollView },
    Complete { goal_id: Seq<char> },
    Stop,
}

impl View for AutoCompleteStage {
    type V = AutoCompleteView;

    open spec fn view(&self) -> AutoCompleteView {
        match self {
            AutoCompleteStage::CheckMailbox { goal_id } => AutoCompleteView::CheckMailbox {
                goal_id: goal_id@,
            },
            AutoCompleteStage::ReadGoal { goal_id } => AutoCompleteView::ReadGoal {
                goal_id: goal_id@,
            },
            AutoCompleteStage::ListChildren { goal_id } => AutoCompleteView::ListChildren {
                goal_id: goal_id@,
            },
            AutoCompleteStage::Poll { goal_id, poll } => AutoCompleteView::Poll {
                goal_id: goal_id@,
                poll: poll@,
            },
            AutoCompleteStage::Complete { goal_id } => AutoCompleteView::Complete {
                goal_id: goal_id@,
            },
            AutoCompleteStage::Stop => AutoCompleteView::Stop,
        }
    }
}

/// What came of a stage.
#[derive(Debug, PartialEq, Eq)]
pub enum AutoCompleteEvent {
    Mailbox { pending: bool },
    Goal(Option<StateGoal>),
    Children(Vec<ThreadId>),
    Status(AgentStatus),
    /// The thread has no store, or the session failed.
    Unavailable,
}

/// Whether the end of a turn is one that an orchestrator may complete its goal at: no child
/// was engaged again, and the session is a root on the Gemini wire protocol.
pub open spec fn completion_turn(is_root: bool, reengaged_child: bool) -> bool {
    is_root && !reengaged_child
}

/// The state after the end of a turn: an answer is remembered for the goal that the
/// orchestrator set up for itself.
pub open spec fn after_answer(
    state: RuntimeView,
    is_root: bool,
    emitted_final_answer: bool,
    reengaged_child: bool,
) -> RuntimeView {
    if completion_turn(is_root, reengaged_child) && state.auto_armed is Some
        && emitted_final_answer {
        RuntimeView { answered: state.auto_armed, ..state }
    } else {
        state
    }
}

/// The goal that may be completed at the end of a turn: the one that the orchestrator set up
/// for itself, where an answer was given for it since a child was last engaged.
pub open spec fn completable(
    state: RuntimeView,
    is_root: bool,
    emitted_final_answer: bool,
    reengaged_child: bool,
) -> Option<Seq<char>> {
    if completion_turn(is_root, reengaged_child) && state.auto_armed is Some && (
    emitted_final_answer || state.answered == state.auto_armed) {
        state.auto_armed
    } else {
        None
    }
}

impl GoalRuntimeState {
    /// Takes in the end of a turn, and starts on completing a goal where one may be complete.
    pub fn maybe_auto_complete_gemini_orchestration_goal(
        &mut self,
        wire_api: WireApi,
        session_source: &SessionSource,
        emitted_final_answer: bool,
        reengaged_child_this_turn: bool,
    ) -> (result: AutoCompleteStage)
        ensures
            final(self)@ == after_answer(
                old(self)@,
                gemini_root(wire_api, *session_source),
                emitted_final_answer,
                reengaged_child_this_turn,
            ),
            result@ == match completable(
                old(self)@,
                gemini_root(wire_api, *session_source),
                emitted_final_answer,
                reengaged_child_this_turn,
            ) {
                Some(goal_id) => AutoCompleteView::CheckMailbox { goal_id },
                None => AutoCompleteView::Stop,
            },
    {
        if reengaged_child_this_turn {
            return AutoCompleteStage::Stop;
        }
        if !is_gemini_native_root(wire_api, session_source) {
            return AutoCompleteStage::Stop;
        }
        let goal_id = match &self.auto_armed_orchestration_goal_id {
            Some(goal_id) => goal_id.clone(),
            None => {
                return AutoCompleteStage::Stop;
            },
        };
        if emitted_final_answer {
            self.orchestration_answer_emitted_goal_id = Some(goal_id.clone());
        }
        if !opt_is(&self.orchestration_answer_emitted_goal_id, goal_id.as_str()) {
            return AutoCompleteStage::Stop;
        }
        AutoCompleteStage::CheckMailbox { goal_id }
    }
}

/// Whether the stored goal is the one that may be completed, and still active.
pub open spec fn still_active(stored: Option<StateGoal>, goal_id: Seq<char>) -> bool {
    stored matches Some(goal) && goal.status is Active && goal.goal_id@ == goal_id
}

/// The stage that a poll stands for.
pub open spec fn auto_complete_at(goal_id: Seq<char>, poll: PollView) -> AutoCompleteView {
    match poll {
        PollView::Poll { .. } => AutoCompleteView::Poll { goal_id, poll },
        PollView::AllDelivered => AutoCompleteView::Complete { goal_id },
        PollView::Blocked => AutoCompleteView::Stop,
    }
}

/// The stage that an event leads to. An event that cannot come of a stage changes nothing.
pub open spec fn next_auto_complete(
    stage: AutoCompleteView,
    event: AutoCompleteEvent,
) -> AutoCompleteView {
    match (stage, event) {
        (AutoCompleteView::CheckMailbox { goal_id }, AutoCompleteEvent::Mailbox { pending }) =>
        if pending {
            AutoCompleteView::Stop
        } else {
            AutoCompleteView::ReadGoal { goal_id }
        },
        (AutoCompleteView::ReadGoal { goal_id }, AutoCompleteEvent::Goal(stored)) =>
        if still_active(stored, goal_id) {
            AutoCompleteView::ListChildren { goal_id }
        } else {
            AutoCompleteView::Stop
        },
        (AutoCompleteView::ReadGoal { .. }, AutoCompleteEvent::Unavailable) =>
        AutoCompleteView::Stop,
        (AutoCompleteView::ListChildren { goal_id }, AutoCompleteEvent::Children(children)) =>
        auto_complete_at(goal_id, poll_from(children@, 0)),
        (AutoCompleteView::ListChildren { .. }, AutoCompleteEvent::Unavailable) =>
        AutoCompleteView::Stop,
        (AutoCompleteView::Poll { goal_id, poll }, AutoCompleteEvent::Status(status)) =>
        auto_complete_at(goal_id, next_poll(poll, status)),
        _ => stage,
    }
}

fn stage_at(goal_id: String, poll: ChildPoll) -> (result: AutoCompleteStage)
    ensures
        result@ == auto_complete_at(goal_id@, poll@),
{
    match poll {
        ChildPoll::Poll { children, next } => AutoCompleteStage::Poll {
            goal_id,
            poll: ChildPoll::Poll { children, next },
        },
        ChildPoll::AllDelivered => AutoCompleteStage::Complete { goal_id },
        ChildPoll::Blocked => AutoCompleteStage::Stop,
    }
}

impl AutoCompleteStage {
    /// The stage that an event leads to.
    pub fn next(self, event: AutoCompleteEvent) -> (result: Self)
        ensures
            result@ == next_auto_complete(self@, event),
    {
        match (self, event) {
            (
                AutoCompleteStage::CheckMailbox { goal_id },
                AutoCompleteEvent::Mailbox { pending },
            ) => {
                if pending {
                    AutoCompleteStage::Stop
                } else {
                    AutoCompleteStage::ReadGoal { goal_id }
                }
            },
            (AutoCompleteStage::ReadGoal { goal_id }, AutoCompleteEvent::Goal(stored)) => {
                let current = match &stored {
                    Some(goal) => goal.status == StateGoalStatus::Active && same_text(
                        goal.goal_id.as_str(),
                        goal_id.as_str(),
                    ),
                    None => false,
                };
                if current {
                    AutoCompleteStage::ListChildren { goal_id }
                } else {
                    AutoCompleteStage::Stop
                }
            },
            (AutoCompleteStage::ReadGoal { goal_id: _ }, AutoCompleteEvent::Unavailable) =>
            AutoCompleteStage::Stop,
            (AutoCompleteStage::ListChildren { goal_id }, AutoCompleteEvent::Children(children))
            => stage_at(goal_id, ChildPoll::start(children)),
            (AutoCompleteStage::ListChildren { goal_id: _ }, AutoCompleteEvent::Unavailable) =>
            AutoCompleteStage::Stop,
            (AutoCompleteStage::Poll { goal_id, poll }, AutoCompleteEvent::Status(status)) =>
            stage_at(goal_id, poll.next(&status)),
            (stage, _) => stage,
        }
    }

    /// What completing a goal asks of it: its status alone.
    pub fn completion_request() -> (result: SetGoalRequest)
        ensures
            result.objective is None,
            result.status == Some(ThreadGoalStatus::Complete),
            result.token_budget is None,
    {
        SetGoalRequest {
            objective: None,
            status: Some(ThreadGoalStatus::Complete),
            token_budget: None,
        }
    }
}

// ---------------------------------------------------------------------------
// Laws
// ---------------------------------------------------------------------------

/// The stage after several statuses came.
pub open spec fn auto_completed(
    stage: AutoCompleteView,
    statuses: Seq<AgentStatus>,
) -> AutoCompleteView
    decreases statuses.len(),
{
    if statuses.len() == 0 {
        stage
    } else {
        auto_completed(
            next_auto_complete(stage, AutoCompleteEvent::Status(statuses[0])),
            statuses.skip(1),
        )
    }
}

proof fn lemma_auto_completed_follows_poll(
    goal_id: Seq<char>,
    poll: PollView,
    statuses: Seq<AgentStatus>,
)
    ensures
        auto_completed(auto_complete_at(goal_id, poll), statuses) == auto_complete_at(
            goal_id,
            polled(poll, statuses),
        ),
    decreases statuses.len(),
{
    if statuses.len() > 0 {
        lemma_auto_completed_follows_poll(
            goal_id,
            next_poll(poll, statuses[0]),
            statuses.skip(1),
        );
    }
}

/// A goal is completed exactly where every guard holds: it may be completed at the end of the
/// turn, no mail is pending, it is still the stored and active one, and every child has
/// delivered.
pub proof fn lemma_completed_iff_all_guards_hold(
    state: RuntimeView,
    is_root: bool,
    emitted_final_answer: bool,
    reengaged_child: bool,
    pending: bool,
    stored: Option<StateGoal>,
    children: Vec<ThreadId>,
    statuses: Seq<AgentStatus>,
)
    requires
        statuses.len() == children@.len(),
    ensures
        ({
            let goal = completable(state, is_root, emitted_final_answer, reengaged_child);
            let start = match goal {
                Some(goal_id) => AutoCompleteView::CheckMailbox { goal_id },
                None => AutoCompleteView::Stop,
            };
            let mailbox = next_auto_complete(start, AutoCompleteEvent::Mailbox { pending });
            let read = next_auto_complete(mailbox, AutoCompleteEvent::Goal(stored));
            let listed = next_auto_complete(read, AutoCompleteEvent::Children(children));
            auto_completed(listed, statuses) is Complete <==> {
                &&& goal is Some
                &&& !pending
                &&& still_active(stored, goal->Some_0)
                &&& forall|i: int|
                    0 <= i < statuses.len() ==> delivered_status(#[trigger] statuses[i])
            }
        }),
{
    let goal = completable(state, is_root, emitted_final_answer, reengaged_child);
    lemma_stop_stays(statuses);
    if goal is Some {
        lemma_auto_completed_follows_poll(goal->Some_0, poll_from(children@, 0), statuses);
        lemma_poll_finds_all_delivered(children@, statuses);
    }
}

proof fn lemma_stop_stays(statuses: Seq<AgentStatus>)
    ensures
        auto_completed(AutoCompleteView::Stop, statuses) is Stop,
    decreases statuses.len(),
{
    if statuses.len() > 0 {
        lemma_stop_stays(statuses.skip(1));
    }
}

/// Only the goal that the orchestrator set up for itself is ever completed, so never one that
/// the user created, and never in a session that is no root on the Gemini wire protocol.
pub proof fn lemma_only_own_goal_is_completed(
    state: RuntimeView,
    is_root: bool,
    emitted_final_answer: bool,
    reengaged_child: bool,
    user_goal: Seq<char>,
)
    requires
        state.auto_armed != Some(user_goal),
    ensures
        completable(state, is_root, emitted_final_answer, reengaged_child) != Some(user_goal),
        !is_root ==> completable(state, is_root, emitted_final_answer, reengaged_child) is None
            && after_answer(state, is_root, emitted_final_answer, reengaged_child) == state,
        reengaged_child ==> completable(
            state,
            is_root,
            emitted_final_answer,
            reengaged_child,
        ) is None,
{
}

/// An answer lasts: a goal that was answered may be completed at the end of any later turn,
/// also one without an answer, as long as no child is engaged again; and engaging a child
/// again asks for a new answer.
pub proof fn lemma_answer_lasts_until_reengagement(
    state: RuntimeView,
    goal_id: Seq<char>,
    later_answer: bool,
)
    requires
        state.auto_armed == Some(goal_id),
    ensures
        ({
            let answered = after_answer(state, true, true, false);
            let reengaged = RuntimeView { answered: None, ..answered };
            &&& completable(answered, true, later_answer, false) == Some(goal_id)
            &&& after_answer(answered, true, later_answer, false) == answered
            &&& completable(reengaged, true, false, false) is None
            &&& completable(reengaged, true, true, false) == Some(goal_id)
        }),
{
}

} // verus!
