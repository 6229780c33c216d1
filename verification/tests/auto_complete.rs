use gemini_orchestration::goal::{StateGoal, StateGoalStatus};
use gemini_orchestration::goal_auto_complete::{AutoCompleteEvent, AutoCompleteStage};
use gemini_orchestration::goal_continuation::{ContinuationEvent, ContinuationStage};
use gemini_orchestration::goal_runtime::GoalRuntimeState;
use gemini_orchestration::goal_set::{
    start_set_goal, GoalRequestEvent, GoalWrite, SetGoalStage,
};
use gemini_orchestration::protocol::{AgentStatus, ModeKind, SessionSource, WireApi};

/// A session with a stored goal and some children.
struct Session {
    wire_api: WireApi,
    state: GoalRuntimeState,
    goal: StateGoal,
    children: Vec<AgentStatus>,
}

fn session(wire_api: WireApi, mark_auto_armed: bool) -> Session {
    let goal = StateGoal {
        thread_id: 7,
        goal_id: "goal-1".to_string(),
        objective: "Review all worker results".to_string(),
        status: StateGoalStatus::Active,
        token_budget: Some(250_000),
        tokens_used: 0,
        time_used_seconds: 0,
        created_at: 0,
        updated_at: 0,
    };
    let mut state = GoalRuntimeState::new(0);
    if mark_auto_armed {
        state.mark_auto_armed_orchestration_goal(Some(&goal));
    }
    Session {
        wire_api,
        state,
        goal,
        children: vec![],
    }
}

fn report() -> AgentStatus {
    AgentStatus::Completed(Some("child result".to_string()))
}

impl Session {
    /// Ends a turn, and completes the goal where every guard holds.
    fn turn_end(&mut self, emitted_final_answer: bool, reengaged_child_this_turn: bool) {
        let mut stage = self.state.maybe_auto_complete_gemini_orchestration_goal(
            self.wire_api,
            &SessionSource::Exec,
            emitted_final_answer,
            reengaged_child_this_turn,
        );
        let mut polled = 0;
        loop {
            let event = match &stage {
                AutoCompleteStage::CheckMailbox { .. } => {
                    AutoCompleteEvent::Mailbox { pending: false }
                }
                AutoCompleteStage::ReadGoal { .. } => {
                    AutoCompleteEvent::Goal(Some(self.goal.clone()))
                }
                AutoCompleteStage::ListChildren { .. } => {
                    AutoCompleteEvent::Children((1..=self.children.len() as u128).collect())
                }
                AutoCompleteStage::Poll { .. } => {
                    polled += 1;
                    AutoCompleteEvent::Status(self.children[polled - 1].clone())
                }
                AutoCompleteStage::Complete { .. } => break,
                AutoCompleteStage::Stop => return,
            };
            stage = stage.next(event);
        }
        self.complete();
    }

    fn complete(&mut self) {
        let stage = start_set_goal(true, AutoCompleteStage::completion_request())
            .next(GoalRequestEvent::Store { present: true })
            .next(GoalRequestEvent::ClockAccounted)
            .next(GoalRequestEvent::Goal(Some(self.goal.clone())));
        let SetGoalStage::Write { pending } = stage else {
            panic!("the goal should be written");
        };
        let GoalWrite::Update(update) = &pending.write else {
            panic!("the goal should be updated");
        };
        assert_eq!(update.expected_goal_id, Some(self.goal.goal_id.clone()));
        assert_eq!(update.objective, None);
        self.goal.status = update.status.expect("a status is set");
        let written = Some(self.goal.clone());
        self.state
            .set_thread_goal(7, "turn-1", pending, written, None, 0)
            .expect("there is a goal to update");
    }
}

#[test]
fn gemini_auto_arm_records_orchestration_goal_marker() {
    let session = session(WireApi::GeminiNative, true);
    assert_eq!(
        session.state.auto_armed_orchestration_goal_id,
        Some(session.goal.goal_id)
    );
}

#[test]
fn orchestration_auto_complete_fires_on_clean_synthesis_turn() {
    let mut session = session(WireApi::GeminiNative, true);
    session.children = vec![report()];
    session.turn_end(true, false);
    assert_eq!(session.goal.status, StateGoalStatus::Complete);
}

#[test]
fn orchestration_auto_complete_skips_while_child_running() {
    let mut session = session(WireApi::GeminiNative, true);
    session.children = vec![AgentStatus::PendingInit];
    session.turn_end(true, false);
    assert_eq!(session.goal.status, StateGoalStatus::Active);
}

#[test]
fn orchestration_auto_complete_skips_on_followup_turn() {
    let mut session = session(WireApi::GeminiNative, true);
    session.children = vec![report()];
    session.turn_end(true, true);
    assert_eq!(session.goal.status, StateGoalStatus::Active);
}

#[test]
fn orchestration_auto_complete_skips_when_any_child_still_running() {
    let mut session = session(WireApi::GeminiNative, true);
    session.children = vec![report(), AgentStatus::PendingInit];
    session.turn_end(true, false);
    assert_eq!(session.goal.status, StateGoalStatus::Active);
}

#[test]
fn orchestration_auto_complete_never_completes_user_created_goal() {
    let mut session = session(WireApi::GeminiNative, false);
    session.children = vec![report()];
    session.turn_end(true, false);
    assert_eq!(session.goal.status, StateGoalStatus::Active);
}

#[test]
fn orchestration_auto_complete_is_noop_on_non_gemini() {
    let mut session = session(WireApi::Other, true);
    session.children = vec![report()];
    session.turn_end(true, false);
    assert_eq!(session.goal.status, StateGoalStatus::Active);
    assert_eq!(session.state.orchestration_answer_emitted_goal_id, None);
}

#[test]
fn orchestration_auto_complete_fires_across_turns_via_durable_answer() {
    let mut session = session(WireApi::GeminiNative, true);
    session.children = vec![AgentStatus::PendingInit];
    session.turn_end(true, false);
    assert_eq!(session.goal.status, StateGoalStatus::Active);

    session.children = vec![report()];
    session.turn_end(false, false);
    assert_eq!(session.goal.status, StateGoalStatus::Complete);
}

#[test]
fn orchestration_auto_complete_chases_null_child() {
    let mut session = session(WireApi::GeminiNative, true);
    session.children = vec![AgentStatus::Completed(None)];
    session.turn_end(true, false);
    assert_eq!(session.goal.status, StateGoalStatus::Active);
}

#[test]
fn orchestration_auto_complete_completes_with_errored_child() {
    let mut session = session(WireApi::GeminiNative, true);
    session.children = vec![AgentStatus::Errored("worker boom".to_string())];
    session.turn_end(true, false);
    assert_eq!(session.goal.status, StateGoalStatus::Complete);
}

#[test]
fn orchestration_auto_complete_reengagement_clears_durable_answer() {
    let mut session = session(WireApi::GeminiNative, true);
    session.children = vec![AgentStatus::PendingInit];
    session.turn_end(true, false);

    session.state.mark_reengaged_child_this_turn(None);

    session.children = vec![report()];
    session.turn_end(false, false);
    assert_eq!(session.goal.status, StateGoalStatus::Active);
}

#[test]
fn a_goal_that_is_not_active_is_not_continued() {
    for status in [StateGoalStatus::Complete, StateGoalStatus::BudgetLimited] {
        let mut session = session(WireApi::GeminiNative, true);
        session.goal.status = status;
        let stage = ContinuationStage::CheckIdle
            .next(
                ContinuationEvent::Session {
                    enabled: true,
                    mode: ModeKind::Default,
                    turn_active: false,
                    mailbox_pending: false,
                },
                &session.state,
            )
            .next(
                ContinuationEvent::Goal {
                    stored: Some(session.goal),
                    turn_active: false,
                    mailbox_pending: false,
                },
                &session.state,
            );
        assert_eq!(stage, ContinuationStage::Stop);
    }
}
