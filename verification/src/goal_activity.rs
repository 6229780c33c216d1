//! When a continuation of a goal was in vain, and what makes the next one worth while.
//!
//! A turn that only continues a goal and ends without any counted activity suppresses the next
//! continuation. Activity of the user, of a tool or from outside lifts the suppression.

use crate::goal::UPDATE_GOAL_TOOL_NAME;
use crate::goal_runtime::{routed, GoalRuntimeAction, GoalRuntimeEvent};
use crate::text::{opt_is, opt_text, same_text};
use vstd::prelude::*;

verus! {

/// What is remembered of continuations.
#[derive(Debug, PartialEq, Eq)]
pub struct ContinuationActivity {
    /// The turn that was started to continue a goal, until it ends.
    pub turn_id: Option<String>,
    /// Whether a tool was counted in that turn.
    pub active: bool,
    /// Whether the next continuation is suppressed.
    pub suppressed: bool,
}

/// The mathematical content of a `ContinuationActivity`.
pub struct ActivityView {
    pub turn: Option<Seq<char>>,
    pub active: bool,
    pub suppressed: bool,
}

impl View for ContinuationActivity {
    type V = ActivityView;

    open spec fn view(&self) -> ActivityView {
        ActivityView {
            turn: opt_text(self.turn_id),
            active: self.active,
            suppressed: self.suppressed,
        }
    }
}

/// What is remembered before any continuation.
pub open spec fn no_activity() -> ActivityView {
    ActivityView { turn: None, active: false, suppressed: false }
}

/// What is remembered after a turn was started to continue a goal.
pub open spec fn after_continuing(activity: ActivityView, turn_id: Seq<char>) -> ActivityView {
    ActivityView { turn: Some(turn_id), active: false, ..activity }
}

/// Whether an event is a tool that is counted: one that is charged to the goal while the turn
/// goes on.
pub open spec fn counted_tool(event: GoalRuntimeEvent) -> bool {
    routed(event) matches GoalRuntimeAction::AccountProgress { ends_turn: false, .. }
}

/// Whether an event comes from outside the turns of the session.
pub open spec fn outside_activity(event: GoalRuntimeEvent) -> bool {
    event is ExternalMutationStarting || event is ExternalSet || event is ExternalClear
        || event is ThreadResumed
}

/// What is remembered after an event, in the given turn where it has one.
pub open spec fn after_event(
    activity: ActivityView,
    event: GoalRuntimeEvent,
    turn_id: Option<Seq<char>>,
) -> ActivityView {
    let own = turn_id is Some && activity.turn == turn_id;
    if counted_tool(event) {
        ActivityView { active: activity.active || own, suppressed: false, ..activity }
    } else if outside_activity(event) {
        ActivityView { suppressed: false, ..activity }
    } else {
        match event {
            GoalRuntimeEvent::TurnStarted => if own {
                activity
            } else {
                no_activity()
            },
            GoalRuntimeEvent::TurnFinished { turn_completed } => if own {
                ActivityView {
                    turn: None,
                    active: false,
                    suppressed: activity.suppressed || (turn_completed && !activity.active),
                }
            } else {
                activity
            },
            GoalRuntimeEvent::TaskAborted { .. } => if own {
                ActivityView { turn: None, active: false, ..activity }
            } else {
                activity
            },
            _ => activity,
        }
    }
}

impl ContinuationActivity {
    pub fn new() -> (result: Self)
        ensures
            result@ == no_activity(),
    {
        ContinuationActivity { turn_id: None, active: false, suppressed: false }
    }

    /// Records that a turn was started to continue a goal.
    pub fn continuing(&mut self, turn_id: &str)
        ensures
            final(self)@ == after_continuing(old(self)@, turn_id@),
    {
        self.turn_id = Some(turn_id.to_owned());
        self.active = false;
    }

    /// Takes in an event, in the given turn where it has one.
    pub fn observe(&mut self, event: &GoalRuntimeEvent, turn_id: Option<&str>)
        ensures
            final(self)@ == after_event(
                old(self)@,
                *event,
                match turn_id {
                    Some(turn_id) => Some(turn_id@),
                    None => None,
                },
            ),
    {
        let own = match turn_id {
            Some(turn_id) => opt_is(&self.turn_id, turn_id),
            None => false,
        };
        match event {
            GoalRuntimeEvent::ToolCompleted { tool_name } => {
                if !same_text(tool_name.as_str(), UPDATE_GOAL_TOOL_NAME) {
                    self.active = self.active || own;
                    self.suppressed = false;
                }
            },
            GoalRuntimeEvent::ToolCompletedGoal => {
                self.active = self.active || own;
                self.suppressed = false;
            },
            GoalRuntimeEvent::ExternalMutationStarting
            | GoalRuntimeEvent::ExternalSet
            | GoalRuntimeEvent::ExternalClear
            | GoalRuntimeEvent::ThreadResumed => {
                self.suppressed = false;
            },
            GoalRuntimeEvent::TurnStarted => {
                if !own {
                    self.turn_id = None;
                    self.active = false;
                    self.suppressed = false;
                }
            },
            GoalRuntimeEvent::TurnFinished { turn_completed } => {
                if own {
                    self.suppressed = self.suppressed || (*turn_completed && !self.active);
                    self.turn_id = None;
                    self.active = false;
                }
            },
            GoalRuntimeEvent::TaskAborted { has_turn: _ } => {
                if own {
                    self.turn_id = None;
                    self.active = false;
                }
            },
            GoalRuntimeEvent::MaybeContinueIfIdle | GoalRuntimeEvent::UsageLimitReached => {},
        }
    }
}

// ---------------------------------------------------------------------------
// Laws
// ---------------------------------------------------------------------------

/// What is remembered after several events, each in the given turn where it has one.
pub open spec fn after_events(
    activity: ActivityView,
    events: Seq<(GoalRuntimeEvent, Option<Seq<char>>)>,
) -> ActivityView
    decreases events.len(),
{
    if events.len() == 0 {
        activity
    } else {
        after_events(after_event(activity, events[0].0, events[0].1), events.skip(1))
    }
}

/// Whether an event lifts a suppression: the start of a turn that continues nothing, a counted
/// tool, or something from outside.
pub open spec fn lifts(event: GoalRuntimeEvent) -> bool {
    event is TurnStarted || counted_tool(event) || outside_activity(event)
}

/// A turn that was started to continue a goal and is completed without a counted tool
/// suppresses the next continuation, and one with a counted tool does not.
pub proof fn lemma_idle_continuation_suppresses(
    activity: ActivityView,
    turn_id: Seq<char>,
    tool: GoalRuntimeEvent,
)
    requires
        counted_tool(tool),
    ensures
        ({
            let finished = GoalRuntimeEvent::TurnFinished { turn_completed: true };
            let started = after_event(
                after_continuing(activity, turn_id),
                GoalRuntimeEvent::TurnStarted,
                Some(turn_id),
            );
            let worked = after_event(started, tool, Some(turn_id));
            &&& after_event(started, finished, Some(turn_id)).suppressed
            &&& !after_event(worked, finished, Some(turn_id)).suppressed
        }),
{
}

/// A suppression lasts until something lifts it, and then it is lifted.
pub proof fn lemma_suppression_lasts_until_lifted(
    activity: ActivityView,
    events: Seq<(GoalRuntimeEvent, Option<Seq<char>>)>,
    event: GoalRuntimeEvent,
    turn_id: Option<Seq<char>>,
)
    requires
        activity.turn is None,
        activity.suppressed,
        forall|i: int| 0 <= i < events.len() ==> !lifts((#[trigger] events[i]).0),
    ensures
        after_events(activity, events).suppressed,
        lifts(event) ==> !after_event(after_events(activity, events), event, turn_id).suppressed,
    decreases events.len(),
{
    if events.len() > 0 {
        assert(!lifts(events[0].0));
        assert forall|i: int| 0 <= i < events.skip(1).len() implies !lifts(
            (#[trigger] events.skip(1)[i]).0,
        ) by {
            assert(events.skip(1)[i] == events[i + 1]);
        }
        lemma_suppression_lasts_until_lifted(
            after_event(activity, events[0].0, events[0].1),
            events.skip(1),
            event,
            turn_id,
        );
    }
}

} // verus!
