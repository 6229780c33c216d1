//! What a goal has been charged with so far, in tokens by turn and in seconds by the clock.

use crate::text::{clone_opt, opt_is, opt_text, same_text};
use crate::token_usage::{
    goal_token_delta_for_usage, goal_tokens, saturated, saturating_difference, TokenUsage,
};
use vstd::prelude::*;

verus! {

/// Nanoseconds in a second.
pub const NANOS_PER_SECOND: u128 = 1_000_000_000;

/// The last instant that the clock can hold, in nanoseconds.
pub const LAST_INSTANT: u128 = 9_223_372_036_854_775_807_999_999_999;

// ---------------------------------------------------------------------------
// Tokens of a turn
// ---------------------------------------------------------------------------

/// The usage that a turn was accounted up to, and the goal that it is charged to.
#[derive(Debug, PartialEq, Eq)]
pub struct GoalTurnAccountingSnapshot {
    pub turn_id: String,
    pub last_accounted_token_usage: TokenUsage,
    pub active_goal_id: Option<String>,
}

/// The mathematical content of a `GoalTurnAccountingSnapshot`.
pub struct TurnView {
    pub turn_id: Seq<char>,
    pub accounted: TokenUsage,
    pub goal: Option<Seq<char>>,
}

impl View for GoalTurnAccountingSnapshot {
    type V = TurnView;

    open spec fn view(&self) -> TurnView {
        TurnView {
            turn_id: self.turn_id@,
            accounted: self.last_accounted_token_usage,
            goal: opt_text(self.active_goal_id),
        }
    }
}

/// The usage since another, each count for itself.
pub open spec fn usage_since(current: TokenUsage, last: TokenUsage) -> TokenUsage {
    TokenUsage {
        input_tokens: saturated(current.input_tokens - last.input_tokens) as i64,
        cached_input_tokens: saturated(current.cached_input_tokens - last.cached_input_tokens) as i64,
        output_tokens: saturated(current.output_tokens - last.output_tokens) as i64,
        reasoning_output_tokens: saturated(
            current.reasoning_output_tokens - last.reasoning_output_tokens,
        ) as i64,
        total_tokens: saturated(current.total_tokens - last.total_tokens) as i64,
    }
}

impl GoalTurnAccountingSnapshot {
    pub fn new(turn_id: String, token_usage: TokenUsage) -> (result: Self)
        ensures
            result@ == (TurnView { turn_id: turn_id@, accounted: token_usage, goal: None }),
    {
        GoalTurnAccountingSnapshot {
            turn_id,
            last_accounted_token_usage: token_usage,
            active_goal_id: None,
        }
    }

    pub fn mark_active_goal(&mut self, goal_id: String)
        ensures
            final(self)@ == (TurnView { goal: Some(goal_id@), ..old(self)@ }),
    {
        self.active_goal_id = Some(goal_id);
    }

    pub fn active_this_turn(&self) -> (result: bool)
        ensures
            result == (self@.goal is Some),
    {
        self.active_goal_id.is_some()
    }

    pub fn active_goal_id(&self) -> (result: Option<String>)
        ensures
            result == self.active_goal_id,
    {
        clone_opt(&self.active_goal_id)
    }

    pub fn clear_active_goal(&mut self)
        ensures
            final(self)@ == (TurnView { goal: None, ..old(self)@ }),
    {
        self.active_goal_id = None;
    }

    pub fn reset_baseline(&mut self, token_usage: TokenUsage)
        ensures
            final(self)@ == (TurnView { accounted: token_usage, ..old(self)@ }),
    {
        self.last_accounted_token_usage = token_usage;
    }

    /// The tokens to charge for what was used since the last accounting.
    pub fn token_delta_since_last_accounting(&self, current: &TokenUsage) -> (result: i64)
        ensures
            result == goal_tokens(usage_since(*current, self@.accounted)),
            result >= 0,
    {
        let last = &self.last_accounted_token_usage;
        let delta = TokenUsage {
            input_tokens: saturating_difference(current.input_tokens, last.input_tokens),
            cached_input_tokens: saturating_difference(
                current.cached_input_tokens,
                last.cached_input_tokens,
            ),
            output_tokens: saturating_difference(current.output_tokens, last.output_tokens),
            reasoning_output_tokens: saturating_difference(
                current.reasoning_output_tokens,
                last.reasoning_output_tokens,
            ),
            total_tokens: saturating_difference(current.total_tokens, last.total_tokens),
        };
        goal_token_delta_for_usage(&delta)
    }

    pub fn mark_accounted(&mut self, current: TokenUsage)
        ensures
            final(self)@ == (TurnView { accounted: current, ..old(self)@ }),
    {
        self.last_accounted_token_usage = current;
    }
}

/// A usage that was accounted is not charged again.
pub proof fn lemma_accounted_is_not_charged_again(usage: TokenUsage)
    ensures
        goal_tokens(usage_since(usage, usage)) == 0,
{
}

// ---------------------------------------------------------------------------
// Seconds by the clock
// ---------------------------------------------------------------------------

/// The instant that the clock was accounted up to, and the goal that it is charged to.
/// Instants are in nanoseconds.
#[derive(Debug, PartialEq, Eq)]
pub struct GoalWallClockAccountingSnapshot {
    pub last_accounted_at: u128,
    pub active_goal_id: Option<String>,
}

/// The mathematical content of a `GoalWallClockAccountingSnapshot`.
pub struct ClockView {
    pub accounted: int,
    pub goal: Option<Seq<char>>,
}

impl View for GoalWallClockAccountingSnapshot {
    type V = ClockView;

    open spec fn view(&self) -> ClockView {
        ClockView { accounted: self.last_accounted_at as int, goal: opt_text(self.active_goal_id) }
    }
}

/// The whole seconds from one instant to another, none where the other is not later.
pub open spec fn seconds_since(accounted: int, now: int) -> int {
    if now <= accounted {
        0
    } else {
        let seconds = (now - accounted) / (NANOS_PER_SECOND as int);
        if seconds > i64::MAX {
            i64::MAX as int
        } else {
            seconds
        }
    }
}

/// The instant that a clock is accounted up to after some seconds were charged: those
/// seconds later, so that the fraction of a second that was not charged is charged some day.
/// Where the clock cannot hold that instant, it is the present one.
pub open spec fn accounted_after(accounted: int, seconds: int, now: int) -> int {
    if seconds <= 0 {
        accounted
    } else if accounted + seconds * NANOS_PER_SECOND > LAST_INSTANT {
        now
    } else {
        accounted + seconds * NANOS_PER_SECOND
    }
}

/// The clock of a goal from now on: that of the same goal runs on, that of another starts.
pub open spec fn clock_for_goal(clock: ClockView, goal_id: Seq<char>, now: int) -> ClockView {
    if clock.goal == Some(goal_id) {
        clock
    } else {
        ClockView { accounted: now, goal: Some(goal_id) }
    }
}

/// The clock of no goal.
pub open spec fn stopped_clock(now: int) -> ClockView {
    ClockView { accounted: now, goal: None }
}

impl GoalWallClockAccountingSnapshot {
    pub fn new(now: u128) -> (result: Self)
        ensures
            result@ == stopped_clock(now as int),
    {
        GoalWallClockAccountingSnapshot { last_accounted_at: now, active_goal_id: None }
    }

    /// The whole seconds to charge since the last accounting.
    pub fn time_delta_since_last_accounting(&self, now: u128) -> (result: i64)
        ensures
            result == seconds_since(self@.accounted, now as int),
    {
        if now <= self.last_accounted_at {
            return 0;
        }
        let seconds: u128 = (now - self.last_accounted_at) / NANOS_PER_SECOND;
        if seconds > i64::MAX as u128 {
            i64::MAX
        } else {
            seconds as i64
        }
    }

    /// Moves on by the seconds that were charged.
    pub fn mark_accounted(&mut self, accounted_seconds: i64, now: u128)
        ensures
            final(self)@ == (ClockView {
                accounted: accounted_after(
                    old(self)@.accounted,
                    accounted_seconds as int,
                    now as int,
                ),
                ..old(self)@
            }),
    {
        if accounted_seconds <= 0 {
            return;
        }
        let advance: u128 = accounted_seconds as u128 * NANOS_PER_SECOND;
        if self.last_accounted_at > LAST_INSTANT || advance > LAST_INSTANT
            - self.last_accounted_at {
            self.last_accounted_at = now;
        } else {
            self.last_accounted_at = self.last_accounted_at + advance;
        }
    }

    pub fn reset_baseline(&mut self, now: u128)
        ensures
            final(self)@ == (ClockView { accounted: now as int, ..old(self)@ }),
    {
        self.last_accounted_at = now;
    }

    pub fn mark_active_goal(&mut self, goal_id: String, now: u128)
        ensures
            final(self)@ == clock_for_goal(old(self)@, goal_id@, now as int),
    {
        if !opt_is(&self.active_goal_id, goal_id.as_str()) {
            self.reset_baseline(now);
            self.active_goal_id = Some(goal_id);
        }
    }

    pub fn clear_active_goal(&mut self, now: u128)
        ensures
            final(self)@ == stopped_clock(now as int),
    {
        self.active_goal_id = None;
        self.reset_baseline(now);
    }

    pub fn active_goal_id(&self) -> (result: Option<String>)
        ensures
            result == self.active_goal_id,
    {
        clone_opt(&self.active_goal_id)
    }
}

/// Seconds that were charged are not charged again, and none is lost: what a clock charges
/// after charging once is what it would have charged in all, less the charge.
pub proof fn lemma_clock_charges_every_second_once(accounted: int, first: int, later: int)
    requires
        0 <= accounted <= first <= later <= LAST_INSTANT,
    ensures
        ({
            let charged = seconds_since(accounted, first);
            let moved = accounted_after(accounted, charged, first);
            &&& accounted <= moved <= first
            &&& seconds_since(moved, first) == 0
            &&& charged + seconds_since(moved, later) == seconds_since(accounted, later)
        }),
{
    let nanos = NANOS_PER_SECOND as int;
    let charged = seconds_since(accounted, first);
    let total = seconds_since(accounted, later);
    assert(charged == (first - accounted) / nanos);
    assert(total == (later - accounted) / nanos);
    let moved = accounted_after(accounted, charged, first);
    assert(moved == accounted + charged * nanos);
    assert(later - moved == (later - accounted) - charged * nanos);
}

// ---------------------------------------------------------------------------
// Both
// ---------------------------------------------------------------------------

/// The accounting of a session: of the turn at hand, where there is one, and of the clock.
#[derive(Debug, PartialEq, Eq)]
pub struct GoalAccountingSnapshot {
    pub turn: Option<GoalTurnAccountingSnapshot>,
    pub wall_clock: GoalWallClockAccountingSnapshot,
}

/// The mathematical content of a `GoalAccountingSnapshot`.
pub struct AccountingView {
    pub turn: Option<TurnView>,
    pub clock: ClockView,
}

impl View for GoalAccountingSnapshot {
    type V = AccountingView;

    open spec fn view(&self) -> AccountingView {
        AccountingView {
            turn: match self.turn {
                Some(turn) => Some(turn@),
                None => None,
            },
            clock: self.wall_clock@,
        }
    }
}

/// Whether the turn that is accounted is the given one.
pub open spec fn accounts_turn(accounting: AccountingView, turn_id: Seq<char>) -> bool {
    accounting.turn matches Some(turn) && turn.turn_id == turn_id
}

/// The accounting with the goal of the turn at hand set or cleared, where that turn is the
/// given one.
pub open spec fn with_turn_goal(
    accounting: AccountingView,
    turn_id: Seq<char>,
    goal: Option<Seq<char>>,
) -> AccountingView {
    if accounts_turn(accounting, turn_id) {
        AccountingView {
            turn: Some(TurnView { goal, ..accounting.turn->Some_0 }),
            ..accounting
        }
    } else {
        accounting
    }
}

/// The accounting after a goal was stopped, whatever turn is at hand.
pub open spec fn stopped_accounting(accounting: AccountingView, now: int) -> AccountingView {
    AccountingView {
        turn: match accounting.turn {
            Some(turn) => Some(TurnView { goal: None, ..turn }),
            None => None,
        },
        clock: stopped_clock(now),
    }
}

/// The accounting after the goal of a turn was stopped.
pub open spec fn cleared_accounting(
    accounting: AccountingView,
    turn_id: Seq<char>,
    now: int,
) -> AccountingView {
    AccountingView {
        clock: stopped_clock(now),
        ..with_turn_goal(accounting, turn_id, None)
    }
}

/// The accounting after a goal became active: the turn, where one is given, is charged to it
/// from its present usage on, and so is the clock, which runs on where it was charged to
/// that goal before.
pub open spec fn active_accounting(
    accounting: AccountingView,
    goal_id: Seq<char>,
    turn_id: Option<Seq<char>>,
    usage: TokenUsage,
    now: int,
) -> AccountingView {
    AccountingView {
        turn: match turn_id {
            Some(turn_id) => Some(
                TurnView { turn_id, accounted: usage, goal: Some(goal_id) },
            ),
            None => accounting.turn,
        },
        clock: clock_for_goal(accounting.clock, goal_id, now),
    }
}

/// The accounting without the turn, where the turn at hand is the given one.
pub open spec fn without_turn(accounting: AccountingView, turn_id: Seq<char>) -> AccountingView {
    if accounts_turn(accounting, turn_id) {
        AccountingView { turn: None, ..accounting }
    } else {
        accounting
    }
}

impl GoalAccountingSnapshot {
    pub fn new(now: u128) -> (result: Self)
        ensures
            result@ == (AccountingView { turn: None, clock: stopped_clock(now as int) }),
    {
        GoalAccountingSnapshot {
            turn: None,
            wall_clock: GoalWallClockAccountingSnapshot::new(now),
        }
    }

    /// Whether the turn that is accounted is the given one.
    pub fn accounts(&self, turn_id: &str) -> (result: bool)
        ensures
            result == accounts_turn(self@, turn_id@),
    {
        match &self.turn {
            Some(turn) => same_text(turn.turn_id.as_str(), turn_id),
            None => false,
        }
    }

    /// Takes a goal that was stopped out of the accounting.
    pub fn stop(&mut self, now: u128)
        ensures
            final(self)@ == stopped_accounting(old(self)@, now as int),
    {
        if let Some(turn) = self.turn.as_mut() {
            turn.clear_active_goal();
        }
        self.wall_clock.clear_active_goal(now);
    }

    /// Takes the goal of a turn out of the accounting.
    pub fn clear_active_goal(&mut self, turn_id: &str, now: u128)
        ensures
            final(self)@ == cleared_accounting(old(self)@, turn_id@, now as int),
    {
        if self.accounts(turn_id) {
            if let Some(turn) = self.turn.as_mut() {
                turn.clear_active_goal();
            }
        }
        self.wall_clock.clear_active_goal(now);
    }

    /// Puts an active goal into the accounting.
    pub fn mark_active_goal(
        &mut self,
        goal_id: &str,
        turn_id: Option<String>,
        token_usage: TokenUsage,
        now: u128,
    )
        ensures
            final(self)@ == active_accounting(
                old(self)@,
                goal_id@,
                opt_text(turn_id),
                token_usage,
                now as int,
            ),
    {
        if let Some(turn_id) = turn_id {
            if self.accounts(turn_id.as_str()) {
                if let Some(turn) = self.turn.as_mut() {
                    turn.reset_baseline(token_usage);
                    turn.mark_active_goal(goal_id.to_owned());
                }
            } else {
                let mut turn = GoalTurnAccountingSnapshot::new(turn_id, token_usage);
                turn.mark_active_goal(goal_id.to_owned());
                self.turn = Some(turn);
            }
        }
        self.wall_clock.mark_active_goal(goal_id.to_owned(), now);
    }

    /// Takes a turn that ended out of the accounting.
    pub fn end_turn(&mut self, turn_id: &str)
        ensures
            final(self)@ == without_turn(old(self)@, turn_id@),
    {
        if self.accounts(turn_id) {
            self.turn = None;
        }
    }
}

} // verus!
