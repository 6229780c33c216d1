//! One call of `wait_agent`, from its start to its result.
//!
//! The call alternates between decisions and work that needs the session: it subscribes to
//! children, polls them and sleeps. Here stand the decisions. A stage says what is to be done
//! next; the event that comes of it leads to the next stage.

use crate::agent_status::{final_status, is_final};
use crate::protocol::AgentStatus;
use crate::thread_id::ThreadId;
use crate::wait::WaitPlan;
use crate::wait_report::{
    all_have_status, all_terminal, child_wait_result, mailbox_result, no_children_result,
    redundant_repeat, status_entries, ChildWaitReport, CollabAgentRef, CollabAgentStatusEntry,
    WaitAgentResult, WaitEnd, WaitOutcome, WaitResultView, WaitingEnd,
};
use std::collections::HashMap;
use vstd::prelude::*;

verus! {

broadcast use vstd::std_specs::hash::group_hash_axioms;

// ---------------------------------------------------------------------------
// Polling the children
// ---------------------------------------------------------------------------

/// The children at rest among those that were polled, each with the status that it was
/// polled with.
pub open spec fn final_statuses(
    agents: Seq<CollabAgentRef>,
    polled: Seq<AgentStatus>,
) -> Map<ThreadId, AgentStatus>
    recommends
        agents.len() == polled.len(),
    decreases agents.len(),
{
    if agents.len() == 0 {
        Map::empty()
    } else {
        let before = final_statuses(agents.drop_last(), polled.drop_last());
        if final_status(polled.last()) {
            before.insert(agents.last().thread_id, polled.last())
        } else {
            before
        }
    }
}

/// Collects the children at rest among those that were polled.
pub fn final_statuses_for_children(
    receiver_agents: &Vec<CollabAgentRef>,
    polled: &Vec<AgentStatus>,
) -> (result: HashMap<ThreadId, AgentStatus>)
    requires
        receiver_agents@.len() == polled@.len(),
    ensures
        result@ == final_statuses(receiver_agents@, polled@),
{
    let mut statuses: HashMap<ThreadId, AgentStatus> = HashMap::new();
    let mut i: usize = 0;
    proof {
        assert(receiver_agents@.take(0) =~= Seq::empty());
        assert(polled@.take(0) =~= Seq::empty());
    }
    while i < receiver_agents.len()
        invariant
            i <= receiver_agents@.len(),
            receiver_agents@.len() == polled@.len(),
            statuses@ == final_statuses(
                receiver_agents@.take(i as int),
                polled@.take(i as int),
            ),
        decreases receiver_agents.len() - i,
    {
        proof {
            assert(receiver_agents@.take(i + 1).drop_last() =~= receiver_agents@.take(i as int));
            assert(polled@.take(i + 1).drop_last() =~= polled@.take(i as int));
        }
        if is_final(&polled[i]) {
            statuses.insert(receiver_agents[i].thread_id, polled[i].clone());
        }
        i = i + 1;
    }
    proof {
        assert(receiver_agents@.take(i as int) =~= receiver_agents@);
        assert(polled@.take(i as int) =~= polled@);
    }
    statuses
}

// ---------------------------------------------------------------------------
// Subscribing to the children
// ---------------------------------------------------------------------------

/// The children that were subscribed to, and those at rest already.
#[derive(Debug, PartialEq, Eq)]
pub struct ChildStatusSubscriptions {
    /// The children whose status can be followed, in their order.
    pub status_rxs: Vec<ThreadId>,
    pub terminal_statuses: HashMap<ThreadId, AgentStatus>,
}

/// What a subscription to one child gives.
#[derive(Debug, PartialEq, Eq)]
pub enum SubscribeReply {
    /// The child can be followed; this is its status now.
    Subscribed(AgentStatus),
    /// There is no such child any more.
    ThreadNotFound,
    /// The subscription failed otherwise.
    Failed,
}

impl ChildStatusSubscriptions {
    pub fn new() -> (result: Self)
        ensures
            result.status_rxs@ == Seq::<ThreadId>::empty(),
            result.terminal_statuses@ == Map::<ThreadId, AgentStatus>::empty(),
    {
        ChildStatusSubscriptions { status_rxs: Vec::new(), terminal_statuses: HashMap::new() }
    }

    /// Takes in what the subscription to one child gave. A failure leaves everything as it
    /// was and returns `false`.
    pub fn subscribe(&mut self, thread_id: ThreadId, reply: SubscribeReply) -> (result: bool)
        ensures
            result == !(reply is Failed),
            final(self).status_rxs@ == followed_after(old(self).status_rxs@, thread_id, reply),
            final(self).terminal_statuses@ == at_rest_after(
                old(self).terminal_statuses@,
                thread_id,
                reply,
            ),
    {
        match reply {
            SubscribeReply::Subscribed(status) => {
                if is_final(&status) {
                    self.terminal_statuses.insert(thread_id, status);
                }
                self.status_rxs.push(thread_id);
                true
            },
            SubscribeReply::ThreadNotFound => {
                self.terminal_statuses.insert(thread_id, AgentStatus::NotFound);
                true
            },
            SubscribeReply::Failed => false,
        }
    }

    /// The children to wait on: those that can be followed and are not at rest.
    pub fn waiters(&self) -> (result: Vec<ThreadId>)
        ensures
            result@ == not_at_rest(self.status_rxs@, self.terminal_statuses@),
    {
        let mut waiters: Vec<ThreadId> = Vec::new();
        let mut i: usize = 0;
        proof {
            assert(self.status_rxs@.take(0) =~= Seq::empty());
        }
        while i < self.status_rxs.len()
            invariant
                i <= self.status_rxs@.len(),
                waiters@ == not_at_rest(
                    self.status_rxs@.take(i as int),
                    self.terminal_statuses@,
                ),
            decreases self.status_rxs.len() - i,
        {
            proof {
                assert(self.status_rxs@.take(i + 1).drop_last() =~= self.status_rxs@.take(
                    i as int,
                ));
            }
            if !self.terminal_statuses.contains_key(&self.status_rxs[i]) {
                waiters.push(self.status_rxs[i]);
            }
            i = i + 1;
        }
        proof {
            assert(self.status_rxs@.take(i as int) =~= self.status_rxs@);
        }
        waiters
    }
}

/// The children that can be followed after one more subscription.
pub open spec fn followed_after(
    followed: Seq<ThreadId>,
    thread_id: ThreadId,
    reply: SubscribeReply,
) -> Seq<ThreadId> {
    if reply is Subscribed {
        followed.push(thread_id)
    } else {
        followed
    }
}

/// The children known to be at rest after one more subscription.
pub open spec fn at_rest_after(
    at_rest: Map<ThreadId, AgentStatus>,
    thread_id: ThreadId,
    reply: SubscribeReply,
) -> Map<ThreadId, AgentStatus> {
    match reply {
        SubscribeReply::Subscribed(status) => if final_status(status) {
            at_rest.insert(thread_id, status)
        } else {
            at_rest
        },
        SubscribeReply::ThreadNotFound => at_rest.insert(thread_id, AgentStatus::NotFound),
        SubscribeReply::Failed => at_rest,
    }
}

/// Those of `followed` that are not at rest.
pub open spec fn not_at_rest(
    followed: Seq<ThreadId>,
    at_rest: Map<ThreadId, AgentStatus>,
) -> Seq<ThreadId>
    decreases followed.len(),
{
    if followed.len() == 0 {
        Seq::empty()
    } else {
        let before = not_at_rest(followed.drop_last(), at_rest);
        if at_rest.contains_key(followed.last()) {
            before
        } else {
            before.push(followed.last())
        }
    }
}

// ---------------------------------------------------------------------------
// Following one child
// ---------------------------------------------------------------------------

/// What is seen of a child that is followed.
#[derive(Debug, PartialEq, Eq)]
pub enum WaiterEvent {
    /// Its status, at the start or after a change.
    Status(AgentStatus),
    /// It will send no more; this is the status that was polled then.
    SenderDropped(AgentStatus),
}

/// Whether a child is followed on.
#[derive(Debug, PartialEq, Eq)]
pub enum WaiterStep {
    KeepWaiting,
    Resolved(Option<AgentStatus>),
}

/// Follows a child until it is at rest, or sends no more.
pub fn wait_for_final_status(event: WaiterEvent) -> (result: WaiterStep)
    ensures
        result == match event {
            WaiterEvent::Status(status) => if final_status(status) {
                WaiterStep::Resolved(Some(status))
            } else {
                WaiterStep::KeepWaiting
            },
            WaiterEvent::SenderDropped(latest) => if final_status(latest) {
                WaiterStep::Resolved(Some(latest))
            } else {
                WaiterStep::Resolved(None)
            },
        },
{
    match event {
        WaiterEvent::Status(status) => if is_final(&status) {
            WaiterStep::Resolved(Some(status))
        } else {
            WaiterStep::KeepWaiting
        },
        WaiterEvent::SenderDropped(latest) => if is_final(&latest) {
            WaiterStep::Resolved(Some(latest))
        } else {
            WaiterStep::Resolved(None)
        },
    }
}

/// `ids` without the first occurrence of `id`.
pub open spec fn without_first(ids: Seq<ThreadId>, id: ThreadId) -> Seq<ThreadId>
    decreases ids.len(),
{
    if ids.len() == 0 {
        ids
    } else if ids[0] == id {
        ids.skip(1)
    } else {
        seq![ids[0]] + without_first(ids.skip(1), id)
    }
}

fn remove_first(ids: &mut Vec<ThreadId>, id: ThreadId)
    ensures
        final(ids)@ == without_first(old(ids)@, id),
{
    let mut i: usize = 0;
    let ghost whole = ids@;
    proof {
        assert(whole.take(0) + without_first(whole.skip(0), id) =~= without_first(whole, id)) by {
            assert(whole.skip(0) =~= whole);
        }
    }
    while i < ids.len() && ids[i] != id
        invariant
            ids@ == whole,
            i <= whole.len(),
            without_first(whole, id) == whole.take(i as int) + without_first(
                whole.skip(i as int),
                id,
            ),
        decreases ids.len() - i,
    {
        proof {
            let rest = whole.skip(i as int);
            assert(rest.skip(1) =~= whole.skip(i + 1));
            assert(whole.take(i + 1) =~= whole.take(i as int) + seq![rest[0]]);
            assert(whole.take(i as int) + (seq![rest[0]] + without_first(rest.skip(1), id))
                =~= whole.take(i + 1) + without_first(whole.skip(i + 1), id));
        }
        i = i + 1;
    }
    if i < ids.len() {
        ids.remove(i);
        proof {
            assert(whole.skip(i as int).skip(1) =~= whole.skip(i + 1));
            assert(whole.remove(i as int) =~= whole.take(i as int) + whole.skip(i + 1));
        }
    } else {
        proof {
            assert(whole.skip(i as int) =~= Seq::empty());
            assert(whole.take(i as int) + Seq::empty() =~= whole);
        }
    }
}

// ---------------------------------------------------------------------------
// The call as a whole
// ---------------------------------------------------------------------------

/// What is to be done next in a call.
#[derive(Debug, PartialEq, Eq)]
pub enum WaitStage {
    /// Subscribe to the mailbox, announce the start of the wait and set the deadline.
    Open { use_status_output: bool },
    /// Sleep until mail comes or the deadline passes.
    AwaitMailbox,
    /// Register the root of the session and list its live children.
    ListChildren,
    /// Subscribe to the child at index `next`.
    Subscribe {
        agents: Vec<CollabAgentRef>,
        subscriptions: ChildStatusSubscriptions,
        next: usize,
    },
    /// Poll the child to which the subscription failed.
    PollFailed { agents: Vec<CollabAgentRef>, thread_id: ThreadId },
    /// Poll every child.
    Poll { agents: Vec<CollabAgentRef>, waiters: Vec<ThreadId>, mailbox_open: bool },
    /// Sleep until a followed child is at rest, the mailbox changes while it is open, or the
    /// deadline passes.
    Await { agents: Vec<CollabAgentRef>, waiters: Vec<ThreadId>, mailbox_open: bool },
    /// Poll every child for the report.
    PollReport { agents: Vec<CollabAgentRef>, outcome: WaitOutcome },
    /// Record the statuses as delivered, and compare them with those recorded before.
    Record {
        agents: Vec<CollabAgentRef>,
        outcome: WaitOutcome,
        statuses: HashMap<ThreadId, AgentStatus>,
    },
    /// Announce the end of the wait and return the result.
    Done { end: WaitEnd },
    /// Announce the end of the wait, where there is something to announce, and return the
    /// error of the session.
    Failed { event: Option<WaitingEnd> },
}

/// What came of a stage.
#[derive(Debug, PartialEq, Eq)]
pub enum WaitEvent {
    Opened,
    MailboxChanged,
    MailboxClosed,
    DeadlinePassed,
    Children(Vec<CollabAgentRef>),
    ChildrenFailed,
    Subscription(SubscribeReply),
    Status(AgentStatus),
    Statuses(Vec<AgentStatus>),
    /// The waiter for a followed child has ended.
    WaiterEnded(ThreadId),
    /// Whether the recorded statuses are those recorded before.
    Recorded(bool),
}

/// The mathematical content of a `WaitStage`.
#[verifier::ext_equal]
pub enum StageView {
    Open { use_status_output: bool },
    AwaitMailbox,
    ListChildren,
    Subscribe {
        agents: Seq<CollabAgentRef>,
        followed: Seq<ThreadId>,
        at_rest: Map<ThreadId, AgentStatus>,
        next: int,
    },
    PollFailed { agents: Seq<CollabAgentRef>, thread_id: ThreadId },
    Poll { agents: Seq<CollabAgentRef>, waiters: Seq<ThreadId>, mailbox_open: bool },
    Await { agents: Seq<CollabAgentRef>, waiters: Seq<ThreadId>, mailbox_open: bool },
    PollReport { agents: Seq<CollabAgentRef>, outcome: WaitOutcome },
    Record {
        agents: Seq<CollabAgentRef>,
        outcome: WaitOutcome,
        statuses: Map<ThreadId, AgentStatus>,
    },
    Done {
        result: WaitResultView,
        entries: Seq<CollabAgentStatusEntry>,
        statuses: Map<ThreadId, AgentStatus>,
    },
    Failed { event: Option<(Seq<CollabAgentStatusEntry>, Map<ThreadId, AgentStatus>)> },
}

impl View for WaitStage {
    type V = StageView;

    open spec fn view(&self) -> StageView {
        match self {
            WaitStage::Open { use_status_output } => StageView::Open {
                use_status_output: *use_status_output,
            },
            WaitStage::AwaitMailbox => StageView::AwaitMailbox,
            WaitStage::ListChildren => StageView::ListChildren,
            WaitStage::Subscribe { agents, subscriptions, next } => StageView::Subscribe {
                agents: agents@,
                followed: subscriptions.status_rxs@,
                at_rest: subscriptions.terminal_statuses@,
                next: *next as int,
            },
            WaitStage::PollFailed { agents, thread_id } => StageView::PollFailed {
                agents: agents@,
                thread_id: *thread_id,
            },
            WaitStage::Poll { agents, waiters, mailbox_open } => StageView::Poll {
                agents: agents@,
                waiters: waiters@,
                mailbox_open: *mailbox_open,
            },
            WaitStage::Await { agents, waiters, mailbox_open } => StageView::Await {
                agents: agents@,
                waiters: waiters@,
                mailbox_open: *mailbox_open,
            },
            WaitStage::PollReport { agents, outcome } => StageView::PollReport {
                agents: agents@,
                outcome: *outcome,
            },
            WaitStage::Record { agents, outcome, statuses } => StageView::Record {
                agents: agents@,
                outcome: *outcome,
                statuses: statuses@,
            },
            WaitStage::Done { end } => StageView::Done {
                result: end.result@,
                entries: end.event.agent_statuses@,
                statuses: end.event.statuses@,
            },
            WaitStage::Failed { event } => StageView::Failed {
                event: match event {
                    Some(end) => Some((end.agent_statuses@, end.statuses@)),
                    None => None,
                },
            },
        }
    }
}

/// The end of a call with a result and the statuses that the end is announced with.
pub open spec fn done(
    result: WaitResultView,
    statuses: Map<ThreadId, AgentStatus>,
    agents: Seq<CollabAgentRef>,
) -> StageView {
    StageView::Done { result, entries: status_entries(statuses, agents), statuses }
}

/// The stage that follows the subscriptions so far: the next child, or the first poll.
pub open spec fn subscribed(
    agents: Seq<CollabAgentRef>,
    followed: Seq<ThreadId>,
    at_rest: Map<ThreadId, AgentStatus>,
    next: int,
) -> StageView {
    if next < agents.len() {
        StageView::Subscribe { agents, followed, at_rest, next }
    } else {
        StageView::Poll { agents, waiters: not_at_rest(followed, at_rest), mailbox_open: true }
    }
}

/// The stage that an event leads to. An event that cannot come of a stage changes nothing.
pub open spec fn next_stage(stage: StageView, event: WaitEvent) -> StageView {
    match (stage, event) {
        (StageView::Open { use_status_output }, WaitEvent::Opened) => if use_status_output {
            StageView::ListChildren
        } else {
            StageView::AwaitMailbox
        },
        (StageView::AwaitMailbox, WaitEvent::MailboxChanged) => done(
            mailbox_result(false),
            Map::empty(),
            Seq::empty(),
        ),
        (StageView::AwaitMailbox, WaitEvent::MailboxClosed) => done(
            mailbox_result(true),
            Map::empty(),
            Seq::empty(),
        ),
        (StageView::AwaitMailbox, WaitEvent::DeadlinePassed) => done(
            mailbox_result(true),
            Map::empty(),
            Seq::empty(),
        ),
        (StageView::ListChildren, WaitEvent::ChildrenFailed) => StageView::Failed { event: None },
        (StageView::ListChildren, WaitEvent::Children(agents)) => if agents@.len() == 0 {
            done(no_children_result(), Map::empty(), agents@)
        } else {
            StageView::Subscribe {
                agents: agents@,
                followed: Seq::empty(),
                at_rest: Map::empty(),
                next: 0,
            }
        },
        (
            StageView::Subscribe { agents, followed, at_rest, next },
            WaitEvent::Subscription(reply),
        ) => if next >= agents.len() {
            stage
        } else if reply is Failed {
            StageView::PollFailed { agents, thread_id: agents[next].thread_id }
        } else {
            subscribed(
                agents,
                followed_after(followed, agents[next].thread_id, reply),
                at_rest_after(at_rest, agents[next].thread_id, reply),
                next + 1,
            )
        },
        (StageView::PollFailed { agents, thread_id }, WaitEvent::Status(status)) => {
            let statuses = Map::empty().insert(thread_id, status);
            StageView::Failed { event: Some((status_entries(statuses, agents), statuses)) }
        },
        (
            StageView::Poll { agents, waiters, mailbox_open },
            WaitEvent::Statuses(polled),
        ) => if polled@.len() != agents.len() {
            stage
        } else if all_have_status(final_statuses(agents, polled@), agents) {
            StageView::PollReport { agents, outcome: WaitOutcome::AllTerminal }
        } else {
            StageView::Await { agents, waiters, mailbox_open }
        },
        (StageView::Await { agents, waiters, mailbox_open }, WaitEvent::WaiterEnded(thread_id)) =>
        StageView::Poll { agents, waiters: without_first(waiters, thread_id), mailbox_open },
        (StageView::Await { agents, waiters, mailbox_open }, WaitEvent::MailboxChanged) =>
        StageView::Poll { agents, waiters, mailbox_open },
        (StageView::Await { agents, waiters, mailbox_open }, WaitEvent::MailboxClosed) =>
        StageView::Poll { agents, waiters, mailbox_open: false },
        (StageView::Await { agents, waiters, mailbox_open }, WaitEvent::DeadlinePassed) =>
        StageView::PollReport { agents, outcome: WaitOutcome::TimedOut },
        (
            StageView::PollReport { agents, outcome },
            WaitEvent::Statuses(polled),
        ) => if polled@.len() != agents.len() {
            stage
        } else {
            StageView::Record { agents, outcome, statuses: final_statuses(agents, polled@) }
        },
        (StageView::Record { agents, outcome, statuses }, WaitEvent::Recorded(was_unchanged)) =>
        done(
            child_wait_result(outcome, statuses, agents, was_unchanged),
            if redundant_repeat(outcome, statuses, agents, was_unchanged) {
                Map::empty()
            } else {
                statuses
            },
            agents,
        ),
        _ => stage,
    }
}

impl WaitStage {
    /// The first stage of a call.
    pub fn start(plan: &WaitPlan) -> (result: Self)
        ensures
            result@ == (StageView::Open { use_status_output: plan.use_status_output }),
    {
        WaitStage::Open { use_status_output: plan.use_status_output }
    }

    /// The stage that an event leads to.
    pub fn next(self, event: WaitEvent) -> (result: Self)
        ensures
            result@ == next_stage(self@, event),
    {
        match (self, event) {
            (WaitStage::Open { use_status_output }, WaitEvent::Opened) => {
                if use_status_output {
                    WaitStage::ListChildren
                } else {
                    WaitStage::AwaitMailbox
                }
            },
            (WaitStage::AwaitMailbox, WaitEvent::MailboxChanged) => mailbox_done(false),
            (WaitStage::AwaitMailbox, WaitEvent::MailboxClosed) => mailbox_done(true),
            (WaitStage::AwaitMailbox, WaitEvent::DeadlinePassed) => mailbox_done(true),
            (WaitStage::ListChildren, WaitEvent::ChildrenFailed) => WaitStage::Failed {
                event: None,
            },
            (WaitStage::ListChildren, WaitEvent::Children(agents)) => {
                if agents.len() == 0 {
                    let event = WaitingEnd::new(HashMap::new(), &agents);
                    WaitStage::Done { end: WaitEnd { result: WaitAgentResult::no_children(), event } }
                } else {
                    WaitStage::Subscribe {
                        agents,
                        subscriptions: ChildStatusSubscriptions::new(),
                        next: 0,
                    }
                }
            },
            (
                WaitStage::Subscribe { agents, subscriptions, next },
                WaitEvent::Subscription(reply),
            ) => {
                if next >= agents.len() {
                    return WaitStage::Subscribe { agents, subscriptions, next };
                }
                let thread_id: ThreadId = agents[next].thread_id;
                let mut subscriptions = subscriptions;
                if !subscriptions.subscribe(thread_id, reply) {
                    return WaitStage::PollFailed { agents, thread_id };
                }
                let next: usize = next + 1;
                if next < agents.len() {
                    WaitStage::Subscribe { agents, subscriptions, next }
                } else {
                    let waiters = subscriptions.waiters();
                    WaitStage::Poll { agents, waiters, mailbox_open: true }
                }
            },
            (WaitStage::PollFailed { agents, thread_id }, WaitEvent::Status(status)) => {
                let mut statuses: HashMap<ThreadId, AgentStatus> = HashMap::new();
                statuses.insert(thread_id, status);
                WaitStage::Failed { event: Some(WaitingEnd::new(statuses, &agents)) }
            },
            (
                WaitStage::Poll { agents, waiters, mailbox_open },
                WaitEvent::Statuses(polled),
            ) => {
                if polled.len() != agents.len() {
                    return WaitStage::Poll { agents, waiters, mailbox_open };
                }
                let terminal = final_statuses_for_children(&agents, &polled);
                if all_terminal(&terminal, &agents) {
                    WaitStage::PollReport { agents, outcome: WaitOutcome::AllTerminal }
                } else {
                    WaitStage::Await { agents, waiters, mailbox_open }
                }
            },
            (
                WaitStage::Await { agents, waiters, mailbox_open },
                WaitEvent::WaiterEnded(thread_id),
            ) => {
                let mut waiters = waiters;
                remove_first(&mut waiters, thread_id);
                WaitStage::Poll { agents, waiters, mailbox_open }
            },
            (WaitStage::Await { agents, waiters, mailbox_open }, WaitEvent::MailboxChanged) => {
                WaitStage::Poll { agents, waiters, mailbox_open }
            },
            (WaitStage::Await { agents, waiters, mailbox_open: _ }, WaitEvent::MailboxClosed) => {
                WaitStage::Poll { agents, waiters, mailbox_open: false }
            },
            (WaitStage::Await { agents, waiters: _, mailbox_open: _ }, WaitEvent::DeadlinePassed)
            => WaitStage::PollReport { agents, outcome: WaitOutcome::TimedOut },
            (WaitStage::PollReport { agents, outcome }, WaitEvent::Statuses(polled)) => {
                if polled.len() != agents.len() {
                    return WaitStage::PollReport { agents, outcome };
                }
                let statuses = final_statuses_for_children(&agents, &polled);
                WaitStage::Record { agents, outcome, statuses }
            },
            (
                WaitStage::Record { agents, outcome, statuses },
                WaitEvent::Recorded(was_unchanged),
            ) => {
                let report = ChildWaitReport::new(outcome, agents, statuses);
                WaitStage::Done { end: report.deliver(was_unchanged) }
            },
            (stage, _) => stage,
        }
    }
}

fn mailbox_done(timed_out: bool) -> (result: WaitStage)
    ensures
        result@ == done(mailbox_result(timed_out), Map::empty(), Seq::empty()),
{
    let none: Vec<CollabAgentRef> = Vec::new();
    let event = WaitingEnd::new(HashMap::new(), &none);
    WaitStage::Done { end: WaitEnd { result: WaitAgentResult::from_timed_out(timed_out), event } }
}

// ---------------------------------------------------------------------------
// Laws
// ---------------------------------------------------------------------------

/// Neither a mailbox change nor the end of a waiter ends a wait for children: the children
/// are polled again, and the wait ends only when all of them are at rest or the deadline
/// passes.
pub proof fn lemma_wait_ends_only_at_rest_or_deadline(
    agents: Seq<CollabAgentRef>,
    waiters: Seq<ThreadId>,
    mailbox_open: bool,
    event: WaitEvent,
)
    ensures
        ({
            let after = next_stage(StageView::Await { agents, waiters, mailbox_open }, event);
            &&& after is Await || after is Poll || after is PollReport
            &&& after is PollReport <==> event is DeadlinePassed
            &&& event is MailboxChanged ==> after == (StageView::Poll {
                agents,
                waiters,
                mailbox_open,
            })
        }),
        ({
            let after = next_stage(StageView::Poll { agents, waiters, mailbox_open }, event);
            &&& after is Poll || after is Await || after is PollReport
            &&& after is PollReport ==> event is Statuses && all_have_status(
                final_statuses(agents, event->Statuses_0@),
                agents,
            )
        }),
{
}

/// A status that is reported is a final one, and it is one that the child was polled with.
pub proof fn lemma_final_statuses_are_final(
    agents: Seq<CollabAgentRef>,
    polled: Seq<AgentStatus>,
    id: ThreadId,
)
    requires
        agents.len() == polled.len(),
        final_statuses(agents, polled).contains_key(id),
    ensures
        final_status(final_statuses(agents, polled)[id]),
        exists|i: int| 0 <= i < agents.len() && #[trigger] agents[i].thread_id == id && polled[i]
            == final_statuses(agents, polled)[id],
    decreases agents.len(),
{
    let before = final_statuses(agents.drop_last(), polled.drop_last());
    let n = agents.len() - 1;
    if final_status(polled.last()) && agents.last().thread_id == id {
        assert(agents[n].thread_id == id);
    } else {
        assert(before.contains_key(id));
        lemma_final_statuses_are_final(agents.drop_last(), polled.drop_last(), id);
        let i = choose|i: int|
            0 <= i < n && #[trigger] agents.drop_last()[i].thread_id == id
                && polled.drop_last()[i] == before[id];
        assert(agents[i].thread_id == id);
    }
}

/// A result says that the wait timed out exactly where the deadline passed and a child is
/// not at rest; it then delivers whatever statuses there are.
pub proof fn lemma_timed_out(
    agents: Seq<CollabAgentRef>,
    outcome: WaitOutcome,
    statuses: Map<ThreadId, AgentStatus>,
    was_unchanged: bool,
)
    ensures
        ({
            let after = next_stage(
                StageView::Record { agents, outcome, statuses },
                WaitEvent::Recorded(was_unchanged),
            );
            &&& after is Done
            &&& after->Done_result.timed_out <==> outcome is TimedOut && exists|i: int|
                0 <= i < agents.len() && !statuses.contains_key(#[trigger] agents[i].thread_id)
            &&& after->Done_result.timed_out ==> after->Done_result.agent_statuses == Some(
                status_entries(statuses, agents),
            )
        }),
{
    let after = next_stage(
        StageView::Record { agents, outcome, statuses },
        WaitEvent::Recorded(was_unchanged),
    );
    assert(all_have_status(statuses, agents) <==> !(exists|i: int|
        0 <= i < agents.len() && !statuses.contains_key(#[trigger] agents[i].thread_id)));
}

/// A redundant repeat delivers no report again, to the model or to the event stream; a wait
/// whose statuses changed since the previous one delivers them all.
pub proof fn lemma_repeat_is_compact(
    agents: Seq<CollabAgentRef>,
    outcome: WaitOutcome,
    statuses: Map<ThreadId, AgentStatus>,
)
    ensures
        ({
            let repeat = next_stage(
                StageView::Record { agents, outcome, statuses },
                WaitEvent::Recorded(true),
            );
            redundant_repeat(outcome, statuses, agents, true) ==> {
                &&& repeat->Done_result.agent_statuses is None
                &&& repeat->Done_result.statuses is None
                &&& repeat->Done_entries.len() == 0
                &&& repeat->Done_statuses == Map::<ThreadId, AgentStatus>::empty()
                &&& repeat->Done_result.empty_completions.len() > 0
            }
        }),
        ({
            let fresh = next_stage(
                StageView::Record { agents, outcome, statuses },
                WaitEvent::Recorded(false),
            );
            &&& fresh->Done_result.agent_statuses == Some(status_entries(statuses, agents))
            &&& fresh->Done_statuses == statuses
        }),
{
    lemma_no_entries(agents);
}

proof fn lemma_no_entries(agents: Seq<CollabAgentRef>)
    ensures
        status_entries(Map::empty(), agents).len() == 0,
    decreases agents.len(),
{
    if agents.len() > 0 {
        lemma_no_entries(agents.drop_last());
    }
}

} // verus!
