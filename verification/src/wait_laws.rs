//! What waiting for children promises its callers, in terms of what goes into an operation
//! and what comes out of it.

use crate::agent_status::{agent_status_from_event, is_final, is_terminal_with_delivery};
use crate::protocol::{
    AgentEvent, AgentStatus, FunctionCallError, TurnAbortReason, WireApi,
};
use crate::text::texts;
use crate::text_order::lemma_text_le_prefix;
use crate::thread_id::{thread_text, ThreadId};
use crate::wait::{
    effective_wait_agent_v2_timeout_options, floor_gemini_wait_timeout_ms, Handler,
    MultiAgentV2Config, WaitAgentTimeoutOptions, WaitAgentV2OutputMode, WaitArgs, WaitPlan,
};
use crate::wait_report::{
    all_terminal, build_wait_agent_statuses, empty_completion_labels, status_entries,
    ChildWaitReport, CollabAgentRef, CollabAgentStatusEntry, WaitAgentResult, WaitEnd, WaitOutcome,
    WaitingEnd,
};
use crate::wait_run::{
    final_statuses, final_statuses_for_children, wait_for_final_status, without_first,
    ChildStatusSubscriptions, SubscribeReply, WaitEvent, WaitStage, WaiterEvent, WaiterStep,
};
use std::collections::HashMap;
use vstd::math::{max, min};
use vstd::prelude::*;

verus! {

broadcast use vstd::std_specs::hash::group_hash_axioms;

// ---------------------------------------------------------------------------
// The status of an agent
// ---------------------------------------------------------------------------

/// An agent is at rest unless it is still to start, runs or was interrupted; and it has
/// delivered where it failed, was shut down or finished with a report.
pub proof fn lemma_rest_and_delivery(status: AgentStatus, at_rest: bool, delivered: bool)
    requires
        call_ensures(is_final, (&status,), at_rest),
        call_ensures(is_terminal_with_delivery, (&status,), delivered),
    ensures
        status is PendingInit || status is Running || status is Interrupted ==> !at_rest,
        status is Completed || status is Errored || status is Shutdown || status is NotFound
            ==> at_rest,
        status is Errored || status is Shutdown ==> delivered,
        status matches AgentStatus::Completed(report) ==> (delivered <==> report is Some),
        status is NotFound || !at_rest ==> !delivered,
{
}

/// An agent runs from the start of a turn to its end; what ends the turn decides how it
/// rests, and its own words are kept. No other event bears on it.
pub proof fn lemma_status_follows_the_turn(event: AgentEvent, result: Option<AgentStatus>)
    requires
        call_ensures(agent_status_from_event, (&event,), result),
    ensures
        result is None <==> event is Other,
        result == Some(AgentStatus::Running) <==> event is TurnStarted,
        event matches AgentEvent::TurnComplete { last_agent_message } ==> result == Some(
            AgentStatus::Completed(last_agent_message),
        ),
        event matches AgentEvent::Error { message } ==> result == Some(
            AgentStatus::Errored(message),
        ),
        event matches AgentEvent::TurnAborted { reason } ==> match reason {
            TurnAbortReason::Interrupted | TurnAbortReason::BudgetLimited => result == Some(
                AgentStatus::Interrupted,
            ),
            TurnAbortReason::Other(name) => result == Some(AgentStatus::Errored(name)),
        },
        event is ShutdownComplete ==> result == Some(AgentStatus::Shutdown),
{
}

// ---------------------------------------------------------------------------
// How long a call waits
// ---------------------------------------------------------------------------

/// On the Gemini wire protocol a call waits two minutes where it does not say, brought between
/// the configured bounds; elsewhere it waits as configured. The bounds are the configured ones.
pub proof fn lemma_default_wait(
    config: MultiAgentV2Config,
    wire_api: WireApi,
    result: WaitAgentTimeoutOptions,
)
    requires
        call_ensures(effective_wait_agent_v2_timeout_options, (&config, wire_api), result),
        wire_api == WireApi::GeminiNative ==> config.min_wait_timeout_ms
            <= config.max_wait_timeout_ms,
    ensures
        result.min_timeout_ms == config.min_wait_timeout_ms,
        result.max_timeout_ms == config.max_wait_timeout_ms,
        wire_api == WireApi::GeminiNative ==> result.default_timeout_ms == min(
            config.max_wait_timeout_ms as int,
            max(config.min_wait_timeout_ms as int, 120_000),
        ),
        wire_api != WireApi::GeminiNative ==> result.default_timeout_ms
            == config.default_wait_timeout_ms,
{
}

/// A call is refused exactly where it asks for a wait outside the configured bounds. A call
/// that reports statuses waits for two minutes at least, within the maximum; any other waits
/// exactly as long as it asks. The deadline comes when the wait is over.
pub proof fn lemma_call_waits_as_granted(
    handler: Handler,
    args: WaitArgs,
    config: MultiAgentV2Config,
    wire_api: WireApi,
    options: WaitAgentTimeoutOptions,
    result: Result<WaitPlan, FunctionCallError>,
)
    requires
        call_ensures(Handler::plan, (&handler, &args, &config, wire_api), result),
        call_ensures(effective_wait_agent_v2_timeout_options, (&config, wire_api), options),
        wire_api == WireApi::GeminiNative ==> config.min_wait_timeout_ms
            <= config.max_wait_timeout_ms,
    ensures
        ({
            let asked = if args.timeout_ms is Some {
                args.timeout_ms->Some_0
            } else {
                options.default_timeout_ms
            };
            let statuses = handler.output_mode == WaitAgentV2OutputMode::GeminiStatuses && wire_api
                == WireApi::GeminiNative;
            &&& result is Err <==> args.timeout_ms is Some && !(config.min_wait_timeout_ms
                <= args.timeout_ms->Some_0 <= config.max_wait_timeout_ms)
            &&& result matches Ok(plan) ==> {
                &&& plan.use_status_output == statuses
                &&& statuses ==> plan.effective_timeout_ms == min(
                    config.max_wait_timeout_ms as int,
                    max(120_000, asked as int),
                )
                &&& !statuses ==> plan.effective_timeout_ms == asked
                &&& plan.effective_timeout_ms >= 0 ==> plan.deadline_after_ms
                    == plan.effective_timeout_ms
                &&& plan.effective_timeout_ms < 0 ==> plan.deadline_after_ms
                    == plan.effective_timeout_ms + 0x1_0000_0000_0000_0000
            }
        }),
{
}

/// The refusal of a wait names the bound that it breaks.
pub proof fn lemma_refused_wait_names_the_bound(
    handler: Handler,
    ms: i64,
    config: MultiAgentV2Config,
    wire_api: WireApi,
    result: Result<WaitPlan, FunctionCallError>,
    bound: String,
)
    requires
        call_ensures(
            Handler::plan,
            (&handler, &WaitArgs { timeout_ms: Some(ms) }, &config, wire_api),
            result,
        ),
        wire_api == WireApi::GeminiNative ==> config.min_wait_timeout_ms
            <= config.max_wait_timeout_ms,
        result is Err,
        call_ensures(
            crate::text::signed_decimal_text,
            (if ms < config.min_wait_timeout_ms {
                config.min_wait_timeout_ms
            } else {
                config.max_wait_timeout_ms
            },),
            bound,
        ),
    ensures
        result->Err_0 matches FunctionCallError::RespondToModel(message) && message@ == if ms
            < config.min_wait_timeout_ms {
            "timeout_ms must be at least "@ + bound@
        } else {
            "timeout_ms must be at most "@ + bound@
        },
{
}

// ---------------------------------------------------------------------------
// The statuses that are delivered
// ---------------------------------------------------------------------------

/// Every child that has a status is listed with it, whatever it is, and under its own name;
/// and nothing else is listed.
pub proof fn lemma_every_status_is_listed(
    statuses: HashMap<ThreadId, AgentStatus>,
    agents: Vec<CollabAgentRef>,
    result: Vec<CollabAgentStatusEntry>,
)
    requires
        call_ensures(build_wait_agent_statuses, (&statuses, &agents), result),
    ensures
        forall|i: int|
            0 <= i < agents@.len() && statuses@.contains_key(#[trigger] agents@[i].thread_id)
                ==> exists|j: int|
                0 <= j < result@.len() && lists(#[trigger] result@[j], agents@[i], statuses@),
        forall|j: int|
            #![trigger result@[j]]
            0 <= j < result@.len() ==> exists|i: int|
                0 <= i < agents@.len() && lists(result@[j], #[trigger] agents@[i], statuses@),
        result@.len() == agents@.filter(
            |agent: CollabAgentRef| statuses@.contains_key(agent.thread_id),
        ).len(),
{
    assert forall|i: int|
        0 <= i < agents@.len() && statuses@.contains_key(#[trigger] agents@[i].thread_id)
            implies exists|j: int|
            0 <= j < result@.len() && lists(#[trigger] result@[j], agents@[i], statuses@) by {
        let j = lemma_entry_of(statuses@, agents@, i);
        assert(lists(result@[j], agents@[i], statuses@));
    }
    assert forall|j: int|
        #![trigger result@[j]]
        0 <= j < result@.len() implies exists|i: int|
            0 <= i < agents@.len() && lists(result@[j], #[trigger] agents@[i], statuses@) by {
        let i = lemma_child_of(statuses@, agents@, j);
        assert(lists(result@[j], agents@[i], statuses@));
    }
    lemma_entries_count(
        statuses@,
        agents@,
        |agent: CollabAgentRef| statuses@.contains_key(agent.thread_id),
    );
}

/// Whether an entry lists a child with its status.
pub open spec fn lists(
    entry: CollabAgentStatusEntry,
    agent: CollabAgentRef,
    statuses: Map<ThreadId, AgentStatus>,
) -> bool {
    &&& entry.thread_id == agent.thread_id
    &&& entry.agent_nickname == agent.agent_nickname
    &&& entry.agent_role == agent.agent_role
    &&& statuses.contains_key(agent.thread_id)
    &&& entry.status == statuses[agent.thread_id]
}

/// Where a child with a status is listed.
proof fn lemma_entry_of(
    statuses: Map<ThreadId, AgentStatus>,
    agents: Seq<CollabAgentRef>,
    i: int,
) -> (j: int)
    requires
        0 <= i < agents.len(),
        statuses.contains_key(agents[i].thread_id),
    ensures
        0 <= j < status_entries(statuses, agents).len(),
        lists(status_entries(statuses, agents)[j], agents[i], statuses),
    decreases agents.len(),
{
    if i == agents.len() - 1 {
        status_entries(statuses, agents).len() - 1
    } else {
        lemma_entry_of(statuses, agents.drop_last(), i)
    }
}

/// Which child an entry lists.
proof fn lemma_child_of(
    statuses: Map<ThreadId, AgentStatus>,
    agents: Seq<CollabAgentRef>,
    j: int,
) -> (i: int)
    requires
        0 <= j < status_entries(statuses, agents).len(),
    ensures
        0 <= i < agents.len(),
        lists(status_entries(statuses, agents)[j], agents[i], statuses),
    decreases agents.len(),
{
    if j < status_entries(statuses, agents.drop_last()).len() {
        lemma_child_of(statuses, agents.drop_last(), j)
    } else {
        agents.len() - 1
    }
}

proof fn lemma_entries_count(
    statuses: Map<ThreadId, AgentStatus>,
    agents: Seq<CollabAgentRef>,
    has_status: spec_fn(CollabAgentRef) -> bool,
)
    requires
        forall|agent: CollabAgentRef|
            #[trigger] has_status(agent) == statuses.contains_key(agent.thread_id),
    ensures
        status_entries(statuses, agents).len() == agents.filter(has_status).len(),
    decreases agents.len(),
{
    reveal(Seq::filter);
    if agents.len() > 0 {
        lemma_entries_count(statuses, agents.drop_last(), has_status);
        assert(has_status(agents.last()) == statuses.contains_key(agents.last().thread_id));
    }
}

/// The list keeps the order of the children: one child more adds its entry at the end, where
/// it has a status, and nothing otherwise.
pub proof fn lemma_list_keeps_the_order(
    statuses: HashMap<ThreadId, AgentStatus>,
    agents: Vec<CollabAgentRef>,
    more: Vec<CollabAgentRef>,
    agent: CollabAgentRef,
    shorter: Vec<CollabAgentStatusEntry>,
    longer: Vec<CollabAgentStatusEntry>,
)
    requires
        call_ensures(build_wait_agent_statuses, (&statuses, &agents), shorter),
        call_ensures(build_wait_agent_statuses, (&statuses, &more), longer),
        more@ == agents@.push(agent),
    ensures
        agents@.len() == 0 ==> shorter@.len() == 0,
        !statuses@.contains_key(agent.thread_id) ==> longer@ == shorter@,
        statuses@.contains_key(agent.thread_id) ==> longer@ == shorter@.push(
            CollabAgentStatusEntry {
                thread_id: agent.thread_id,
                agent_nickname: agent.agent_nickname,
                agent_role: agent.agent_role,
                status: statuses@[agent.thread_id],
            },
        ),
{
    assert(more@.drop_last() =~= agents@);
}

/// All children are at rest exactly where each of them has a status.
pub proof fn lemma_all_at_rest(
    statuses: HashMap<ThreadId, AgentStatus>,
    agents: Vec<CollabAgentRef>,
    result: bool,
)
    requires
        call_ensures(all_terminal, (&statuses, &agents), result),
    ensures
        result <==> forall|i: int|
            0 <= i < agents@.len() ==> statuses@.contains_key(#[trigger] agents@[i].thread_id),
{
}

/// The last poll of a child that finds it at rest gives its status; a child that was never
/// found at rest has none.
pub proof fn lemma_polled_statuses_of_children_at_rest(
    agents: Vec<CollabAgentRef>,
    polled: Vec<AgentStatus>,
    result: HashMap<ThreadId, AgentStatus>,
)
    requires
        call_ensures(final_statuses_for_children, (&agents, &polled), result),
        agents@.len() == polled@.len(),
    ensures
        forall|i: int|
            #![trigger agents@[i]]
            0 <= i < agents@.len() && !(polled@[i] is PendingInit || polled@[i] is Running
                || polled@[i] is Interrupted) && (forall|k: int|
                i < k < agents@.len() && (#[trigger] agents@[k]).thread_id == agents@[i].thread_id
                    ==> polled@[k] is PendingInit || polled@[k] is Running
                    || polled@[k] is Interrupted) ==> result@.contains_key(agents@[i].thread_id)
                && result@[agents@[i].thread_id] == polled@[i],
        forall|id: ThreadId| #[trigger]
            result@.contains_key(id) ==> exists|i: int|
                0 <= i < agents@.len() && (#[trigger] agents@[i]).thread_id == id && result@[id]
                    == polled@[i] && !(polled@[i] is PendingInit || polled@[i] is Running
                    || polled@[i] is Interrupted),
{
    lemma_at_rest(agents@, polled@);
    assert forall|id: ThreadId| #[trigger] result@.contains_key(id) implies exists|i: int|
        0 <= i < agents@.len() && (#[trigger] agents@[i]).thread_id == id && result@[id]
            == polled@[i] && !(polled@[i] is PendingInit || polled@[i] is Running
            || polled@[i] is Interrupted) by {
        crate::wait_run::lemma_final_statuses_are_final(agents@, polled@, id);
    }
}

proof fn lemma_at_rest(agents: Seq<CollabAgentRef>, polled: Seq<AgentStatus>)
    requires
        agents.len() == polled.len(),
    ensures
        forall|i: int|
            #![trigger agents[i]]
            0 <= i < agents.len() && !(polled[i] is PendingInit || polled[i] is Running
                || polled[i] is Interrupted) && (forall|k: int|
                i < k < agents.len() && (#[trigger] agents[k]).thread_id == agents[i].thread_id
                    ==> polled[k] is PendingInit || polled[k] is Running
                    || polled[k] is Interrupted) ==> final_statuses(agents, polled).contains_key(agents[i].thread_id)
                && final_statuses(agents, polled)[agents[i].thread_id] == polled[i],
    decreases agents.len(),
{
    if agents.len() > 0 {
        let front = agents.drop_last();
        let rest = polled.drop_last();
        let n = agents.len() - 1;
        lemma_at_rest(front, rest);
        assert forall|i: int|
            #![trigger agents[i]]
            0 <= i < agents.len() && !(polled[i] is PendingInit || polled[i] is Running
                || polled[i] is Interrupted) && (forall|k: int|
                i < k < agents.len() && (#[trigger] agents[k]).thread_id == agents[i].thread_id
                    ==> polled[k] is PendingInit || polled[k] is Running
                    || polled[k] is Interrupted) implies final_statuses(agents, polled).contains_key(agents[i].thread_id)
            && final_statuses(agents, polled)[agents[i].thread_id] == polled[i] by {
            if i < n {
                assert(agents[n].thread_id == agents[i].thread_id ==> polled[n] is PendingInit
                    || polled[n] is Running || polled[n] is Interrupted);
                assert(front[i] == agents[i] && rest[i] == polled[i]);
                assert forall|k: int|
                    i < k < front.len() && (#[trigger] front[k]).thread_id == front[i].thread_id
                        implies rest[k] is PendingInit || rest[k] is Running
                    || rest[k] is Interrupted by {
                    assert(front[k] == agents[k]);
                }
            }
        }
    }
}

// ---------------------------------------------------------------------------
// Children without a report
// ---------------------------------------------------------------------------

/// The children that finished without a report are named, each by its nickname or else by its
/// thread id: a child more adds its name exactly where it finished so.
pub proof fn lemma_silent_children_are_named(
    statuses: HashMap<ThreadId, AgentStatus>,
    agents: Vec<CollabAgentRef>,
    more: Vec<CollabAgentRef>,
    agent: CollabAgentRef,
    shorter: Vec<String>,
    longer: Vec<String>,
)
    requires
        call_ensures(empty_completion_labels, (&statuses, &agents), shorter),
        call_ensures(empty_completion_labels, (&statuses, &more), longer),
        more@ == agents@.push(agent),
    ensures
        agents@.len() == 0 ==> shorter@.len() == 0,
        ({
            let silent = statuses@.contains_key(agent.thread_id) && statuses@[agent.thread_id]
                == AgentStatus::Completed(None);
            let name = if agent.agent_nickname is Some {
                agent.agent_nickname->Some_0@
            } else {
                thread_text(agent.thread_id)
            };
            &&& !silent ==> texts(longer@).to_multiset() == texts(shorter@).to_multiset()
            &&& silent ==> texts(longer@).to_multiset() == texts(shorter@).to_multiset().insert(
                name,
            )
            &&& longer@.len() == shorter@.len() + if silent {
                1int
            } else {
                0
            }
        }),
{
    let order = crate::text_order::text_order();
    let before = crate::wait_report::labels_without_report(statuses@, agents@);
    let after = crate::wait_report::labels_without_report(statuses@, more@);
    assert(more@.drop_last() =~= agents@);
    crate::text_order::lemma_text_order_total();
    before.lemma_sort_by_ensures(order);
    after.lemma_sort_by_ensures(order);
    if after != before {
        vstd::seq_lib::to_multiset_build(before, after.last());
        assert(after.drop_last() =~= before);
    }
    vstd::seq_lib::to_multiset_len(before);
    vstd::seq_lib::to_multiset_len(after);
    vstd::seq_lib::to_multiset_len(texts(shorter@));
    vstd::seq_lib::to_multiset_len(texts(longer@));
    assert(texts(shorter@).len() == shorter@.len());
    assert(texts(longer@).len() == longer@.len());
}

/// The names stand in order: of two names the first is a beginning of the second, or has
/// the smaller character where they first differ.
pub proof fn lemma_names_stand_in_order(
    statuses: HashMap<ThreadId, AgentStatus>,
    agents: Vec<CollabAgentRef>,
    result: Vec<String>,
    i: int,
    j: int,
)
    requires
        call_ensures(empty_completion_labels, (&statuses, &agents), result),
        0 <= i < j < result@.len(),
    ensures
        exists|n: int|
            0 <= n <= result@[i]@.len() && n <= result@[j]@.len() && #[trigger] result@[i]@.take(n)
                == result@[j]@.take(n) && (n == result@[i]@.len() || (n < result@[j]@.len()
                && result@[i]@[n] < result@[j]@[n])),
{
    let order = crate::text_order::text_order();
    let labels = crate::wait_report::labels_without_report(statuses@, agents@);
    crate::text_order::lemma_text_order_total();
    labels.lemma_sort_by_ensures(order);
    let sorted = labels.sort_by(order);
    assert(texts(result@)[i] == result@[i]@ && texts(result@)[j] == result@[j]@);
    assert(order(sorted[i], sorted[j]));
    lemma_text_le_prefix(result@[i]@, result@[j]@);
}

// ---------------------------------------------------------------------------
// Following the children
// ---------------------------------------------------------------------------

/// A subscription is taken in: a child that answers is followed, and known to be at rest where
/// its status says so; one that is gone is known as not found; a failure changes nothing.
pub proof fn lemma_subscription_is_taken_in(
    subs: &mut ChildStatusSubscriptions,
    thread_id: ThreadId,
    reply: SubscribeReply,
    result: bool,
)
    requires
        call_ensures(
            ChildStatusSubscriptions::subscribe,
            (subs, thread_id, reply),
            result,
        ),
    ensures
        result <==> !(reply is Failed),
        reply is Subscribed ==> final(subs).status_rxs@ == old(subs).status_rxs@.push(thread_id),
        !(reply is Subscribed) ==> final(subs).status_rxs@ == old(subs).status_rxs@,
        reply is Failed ==> final(subs).terminal_statuses@ == old(subs).terminal_statuses@,
        reply is ThreadNotFound ==> final(subs).terminal_statuses@ == old(subs).terminal_statuses@.insert(thread_id, AgentStatus::NotFound),
        reply matches SubscribeReply::Subscribed(status) ==> final(subs).terminal_statuses@ == if status is PendingInit || status is Running
            || status is Interrupted {
            old(subs).terminal_statuses@
        } else {
            old(subs).terminal_statuses@.insert(thread_id, status)
        },
{
}

/// The children to wait on are those that are followed and not known to be at rest, in their
/// order.
pub proof fn lemma_waiters_are_followed_and_not_at_rest(
    subscriptions: ChildStatusSubscriptions,
    result: Vec<ThreadId>,
)
    requires
        call_ensures(ChildStatusSubscriptions::waiters, (&subscriptions,), result),
    ensures
        result@ == subscriptions.status_rxs@.filter(
            |id: ThreadId| !subscriptions.terminal_statuses@.contains_key(id),
        ),
{
    lemma_not_at_rest(
        subscriptions.status_rxs@,
        subscriptions.terminal_statuses@,
        |id: ThreadId| !subscriptions.terminal_statuses@.contains_key(id),
    );
}

proof fn lemma_not_at_rest(
    followed: Seq<ThreadId>,
    at_rest: Map<ThreadId, AgentStatus>,
    waited: spec_fn(ThreadId) -> bool,
)
    requires
        forall|id: ThreadId| #[trigger] waited(id) == !at_rest.contains_key(id),
    ensures
        crate::wait_run::not_at_rest(followed, at_rest) == followed.filter(waited),
    decreases followed.len(),
{
    reveal(Seq::filter);
    if followed.len() > 0 {
        lemma_not_at_rest(followed.drop_last(), at_rest, waited);
        assert(waited(followed.last()) == !at_rest.contains_key(followed.last()));
    } else {
        assert(followed =~= Seq::empty());
    }
}

/// A child is followed until it is at rest; where it sends no more, what it was polled with
/// counts only where it is at rest.
pub proof fn lemma_child_is_followed_to_its_rest(event: WaiterEvent, result: WaiterStep)
    requires
        call_ensures(wait_for_final_status, (event,), result),
    ensures
        event matches WaiterEvent::Status(status) ==> if status is PendingInit || status is Running
            || status is Interrupted {
            result is KeepWaiting
        } else {
            result == WaiterStep::Resolved(Some(status))
        },
        event matches WaiterEvent::SenderDropped(status) ==> if status is PendingInit
            || status is Running || status is Interrupted {
            result == WaiterStep::Resolved(None)
        } else {
            result == WaiterStep::Resolved(Some(status))
        },
{
}

// ---------------------------------------------------------------------------
// The call as a whole
// ---------------------------------------------------------------------------

/// A call that reports statuses lists the children first; any other sleeps until mail comes,
/// and says whether any did.
pub proof fn lemma_wait_for_mail(
    plan: WaitPlan,
    opened: WaitStage,
    stage: WaitStage,
    event: WaitEvent,
    result: WaitStage,
)
    requires
        call_ensures(WaitStage::start, (&plan,), opened),
        call_ensures(WaitStage::next, (stage, event), result),
    ensures
        opened matches WaitStage::Open { use_status_output } && use_status_output
            == plan.use_status_output,
        event is Opened ==> (stage matches WaitStage::Open { use_status_output }
            ==> if use_status_output {
            result is ListChildren
        } else {
            result is AwaitMailbox
        }),
        stage is AwaitMailbox && (event is MailboxChanged || event is MailboxClosed
            || event is DeadlinePassed) ==> (result matches WaitStage::Done { end } && {
            &&& end.result.timed_out <==> !(event is MailboxChanged)
            &&& end.result.message@ == if event is MailboxChanged {
                "Wait completed."@
            } else {
                "Wait timed out."@
            }
            &&& end.result.statuses is None
            &&& end.result.agent_statuses is None
            &&& end.result.empty_completions@.len() == 0
            &&& end.result.wait_again_allowed is None
            &&& end.event.agent_statuses@.len() == 0
            &&& end.event.statuses@ == Map::<ThreadId, AgentStatus>::empty()
        }),
{
    if let WaitStage::Done { end } = result {
        assert(texts(end.result.empty_completions@).len() == end.result.empty_completions@.len());
    }
}

/// Where there are no children the call is done at once, and may be made again; where they
/// cannot be listed it fails; else each of them is subscribed to, from the first on.
pub proof fn lemma_children_are_listed(stage: WaitStage, event: WaitEvent, result: WaitStage)
    requires
        call_ensures(WaitStage::next, (stage, event), result),
        stage is ListChildren,
    ensures
        event is ChildrenFailed ==> (result matches WaitStage::Failed { event: end } && end is None),
        event matches WaitEvent::Children(children) ==> if children@.len() > 0 {
            result matches WaitStage::Subscribe { agents, subscriptions, next } && {
                &&& agents@ == children@
                &&& next == 0
                &&& subscriptions.status_rxs@.len() == 0
                &&& subscriptions.terminal_statuses@ == Map::<ThreadId, AgentStatus>::empty()
            }
        } else {
            result matches WaitStage::Done { end } && {
                &&& end.result.message@ == "No live child agents to wait for."@
                &&& !end.result.timed_out
                &&& end.result.statuses is Some && end.result.statuses->Some_0@ == Map::<
                    ThreadId,
                    AgentStatus,
                >::empty()
                &&& end.result.agent_statuses is Some && end.result.agent_statuses->Some_0@.len()
                    == 0
                &&& end.result.empty_completions@.len() == 0
                &&& end.result.wait_again_allowed == Some(true)
                &&& end.event.agent_statuses@.len() == 0
                &&& end.event.statuses@ == Map::<ThreadId, AgentStatus>::empty()
            }
        },
{
    if let WaitStage::Done { end } = result {
        assert(texts(end.result.empty_completions@).len() == end.result.empty_completions@.len());
    }
}

/// The children are subscribed to one after the other. After the last the children are polled,
/// and those are waited on that are followed and not at rest. Where a subscription fails, the
/// child is polled for the announcement, and the call fails.
pub proof fn lemma_every_child_is_subscribed_to(
    agents: Vec<CollabAgentRef>,
    subscriptions: ChildStatusSubscriptions,
    next: usize,
    reply: SubscribeReply,
    result: WaitStage,
)
    requires
        call_ensures(
            WaitStage::next,
            (
                WaitStage::Subscribe { agents, subscriptions, next },
                WaitEvent::Subscription(reply),
            ),
            result,
        ),
        next < agents@.len(),
    ensures
        ({
            let id = agents@[next as int].thread_id;
            let followed = if reply is Subscribed {
                subscriptions.status_rxs@.push(id)
            } else {
                subscriptions.status_rxs@
            };
            let at_rest = match reply {
                SubscribeReply::Subscribed(status) => if status is PendingInit || status is Running
                    || status is Interrupted {
                    subscriptions.terminal_statuses@
                } else {
                    subscriptions.terminal_statuses@.insert(id, status)
                },
                SubscribeReply::ThreadNotFound => subscriptions.terminal_statuses@.insert(
                    id,
                    AgentStatus::NotFound,
                ),
                SubscribeReply::Failed => subscriptions.terminal_statuses@,
            };
            if reply is Failed {
                result matches WaitStage::PollFailed { agents: all, thread_id } && all@ == agents@
                    && thread_id == id
            } else if next + 1 < agents@.len() {
                result matches WaitStage::Subscribe {
                    agents: all,
                    subscriptions: more,
                    next: then,
                } && {
                    &&& all@ == agents@
                    &&& then == next + 1
                    &&& more.status_rxs@ == followed
                    &&& more.terminal_statuses@ == at_rest
                }
            } else {
                result matches WaitStage::Poll { agents: all, waiters, mailbox_open } && {
                    &&& all@ == agents@
                    &&& mailbox_open
                    &&& waiters@ == followed.filter(|id: ThreadId| !at_rest.contains_key(id))
                }
            }
        }),
{
    let id = agents@[next as int].thread_id;
    let followed = if reply is Subscribed {
        subscriptions.status_rxs@.push(id)
    } else {
        subscriptions.status_rxs@
    };
    let at_rest = match reply {
        SubscribeReply::Subscribed(status) => if status is PendingInit || status is Running
            || status is Interrupted {
            subscriptions.terminal_statuses@
        } else {
            subscriptions.terminal_statuses@.insert(id, status)
        },
        SubscribeReply::ThreadNotFound => subscriptions.terminal_statuses@.insert(
            id,
            AgentStatus::NotFound,
        ),
        SubscribeReply::Failed => subscriptions.terminal_statuses@,
    };
    lemma_not_at_rest(followed, at_rest, |id: ThreadId| !at_rest.contains_key(id));
}

/// A failed subscription is announced with the one status that was polled for it.
pub proof fn lemma_failure_is_announced(
    agents: Vec<CollabAgentRef>,
    thread_id: ThreadId,
    status: AgentStatus,
    statuses: HashMap<ThreadId, AgentStatus>,
    entries: Vec<CollabAgentStatusEntry>,
    result: WaitStage,
)
    requires
        call_ensures(
            WaitStage::next,
            (WaitStage::PollFailed { agents, thread_id }, WaitEvent::Status(status)),
            result,
        ),
        statuses@ == Map::<ThreadId, AgentStatus>::empty().insert(thread_id, status),
        call_ensures(build_wait_agent_statuses, (&statuses, &agents), entries),
    ensures
        result matches WaitStage::Failed { event: Some(end) } && {
            &&& end.statuses@ == statuses@
            &&& end.agent_statuses@ == entries@
        },
{
}

/// A poll of all children ends the wait exactly where each of them is at rest; else the wait
/// goes on as before.
pub proof fn lemma_poll_ends_the_wait_at_rest(
    agents: Vec<CollabAgentRef>,
    waiters: Vec<ThreadId>,
    mailbox_open: bool,
    polled: Vec<AgentStatus>,
    result: WaitStage,
)
    requires
        call_ensures(
            WaitStage::next,
            (
                WaitStage::Poll { agents, waiters, mailbox_open },
                WaitEvent::Statuses(polled),
            ),
            result,
        ),
        polled@.len() == agents@.len(),
    ensures
        if forall|i: int|
            0 <= i < agents@.len() ==> at_rest_among(
                agents@,
                polled@,
                (#[trigger] agents@[i]).thread_id,
            ) {
            result matches WaitStage::PollReport { agents: all, outcome } && all@ == agents@
                && outcome is AllTerminal
        } else {
            result matches WaitStage::Await { agents: all, waiters: on, mailbox_open: open } && all@
                == agents@ && on@ == waiters@ && open == mailbox_open
        },
{
    let found = final_statuses(agents@, polled@);
    assert forall|i: int| 0 <= i < agents@.len() implies (found.contains_key(
        #[trigger] agents@[i].thread_id,
    ) <==> at_rest_among(agents@, polled@, agents@[i].thread_id)) by {
        let id = agents@[i].thread_id;
        if found.contains_key(id) {
            crate::wait_run::lemma_final_statuses_are_final(agents@, polled@, id);
            let k = choose|k: int|
                0 <= k < agents@.len() && #[trigger] agents@[k].thread_id == id && polled@[k]
                    == found[id];
            assert(agents@[k].thread_id == id);
        }
        if at_rest_among(agents@, polled@, id) {
            let k = choose|k: int|
                0 <= k < agents@.len() && (#[trigger] agents@[k]).thread_id == id && !(
                polled@[k] is PendingInit || polled@[k] is Running || polled@[k] is Interrupted);
            lemma_found_at_rest(agents@, polled@, k);
        }
    }
}

/// Whether some poll of a child found it at rest.
pub open spec fn at_rest_among(
    agents: Seq<CollabAgentRef>,
    polled: Seq<AgentStatus>,
    id: ThreadId,
) -> bool {
    exists|k: int|
        0 <= k < agents.len() && (#[trigger] agents[k]).thread_id == id && !(
        polled[k] is PendingInit || polled[k] is Running || polled[k] is Interrupted)
}

proof fn lemma_found_at_rest(agents: Seq<CollabAgentRef>, polled: Seq<AgentStatus>, k: int)
    requires
        agents.len() == polled.len(),
        0 <= k < agents.len(),
        !(polled[k] is PendingInit || polled[k] is Running || polled[k] is Interrupted),
    ensures
        final_statuses(agents, polled).contains_key(agents[k].thread_id),
    decreases agents.len(),
{
    if k < agents.len() - 1 {
        lemma_found_at_rest(agents.drop_last(), polled.drop_last(), k);
    }
}

/// While a call sleeps, the end of a waiter, mail and the close of the mailbox each lead to
/// another poll of all children; only the deadline ends the wait.
pub proof fn lemma_sleep_ends_in_a_poll(
    agents: Vec<CollabAgentRef>,
    waiters: Vec<ThreadId>,
    mailbox_open: bool,
    event: WaitEvent,
    result: WaitStage,
)
    requires
        call_ensures(
            WaitStage::next,
            (WaitStage::Await { agents, waiters, mailbox_open }, event),
            result,
        ),
    ensures
        event is MailboxChanged ==> (result matches WaitStage::Poll {
            agents: all,
            waiters: on,
            mailbox_open: open,
        } && all@ == agents@ && on@ == waiters@ && open == mailbox_open),
        event is MailboxClosed ==> (result matches WaitStage::Poll {
            agents: all,
            waiters: on,
            mailbox_open: open,
        } && all@ == agents@ && on@ == waiters@ && !open),
        event is DeadlinePassed ==> (result matches WaitStage::PollReport { agents: all, outcome }
            && all@ == agents@ && outcome is TimedOut),
        event matches WaitEvent::WaiterEnded(id) ==> (result matches WaitStage::Poll {
            agents: all,
            waiters: on,
            mailbox_open: open,
        } && all@ == agents@ && open == mailbox_open && if waiters@.contains(id) {
            exists|k: int|
                0 <= k < waiters@.len() && #[trigger] waiters@[k] == id && on@ == waiters@.remove(k)
        } else {
            on@ == waiters@
        }),
{
    if let WaitEvent::WaiterEnded(id) = event {
        lemma_first_is_removed(waiters@, id);
    }
}

proof fn lemma_first_is_removed(ids: Seq<ThreadId>, id: ThreadId)
    ensures
        if ids.contains(id) {
            exists|k: int|
                0 <= k < ids.len() && #[trigger] ids[k] == id && without_first(ids, id) == ids.remove(
                    k,
                )
        } else {
            without_first(ids, id) == ids
        },
    decreases ids.len(),
{
    if ids.len() > 0 {
        let rest = ids.skip(1);
        assert(ids =~= seq![ids[0]] + rest);
        if ids[0] == id {
            assert(ids.remove(0) =~= rest);
        } else {
            lemma_first_is_removed(rest, id);
            if ids.contains(id) {
                let k = choose|k: int| 0 <= k < ids.len() && ids[k] == id;
                assert(rest[k - 1] == id);
                let m = choose|m: int|
                    0 <= m < rest.len() && #[trigger] rest[m] == id && without_first(rest, id)
                        == rest.remove(m);
                assert(ids[m + 1] == id);
                assert(ids.remove(m + 1) =~= seq![ids[0]] + rest.remove(m));
            } else {
                if rest.contains(id) {
                    let k = choose|k: int| 0 <= k < rest.len() && rest[k] == id;
                    assert(ids[k + 1] == id);
                }
            }
        }
    }
}

/// What is reported is what the children are polled with for the report, as far as they are
/// at rest by then.
pub proof fn lemma_report_is_polled_anew(
    agents: Vec<CollabAgentRef>,
    outcome: WaitOutcome,
    polled: Vec<AgentStatus>,
    statuses: HashMap<ThreadId, AgentStatus>,
    result: WaitStage,
)
    requires
        call_ensures(
            WaitStage::next,
            (WaitStage::PollReport { agents, outcome }, WaitEvent::Statuses(polled)),
            result,
        ),
        polled@.len() == agents@.len(),
        call_ensures(final_statuses_for_children, (&agents, &polled), statuses),
    ensures
        result matches WaitStage::Record { agents: all, outcome: how, statuses: found } && {
            &&& all@ == agents@
            &&& how == outcome
            &&& found@ == statuses@
        },
{
}

/// The result of a wait. It timed out exactly where the deadline passed with a child that is
/// not at rest. Unless it only repeats what the previous wait delivered, it delivers every
/// status to the model and to the event stream. Children at rest without a report are named
/// and counted, and where all children are at rest and one of them has no report, another wait
/// is not allowed.
pub proof fn lemma_wait_delivers_its_report(
    agents: Vec<CollabAgentRef>,
    outcome: WaitOutcome,
    statuses: HashMap<ThreadId, AgentStatus>,
    was_unchanged: bool,
    entries: Vec<CollabAgentStatusEntry>,
    labels: Vec<String>,
    labels_count: String,
    agents_count: String,
    names: String,
    separator: &str,
    result: WaitStage,
)
    requires
        call_ensures(
            WaitStage::next,
            (
                WaitStage::Record { agents, outcome, statuses },
                WaitEvent::Recorded(was_unchanged),
            ),
            result,
        ),
        call_ensures(build_wait_agent_statuses, (&statuses, &agents), entries),
        call_ensures(empty_completion_labels, (&statuses, &agents), labels),
        labels@.len() <= u64::MAX,
        agents@.len() <= u64::MAX,
        call_ensures(
            crate::text::decimal_text,
            (labels@.len() as u64,),
            labels_count,
        ),
        call_ensures(crate::text::decimal_text, (agents@.len() as u64,), agents_count),
        separator@ == ", "@,
        call_ensures(crate::text::join, (&labels, separator), names),
    ensures
        result matches WaitStage::Done { end } && {
            let at_rest = forall|i: int|
                0 <= i < agents@.len() ==> statuses@.contains_key(#[trigger] agents@[i].thread_id);
            let silent = exists|i: int|
                0 <= i < agents@.len() && statuses@.contains_key(#[trigger] agents@[i].thread_id)
                    && statuses@[agents@[i].thread_id] == AgentStatus::Completed(None);
            let timed_out = outcome is TimedOut && !at_rest;
            let repeats = !timed_out && silent && was_unchanged;
            &&& end.result.timed_out == timed_out
            &&& end.result.statuses is None
            &&& end.result.agent_statuses is Some <==> !repeats
            &&& !repeats ==> end.result.agent_statuses->Some_0@ == entries@
            &&& texts(end.result.empty_completions@) == texts(labels@)
            &&& labels@.len() > 0 <==> silent
            &&& end.result.wait_again_allowed == Some(!(at_rest && silent))
            &&& end.result.message@ == if timed_out {
                "Wait timed out."@
            } else if silent {
                "Wait completed. "@ + labels_count@ + " of "@ + agents_count@
                    + " agents are terminal with no report: "@ + names@
                    + ". They are not running — calling wait_agent again returns immediately and cannot produce a report for them. To get a report, send the agent a single concrete follow-up first, then wait again; otherwise proceed with the results you already have. Do not re-spawn these agents."@
            } else {
                "Wait completed."@
            }
            &&& repeats ==> end.event.statuses@ == Map::<ThreadId, AgentStatus>::empty()
                && end.event.agent_statuses@.len() == 0
            &&& !repeats ==> end.event.statuses@ == statuses@ && end.event.agent_statuses@
                == entries@
        },
{
    let order = crate::text_order::text_order();
    let unsorted = crate::wait_report::labels_without_report(statuses@, agents@);
    crate::text_order::lemma_text_order_total();
    unsorted.lemma_sort_by_ensures(order);
    vstd::seq_lib::to_multiset_len(unsorted);
    vstd::seq_lib::to_multiset_len(unsorted.sort_by(order));
    assert(texts(labels@).len() == labels@.len());
    lemma_silent_iff_labelled(statuses@, agents@);
    crate::wait_run::lemma_repeat_is_compact(agents@, outcome, statuses@);
}

proof fn lemma_silent_iff_labelled(
    statuses: Map<ThreadId, AgentStatus>,
    agents: Seq<CollabAgentRef>,
)
    ensures
        crate::wait_report::labels_without_report(statuses, agents).len() > 0 <==> exists|i: int|
            0 <= i < agents.len() && statuses.contains_key(#[trigger] agents[i].thread_id)
                && statuses[agents[i].thread_id] == AgentStatus::Completed(None),
    decreases agents.len(),
{
    if agents.len() > 0 {
        let front = agents.drop_last();
        let n = agents.len() - 1;
        lemma_silent_iff_labelled(statuses, front);
        if crate::wait_report::labels_without_report(statuses, front).len() > 0 {
            let i = choose|i: int|
                0 <= i < front.len() && statuses.contains_key(#[trigger] front[i].thread_id)
                    && statuses[front[i].thread_id] == AgentStatus::Completed(None);
            assert(agents[i].thread_id == front[i].thread_id);
        }
        assert(statuses.contains_key(agents[n].thread_id) == statuses.contains_key(
            agents.last().thread_id,
        ));
        if exists|i: int|
            0 <= i < agents.len() && statuses.contains_key(#[trigger] agents[i].thread_id)
                && statuses[agents[i].thread_id] == AgentStatus::Completed(None) {
            let i = choose|i: int|
                0 <= i < agents.len() && statuses.contains_key(#[trigger] agents[i].thread_id)
                    && statuses[agents[i].thread_id] == AgentStatus::Completed(None);
            if i < n {
                assert(front[i].thread_id == agents[i].thread_id);
            }
        }
    }
}

/// A call that is done or has failed stays so, and an event that a stage does not wait for
/// changes nothing.
pub proof fn lemma_end_of_a_call_is_final(stage: WaitStage, event: WaitEvent, result: WaitStage)
    requires
        call_ensures(WaitStage::next, (stage, event), result),
        stage is Done || stage is Failed,
    ensures
        result@ == stage@,
        result is Done <==> stage is Done,
{
}

/// A wait is raised to the floor, and the maximum holds even against the floor.
pub proof fn lemma_wait_is_raised_to_the_floor(
    timeout_ms: i64,
    floor_ms: i64,
    max_timeout_ms: i64,
    result: i64,
    options: WaitAgentTimeoutOptions,
    output_mode: WaitAgentV2OutputMode,
    handler: Handler,
)
    requires
        call_ensures(
            floor_gemini_wait_timeout_ms,
            (timeout_ms, floor_ms, max_timeout_ms),
            result,
        ),
        call_ensures(Handler::new_with_output_mode, (options, output_mode), handler),
    ensures
        result == min(max_timeout_ms as int, max(floor_ms as int, timeout_ms as int)),
        handler.options == options,
        handler.output_mode == output_mode,
{
}

/// The results that a wait can end with: for mail, with all statuses, without those that were
/// delivered before, and without children.
pub proof fn lemma_results_of_a_wait(
    timed_out: bool,
    message: String,
    statuses: HashMap<ThreadId, AgentStatus>,
    agents: Vec<CollabAgentRef>,
    labels: Vec<String>,
    again: Option<bool>,
    entries: Vec<CollabAgentStatusEntry>,
    for_mail: WaitAgentResult,
    full: WaitAgentResult,
    brief: WaitAgentResult,
    none: WaitAgentResult,
    event: WaitingEnd,
)
    requires
        call_ensures(WaitAgentResult::from_timed_out, (timed_out,), for_mail),
        call_ensures(
            WaitAgentResult::with_statuses,
            (message, timed_out, &statuses, &agents, labels, again),
            full,
        ),
        call_ensures(WaitAgentResult::compact, (message, labels, again), brief),
        call_ensures(WaitAgentResult::no_children, (), none),
        call_ensures(build_wait_agent_statuses, (&statuses, &agents), entries),
        call_ensures(WaitingEnd::new, (statuses, &agents), event),
    ensures
        for_mail.timed_out == timed_out,
        for_mail.message@ == if timed_out {
            "Wait timed out."@
        } else {
            "Wait completed."@
        },
        for_mail.statuses is None && for_mail.agent_statuses is None,
        for_mail.wait_again_allowed is None,
        full.message@ == message@ && full.timed_out == timed_out,
        full.statuses is None,
        full.agent_statuses is Some && full.agent_statuses->Some_0@ == entries@,
        texts(full.empty_completions@) == texts(labels@),
        full.wait_again_allowed == again,
        brief.message@ == message@ && !brief.timed_out,
        brief.statuses is None && brief.agent_statuses is None,
        texts(brief.empty_completions@) == texts(labels@),
        brief.wait_again_allowed == again,
        none.message@ == "No live child agents to wait for."@ && !none.timed_out,
        none.wait_again_allowed == Some(true),
        event.statuses@ == statuses@,
        event.agent_statuses@ == entries@,
{
}

/// A report that is drawn and delivered is that of the call.
pub proof fn lemma_drawn_report_is_delivered(
    agents: Vec<CollabAgentRef>,
    outcome: WaitOutcome,
    statuses: HashMap<ThreadId, AgentStatus>,
    was_unchanged: bool,
    report: ChildWaitReport,
    end: WaitEnd,
    result: WaitStage,
)
    requires
        call_ensures(ChildWaitReport::new, (outcome, agents, statuses), report),
        call_ensures(ChildWaitReport::deliver, (report, was_unchanged), end),
        call_ensures(
            WaitStage::next,
            (
                WaitStage::Record { agents, outcome, statuses },
                WaitEvent::Recorded(was_unchanged),
            ),
            result,
        ),
    ensures
        result matches WaitStage::Done { end: delivered } && {
            &&& delivered.result.message@ == end.result.message@
            &&& delivered.result.timed_out == end.result.timed_out
            &&& delivered.result.agent_statuses is Some <==> end.result.agent_statuses is Some
            &&& end.result.agent_statuses is Some ==> delivered.result.agent_statuses->Some_0@
                == end.result.agent_statuses->Some_0@
            &&& texts(delivered.result.empty_completions@) == texts(end.result.empty_completions@)
            &&& delivered.result.wait_again_allowed == end.result.wait_again_allowed
            &&& delivered.event.statuses@ == end.event.statuses@
            &&& delivered.event.agent_statuses@ == end.event.agent_statuses@
        },
        report.timed_out == end.result.timed_out,
        report.message@ == end.result.message@,
{
}

} // verus!
