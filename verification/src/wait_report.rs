//! What a call of `wait_agent` reports to the model and to the event stream.

use crate::protocol::AgentStatus;
use crate::text::{clone_opt, decimal, decimal_text, join, joined, texts};
use crate::text_order::{sort_texts, text_order};
use crate::thread_id::{thread_id_text, thread_text, ThreadId};
use std::collections::HashMap;
use vstd::prelude::*;

verus! {

broadcast use vstd::std_specs::hash::group_hash_axioms;

/// A child that a call waits for.
#[derive(Debug, PartialEq, Eq)]
pub struct CollabAgentRef {
    pub thread_id: ThreadId,
    pub agent_nickname: Option<String>,
    pub agent_role: Option<String>,
}

/// A child and its status.
#[derive(Debug, PartialEq, Eq)]
pub struct CollabAgentStatusEntry {
    pub thread_id: ThreadId,
    pub agent_nickname: Option<String>,
    pub agent_role: Option<String>,
    pub status: AgentStatus,
}

/// What the model is told.
#[derive(Debug, PartialEq, Eq)]
pub struct WaitAgentResult {
    pub message: String,
    pub timed_out: bool,
    pub statuses: Option<HashMap<ThreadId, AgentStatus>>,
    pub agent_statuses: Option<Vec<CollabAgentStatusEntry>>,
    /// The labels of the children that came to rest without a report.
    pub empty_completions: Vec<String>,
    /// Whether another call could bring anything new.
    pub wait_again_allowed: Option<bool>,
}

/// The mathematical content of a `WaitAgentResult`.
#[verifier::ext_equal]
pub struct WaitResultView {
    pub message: Seq<char>,
    pub timed_out: bool,
    pub statuses: Option<Map<ThreadId, AgentStatus>>,
    pub agent_statuses: Option<Seq<CollabAgentStatusEntry>>,
    pub empty_completions: Seq<Seq<char>>,
    pub wait_again_allowed: Option<bool>,
}

impl View for WaitAgentResult {
    type V = WaitResultView;

    open spec fn view(&self) -> WaitResultView {
        WaitResultView {
            message: self.message@,
            timed_out: self.timed_out,
            statuses: match self.statuses {
                Some(statuses) => Some(statuses@),
                None => None,
            },
            agent_statuses: match self.agent_statuses {
                Some(entries) => Some(entries@),
                None => None,
            },
            empty_completions: texts(self.empty_completions@),
            wait_again_allowed: self.wait_again_allowed,
        }
    }
}

/// A child with a status.
pub open spec fn status_entry(agent: CollabAgentRef, status: AgentStatus) -> CollabAgentStatusEntry {
    CollabAgentStatusEntry {
        thread_id: agent.thread_id,
        agent_nickname: agent.agent_nickname,
        agent_role: agent.agent_role,
        status,
    }
}

/// The children that have a status, in their order, each with it.
pub open spec fn status_entries(
    statuses: Map<ThreadId, AgentStatus>,
    agents: Seq<CollabAgentRef>,
) -> Seq<CollabAgentStatusEntry>
    decreases agents.len(),
{
    if agents.len() == 0 {
        Seq::empty()
    } else {
        let before = status_entries(statuses, agents.drop_last());
        let agent = agents.last();
        if statuses.contains_key(agent.thread_id) {
            before.push(status_entry(agent, statuses[agent.thread_id]))
        } else {
            before
        }
    }
}

/// Lists the children that have a status, in their order.
pub fn build_wait_agent_statuses(
    statuses: &HashMap<ThreadId, AgentStatus>,
    receiver_agents: &Vec<CollabAgentRef>,
) -> (result: Vec<CollabAgentStatusEntry>)
    ensures
        result@ == status_entries(statuses@, receiver_agents@),
{
    let mut entries: Vec<CollabAgentStatusEntry> = Vec::new();
    let mut i: usize = 0;
    proof {
        assert(receiver_agents@.take(0) =~= Seq::empty());
    }
    while i < receiver_agents.len()
        invariant
            i <= receiver_agents@.len(),
            entries@ == status_entries(statuses@, receiver_agents@.take(i as int)),
        decreases receiver_agents.len() - i,
    {
        let agent = &receiver_agents[i];
        proof {
            assert(receiver_agents@.take(i + 1).drop_last() =~= receiver_agents@.take(i as int));
        }
        match statuses.get(&agent.thread_id) {
            Some(status) => {
                entries.push(
                    CollabAgentStatusEntry {
                        thread_id: agent.thread_id,
                        agent_nickname: clone_opt(&agent.agent_nickname),
                        agent_role: clone_opt(&agent.agent_role),
                        status: status.clone(),
                    },
                );
            },
            None => {},
        }
        i = i + 1;
    }
    proof {
        assert(receiver_agents@.take(i as int) =~= receiver_agents@);
    }
    entries
}

/// Whether every child has a terminal status.
pub open spec fn all_have_status(
    statuses: Map<ThreadId, AgentStatus>,
    agents: Seq<CollabAgentRef>,
) -> bool {
    forall|i: int| 0 <= i < agents.len() ==> statuses.contains_key(#[trigger] agents[i].thread_id)
}

/// Whether every child has a terminal status.
pub fn all_terminal(
    statuses: &HashMap<ThreadId, AgentStatus>,
    receiver_agents: &Vec<CollabAgentRef>,
) -> (result: bool)
    ensures
        result == all_have_status(statuses@, receiver_agents@),
{
    let mut i: usize = 0;
    while i < receiver_agents.len()
        invariant
            i <= receiver_agents@.len(),
            forall|j: int|
                0 <= j < i ==> statuses@.contains_key(#[trigger] receiver_agents@[j].thread_id),
        decreases receiver_agents.len() - i,
    {
        if !statuses.contains_key(&receiver_agents[i].thread_id) {
            assert(!statuses@.contains_key(receiver_agents@[i as int].thread_id));
            return false;
        }
        i = i + 1;
    }
    true
}

/// What a child is called: its nickname where it has one, else its thread id.
pub open spec fn agent_label(agent: CollabAgentRef) -> Seq<char> {
    match agent.agent_nickname {
        Some(nickname) => nickname@,
        None => thread_text(agent.thread_id),
    }
}

/// Whether a child finished a turn without a report.
pub open spec fn without_report(
    statuses: Map<ThreadId, AgentStatus>,
    agent: CollabAgentRef,
) -> bool {
    statuses.contains_key(agent.thread_id) && statuses[agent.thread_id] == AgentStatus::Completed(
        None,
    )
}

/// The labels of the children that finished a turn without a report, in their order.
pub open spec fn labels_without_report(
    statuses: Map<ThreadId, AgentStatus>,
    agents: Seq<CollabAgentRef>,
) -> Seq<Seq<char>>
    decreases agents.len(),
{
    if agents.len() == 0 {
        Seq::empty()
    } else {
        let before = labels_without_report(statuses, agents.drop_last());
        if without_report(statuses, agents.last()) {
            before.push(agent_label(agents.last()))
        } else {
            before
        }
    }
}

/// The labels of the children that finished a turn without a report, sorted.
pub open spec fn empty_completions(
    statuses: Map<ThreadId, AgentStatus>,
    agents: Seq<CollabAgentRef>,
) -> Seq<Seq<char>> {
    labels_without_report(statuses, agents).sort_by(text_order())
}

/// The labels of the children that finished a turn without a report, sorted.
pub fn empty_completion_labels(
    statuses: &HashMap<ThreadId, AgentStatus>,
    receiver_agents: &Vec<CollabAgentRef>,
) -> (result: Vec<String>)
    ensures
        texts(result@) == empty_completions(statuses@, receiver_agents@),
{
    let mut labels: Vec<String> = Vec::new();
    let mut i: usize = 0;
    proof {
        assert(receiver_agents@.take(0) =~= Seq::empty());
        assert(texts(labels@) =~= Seq::empty());
    }
    while i < receiver_agents.len()
        invariant
            i <= receiver_agents@.len(),
            texts(labels@) == labels_without_report(statuses@, receiver_agents@.take(i as int)),
        decreases receiver_agents.len() - i,
    {
        let agent = &receiver_agents[i];
        let ghost before = labels@;
        proof {
            assert(receiver_agents@.take(i + 1).drop_last() =~= receiver_agents@.take(i as int));
        }
        match statuses.get(&agent.thread_id) {
            Some(AgentStatus::Completed(None)) => {
                let label = match &agent.agent_nickname {
                    Some(nickname) => nickname.clone(),
                    None => thread_id_text(agent.thread_id),
                };
                labels.push(label);
                proof {
                    assert(texts(labels@) =~= texts(before).push(label@));
                }
            },
            _ => {},
        }
        i = i + 1;
    }
    proof {
        assert(receiver_agents@.take(i as int) =~= receiver_agents@);
    }
    sort_texts(labels)
}

/// The plain message of a wait.
pub open spec fn plain_message(timed_out: bool) -> Seq<char> {
    if timed_out {
        "Wait timed out."@
    } else {
        "Wait completed."@
    }
}

/// The message about children that came to rest without a report.
pub open spec fn empty_completion_message(labels: Seq<Seq<char>>, total: nat) -> Seq<char> {
    "Wait completed. "@ + decimal(labels.len()) + " of "@ + decimal(total)
        + " agents are terminal with no report: "@ + joined(labels, ", "@)
        + ". They are not running — calling wait_agent again returns immediately and cannot produce a report for them. To get a report, send the agent a single concrete follow-up first, then wait again; otherwise proceed with the results you already have. Do not re-spawn these agents."@
}

/// The message of a wait for children.
pub open spec fn wait_message(timed_out: bool, labels: Seq<Seq<char>>, total: nat) -> Seq<char> {
    if !timed_out && labels.len() > 0 {
        empty_completion_message(labels, total)
    } else {
        plain_message(timed_out)
    }
}

fn message_without_report(labels: &Vec<String>, total: usize) -> (result: String)
    ensures
        result@ == empty_completion_message(texts(labels@), total as nat),
{
    let mut message = "Wait completed. ".to_owned();
    message.append(decimal_text(labels.len() as u64).as_str());
    message.append(" of ");
    message.append(decimal_text(total as u64).as_str());
    message.append(" agents are terminal with no report: ");
    message.append(join(labels, ", ").as_str());
    message.append(
        ". They are not running — calling wait_agent again returns immediately and cannot produce a report for them. To get a report, send the agent a single concrete follow-up first, then wait again; otherwise proceed with the results you already have. Do not re-spawn these agents.",
    );
    message
}

/// The result of a wait for mail.
pub open spec fn mailbox_result(timed_out: bool) -> WaitResultView {
    WaitResultView {
        message: plain_message(timed_out),
        timed_out,
        statuses: None,
        agent_statuses: None,
        empty_completions: Seq::empty(),
        wait_again_allowed: None,
    }
}

impl WaitAgentResult {
    /// The plain message of a wait.
    pub fn message_for_timed_out(timed_out: bool) -> (result: &'static str)
        ensures
            result@ == plain_message(timed_out),
    {
        if timed_out {
            "Wait timed out."
        } else {
            "Wait completed."
        }
    }

    /// The result of a wait for mail.
    pub fn from_timed_out(timed_out: bool) -> (result: Self)
        ensures
            result@ == mailbox_result(timed_out),
    {
        let result = WaitAgentResult {
            message: Self::message_for_timed_out(timed_out).to_owned(),
            timed_out,
            statuses: None,
            agent_statuses: None,
            empty_completions: Vec::new(),
            wait_again_allowed: None,
        };
        proof {
            assert(texts(result.empty_completions@) =~= Seq::empty());
        }
        result
    }

    /// The result that delivers the statuses of the children, one entry for each child that
    /// has one. The reports reach the model by these entries alone.
    pub fn with_statuses(
        message: String,
        timed_out: bool,
        statuses: &HashMap<ThreadId, AgentStatus>,
        receiver_agents: &Vec<CollabAgentRef>,
        empty_completions: Vec<String>,
        wait_again_allowed: Option<bool>,
    ) -> (result: Self)
        ensures
            result@ == (WaitResultView {
                message: message@,
                timed_out,
                statuses: None,
                agent_statuses: Some(status_entries(statuses@, receiver_agents@)),
                empty_completions: texts(empty_completions@),
                wait_again_allowed,
            }),
    {
        WaitAgentResult {
            message,
            timed_out,
            statuses: None,
            agent_statuses: Some(build_wait_agent_statuses(statuses, receiver_agents)),
            empty_completions,
            wait_again_allowed,
        }
    }

    /// The result of a redundant repeat: what to do, and no reports that were delivered
    /// before.
    pub fn compact(
        message: String,
        empty_completions: Vec<String>,
        wait_again_allowed: Option<bool>,
    ) -> (result: Self)
        ensures
            result@ == (WaitResultView {
                message: message@,
                timed_out: false,
                statuses: None,
                agent_statuses: None,
                empty_completions: texts(empty_completions@),
                wait_again_allowed,
            }),
    {
        WaitAgentResult {
            message,
            timed_out: false,
            statuses: None,
            agent_statuses: None,
            empty_completions,
            wait_again_allowed,
        }
    }

    /// The result where there is no child to wait for.
    pub fn no_children() -> (result: Self)
        ensures
            result@ == no_children_result(),
    {
        let result = WaitAgentResult {
            message: "No live child agents to wait for.".to_owned(),
            timed_out: false,
            statuses: Some(HashMap::new()),
            agent_statuses: Some(Vec::new()),
            empty_completions: Vec::new(),
            wait_again_allowed: Some(true),
        };
        proof {
            assert(texts(result.empty_completions@) =~= Seq::empty());
        }
        result
    }
}

/// The result where there is no child to wait for.
pub open spec fn no_children_result() -> WaitResultView {
    WaitResultView {
        message: "No live child agents to wait for."@,
        timed_out: false,
        statuses: Some(Map::empty()),
        agent_statuses: Some(Seq::empty()),
        empty_completions: Seq::empty(),
        wait_again_allowed: Some(true),
    }
}

/// What a call ends with: the result for the model, and the statuses for the event stream.
#[derive(Debug, PartialEq, Eq)]
pub struct WaitEnd {
    pub result: WaitAgentResult,
    pub event: WaitingEnd,
}

/// The statuses that the event at the end of a wait carries.
#[derive(Debug, PartialEq, Eq)]
pub struct WaitingEnd {
    pub agent_statuses: Vec<CollabAgentStatusEntry>,
    pub statuses: HashMap<ThreadId, AgentStatus>,
}

impl WaitingEnd {
    /// Whether the event carries these statuses of these children.
    pub open spec fn carries(
        &self,
        statuses: Map<ThreadId, AgentStatus>,
        agents: Seq<CollabAgentRef>,
    ) -> bool {
        &&& self.statuses@ == statuses
        &&& self.agent_statuses@ == status_entries(statuses, agents)
    }

    /// The event that carries these statuses of these children.
    pub fn new(
        statuses: HashMap<ThreadId, AgentStatus>,
        receiver_agents: &Vec<CollabAgentRef>,
    ) -> (result: Self)
        ensures
            result.carries(statuses@, receiver_agents@),
    {
        let agent_statuses = build_wait_agent_statuses(&statuses, receiver_agents);
        WaitingEnd { agent_statuses, statuses }
    }
}

/// How a wait for children ended.
#[derive(Clone, Copy, Debug, PartialEq, Eq, Structural)]
pub enum WaitOutcome {
    AllTerminal,
    TimedOut,
}

/// What follows from the statuses that were polled after a wait, before it is known whether
/// the model has seen them already.
#[derive(Debug, PartialEq, Eq)]
pub struct ChildWaitReport {
    pub outcome: WaitOutcome,
    pub message: String,
    pub timed_out: bool,
    pub empty_completions: Vec<String>,
    pub wait_again_allowed: bool,
    pub receiver_agents: Vec<CollabAgentRef>,
    pub statuses: HashMap<ThreadId, AgentStatus>,
}

/// A wait timed out where the deadline came and a child is not at rest.
pub open spec fn wait_timed_out(
    outcome: WaitOutcome,
    statuses: Map<ThreadId, AgentStatus>,
    agents: Seq<CollabAgentRef>,
) -> bool {
    outcome is TimedOut && !all_have_status(statuses, agents)
}

/// Another wait could bring something new, unless every child is at rest and one of them
/// without a report.
pub open spec fn may_wait_again(
    statuses: Map<ThreadId, AgentStatus>,
    agents: Seq<CollabAgentRef>,
) -> bool {
    !(all_have_status(statuses, agents) && empty_completions(statuses, agents).len() > 0)
}

/// A repeat is redundant where it neither timed out nor could deliver anything that the
/// previous wait did not, and a child is at rest without a report.
pub open spec fn redundant_repeat(
    outcome: WaitOutcome,
    statuses: Map<ThreadId, AgentStatus>,
    agents: Seq<CollabAgentRef>,
    was_unchanged: bool,
) -> bool {
    &&& !wait_timed_out(outcome, statuses, agents)
    &&& empty_completions(statuses, agents).len() > 0
    &&& was_unchanged
}

/// The result of a wait for children.
pub open spec fn child_wait_result(
    outcome: WaitOutcome,
    statuses: Map<ThreadId, AgentStatus>,
    agents: Seq<CollabAgentRef>,
    was_unchanged: bool,
) -> WaitResultView {
    let timed_out = wait_timed_out(outcome, statuses, agents);
    let labels = empty_completions(statuses, agents);
    WaitResultView {
        message: wait_message(timed_out, labels, agents.len()),
        timed_out,
        statuses: None,
        agent_statuses: if redundant_repeat(outcome, statuses, agents, was_unchanged) {
            None
        } else {
            Some(status_entries(statuses, agents))
        },
        empty_completions: labels,
        wait_again_allowed: Some(may_wait_again(statuses, agents)),
    }
}

impl ChildWaitReport {
    /// Whether this is what follows from the outcome and the statuses of the children.
    pub open spec fn well_formed(&self) -> bool {
        let outcome = self.outcome;
        let statuses = self.statuses@;
        let agents = self.receiver_agents@;
        &&& self.timed_out == wait_timed_out(outcome, statuses, agents)
        &&& texts(self.empty_completions@) == empty_completions(statuses, agents)
        &&& self.wait_again_allowed == may_wait_again(statuses, agents)
        &&& self.message@ == wait_message(
            self.timed_out,
            texts(self.empty_completions@),
            agents.len(),
        )
    }

    /// Draws the report from the statuses that were polled after a wait.
    pub fn new(
        outcome: WaitOutcome,
        receiver_agents: Vec<CollabAgentRef>,
        statuses: HashMap<ThreadId, AgentStatus>,
    ) -> (result: Self)
        ensures
            result.well_formed(),
            result.outcome == outcome,
            result.receiver_agents == receiver_agents,
            result.statuses == statuses,
    {
        let all_at_rest = all_terminal(&statuses, &receiver_agents);
        let timed_out = outcome == WaitOutcome::TimedOut && !all_at_rest;
        let empty_completions = empty_completion_labels(&statuses, &receiver_agents);
        let has_empty_completion = empty_completions.len() > 0;
        let wait_again_allowed = !(all_at_rest && has_empty_completion);
        let message = if timed_out {
            WaitAgentResult::message_for_timed_out(true).to_owned()
        } else if has_empty_completion {
            message_without_report(&empty_completions, receiver_agents.len())
        } else {
            WaitAgentResult::message_for_timed_out(false).to_owned()
        };
        ChildWaitReport {
            outcome,
            message,
            timed_out,
            empty_completions,
            wait_again_allowed,
            receiver_agents,
            statuses,
        }
    }

    /// Delivers the report. `was_unchanged` says whether the previous wait of the same parent
    /// delivered the same statuses. A redundant repeat delivers no statuses again, neither to
    /// the model nor to the event stream.
    pub fn deliver(self, was_unchanged: bool) -> (result: WaitEnd)
        requires
            self.well_formed(),
        ensures
            result.result@ == child_wait_result(
                self.outcome,
                self.statuses@,
                self.receiver_agents@,
                was_unchanged,
            ),
            redundant_repeat(self.outcome, self.statuses@, self.receiver_agents@, was_unchanged)
                ==> result.event.carries(Map::empty(), self.receiver_agents@),
            !redundant_repeat(self.outcome, self.statuses@, self.receiver_agents@, was_unchanged)
                ==> result.event.carries(self.statuses@, self.receiver_agents@),
    {
        let redundant = !self.timed_out && self.empty_completions.len() > 0 && was_unchanged;
        proof {
            assert(texts(self.empty_completions@).len() == self.empty_completions@.len());
        }
        if redundant {
            let result = WaitAgentResult::compact(
                self.message,
                self.empty_completions,
                Some(self.wait_again_allowed),
            );
            let nothing: HashMap<ThreadId, AgentStatus> = HashMap::new();
            WaitEnd { result, event: WaitingEnd::new(nothing, &self.receiver_agents) }
        } else {
            let result = WaitAgentResult::with_statuses(
                self.message,
                self.timed_out,
                &self.statuses,
                &self.receiver_agents,
                self.empty_completions,
                Some(self.wait_again_allowed),
            );
            WaitEnd { result, event: WaitingEnd::new(self.statuses, &self.receiver_agents) }
        }
    }
}

} // verus!
