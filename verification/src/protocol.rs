//! The vocabulary that the decisions are made over: sessions, agents, messages and the
//! errors that are handed back to a model.

use crate::text::{clone_opt, opt_text, same_text};
use vstd::prelude::*;

verus! {

/// The collaboration modes that a turn can run in.
#[derive(Clone, Copy, Debug, PartialEq, Eq, Structural)]
pub enum ModeKind {
    Plan,
    Default,
    PairProgramming,
    Execute,
}

/// The wire protocol that the model provider of a turn speaks.
#[derive(Clone, Copy, Debug, PartialEq, Eq, Structural)]
pub enum WireApi {
    Responses,
    GeminiNative,
    Other,
}

/// The generations of the multi-agent tools.
#[derive(Clone, Copy, Debug, PartialEq, Eq, Structural)]
pub enum MultiAgentVersion {
    V1,
    V2,
}

/// The place of an agent in the tree of agents, such as `/root` or `/root/worker`.
#[derive(Debug, PartialEq, Eq)]
pub struct AgentPath {
    pub path: String,
}

impl AgentPath {
    /// Whether this is the root of the tree.
    pub open spec fn spec_is_root(&self) -> bool {
        self.path@ == "/root"@
    }

    /// Whether this is the root of the tree.
    pub fn is_root(&self) -> (result: bool)
        ensures
            result == self.spec_is_root(),
    {
        same_text(self.path.as_str(), "/root")
    }
}

/// Why a sub-agent session exists.
#[derive(Debug, PartialEq, Eq)]
pub enum SubAgentSource {
    /// Spawned as a thread of its own, at the given place in the tree.
    ThreadSpawn { agent_path: Option<AgentPath> },
    /// Any other sub-agent.
    Other,
}

/// Where a session comes from.
#[derive(Debug, PartialEq, Eq)]
pub enum SessionSource {
    Cli,
    VSCode,
    Exec,
    Mcp,
    Custom(String),
    Unknown,
    Internal,
    SubAgent(SubAgentSource),
}

/// The life of an agent as its parent sees it.
#[derive(Debug, PartialEq, Eq)]
pub enum AgentStatus {
    PendingInit,
    Running,
    Interrupted,
    /// The agent finished a turn, with its last message where there was one.
    Completed(Option<String>),
    Errored(String),
    Shutdown,
    NotFound,
}

impl Clone for AgentStatus {
    fn clone(&self) -> (result: Self)
        ensures
            result == *self,
    {
        match self {
            AgentStatus::PendingInit => AgentStatus::PendingInit,
            AgentStatus::Running => AgentStatus::Running,
            AgentStatus::Interrupted => AgentStatus::Interrupted,
            AgentStatus::Completed(message) => AgentStatus::Completed(
                clone_opt(message),
            ),
            AgentStatus::Errored(message) => AgentStatus::Errored(message.clone()),
            AgentStatus::Shutdown => AgentStatus::Shutdown,
            AgentStatus::NotFound => AgentStatus::NotFound,
        }
    }
}

/// Why a turn was aborted.
#[derive(Debug, PartialEq, Eq)]
pub enum TurnAbortReason {
    Interrupted,
    BudgetLimited,
    /// Any other reason, by its name.
    Other(String),
}

/// The emitted events, as far as they bear on the status of an agent.
#[derive(Debug, PartialEq, Eq)]
pub enum AgentEvent {
    TurnStarted,
    TurnComplete { last_agent_message: Option<String> },
    TurnAborted { reason: TurnAbortReason },
    Error { message: String },
    ShutdownComplete,
    Other,
}

/// One part of a message.
#[derive(Debug, PartialEq, Eq)]
pub enum ContentItem {
    InputText { text: String },
    OutputText { text: String },
    Other,
}

/// The channel that a message of the assistant belongs to.
#[derive(Clone, Copy, Debug, PartialEq, Eq, Structural)]
pub enum MessagePhase {
    Commentary,
    FinalAnswer,
}

/// One item of a conversation.
#[derive(Debug, PartialEq, Eq)]
pub enum ResponseItem {
    Message {
        id: Option<String>,
        role: String,
        content: Vec<ContentItem>,
        phase: Option<MessagePhase>,
    },
    Other,
}

/// The mathematical content of a `ContentItem`.
pub enum ContentView {
    InputText { text: Seq<char> },
    OutputText { text: Seq<char> },
    Other,
}

impl View for ContentItem {
    type V = ContentView;

    open spec fn view(&self) -> ContentView {
        match self {
            ContentItem::InputText { text } => ContentView::InputText { text: text@ },
            ContentItem::OutputText { text } => ContentView::OutputText { text: text@ },
            ContentItem::Other => ContentView::Other,
        }
    }
}

/// The mathematical content of a `ResponseItem`.
pub enum ItemView {
    Message {
        id: Option<Seq<char>>,
        role: Seq<char>,
        content: Seq<ContentView>,
        phase: Option<MessagePhase>,
    },
    Other,
}

impl View for ResponseItem {
    type V = ItemView;

    open spec fn view(&self) -> ItemView {
        match self {
            ResponseItem::Message { id, role, content, phase } => ItemView::Message {
                id: opt_text(*id),
                role: role@,
                content: content@.map_values(|part: ContentItem| part@),
                phase: *phase,
            },
            ResponseItem::Other => ItemView::Other,
        }
    }
}

/// A message of the user with one text and nothing else.
pub open spec fn user_text_item(text: Seq<char>) -> ItemView {
    ItemView::Message {
        id: None,
        role: "user"@,
        content: seq![ContentView::InputText { text }],
        phase: None,
    }
}

/// A message of the user with one text and nothing else.
pub fn user_text(text: String) -> (result: ResponseItem)
    ensures
        result@ == user_text_item(text@),
{
    let mut content: Vec<ContentItem> = Vec::new();
    content.push(ContentItem::InputText { text });
    let item = ResponseItem::Message { id: None, role: "user".to_owned(), content, phase: None };
    proof {
        assert(item@->content =~= user_text_item(text@)->content);
    }
    item
}

/// What a tool call is answered where it is refused.
#[derive(Debug, PartialEq, Eq)]
pub enum FunctionCallError {
    /// The text is handed to the model, which may try again.
    RespondToModel(String),
}

impl FunctionCallError {
    /// The text that is handed to the model.
    pub open spec fn spec_message(&self) -> Seq<char> {
        match self {
            FunctionCallError::RespondToModel(message) => message@,
        }
    }
}

} // verus!
