//! The fragments of context that are put before a model, and their written form.

use crate::json_text::{json_quoted, json_string};
use crate::protocol::{
    user_text, user_text_item, AgentStatus, ContentItem, ContentView, ItemView, MessagePhase,
    ModeKind, ResponseItem,
};
use crate::templates::plan_for_gemini;
use crate::text::{opt_text, same_text};
use vstd::prelude::*;

verus! {

/// The written form of a hidden fragment of context: the prompt on lines of its own, inside
/// a tag that names the source.
pub open spec fn internal_context(source: Seq<char>, prompt: Seq<char>) -> Seq<char> {
    "<codex_internal_context source=\""@ + source + "\">\n"@ + prompt
        + "\n</codex_internal_context>"@
}

/// A hidden fragment of context as a message of the user.
pub fn internal_context_item(source: &str, prompt: &str) -> (result: ResponseItem)
    ensures
        result@ == user_text_item(internal_context(source@, prompt@)),
{
    let mut text = "<codex_internal_context source=\"".to_owned();
    text.append(source);
    text.append("\">\n");
    text.append(prompt);
    text.append("\n</codex_internal_context>");
    user_text(text)
}

/// A fragment between its markers.
pub open spec fn rendered(open_marker: Seq<char>, body: Seq<char>, close_marker: Seq<char>) -> Seq<
    char,
> {
    open_marker + body + close_marker
}

/// Puts a fragment between its markers.
pub fn render_fragment(open_marker: &str, body: &str, close_marker: &str) -> (result: String)
    ensures
        result@ == rendered(open_marker@, body@, close_marker@),
{
    let mut text = open_marker.to_owned();
    text.append(body);
    text.append(close_marker);
    text
}

// ---------------------------------------------------------------------------
// Collaboration mode
// ---------------------------------------------------------------------------

/// The mode that a session collaborates in, with its instructions where there are any.
#[derive(Debug, PartialEq, Eq)]
pub struct CollaborationMode {
    pub mode: ModeKind,
    pub developer_instructions: Option<String>,
}

/// The instructions of a mode, as the model is given them.
#[derive(Debug, PartialEq, Eq)]
pub struct CollaborationModeInstructions {
    pub instructions: String,
}

/// The instructions of a mode: none where they are empty; on the Gemini wire protocol the
/// stock instructions of plan mode come with an addendum, and all others stay as they are.
pub open spec fn mode_instructions(
    collaboration_mode: CollaborationMode,
    is_gemini: bool,
    plan: Seq<char>,
    addendum: Seq<char>,
) -> Option<Seq<char>> {
    match collaboration_mode.developer_instructions {
        Some(instructions) => if instructions@.len() == 0 {
            None
        } else if is_gemini && collaboration_mode.mode is Plan && instructions@ == plan {
            Some(plan + "\n"@ + addendum)
        } else {
            Some(instructions@)
        },
        None => None,
    }
}

impl CollaborationModeInstructions {
    /// The instructions of a mode. `plan` is the stock text of plan mode.
    pub fn from_collaboration_mode(
        collaboration_mode: &CollaborationMode,
        is_gemini: bool,
        plan: &str,
        addendum: &str,
    ) -> (result: Option<Self>)
        ensures
            match mode_instructions(*collaboration_mode, is_gemini, plan@, addendum@) {
                Some(text) => result is Some && result->Some_0.instructions@ == text,
                None => result is None,
            },
    {
        match &collaboration_mode.developer_instructions {
            Some(instructions) => {
                if same_text(instructions.as_str(), "") {
                    proof {
                        reveal_strlit("");
                    }
                    return None;
                }
                proof {
                    reveal_strlit("");
                    assert(instructions@.len() == 0 ==> instructions@ =~= ""@);
                }
                let instructions = if is_gemini && collaboration_mode.mode == ModeKind::Plan
                    && same_text(instructions.as_str(), plan) {
                    plan_for_gemini(plan, addendum)
                } else {
                    instructions.clone()
                };
                Some(CollaborationModeInstructions { instructions })
            },
            None => None,
        }
    }

    /// Who the instructions come from.
    pub fn role(&self) -> (result: &'static str)
        ensures
            result@ == "developer"@,
    {
        "developer"
    }

    /// The instructions without their markers.
    pub fn body(&self) -> (result: String)
        ensures
            result@ == self.instructions@,
    {
        self.instructions.clone()
    }
}

/// The stock instructions of plan mode stay as they are off the Gemini wire protocol, and on
/// it they are followed by a line break and the addendum.
pub proof fn lemma_gemini_plan_extends_stock_plan(
    collaboration_mode: CollaborationMode,
    plan: Seq<char>,
    addendum: Seq<char>,
)
    requires
        plan.len() > 0,
        collaboration_mode.mode is Plan,
        opt_text(collaboration_mode.developer_instructions) == Some(plan),
    ensures
        mode_instructions(collaboration_mode, false, plan, addendum) == Some(plan),
        ({
            let extended = mode_instructions(collaboration_mode, true, plan, addendum);
            &&& extended is Some
            &&& extended->Some_0.take(plan.len() as int) == plan
            &&& extended->Some_0.skip(plan.len() as int) == "\n"@ + addendum
        }),
{
    let text = plan + "\n"@ + addendum;
    assert(text.take(plan.len() as int) =~= plan);
    assert(text.skip(plan.len() as int) =~= "\n"@ + addendum);
}

// ---------------------------------------------------------------------------
// Notification of a sub-agent
// ---------------------------------------------------------------------------

/// The word that a status is written as.
pub open spec fn status_word(status: AgentStatus) -> Seq<char> {
    match status {
        AgentStatus::PendingInit => "\"pending_init\""@,
        AgentStatus::Running => "\"running\""@,
        AgentStatus::Interrupted => "\"interrupted\""@,
        AgentStatus::Completed(None) => "{\"completed\":null}"@,
        AgentStatus::Completed(Some(message)) => "{\"completed\":"@ + json_quoted(message@) + "}"@,
        AgentStatus::Errored(message) => "{\"errored\":"@ + json_quoted(message@) + "}"@,
        AgentStatus::Shutdown => "\"shutdown\""@,
        AgentStatus::NotFound => "\"not_found\""@,
    }
}

/// The JSON form of a status.
pub fn status_json(status: &AgentStatus) -> (result: String)
    ensures
        result@ == status_word(*status),
{
    match status {
        AgentStatus::PendingInit => "\"pending_init\"".to_owned(),
        AgentStatus::Running => "\"running\"".to_owned(),
        AgentStatus::Interrupted => "\"interrupted\"".to_owned(),
        AgentStatus::Completed(message) => match message {
            None => "{\"completed\":null}".to_owned(),
            Some(message) => {
                let mut text = "{\"completed\":".to_owned();
                text.append(json_string(message.as_str()).as_str());
                text.append("}");
                text
            },
        },
        AgentStatus::Errored(message) => {
            let mut text = "{\"errored\":".to_owned();
            text.append(json_string(message.as_str()).as_str());
            text.append("}");
            text
        },
        AgentStatus::Shutdown => "\"shutdown\"".to_owned(),
        AgentStatus::NotFound => "\"not_found\"".to_owned(),
    }
}

/// What a parent is told of a child.
#[derive(Debug, PartialEq, Eq)]
pub struct SubagentNotification {
    pub agent_reference: String,
    pub status: AgentStatus,
}

/// A notification without its markers: an object with the child and its status, on a line of
/// its own.
pub open spec fn notification_body(agent: Seq<char>, status: AgentStatus) -> Seq<char> {
    "\n{\"agent_path\":"@ + json_quoted(agent) + ",\"status\":"@ + status_word(status) + "}\n"@
}

/// The text of a message that may be a notification in its clean form: a comment of the
/// assistant with one text and nothing else.
pub open spec fn clean_text(item: ItemView) -> Option<Seq<char>> {
    match item {
        ItemView::Message { role, content, phase, .. } => if role == "assistant"@ && phase == Some(
            MessagePhase::Commentary,
        ) && content.len() == 1 {
            match content[0] {
                ContentView::OutputText { text } => Some(text),
                _ => None,
            }
        } else {
            None
        },
        ItemView::Other => None,
    }
}

impl SubagentNotification {
    pub fn new(agent_reference: String, status: AgentStatus) -> (result: Self)
        ensures
            result.agent_reference == agent_reference,
            result.status == status,
    {
        SubagentNotification { agent_reference, status }
    }

    /// Who the notification comes from.
    pub fn role(&self) -> (result: &'static str)
        ensures
            result@ == "user"@,
    {
        "user"
    }

    /// What stands before and behind a notification.
    pub fn type_markers() -> (result: (&'static str, &'static str))
        ensures
            result.0@ == "<subagent_notification>"@,
            result.1@ == "</subagent_notification>"@,
    {
        ("<subagent_notification>", "</subagent_notification>")
    }

    /// The notification without its markers.
    pub fn body(&self) -> (result: String)
        ensures
            result@ == notification_body(self.agent_reference@, self.status),
    {
        let mut text = "\n{\"agent_path\":".to_owned();
        text.append(json_string(self.agent_reference.as_str()).as_str());
        text.append(",\"status\":");
        text.append(status_json(&self.status).as_str());
        text.append("}\n");
        text
    }

    /// The text of a message that may be a notification in its clean form.
    pub fn clean_response_text(item: &ResponseItem) -> (result: Option<String>)
        ensures
            opt_text(result) == clean_text(item@),
    {
        match item {
            ResponseItem::Message { id: _, role, content, phase } => {
                let comment = match phase {
                    Some(MessagePhase::Commentary) => true,
                    _ => false,
                };
                if !comment || content.len() != 1 || !same_text(role.as_str(), "assistant") {
                    return None;
                }
                proof {
                    assert(item@->content[0] == content@[0]@);
                }
                match &content[0] {
                    ContentItem::OutputText { text } => Some(text.clone()),
                    _ => None,
                }
            },
            ResponseItem::Other => None,
        }
    }

    /// Whether a message is a notification in its clean form. `text_matches` says whether its
    /// text stands between the markers.
    pub fn matches_clean_response_item(item: &ResponseItem, text_matches: bool) -> (result: bool)
        ensures
            result == (clean_text(item@) is Some && text_matches),
    {
        Self::clean_response_text(item).is_some() && text_matches
    }
}

} // verus!
