//! The records exchanged with the completion service, and the library's error.

use crate::json_text::{error_message, error_text};
use crate::text::{concat2, copy_opt, opt_text, quoted, quoted_text, same_text};
use vstd::prelude::*;
use vstd::string::*;

verus! {

/// The function a tool call names, with its arguments as JSON text.
#[derive(Debug, Clone, PartialEq)]
pub struct FunctionCall {
    pub name: String,
    pub arguments: String,
}

pub struct FunctionCallView {
    pub name: Seq<char>,
    pub arguments: Seq<char>,
}

impl View for FunctionCall {
    type V = FunctionCallView;

    open spec fn view(&self) -> FunctionCallView {
        FunctionCallView { name: self.name@, arguments: self.arguments@ }
    }
}

impl FunctionCall {
    /// A copy of the record.
    pub fn copy(&self) -> (r: FunctionCall)
        ensures
            r@ == self@,
    {
        FunctionCall { name: self.name.clone(), arguments: self.arguments.clone() }
    }
}

/// A request by the model, within one assistant message, to run a tool.
#[derive(Debug, Clone, PartialEq)]
pub struct ToolCall {
    pub id: String,
    pub kind: String,
    pub function: FunctionCall,
}

pub struct ToolCallView {
    pub id: Seq<char>,
    pub kind: Seq<char>,
    pub function: FunctionCallView,
}

impl View for ToolCall {
    type V = ToolCallView;

    open spec fn view(&self) -> ToolCallView {
        ToolCallView { id: self.id@, kind: self.kind@, function: self.function@ }
    }
}

impl ToolCallView {
    /// The record as `Debug` shows it: the names of the type and of its fields,
    /// and each field's text as a quoted string.
    pub open spec fn debug_text(self) -> Seq<char> {
        "ToolCall { id: "@ + quoted_text(self.id) + ", type: "@ + quoted_text(self.kind)
            + ", function: FunctionCall { name: "@ + quoted_text(self.function.name)
            + ", arguments: "@ + quoted_text(self.function.arguments) + " } }"@
    }
}

impl ToolCall {
    /// The record as `Debug` shows it.
    pub fn debug_text(&self) -> (r: String)
        ensures
            r@ == self@.debug_text(),
    {
        let mut out = "ToolCall { id: ".to_string();
        out.append(quoted(self.id.as_str()).as_str());
        out.append(", type: ");
        out.append(quoted(self.kind.as_str()).as_str());
        out.append(", function: FunctionCall { name: ");
        out.append(quoted(self.function.name.as_str()).as_str());
        out.append(", arguments: ");
        out.append(quoted(self.function.arguments.as_str()).as_str());
        out.append(" } }");
        out
    }

    /// A copy of the record.
    pub fn copy(&self) -> (r: ToolCall)
        ensures
            r@ == self@,
    {
        ToolCall { id: self.id.clone(), kind: self.kind.clone(), function: self.function.copy() }
    }
}

/// The views of `calls`, in order.
pub open spec fn calls_view(calls: Seq<ToolCall>) -> Seq<ToolCallView> {
    Seq::new(calls.len(), |i: int| calls[i]@)
}

/// The views of an optional list of tool calls.
pub open spec fn opt_calls_view(o: Option<Vec<ToolCall>>) -> Option<Seq<ToolCallView>> {
    match o {
        Some(calls) => Some(calls_view(calls@)),
        None => None,
    }
}

/// A copy of a list of tool calls.
pub fn copy_calls(calls: &Vec<ToolCall>) -> (r: Vec<ToolCall>)
    ensures
        calls_view(r@) == calls_view(calls@),
{
    let mut out: Vec<ToolCall> = Vec::new();
    let mut i: usize = 0;
    while i < calls.len()
        invariant
            i <= calls@.len(),
            out@.len() == i,
            forall|j: int| 0 <= j < i ==> (#[trigger] out@[j])@ == calls@[j]@,
        decreases calls@.len() - i,
    {
        out.push(calls[i].copy());
        i += 1;
    }
    assert(calls_view(out@) =~= calls_view(calls@));
    out
}

/// Who speaks in a message.
#[derive(Debug, Clone, Copy, PartialEq, Eq, Structural)]
pub enum Role {
    System,
    User,
    Assistant,
    Tool,
}

impl Role {
    /// The role as it is written in a message.
    pub open spec fn text(self) -> Seq<char> {
        match self {
            Role::System => "system"@,
            Role::User => "user"@,
            Role::Assistant => "assistant"@,
            Role::Tool => "tool"@,
        }
    }

    /// The role as it is written in a message.
    pub fn as_str(self) -> (r: &'static str)
        ensures
            r@ == self.text(),
    {
        match self {
            Role::System => "system",
            Role::User => "user",
            Role::Assistant => "assistant",
            Role::Tool => "tool",
        }
    }
}

/// The role that a text names; `None` for a text that names none.
pub open spec fn role_named(text: Seq<char>) -> Option<Role> {
    if text == "system"@ {
        Some(Role::System)
    } else if text == "user"@ {
        Some(Role::User)
    } else if text == "assistant"@ {
        Some(Role::Assistant)
    } else if text == "tool"@ {
        Some(Role::Tool)
    } else {
        None
    }
}

/// Each role is the role that its text names.
pub proof fn lemma_role_named(role: Role)
    ensures
        role_named(role.text()) == Some(role),
{
    reveal_strlit("system");
    reveal_strlit("user");
    reveal_strlit("assistant");
    reveal_strlit("tool");
    assert("system"@.len() == 6);
    assert("user"@.len() == 4);
    assert("assistant"@.len() == 9);
    assert("tool"@.len() == 4);
    assert("user"@[0] != "tool"@[0]);
}

/// One entry of a conversation.
#[derive(Debug, Clone, PartialEq)]
pub struct Message {
    pub role: String,
    pub content: Option<String>,
    pub tool_calls: Option<Vec<ToolCall>>,
    pub tool_call_id: Option<String>,
    pub name: Option<String>,
}

pub struct MessageView {
    pub role: Seq<char>,
    pub content: Option<Seq<char>>,
    pub tool_calls: Option<Seq<ToolCallView>>,
    pub tool_call_id: Option<Seq<char>>,
    pub name: Option<Seq<char>>,
}

impl View for Message {
    type V = MessageView;

    open spec fn view(&self) -> MessageView {
        MessageView {
            role: self.role@,
            content: opt_text(self.content),
            tool_calls: opt_calls_view(self.tool_calls),
            tool_call_id: opt_text(self.tool_call_id),
            name: opt_text(self.name),
        }
    }
}

/// The message that `Message::new` makes: a role and a content, nothing else.
pub open spec fn plain_message(role: Seq<char>, content: Seq<char>) -> MessageView {
    MessageView { role, content: Some(content), tool_calls: None, tool_call_id: None, name: None }
}

/// The message that answers the tool call `call` with `content`.
pub open spec fn tool_message(call: ToolCallView, content: Seq<char>) -> MessageView {
    MessageView {
        role: "tool"@,
        content: Some(content),
        tool_calls: None,
        tool_call_id: Some(call.id),
        name: Some(call.function.name),
    }
}

impl Message {
    /// A message with a role and a content and no tool data.
    pub fn new(role: String, content: String) -> (m: Message)
        ensures
            m@ == plain_message(role@, content@),
    {
        Message { role, content: Some(content), tool_calls: None, tool_call_id: None, name: None }
    }

    /// Who speaks in the message; `None` where the role is none of the four.
    pub fn speaker(&self) -> (r: Option<Role>)
        ensures
            r == role_named(self.role@),
    {
        if same_text(self.role.as_str(), "system") {
            Some(Role::System)
        } else if same_text(self.role.as_str(), "user") {
            Some(Role::User)
        } else if same_text(self.role.as_str(), "assistant") {
            Some(Role::Assistant)
        } else if same_text(self.role.as_str(), "tool") {
            Some(Role::Tool)
        } else {
            None
        }
    }

    /// The tool-role message that answers `call` with `content`.
    pub fn tool_result(call: &ToolCall, content: String) -> (m: Message)
        ensures
            m@ == tool_message(call@, content@),
    {
        Message {
            role: "tool".to_string(),
            content: Some(content),
            tool_calls: None,
            tool_call_id: Some(call.id.clone()),
            name: Some(call.function.name.clone()),
        }
    }

    /// A copy of the message.
    pub fn copy(&self) -> (r: Message)
        ensures
            r@ == self@,
    {
        let tool_calls = match &self.tool_calls {
            Some(calls) => Some(copy_calls(calls)),
            None => None,
        };
        Message {
            role: self.role.clone(),
            content: copy_opt(&self.content),
            tool_calls,
            tool_call_id: copy_opt(&self.tool_call_id),
            name: copy_opt(&self.name),
        }
    }
}

/// The views of `messages`, in order.
pub open spec fn messages_view(messages: Seq<Message>) -> Seq<MessageView> {
    Seq::new(messages.len(), |i: int| messages[i]@)
}

/// A copy of a list of messages.
pub fn copy_messages(messages: &Vec<Message>) -> (r: Vec<Message>)
    ensures
        messages_view(r@) == messages_view(messages@),
{
    let mut out: Vec<Message> = Vec::new();
    let mut i: usize = 0;
    while i < messages.len()
        invariant
            i <= messages@.len(),
            out@.len() == i,
            forall|j: int| 0 <= j < i ==> (#[trigger] out@[j])@ == messages@[j]@,
        decreases messages@.len() - i,
    {
        out.push(messages[i].copy());
        i += 1;
    }
    assert(messages_view(out@) =~= messages_view(messages@));
    out
}

/// One alternative of a completion response.
#[derive(Debug)]
pub struct Choice {
    pub index: u32,
    pub message: Message,
    pub finish_reason: String,
}

/// The token counts of a completion response.
#[derive(Debug)]
pub struct Usage {
    pub prompt_tokens: u32,
    pub completion_tokens: u32,
    pub total_tokens: u32,
}

/// A completion response.
#[derive(Debug)]
pub struct OpenAIResponse {
    pub id: String,
    pub model: String,
    pub choices: Vec<Choice>,
    pub usage: Usage,
}

/// What can go wrong. The first four kinds carry the text of an error raised
/// outside the library.
#[derive(Debug)]
pub enum AppError {
    ReqwestError(String),
    IOError(String),
    SerdeJsonError(String),
    TaskJoinError(String),
    MissingEnvironmentVariable(String),
    CommandError(String),
}

pub enum AppErrorView {
    ReqwestError(Seq<char>),
    IOError(Seq<char>),
    SerdeJsonError(Seq<char>),
    TaskJoinError(Seq<char>),
    MissingEnvironmentVariable(Seq<char>),
    CommandError(Seq<char>),
}

impl View for AppError {
    type V = AppErrorView;

    open spec fn view(&self) -> AppErrorView {
        match self {
            AppError::ReqwestError(e) => AppErrorView::ReqwestError(e@),
            AppError::IOError(e) => AppErrorView::IOError(e@),
            AppError::SerdeJsonError(e) => AppErrorView::SerdeJsonError(e@),
            AppError::TaskJoinError(e) => AppErrorView::TaskJoinError(e@),
            AppError::MissingEnvironmentVariable(e) => AppErrorView::MissingEnvironmentVariable(e@),
            AppError::CommandError(e) => AppErrorView::CommandError(e@),
        }
    }
}

impl AppErrorView {
    /// The text that the error shows: a prefix that tells its kind, then its detail.
    pub open spec fn text(self) -> Seq<char> {
        match self {
            AppErrorView::ReqwestError(e) => "HTTP request failed: "@ + e,
            AppErrorView::IOError(e) => "IO error: "@ + e,
            AppErrorView::SerdeJsonError(e) => "Serialization/Deserialization error: "@ + e,
            AppErrorView::TaskJoinError(e) => "TaskJoinError: "@ + e,
            AppErrorView::MissingEnvironmentVariable(e) => "Missing environment variable: "@ + e,
            AppErrorView::CommandError(e) => "Error with command: "@ + e,
        }
    }
}

impl AppError {
    /// The text that the error shows.
    pub fn to_string(&self) -> (s: String)
        ensures
            s@ == self@.text(),
    {
        match self {
            AppError::ReqwestError(e) => concat2("HTTP request failed: ", e.as_str()),
            AppError::IOError(e) => concat2("IO error: ", e.as_str()),
            AppError::SerdeJsonError(e) => concat2(
                "Serialization/Deserialization error: ",
                e.as_str(),
            ),
            AppError::TaskJoinError(e) => concat2("TaskJoinError: ", e.as_str()),
            AppError::MissingEnvironmentVariable(e) => concat2(
                "Missing environment variable: ",
                e.as_str(),
            ),
            AppError::CommandError(e) => concat2("Error with command: ", e.as_str()),
        }
    }

    /// A copy of the error.
    pub fn copy(&self) -> (r: AppError)
        ensures
            r@ == self@,
    {
        match self {
            AppError::ReqwestError(e) => AppError::ReqwestError(e.clone()),
            AppError::IOError(e) => AppError::IOError(e.clone()),
            AppError::SerdeJsonError(e) => AppError::SerdeJsonError(e.clone()),
            AppError::TaskJoinError(e) => AppError::TaskJoinError(e.clone()),
            AppError::MissingEnvironmentVariable(e) => AppError::MissingEnvironmentVariable(
                e.clone(),
            ),
            AppError::CommandError(e) => AppError::CommandError(e.clone()),
        }
    }

    /// The library's error for a `serde_json` error: it keeps the message.
    pub fn from_json_error(e: serde_json::Error) -> (r: AppError)
        ensures
            r@ == AppErrorView::SerdeJsonError(error_text(e)),
    {
        AppError::SerdeJsonError(error_message(&e))
    }
}

} // verus!
