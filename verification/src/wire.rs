//! How messages are written as JSON and read back: the form in which a
//! conversation is stored and sent.

use crate::json::{
    find_member, items_view, lemma_array_view, lemma_member_named_push, lemma_object_view,
    member_named, members_view, object, text, Json, JsonView, Member, MemberView,
};
use crate::json_text::{
    custom_error, error_from_message, error_message, error_text, json_text, parse_json,
    parsed_json, to_text,
};
use crate::text::opt_text;
use crate::types::{
    calls_view, messages_view, AppError, AppErrorView, FunctionCall, FunctionCallView, Message,
    MessageView, ToolCall, ToolCallView,
};
use vstd::prelude::*;
use vstd::string::*;

verus! {

impl JsonView {
    /// The object with the text under `key` as one more member, where there is
    /// a text.
    pub open spec fn with_text(self, key: Seq<char>, value: Option<Seq<char>>) -> JsonView {
        match value {
            Some(s) => self.with(key, text(s)),
            None => self,
        }
    }
}

/// A function call as JSON: its name and its arguments.
pub open spec fn function_call_json(f: FunctionCallView) -> JsonView {
    object().with("name"@, text(f.name)).with("arguments"@, text(f.arguments))
}

/// A tool call as JSON: its id, its type and its function.
pub open spec fn tool_call_json(c: ToolCallView) -> JsonView {
    object().with("id"@, text(c.id)).with("type"@, text(c.kind)).with(
        "function"@,
        function_call_json(c.function),
    )
}

/// A list of tool calls as JSON.
pub open spec fn tool_calls_json(calls: Seq<ToolCallView>) -> JsonView {
    JsonView::Array(Seq::new(calls.len(), |i: int| tool_call_json(calls[i])))
}

/// A message as JSON: its role, and each of the other fields that it has.
pub open spec fn message_json(m: MessageView) -> JsonView {
    let start = object().with("role"@, text(m.role)).with_text("content"@, m.content);
    let middle = match m.tool_calls {
        Some(calls) => start.with("tool_calls"@, tool_calls_json(calls)),
        None => start,
    };
    middle.with_text("tool_call_id"@, m.tool_call_id).with_text("name"@, m.name)
}

/// A conversation as JSON: the list of its messages.
pub open spec fn messages_json(messages: Seq<MessageView>) -> JsonView {
    JsonView::Array(Seq::new(messages.len(), |i: int| message_json(messages[i])))
}

/// The body of a completion request: the model, the conversation, and the
/// manifest where tools are on offer.
pub open spec fn payload_json(
    model: Seq<char>,
    messages: Seq<MessageView>,
    tools: Option<JsonView>,
) -> JsonView {
    let body = object().with("model"@, text(model)).with("messages"@, messages_json(messages));
    match tools {
        Some(manifest) => body.with("tools"@, manifest),
        None => body,
    }
}

/// The text under `key`, which has to be there.
pub open spec fn text_under(members: Seq<MemberView>, key: Seq<char>) -> Result<
    Seq<char>,
    Seq<char>,
> {
    match member_named(members, key) {
        Some(JsonView::String(s)) => Ok(s),
        _ => Err("missing or invalid field `"@ + key + "`"@),
    }
}

/// The text under `key`, if any: a key that is not there, or holds null, has
/// none; a key that holds anything but a text is an error.
pub open spec fn optional_text_under(members: Seq<MemberView>, key: Seq<char>) -> Result<
    Option<Seq<char>>,
    Seq<char>,
> {
    match member_named(members, key) {
        Some(JsonView::String(s)) => Ok(Some(s)),
        Some(JsonView::Null) => Ok(None),
        None => Ok(None),
        _ => Err("invalid field `"@ + key + "`"@),
    }
}

/// The function call that a document holds.
pub open spec fn function_call_of(doc: JsonView) -> Result<FunctionCallView, Seq<char>> {
    match doc {
        JsonView::Object(members) => match text_under(members, "name"@) {
            Err(e) => Err(e),
            Ok(name) => match text_under(members, "arguments"@) {
                Err(e) => Err(e),
                Ok(arguments) => Ok(FunctionCallView { name, arguments }),
            },
        },
        _ => Err("invalid type: expected a function call"@),
    }
}

/// The tool call that a document holds.
pub open spec fn tool_call_of(doc: JsonView) -> Result<ToolCallView, Seq<char>> {
    match doc {
        JsonView::Object(members) => match text_under(members, "id"@) {
            Err(e) => Err(e),
            Ok(id) => match text_under(members, "type"@) {
                Err(e) => Err(e),
                Ok(kind) => match member_named(members, "function"@) {
                    None => Err("missing field `function`"@),
                    Some(f) => match function_call_of(f) {
                        Err(e) => Err(e),
                        Ok(function) => Ok(ToolCallView { id, kind, function }),
                    },
                },
            },
        },
        _ => Err("invalid type: expected a tool call"@),
    }
}

/// The tool calls that the first `n` of the items hold, or the error of the
/// first of them that holds none.
pub open spec fn tool_calls_of(items: Seq<JsonView>, n: nat) -> Result<Seq<ToolCallView>, Seq<char>>
    decreases n,
{
    if n == 0 {
        Ok(Seq::empty())
    } else {
        match tool_calls_of(items, (n - 1) as nat) {
            Err(e) => Err(e),
            Ok(calls) => match tool_call_of(items[n - 1]) {
                Err(e) => Err(e),
                Ok(call) => Ok(calls.push(call)),
            },
        }
    }
}

/// The tool calls under `tool_calls`, if any.
pub open spec fn optional_calls_under(members: Seq<MemberView>) -> Result<
    Option<Seq<ToolCallView>>,
    Seq<char>,
> {
    match member_named(members, "tool_calls"@) {
        Some(JsonView::Array(items)) => match tool_calls_of(items, items.len()) {
            Ok(calls) => Ok(Some(calls)),
            Err(e) => Err(e),
        },
        Some(JsonView::Null) => Ok(None),
        None => Ok(None),
        _ => Err("invalid field `tool_calls`"@),
    }
}

/// The message that a document holds.
pub open spec fn message_of(doc: JsonView) -> Result<MessageView, Seq<char>> {
    match doc {
        JsonView::Object(members) => match text_under(members, "role"@) {
            Err(e) => Err(e),
            Ok(role) => match optional_text_under(members, "content"@) {
                Err(e) => Err(e),
                Ok(content) => match optional_calls_under(members) {
                    Err(e) => Err(e),
                    Ok(tool_calls) => match optional_text_under(members, "tool_call_id"@) {
                        Err(e) => Err(e),
                        Ok(tool_call_id) => match optional_text_under(members, "name"@) {
                            Err(e) => Err(e),
                            Ok(name) => Ok(
                                MessageView { role, content, tool_calls, tool_call_id, name },
                            ),
                        },
                    },
                },
            },
        },
        _ => Err("invalid type: expected a message"@),
    }
}

/// The messages that the first `n` of the items hold, or the error of the first
/// of them that holds none.
pub open spec fn messages_in(items: Seq<JsonView>, n: nat) -> Result<Seq<MessageView>, Seq<char>>
    decreases n,
{
    if n == 0 {
        Ok(Seq::empty())
    } else {
        match messages_in(items, (n - 1) as nat) {
            Err(e) => Err(e),
            Ok(messages) => match message_of(items[n - 1]) {
                Err(e) => Err(e),
                Ok(message) => Ok(messages.push(message)),
            },
        }
    }
}

/// The conversation that a document holds.
pub open spec fn messages_of(doc: JsonView) -> Result<Seq<MessageView>, Seq<char>> {
    match doc {
        JsonView::Array(items) => messages_in(items, items.len()),
        _ => Err("invalid type: expected a list of messages"@),
    }
}

/// The error for a document that holds no conversation; it says why.
pub open spec fn wire_error(reason: Seq<char>) -> AppErrorView {
    AppErrorView::SerdeJsonError(error_text(custom_error(reason)))
}

fn failure(reason: String) -> (e: AppError)
    ensures
        e@ == wire_error(reason@),
{
    AppError::SerdeJsonError(error_message(&error_from_message(reason.as_str())))
}

/// The view of a text that was looked up.
pub open spec fn lookup_view(r: Result<String, String>) -> Result<Seq<char>, Seq<char>> {
    match r {
        Ok(s) => Ok(s@),
        Err(e) => Err(e@),
    }
}

/// The view of an optional text that was looked up.
pub open spec fn optional_lookup_view(r: Result<Option<String>, String>) -> Result<
    Option<Seq<char>>,
    Seq<char>,
> {
    match r {
        Ok(s) => Ok(opt_text(s)),
        Err(e) => Err(e@),
    }
}

fn required_text(members: &Vec<Member>, key: &str) -> (r: Result<String, String>)
    ensures
        lookup_view(r) == text_under(members_view(members@), key@),
{
    match find_member(members, key) {
        Some(i) => match &members[i].value {
            Json::String(s) => {
                return Ok(s.clone());
            },
            _ => {},
        },
        None => {},
    }
    let mut reason = "missing or invalid field `".to_string();
    reason.append(key);
    reason.append("`");
    Err(reason)
}

fn optional_text(members: &Vec<Member>, key: &str) -> (r: Result<Option<String>, String>)
    ensures
        optional_lookup_view(r) == optional_text_under(members_view(members@), key@),
{
    match find_member(members, key) {
        Some(i) => match &members[i].value {
            Json::String(s) => Ok(Some(s.clone())),
            Json::Null => Ok(None),
            _ => {
                let mut reason = "invalid field `".to_string();
                reason.append(key);
                reason.append("`");
                Err(reason)
            },
        },
        None => Ok(None),
    }
}

/// The view of a function call that was read.
pub open spec fn function_call_view(r: Result<FunctionCall, String>) -> Result<
    FunctionCallView,
    Seq<char>,
> {
    match r {
        Ok(f) => Ok(f@),
        Err(e) => Err(e@),
    }
}

/// The view of a tool call that was read.
pub open spec fn tool_call_view(r: Result<ToolCall, String>) -> Result<ToolCallView, Seq<char>> {
    match r {
        Ok(c) => Ok(c@),
        Err(e) => Err(e@),
    }
}

/// The view of tool calls that were read.
pub open spec fn tool_calls_view(r: Result<Vec<ToolCall>, String>) -> Result<
    Seq<ToolCallView>,
    Seq<char>,
> {
    match r {
        Ok(calls) => Ok(calls_view(calls@)),
        Err(e) => Err(e@),
    }
}

/// The view of a message that was read.
pub open spec fn message_view(r: Result<Message, String>) -> Result<MessageView, Seq<char>> {
    match r {
        Ok(m) => Ok(m@),
        Err(e) => Err(e@),
    }
}

/// The view of messages that were read.
pub open spec fn messages_result_view(r: Result<Vec<Message>, String>) -> Result<
    Seq<MessageView>,
    Seq<char>,
> {
    match r {
        Ok(messages) => Ok(messages_view(messages@)),
        Err(e) => Err(e@),
    }
}

/// The view of a conversation that was read from text.
pub open spec fn conversation_view(r: Result<Vec<Message>, AppError>) -> Result<
    Seq<MessageView>,
    AppErrorView,
> {
    match r {
        Ok(messages) => Ok(messages_view(messages@)),
        Err(e) => Err(e@),
    }
}

/// The view of a text that was written.
pub open spec fn written_view(r: Result<String, AppError>) -> Result<Seq<char>, AppErrorView> {
    match r {
        Ok(s) => Ok(s@),
        Err(e) => Err(e@),
    }
}

/// The conversation that a text holds: the text is read as JSON, and the
/// document as a list of messages.
pub open spec fn conversation_of(text: Seq<char>) -> Result<Seq<MessageView>, AppErrorView> {
    match parsed_json(text) {
        Err(e) => Err(AppErrorView::SerdeJsonError(error_text(e))),
        Ok(doc) => match messages_of(doc) {
            Ok(messages) => Ok(messages),
            Err(reason) => Err(wire_error(reason)),
        },
    }
}

/// The text of a conversation: its list of messages as JSON text.
pub open spec fn conversation_text(messages: Seq<MessageView>) -> Result<Seq<char>, AppErrorView> {
    match json_text(messages_json(messages)) {
        Ok(text) => Ok(text),
        Err(e) => Err(AppErrorView::SerdeJsonError(error_text(e))),
    }
}

impl FunctionCall {
    /// The function call as JSON.
    pub fn to_json(&self) -> (r: Json)
        ensures
            r@ == function_call_json(self@),
    {
        Json::object().with("name", Json::text(self.name.as_str())).with(
            "arguments",
            Json::text(self.arguments.as_str()),
        )
    }

    /// The function call that the document holds.
    pub fn from_json(doc: &Json) -> (r: Result<FunctionCall, String>)
        ensures
            function_call_view(r) == function_call_of(doc@),
    {
        match doc {
            Json::Object(members) => {
                proof {
                    lemma_object_view(*members);
                }
                let name = match required_text(members, "name") {
                    Ok(name) => name,
                    Err(e) => {
                        return Err(e);
                    },
                };
                let arguments = match required_text(members, "arguments") {
                    Ok(arguments) => arguments,
                    Err(e) => {
                        return Err(e);
                    },
                };
                Ok(FunctionCall { name, arguments })
            },
            _ => Err("invalid type: expected a function call".to_string()),
        }
    }
}

impl ToolCall {
    /// The tool call as JSON.
    pub fn to_json(&self) -> (r: Json)
        ensures
            r@ == tool_call_json(self@),
    {
        Json::object().with("id", Json::text(self.id.as_str())).with(
            "type",
            Json::text(self.kind.as_str()),
        ).with("function", self.function.to_json())
    }

    /// The tool call that the document holds.
    pub fn from_json(doc: &Json) -> (r: Result<ToolCall, String>)
        ensures
            tool_call_view(r) == tool_call_of(doc@),
    {
        match doc {
            Json::Object(members) => {
                proof {
                    lemma_object_view(*members);
                }
                let id = match required_text(members, "id") {
                    Ok(id) => id,
                    Err(e) => {
                        return Err(e);
                    },
                };
                let kind = match required_text(members, "type") {
                    Ok(kind) => kind,
                    Err(e) => {
                        return Err(e);
                    },
                };
                match find_member(members, "function") {
                    None => Err("missing field `function`".to_string()),
                    Some(i) => match FunctionCall::from_json(&members[i].value) {
                        Ok(function) => Ok(ToolCall { id, kind, function }),
                        Err(e) => Err(e),
                    },
                }
            },
            _ => Err("invalid type: expected a tool call".to_string()),
        }
    }
}

/// A list of tool calls as JSON.
pub fn tool_calls_to_json(calls: &Vec<ToolCall>) -> (r: Json)
    ensures
        r@ == tool_calls_json(calls_view(calls@)),
{
    let mut items: Vec<Json> = Vec::new();
    let mut i: usize = 0;
    while i < calls.len()
        invariant
            i <= calls@.len(),
            items@.len() == i,
            forall|j: int| 0 <= j < i ==> (#[trigger] items@[j])@ == tool_call_json(calls@[j]@),
        decreases calls@.len() - i,
    {
        items.push(calls[i].to_json());
        i += 1;
    }
    proof {
        lemma_array_view(items);
        assert(items_view(items@) =~= Seq::new(
            calls@.len(),
            |i: int| tool_call_json(calls_view(calls@)[i]),
        ));
    }
    Json::Array(items)
}

fn tool_calls_from_items(items: &Vec<Json>) -> (r: Result<Vec<ToolCall>, String>)
    ensures
        tool_calls_view(r) == tool_calls_of(items_view(items@), items@.len()),
{
    let mut calls: Vec<ToolCall> = Vec::new();
    let mut i: usize = 0;
    assert(calls_view(calls@) =~= Seq::<ToolCallView>::empty());
    while i < items.len()
        invariant
            i <= items@.len(),
            tool_calls_of(items_view(items@), i as nat) == Ok::<Seq<ToolCallView>, Seq<char>>(
                calls_view(calls@),
            ),
        decreases items@.len() - i,
    {
        let ghost before = calls_view(calls@);
        match ToolCall::from_json(&items[i]) {
            Ok(call) => {
                calls.push(call);
                assert(calls_view(calls@) =~= before.push(call@));
            },
            Err(e) => {
                proof {
                    lemma_tool_calls_error_stays(items_view(items@), i as nat + 1, items@.len());
                }
                return Err(e);
            },
        }
        i += 1;
    }
    Ok(calls)
}

/// An error among the first items is the error of the whole list.
proof fn lemma_tool_calls_error_stays(items: Seq<JsonView>, n: nat, m: nat)
    requires
        n <= m,
        tool_calls_of(items, n).is_err(),
    ensures
        tool_calls_of(items, m) == tool_calls_of(items, n),
    decreases m,
{
    if n < m {
        lemma_tool_calls_error_stays(items, n, (m - 1) as nat);
    }
}

/// An error among the first items is the error of the whole list.
proof fn lemma_messages_error_stays(items: Seq<JsonView>, n: nat, m: nat)
    requires
        n <= m,
        messages_in(items, n).is_err(),
    ensures
        messages_in(items, m) == messages_in(items, n),
    decreases m,
{
    if n < m {
        lemma_messages_error_stays(items, n, (m - 1) as nat);
    }
}

impl Message {
    /// The message as JSON.
    pub fn to_json(&self) -> (r: Json)
        ensures
            r@ == message_json(self@),
    {
        let mut doc = Json::object().with("role", Json::text(self.role.as_str()));
        match &self.content {
            Some(content) => {
                doc = doc.with("content", Json::text(content.as_str()));
            },
            None => {},
        }
        match &self.tool_calls {
            Some(calls) => {
                doc = doc.with("tool_calls", tool_calls_to_json(calls));
            },
            None => {},
        }
        match &self.tool_call_id {
            Some(id) => {
                doc = doc.with("tool_call_id", Json::text(id.as_str()));
            },
            None => {},
        }
        match &self.name {
            Some(name) => {
                doc = doc.with("name", Json::text(name.as_str()));
            },
            None => {},
        }
        doc
    }

    /// The message that the document holds.
    pub fn from_json(doc: &Json) -> (r: Result<Message, String>)
        ensures
            message_view(r) == message_of(doc@),
    {
        match doc {
            Json::Object(members) => {
                proof {
                    lemma_object_view(*members);
                }
                let role = match required_text(members, "role") {
                    Ok(role) => role,
                    Err(e) => {
                        return Err(e);
                    },
                };
                let content = match optional_text(members, "content") {
                    Ok(content) => content,
                    Err(e) => {
                        return Err(e);
                    },
                };
                let tool_calls = match find_member(members, "tool_calls") {
                    None => None,
                    Some(i) => match &members[i].value {
                        Json::Array(items) => {
                            proof {
                                lemma_array_view(*items);
                            }
                            match tool_calls_from_items(items) {
                                Ok(calls) => Some(calls),
                                Err(e) => {
                                    return Err(e);
                                },
                            }
                        },
                        Json::Null => None,
                        _ => {
                            return Err("invalid field `tool_calls`".to_string());
                        },
                    },
                };
                let tool_call_id = match optional_text(members, "tool_call_id") {
                    Ok(id) => id,
                    Err(e) => {
                        return Err(e);
                    },
                };
                let name = match optional_text(members, "name") {
                    Ok(name) => name,
                    Err(e) => {
                        return Err(e);
                    },
                };
                Ok(Message { role, content, tool_calls, tool_call_id, name })
            },
            _ => Err("invalid type: expected a message".to_string()),
        }
    }
}

/// A conversation as JSON.
pub fn messages_to_json(messages: &Vec<Message>) -> (r: Json)
    ensures
        r@ == messages_json(messages_view(messages@)),
{
    let mut items: Vec<Json> = Vec::new();
    let mut i: usize = 0;
    while i < messages.len()
        invariant
            i <= messages@.len(),
            items@.len() == i,
            forall|j: int| 0 <= j < i ==> (#[trigger] items@[j])@ == message_json(messages@[j]@),
        decreases messages@.len() - i,
    {
        items.push(messages[i].to_json());
        i += 1;
    }
    proof {
        lemma_array_view(items);
        assert(items_view(items@) =~= Seq::new(
            messages@.len(),
            |i: int| message_json(messages_view(messages@)[i]),
        ));
    }
    Json::Array(items)
}

/// The conversation that a document holds.
pub fn messages_from_json(doc: &Json) -> (r: Result<Vec<Message>, String>)
    ensures
        messages_result_view(r) == messages_of(doc@),
{
    match doc {
        Json::Array(items) => {
            proof {
                lemma_array_view(*items);
            }
            let mut messages: Vec<Message> = Vec::new();
            let mut i: usize = 0;
            assert(messages_view(messages@) =~= Seq::<MessageView>::empty());
            while i < items.len()
                invariant
                    i <= items@.len(),
                    doc@ == JsonView::Array(items_view(items@)),
                    messages_in(items_view(items@), i as nat) == Ok::<
                        Seq<MessageView>,
                        Seq<char>,
                    >(messages_view(messages@)),
                decreases items@.len() - i,
            {
                let ghost before = messages_view(messages@);
                match Message::from_json(&items[i]) {
                    Ok(message) => {
                        messages.push(message);
                        assert(messages_view(messages@) =~= before.push(message@));
                    },
                    Err(e) => {
                        proof {
                            lemma_messages_error_stays(
                                items_view(items@),
                                i as nat + 1,
                                items@.len(),
                            );
                        }
                        return Err(e);
                    },
                }
                i += 1;
            }
            Ok(messages)
        },
        _ => Err("invalid type: expected a list of messages".to_string()),
    }
}

/// The body of a completion request.
pub fn completion_payload(model: &str, messages: &Vec<Message>, tools: Option<&Json>) -> (r: Json)
    ensures
        r@ == payload_json(
            model@,
            messages_view(messages@),
            match tools {
                Some(t) => Some(t@),
                None => None,
            },
        ),
{
    let body = Json::object().with("model", Json::text(model)).with(
        "messages",
        messages_to_json(messages),
    );
    match tools {
        Some(manifest) => body.with("tools", manifest.copy()),
        None => body,
    }
}

/// Writes a conversation as JSON text.
pub fn messages_to_text(messages: &Vec<Message>) -> (r: Result<String, AppError>)
    ensures
        written_view(r) == conversation_text(messages_view(messages@)),
{
    match to_text(&messages_to_json(messages)) {
        Ok(text) => Ok(text),
        Err(e) => Err(AppError::from_json_error(e)),
    }
}

/// Reads a conversation from JSON text.
pub fn messages_from_text(text: &str) -> (r: Result<Vec<Message>, AppError>)
    ensures
        conversation_view(r) == conversation_of(text@),
{
    match parse_json(text) {
        Err(e) => Err(AppError::from_json_error(e)),
        Ok(doc) => match messages_from_json(&doc) {
            Ok(messages) => Ok(messages),
            Err(reason) => Err(failure(reason)),
        },
    }
}

/// The keys of the records differ from one another.
proof fn lemma_keys_differ()
    ensures
        "name"@ != "arguments"@,
        "id"@ != "type"@,
        "id"@ != "function"@,
        "type"@ != "function"@,
        "role"@ != "content"@,
        "role"@ != "tool_calls"@,
        "role"@ != "tool_call_id"@,
        "role"@ != "name"@,
        "content"@ != "tool_calls"@,
        "content"@ != "tool_call_id"@,
        "content"@ != "name"@,
        "tool_calls"@ != "tool_call_id"@,
        "tool_calls"@ != "name"@,
        "tool_call_id"@ != "name"@,
{
    reveal_strlit("name");
    reveal_strlit("arguments");
    reveal_strlit("id");
    reveal_strlit("type");
    reveal_strlit("function");
    reveal_strlit("role");
    reveal_strlit("content");
    reveal_strlit("tool_calls");
    reveal_strlit("tool_call_id");
    assert("name"@.len() == 4);
    assert("arguments"@.len() == 9);
    assert("id"@.len() == 2);
    assert("type"@.len() == 4);
    assert("function"@.len() == 8);
    assert("role"@.len() == 4);
    assert("content"@.len() == 7);
    assert("tool_calls"@.len() == 10);
    assert("tool_call_id"@.len() == 12);
    assert("role"@[0] != "name"@[0]);
}

/// The value under `wanted` in a document that is an object.
pub open spec fn found(doc: JsonView, wanted: Seq<char>) -> Option<JsonView> {
    match doc {
        JsonView::Object(members) => member_named(members, wanted),
        _ => None,
    }
}

/// What is found in an object that has one more member: what was found
/// before, or the new member under its key.
proof fn lemma_found_after_with(doc: JsonView, key: Seq<char>, value: JsonView, wanted: Seq<char>)
    requires
        doc is Object,
    ensures
        doc.with(key, value) is Object,
        found(doc.with(key, value), wanted) == match found(doc, wanted) {
            Some(v) => Some(v),
            None => if key == wanted {
                Some(value)
            } else {
                None
            },
        },
{
    match doc {
        JsonView::Object(before) => {
            lemma_member_named_push(before, MemberView { key, value }, wanted);
        },
        _ => {},
    }
}

/// The same for a text that may not be there.
proof fn lemma_found_after_with_text(
    doc: JsonView,
    key: Seq<char>,
    value: Option<Seq<char>>,
    wanted: Seq<char>,
)
    requires
        doc is Object,
    ensures
        doc.with_text(key, value) is Object,
        found(doc.with_text(key, value), wanted) == match found(doc, wanted) {
            Some(v) => Some(v),
            None => if key == wanted && value.is_some() {
                Some(text(value.unwrap()))
            } else {
                None
            },
        },
{
    if value.is_some() {
        lemma_found_after_with(doc, key, text(value.unwrap()), wanted);
    }
}

/// A function call is read back as it was written.
pub proof fn lemma_function_call_round_trip(f: FunctionCallView)
    ensures
        function_call_of(function_call_json(f)) == Ok::<FunctionCallView, Seq<char>>(f),
{
    lemma_keys_differ();
    let a = object();
    let b = a.with("name"@, text(f.name));
    lemma_found_after_with(a, "name"@, text(f.name), "name"@);
    lemma_found_after_with(a, "name"@, text(f.name), "arguments"@);
    lemma_found_after_with(b, "arguments"@, text(f.arguments), "name"@);
    lemma_found_after_with(b, "arguments"@, text(f.arguments), "arguments"@);
}

/// A tool call is read back as it was written.
pub proof fn lemma_tool_call_round_trip(c: ToolCallView)
    ensures
        tool_call_of(tool_call_json(c)) == Ok::<ToolCallView, Seq<char>>(c),
{
    lemma_keys_differ();
    lemma_function_call_round_trip(c.function);
    let a = object();
    let b = a.with("id"@, text(c.id));
    let d = b.with("type"@, text(c.kind));
    let f = function_call_json(c.function);
    lemma_found_after_with(a, "id"@, text(c.id), "id"@);
    lemma_found_after_with(a, "id"@, text(c.id), "type"@);
    lemma_found_after_with(a, "id"@, text(c.id), "function"@);
    lemma_found_after_with(b, "type"@, text(c.kind), "id"@);
    lemma_found_after_with(b, "type"@, text(c.kind), "type"@);
    lemma_found_after_with(b, "type"@, text(c.kind), "function"@);
    lemma_found_after_with(d, "function"@, f, "id"@);
    lemma_found_after_with(d, "function"@, f, "type"@);
    lemma_found_after_with(d, "function"@, f, "function"@);
}

/// A list of tool calls is read back as it was written.
pub proof fn lemma_tool_calls_round_trip(calls: Seq<ToolCallView>, n: nat)
    requires
        n <= calls.len(),
    ensures
        tool_calls_json(calls) matches JsonView::Array(items) && items.len() == calls.len()
            && tool_calls_of(items, n) == Ok::<Seq<ToolCallView>, Seq<char>>(calls.take(n as int)),
    decreases n,
{
    match tool_calls_json(calls) {
        JsonView::Array(items) => {
            if n == 0 {
                assert(calls.take(0) =~= Seq::<ToolCallView>::empty());
            } else {
                lemma_tool_calls_round_trip(calls, (n - 1) as nat);
                lemma_tool_call_round_trip(calls[n - 1]);
                assert(calls.take(n as int) =~= calls.take(n - 1).push(calls[n - 1]));
            }
        },
        _ => {},
    }
}

/// What is found in a written message under `wanted`: the field of that name,
/// where the message has it.
proof fn lemma_found_in_message(m: MessageView, wanted: Seq<char>)
    ensures
        message_json(m) is Object,
        found(message_json(m), wanted) == if wanted == "role"@ {
            Some(text(m.role))
        } else if wanted == "content"@ && m.content.is_some() {
            Some(text(m.content.unwrap()))
        } else if wanted == "tool_calls"@ && m.tool_calls.is_some() {
            Some(tool_calls_json(m.tool_calls.unwrap()))
        } else if wanted == "tool_call_id"@ && m.tool_call_id.is_some() {
            Some(text(m.tool_call_id.unwrap()))
        } else if wanted == "name"@ && m.name.is_some() {
            Some(text(m.name.unwrap()))
        } else {
            None
        },
{
    let a = object();
    let b = a.with("role"@, text(m.role));
    let c = b.with_text("content"@, m.content);
    let d = match m.tool_calls {
        Some(calls) => c.with("tool_calls"@, tool_calls_json(calls)),
        None => c,
    };
    let e = d.with_text("tool_call_id"@, m.tool_call_id);
    assert(found(a, wanted).is_none());
    lemma_found_after_with(a, "role"@, text(m.role), wanted);
    lemma_found_after_with_text(b, "content"@, m.content, wanted);
    if m.tool_calls.is_some() {
        lemma_found_after_with(c, "tool_calls"@, tool_calls_json(m.tool_calls.unwrap()), wanted);
    }
    lemma_found_after_with_text(d, "tool_call_id"@, m.tool_call_id, wanted);
    lemma_found_after_with_text(e, "name"@, m.name, wanted);
}

/// A message is read back as it was written.
pub proof fn lemma_message_round_trip(m: MessageView)
    ensures
        message_of(message_json(m)) == Ok::<MessageView, Seq<char>>(m),
{
    lemma_keys_differ();
    lemma_found_in_message(m, "role"@);
    lemma_found_in_message(m, "content"@);
    lemma_found_in_message(m, "tool_calls"@);
    lemma_found_in_message(m, "tool_call_id"@);
    lemma_found_in_message(m, "name"@);
    match m.tool_calls {
        Some(calls) => {
            lemma_tool_calls_round_trip(calls, calls.len());
            assert(calls.take(calls.len() as int) =~= calls);
        },
        None => {},
    }
}

/// A conversation is read back as it was written.
pub proof fn lemma_messages_round_trip(messages: Seq<MessageView>)
    ensures
        messages_of(messages_json(messages)) == Ok::<Seq<MessageView>, Seq<char>>(messages),
{
    lemma_messages_prefix_round_trip(messages, messages.len());
    assert(messages.take(messages.len() as int) =~= messages);
}

proof fn lemma_messages_prefix_round_trip(messages: Seq<MessageView>, n: nat)
    requires
        n <= messages.len(),
    ensures
        messages_json(messages) matches JsonView::Array(items) && items.len() == messages.len()
            && messages_in(items, n) == Ok::<Seq<MessageView>, Seq<char>>(messages.take(n as int)),
    decreases n,
{
    if n == 0 {
        assert(messages.take(0) =~= Seq::<MessageView>::empty());
    } else {
        lemma_messages_prefix_round_trip(messages, (n - 1) as nat);
        lemma_message_round_trip(messages[n - 1]);
        assert(messages.take(n as int) =~= messages.take(n - 1).push(messages[n - 1]));
    }
}

/// What was appended is what is read back last: after `message` was appended
/// to a conversation, the document that is written for the conversation holds
/// a list of messages whose last is `message`.
pub proof fn lemma_appended_is_read_back_last(messages: Seq<MessageView>, message: MessageView)
    ensures
        messages_of(messages_json(messages.push(message))) matches Ok(read) && read.len()
            == messages.len() + 1 && read.last() == message,
{
    lemma_messages_round_trip(messages.push(message));
}

} // verus!
