//! The completion tool: it asks the model on behalf of the model, in a
//! conversation of its own. This module prepares the request; sending it is the
//! caller's part.

use crate::conversation::{ConversationManager, Snapshot, SnapshotView};
use crate::json::{object, text, Json, JsonView};
use crate::registry::{manifest, Tool, ToolRegistry};
use crate::types::{plain_message, AppError, AppErrorView, Message, MessageView};
use crate::wire::{completion_payload, payload_json};
use vstd::prelude::*;
use vstd::string::*;

verus! {

/// The tool that asks the model.
#[derive(Debug)]
pub struct GptTool;

/// One message of the tool's input.
#[derive(Debug)]
pub struct GptMessage {
    pub role: String,
    pub content: String,
}

pub struct GptMessageView {
    pub role: Seq<char>,
    pub content: Seq<char>,
}

impl View for GptMessage {
    type V = GptMessageView;

    open spec fn view(&self) -> GptMessageView {
        GptMessageView { role: self.role@, content: self.content@ }
    }
}

/// The views of `messages`, in order.
pub open spec fn gpt_messages_view(messages: Seq<GptMessage>) -> Seq<GptMessageView> {
    Seq::new(messages.len(), |i: int| messages[i]@)
}

/// The input of the completion tool.
#[derive(Debug)]
pub struct GptToolInput {
    pub include_tools: bool,
    pub messages: Vec<GptMessage>,
    pub model: String,
}

/// The request that the tool has the caller send.
#[derive(Debug)]
pub struct GptRequest {
    /// The body of the completion request.
    pub payload: Json,
    /// What is to be written for the conversation; `None` where it is empty.
    pub snapshot: Option<Snapshot>,
}

/// The conversation that the input's messages make: each one a message with a
/// role and a content.
pub open spec fn request_messages(messages: Seq<GptMessageView>) -> Seq<MessageView> {
    Seq::new(messages.len(), |i: int| plain_message(messages[i].role, messages[i].content))
}

/// The name of the variable that holds the key of the completion service.
pub open spec fn api_key_variable() -> Seq<char> {
    "OPENAI_API_KEY"@
}

/// The schema of the completion tool's arguments.
pub open spec fn gpt_parameters() -> JsonView {
    object().with("type"@, text("object"@)).with(
        "properties"@,
        object().with(
            "include_tools"@,
            object().with("type"@, text("boolean"@)).with(
                "description"@,
                text("Whether or not to allow for tool calls, either `true` or `false`"@),
            ),
        ).with(
            "model"@,
            object().with("type"@, text("string"@)).with(
                "description"@,
                text(
                    "GPT model to use, options are: `gpt-4-1106-preview`, `gpt-4`, `gpt-3.5-turbo`"@,
                ),
            ),
        ).with(
            "messages"@,
            object().with("type"@, text("string"@)).with(
                "description"@,
                text(
                    "The array of messages in our ChatCompletion. This value MUST be JSON. Each message has a key `role` with value in (`user`, `assistant`, `system`) and a key `content` with string value."@,
                ),
            ),
        ),
    )
}

impl Tool for GptTool {
    open spec fn name_spec(&self) -> Seq<char> {
        "gpt_tool"@
    }

    open spec fn description_spec(&self) -> Seq<char> {
        "Get a response from a new ChatCompletion via the OpenAI API"@
    }

    open spec fn parameters_spec(&self) -> JsonView {
        gpt_parameters()
    }

    fn name(&self) -> &'static str {
        "gpt_tool"
    }

    fn description(&self) -> &'static str {
        "Get a response from a new ChatCompletion via the OpenAI API"
    }

    fn parameters(&self) -> Json {
        Json::object().with("type", Json::text("object")).with(
            "properties",
            Json::object().with(
                "include_tools",
                Json::object().with("type", Json::text("boolean")).with(
                    "description",
                    Json::text("Whether or not to allow for tool calls, either `true` or `false`"),
                ),
            ).with(
                "model",
                Json::object().with("type", Json::text("string")).with(
                    "description",
                    Json::text(
                        "GPT model to use, options are: `gpt-4-1106-preview`, `gpt-4`, `gpt-3.5-turbo`",
                    ),
                ),
            ).with(
                "messages",
                Json::object().with("type", Json::text("string")).with(
                    "description",
                    Json::text(
                        "The array of messages in our ChatCompletion. This value MUST be JSON. Each message has a key `role` with value in (`user`, `assistant`, `system`) and a key `content` with string value.",
                    ),
                ),
            ),
        )
    }
}

impl GptTool {
    /// The error for a session without a key for the completion service.
    pub fn missing_api_key() -> (e: AppError)
        ensures
            e@ == AppErrorView::MissingEnvironmentVariable(api_key_variable()),
    {
        AppError::MissingEnvironmentVariable("OPENAI_API_KEY".to_string())
    }

    /// Prepares the request for `input`: a conversation of its own with the
    /// input's messages, and the manifest of `registry` where the input asks
    /// for tools.
    pub fn execute(&self, input: GptToolInput, registry: &ToolRegistry) -> (r: GptRequest)
        ensures
            r.payload@ == payload_json(
                input.model@,
                request_messages(gpt_messages_view(input.messages@)),
                if input.include_tools {
                    Some(manifest(registry@))
                } else {
                    None
                },
            ),
            match r.snapshot {
                Some(s) => input.messages@.len() > 0 && s@ == (SnapshotView {
                    path: crate::conversation::conversation_path("filler"@),
                    messages: request_messages(gpt_messages_view(input.messages@)),
                }),
                None => input.messages@.len() == 0,
            },
    {
        let tools_json = registry.generate_tools_json();
        let mut manager = ConversationManager::new(tools_json, registry.generate_tools_schemas());
        let ghost wanted = request_messages(gpt_messages_view(input.messages@));
        let mut snapshot: Option<Snapshot> = None;
        let mut i: usize = 0;
        while i < input.messages.len()
            invariant
                i <= input.messages@.len(),
                wanted == request_messages(gpt_messages_view(input.messages@)),
                manager@.messages == wanted.take(i as int),
                manager@.conversation_id == "filler"@,
                match snapshot {
                    Some(s) => i > 0 && s@ == manager@.persisted(),
                    None => i == 0,
                },
            decreases input.messages@.len() - i,
        {
            let m = &input.messages[i];
            let written = manager.add_message(Message::new(m.role.clone(), m.content.clone()));
            snapshot = Some(written);
            assert(wanted.take(i + 1) =~= wanted.take(i as int).push(wanted[i as int]));
            i += 1;
        }
        assert(wanted.take(wanted.len() as int) =~= wanted);
        let payload = if input.include_tools {
            let manifest = registry.generate_tools_json();
            completion_payload(input.model.as_str(), manager.messages(), Some(&manifest))
        } else {
            completion_payload(input.model.as_str(), manager.messages(), None)
        };
        GptRequest { payload, snapshot }
    }
}

} // verus!
