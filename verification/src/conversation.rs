//! The conversation: an append-only list of messages that is written out in
//! full whenever it changes.

use crate::json::{Json, JsonView};
use crate::json_text::{error_text, json_text, to_text};
use crate::text::concat3;
use crate::types::{
    copy_messages, messages_view, plain_message, AppError, AppErrorView, Message, MessageView,
};
use crate::wire::{
    conversation_text, lemma_messages_round_trip, messages_json, messages_of, messages_to_text,
    written_view,
};
use vstd::prelude::*;
use vstd::string::*;

verus! {

/// What is to be written after a change: the whole conversation, and the file
/// that holds it.
#[derive(Debug)]
pub struct Snapshot {
    pub path: String,
    pub messages: Vec<Message>,
}

pub struct SnapshotView {
    pub path: Seq<char>,
    pub messages: Seq<MessageView>,
}

impl View for Snapshot {
    type V = SnapshotView;

    open spec fn view(&self) -> SnapshotView {
        SnapshotView { path: self.path@, messages: messages_view(self.messages@) }
    }
}

impl Snapshot {
    /// The text to write: the conversation as JSON.
    pub fn to_text(&self) -> (r: Result<String, AppError>)
        ensures
            written_view(r) == conversation_text(self@.messages),
    {
        messages_to_text(&self.messages)
    }
}

/// The messages of one conversation, with what the first message tells the model
/// about the tools.
pub struct ConversationManager {
    pub messages: Vec<Message>,
    tools_json: Json,
    tools_schema: String,
    conversation_id: String,
}

/// The mathematical value of a [`ConversationManager`].
pub struct ConversationView {
    pub messages: Seq<MessageView>,
    pub tools_json: JsonView,
    pub tools_schema: Seq<char>,
    pub conversation_id: Seq<char>,
}

impl View for ConversationManager {
    type V = ConversationView;

    closed spec fn view(&self) -> ConversationView {
        ConversationView {
            messages: messages_view(self.messages@),
            tools_json: self.tools_json@,
            tools_schema: self.tools_schema@,
            conversation_id: self.conversation_id@,
        }
    }
}

/// The file that holds the conversation `id`.
pub open spec fn conversation_path(id: Seq<char>) -> Seq<char> {
    "conversations/"@ + id + ".json"@
}

/// The text of the system message: the system prompt; the project's source
/// where there is one to show; the manifest; the argument schemas.
pub open spec fn system_text(
    prompt: Seq<char>,
    state: Option<Seq<char>>,
    manifest: Seq<char>,
    schemas: Seq<char>,
) -> Seq<char> {
    let shown = match state {
        Some(source) => prompt + "\nHere is the current project source code:\n"@ + source,
        None => prompt,
    };
    shown + "\ntools JSON:\n"@ + manifest + "\ntools JSON schemas:\n"@ + schemas
}

impl ConversationView {
    /// The conversation with `message` at its end.
    pub open spec fn appended(self, message: MessageView) -> ConversationView {
        ConversationView { messages: self.messages.push(message), ..self }
    }

    /// What is written out for the conversation.
    pub open spec fn persisted(self) -> SnapshotView {
        SnapshotView { path: conversation_path(self.conversation_id), messages: self.messages }
    }

    /// The conversation after the stored conversation `id` took its place.
    pub open spec fn loaded(self, id: Seq<char>, messages: Seq<MessageView>) -> ConversationView {
        ConversationView { messages, conversation_id: id, ..self }
    }

    /// The conversation after its two opening messages were appended: the
    /// system message and the user's first prompt. `None` where the manifest
    /// cannot be written as text.
    pub open spec fn initialized(
        self,
        prompt: Seq<char>,
        state: Option<Seq<char>>,
        first: Seq<char>,
    ) -> Result<ConversationView, AppErrorView> {
        match json_text(self.tools_json) {
            Ok(manifest) => Ok(
                self.appended(
                    plain_message("system"@, system_text(prompt, state, manifest, self.tools_schema)),
                ).appended(plain_message("user"@, first)),
            ),
            Err(e) => Err(AppErrorView::SerdeJsonError(error_text(e))),
        }
    }
}

/// The view of a snapshot that may have failed.
pub open spec fn snapshot_result_view(r: Result<Snapshot, AppError>) -> Result<
    SnapshotView,
    AppErrorView,
> {
    match r {
        Ok(s) => Ok(s@),
        Err(e) => Err(e@),
    }
}

impl ConversationManager {
    /// An empty conversation under the id `filler`.
    pub fn new(tools_json: Json, tools_schema: String) -> (c: ConversationManager)
        ensures
            c@ == (ConversationView {
                messages: Seq::empty(),
                tools_json: tools_json@,
                tools_schema: tools_schema@,
                conversation_id: "filler"@,
            }),
    {
        let c = ConversationManager {
            messages: Vec::new(),
            tools_json,
            tools_schema,
            conversation_id: "filler".to_string(),
        };
        assert(messages_view(c.messages@) =~= Seq::<MessageView>::empty());
        c
    }

    /// What is to be written for the conversation as it stands.
    pub fn snapshot(&self) -> (s: Snapshot)
        ensures
            s@ == self@.persisted(),
    {
        Snapshot {
            path: concat3("conversations/", self.conversation_id.as_str(), ".json"),
            messages: copy_messages(&self.messages),
        }
    }

    /// Appends `message` and hands back what is to be written.
    pub fn add_message(&mut self, message: Message) -> (s: Snapshot)
        ensures
            final(self)@ == old(self)@.appended(message@),
            s@ == final(self)@.persisted(),
    {
        let ghost before = messages_view(self.messages@);
        self.messages.push(message);
        assert(messages_view(self.messages@) =~= before.push(message@));
        self.snapshot()
    }

    /// Appends the user's prompt and hands back what is to be written.
    pub fn add_user_prompt(&mut self, prompt: String) -> (s: Snapshot)
        ensures
            final(self)@ == old(self)@.appended(plain_message("user"@, prompt@)),
            s@ == final(self)@.persisted(),
    {
        self.add_message(Message::new("user".to_string(), prompt))
    }

    /// Opens the conversation with the system message and the user's first
    /// prompt, and hands back what is to be written. `system_prompt` is the
    /// system prompt, `state` the project's source where it is to be shown.
    pub fn initialize_conversation(
        &mut self,
        system_prompt: String,
        state: Option<String>,
        initial_prompt: String,
    ) -> (r: Result<Snapshot, AppError>)
        ensures
            match old(self)@.initialized(
                system_prompt@,
                crate::text::opt_text(state),
                initial_prompt@,
            ) {
                Ok(c) => final(self)@ == c && snapshot_result_view(r) == Ok::<
                    SnapshotView,
                    AppErrorView,
                >(c.persisted()),
                Err(e) => final(self)@ == old(self)@ && snapshot_result_view(r) == Err::<
                    SnapshotView,
                    AppErrorView,
                >(e),
            },
    {
        let manifest = match to_text(&self.tools_json) {
            Ok(text) => text,
            Err(e) => {
                return Err(AppError::from_json_error(e));
            },
        };
        let mut text = system_prompt;
        match state {
            Some(source) => {
                text.append("\nHere is the current project source code:\n");
                text.append(source.as_str());
            },
            None => {},
        }
        text.append("\ntools JSON:\n");
        text.append(manifest.as_str());
        text.append("\ntools JSON schemas:\n");
        text.append(self.tools_schema.as_str());
        self.add_message(Message::new("system".to_string(), text));
        Ok(self.add_message(Message::new("user".to_string(), initial_prompt)))
    }

    /// Puts the stored conversation `conversation_id` in the place of this
    /// one, and hands back the notice for the console.
    pub fn load_conversation(&mut self, conversation_id: String, messages: Vec<Message>) -> (notice:
        String)
        ensures
            final(self)@ == old(self)@.loaded(conversation_id@, messages_view(messages@)),
            notice@ == "Successfully loaded conversation "@ + conversation_id@ + "\n"@,
    {
        let notice = concat3("Successfully loaded conversation ", conversation_id.as_str(), "\n");
        self.messages = messages;
        self.conversation_id = conversation_id;
        notice
    }

    /// The messages so far.
    pub fn messages(&self) -> (m: &Vec<Message>)
        ensures
            messages_view(m@) == self@.messages,
    {
        &self.messages
    }

    /// The id of the conversation.
    pub fn conversation_id(&self) -> (id: &String)
        ensures
            id@ == self@.conversation_id,
    {
        &self.conversation_id
    }
}

/// What was appended is what a reload ends with: after `message` was appended,
/// the document that is written for the conversation holds a list of messages,
/// and loading that list, into whatever conversation, gives one whose last
/// message is `message`.
pub proof fn lemma_reload_ends_with_appended(
    c: ConversationView,
    message: MessageView,
    other: ConversationView,
)
    ensures
        c.appended(message).persisted().path == conversation_path(c.conversation_id),
        messages_of(messages_json(c.appended(message).persisted().messages)) matches Ok(read)
            && read == c.messages.push(message) && other.loaded(
            c.conversation_id,
            read,
        ).messages.last() == message,
{
    lemma_messages_round_trip(c.messages.push(message));
}

} // verus!
