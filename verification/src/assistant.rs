//! The orchestration loop as a state machine. The assistant takes what happened
//! (the model answered, the user decided, a tool returned, the user typed a
//! line) and says what is to be done next; whoever drives it does those things
//! and reports back.

use crate::command::{command_of, is_yes, user_prompt_text, Command, CommandHandler, CommandView};
use crate::conversation::{
    conversation_path, ConversationManager, ConversationView, Snapshot, SnapshotView,
};
use crate::json::{Json, JsonView};
use crate::json_text::{
    error_text, json_text_pretty, parse_json, parsed_json, to_text_pretty,
};
use crate::registry::{
    has_tool, listing_text, manifest, not_found_text, selected, ToolEntryView, ToolInvocation,
    ToolInvocationView, ToolRegistry,
};
use crate::text::{concat2, concat3, decimal_text, opt_text, push_decimal};
use crate::types::{
    calls_view, copy_calls, messages_view, plain_message, tool_message, AppError, AppErrorView,
    Message, MessageView, OpenAIResponse, ToolCall, ToolCallView,
};
use crate::wire::{completion_payload, payload_json};
use vstd::prelude::*;
use vstd::string::*;

verus! {

/// The colour in which a text is shown on the console.
#[derive(Debug, Clone, Copy, PartialEq, Eq, Structural)]
pub enum Color {
    Cyan,
    DarkMagenta,
    Red,
    DarkRed,
    DarkGreen,
    Yellow,
    Blue,
}

/// Where the session stands: what the assistant waits for.
#[derive(Debug, Clone, Copy, PartialEq, Eq, Structural)]
pub enum Phase {
    /// The session has not begun.
    NotStarted,
    /// Awaiting completion: the model was asked, with the tools on offer.
    AwaitingCompletion,
    /// Awaiting completion: the model was asked to sum up the tool results,
    /// with no tools on offer.
    AwaitingSummary,
    /// Handling tool calls: the user was asked whether the call may run.
    AwaitingApproval,
    /// Handling tool calls: the tool runs.
    AwaitingToolResult,
    /// Awaiting user input.
    AwaitingUserInput,
    /// Awaiting user input: a stored conversation is being fetched.
    AwaitingConversation,
    /// The session is over.
    Exit,
}

/// What the assistant asks of its driver. The driver does the actions of a
/// list in their order; the last one tells it what to report back.
#[derive(Debug)]
pub enum Action {
    /// Write the conversation out, in place of what the file held.
    Persist(Snapshot),
    /// Show the text in the colour.
    Print { text: String, color: Color },
    /// Send the body of a completion request to the model and report its
    /// response.
    RequestCompletion { payload: Json },
    /// Show the prompt of the approval gate and report the user's answer.
    RequestApproval { prompt: String },
    /// Run the tool and report its outcome.
    ExecuteTool(ToolInvocation),
    /// Show the prompt and report the line that the user types.
    ReadUserInput { prompt: String },
    /// Fetch the stored conversation and report its messages.
    LoadConversation { id: String, path: String },
    /// End the session.
    Exit,
    /// End the session with the error.
    Fail(AppError),
}

pub enum ActionView {
    Persist(SnapshotView),
    Print { text: Seq<char>, color: Color },
    RequestCompletion { payload: JsonView },
    RequestApproval { prompt: Seq<char> },
    ExecuteTool(ToolInvocationView),
    ReadUserInput { prompt: Seq<char> },
    LoadConversation { id: Seq<char>, path: Seq<char> },
    Exit,
    Fail(AppErrorView),
}

impl View for Action {
    type V = ActionView;

    open spec fn view(&self) -> ActionView {
        match self {
            Action::Persist(s) => ActionView::Persist(s@),
            Action::Print { text, color } => ActionView::Print { text: text@, color: *color },
            Action::RequestCompletion { payload } => ActionView::RequestCompletion {
                payload: payload@,
            },
            Action::RequestApproval { prompt } => ActionView::RequestApproval { prompt: prompt@ },
            Action::ExecuteTool(inv) => ActionView::ExecuteTool(inv@),
            Action::ReadUserInput { prompt } => ActionView::ReadUserInput { prompt: prompt@ },
            Action::LoadConversation { id, path } => ActionView::LoadConversation {
                id: id@,
                path: path@,
            },
            Action::Exit => ActionView::Exit,
            Action::Fail(e) => ActionView::Fail(e@),
        }
    }
}

/// The views of `actions`, in order.
pub open spec fn actions_view(actions: Seq<Action>) -> Seq<ActionView> {
    Seq::new(actions.len(), |i: int| actions[i]@)
}

/// The assistant: the conversation, the tools, and where the session stands.
pub struct Assistant {
    conversation_manager: ConversationManager,
    tool_registry: ToolRegistry,
    model: String,
    tokens: u32,
    phase: Phase,
    pending: Vec<ToolCall>,
    cursor: usize,
}

/// The mathematical value of an [`Assistant`].
pub struct AssistantView {
    pub conversation: ConversationView,
    pub registry: Seq<ToolEntryView>,
    /// The model that is asked.
    pub model: Seq<char>,
    /// The tokens that the last response reported.
    pub tokens: u32,
    pub phase: Phase,
    /// The tool calls of the assistant message that is being handled.
    pub pending: Seq<ToolCallView>,
    /// How many of them have been answered.
    pub cursor: nat,
}

/// A step of the machine: the state it leads to and what it asks for.
pub struct Step {
    pub state: AssistantView,
    pub actions: Seq<ActionView>,
}

/// The prompt of the approval gate: the tool's name and its arguments.
pub open spec fn approval_prompt(name: Seq<char>, arguments: Seq<char>) -> Seq<char> {
    "\n"@ + name + "("@ + arguments + ") ? (y/n) "@
}

/// The content of the tool-result message for a call that the user rejected:
/// the same text whatever the call.
pub open spec fn rejection_text() -> Seq<char> {
    "User rejected tool call"@
}

/// The notice for a call that the user rejected.
pub open spec fn rejection_notice(call: ToolCallView) -> Seq<char> {
    "User rejected tool call: "@ + call.debug_text()
}

/// The notice for a call that returned `result`.
pub open spec fn success_notice(call: ToolCallView, result: Seq<char>) -> Seq<char> {
    call.debug_text() + "\n=>\n"@ + result + "\n"@
}

/// The notice for a call that failed with an error of the text `error`.
pub open spec fn failure_notice(call: ToolCallView, error: Seq<char>) -> Seq<char> {
    "Error executing tool call: "@ + call.debug_text() + "\n=>\n"@ + error
}

/// How the model's reply is shown.
pub open spec fn reply_text(content: Seq<char>) -> Seq<char> {
    "Assistant: "@ + content + "\n"@
}

impl AssistantView {
    /// The request to the model: the model's name, the whole conversation,
    /// and the manifest where tools are on offer.
    pub open spec fn completion_request(self, with_tools: bool) -> ActionView {
        ActionView::RequestCompletion {
            payload: payload_json(
                self.model,
                self.conversation.messages,
                if with_tools {
                    Some(manifest(self.registry))
                } else {
                    None
                },
            ),
        }
    }

    /// The request for the user's next line.
    pub open spec fn input_request(self) -> ActionView {
        ActionView::ReadUserInput { prompt: user_prompt_text(decimal_text(self.tokens as nat)) }
    }

    /// The session ends with `error`.
    pub open spec fn failed(self, error: AppErrorView) -> Step {
        Step {
            state: AssistantView { phase: Phase::Exit, ..self },
            actions: seq![ActionView::Fail(error)],
        }
    }

    /// The tool call that is being handled.
    pub open spec fn current_call(self) -> ToolCallView {
        self.pending[self.cursor as int]
    }

    /// Turns to the call at the cursor. Where every call is answered, the
    /// model is asked to sum up, with no tools on offer. Otherwise the call's
    /// arguments are read; arguments that are no JSON end the session;
    /// else the user is asked whether the call may run.
    pub open spec fn begin_call(self) -> Step {
        if self.cursor >= self.pending.len() {
            Step {
                state: AssistantView { phase: Phase::AwaitingSummary, ..self },
                actions: seq![self.completion_request(false)],
            }
        } else {
            let call = self.current_call();
            match parsed_json(call.function.arguments) {
                Err(e) => self.failed(AppErrorView::SerdeJsonError(error_text(e))),
                Ok(args) => match json_text_pretty(args) {
                    Err(e) => self.failed(AppErrorView::SerdeJsonError(error_text(e))),
                    Ok(pretty) => Step {
                        state: AssistantView { phase: Phase::AwaitingApproval, ..self },
                        actions: seq![
                            ActionView::RequestApproval {
                                prompt: approval_prompt(call.function.name, pretty),
                            },
                        ],
                    },
                },
            }
        }
    }

    /// Answers the call at the cursor with `content`: the notice is shown, the
    /// tool-result message is appended and written out, and the next call has
    /// its turn.
    pub open spec fn finish_call(self, content: Seq<char>, notice: ActionView) -> Step {
        let conversation = self.conversation.appended(tool_message(self.current_call(), content));
        let next = (AssistantView { conversation, cursor: self.cursor + 1, ..self }).begin_call();
        Step {
            state: next.state,
            actions: seq![notice, ActionView::Persist(conversation.persisted())] + next.actions,
        }
    }

    /// The session begins: the conversation is opened and the model is asked.
    pub open spec fn started(
        self,
        system_prompt: Seq<char>,
        state: Option<Seq<char>>,
        initial_prompt: Seq<char>,
    ) -> Step {
        match self.conversation.initialized(system_prompt, state, initial_prompt) {
            Ok(conversation) => {
                let state = AssistantView {
                    conversation,
                    phase: Phase::AwaitingCompletion,
                    ..self
                };
                Step {
                    state,
                    actions: seq![
                        ActionView::Persist(conversation.persisted()),
                        state.completion_request(true),
                    ],
                }
            },
            Err(e) => self.failed(e),
        }
    }

    /// The model answered with `message`. The message is appended and written
    /// out. Tool calls in an answer to a request that offered tools are handled
    /// one by one, from the first one on; otherwise the content, where there is
    /// one, is shown, and the user has the word.
    pub open spec fn answered(self, message: MessageView, total_tokens: u32) -> Step {
        let conversation = self.conversation.appended(message);
        let persist = ActionView::Persist(conversation.persisted());
        let state = AssistantView { conversation, tokens: total_tokens, ..self };
        if self.phase == Phase::AwaitingCompletion && message.tool_calls.is_some() {
            let next = (AssistantView {
                pending: message.tool_calls.unwrap(),
                cursor: 0,
                ..state
            }).begin_call();
            Step { state: next.state, actions: seq![persist] + next.actions }
        } else {
            let state = AssistantView { phase: Phase::AwaitingUserInput, ..state };
            let shown = match message.content {
                Some(content) => seq![
                    ActionView::Print { text: reply_text(content), color: Color::Cyan },
                ],
                None => Seq::empty(),
            };
            Step { state, actions: seq![persist] + shown + seq![state.input_request()] }
        }
    }

    /// The user answered at the approval gate. The call's arguments are read
    /// first; arguments that are no JSON end the session. A yes selects the
    /// tool: a registered tool is run; a name that selects none is answered
    /// with the registry's error. Anything but a yes runs nothing and is
    /// answered with the rejection text.
    pub open spec fn decided(self, answer: Seq<char>) -> Step {
        let call = self.current_call();
        match parsed_json(call.function.arguments) {
            Err(e) => self.failed(AppErrorView::SerdeJsonError(error_text(e))),
            Ok(args) => if is_yes(answer) {
                match selected(self.registry, call.function.name, args) {
                    Ok(inv) => Step {
                        state: AssistantView { phase: Phase::AwaitingToolResult, ..self },
                        actions: seq![ActionView::ExecuteTool(inv)],
                    },
                    Err(e) => self.finish_call(
                        e.text(),
                        ActionView::Print {
                            text: failure_notice(call, e.text()),
                            color: Color::Red,
                        },
                    ),
                }
            } else {
                self.finish_call(
                    rejection_text(),
                    ActionView::Print { text: rejection_notice(call), color: Color::DarkRed },
                )
            },
        }
    }

    /// The tool returned. Its output, or the text of its error, answers the
    /// call; an error does not end the session.
    pub open spec fn tool_returned(self, outcome: Result<Seq<char>, AppErrorView>) -> Step {
        let call = self.current_call();
        match outcome {
            Ok(result) => self.finish_call(
                result,
                ActionView::Print {
                    text: success_notice(call, result),
                    color: Color::DarkMagenta,
                },
            ),
            Err(e) => self.finish_call(
                e.text(),
                ActionView::Print { text: failure_notice(call, e.text()), color: Color::Red },
            ),
        }
    }

    /// The user typed `line`. A control command is carried out and is no
    /// message; a line that is no command is the user's message, and the model
    /// is asked; a command that cannot be read changes nothing.
    pub open spec fn typed(self, line: Seq<char>) -> Step {
        match command_of(line) {
            Err(_) => Step { state: self, actions: seq![self.input_request()] },
            Ok(CommandView::Exit) => Step {
                state: AssistantView { phase: Phase::Exit, ..self },
                actions: seq![ActionView::Exit],
            },
            Ok(CommandView::ListTools) => Step {
                state: self,
                actions: seq![
                    ActionView::Print {
                        text: listing_text(self.registry),
                        color: Color::DarkGreen,
                    },
                    self.input_request(),
                ],
            },
            Ok(CommandView::LoadConversation(id)) => Step {
                state: AssistantView { phase: Phase::AwaitingConversation, ..self },
                actions: seq![ActionView::LoadConversation { id, path: conversation_path(id) }],
            },
            Ok(CommandView::Prompt(prompt)) => {
                let conversation = self.conversation.appended(plain_message("user"@, prompt));
                let state = AssistantView {
                    conversation,
                    phase: Phase::AwaitingCompletion,
                    ..self
                };
                Step {
                    state,
                    actions: seq![
                        ActionView::Persist(conversation.persisted()),
                        state.completion_request(true),
                    ],
                }
            },
        }
    }

    /// The stored conversation `id` was fetched. Its messages take the place
    /// of the conversation; a failure to fetch it ends the session.
    pub open spec fn fetched(
        self,
        id: Seq<char>,
        outcome: Result<Seq<MessageView>, AppErrorView>,
    ) -> Step {
        match outcome {
            Ok(messages) => {
                let state = AssistantView {
                    conversation: self.conversation.loaded(id, messages),
                    phase: Phase::AwaitingUserInput,
                    ..self
                };
                Step {
                    state,
                    actions: seq![
                        ActionView::Print {
                            text: "Successfully loaded conversation "@ + id + "\n"@,
                            color: Color::DarkMagenta,
                        },
                        state.input_request(),
                    ],
                }
            },
            Err(e) => self.failed(e),
        }
    }
}

/// Whether `message` is the tool-result message for `call`.
pub open spec fn answers(message: MessageView, call: ToolCallView) -> bool {
    message.role == "tool"@ && message.tool_call_id == Some(call.id) && message.tool_calls.is_none()
}

impl AssistantView {
    /// Whether tool calls are being handled, or have just been.
    pub open spec fn handling(self) -> bool {
        self.phase == Phase::AwaitingApproval || self.phase == Phase::AwaitingToolResult
            || self.phase == Phase::AwaitingSummary
    }

    /// The conversation ends with the assistant message that holds the pending
    /// calls and, after it, one tool-result message for each call before the
    /// cursor, in the order of the calls, and nothing else.
    pub open spec fn answers_in_order(self) -> bool {
        let messages = self.conversation.messages;
        let first = messages.len() - self.cursor;
        &&& self.cursor <= self.pending.len()
        &&& first >= 1
        &&& messages[first - 1].tool_calls == Some(self.pending)
        &&& forall|j: int|
            0 <= j < self.cursor ==> answers(#[trigger] messages[first + j], self.pending[j])
    }

    /// What holds of every state of a session: while tool calls are handled,
    /// each call before the cursor has its one answer; once the model is
    /// asked to sum up, every call has; and a call at the approval gate has
    /// arguments that are JSON.
    pub open spec fn inv(self) -> bool {
        &&& self.handling() ==> self.answers_in_order()
        &&& self.phase == Phase::AwaitingSummary ==> self.cursor == self.pending.len()
        &&& (self.phase == Phase::AwaitingApproval || self.phase == Phase::AwaitingToolResult)
            ==> self.cursor < self.pending.len()
        &&& self.phase == Phase::AwaitingApproval ==> parsed_json(
            self.current_call().function.arguments,
        ).is_ok()
    }
}

/// Turning to the next call keeps the answers in place.
pub proof fn lemma_begin_call_keeps_inv(s: AssistantView)
    requires
        s.answers_in_order(),
    ensures
        s.begin_call().state.inv(),
        s.begin_call().state.conversation == s.conversation,
        forall|i: int|
            0 <= i < s.begin_call().actions.len() ==> !(#[trigger] s.begin_call().actions[i]
                is ExecuteTool),
{
}

/// Answering the call in turn keeps the answers in place, and runs nothing.
pub proof fn lemma_finish_call_keeps_inv(s: AssistantView, content: Seq<char>, notice: ActionView)
    requires
        s.answers_in_order(),
        s.cursor < s.pending.len(),
        !(notice is ExecuteTool),
    ensures
        s.finish_call(content, notice).state.inv(),
        s.finish_call(content, notice).state.conversation.messages == s.conversation.messages.push(
            tool_message(s.current_call(), content),
        ),
        forall|i: int|
            0 <= i < s.finish_call(content, notice).actions.len() ==> !(#[trigger] s.finish_call(
                content,
                notice,
            ).actions[i] is ExecuteTool),
{
    let conversation = s.conversation.appended(tool_message(s.current_call(), content));
    let next = AssistantView { conversation, cursor: s.cursor + 1, ..s };
    let old_messages = s.conversation.messages;
    let messages = next.conversation.messages;
    let first = messages.len() - next.cursor;
    assert(first == old_messages.len() - s.cursor);
    assert forall|j: int| 0 <= j < next.cursor implies answers(
        #[trigger] messages[first + j],
        next.pending[j],
    ) by {
        if j < s.cursor {
            assert(messages[first + j] == old_messages[first + j]);
        }
    }
    assert(messages[first - 1] == old_messages[first - 1]);
    assert(next.answers_in_order());
    lemma_begin_call_keeps_inv(next);
}

/// The invariant holds after the model's answer: the calls of the message are
/// pending, and none is answered yet.
pub proof fn lemma_answered_keeps_inv(s: AssistantView, message: MessageView, total_tokens: u32)
    requires
        s.phase == Phase::AwaitingCompletion || s.phase == Phase::AwaitingSummary,
    ensures
        s.answered(message, total_tokens).state.inv(),
{
    if s.phase == Phase::AwaitingCompletion && message.tool_calls.is_some() {
        let conversation = s.conversation.appended(message);
        let state = AssistantView {
            conversation,
            tokens: total_tokens,
            pending: message.tool_calls.unwrap(),
            cursor: 0,
            ..s
        };
        assert(state.answers_in_order());
        lemma_begin_call_keeps_inv(state);
    }
}

/// The invariant holds after the user's answer at the approval gate.
pub proof fn lemma_decided_keeps_inv(s: AssistantView, answer: Seq<char>)
    requires
        s.inv(),
        s.phase == Phase::AwaitingApproval,
    ensures
        s.decided(answer).state.inv(),
{
    let call = s.current_call();
    match parsed_json(call.function.arguments) {
        Err(e) => {},
        Ok(args) => {
            if is_yes(answer) {
                match selected(s.registry, call.function.name, args) {
                    Ok(inv) => {},
                    Err(e) => {
                        lemma_finish_call_keeps_inv(
                            s,
                            e.text(),
                            ActionView::Print {
                                text: failure_notice(call, e.text()),
                                color: Color::Red,
                            },
                        );
                    },
                }
            } else {
                lemma_finish_call_keeps_inv(
                    s,
                    rejection_text(),
                    ActionView::Print { text: rejection_notice(call), color: Color::DarkRed },
                );
            }
        },
    }
}

/// The invariant holds after a tool returned.
pub proof fn lemma_tool_returned_keeps_inv(
    s: AssistantView,
    outcome: Result<Seq<char>, AppErrorView>,
)
    requires
        s.inv(),
        s.phase == Phase::AwaitingToolResult,
    ensures
        s.tool_returned(outcome).state.inv(),
{
    let call = s.current_call();
    match outcome {
        Ok(result) => {
            lemma_finish_call_keeps_inv(
                s,
                result,
                ActionView::Print {
                    text: success_notice(call, result),
                    color: Color::DarkMagenta,
                },
            );
        },
        Err(e) => {
            lemma_finish_call_keeps_inv(
                s,
                e.text(),
                ActionView::Print { text: failure_notice(call, e.text()), color: Color::Red },
            );
        },
    }
}

/// Whether a step wrote the conversation out as it left it, or left it as it
/// was.
pub open spec fn written_through(step: Step, before: ConversationView) -> bool {
    step.state.conversation == before || exists|i: int|
        0 <= i < step.actions.len() && #[trigger] step.actions[i] == ActionView::Persist(
            step.state.conversation.persisted(),
        )
}

/// The conversation is written through: whatever step appends a message asks
/// for the whole conversation to be written out as the step leaves it. (A
/// conversation that was fetched from its file is not written back.)
pub proof fn lemma_conversation_is_written_through(
    s: AssistantView,
    system_prompt: Seq<char>,
    state: Option<Seq<char>>,
    initial_prompt: Seq<char>,
    message: MessageView,
    total_tokens: u32,
    answer: Seq<char>,
    outcome: Result<Seq<char>, AppErrorView>,
    line: Seq<char>,
)
    ensures
        written_through(s.started(system_prompt, state, initial_prompt), s.conversation),
        written_through(s.answered(message, total_tokens), s.conversation),
        written_through(s.decided(answer), s.conversation),
        written_through(s.tool_returned(outcome), s.conversation),
        written_through(s.typed(line), s.conversation),
{
    let started = s.started(system_prompt, state, initial_prompt);
    if started.state.conversation != s.conversation {
        assert(started.actions[0] == ActionView::Persist(started.state.conversation.persisted()));
    }
    let answered = s.answered(message, total_tokens);
    assert(answered.actions[0] == ActionView::Persist(answered.state.conversation.persisted()));
    let decided = s.decided(answer);
    if decided.state.conversation != s.conversation {
        assert(decided.actions[1] == ActionView::Persist(decided.state.conversation.persisted()));
    }
    let returned = s.tool_returned(outcome);
    assert(returned.actions[1] == ActionView::Persist(returned.state.conversation.persisted()));
    let typed = s.typed(line);
    if typed.state.conversation != s.conversation {
        assert(typed.actions[0] == ActionView::Persist(typed.state.conversation.persisted()));
    }
}

/// A tool that fails does not end the session: its error answers the call, as
/// the content of the tool-result message, and the session goes on with the
/// next call or with the model's summary.
pub proof fn lemma_tool_failure_is_answered(s: AssistantView, error: AppErrorView)
    requires
        s.inv(),
        s.phase == Phase::AwaitingToolResult,
    ensures
        s.tool_returned(Err(error)).state.conversation.messages == s.conversation.messages.push(
            tool_message(s.current_call(), error.text()),
        ),
        s.tool_returned(Err(error)).state == (AssistantView {
            conversation: s.conversation.appended(tool_message(s.current_call(), error.text())),
            cursor: s.cursor + 1,
            ..s
        }).begin_call().state,
        !(s.tool_returned(Err(error)).actions[0] is Fail),
{
    let call = s.current_call();
    lemma_finish_call_keeps_inv(
        s,
        error.text(),
        ActionView::Print { text: failure_notice(call, error.text()), color: Color::Red },
    );
}

/// A rejected tool call runs nothing: whatever the user answers but a yes, no
/// action of the step runs a tool, and the conversation grows by the one
/// tool-result message that carries the id of the call and, as its content,
/// the rejection text, which is the same for every call.
pub proof fn lemma_rejected_call_runs_nothing(s: AssistantView, answer: Seq<char>)
    requires
        s.inv(),
        s.phase == Phase::AwaitingApproval,
        !is_yes(answer),
    ensures
        forall|i: int|
            0 <= i < s.decided(answer).actions.len() ==> !(#[trigger] s.decided(answer).actions[i]
                is ExecuteTool),
        s.decided(answer).state.phase != Phase::AwaitingToolResult,
        s.decided(answer).state.conversation.messages == s.conversation.messages.push(
            tool_message(s.current_call(), rejection_text()),
        ),
        answers(tool_message(s.current_call(), rejection_text()), s.current_call()),
        tool_message(s.current_call(), rejection_text()).content == Some(rejection_text()),
{
    let call = s.current_call();
    lemma_finish_call_keeps_inv(
        s,
        rejection_text(),
        ActionView::Print { text: rejection_notice(call), color: Color::DarkRed },
    );
}

/// A call of a tool that is not registered runs nothing: though the user said
/// yes, no action of the step runs a tool, and the call is answered with the
/// registry's error.
pub proof fn lemma_unknown_tool_runs_nothing(s: AssistantView, answer: Seq<char>)
    requires
        s.inv(),
        s.phase == Phase::AwaitingApproval,
        !has_tool(s.registry, s.current_call().function.name),
    ensures
        forall|i: int|
            0 <= i < s.decided(answer).actions.len() ==> !(#[trigger] s.decided(answer).actions[i]
                is ExecuteTool),
        s.decided(answer).state.phase != Phase::AwaitingToolResult,
        is_yes(answer) ==> s.decided(answer).state.conversation.messages
            == s.conversation.messages.push(
            tool_message(
                s.current_call(),
                AppErrorView::CommandError(
                    not_found_text(s.current_call().function.name),
                ).text(),
            ),
        ),
{
    let call = s.current_call();
    if is_yes(answer) {
        let e = AppErrorView::CommandError(not_found_text(call.function.name));
        lemma_finish_call_keeps_inv(
            s,
            e.text(),
            ActionView::Print { text: failure_notice(call, e.text()), color: Color::Red },
        );
    } else {
        lemma_rejected_call_runs_nothing(s, answer);
    }
}

/// Every call is answered before the model is asked again: in a state that
/// waits for the model's summary, the conversation that was sent ends with the
/// assistant message that holds the calls and then, for each call in its
/// order, the one tool-result message with the call's id.
pub proof fn lemma_summary_follows_answers(s: AssistantView)
    requires
        s.inv(),
        s.phase == Phase::AwaitingSummary,
    ensures
        ({
            let messages = s.conversation.messages;
            let first = messages.len() - s.pending.len();
            &&& first >= 1
            &&& messages[first - 1].tool_calls == Some(s.pending)
            &&& forall|j: int|
                0 <= j < s.pending.len() ==> answers(#[trigger] messages[first + j], s.pending[j])
        }),
{
}

impl View for Assistant {
    type V = AssistantView;

    closed spec fn view(&self) -> AssistantView {
        AssistantView {
            conversation: self.conversation_manager@,
            registry: self.tool_registry@,
            model: self.model@,
            tokens: self.tokens,
            phase: self.phase,
            pending: calls_view(self.pending@),
            cursor: self.cursor as nat,
        }
    }
}

/// The view of a list with one more action is the view of the list with that
/// action's view at its end.
pub proof fn lemma_actions_push(actions: Seq<Action>, action: Action)
    ensures
        actions_view(actions.push(action)) == actions_view(actions).push(action@),
{
    assert(actions_view(actions.push(action)) =~= actions_view(actions).push(action@));
}

/// The view of two lists in a row is their views in a row.
pub proof fn lemma_actions_concat(first: Seq<Action>, second: Seq<Action>)
    ensures
        actions_view(first + second) == actions_view(first) + actions_view(second),
{
    assert(actions_view(first + second) =~= actions_view(first) + actions_view(second));
}

impl Assistant {
    /// Well-formed: the state is one that a session can be in.
    pub open spec fn wf(&self) -> bool {
        self@.inv()
    }

    /// An assistant with the given tools for the given model, before its
    /// session: the conversation is empty and knows the manifest and the
    /// schemas of the tools.
    pub fn new(tool_registry: ToolRegistry, model: String) -> (a: Assistant)
        ensures
            a.wf(),
            a@.registry == tool_registry@,
            a@.model == model@,
            a@.phase == Phase::NotStarted,
            a@.tokens == 0,
            a@.pending == Seq::<ToolCallView>::empty(),
            a@.cursor == 0,
            a@.conversation == (ConversationView {
                messages: Seq::empty(),
                tools_json: manifest(tool_registry@),
                tools_schema: crate::registry::schemas_text(tool_registry@),
                conversation_id: "filler"@,
            }),
    {
        let tools_json = tool_registry.generate_tools_json();
        let tools_schema = tool_registry.generate_tools_schemas();
        let a = Assistant {
            conversation_manager: ConversationManager::new(tools_json, tools_schema),
            tool_registry,
            model,
            tokens: 0,
            phase: Phase::NotStarted,
            pending: Vec::new(),
            cursor: 0,
        };
        assert(calls_view(a.pending@) =~= Seq::<ToolCallView>::empty());
        a
    }

    /// Where the session stands.
    pub fn phase(&self) -> (p: Phase)
        ensures
            p == self@.phase,
    {
        self.phase
    }

    /// The tokens that the last response reported.
    pub fn tokens(&self) -> (t: u32)
        ensures
            t == self@.tokens,
    {
        self.tokens
    }

    /// The conversation.
    pub fn conversation(&self) -> (c: &ConversationManager)
        ensures
            c@ == self@.conversation,
    {
        &self.conversation_manager
    }

    /// The tools.
    pub fn registry(&self) -> (r: &ToolRegistry)
        ensures
            r@ == self@.registry,
    {
        &self.tool_registry
    }

    fn completion_request(&self, with_tools: bool) -> (a: Action)
        ensures
            a@ == self@.completion_request(with_tools),
    {
        let messages = self.conversation_manager.messages();
        let payload = if with_tools {
            let manifest = self.tool_registry.generate_tools_json();
            completion_payload(self.model.as_str(), messages, Some(&manifest))
        } else {
            completion_payload(self.model.as_str(), messages, None)
        };
        Action::RequestCompletion { payload }
    }

    fn input_request(&self) -> (a: Action)
        ensures
            a@ == self@.input_request(),
    {
        let mut prompt = "[".to_string();
        push_decimal(&mut prompt, self.tokens);
        prompt.append("] User: ");
        Action::ReadUserInput { prompt }
    }

    fn fail(&mut self, error: AppError) -> (actions: Vec<Action>)
        ensures
            final(self)@ == old(self)@.failed(error@).state,
            actions_view(actions@) == old(self)@.failed(error@).actions,
    {
        self.phase = Phase::Exit;
        let actions = vec![Action::Fail(error)];
        assert(actions_view(actions@) =~= seq![ActionView::Fail(error@)]);
        actions
    }

    fn begin_call(&mut self) -> (actions: Vec<Action>)
        requires
            old(self)@.answers_in_order(),
        ensures
            final(self)@ == old(self)@.begin_call().state,
            actions_view(actions@) == old(self)@.begin_call().actions,
            final(self).wf(),
    {
        proof {
            lemma_begin_call_keeps_inv(self@);
        }
        if self.cursor >= self.pending.len() {
            let request = self.completion_request(false);
            self.phase = Phase::AwaitingSummary;
            let actions = vec![request];
            assert(actions_view(actions@) =~= seq![request@]);
            actions
        } else {
            let parsed = parse_json(self.pending[self.cursor].function.arguments.as_str());
            match parsed {
                Err(e) => self.fail(AppError::from_json_error(e)),
                Ok(args) => match to_text_pretty(&args) {
                    Err(e) => self.fail(AppError::from_json_error(e)),
                    Ok(pretty) => {
                        let mut prompt = "\n".to_string();
                        prompt.append(self.pending[self.cursor].function.name.as_str());
                        prompt.append("(");
                        prompt.append(pretty.as_str());
                        prompt.append(") ? (y/n) ");
                        self.phase = Phase::AwaitingApproval;
                        let request = Action::RequestApproval { prompt };
                        let actions = vec![request];
                        assert(actions_view(actions@) =~= seq![request@]);
                        actions
                    },
                },
            }
        }
    }

    fn finish_call(&mut self, content: String, notice: Action) -> (actions: Vec<Action>)
        requires
            old(self).cursor < old(self).pending@.len(),
            old(self)@.answers_in_order(),
            !(notice@ is ExecuteTool),
        ensures
            final(self)@ == old(self)@.finish_call(content@, notice@).state,
            actions_view(actions@) == old(self)@.finish_call(content@, notice@).actions,
            final(self).wf(),
    {
        proof {
            lemma_finish_call_keeps_inv(self@, content@, notice@);
        }
        let count = self.pending.len();
        assert(self.cursor < count);
        let message = Message::tool_result(&self.pending[self.cursor], content);
        let snapshot = self.conversation_manager.add_message(message);
        self.cursor = self.cursor + 1;
        let persist = Action::Persist(snapshot);
        let mut actions = vec![notice, persist];
        let ghost head = actions@;
        assert(actions_view(head) =~= seq![notice@, persist@]);
        proof {
            let conversation = old(self)@.conversation.appended(
                tool_message(old(self)@.current_call(), content@),
            );
            let next = AssistantView { conversation, cursor: old(self)@.cursor + 1, ..old(self)@ };
            assert(self@ == next);
            let old_messages = old(self)@.conversation.messages;
            let messages = next.conversation.messages;
            let first = messages.len() - next.cursor;
            assert forall|j: int| 0 <= j < next.cursor implies answers(
                #[trigger] messages[first + j],
                next.pending[j],
            ) by {
                if j < old(self)@.cursor {
                    assert(messages[first + j] == old_messages[first + j]);
                }
            }
            assert(messages[first - 1] == old_messages[first - 1]);
        }
        let mut rest = self.begin_call();
        let ghost tail = rest@;
        actions.append(&mut rest);
        proof {
            lemma_actions_concat(head, tail);
        }
        actions
    }

    /// Begins the session: opens the conversation with the system message and
    /// the user's first prompt, and asks the model.
    pub fn run(
        &mut self,
        system_prompt: String,
        state: Option<String>,
        initial_prompt: String,
    ) -> (actions: Vec<Action>)
        requires
            old(self)@.phase == Phase::NotStarted,
        ensures
            final(self)@ == old(self)@.started(
                system_prompt@,
                opt_text(state),
                initial_prompt@,
            ).state,
            actions_view(actions@) == old(self)@.started(
                system_prompt@,
                opt_text(state),
                initial_prompt@,
            ).actions,
            final(self).wf(),
    {
        match self.conversation_manager.initialize_conversation(
            system_prompt,
            state,
            initial_prompt,
        ) {
            Ok(snapshot) => {
                self.phase = Phase::AwaitingCompletion;
                let persist = Action::Persist(snapshot);
                let request = self.completion_request(true);
                let actions = vec![persist, request];
                assert(actions_view(actions@) =~= seq![persist@, request@]);
                actions
            },
            Err(e) => self.fail(e),
        }
    }

    /// Takes the model's response: its first choice is the assistant's message.
    pub fn get_response(&mut self, response: OpenAIResponse) -> (actions: Vec<Action>)
        requires
            old(self)@.phase == Phase::AwaitingCompletion || old(self)@.phase
                == Phase::AwaitingSummary,
            response.choices@.len() > 0,
        ensures
            final(self)@ == old(self)@.answered(
                response.choices@[0].message@,
                response.usage.total_tokens,
            ).state,
            actions_view(actions@) == old(self)@.answered(
                response.choices@[0].message@,
                response.usage.total_tokens,
            ).actions,
            final(self).wf(),
    {
        let message = response.choices[0].message.copy();
        let offered = self.phase == Phase::AwaitingCompletion;
        self.tokens = response.usage.total_tokens;
        let content = crate::text::copy_opt(&message.content);
        let calls = match &message.tool_calls {
            Some(calls) => Some(copy_calls(calls)),
            None => None,
        };
        let snapshot = self.conversation_manager.add_message(message);
        let persist = Action::Persist(snapshot);
        let mut actions = vec![persist];
        let ghost head = actions@;
        assert(actions_view(head) =~= seq![persist@]);
        match calls {
            Some(calls) if offered => {
                self.pending = calls;
                self.cursor = 0;
                assert(self@.answers_in_order());
                let mut rest = self.begin_call();
                let ghost tail = rest@;
                actions.append(&mut rest);
                proof {
                    lemma_actions_concat(head, tail);
                }
                actions
            },
            _ => {
                self.phase = Phase::AwaitingUserInput;
                match content {
                    Some(text) => {
                        let shown = Action::Print {
                            text: concat3("Assistant: ", text.as_str(), "\n"),
                            color: Color::Cyan,
                        };
                        proof {
                            lemma_actions_push(actions@, shown);
                        }
                        actions.push(shown);
                    },
                    None => {},
                }
                let request = self.input_request();
                proof {
                    lemma_actions_push(actions@, request);
                }
                actions.push(request);
                assert(actions_view(actions@) =~= old(self)@.answered(
                    response.choices@[0].message@,
                    response.usage.total_tokens,
                ).actions);
                actions
            },
        }
    }

    /// Takes the user's answer at the approval gate for the call in turn.
    pub fn handle_tool_call(&mut self, answer: &str) -> (actions: Vec<Action>)
        requires
            old(self).wf(),
            old(self)@.phase == Phase::AwaitingApproval,
        ensures
            final(self)@ == old(self)@.decided(answer@).state,
            actions_view(actions@) == old(self)@.decided(answer@).actions,
            final(self).wf(),
    {
        let parsed = parse_json(self.pending[self.cursor].function.arguments.as_str());
        match parsed {
            Err(e) => self.fail(AppError::from_json_error(e)),
            Ok(args) => {
                if CommandHandler::is_approval(answer) {
                    let selection = self.tool_registry.execute_tool(
                        self.pending[self.cursor].function.name.as_str(),
                        args,
                    );
                    match selection {
                        Ok(inv) => {
                            self.phase = Phase::AwaitingToolResult;
                            let order = Action::ExecuteTool(inv);
                            let actions = vec![order];
                            assert(actions_view(actions@) =~= seq![order@]);
                            actions
                        },
                        Err(e) => {
                            let text = e.to_string();
                            let notice = self.failure_notice(text.as_str());
                            self.finish_call(text, notice)
                        },
                    }
                } else {
                    let shown = concat2(
                        "User rejected tool call: ",
                        self.pending[self.cursor].debug_text().as_str(),
                    );
                    let notice = Action::Print { text: shown, color: Color::DarkRed };
                    self.finish_call("User rejected tool call".to_string(), notice)
                }
            },
        }
    }

    /// Takes the failure of the completion request: the session ends with
    /// the error.
    pub fn completion_failed(&mut self, error: AppError) -> (actions: Vec<Action>)
        requires
            old(self)@.phase == Phase::AwaitingCompletion || old(self)@.phase
                == Phase::AwaitingSummary,
        ensures
            final(self)@ == old(self)@.failed(error@).state,
            actions_view(actions@) == old(self)@.failed(error@).actions,
            final(self).wf(),
    {
        self.fail(error)
    }

    fn failure_notice(&self, error: &str) -> (a: Action)
        requires
            self.cursor < self.pending@.len(),
        ensures
            a@ == (ActionView::Print {
                text: failure_notice(self@.current_call(), error@),
                color: Color::Red,
            }),
    {
        let mut text = "Error executing tool call: ".to_string();
        text.append(self.pending[self.cursor].debug_text().as_str());
        text.append("\n=>\n");
        text.append(error);
        Action::Print { text, color: Color::Red }
    }

    /// Takes the outcome of the tool that was run for the call in turn.
    pub fn tool_finished(&mut self, outcome: Result<String, AppError>) -> (actions: Vec<Action>)
        requires
            old(self).wf(),
            old(self)@.phase == Phase::AwaitingToolResult,
        ensures
            final(self)@ == old(self)@.tool_returned(outcome_view(outcome)).state,
            actions_view(actions@) == old(self)@.tool_returned(outcome_view(outcome)).actions,
            final(self).wf(),
    {
        match outcome {
            Ok(result) => {
                let mut text = self.pending[self.cursor].debug_text();
                text.append("\n=>\n");
                text.append(result.as_str());
                text.append("\n");
                let notice = Action::Print { text, color: Color::DarkMagenta };
                self.finish_call(result, notice)
            },
            Err(e) => {
                let text = e.to_string();
                let notice = self.failure_notice(text.as_str());
                self.finish_call(text, notice)
            },
        }
    }

    /// Takes the stored conversation that was fetched on the user's command.
    pub fn conversation_loaded(
        &mut self,
        id: String,
        outcome: Result<Vec<Message>, AppError>,
    ) -> (actions: Vec<Action>)
        requires
            old(self)@.phase == Phase::AwaitingConversation,
        ensures
            final(self)@ == old(self)@.fetched(id@, messages_outcome_view(outcome)).state,
            actions_view(actions@) == old(self)@.fetched(
                id@,
                messages_outcome_view(outcome),
            ).actions,
            final(self).wf(),
    {
        match outcome {
            Ok(messages) => {
                let notice = self.conversation_manager.load_conversation(id, messages);
                self.phase = Phase::AwaitingUserInput;
                let shown = Action::Print { text: notice, color: Color::DarkMagenta };
                let request = self.input_request();
                let actions = vec![shown, request];
                assert(actions_view(actions@) =~= seq![shown@, request@]);
                actions
            },
            Err(e) => self.fail(e),
        }
    }
}

/// The view of a tool's outcome.
pub open spec fn outcome_view(outcome: Result<String, AppError>) -> Result<
    Seq<char>,
    AppErrorView,
> {
    match outcome {
        Ok(s) => Ok(s@),
        Err(e) => Err(e@),
    }
}

/// The view of a fetched conversation.
pub open spec fn messages_outcome_view(outcome: Result<Vec<Message>, AppError>) -> Result<
    Seq<MessageView>,
    AppErrorView,
> {
    match outcome {
        Ok(m) => Ok(messages_view(m@)),
        Err(e) => Err(e@),
    }
}

impl CommandHandler {
    /// Takes the line that the user typed at the prompt.
    pub fn get_user_prompt(assistant: &mut Assistant, line: &str) -> (actions: Vec<Action>)
        requires
            old(assistant)@.phase == Phase::AwaitingUserInput,
        ensures
            final(assistant)@ == old(assistant)@.typed(line@).state,
            actions_view(actions@) == old(assistant)@.typed(line@).actions,
            final(assistant).wf(),
    {
        match CommandHandler::read_user_command(line) {
            Err(_) => {
                let request = assistant.input_request();
                let actions = vec![request];
                assert(actions_view(actions@) =~= seq![request@]);
                actions
            },
            Ok(Command::Exit) => {
                assistant.phase = Phase::Exit;
                let actions = vec![Action::Exit];
                assert(actions_view(actions@) =~= seq![ActionView::Exit]);
                actions
            },
            Ok(Command::ListTools) => {
                let shown = Action::Print {
                    text: assistant.tool_registry.list_tools(),
                    color: Color::DarkGreen,
                };
                let request = assistant.input_request();
                let actions = vec![shown, request];
                assert(actions_view(actions@) =~= seq![shown@, request@]);
                actions
            },
            Ok(Command::LoadConversation(id)) => {
                assistant.phase = Phase::AwaitingConversation;
                let path = concat3("conversations/", id.as_str(), ".json");
                let fetch = Action::LoadConversation { id, path };
                let actions = vec![fetch];
                assert(actions_view(actions@) =~= seq![fetch@]);
                actions
            },
            Ok(Command::Prompt(prompt)) => {
                let snapshot = assistant.conversation_manager.add_user_prompt(prompt);
                assistant.phase = Phase::AwaitingCompletion;
                let persist = Action::Persist(snapshot);
                let request = assistant.completion_request(true);
                let actions = vec![persist, request];
                assert(actions_view(actions@) =~= seq![persist@, request@]);
                actions
            },
        }
    }
}

} // verus!
