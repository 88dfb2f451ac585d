//! The console's control commands: what a line typed by the user means.

use crate::text::{
    begins_with_ignoring_ascii_case, eq_ignore_ascii_case, same_ignoring_ascii_case,
    strip_prefix_ignore_ascii_case, trim, trimmed,
};
use crate::types::{AppError, AppErrorView};
use vstd::prelude::*;
use vstd::string::*;

verus! {

/// What the user asks for with one line of input.
#[derive(Debug, PartialEq)]
pub enum Command {
    /// End the session.
    Exit,
    /// Show the tools.
    ListTools,
    /// Continue with the stored conversation of this id.
    LoadConversation(String),
    /// Say this to the model.
    Prompt(String),
}

pub enum CommandView {
    Exit,
    ListTools,
    LoadConversation(Seq<char>),
    Prompt(Seq<char>),
}

impl View for Command {
    type V = CommandView;

    open spec fn view(&self) -> CommandView {
        match self {
            Command::Exit => CommandView::Exit,
            Command::ListTools => CommandView::ListTools,
            Command::LoadConversation(id) => CommandView::LoadConversation(id@),
            Command::Prompt(text) => CommandView::Prompt(text@),
        }
    }
}

/// The reader of control commands.
#[derive(Debug)]
pub struct CommandHandler;

/// What a line means, white space at its ends aside. `exit` and `quit` end the
/// session, `list tools` shows the tools, and `load`, a blank and an id names
/// the conversation of that id; the case of the letters does not matter. The
/// word `load` alone is an error. Any other line is a prompt for the model.
pub open spec fn command_of(line: Seq<char>) -> Result<CommandView, AppErrorView> {
    let input = trimmed(line);
    if same_ignoring_ascii_case(input, "exit"@) || same_ignoring_ascii_case(input, "quit"@) {
        Ok(CommandView::Exit)
    } else if same_ignoring_ascii_case(input, "list tools"@) {
        Ok(CommandView::ListTools)
    } else if begins_with_ignoring_ascii_case(input, "load "@) {
        Ok(CommandView::LoadConversation(input.skip("load "@.len() as int)))
    } else if same_ignoring_ascii_case(input, "load"@) {
        Err(AppErrorView::CommandError("Invalid load command"@))
    } else {
        Ok(CommandView::Prompt(input))
    }
}

/// The view of a parsed line.
pub open spec fn command_result_view(r: Result<Command, AppError>) -> Result<
    CommandView,
    AppErrorView,
> {
    match r {
        Ok(c) => Ok(c@),
        Err(e) => Err(e@),
    }
}

/// The prompt before the user's line: the tokens used so far, then `User:`.
pub open spec fn user_prompt_text(tokens: Seq<char>) -> Seq<char> {
    "["@ + tokens + "] User: "@
}

/// Whether the answer at the approval gate is a yes: the letter `y`, in either
/// case, white space at its ends aside.
pub open spec fn is_yes(answer: Seq<char>) -> bool {
    same_ignoring_ascii_case(trimmed(answer), "y"@)
}

impl CommandHandler {
    /// Reads the command in a line typed by the user.
    pub fn read_user_command(line: &str) -> (r: Result<Command, AppError>)
        ensures
            command_result_view(r) == command_of(line@),
    {
        let input = trim(line);
        if eq_ignore_ascii_case(input.as_str(), "exit") || eq_ignore_ascii_case(
            input.as_str(),
            "quit",
        ) {
            Ok(Command::Exit)
        } else if eq_ignore_ascii_case(input.as_str(), "list tools") {
            Ok(Command::ListTools)
        } else {
            match strip_prefix_ignore_ascii_case(input.as_str(), "load ") {
                Some(id) => Ok(Command::LoadConversation(id)),
                None => if eq_ignore_ascii_case(input.as_str(), "load") {
                    Err(AppError::CommandError("Invalid load command".to_string()))
                } else {
                    Ok(Command::Prompt(input))
                },
            }
        }
    }

    /// Whether the user's answer at the approval gate lets the tool run.
    pub fn is_approval(answer: &str) -> (r: bool)
        ensures
            r == is_yes(answer@),
    {
        let t = trim(answer);
        eq_ignore_ascii_case(t.as_str(), "y")
    }
}

} // verus!
