//! The shell tool: it runs commands one after the other and returns what they
//! wrote. This module decides what is run and what its outcome means; running a
//! command is the caller's part.

use crate::json::{object, text, Json, JsonView};
use crate::json_text::{custom_error, error_from_message, error_message, error_text};
use crate::registry::Tool;
use crate::text::{
    concat3, copy_texts, join, joined, lossy_text, texts_view, trim, trimmed, utf8_lossy,
};
use crate::types::{AppError, AppErrorView};
use vstd::prelude::*;
use vstd::string::*;

verus! {

/// The tool that runs shell commands.
#[derive(Debug)]
pub struct ShellTool;

/// One command: the program and its arguments.
#[derive(Debug)]
pub struct ShellCommand {
    pub command: String,
    pub args: Option<Vec<String>>,
}

pub struct ShellCommandView {
    pub command: Seq<char>,
    pub args: Option<Seq<Seq<char>>>,
}

impl View for ShellCommand {
    type V = ShellCommandView;

    open spec fn view(&self) -> ShellCommandView {
        ShellCommandView {
            command: self.command@,
            args: match self.args {
                Some(args) => Some(texts_view(args@)),
                None => None,
            },
        }
    }
}

/// The views of `commands`, in order.
pub open spec fn commands_view(commands: Seq<ShellCommand>) -> Seq<ShellCommandView> {
    Seq::new(commands.len(), |i: int| commands[i]@)
}

/// The input of the shell tool: the commands, in the order in which they run.
#[derive(Debug)]
pub struct ShellToolInput {
    pub commands: Vec<ShellCommand>,
}

/// What became of an attempt to run a command.
#[derive(Debug)]
pub enum CommandOutcome {
    /// The program ran: whether it reported success, and what it wrote.
    Ran { success: bool, stdout: Vec<u8>, stderr: Vec<u8> },
    /// There is no such program.
    NotFound,
    /// The program could not be started, for the reason given.
    Failed { error: String },
}

pub enum CommandOutcomeView {
    Ran { success: bool, stdout: Seq<u8>, stderr: Seq<u8> },
    NotFound,
    Failed { error: Seq<char> },
}

impl View for CommandOutcome {
    type V = CommandOutcomeView;

    open spec fn view(&self) -> CommandOutcomeView {
        match self {
            CommandOutcome::Ran { success, stdout, stderr } => CommandOutcomeView::Ran {
                success: *success,
                stdout: stdout@,
                stderr: stderr@,
            },
            CommandOutcome::NotFound => CommandOutcomeView::NotFound,
            CommandOutcome::Failed { error } => CommandOutcomeView::Failed { error: error@ },
        }
    }
}

/// The error of the shell tool with the given message. It is made by
/// `serde_json` and shows what that error shows.
pub open spec fn shell_error(message: Seq<char>) -> AppErrorView {
    AppErrorView::SerdeJsonError(error_text(custom_error(message)))
}

/// What the outcome of `command` means for the tool: the output of a program
/// that succeeded, white space at its ends aside; else an error that names the
/// command and says what went wrong.
pub open spec fn command_result(outcome: CommandOutcomeView, command: Seq<char>) -> Result<
    Seq<char>,
    AppErrorView,
> {
    match outcome {
        CommandOutcomeView::Ran { success, stdout, stderr } => if success {
            Ok(trimmed(lossy_text(stdout)))
        } else {
            Err(
                shell_error(
                    "Command `"@ + command + "` failed with error: "@ + trimmed(lossy_text(stderr)),
                ),
            )
        },
        CommandOutcomeView::NotFound => Err(
            shell_error(
                "Command `"@ + command
                    + "` not found. Please ensure the command exists and is in the PATH."@,
            ),
        ),
        CommandOutcomeView::Failed { error } => Err(
            shell_error("Failed to execute command `"@ + command + "` due to error: "@ + error),
        ),
    }
}

/// The view of a result of text.
pub open spec fn text_result_view(r: Result<String, AppError>) -> Result<Seq<char>, AppErrorView> {
    match r {
        Ok(s) => Ok(s@),
        Err(e) => Err(e@),
    }
}

fn shell_failure(message: &str) -> (e: AppError)
    ensures
        e@ == shell_error(message@),
{
    let error = error_from_message(message);
    AppError::SerdeJsonError(error_message(&error))
}

/// Says what the outcome of `command` means for the tool.
pub fn handle_command_output(outcome: CommandOutcome, command: &str) -> (r: Result<
    String,
    AppError,
>)
    ensures
        text_result_view(r) == command_result(outcome@, command@),
{
    match outcome {
        CommandOutcome::Ran { success, stdout, stderr } => {
            if success {
                Ok(trim(utf8_lossy(&stdout).as_str()))
            } else {
                let shown = trim(utf8_lossy(&stderr).as_str());
                let mut message = concat3("Command `", command, "` failed with error: ");
                message.append(shown.as_str());
                Err(shell_failure(message.as_str()))
            }
        },
        CommandOutcome::NotFound => {
            let message = concat3(
                "Command `",
                command,
                "` not found. Please ensure the command exists and is in the PATH.",
            );
            Err(shell_failure(message.as_str()))
        },
        CommandOutcome::Failed { error } => {
            let mut message = concat3("Failed to execute command `", command, "` due to error: ");
            message.append(error.as_str());
            Err(shell_failure(message.as_str()))
        },
    }
}

/// What a run of the shell tool asks of its caller.
#[derive(Debug)]
pub enum ShellAction {
    /// Run the program on the arguments and hand the outcome to `resume`.
    Spawn { command: String, args: Vec<String> },
    /// The run is over: the outputs, one per line, or the error that stopped it.
    Finished(Result<String, AppError>),
}

pub enum ShellActionView {
    Spawn { command: Seq<char>, args: Seq<Seq<char>> },
    Finished(Result<Seq<char>, AppErrorView>),
}

impl View for ShellAction {
    type V = ShellActionView;

    open spec fn view(&self) -> ShellActionView {
        match self {
            ShellAction::Spawn { command, args } => ShellActionView::Spawn {
                command: command@,
                args: texts_view(args@),
            },
            ShellAction::Finished(r) => ShellActionView::Finished(text_result_view(*r)),
        }
    }
}

/// The shell tool in the course of its run.
pub struct ShellRun {
    commands: Vec<ShellCommand>,
    position: usize,
    results: Vec<String>,
}

pub struct ShellRunView {
    pub commands: Seq<ShellCommandView>,
    /// How many commands have run.
    pub position: nat,
    /// What they returned.
    pub results: Seq<Seq<char>>,
}

impl View for ShellRun {
    type V = ShellRunView;

    closed spec fn view(&self) -> ShellRunView {
        ShellRunView {
            commands: commands_view(self.commands@),
            position: self.position as nat,
            results: texts_view(self.results@),
        }
    }
}

/// What a run does next: it runs the command at its position, without
/// arguments where none are given, or ends with the outputs, one per line.
pub open spec fn shell_action_at(run: ShellRunView) -> ShellActionView {
    if run.position < run.commands.len() {
        let c = run.commands[run.position as int];
        ShellActionView::Spawn {
            command: c.command,
            args: match c.args {
                Some(args) => args,
                None => Seq::empty(),
            },
        }
    } else {
        ShellActionView::Finished(Ok(joined(run.results, "\n"@)))
    }
}

impl ShellRun {
    /// Whether the run waits for the outcome of a command.
    pub open spec fn waiting(&self) -> bool {
        self@.position < self@.commands.len()
    }

    /// Whether the run waits for the outcome of a command.
    pub fn is_waiting(&self) -> (r: bool)
        ensures
            r == self.waiting(),
    {
        self.position < self.commands.len()
    }

    fn act(&self) -> (action: ShellAction)
        ensures
            action@ == shell_action_at(self@),
    {
        if self.position < self.commands.len() {
            let c = &self.commands[self.position];
            let args = match &c.args {
                Some(args) => copy_texts(args),
                None => {
                    let none: Vec<String> = Vec::new();
                    assert(texts_view(none@) =~= Seq::<Seq<char>>::empty());
                    none
                },
            };
            ShellAction::Spawn { command: c.command.clone(), args }
        } else {
            ShellAction::Finished(Ok(join(&self.results, "\n")))
        }
    }

    /// Takes the outcome of the command that the run waits for. The output of
    /// a command that succeeded is kept, and the run goes on; any other outcome
    /// ends the run with its error.
    pub fn resume(&mut self, outcome: CommandOutcome) -> (action: ShellAction)
        requires
            old(self).waiting(),
        ensures
            final(self)@.commands == old(self)@.commands,
            match command_result(
                outcome@,
                old(self)@.commands[old(self)@.position as int].command,
            ) {
                Ok(output) => {
                    &&& final(self)@.position == old(self)@.position + 1
                    &&& final(self)@.results == old(self)@.results.push(output)
                    &&& action@ == shell_action_at(final(self)@)
                },
                Err(e) => {
                    &&& final(self)@.position == old(self)@.commands.len()
                    &&& action@ == ShellActionView::Finished(Err(e))
                },
            },
    {
        let count = self.commands.len();
        match handle_command_output(outcome, self.commands[self.position].command.as_str()) {
            Ok(output) => {
                let ghost before = texts_view(self.results@);
                self.results.push(output);
                assert(texts_view(self.results@) =~= before.push(output@));
                self.position = self.position + 1;
                self.act()
            },
            Err(e) => {
                self.position = count;
                ShellAction::Finished(Err(e))
            },
        }
    }
}

/// What the schema says of the argument `commands`.
pub open spec fn commands_description() -> Seq<char> {
    "The JSON-encoded list of Linux commands to execute. Each command must have a key `command` with a String value, and an optional key `args` with an array of Strings for value. So, for example, we would represent `ls -ltrah` with {'command': 'ls', 'args': ['-ltrah']} (in proper JSON of course)"@
}

/// The schema of the shell tool's arguments: an object with the one property
/// `commands`.
pub open spec fn shell_parameters() -> JsonView {
    object().with("type"@, text("object"@)).with(
        "properties"@,
        object().with(
            "commands"@,
            object().with("type"@, text("string"@)).with(
                "description"@,
                text(commands_description()),
            ),
        ),
    )
}

impl Tool for ShellTool {
    open spec fn name_spec(&self) -> Seq<char> {
        "shell_tool"@
    }

    open spec fn description_spec(&self) -> Seq<char> {
        "Executes a list of Linux shell commands and returns their concatenated output."@
    }

    open spec fn parameters_spec(&self) -> JsonView {
        shell_parameters()
    }

    fn name(&self) -> &'static str {
        "shell_tool"
    }

    fn description(&self) -> &'static str {
        "Executes a list of Linux shell commands and returns their concatenated output."
    }

    fn parameters(&self) -> Json {
        Json::object().with("type", Json::text("object")).with(
            "properties",
            Json::object().with(
                "commands",
                Json::object().with("type", Json::text("string")).with(
                    "description",
                    Json::text(
                        "The JSON-encoded list of Linux commands to execute. Each command must have a key `command` with a String value, and an optional key `args` with an array of Strings for value. So, for example, we would represent `ls -ltrah` with {'command': 'ls', 'args': ['-ltrah']} (in proper JSON of course)",
                    ),
                ),
            ),
        )
    }
}

impl ShellTool {
    /// Begins a run of `input` and says what it does first.
    pub fn execute(&self, input: ShellToolInput) -> (r: (ShellRun, ShellAction))
        ensures
            r.0@ == (ShellRunView {
                commands: commands_view(input.commands@),
                position: 0,
                results: Seq::empty(),
            }),
            r.1@ == shell_action_at(r.0@),
    {
        let run = ShellRun { commands: input.commands, position: 0, results: Vec::new() };
        assert(texts_view(run.results@) =~= Seq::<Seq<char>>::empty());
        let action = run.act();
        (run, action)
    }
}

} // verus!
