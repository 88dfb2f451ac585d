//! The two tools of the first design, selected by the name of a function.

use crate::json::{array, find_member, member_named, object, text, Json, JsonView};
use crate::json_text::{error_text, parse_json, parsed_json};
use crate::text::same_text;
use crate::types::{AppError, AppErrorView};
use vstd::prelude::*;
use vstd::string::*;

verus! {

/// The functions that the model can call.
#[derive(Debug, Clone, Copy, PartialEq, Eq, Structural)]
pub enum ToolFunction {
    ExecuteLinuxCommands,
    GetSnapshot,
}

/// The function of the given name.
pub open spec fn tool_function_named(name: Seq<char>) -> Option<ToolFunction> {
    if name == "execute_linux_commands"@ {
        Some(ToolFunction::ExecuteLinuxCommands)
    } else if name == "get_snapshot"@ {
        Some(ToolFunction::GetSnapshot)
    } else {
        None
    }
}

/// The function of the given name; `None` for a name of no function.
pub fn get_tool_function_from_name(name: &str) -> (r: Option<ToolFunction>)
    ensures
        r == tool_function_named(name@),
{
    if same_text(name, "execute_linux_commands") {
        Some(ToolFunction::ExecuteLinuxCommands)
    } else if same_text(name, "get_snapshot") {
        Some(ToolFunction::GetSnapshot)
    } else {
        None
    }
}

/// What a call of a function asks for.
#[derive(Debug, PartialEq)]
pub enum ToolFunctionPlan {
    /// Run the commands of this list, which is JSON text.
    RunCommands(String),
    /// Take a snapshot of the project.
    TakeSnapshot,
}

pub enum ToolFunctionPlanView {
    RunCommands(Seq<char>),
    TakeSnapshot,
}

impl View for ToolFunctionPlan {
    type V = ToolFunctionPlanView;

    open spec fn view(&self) -> ToolFunctionPlanView {
        match self {
            ToolFunctionPlan::RunCommands(list) => ToolFunctionPlanView::RunCommands(list@),
            ToolFunctionPlan::TakeSnapshot => ToolFunctionPlanView::TakeSnapshot,
        }
    }
}

/// What a call of `function` with the arguments `args` asks for. The commands
/// to run are the string under `commands` in the arguments, which are JSON
/// text; arguments without such a string are an error. A snapshot takes no
/// arguments and reads none.
pub open spec fn planned(function: ToolFunction, args: Seq<char>) -> Result<
    ToolFunctionPlanView,
    AppErrorView,
> {
    match function {
        ToolFunction::GetSnapshot => Ok(ToolFunctionPlanView::TakeSnapshot),
        ToolFunction::ExecuteLinuxCommands => match parsed_json(args) {
            Err(e) => Err(AppErrorView::SerdeJsonError(error_text(e))),
            Ok(JsonView::Object(members)) => match member_named(members, "commands"@) {
                Some(JsonView::String(list)) => Ok(ToolFunctionPlanView::RunCommands(list)),
                _ => Err(commands_error()),
            },
            Ok(_) => Err(commands_error()),
        },
    }
}

/// The error for arguments without a string under `commands`.
pub open spec fn commands_error() -> AppErrorView {
    AppErrorView::CommandError("commands argument to execute_linux_commands must be a string"@)
}

/// The view of a plan that may have failed.
pub open spec fn plan_result_view(r: Result<ToolFunctionPlan, AppError>) -> Result<
    ToolFunctionPlanView,
    AppErrorView,
> {
    match r {
        Ok(p) => Ok(p@),
        Err(e) => Err(e@),
    }
}

impl ToolFunction {
    /// Says what a call of the function with the arguments `args` asks for.
    pub fn execute(&self, args: &str) -> (r: Result<ToolFunctionPlan, AppError>)
        ensures
            plan_result_view(r) == planned(*self, args@),
    {
        match self {
            ToolFunction::GetSnapshot => Ok(ToolFunctionPlan::TakeSnapshot),
            ToolFunction::ExecuteLinuxCommands => {
                let failure = AppError::CommandError(
                    "commands argument to execute_linux_commands must be a string".to_string(),
                );
                match parse_json(args) {
                    Err(e) => Err(AppError::from_json_error(e)),
                    Ok(Json::Object(members)) => {
                        proof {
                            crate::json::lemma_object_view(members);
                        }
                        match find_member(&members, "commands") {
                            Some(i) => match &members[i].value {
                                Json::String(list) => Ok(
                                    ToolFunctionPlan::RunCommands(list.clone()),
                                ),
                                _ => Err(failure),
                            },
                            None => Err(failure),
                        }
                    },
                    Ok(_) => Err(failure),
                }
            },
        }
    }
}

/// How a function is advertised to the model.
pub open spec fn function_entry(
    name: Seq<char>,
    description: Seq<char>,
    parameters: JsonView,
) -> JsonView {
    object().with("type"@, text("function"@)).with(
        "function"@,
        object().with("name"@, text(name)).with("description"@, text(description)).with(
            "parameters"@,
            parameters,
        ),
    )
}

/// The manifest of the two functions.
pub open spec fn tools_json() -> JsonView {
    array().and(
        function_entry(
            "execute_linux_commands"@,
            "Execute a list of Linux commands in the shell and return their concatenated output"@,
            object().with("type"@, text("object"@)).with(
                "properties"@,
                object().with(
                    "commands"@,
                    object().with("type"@, text("string"@)).with(
                        "description"@,
                        text(crate::shell_tool::commands_description()),
                    ),
                ),
            ).with("required"@, array().and(text("commands"@))),
        ),
    ).and(
        function_entry(
            "get_snapshot"@,
            "Return the formatted source code of the current project"@,
            object().with("type"@, text("object"@)).with("properties"@, object()),
        ),
    )
}

fn entry(name: &str, description: &str, parameters: Json) -> (r: Json)
    ensures
        r@ == function_entry(name@, description@, parameters@),
{
    Json::object().with("type", Json::text("function")).with(
        "function",
        Json::object().with("name", Json::text(name)).with(
            "description",
            Json::text(description),
        ).with("parameters", parameters),
    )
}

/// The manifest of the two functions.
pub fn get_tools_json() -> (r: Json)
    ensures
        r@ == tools_json(),
{
    Json::array().and(
        entry(
            "execute_linux_commands",
            "Execute a list of Linux commands in the shell and return their concatenated output",
            Json::object().with("type", Json::text("object")).with(
                "properties",
                Json::object().with(
                    "commands",
                    Json::object().with("type", Json::text("string")).with(
                        "description",
                        Json::text(
                            "The JSON-encoded list of Linux commands to execute. Each command must have a key `command` with a String value, and an optional key `args` with an array of Strings for value. So, for example, we would represent `ls -ltrah` with {'command': 'ls', 'args': ['-ltrah']} (in proper JSON of course)",
                        ),
                    ),
                ),
            ).with("required", Json::array().and(Json::text("commands"))),
        ),
    ).and(
        entry(
            "get_snapshot",
            "Return the formatted source code of the current project",
            Json::object().with("type", Json::text("object")).with("properties", Json::object()),
        ),
    )
}

} // verus!
