use rtool::file_tool::FileTool;
use rtool::json::{Json, Member};
use rtool::registry::{Tool, ToolRegistry};
use rtool::shell_tool::ShellTool;
use rtool::snap_tool::SnapTool;
use rtool::tool_function::{
    get_tool_function_from_name, get_tools_json, ToolFunction, ToolFunctionPlan,
};
use rtool::types::AppError;

fn three_tools() -> ToolRegistry {
    let mut registry = ToolRegistry::new();
    registry.register(&ShellTool, String::from("{\"shell\":1}"));
    registry.register(&SnapTool, String::from("{\"snap\":2}"));
    registry.register(&FileTool, String::from("{\"file\":3}"));
    registry
}

fn get<'a>(doc: &'a Json, key: &str) -> &'a Json {
    match doc {
        Json::Object(members) => &members.iter().find(|m| m.key == key).unwrap().value,
        other => panic!("no object: {:?}", other),
    }
}

#[test]
fn unregistered_name_selects_nothing() {
    let empty = ToolRegistry::new();
    let registry = three_tools();
    for (registry, name) in
        [(&empty, "shell_tool"), (&registry, "Shell_tool"), (&registry, "shell_tool "), (&registry, "")]
    {
        assert!(!registry.contains(name));
        match registry.execute_tool(name, Json::Null) {
            Err(AppError::CommandError(message)) => {
                assert_eq!(message, format!("Tool `{}` not found", name))
            }
            other => panic!("unexpected selection: {:?}", other),
        }
    }
    assert_eq!(
        empty.execute_tool("x", Json::Null).unwrap_err().to_string(),
        "Error with command: Tool `x` not found"
    );
}

#[test]
fn registered_name_selects_its_tool_with_the_arguments() {
    let registry = three_tools();
    let args = Json::Object(vec![Member { key: String::from("k"), value: Json::Bool(true) }]);
    let invocation = registry.execute_tool("snap_tool", args.copy()).unwrap();
    assert_eq!(invocation.tool, "snap_tool");
    assert_eq!(invocation.args, args);
}

#[test]
fn registering_a_name_again_replaces_the_tool_in_its_place() {
    let mut registry = three_tools();
    assert_eq!(registry.len(), 3);
    registry.register(&SnapTool, String::from("{\"snap\":\"new\"}"));
    assert_eq!(registry.len(), 3);
    assert_eq!(
        registry.generate_tools_schemas(),
        "shell_tool schena:\n{\"shell\":1}\n\nsnap_tool schena:\n{\"snap\":\"new\"}\n\nfile_tool schena:\n{\"file\":3}\n\n"
    );
}

#[test]
fn listing_names_each_tool_on_its_line() {
    assert_eq!(ToolRegistry::new().list_tools(), "Available Tools:\n\n");
    assert_eq!(ToolRegistry::new().generate_tools_schemas(), "");
    assert_eq!(
        three_tools().list_tools(),
        "Available Tools:\n\nshell_tool - Executes a list of Linux shell commands and returns their concatenated output.\nsnap_tool - Return the formatted source code of the current project, including Cargo.toml and all .rs files\nfile_tool - Performs file operations such as create, delete, and update on files.\n"
    );
}

#[test]
fn manifest_advertises_each_tool_as_a_function() {
    assert_eq!(ToolRegistry::new().generate_tools_json(), Json::Array(Vec::new()));
    let manifest = three_tools().generate_tools_json();
    let entries = match &manifest {
        Json::Array(entries) => entries,
        other => panic!("no array: {:?}", other),
    };
    assert_eq!(entries.len(), 3);
    let tools: [&dyn Tool; 3] = [&ShellTool, &SnapTool, &FileTool];
    for (entry, tool) in entries.iter().zip(tools) {
        assert_eq!(get(entry, "type"), &Json::String(String::from("function")));
        let function = get(entry, "function");
        assert_eq!(get(function, "name"), &Json::String(tool.name().to_string()));
        assert_eq!(get(function, "description"), &Json::String(tool.description().to_string()));
        assert_eq!(get(function, "parameters"), &tool.parameters());
    }
}

#[test]
fn functions_of_the_first_design_are_found_by_name() {
    assert_eq!(get_tool_function_from_name("execute_linux_commands"), Some(ToolFunction::ExecuteLinuxCommands));
    assert_eq!(get_tool_function_from_name("get_snapshot"), Some(ToolFunction::GetSnapshot));
    assert_eq!(get_tool_function_from_name("get_snapshots"), None);
    assert_eq!(get_tool_function_from_name("Get_snapshot"), None);
    assert_eq!(get_tool_function_from_name(""), None);
    let manifest = get_tools_json();
    let entries = match &manifest {
        Json::Array(entries) => entries,
        other => panic!("no array: {:?}", other),
    };
    assert_eq!(entries.len(), 2);
    assert_eq!(
        get(get(&entries[0], "function"), "name"),
        &Json::String(String::from("execute_linux_commands"))
    );
    assert_eq!(
        get(get(get(&entries[0], "function"), "parameters"), "required"),
        &Json::Array(vec![Json::String(String::from("commands"))])
    );
    assert_eq!(
        get(get(&entries[1], "function"), "description"),
        &Json::String(String::from("Return the formatted source code of the current project"))
    );
}

#[test]
fn call_of_a_function_says_what_it_asks_for() {
    let run = ToolFunction::ExecuteLinuxCommands;
    assert_eq!(
        run.execute(r#"{"commands": "[{\"command\": \"ls\"}]", "other": 1}"#).unwrap(),
        ToolFunctionPlan::RunCommands(String::from(r#"[{"command": "ls"}]"#))
    );
    for args in [r#"{"commands": [{"command": "ls"}]}"#, r#"{"command": "x"}"#, "{}", "[]", "\"commands\"", "null"] {
        match run.execute(args) {
            Err(AppError::CommandError(message)) => {
                assert_eq!(message, "commands argument to execute_linux_commands must be a string")
            }
            other => panic!("unexpected plan: {:?}", other),
        }
    }
    match run.execute("{") {
        Err(AppError::SerdeJsonError(message)) => {
            assert_eq!(message, "EOF while parsing an object at line 1 column 1")
        }
        other => panic!("unexpected plan: {:?}", other),
    }
    let snapshot = ToolFunction::GetSnapshot;
    assert_eq!(snapshot.execute("{}").unwrap(), ToolFunctionPlan::TakeSnapshot);
    assert_eq!(snapshot.execute("not json").unwrap(), ToolFunctionPlan::TakeSnapshot);
}
