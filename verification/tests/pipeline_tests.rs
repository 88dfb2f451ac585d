use rtool::context::{has_ascending_keys, text_less};
use rtool::json::{Json, Member};
use rtool::pipeline::{PipelineAction, PipelineRun, PipelineStep, PipelineTool, PipelineToolInput};
use rtool::registry::{Tool, ToolRegistry};
use rtool::shell_tool::{
    CommandOutcome, ShellAction, ShellCommand, ShellTool, ShellToolInput,
};
use rtool::types::AppError;

fn obj(members: Vec<(&str, Json)>) -> Json {
    Json::Object(
        members.into_iter().map(|(k, v)| Member { key: k.to_string(), value: v }).collect(),
    )
}

fn s(text: &str) -> Json {
    Json::String(text.to_string())
}

fn field<'a>(doc: &'a Json, key: &str) -> Option<&'a Json> {
    match doc {
        Json::Object(members) => members.iter().find(|m| m.key == key).map(|m| &m.value),
        _ => None,
    }
}

fn shell_commands(parameters: Vec<(&str, Vec<&str>)>) -> Json {
    obj(vec![(
        "commands",
        Json::Array(
            parameters
                .into_iter()
                .map(|(command, args)| {
                    obj(vec![
                        ("command", s(command)),
                        ("args", Json::Array(args.into_iter().map(s).collect())),
                    ])
                })
                .collect(),
        ),
    )])
}

fn shell_input(args: &Json) -> ShellToolInput {
    let mut commands = Vec::new();
    if let Some(Json::Array(items)) = field(args, "commands") {
        for item in items {
            let command = match field(item, "command") {
                Some(Json::String(c)) => c.clone(),
                _ => panic!("command without a name"),
            };
            let args = match field(item, "args") {
                Some(Json::Array(list)) => Some(
                    list.iter()
                        .map(|a| match a {
                            Json::String(t) => t.clone(),
                            _ => panic!("argument that is no string"),
                        })
                        .collect(),
                ),
                _ => None,
            };
            commands.push(ShellCommand { command, args });
        }
    }
    ShellToolInput { commands }
}

// Stands for the shell: `echo` writes its arguments and a line feed, nothing else exists.
fn spawn(command: &str, args: &[String]) -> CommandOutcome {
    if command == "echo" {
        CommandOutcome::Ran {
            success: true,
            stdout: format!("{}\n", args.join(" ")).into_bytes(),
            stderr: Vec::new(),
        }
    } else {
        CommandOutcome::NotFound
    }
}

fn run_shell(args: &Json) -> Result<String, AppError> {
    let (mut run, mut action) = ShellTool.execute(shell_input(args));
    loop {
        match action {
            ShellAction::Spawn { command, args } => {
                assert!(run.is_waiting());
                action = run.resume(spawn(&command, &args));
            }
            ShellAction::Finished(result) => return result,
        }
    }
}

fn registry() -> ToolRegistry {
    let mut registry = ToolRegistry::new();
    registry.register(&ShellTool, String::from("{}"));
    registry.register(&PipelineTool, String::from("{}"));
    registry
}

fn drive(
    registry: &ToolRegistry,
    mut run: PipelineRun,
    mut action: PipelineAction,
    seen: &mut Vec<Json>,
) -> Result<String, AppError> {
    loop {
        match action {
            PipelineAction::Invoke(invocation) => {
                assert!(run.is_waiting());
                assert_eq!(invocation.tool, "shell_tool");
                let outcome = run_shell(&invocation.args);
                seen.push(invocation.args);
                action = run.resume(registry, outcome);
            }
            PipelineAction::Finished(result) => {
                assert!(!run.is_waiting());
                return result;
            }
        }
    }
}

fn execute(steps: Vec<PipelineStep>) -> (Result<String, AppError>, Vec<Json>) {
    let registry = registry();
    let (run, action) = PipelineTool.execute(PipelineToolInput { steps }, &registry);
    let mut seen = Vec::new();
    let result = drive(&registry, run, action, &mut seen);
    (result, seen)
}

fn step(id: &str, tool: &str, parameters: Json) -> PipelineStep {
    PipelineStep { id: id.to_string(), tool: tool.to_string(), parameters }
}

#[test]
fn test_simple_pipeline() {
    let step = PipelineStep {
        id: "echoResult".to_string(),
        tool: "shell_tool".to_string(),
        parameters: shell_commands(vec![("echo", vec!["hello world"])]),
    };

    let (result, _) = execute(vec![step]);
    let result = result.unwrap();

    let result_value: serde_json::Value = serde_json::from_str(&result).unwrap();
    let echo_output = result_value.get("echoResult").unwrap().as_str().unwrap();

    assert_eq!(echo_output, "hello world");
}

#[test]
fn test_substitution_pipeline() {
    let first_step = PipelineStep {
        id: "firstEcho".to_string(),
        tool: "shell_tool".to_string(),
        parameters: shell_commands(vec![("echo", vec!["hello"])]),
    };

    let second_step = PipelineStep {
        id: "secondEcho".to_string(),
        tool: "shell_tool".to_string(),
        parameters: shell_commands(vec![("echo", vec!["${firstEcho} world"])]),
    };

    let (result, _) = execute(vec![first_step, second_step]);
    let result = result.unwrap();

    let result_value: serde_json::Value = serde_json::from_str(&result).unwrap();
    let first_echo_output = result_value.get("firstEcho").unwrap().as_str().unwrap();
    let second_echo_output = result_value.get("secondEcho").unwrap().as_str().unwrap();

    assert_eq!(first_echo_output, "hello");
    assert_eq!(second_echo_output, "hello world");
}

#[test]
fn pipeline_without_placeholders_holds_each_output_under_its_id() {
    let steps = vec![
        step("a", "shell_tool", shell_commands(vec![("echo", vec!["one"])])),
        step("b", "shell_tool", shell_commands(vec![("echo", vec!["two"])])),
        step("c", "shell_tool", shell_commands(vec![("echo", vec!["three"])])),
    ];
    let expected: Vec<Json> = steps.iter().map(|s| s.parameters.copy()).collect();
    let (result, seen) = execute(steps);
    assert_eq!(seen, expected);
    assert_eq!(result.unwrap(), r#"{"a":"one","b":"two","c":"three"}"#);
}

#[test]
fn empty_pipeline_gives_the_empty_object() {
    let (result, seen) = execute(Vec::new());
    assert!(seen.is_empty());
    assert_eq!(result.unwrap(), "{}");
}

#[test]
fn substitution_is_textual() {
    let context = obj(vec![("A", s("X"))]);
    assert_eq!(
        PipelineTool::substitute_placeholders("prefix-${A}-suffix", &context),
        "prefix-X-suffix"
    );
    let context = obj(vec![("A", s(" two\nlines\t"))]);
    assert_eq!(
        PipelineTool::substitute_placeholders("prefix-${A}-suffix", &context),
        "prefix- two\nlines\t-suffix"
    );
    let context = obj(vec![("A", s("X"))]);
    assert_eq!(PipelineTool::substitute_placeholders("${A}${A} ${a}", &context), "XX ${a}");
}

#[test]
fn substituted_output_is_not_read_again_for_its_own_placeholder() {
    let context = obj(vec![("A", s("${A}!"))]);
    assert_eq!(PipelineTool::substitute_placeholders("<${A}>", &context), "<${A}!>");
}

#[test]
fn members_are_applied_by_ascending_key() {
    let context = obj(vec![("a", s("${b}")), ("b", s("X"))]);
    assert!(has_ascending_keys(&context));
    assert_eq!(PipelineTool::substitute_placeholders("${a}", &context), "X");
    let context = obj(vec![("A", s("${B}")), ("B", s("x"))]);
    assert_eq!(PipelineTool::substitute_placeholders("${A}", &context), "x");
    let context = obj(vec![("a", s("X")), ("b", s("${a}"))]);
    assert_eq!(PipelineTool::substitute_placeholders("${b}", &context), "${a}");
}

#[test]
fn keys_ascend_in_the_order_of_strings() {
    assert!(has_ascending_keys(&obj(vec![])));
    assert!(has_ascending_keys(&obj(vec![("only", Json::Null)])));
    assert!(has_ascending_keys(&obj(vec![
        ("", Json::Null),
        ("B", Json::Null),
        ("a", Json::Null),
        ("aa", Json::Null),
        ("b", Json::Null),
        ("\u{e9}", Json::Null),
        ("\u{1f600}", Json::Null),
    ])));
    assert!(!has_ascending_keys(&obj(vec![("b", Json::Null), ("a", Json::Null)])));
    assert!(!has_ascending_keys(&obj(vec![("a", Json::Null), ("a", Json::Null)])));
    assert!(!has_ascending_keys(&obj(vec![("a", Json::Null), ("c", Json::Null), ("b", Json::Null)])));
    assert!(!has_ascending_keys(&obj(vec![("aa", Json::Null), ("a", Json::Null)])));
    assert!(has_ascending_keys(&Json::Null));
    assert!(has_ascending_keys(&Json::Array(vec![obj(vec![("b", Json::Null), ("a", Json::Null)])])));
    for (a, b) in [("", "a"), ("B", "a"), ("a", "aa"), ("ab", "b"), ("z", "\u{e9}"), ("\u{ffff}", "\u{10000}")] {
        assert!(text_less(a, b));
        assert!(!text_less(b, a));
        assert!(!text_less(a, a));
        assert!(a < b);
    }
    // The context of a run hands its outputs out in that order.
    let steps = vec![
        step("b", "shell_tool", shell_commands(vec![("echo", vec!["1"])])),
        step("a", "shell_tool", shell_commands(vec![("echo", vec!["2"])])),
        step("B", "shell_tool", shell_commands(vec![("echo", vec!["3"])])),
        step("aa", "shell_tool", shell_commands(vec![("echo", vec!["4"])])),
    ];
    let (result, _) = execute(steps);
    assert_eq!(result.unwrap(), r#"{"B":"3","a":"2","aa":"4","b":"1"}"#);
}

#[test]
fn outputs_are_applied_by_ascending_id() {
    // The first step's output quotes the second step; the ids decide the order
    // in which the outputs are filled in, not the order of the steps.
    let steps = vec![
        step("b", "shell_tool", shell_commands(vec![("echo", vec!["X"])])),
        step("a", "shell_tool", shell_commands(vec![("echo", vec!["${b}"])])),
        step("c", "shell_tool", shell_commands(vec![("echo", vec!["${a}"])])),
    ];
    let (result, _) = execute(steps);
    assert_eq!(result.unwrap(), r#"{"a":"X","b":"X","c":"X"}"#);
}

#[test]
fn unresolved_placeholder_is_left_as_it_is() {
    let context = obj(vec![("known", s("value"))]);
    assert_eq!(PipelineTool::substitute_placeholders("${missing}", &context), "${missing}");
    assert_eq!(
        PipelineTool::resolve_parameters(&s("${missing}"), &context),
        s("${missing}")
    );
    let (result, seen) =
        execute(vec![step("only", "shell_tool", shell_commands(vec![("echo", vec!["${missing}"])]))]);
    assert_eq!(seen, vec![shell_commands(vec![("echo", vec!["${missing}"])])]);
    assert_eq!(result.unwrap(), r#"{"only":"${missing}"}"#);
}

#[test]
fn context_that_is_no_object_fills_in_nothing() {
    assert_eq!(PipelineTool::substitute_placeholders("${A}", &Json::Null), "${A}");
    assert_eq!(PipelineTool::substitute_placeholders("${A}", &s("A")), "${A}");
}

#[test]
fn member_that_is_no_string_fills_in_nothing() {
    let context = obj(vec![("A", Json::Bool(true)), ("B", s("b"))]);
    assert_eq!(PipelineTool::substitute_placeholders("${A}${B}", &context), "${A}b");
}

#[test]
fn only_string_values_are_resolved() {
    let context = obj(vec![("k", s("V"))]);
    let params = obj(vec![
        ("${k}", s("${k}")),
        ("n", Json::Number(serde_json::Number::from(7u64))),
        ("t", Json::Bool(true)),
        ("z", Json::Null),
        ("list", Json::Array(vec![s("a ${k}"), Json::Bool(false), obj(vec![("in", s("${k}"))])])),
    ]);
    let expected = obj(vec![
        ("${k}", s("V")),
        ("n", Json::Number(serde_json::Number::from(7u64))),
        ("t", Json::Bool(true)),
        ("z", Json::Null),
        ("list", Json::Array(vec![s("a V"), Json::Bool(false), obj(vec![("in", s("V"))])])),
    ]);
    assert_eq!(PipelineTool::resolve_parameters(&params, &context), expected);
}

#[test]
fn step_of_an_unknown_tool_stops_the_pipeline() {
    let registry = registry();
    let steps = vec![
        step("a", "shell_tool", shell_commands(vec![("echo", vec!["one"])])),
        step("b", "no_such_tool", Json::Null),
        step("c", "shell_tool", shell_commands(vec![("echo", vec!["three"])])),
    ];
    let (run, action) = PipelineTool.execute(PipelineToolInput { steps }, &registry);
    let mut seen = Vec::new();
    let result = drive(&registry, run, action, &mut seen);
    assert_eq!(seen.len(), 1);
    match result {
        Err(AppError::CommandError(message)) => {
            assert_eq!(message, "Tool `no_such_tool` not found")
        }
        other => panic!("unexpected result: {:?}", other),
    }
}

#[test]
fn failed_step_stops_the_pipeline_with_its_error() {
    let registry = registry();
    let steps = vec![
        step("a", "shell_tool", shell_commands(vec![("nonexistent", vec![])])),
        step("b", "shell_tool", shell_commands(vec![("echo", vec!["two"])])),
    ];
    let (run, action) = PipelineTool.execute(PipelineToolInput { steps }, &registry);
    let mut seen = Vec::new();
    let result = drive(&registry, run, action, &mut seen);
    assert_eq!(seen.len(), 1);
    let error = result.unwrap_err();
    assert!(matches!(error, AppError::SerdeJsonError(_)));
    assert!(error.to_string().contains("Command `nonexistent` not found"));
}

#[test]
fn later_output_replaces_an_earlier_one_under_the_same_id() {
    let steps = vec![
        step("x", "shell_tool", shell_commands(vec![("echo", vec!["first"])])),
        step("x", "shell_tool", shell_commands(vec![("echo", vec!["second ${x}"])])),
    ];
    let (result, _) = execute(steps);
    assert_eq!(result.unwrap(), r#"{"x":"second first"}"#);
}

#[test]
fn pipeline_tool_describes_itself() {
    assert_eq!(PipelineTool.name(), "pipeline_tool");
    assert!(PipelineTool.description().starts_with("Executes a series of tool calls"));
    let parameters = PipelineTool.parameters();
    assert_eq!(field(&parameters, "type"), Some(&s("object")));
    let steps = field(field(&parameters, "properties").unwrap(), "steps").unwrap();
    assert_eq!(field(steps, "type"), Some(&s("array")));
    let properties = field(field(steps, "items").unwrap(), "properties").unwrap();
    assert_eq!(
        field(field(properties, "tool").unwrap(), "description"),
        Some(&s("name of tool (in snake case) to call"))
    );
}
