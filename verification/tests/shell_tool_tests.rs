use rtool::registry::Tool;
use rtool::shell_tool::{
    handle_command_output, CommandOutcome, ShellAction, ShellCommand, ShellTool, ShellToolInput,
};
use rtool::types::AppError;

// Stands for the shell: `echo` writes its arguments and a line feed, `false`
// fails with a complaint, nothing else exists.
fn spawn_command(command: &str, args: &[String]) -> CommandOutcome {
    match command {
        "echo" => CommandOutcome::Ran {
            success: true,
            stdout: format!("{}\n", args.join(" ")).into_bytes(),
            stderr: Vec::new(),
        },
        "false" => CommandOutcome::Ran {
            success: false,
            stdout: b"ignored".to_vec(),
            stderr: b"  it failed \n".to_vec(),
        },
        "locked" => CommandOutcome::Failed { error: String::from("Permission denied (os error 13)") },
        _ => CommandOutcome::NotFound,
    }
}

fn execute_linux_commands(commands: Vec<ShellCommand>) -> Result<String, AppError> {
    let (mut run, mut action) = ShellTool.execute(ShellToolInput { commands });
    loop {
        match action {
            ShellAction::Spawn { command, args } => {
                assert!(run.is_waiting());
                action = run.resume(spawn_command(&command, &args));
            }
            ShellAction::Finished(result) => return result,
        }
    }
}

#[test]
fn text_execute_shell_commands() {
    let commands = vec![ShellCommand {
        command: "echo".to_string(),
        args: Some(vec!["Hello, world!".to_string()]),
    }];
    let result = execute_linux_commands(commands);
    assert!(result.is_ok());
    assert_eq!(result.unwrap(), "Hello, world!");
}

#[test]
fn test_command_not_found() {
    let commands = vec![ShellCommand {
        command: "nonexistent".to_string(),
        args: Some(vec!["arg1".to_string(), "arg2".to_string()]),
    }];
    let result = execute_linux_commands(commands);
    assert!(result.is_err());
    if let Err(err) = result {
        assert!(matches!(err, AppError::SerdeJsonError(_)));
        assert!(err.to_string().contains("Command `nonexistent` not found"));
    }
}

#[test]
fn outputs_are_joined_by_line_feeds() {
    let commands = vec![
        ShellCommand { command: "echo".to_string(), args: Some(vec!["a".to_string()]) },
        ShellCommand { command: "echo".to_string(), args: None },
        ShellCommand {
            command: "echo".to_string(),
            args: Some(vec!["b".to_string(), "c".to_string()]),
        },
    ];
    assert_eq!(execute_linux_commands(commands).unwrap(), "a\n\nb c");
}

#[test]
fn no_commands_give_the_empty_text() {
    assert_eq!(execute_linux_commands(Vec::new()).unwrap(), "");
}

#[test]
fn command_without_arguments_is_run_without_any() {
    let (run, action) = ShellTool.execute(ShellToolInput {
        commands: vec![ShellCommand { command: "ls".to_string(), args: None }],
    });
    assert!(run.is_waiting());
    match action {
        ShellAction::Spawn { command, args } => {
            assert_eq!(command, "ls");
            assert!(args.is_empty());
        }
        other => panic!("unexpected action: {:?}", other),
    }
}

#[test]
fn failing_command_stops_the_run() {
    let commands = vec![
        ShellCommand { command: "echo".to_string(), args: Some(vec!["a".to_string()]) },
        ShellCommand { command: "false".to_string(), args: None },
        ShellCommand { command: "echo".to_string(), args: Some(vec!["b".to_string()]) },
    ];
    let error = execute_linux_commands(commands).unwrap_err();
    assert_eq!(
        error.to_string(),
        "Serialization/Deserialization error: Command `false` failed with error: it failed"
    );
}

#[test]
fn output_is_trimmed_and_read_as_utf8() {
    let outcome = CommandOutcome::Ran {
        success: true,
        stdout: b" \t caf\xc3\xa9 \xff end \r\n\n".to_vec(),
        stderr: Vec::new(),
    };
    assert_eq!(handle_command_output(outcome, "cat").unwrap(), "caf\u{e9} \u{fffd} end");
    let outcome = CommandOutcome::Ran { success: true, stdout: b" \n ".to_vec(), stderr: Vec::new() };
    assert_eq!(handle_command_output(outcome, "cat").unwrap(), "");
}

#[test]
fn each_outcome_has_its_message() {
    let not_found = handle_command_output(CommandOutcome::NotFound, "gone").unwrap_err();
    match &not_found {
        AppError::SerdeJsonError(message) => assert_eq!(
            message,
            "Command `gone` not found. Please ensure the command exists and is in the PATH."
        ),
        other => panic!("unexpected error: {:?}", other),
    }
    let failed = handle_command_output(
        CommandOutcome::Failed { error: String::from("Permission denied (os error 13)") },
        "locked",
    )
    .unwrap_err();
    match &failed {
        AppError::SerdeJsonError(message) => assert_eq!(
            message,
            "Failed to execute command `locked` due to error: Permission denied (os error 13)"
        ),
        other => panic!("unexpected error: {:?}", other),
    }
    let unsuccessful = handle_command_output(
        CommandOutcome::Ran { success: false, stdout: Vec::new(), stderr: b"no\n".to_vec() },
        "false",
    )
    .unwrap_err();
    match &unsuccessful {
        AppError::SerdeJsonError(message) => {
            assert_eq!(message, "Command `false` failed with error: no")
        }
        other => panic!("unexpected error: {:?}", other),
    }
}

#[test]
fn shell_tool_describes_itself() {
    assert_eq!(ShellTool.name(), "shell_tool");
    assert_eq!(
        ShellTool.description(),
        "Executes a list of Linux shell commands and returns their concatenated output."
    );
    match ShellTool.parameters() {
        rtool::json::Json::Object(members) => {
            assert_eq!(members.len(), 2);
            assert_eq!(members[0].key, "type");
            assert_eq!(members[1].key, "properties");
        }
        other => panic!("unexpected schema: {:?}", other),
    }
}
