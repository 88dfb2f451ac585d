use rtool::gpt_tool::{GptMessage, GptTool, GptToolInput};
use rtool::json::Json;
use rtool::registry::{Tool, ToolRegistry};
use rtool::shell_tool::ShellTool;
use rtool::types::{AppError, FunctionCall, Message, Role, ToolCall};
use rtool::wire::completion_payload;

#[test]
fn new_message_has_a_role_and_a_content() {
    let message = Message::new(
        "system".to_string(),
        "You're a lumberjack and you're okay.".to_string(),
    );
    assert_eq!(message.role, "system");
    assert_eq!(message.content.as_deref(), Some("You're a lumberjack and you're okay."));
    assert!(message.tool_calls.is_none());
    assert!(message.tool_call_id.is_none());
    assert!(message.name.is_none());
    assert_eq!(message.copy(), message);
}

#[test]
fn tool_result_answers_its_call() {
    let call = ToolCall {
        id: String::from("call_1"),
        kind: String::from("function"),
        function: FunctionCall { name: String::from("shell_tool"), arguments: String::from("{}") },
    };
    let message = Message::tool_result(&call, String::from("done"));
    assert_eq!(message.role, "tool");
    assert_eq!(message.content.as_deref(), Some("done"));
    assert_eq!(message.tool_call_id.as_deref(), Some("call_1"));
    assert_eq!(message.name.as_deref(), Some("shell_tool"));
    assert!(message.tool_calls.is_none());
    assert_eq!(call.copy(), call);
}

#[test]
fn tool_call_is_shown_with_its_fields_quoted() {
    let call = ToolCall {
        id: String::from("a\"b"),
        kind: String::from("function"),
        function: FunctionCall { name: String::from("n"), arguments: String::from("{\"k\":\"v\\n\"}\n") },
    };
    assert_eq!(
        call.debug_text(),
        "ToolCall { id: \"a\\\"b\", type: \"function\", function: FunctionCall { name: \"n\", arguments: \"{\\\"k\\\":\\\"v\\\\n\\\"}\\n\" } }"
    );
}

#[test]
fn each_error_shows_its_kind_and_its_detail() {
    let cases = vec![
        (AppError::ReqwestError(String::from("timed out")), "HTTP request failed: timed out"),
        (AppError::IOError(String::from("denied")), "IO error: denied"),
        (
            AppError::SerdeJsonError(String::from("expected value at line 1 column 1")),
            "Serialization/Deserialization error: expected value at line 1 column 1",
        ),
        (AppError::TaskJoinError(String::from("cancelled")), "TaskJoinError: cancelled"),
        (
            AppError::MissingEnvironmentVariable(String::from("OPENAI_API_KEY")),
            "Missing environment variable: OPENAI_API_KEY",
        ),
        (AppError::CommandError(String::from("Invalid load command")), "Error with command: Invalid load command"),
    ];
    for (error, text) in cases {
        assert_eq!(error.to_string(), text);
        assert_eq!(error.copy().to_string(), text);
    }
}

#[test]
fn json_errors_keep_their_message() {
    let error = serde_json::from_str::<serde_json::Value>("[1,").unwrap_err();
    let text = error.to_string();
    match AppError::from_json_error(error) {
        AppError::SerdeJsonError(message) => assert_eq!(message, text),
        other => panic!("unexpected error: {:?}", other),
    }
}

#[test]
fn completion_tool_prepares_a_conversation_of_its_own() {
    let mut registry = ToolRegistry::new();
    registry.register(&ShellTool, String::new());
    let input = GptToolInput {
        include_tools: true,
        messages: vec![
            GptMessage { role: String::from("system"), content: String::from("Be brief.") },
            GptMessage { role: String::from("user"), content: String::from("Why?") },
        ],
        model: String::from("gpt-4"),
    };
    let request = GptTool.execute(input, &registry);
    let expected = vec![
        Message::new(String::from("system"), String::from("Be brief.")),
        Message::new(String::from("user"), String::from("Why?")),
    ];
    assert_eq!(
        request.payload,
        completion_payload("gpt-4", &expected, Some(&registry.generate_tools_json()))
    );
    let snapshot = request.snapshot.unwrap();
    assert_eq!(snapshot.path, "conversations/filler.json");
    assert_eq!(snapshot.messages, expected);

    let input = GptToolInput { include_tools: false, messages: Vec::new(), model: String::from("m") };
    let request = GptTool.execute(input, &registry);
    assert_eq!(
        request.payload,
        Json::object().with("model", Json::text("m")).with("messages", Json::array())
    );
    assert!(request.snapshot.is_none());
}

#[test]
fn completion_tool_describes_itself() {
    assert_eq!(GptTool.name(), "gpt_tool");
    assert_eq!(GptTool.description(), "Get a response from a new ChatCompletion via the OpenAI API");
    assert!(matches!(GptTool.parameters(), Json::Object(_)));
    assert_eq!(
        GptTool::missing_api_key().to_string(),
        "Missing environment variable: OPENAI_API_KEY"
    );
}

#[test]
fn documents_are_built_member_by_member() {
    let doc = Json::object()
        .with("a", Json::text("x"))
        .with("b", Json::array().and(Json::Null).and(Json::Bool(true)))
        .with("a", Json::Number(serde_json::Number::from(3u64)));
    match &doc {
        Json::Object(members) => {
            assert_eq!(members.len(), 3);
            assert_eq!(members[0].key, "a");
            assert_eq!(members[0].value, Json::String(String::from("x")));
            assert_eq!(members[1].value, Json::Array(vec![Json::Null, Json::Bool(true)]));
            assert_eq!(members[2].key, "a");
        }
        other => panic!("unexpected document: {:?}", other),
    }
    assert_eq!(doc.copy(), doc);
    assert_eq!(Json::Null.with("a", Json::Null), Json::Null);
    assert_eq!(Json::text("t").and(Json::Null), Json::String(String::from("t")));
}

#[test]
fn roles_are_named_by_their_texts() {
    for role in [Role::System, Role::User, Role::Assistant, Role::Tool] {
        let message = Message::new(role.as_str().to_string(), String::new());
        assert_eq!(message.speaker(), Some(role));
    }
    assert_eq!(Role::Tool.as_str(), "tool");
    assert_eq!(Role::Assistant.as_str(), "assistant");
    assert_eq!(Message::new(String::from("System"), String::new()).speaker(), None);
    assert_eq!(Message::new(String::from(""), String::new()).speaker(), None);
    assert_eq!(Message::new(String::from("function"), String::new()).speaker(), None);
}
