use rtool::json::Json;
use rtool::types::{AppError, FunctionCall, Message, ToolCall};
use rtool::wire::{
    completion_payload, messages_from_json, messages_from_text, messages_to_json,
    messages_to_text,
};

fn call(id: &str) -> ToolCall {
    ToolCall {
        id: id.to_string(),
        kind: String::from("function"),
        function: FunctionCall {
            name: String::from("shell_tool"),
            arguments: String::from("{\"commands\":[]}"),
        },
    }
}

fn full() -> Message {
    Message {
        role: String::from("assistant"),
        content: Some(String::from("two\nlines \"quoted\" \u{e9}")),
        tool_calls: Some(vec![call("call_1"), call("call_2")]),
        tool_call_id: Some(String::from("call_0")),
        name: Some(String::from("n")),
    }
}

fn bare() -> Message {
    Message { role: String::from("tool"), content: None, tool_calls: None, tool_call_id: None, name: None }
}

#[test]
fn test_serde_messages() {
    let mut messages = vec![Message::new(
        "system".to_string(),
        "You're a lumberjack and you're okay.".to_string(),
    )];
    messages.push(Message::new(
        "user".to_string(),
        "What do you seek?".to_string(),
    ));

    let messages_str = messages_to_text(&messages).unwrap();
    let decoded_messages: Vec<Message> = messages_from_text(&messages_str).unwrap();

    assert_eq!(messages, decoded_messages);
}

#[test]
fn messages_are_read_back_as_they_were_written() {
    let messages = vec![
        full(),
        bare(),
        Message { tool_calls: Some(Vec::new()), ..bare() },
        Message { name: Some(String::new()), content: Some(String::new()), ..bare() },
    ];
    assert_eq!(messages_from_json(&messages_to_json(&messages)).unwrap(), messages);
    assert_eq!(messages_from_text(&messages_to_text(&messages).unwrap()).unwrap(), messages);
    assert_eq!(messages_from_text("[]").unwrap(), Vec::new());
    assert_eq!(messages_to_text(&Vec::new()).unwrap(), "[]");
}

#[test]
fn message_is_written_with_the_fields_it_has() {
    assert_eq!(messages_to_text(&vec![bare()]).unwrap(), r#"[{"role":"tool"}]"#);
    let written = full().to_json();
    let keys: Vec<_> = match &written {
        Json::Object(members) => members.iter().map(|m| m.key.as_str()).collect(),
        other => panic!("no object: {:?}", other),
    };
    assert_eq!(keys, ["role", "content", "tool_calls", "tool_call_id", "name"]);
    assert_eq!(
        call("c").to_json(),
        Json::object().with("id", Json::text("c")).with("type", Json::text("function")).with(
            "function",
            Json::object()
                .with("name", Json::text("shell_tool"))
                .with("arguments", Json::text("{\"commands\":[]}")),
        )
    );
}

#[test]
fn stored_conversation_is_read_whatever_the_order_of_its_keys() {
    let text = r#"[
        {"role": "system", "content": "S"},
        {"content": null, "role": "assistant", "extra": 1, "tool_calls": [
            {"function": {"arguments": "{}", "name": "snap_tool"}, "id": "call_1", "type": "function"}
        ]},
        {"name": "snap_tool", "tool_call_id": "call_1", "role": "tool", "content": "..", "tool_calls": null}
    ]"#;
    let messages = messages_from_text(text).unwrap();
    assert_eq!(messages.len(), 3);
    assert_eq!(messages[0], Message::new(String::from("system"), String::from("S")));
    assert_eq!(messages[1].content, None);
    let calls = messages[1].tool_calls.as_ref().unwrap();
    assert_eq!(calls.len(), 1);
    assert_eq!(calls[0].id, "call_1");
    assert_eq!(calls[0].kind, "function");
    assert_eq!(calls[0].function.name, "snap_tool");
    assert_eq!(calls[0].function.arguments, "{}");
    assert_eq!(messages[2].tool_call_id.as_deref(), Some("call_1"));
    assert_eq!(messages[2].name.as_deref(), Some("snap_tool"));
    assert_eq!(messages[2].tool_calls, None);
}

fn reason(text: &str) -> String {
    match messages_from_text(text) {
        Err(AppError::SerdeJsonError(message)) => message,
        other => panic!("unexpected result: {:?}", other),
    }
}

#[test]
fn text_that_holds_no_conversation_is_an_error() {
    assert_eq!(reason("[1,"), "EOF while parsing a value at line 1 column 3");
    assert_eq!(reason("{}"), "invalid type: expected a list of messages");
    assert_eq!(reason("[[]]"), "invalid type: expected a message");
    assert_eq!(reason(r#"[{"role":"user"},{"content":"x"}]"#), "missing or invalid field `role`");
    assert_eq!(reason(r#"[{"role":1}]"#), "missing or invalid field `role`");
    assert_eq!(reason(r#"[{"role":"user","content":1}]"#), "invalid field `content`");
    assert_eq!(reason(r#"[{"role":"user","name":[]}]"#), "invalid field `name`");
    assert_eq!(reason(r#"[{"role":"user","tool_call_id":true}]"#), "invalid field `tool_call_id`");
    assert_eq!(reason(r#"[{"role":"user","tool_calls":{}}]"#), "invalid field `tool_calls`");
    assert_eq!(reason(r#"[{"role":"user","tool_calls":[1]}]"#), "invalid type: expected a tool call");
    assert_eq!(
        reason(r#"[{"role":"user","tool_calls":[{"type":"function"}]}]"#),
        "missing or invalid field `id`"
    );
    assert_eq!(
        reason(r#"[{"role":"user","tool_calls":[{"id":"1"}]}]"#),
        "missing or invalid field `type`"
    );
    assert_eq!(
        reason(r#"[{"role":"user","tool_calls":[{"id":"1","type":"f"}]}]"#),
        "missing field `function`"
    );
    assert_eq!(
        reason(r#"[{"role":"user","tool_calls":[{"id":"1","type":"f","function":null}]}]"#),
        "invalid type: expected a function call"
    );
    assert_eq!(
        reason(r#"[{"role":"user","tool_calls":[{"id":"1","type":"f","function":{"name":"n"}}]}]"#),
        "missing or invalid field `arguments`"
    );
    assert_eq!(
        reason(r#"[{"role":"user","tool_calls":[{"id":"1","type":"f","function":{"arguments":""}}]}]"#),
        "missing or invalid field `name`"
    );
}

#[test]
fn request_holds_the_model_the_messages_and_the_manifest() {
    let messages = vec![Message::new(String::from("user"), String::from("hi"))];
    let manifest = Json::array().and(Json::text("tool"));
    assert_eq!(
        completion_payload("gpt-4", &messages, Some(&manifest)),
        Json::object()
            .with("model", Json::text("gpt-4"))
            .with("messages", messages_to_json(&messages))
            .with("tools", Json::array().and(Json::text("tool")))
    );
    assert_eq!(
        completion_payload("gpt-4", &messages, None),
        Json::object().with("model", Json::text("gpt-4")).with("messages", messages_to_json(&messages))
    );
}
