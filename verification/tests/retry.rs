//! The retry/continuation builder: the interruption notice, the original
//! question context, the original messages verbatim, and the flattened
//! partial content under its label.

use golem_durability::llm::{
    flatten_partial, retry_prompt, to_openai_role_name, tool_call_text, ContentPart, Message,
    Role, StreamDelta, ToolCall,
};

fn user_message(text: &str) -> Message {
    Message {
        role: Role::User,
        name: None,
        content: vec![ContentPart::Text(text.to_string())],
    }
}

#[test]
fn continuation_from_partial_text() {
    let original = vec![user_message("Tell me a story")];
    let partial = vec![StreamDelta {
        content: Some(vec![ContentPart::Text("Once upon a".to_string())]),
        tool_calls: None,
    }];

    let messages = retry_prompt(original, partial);

    assert_eq!(messages.len(), 4);
    assert_eq!(messages[0].role, Role::System);
    assert_eq!(messages[0].content.len(), 1);
    match &messages[0].content[0] {
        ContentPart::Text(t) => {
            assert!(t.starts_with("You were asked the same question previously"));
        }
        _ => panic!("expected text"),
    }
    assert_eq!(messages[1].role, Role::User);
    assert_eq!(
        messages[1].content,
        vec![ContentPart::Text("Here is the original question:".to_string())]
    );
    assert_eq!(messages[2], user_message("Tell me a story"));
    let last = &messages[3];
    assert_eq!(last.role, Role::User);
    assert_eq!(
        last.content,
        vec![
            ContentPart::Text(
                "Here is the partial response that was successfully received:".to_string()
            ),
            ContentPart::Text("Once upon a".to_string()),
        ]
    );
}

#[test]
fn continuation_with_empty_partial_keeps_the_label() {
    let original = vec![user_message("Hello")];
    let messages = retry_prompt(original, vec![]);
    assert_eq!(messages.len(), 4);
    assert_eq!(
        messages[3].content,
        vec![ContentPart::Text(
            "Here is the partial response that was successfully received:".to_string()
        )]
    );
}

#[test]
fn tool_calls_flatten_to_tagged_text_after_content() {
    let partial = vec![
        StreamDelta {
            content: Some(vec![ContentPart::Text("first".to_string())]),
            tool_calls: Some(vec![ToolCall {
                id: "c1".to_string(),
                name: "lookup".to_string(),
                arguments_json: "{}".to_string(),
            }]),
        },
        StreamDelta {
            content: None,
            tool_calls: Some(vec![ToolCall {
                id: "c2".to_string(),
                name: "fetch".to_string(),
                arguments_json: "{\"q\":1}".to_string(),
            }]),
        },
    ];
    let flat = flatten_partial(partial);
    assert_eq!(
        flat,
        vec![
            ContentPart::Text("first".to_string()),
            ContentPart::Text(
                "<tool-call id=\"c1\" name=\"lookup\" arguments=\"{}\"/>".to_string()
            ),
            ContentPart::Text(
                "<tool-call id=\"c2\" name=\"fetch\" arguments=\"{\"q\":1}\"/>".to_string()
            ),
        ]
    );
}

#[test]
fn tool_call_text_form() {
    let tc = ToolCall {
        id: "id-1".to_string(),
        name: "tool".to_string(),
        arguments_json: "{\"a\":2}".to_string(),
    };
    assert_eq!(
        tool_call_text(&tc),
        "<tool-call id=\"id-1\" name=\"tool\" arguments=\"{\"a\":2}\"/>".to_string()
    );
}

#[test]
fn role_names() {
    assert_eq!(to_openai_role_name(Role::User), "user");
    assert_eq!(to_openai_role_name(Role::Assistant), "assistant");
    assert_eq!(to_openai_role_name(Role::System), "system");
    assert_eq!(to_openai_role_name(Role::Tool), "tool");
}
