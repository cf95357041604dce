use completion_response::{
    Choice, Completion, CompletionData, FunctionData, MarkupDecodeError, Message, Model, Price,
    ToolCall, Usage, Words,
};

fn assistant_choice(content: &str, finish_reason: &str, index: u8) -> Choice {
    Choice {
        message: Message::new_assistant_content(content.to_string()),
        index,
        finish_reason: finish_reason.to_string(),
    }
}

fn completion_of(choices: Vec<Choice>) -> Completion {
    Completion {
        choices,
        object: "chat.completion".to_string(),
        id: "cmpl-1".to_string(),
        model: "some-model".to_string(),
        created: 1_700_000_000,
        usage: Usage { prompt_tokens: 3, completion_tokens: 5, total_tokens: 8 },
    }
}

fn calls_of(message: &Message) -> Vec<(String, String, String)> {
    match message {
        Message::Assistant { tool_calls: Some(calls), .. } => calls
            .iter()
            .map(|c| match c {
                ToolCall::Function { id, function } => {
                    (id.clone(), function.name.clone(), function.arguments_text())
                }
            })
            .collect(),
        _ => panic!("no tool calls"),
    }
}

fn content_of(message: &Message) -> Option<String> {
    match message {
        Message::Assistant { content, .. } => content.clone(),
        _ => panic!("not an assistant message"),
    }
}

#[test]
fn single_call_is_extracted() {
    let text = "<tool_call>{\"name\":\"lookup\",\"arguments\":{\"id\":7}}</tool_call>";
    let parsed = completion_of(vec![assistant_choice(text, "end_turn", 0)]).parse().unwrap();
    let choice = &parsed.choices[0];
    assert_eq!(content_of(&choice.message), None);
    assert_eq!(
        calls_of(&choice.message),
        vec![("func".to_string(), "lookup".to_string(), "{\"id\":7}".to_string())]
    );
    assert_eq!(choice.finish_reason, "tool_calls");
    assert_eq!(choice.index, 0);
}

#[test]
fn plain_text_end_turn_becomes_stop() {
    let parsed = completion_of(vec![assistant_choice("Hello world", "end_turn", 0)]).parse().unwrap();
    let choice = &parsed.choices[0];
    assert_eq!(content_of(&choice.message), Some("Hello world".to_string()));
    assert!(matches!(choice.message, Message::Assistant { tool_calls: None, .. }));
    assert_eq!(choice.finish_reason, "stop");
}

#[test]
fn two_calls_keep_their_order() {
    let text = "Let me check.\n<tool_call>{\"name\":\"first\",\"arguments\":[1]}</tool_call> and \
                <tool_call>\n{\"name\":\"second\",\n\"arguments\":\"x\"}\n</tool_call>";
    let parsed = completion_of(vec![assistant_choice(text, "stop", 0)]).parse().unwrap();
    let choice = &parsed.choices[0];
    assert_eq!(
        calls_of(&choice.message),
        vec![
            ("func".to_string(), "first".to_string(), "[1]".to_string()),
            ("func".to_string(), "second".to_string(), "\"x\"".to_string()),
        ]
    );
    assert_eq!(content_of(&choice.message), None);
    assert_eq!(choice.finish_reason, "tool_calls");
}

#[test]
fn missing_name_fails_the_pass() {
    let good = "<tool_call>{\"name\":\"a\",\"arguments\":{}}</tool_call>";
    let bad = "<tool_call>{\"arguments\":{}}</tool_call>";
    let choices = vec![
        assistant_choice(good, "end_turn", 0),
        assistant_choice(bad, "end_turn", 1),
        assistant_choice("later", "end_turn", 2),
    ];
    let mut completion = completion_of(choices.clone());
    assert_eq!(completion.process_choices(), Err(MarkupDecodeError));
    assert_eq!(content_of(&completion.choices[0].message), None);
    assert_eq!(completion.choices[0].finish_reason, "tool_calls");
    assert_eq!(content_of(&completion.choices[1].message), Some(bad.to_string()));
    assert!(matches!(completion.choices[1].message, Message::Assistant { tool_calls: None, .. }));
    assert_eq!(completion.choices[1].finish_reason, "end_turn");
    assert_eq!(content_of(&completion.choices[2].message), Some("later".to_string()));
    assert_eq!(completion.choices[2].finish_reason, "end_turn");
    assert!(matches!(completion_of(choices).parse(), Err(MarkupDecodeError)));
}

fn model_of(id: &str) -> Model {
    let mut completion = completion_of(vec![assistant_choice("hi", "stop", 0)]);
    completion.id = id.to_string();
    Model {
        completion,
        price: Price { input: 0x3f80_0000, output: 0x4000_0000, total: 0x4040_0000 },
        words: Words { input: 1, output: 2, total: 3 },
    }
}

#[test]
fn single_entry_gives_its_completion() {
    let data = CompletionData {
        completions: vec![("only".to_string(), model_of("cmpl-only"))],
        overall_price: Price { input: 0, output: 0, total: 0 },
        overall_words: Words { input: 1, output: 2, total: 3 },
    };
    let completion = data.get_completion();
    assert_eq!(completion.id, "cmpl-only");
    assert_eq!(completion.choices.len(), 1);
    assert_eq!(completion.choices[0].finish_reason, "stop");
    assert_eq!(completion.usage, Usage { prompt_tokens: 3, completion_tokens: 5, total_tokens: 8 });
}

#[test]
fn several_entries_give_one_of_them() {
    let data = CompletionData {
        completions: vec![
            ("a".to_string(), model_of("cmpl-a")),
            ("b".to_string(), model_of("cmpl-b")),
        ],
        overall_price: Price { input: 0, output: 0, total: 0 },
        overall_words: Words { input: 0, output: 0, total: 0 },
    };
    let id = data.get_completion().id;
    assert!(id == "cmpl-a" || id == "cmpl-b");
}

#[test]
fn decode_then_encode_keeps_name_and_arguments() {
    let f = FunctionData::decode(" {\"name\":\"calc\",\"arguments\":{\"b\": [1, 2], \"a\": null}} ").unwrap();
    assert_eq!(f.name, "calc");
    let original: serde_json::Value = serde_json::from_str("{\"b\": [1, 2], \"a\": null}").unwrap();
    assert_eq!(f.arguments, original.to_string());
    assert_eq!(f.arguments_text(), original.to_string());
    let again: serde_json::Value = serde_json::from_str(&f.arguments_text()).unwrap();
    assert_eq!(again, original);
}

#[test]
fn decode_rejects_bad_spans() {
    assert_eq!(FunctionData::decode("not json").err(), Some(MarkupDecodeError));
    assert_eq!(FunctionData::decode("{\"name\":3,\"arguments\":{}}").err(), Some(MarkupDecodeError));
    assert_eq!(FunctionData::decode("{\"name\":\"f\"}").err(), Some(MarkupDecodeError));
    assert_eq!(FunctionData::decode("[\"f\", {}]").err(), Some(MarkupDecodeError));
    assert!(FunctionData::decode("{\"name\":\"f\",\"arguments\":null}").is_ok());
}

#[test]
fn text_without_markers_is_untouched() {
    let mut m = Message::new_assistant_content("a <tool> call\nwith lines".to_string());
    assert_eq!(m.into_tool_calls_response(), Ok(()));
    assert_eq!(content_of(&m), Some("a <tool> call\nwith lines".to_string()));
    assert!(matches!(m, Message::Assistant { tool_calls: None, .. }));
}

#[test]
fn lone_closing_marker_leaves_text() {
    let mut m = Message::new_assistant_content("done</tool_call>".to_string());
    assert_eq!(m.into_tool_calls_response(), Ok(()));
    assert_eq!(content_of(&m), Some("done</tool_call>".to_string()));
    assert!(matches!(m, Message::Assistant { tool_calls: None, .. }));
    let parsed = completion_of(vec![assistant_choice("done</tool_call>", "end_turn", 0)]).parse().unwrap();
    assert_eq!(content_of(&parsed.choices[0].message), Some("done</tool_call>".to_string()));
    assert_eq!(parsed.choices[0].finish_reason, "stop");
}

#[test]
fn unclosed_span_leaves_text() {
    let text = "<tool_call>{\"name\":\"f\",\"arguments\":1}";
    let mut m = Message::new_assistant_content(text.to_string());
    assert_eq!(m.into_tool_calls_response(), Ok(()));
    assert_eq!(content_of(&m), Some(text.to_string()));
    assert!(matches!(m, Message::Assistant { tool_calls: None, .. }));
}

#[test]
fn trimmed_span_inside_prose() {
    let text = "Sure. <tool_call>  {\"name\":\"g\",\"arguments\":null}  </tool_call> done";
    let mut m = Message::new_assistant_content(text.to_string());
    assert_eq!(m.into_tool_calls_response(), Ok(()));
    assert_eq!(content_of(&m), None);
    assert_eq!(calls_of(&m), vec![("func".to_string(), "g".to_string(), "null".to_string())]);
}

#[test]
fn one_bad_span_commits_nothing() {
    let text = "<tool_call>{\"name\":\"ok\",\"arguments\":1}</tool_call><tool_call>{\"arguments\":{}}</tool_call>";
    let mut m = Message::new_assistant_content(text.to_string());
    assert_eq!(m.into_tool_calls_response(), Err(MarkupDecodeError));
    assert_eq!(content_of(&m), Some(text.to_string()));
    assert!(matches!(m, Message::Assistant { tool_calls: None, .. }));
}

#[test]
fn newlines_inside_span_are_removed() {
    let text = "<tool_call>{\"name\":\"f\",\n\"arguments\":[1,2]}\n</tool_call>";
    let mut m = Message::new_assistant_content(text.to_string());
    assert_eq!(m.into_tool_calls_response(), Ok(()));
    assert_eq!(calls_of(&m), vec![("func".to_string(), "f".to_string(), "[1,2]".to_string())]);
}

#[test]
fn span_is_closed_by_nearest_marker() {
    let text = "<tool_call><tool_call>{\"name\":\"f\",\"arguments\":1}</tool_call>x</tool_call>";
    let mut m = Message::new_assistant_content(text.to_string());
    assert_eq!(m.into_tool_calls_response(), Err(MarkupDecodeError));
    assert_eq!(content_of(&m), Some(text.to_string()));
}

#[test]
fn empty_text_is_untouched() {
    let mut m = Message::new_assistant_content(String::new());
    assert_eq!(m.into_tool_calls_response(), Ok(()));
    assert_eq!(content_of(&m), Some(String::new()));
}

#[test]
fn extraction_twice_changes_nothing_more() {
    let text = "<tool_call>{\"name\":\"f\",\"arguments\":{}}</tool_call>";
    let mut m = Message::new_assistant_content(text.to_string());
    assert_eq!(m.into_tool_calls_response(), Ok(()));
    let first = calls_of(&m);
    assert_eq!(m.into_tool_calls_response(), Ok(()));
    assert_eq!(calls_of(&m), first);
    assert_eq!(content_of(&m), None);
}

#[test]
fn parsing_twice_changes_nothing_more() {
    let text = "<tool_call>{\"name\":\"f\",\"arguments\":{}}</tool_call>";
    let once = completion_of(vec![
        assistant_choice(text, "end_turn", 0),
        assistant_choice("plain", "end_turn", 1),
    ])
    .parse()
    .unwrap();
    let twice = once.clone().parse().unwrap();
    assert_eq!(twice.choices[0].finish_reason, "tool_calls");
    assert_eq!(twice.choices[1].finish_reason, "stop");
    assert_eq!(content_of(&twice.choices[1].message), Some("plain".to_string()));
    assert_eq!(calls_of(&twice.choices[0].message), calls_of(&once.choices[0].message));
}

#[test]
fn other_roles_pass_through() {
    let mut m = Message::User { content: "<tool_call>{}</tool_call>".to_string() };
    assert_eq!(m.into_tool_calls_response(), Ok(()));
    assert!(matches!(&m, Message::User { content } if content == "<tool_call>{}</tool_call>"));
    let mut c = Choice {
        message: Message::System { content: "s".to_string() },
        index: 4,
        finish_reason: "end_turn".to_string(),
    };
    assert_eq!(c.process(), Ok(()));
    assert_eq!(c.finish_reason, "end_turn");
    assert_eq!(c.index, 4);
}

#[test]
fn other_reasons_are_kept() {
    let mut c = assistant_choice("text", "length", 0);
    c.normalize_finish_reason();
    assert_eq!(c.finish_reason, "length");
    let mut c = assistant_choice("text", "stop", 0);
    c.normalize_finish_reason();
    assert_eq!(c.finish_reason, "stop");
}

#[test]
fn absent_text_overrides_reason() {
    let mut c = Choice {
        message: Message::new_assistant_tool_calls(Vec::new()),
        index: 0,
        finish_reason: "end_turn".to_string(),
    };
    assert_eq!(c.process(), Ok(()));
    assert_eq!(c.finish_reason, "tool_calls");
    assert!(matches!(c.message, Message::Assistant { content: None, tool_calls: Some(_) }));
}

#[test]
fn metadata_is_kept() {
    let parsed = completion_of(vec![]).parse().unwrap();
    assert!(parsed.choices.is_empty());
    assert_eq!(parsed.object, "chat.completion");
    assert_eq!(parsed.id, "cmpl-1");
    assert_eq!(parsed.model, "some-model");
    assert_eq!(parsed.created, 1_700_000_000);
}

#[test]
fn carriage_returns_are_not_stripped() {
    let text = "<tool_call>{\"name\":\"f\",\r\n\"arguments\":2}\r</tool_call>";
    let mut m = Message::new_assistant_content(text.to_string());
    assert_eq!(m.into_tool_calls_response(), Ok(()));
    assert_eq!(calls_of(&m), vec![("func".to_string(), "f".to_string(), "2".to_string())]);
}
