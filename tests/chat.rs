use openai::chat::{
    is_none_or_empty_vec, ChatCompletion, ChatCompletionChoiceDelta, ChatCompletionDelta,
    ChatCompletionFunctionCall, ChatCompletionFunctionCallDelta, ChatCompletionMessageDelta,
    ChatCompletionMessageRole, FunctionType, ToolCallDelta, ToolCallFunction,
};
use openai::merge::ChatCompletionDeltaMergeError;

fn piece(index: u64, role: Option<ChatCompletionMessageRole>, content: Option<&str>) -> ChatCompletionChoiceDelta {
    ChatCompletionChoiceDelta {
        index,
        finish_reason: None,
        delta: ChatCompletionMessageDelta {
            role,
            content: content.map(|c| c.to_string()),
            name: None,
            function_call: None,
            tool_call_id: None,
            tool_calls: None,
        },
    }
}

fn fragment(id: &str, choices: Vec<ChatCompletionChoiceDelta>) -> ChatCompletionDelta {
    ChatCompletionDelta {
        id: id.to_string(),
        object: "chat.completion.chunk".to_string(),
        created: 1700000000,
        model: "gpt-4o".to_string(),
        choices,
        usage: None,
    }
}

#[test]
fn merge_appends_content_and_keeps_role() {
    let mut acc = fragment("X", vec![piece(0, Some(ChatCompletionMessageRole::Assistant), Some("Hel"))]);
    let r = acc.merge(fragment("X", vec![piece(0, None, Some("lo!"))]));
    assert!(r.is_ok());
    assert_eq!(acc.choices[0].delta.content.as_deref(), Some("Hello!"));
    assert_eq!(acc.choices[0].delta.role, Some(ChatCompletionMessageRole::Assistant));
}

#[test]
fn merge_rejects_other_completion() {
    let mut acc = fragment("B", vec![piece(0, Some(ChatCompletionMessageRole::Assistant), Some("Hi"))]);
    let before = acc.clone();
    let r = acc.merge(fragment("A", vec![piece(0, Some(ChatCompletionMessageRole::User), Some(" there"))]));
    assert_eq!(r, Err(ChatCompletionDeltaMergeError::DifferentCompletionIds));
    assert_eq!(acc, before);
}

#[test]
fn merge_drops_unknown_choice_index() {
    let mut acc = fragment("X", vec![piece(0, Some(ChatCompletionMessageRole::Assistant), Some("a"))]);
    let before = acc.clone();
    let r = acc.merge(fragment("X", vec![piece(2, None, Some("b"))]));
    assert!(r.is_ok());
    assert_eq!(acc, before);
    assert_eq!(acc.choices.len(), 1);
}

#[test]
fn merge_routes_by_index_not_position() {
    let mut acc = fragment("X", vec![piece(0, None, Some("a")), piece(1, None, None)]);
    let r = acc.merge(fragment("X", vec![piece(1, Some(ChatCompletionMessageRole::Assistant), Some("b")), piece(0, None, Some("c"))]));
    assert!(r.is_ok());
    assert_eq!(acc.choices[0].delta.content.as_deref(), Some("ac"));
    assert_eq!(acc.choices[0].delta.role, None);
    assert_eq!(acc.choices[1].delta.content.as_deref(), Some("b"));
    assert_eq!(acc.choices[1].delta.role, Some(ChatCompletionMessageRole::Assistant));
}

#[test]
fn merge_grouping_of_chunks_does_not_matter() {
    let mut two_steps = fragment("X", vec![piece(0, None, Some("ab"))]);
    two_steps.merge(fragment("X", vec![piece(0, None, Some("cd"))])).unwrap();
    two_steps.merge(fragment("X", vec![piece(0, None, Some("ef"))])).unwrap();
    let mut one_step = fragment("X", vec![piece(0, None, Some("ab"))]);
    one_step.merge(fragment("X", vec![piece(0, None, Some("cdef"))])).unwrap();
    assert_eq!(two_steps.choices[0].delta.content, one_step.choices[0].delta.content);
    assert_eq!(two_steps.choices[0].delta.content.as_deref(), Some("abcdef"));
}

#[test]
fn choice_merge_rejects_other_index() {
    let mut acc = piece(0, None, Some("a"));
    let before = acc.clone();
    let r = acc.merge(&piece(1, None, Some("b")));
    assert_eq!(r, Err(ChatCompletionDeltaMergeError::DifferentCompletionChoiceIndices));
    assert_eq!(acc, before);
}

#[test]
fn choice_merge_keeps_first_name_and_finish_reason() {
    let mut acc = piece(0, None, None);
    let mut first = piece(0, None, None);
    first.delta.name = Some("alice".to_string());
    let mut second = piece(0, None, None);
    second.delta.name = Some("bob".to_string());
    second.finish_reason = Some("stop".to_string());
    acc.merge(&first).unwrap();
    acc.merge(&second).unwrap();
    assert_eq!(acc.delta.name.as_deref(), Some("alice"));
    assert_eq!(acc.finish_reason, None);
    assert_eq!(acc.delta.content, None);
}

#[test]
fn choice_merge_function_call_chunks() {
    let mut acc = piece(0, None, None);
    let mut first = piece(0, None, None);
    first.delta.function_call = Some(ChatCompletionFunctionCallDelta { name: Some("get_weather".to_string()), arguments: None });
    let mut second = piece(0, None, None);
    second.delta.function_call = Some(ChatCompletionFunctionCallDelta { name: Some("other".to_string()), arguments: Some("{\"loc".to_string()) });
    let mut third = piece(0, None, None);
    third.delta.function_call = Some(ChatCompletionFunctionCallDelta { name: None, arguments: Some("\":1}".to_string()) });
    acc.merge(&first).unwrap();
    acc.merge(&second).unwrap();
    acc.merge(&third).unwrap();
    let f = acc.delta.function_call.clone().unwrap();
    assert_eq!(f.name.as_deref(), Some("get_weather"));
    assert_eq!(f.arguments.as_deref(), Some("{\"loc\":1}"));
}

#[test]
fn finalize_defaults_role_and_finish_reason() {
    let delta = fragment("X", vec![piece(3, None, Some("hi"))]);
    let done = ChatCompletion::from_delta(delta);
    assert_eq!(done.id, "X");
    assert_eq!(done.choices.len(), 1);
    assert_eq!(done.choices[0].index, 3);
    assert_eq!(done.choices[0].message.role, ChatCompletionMessageRole::System);
    assert_eq!(done.choices[0].finish_reason, "");
    assert_eq!(done.choices[0].message.content.as_deref(), Some("hi"));
    assert_eq!(done.choices[0].message.tool_call_id, None);
}

#[test]
fn finalize_drops_tool_call_pieces() {
    let mut p = piece(0, Some(ChatCompletionMessageRole::Assistant), None);
    p.finish_reason = Some("function_call".to_string());
    p.delta.function_call = Some(ChatCompletionFunctionCallDelta { name: Some("f".to_string()), arguments: None });
    p.delta.tool_calls = Some(vec![ToolCallDelta {
        index: 0,
        id: Some("call_1".to_string()),
        kind: Some(FunctionType::Function),
        function: Some(ToolCallFunction { name: "f".to_string(), arguments: "{}".to_string() }),
    }]);
    let done: ChatCompletion = fragment("X", vec![p]).into();
    assert_eq!(done.choices[0].message.tool_calls, Some(Vec::new()));
    assert_eq!(done.choices[0].finish_reason, "function_call");
    assert_eq!(done.choices[0].message.role, ChatCompletionMessageRole::Assistant);
    assert_eq!(
        done.choices[0].message.function_call,
        Some(ChatCompletionFunctionCall { name: "f".to_string(), arguments: "".to_string() })
    );
}

#[test]
fn stream_then_finalize() {
    let mut acc = fragment("X", vec![piece(0, Some(ChatCompletionMessageRole::Assistant), Some("Hel"))]);
    acc.merge(fragment("X", vec![piece(0, None, Some("lo!"))])).unwrap();
    let done = ChatCompletion::from(acc);
    assert_eq!(done.choices[0].message.content.as_deref(), Some("Hello!"));
    assert_eq!(done.choices[0].message.role, ChatCompletionMessageRole::Assistant);
    assert_eq!(done.model, "gpt-4o");
    assert_eq!(done.created, 1700000000);
}

#[test]
fn function_call_from_delta_fills_empty_text() {
    let f = ChatCompletionFunctionCall::from(ChatCompletionFunctionCallDelta { name: None, arguments: Some("{}".to_string()) });
    assert_eq!(f.name, "");
    assert_eq!(f.arguments, "{}");
}

#[test]
fn merge_error_messages() {
    assert_eq!(ChatCompletionDeltaMergeError::DifferentCompletionIds.message(), "Different completion IDs");
    assert_eq!(ChatCompletionDeltaMergeError::DifferentCompletionChoiceIndices.message(), "Different completion choice indices");
    assert_eq!(ChatCompletionDeltaMergeError::FunctionCallArgumentTypeMismatch.message(), "Function call argument type mismatch");
}

#[test]
fn none_or_empty_lists() {
    assert!(is_none_or_empty_vec::<u8>(&None));
    assert!(is_none_or_empty_vec::<u8>(&Some(vec![])));
    assert!(!is_none_or_empty_vec(&Some(vec![1u8])));
}

#[test]
fn default_role_is_user() {
    assert_eq!(ChatCompletionMessageRole::default(), ChatCompletionMessageRole::User);
}
