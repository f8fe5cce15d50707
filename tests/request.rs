use openai::chat::{ChatCompletion, ChatCompletionMessage, ChatCompletionMessageRole, FunctionType};
use openai::request::{
    ChatCompletionBuilder, ChatCompletionBuilderError, ChatCompletionResponseFormat, FunctionChoice,
    ToolChoice, ToolChoiceMode,
};
use openai::stream::{pump_step, PumpAction, PumpEvent, StreamEnd};

#[test]
fn builder_clone_and_eq() {
    let builder_a = ChatCompletion::builder("gpt-4", [])
        .temperature(0.0f32.to_bits())
        .seed(65u64);
    let builder_b = builder_a.clone();
    let builder_c = builder_b.clone().temperature(1.0f32.to_bits());
    let builder_d = ChatCompletionBuilder::default();
    assert_eq!(builder_a, builder_b);
    assert_ne!(builder_a, builder_c);
    assert_ne!(builder_b, builder_c);
    assert_ne!(builder_a, builder_d);
    assert_ne!(builder_c, builder_d);
}

#[test]
fn build_requires_model_and_messages() {
    assert_eq!(ChatCompletionBuilder::default().build().unwrap_err(), ChatCompletionBuilderError::UninitializedField("model"));
    assert_eq!(
        ChatCompletionBuilder::default().model("gpt-4").build().unwrap_err(),
        ChatCompletionBuilderError::UninitializedField("messages")
    );
}

#[test]
fn build_fills_defaults() {
    let message = ChatCompletionMessage {
        role: ChatCompletionMessageRole::User,
        content: Some("Hello!".to_string()),
        ..Default::default()
    };
    let request = ChatCompletion::builder("gpt-3.5-turbo", [message.clone()])
        .seed(1337)
        .streaming()
        .response_format(ChatCompletionResponseFormat::text())
        .build()
        .unwrap();
    assert_eq!(request.model, "gpt-3.5-turbo");
    assert_eq!(request.messages, vec![message]);
    assert_eq!(request.seed, Some(1337));
    assert_eq!(request.stream, Some(true));
    assert_eq!(request.temperature, None);
    assert_eq!(request.user, "");
    assert!(request.stop.is_empty());
    assert!(request.tools.is_empty());
    assert_eq!(request.response_format, Some(ChatCompletionResponseFormat::Text));
    assert_eq!(f32::from_bits(ChatCompletion::builder("m", vec![]).temperature(0.2f32.to_bits()).build().unwrap().temperature.unwrap()), 0.2f32);
}

#[test]
fn tool_choice_constructors() {
    assert_eq!(ToolChoice::mode(ToolChoiceMode::Auto), ToolChoice::Mode(ToolChoiceMode::Auto));
    assert_eq!(
        ToolChoice::function("Character".to_string()),
        ToolChoice::Function { kind: FunctionType::Function, function: FunctionChoice { name: "Character".to_string() } }
    );
    assert_eq!(ChatCompletionResponseFormat::json_object(), ChatCompletionResponseFormat::JsonObject);
}

#[test]
fn pump_decisions() {
    assert!(matches!(pump_step(PumpEvent::Opened), PumpAction::Pull));
    assert!(matches!(pump_step(PumpEvent::Undecodable), PumpAction::Stop(StreamEnd::DecodeFailed)));
    assert!(matches!(pump_step(PumpEvent::TransportFailed), PumpAction::Stop(StreamEnd::TransportFailed)));
    assert!(matches!(pump_step(PumpEvent::Exhausted), PumpAction::Stop(StreamEnd::Finished)));
    assert!(matches!(pump_step(PumpEvent::ReceiverGone), PumpAction::Stop(StreamEnd::ReceiverGone)));
    let fragment = openai::chat::ChatCompletionDelta {
        id: "X".to_string(),
        object: "chat.completion.chunk".to_string(),
        created: 1,
        model: "m".to_string(),
        choices: vec![],
        usage: None,
    };
    match pump_step(PumpEvent::Fragment(fragment.clone())) {
        PumpAction::Forward(f) => assert_eq!(f, fragment),
        _ => panic!("a decoded fragment is forwarded"),
    }
}
