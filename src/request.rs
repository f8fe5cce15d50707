//! The parameters of a completion request, and the builder that gathers them.
use vstd::prelude::*;
use crate::Credentials;
use crate::chat::{ChatCompletionGeneric, ChatCompletionMessage, FunctionType};
use std::collections::HashMap;

verus! {

/// A JSON document, carried through unread (a function's parameter schema).
#[verifier::external_type_specification]
#[verifier::external_body]
pub struct ExValue(serde_json::Value);

/// How much effort a reasoning model spends.
#[derive(Debug, Clone, Copy, PartialEq, Eq, Structural)]
pub enum ChatCompletionReasoningEffort {
    Low,
    Medium,
    High,
}

/// Parameters that only one compatible service reads.
#[derive(Debug, Clone, Copy, PartialEq, Eq, Structural)]
pub struct VeniceParameters {
    pub include_venice_system_prompt: bool,
}

/// How freely the model may call tools.
#[derive(Debug, Clone, Copy, PartialEq, Eq, Structural)]
pub enum ToolChoiceMode {
    /// No tool is called (`none` on the wire).
    Disabled,
    Auto,
    Required,
}

/// A function named by the caller.
#[derive(Debug, Clone, PartialEq, Eq)]
pub struct FunctionChoice {
    /// The name of the function to call.
    pub name: String,
}

/// Which tool, if any, the model calls.
#[derive(Debug, Clone, PartialEq, Eq)]
pub enum ToolChoice {
    /// `Disabled`: no tool; `Auto`: the model decides; `Required`: at least one tool.
    Mode(ToolChoiceMode),
    /// The model calls the named function.
    Function {
        /// The kind of the tool (the `type` field on the wire).
        kind: FunctionType,
        function: FunctionChoice,
    },
}

impl ToolChoice {
    /// The choice of one of the modes.
    pub fn mode(mode: ToolChoiceMode) -> (r: Self)
        ensures
            r == ToolChoice::Mode(mode),
    {
        ToolChoice::Mode(mode)
    }

    /// The choice of the function of the given name.
    pub fn function(name: String) -> (r: Self)
        ensures
            r == (ToolChoice::Function { kind: FunctionType::Function, function: FunctionChoice { name } }),
    {
        ToolChoice::Function { kind: FunctionType::Function, function: FunctionChoice { name } }
    }
}

/// A function that the model may call, described by a JSON schema.
#[derive(Debug, Clone, PartialEq, Eq)]
pub struct ToolCallFunctionDefinition {
    pub name: String,
    pub description: Option<String>,
    pub parameters: Option<serde_json::Value>,
    pub strict: Option<bool>,
}

/// A tool that the model may call.
#[derive(Debug, Clone, PartialEq, Eq)]
pub enum ChatCompletionTool {
    Function { function: ToolCallFunctionDefinition },
}

/// A JSON schema that the model's answer must follow.
#[derive(Debug, Clone, PartialEq, Eq)]
pub struct ChatCompletionResponseFormatJsonSchema {
    pub name: String,
    pub description: Option<String>,
    pub schema: Option<serde_json::Value>,
    pub strict: Option<bool>,
}

/// The format of the model's answer.
#[derive(Debug, Clone, PartialEq, Eq)]
pub enum ChatCompletionResponseFormat {
    Text,
    JsonObject,
    JsonSchema { json_schema: ChatCompletionResponseFormatJsonSchema },
}

impl ChatCompletionResponseFormat {
    /// Plain text answers.
    pub fn text() -> (r: Self)
        ensures
            r == ChatCompletionResponseFormat::Text,
    {
        ChatCompletionResponseFormat::Text
    }

    /// Answers that are one JSON object.
    pub fn json_object() -> (r: Self)
        ensures
            r == ChatCompletionResponseFormat::JsonObject,
    {
        ChatCompletionResponseFormat::JsonObject
    }
}

/// A function of the older function-calling interface.
#[derive(Debug, Clone, PartialEq, Eq)]
pub struct ChatCompletionFunctionDefinition {
    /// The name of the function.
    pub name: String,
    /// What the function does.
    pub description: Option<String>,
    /// The parameters of the function, as a JSON schema.
    pub parameters: Option<serde_json::Value>,
}

/// The parameters of one completion request. Where the service takes a
/// floating-point number, the request holds its IEEE-754 bit pattern.
#[derive(Debug, Clone, PartialEq)]
pub struct ChatCompletionRequest {
    /// The model to use.
    pub model: String,
    /// The conversation so far.
    pub messages: Vec<ChatCompletionMessage>,
    /// How much effort a reasoning model spends.
    pub reasoning_effort: Option<ChatCompletionReasoningEffort>,
    /// Sampling temperature, as the bit pattern of an IEEE-754 single (`f32::to_bits`).
    pub temperature: Option<u32>,
    /// Nucleus sampling mass, as the bit pattern of an IEEE-754 single.
    pub top_p: Option<u32>,
    /// How many choices to generate.
    pub n: Option<u8>,
    /// Whether the answer is streamed as fragments.
    pub stream: Option<bool>,
    /// Sequences at which generation stops.
    pub stop: Vec<String>,
    /// Seed for best-effort deterministic sampling.
    pub seed: Option<u64>,
    /// Largest number of tokens to generate (older name).
    pub max_tokens: Option<u64>,
    /// Largest number of tokens to generate.
    pub max_completion_tokens: Option<u64>,
    /// Presence penalty, as the bit pattern of an IEEE-754 single.
    pub presence_penalty: Option<u32>,
    /// Frequency penalty, as the bit pattern of an IEEE-754 single.
    pub frequency_penalty: Option<u32>,
    /// Bias per token, each as the bit pattern of an IEEE-754 single.
    pub logit_bias: Option<HashMap<String, u32>>,
    /// An identifier of the end user.
    pub user: String,
    /// Tools that the model may call.
    pub tools: Vec<ChatCompletionTool>,
    /// Which tool, if any, the model calls.
    pub tool_choice: Option<ToolChoice>,
    /// Whether tools may be called in parallel.
    pub parallel_tool_calls: Option<bool>,
    /// Functions that the model may call (older interface).
    pub functions: Vec<ChatCompletionFunctionDefinition>,
    /// Which function the model calls (older interface).
    pub function_call: Option<serde_json::Value>,
    /// The format of the answer.
    pub response_format: Option<ChatCompletionResponseFormat>,
    /// The credentials used for this request; never sent in its body.
    pub credentials: Option<Credentials>,
    /// Parameters that only one compatible service reads.
    pub venice_parameters: Option<VeniceParameters>,
}

/// Why a request could not be built.
#[derive(Debug, Clone, Copy, PartialEq, Eq)]
pub enum ChatCompletionBuilderError {
    /// A required field was never set; its name is given.
    UninitializedField(&'static str),
}

/// Gathers the parameters of a request; every field starts unset.
#[derive(Debug, Clone, PartialEq)]
pub struct ChatCompletionBuilder {
    pub model: Option<String>,
    pub messages: Option<Vec<ChatCompletionMessage>>,
    pub reasoning_effort: Option<Option<ChatCompletionReasoningEffort>>,
    pub temperature: Option<Option<u32>>,
    pub top_p: Option<Option<u32>>,
    pub n: Option<Option<u8>>,
    pub stream: Option<Option<bool>>,
    pub stop: Option<Vec<String>>,
    pub seed: Option<Option<u64>>,
    pub max_tokens: Option<Option<u64>>,
    pub max_completion_tokens: Option<Option<u64>>,
    pub presence_penalty: Option<Option<u32>>,
    pub frequency_penalty: Option<Option<u32>>,
    pub logit_bias: Option<Option<HashMap<String, u32>>>,
    pub user: Option<String>,
    pub tools: Option<Vec<ChatCompletionTool>>,
    pub tool_choice: Option<Option<ToolChoice>>,
    pub parallel_tool_calls: Option<Option<bool>>,
    pub functions: Option<Vec<ChatCompletionFunctionDefinition>>,
    pub function_call: Option<Option<serde_json::Value>>,
    pub response_format: Option<Option<ChatCompletionResponseFormat>>,
    pub credentials: Option<Option<Credentials>>,
    pub venice_parameters: Option<Option<VeniceParameters>>,
}

/// An optional field of a request, unset when the builder never set it.
pub open spec fn or_unset<T>(b: Option<Option<T>>) -> Option<T> {
    match b {
        Some(v) => v,
        None => None,
    }
}

/// The elements of a list field of a request, empty when the builder never
/// set it.
pub open spec fn or_empty<T>(b: Option<Vec<T>>) -> Seq<T> {
    match b {
        Some(v) => v@,
        None => Seq::empty(),
    }
}

/// The request that a builder with every required field set stands for.
pub open spec fn built_from(b: ChatCompletionBuilder, r: ChatCompletionRequest) -> bool {
    &&& b.model == Some(r.model)
    &&& b.messages == Some(r.messages)
    &&& r.reasoning_effort == or_unset(b.reasoning_effort)
    &&& r.temperature == or_unset(b.temperature)
    &&& r.top_p == or_unset(b.top_p)
    &&& r.n == or_unset(b.n)
    &&& r.stream == or_unset(b.stream)
    &&& r.stop@ == or_empty(b.stop)
    &&& r.seed == or_unset(b.seed)
    &&& r.max_tokens == or_unset(b.max_tokens)
    &&& r.max_completion_tokens == or_unset(b.max_completion_tokens)
    &&& r.presence_penalty == or_unset(b.presence_penalty)
    &&& r.frequency_penalty == or_unset(b.frequency_penalty)
    &&& r.logit_bias == or_unset(b.logit_bias)
    &&& r.user@ == match b.user {
        Some(u) => u@,
        None => Seq::empty(),
    }
    &&& r.tools@ == or_empty(b.tools)
    &&& r.tool_choice == or_unset(b.tool_choice)
    &&& r.parallel_tool_calls == or_unset(b.parallel_tool_calls)
    &&& r.functions@ == or_empty(b.functions)
    &&& r.function_call == or_unset(b.function_call)
    &&& r.response_format == or_unset(b.response_format)
    &&& r.credentials == or_unset(b.credentials)
    &&& r.venice_parameters == or_unset(b.venice_parameters)
}

/// A list field of a builder, or an empty list.
fn list_or_empty<T>(b: Option<Vec<T>>) -> (r: Vec<T>)
    ensures
        r@ == or_empty(b),
{
    match b {
        Some(v) => v,
        None => Vec::new(),
    }
}

/// An optional field of a builder, or unset.
fn value_or_unset<T>(b: Option<Option<T>>) -> (r: Option<T>)
    ensures
        r == or_unset(b),
{
    match b {
        Some(v) => v,
        None => None,
    }
}

/// A builder with every field unset.
pub open spec fn unset_builder() -> ChatCompletionBuilder {
    ChatCompletionBuilder {
        model: None,
        messages: None,
        reasoning_effort: None,
        temperature: None,
        top_p: None,
        n: None,
        stream: None,
        stop: None,
        seed: None,
        max_tokens: None,
        max_completion_tokens: None,
        presence_penalty: None,
        frequency_penalty: None,
        logit_bias: None,
        user: None,
        tools: None,
        tool_choice: None,
        parallel_tool_calls: None,
        functions: None,
        function_call: None,
        response_format: None,
        credentials: None,
        venice_parameters: None,
    }
}

impl Default for ChatCompletionBuilder {
    fn default() -> (r: Self)
        ensures
            r == unset_builder(),
    {
        ChatCompletionBuilder {
            model: None,
            messages: None,
            reasoning_effort: None,
            temperature: None,
            top_p: None,
            n: None,
            stream: None,
            stop: None,
            seed: None,
            max_tokens: None,
            max_completion_tokens: None,
            presence_penalty: None,
            frequency_penalty: None,
            logit_bias: None,
            user: None,
            tools: None,
            tool_choice: None,
            parallel_tool_calls: None,
            functions: None,
            function_call: None,
            response_format: None,
            credentials: None,
            venice_parameters: None,
        }
    }
}

impl ChatCompletionBuilder {
    /// The request gathered so far. The model and the messages are required;
    /// every other field defaults to unset or empty.
    pub fn build(self) -> (r: Result<ChatCompletionRequest, ChatCompletionBuilderError>)
        ensures
            self.model is None ==> (r matches Err(ChatCompletionBuilderError::UninitializedField(f)) && f@ == "model"@),
            self.model is Some && self.messages is None ==> (r matches Err(ChatCompletionBuilderError::UninitializedField(f)) && f@ == "messages"@),
            self.model is Some && self.messages is Some ==> (r matches Ok(req) && built_from(self, req)),
    {
        let model = match self.model {
            Some(m) => m,
            None => return Err(ChatCompletionBuilderError::UninitializedField("model")),
        };
        let messages = match self.messages {
            Some(m) => m,
            None => return Err(ChatCompletionBuilderError::UninitializedField("messages")),
        };
        let user = match self.user {
            Some(u) => u,
            None => String::new(),
        };
        Ok(ChatCompletionRequest {
            model,
            messages,
            reasoning_effort: value_or_unset(self.reasoning_effort),
            temperature: value_or_unset(self.temperature),
            top_p: value_or_unset(self.top_p),
            n: value_or_unset(self.n),
            stream: value_or_unset(self.stream),
            stop: list_or_empty(self.stop),
            seed: value_or_unset(self.seed),
            max_tokens: value_or_unset(self.max_tokens),
            max_completion_tokens: value_or_unset(self.max_completion_tokens),
            presence_penalty: value_or_unset(self.presence_penalty),
            frequency_penalty: value_or_unset(self.frequency_penalty),
            logit_bias: value_or_unset(self.logit_bias),
            user,
            tools: list_or_empty(self.tools),
            tool_choice: value_or_unset(self.tool_choice),
            parallel_tool_calls: value_or_unset(self.parallel_tool_calls),
            functions: list_or_empty(self.functions),
            function_call: value_or_unset(self.function_call),
            response_format: value_or_unset(self.response_format),
            credentials: value_or_unset(self.credentials),
            venice_parameters: value_or_unset(self.venice_parameters),
        })
    }

    /// Sets the model.
    pub fn model(self, value: &str) -> (r: Self)
        ensures
            r.model is Some && r.model.unwrap()@ == value@,
            r == (ChatCompletionBuilder { model: r.model, ..self }),
    {
        ChatCompletionBuilder { model: Some(value.to_owned()), ..self }
    }

    /// Sets the conversation.
    pub fn messages(self, value: Vec<ChatCompletionMessage>) -> (r: Self)
        ensures
            r == (ChatCompletionBuilder { messages: Some(value), ..self }),
    {
        ChatCompletionBuilder { messages: Some(value), ..self }
    }

    /// Sets the end user's identifier.
    pub fn user(self, value: &str) -> (r: Self)
        ensures
            r.user is Some && r.user.unwrap()@ == value@,
            r == (ChatCompletionBuilder { user: r.user, ..self }),
    {
        ChatCompletionBuilder { user: Some(value.to_owned()), ..self }
    }

    /// Sets: how much effort a reasoning model spends.
    pub fn reasoning_effort(self, value: ChatCompletionReasoningEffort) -> (r: Self)
        ensures
            r == (ChatCompletionBuilder { reasoning_effort: Some(Some(value)), ..self }),
    {
        ChatCompletionBuilder { reasoning_effort: Some(Some(value)), ..self }
    }

    /// Sets: sampling temperature, as the bit pattern of an IEEE-754 single (`f32::to_bits`).
    pub fn temperature(self, value: u32) -> (r: Self)
        ensures
            r == (ChatCompletionBuilder { temperature: Some(Some(value)), ..self }),
    {
        ChatCompletionBuilder { temperature: Some(Some(value)), ..self }
    }

    /// Sets: nucleus sampling mass, as the bit pattern of an IEEE-754 single.
    pub fn top_p(self, value: u32) -> (r: Self)
        ensures
            r == (ChatCompletionBuilder { top_p: Some(Some(value)), ..self }),
    {
        ChatCompletionBuilder { top_p: Some(Some(value)), ..self }
    }

    /// Sets: how many choices to generate.
    pub fn n(self, value: u8) -> (r: Self)
        ensures
            r == (ChatCompletionBuilder { n: Some(Some(value)), ..self }),
    {
        ChatCompletionBuilder { n: Some(Some(value)), ..self }
    }

    /// Sets: whether the answer is streamed as fragments.
    pub fn stream(self, value: bool) -> (r: Self)
        ensures
            r == (ChatCompletionBuilder { stream: Some(Some(value)), ..self }),
    {
        ChatCompletionBuilder { stream: Some(Some(value)), ..self }
    }

    /// Sets: sequences at which generation stops.
    pub fn stop(self, value: Vec<String>) -> (r: Self)
        ensures
            r == (ChatCompletionBuilder { stop: Some(value), ..self }),
    {
        ChatCompletionBuilder { stop: Some(value), ..self }
    }

    /// Sets: seed for best-effort deterministic sampling.
    pub fn seed(self, value: u64) -> (r: Self)
        ensures
            r == (ChatCompletionBuilder { seed: Some(Some(value)), ..self }),
    {
        ChatCompletionBuilder { seed: Some(Some(value)), ..self }
    }

    /// Sets: largest number of tokens to generate (older name).
    pub fn max_tokens(self, value: u64) -> (r: Self)
        ensures
            r == (ChatCompletionBuilder { max_tokens: Some(Some(value)), ..self }),
    {
        ChatCompletionBuilder { max_tokens: Some(Some(value)), ..self }
    }

    /// Sets: largest number of tokens to generate.
    pub fn max_completion_tokens(self, value: u64) -> (r: Self)
        ensures
            r == (ChatCompletionBuilder { max_completion_tokens: Some(Some(value)), ..self }),
    {
        ChatCompletionBuilder { max_completion_tokens: Some(Some(value)), ..self }
    }

    /// Sets: presence penalty, as the bit pattern of an IEEE-754 single.
    pub fn presence_penalty(self, value: u32) -> (r: Self)
        ensures
            r == (ChatCompletionBuilder { presence_penalty: Some(Some(value)), ..self }),
    {
        ChatCompletionBuilder { presence_penalty: Some(Some(value)), ..self }
    }

    /// Sets: frequency penalty, as the bit pattern of an IEEE-754 single.
    pub fn frequency_penalty(self, value: u32) -> (r: Self)
        ensures
            r == (ChatCompletionBuilder { frequency_penalty: Some(Some(value)), ..self }),
    {
        ChatCompletionBuilder { frequency_penalty: Some(Some(value)), ..self }
    }

    /// Sets: bias per token, each as the bit pattern of an IEEE-754 single.
    pub fn logit_bias(self, value: HashMap<String, u32>) -> (r: Self)
        ensures
            r == (ChatCompletionBuilder { logit_bias: Some(Some(value)), ..self }),
    {
        ChatCompletionBuilder { logit_bias: Some(Some(value)), ..self }
    }

    /// Sets: tools that the model may call.
    pub fn tools(self, value: Vec<ChatCompletionTool>) -> (r: Self)
        ensures
            r == (ChatCompletionBuilder { tools: Some(value), ..self }),
    {
        ChatCompletionBuilder { tools: Some(value), ..self }
    }

    /// Sets: which tool, if any, the model calls.
    pub fn tool_choice(self, value: ToolChoice) -> (r: Self)
        ensures
            r == (ChatCompletionBuilder { tool_choice: Some(Some(value)), ..self }),
    {
        ChatCompletionBuilder { tool_choice: Some(Some(value)), ..self }
    }

    /// Sets: whether tools may be called in parallel.
    pub fn parallel_tool_calls(self, value: bool) -> (r: Self)
        ensures
            r == (ChatCompletionBuilder { parallel_tool_calls: Some(Some(value)), ..self }),
    {
        ChatCompletionBuilder { parallel_tool_calls: Some(Some(value)), ..self }
    }

    /// Sets: functions that the model may call (older interface).
    pub fn functions(self, value: Vec<ChatCompletionFunctionDefinition>) -> (r: Self)
        ensures
            r == (ChatCompletionBuilder { functions: Some(value), ..self }),
    {
        ChatCompletionBuilder { functions: Some(value), ..self }
    }

    /// Sets: which function the model calls (older interface).
    pub fn function_call(self, value: serde_json::Value) -> (r: Self)
        ensures
            r == (ChatCompletionBuilder { function_call: Some(Some(value)), ..self }),
    {
        ChatCompletionBuilder { function_call: Some(Some(value)), ..self }
    }

    /// Sets: the format of the answer.
    pub fn response_format(self, value: ChatCompletionResponseFormat) -> (r: Self)
        ensures
            r == (ChatCompletionBuilder { response_format: Some(Some(value)), ..self }),
    {
        ChatCompletionBuilder { response_format: Some(Some(value)), ..self }
    }

    /// Sets: the credentials used for this request; never sent in its body.
    pub fn credentials(self, value: Credentials) -> (r: Self)
        ensures
            r == (ChatCompletionBuilder { credentials: Some(Some(value)), ..self }),
    {
        ChatCompletionBuilder { credentials: Some(Some(value)), ..self }
    }

    /// Sets: parameters that only one compatible service reads.
    pub fn venice_parameters(self, value: VeniceParameters) -> (r: Self)
        ensures
            r == (ChatCompletionBuilder { venice_parameters: Some(Some(value)), ..self }),
    {
        ChatCompletionBuilder { venice_parameters: Some(Some(value)), ..self }
    }

    /// The builder of a streamed request: `stream` is set to true.
    pub fn streaming(self) -> (r: Self)
        ensures
            r == (ChatCompletionBuilder { stream: Some(Some(true)), ..self }),
    {
        self.stream(true)
    }
}

impl<C> ChatCompletionGeneric<C> {
    /// A builder with the model and the conversation set, and nothing else.
    pub fn builder<M: Into<Vec<ChatCompletionMessage>>>(model: &str, messages: M) -> (r: ChatCompletionBuilder)
        ensures
            r.model is Some && r.model.unwrap()@ == model@,
            r.messages is Some,
            call_ensures(M::into, (messages,), r.messages.unwrap()),
            r == (ChatCompletionBuilder { model: r.model, messages: r.messages, ..unset_builder() }),
    {
        ChatCompletionBuilder::default().model(model).messages(messages.into())
    }
}

} // verus!
