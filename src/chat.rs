//! Completions, streamed fragments of completions, and their models.
use vstd::prelude::*;
use crate::Usage;

verus! {

/// The author of a message.
#[derive(Debug, Clone, Copy, PartialEq, Eq, Structural)]
pub enum ChatCompletionMessageRole {
    System,
    User,
    Assistant,
    Function,
    Tool,
    Developer,
}

impl Default for ChatCompletionMessageRole {
    fn default() -> (r: Self)
        ensures
            r == ChatCompletionMessageRole::User,
    {
        ChatCompletionMessageRole::User
    }
}

/// A completion envelope, generic over the shape of its choices.
#[derive(Debug, Clone, PartialEq, Eq)]
pub struct ChatCompletionGeneric<C> {
    pub id: String,
    pub object: String,
    pub created: u64,
    pub model: String,
    pub choices: Vec<C>,
    pub usage: Option<Usage>,
}

/// A full chat completion.
pub type ChatCompletion = ChatCompletionGeneric<ChatCompletionChoice>;

/// A fragment of a chat completion, as streamed.
pub type ChatCompletionDelta = ChatCompletionGeneric<ChatCompletionChoiceDelta>;

/// The model of a completion envelope.
pub ghost struct CompletionModel<V> {
    pub id: Seq<char>,
    pub object: Seq<char>,
    pub created: u64,
    pub model: Seq<char>,
    pub choices: Seq<V>,
    pub usage: Option<Usage>,
}

impl<C: View> View for ChatCompletionGeneric<C> {
    type V = CompletionModel<C::V>;

    open spec fn view(&self) -> CompletionModel<C::V> {
        CompletionModel {
            id: self.id@,
            object: self.object@,
            created: self.created,
            model: self.model@,
            choices: self.choices@.map_values(|c: C| c@),
            usage: self.usage,
        }
    }
}

/// The kind of a tool; functions are the only kind.
#[derive(Debug, Clone, Copy, PartialEq, Eq, Structural)]
pub enum FunctionType {
    Function,
}

/// The function that the model called through a tool.
#[derive(Debug, Clone, PartialEq, Eq)]
pub struct ToolCallFunction {
    /// The name of the function to call.
    pub name: String,
    /// The arguments to call the function with, as the model wrote them.
    pub arguments: String,
}

/// A tool invocation requested by the model.
#[derive(Debug, Clone, PartialEq, Eq)]
pub struct ToolCall {
    /// The identifier of the tool call.
    pub id: String,
    /// The kind of the tool (the `type` field on the wire).
    pub kind: FunctionType,
    /// The function that the model called.
    pub function: ToolCallFunction,
}

/// A piece of a tool invocation, as streamed.
#[derive(Debug, Clone, PartialEq, Eq)]
pub struct ToolCallDelta {
    /// The tool call that this piece belongs to, within its choice.
    pub index: i64,
    pub id: Option<String>,
    /// The kind of the tool (the `type` field on the wire).
    pub kind: Option<FunctionType>,
    pub function: Option<ToolCallFunction>,
}

/// The single function call of the older function-calling interface.
#[derive(Debug, Clone, PartialEq, Eq)]
pub struct ChatCompletionFunctionCall {
    pub name: String,
    pub arguments: String,
}

/// A piece of the single function call, as streamed.
#[derive(Debug, Clone, PartialEq, Eq)]
pub struct ChatCompletionFunctionCallDelta {
    pub name: Option<String>,
    pub arguments: Option<String>,
}

/// A message of a conversation or of a completion.
#[derive(Debug, Clone, PartialEq, Eq, Default)]
pub struct ChatCompletionMessage {
    /// The role of the author of this message.
    pub role: ChatCompletionMessageRole,
    /// The contents of the message.
    pub content: Option<String>,
    /// The name of the user in a multi-user chat.
    pub name: Option<String>,
    /// The function that the model called (older interface).
    pub function_call: Option<ChatCompletionFunctionCall>,
    /// The tool call that this message answers; required when the role is `Tool`.
    pub tool_call_id: Option<String>,
    /// The tool calls that the assistant asks for.
    pub tool_calls: Option<Vec<ToolCall>>,
}

/// A piece of a message, as streamed.
#[derive(Debug, Clone, PartialEq, Eq)]
pub struct ChatCompletionMessageDelta {
    pub role: Option<ChatCompletionMessageRole>,
    pub content: Option<String>,
    pub name: Option<String>,
    pub function_call: Option<ChatCompletionFunctionCallDelta>,
    pub tool_call_id: Option<String>,
    pub tool_calls: Option<Vec<ToolCallDelta>>,
}

/// One of the parallel generations of a completion.
#[derive(Debug, Clone, PartialEq, Eq)]
pub struct ChatCompletionChoice {
    pub index: u64,
    pub finish_reason: String,
    pub message: ChatCompletionMessage,
}

/// A piece of one of the parallel generations, as streamed.
#[derive(Debug, Clone, PartialEq, Eq)]
pub struct ChatCompletionChoiceDelta {
    pub index: u64,
    pub finish_reason: Option<String>,
    pub delta: ChatCompletionMessageDelta,
}

/// The model of a streamed function-call piece.
pub ghost struct FunctionCallDeltaModel {
    pub name: Option<Seq<char>>,
    pub arguments: Option<Seq<char>>,
}

/// The model of a function call.
pub ghost struct FunctionCallModel {
    pub name: Seq<char>,
    pub arguments: Seq<char>,
}

/// The model of a streamed message piece.
pub ghost struct MessageDeltaModel {
    pub role: Option<ChatCompletionMessageRole>,
    pub content: Option<Seq<char>>,
    pub name: Option<Seq<char>>,
    pub function_call: Option<FunctionCallDeltaModel>,
    pub tool_call_id: Option<Seq<char>>,
    pub tool_calls: Option<Seq<ToolCallDelta>>,
}

/// The model of a message.
pub ghost struct MessageModel {
    pub role: ChatCompletionMessageRole,
    pub content: Option<Seq<char>>,
    pub name: Option<Seq<char>>,
    pub function_call: Option<FunctionCallModel>,
    pub tool_call_id: Option<Seq<char>>,
    pub tool_calls: Option<Seq<ToolCall>>,
}

/// The model of a streamed choice piece.
pub ghost struct ChoiceDeltaModel {
    pub index: u64,
    pub finish_reason: Option<Seq<char>>,
    pub delta: MessageDeltaModel,
}

/// The model of a choice.
pub ghost struct ChoiceModel {
    pub index: u64,
    pub finish_reason: Seq<char>,
    pub message: MessageModel,
}

impl View for ChatCompletionFunctionCallDelta {
    type V = FunctionCallDeltaModel;

    open spec fn view(&self) -> FunctionCallDeltaModel {
        FunctionCallDeltaModel { name: opt_text(self.name), arguments: opt_text(self.arguments) }
    }
}

impl View for ChatCompletionFunctionCall {
    type V = FunctionCallModel;

    open spec fn view(&self) -> FunctionCallModel {
        FunctionCallModel { name: self.name@, arguments: self.arguments@ }
    }
}

impl View for ChatCompletionMessageDelta {
    type V = MessageDeltaModel;

    open spec fn view(&self) -> MessageDeltaModel {
        MessageDeltaModel {
            role: self.role,
            content: opt_text(self.content),
            name: opt_text(self.name),
            function_call: match self.function_call {
                Some(f) => Some(f@),
                None => None,
            },
            tool_call_id: opt_text(self.tool_call_id),
            tool_calls: match self.tool_calls {
                Some(v) => Some(v@),
                None => None,
            },
        }
    }
}

impl View for ChatCompletionMessage {
    type V = MessageModel;

    open spec fn view(&self) -> MessageModel {
        MessageModel {
            role: self.role,
            content: opt_text(self.content),
            name: opt_text(self.name),
            function_call: match self.function_call {
                Some(f) => Some(f@),
                None => None,
            },
            tool_call_id: opt_text(self.tool_call_id),
            tool_calls: match self.tool_calls {
                Some(v) => Some(v@),
                None => None,
            },
        }
    }
}

impl View for ChatCompletionChoiceDelta {
    type V = ChoiceDeltaModel;

    open spec fn view(&self) -> ChoiceDeltaModel {
        ChoiceDeltaModel {
            index: self.index,
            finish_reason: opt_text(self.finish_reason),
            delta: self.delta@,
        }
    }
}

impl View for ChatCompletionChoice {
    type V = ChoiceModel;

    open spec fn view(&self) -> ChoiceModel {
        ChoiceModel { index: self.index, finish_reason: self.finish_reason@, message: self.message@ }
    }
}

/// The text of an optional string.
pub open spec fn opt_text(s: Option<String>) -> Option<Seq<char>> {
    match s {
        Some(t) => Some(t@),
        None => None,
    }
}

/// Whether an optional list is absent or empty; such a list is left out
/// when a message is sent.
pub fn is_none_or_empty_vec<T>(opt: &Option<Vec<T>>) -> (r: bool)
    ensures
        r == match opt {
            Some(v) => v@.len() == 0,
            None => true,
        },
{
    match opt {
        Some(v) => v.len() == 0,
        None => true,
    }
}

/// A copy of an optional string.
pub(crate) fn clone_text(s: &Option<String>) -> (r: Option<String>)
    ensures
        opt_text(r) == opt_text(*s),
{
    match s {
        Some(t) => Some(t.clone()),
        None => None,
    }
}

} // verus!
