//! Turning an accumulated fragment into a completion.
use vstd::prelude::*;
use crate::merge::{absorb, merge_completion};
use crate::chat::{
    ChatCompletion, ChatCompletionChoice, ChatCompletionDelta, ChatCompletionFunctionCall,
    ChatCompletionFunctionCallDelta, ChatCompletionMessage, ChatCompletionMessageRole,
    ChoiceDeltaModel, ChoiceModel, CompletionModel, FunctionCallDeltaModel, FunctionCallModel,
    MessageModel, ToolCall, clone_text, opt_text,
};

verus! {

/// The text of an optional text, empty when absent.
pub open spec fn text_or_empty(s: Option<Seq<char>>) -> Seq<char> {
    match s {
        Some(t) => t,
        None => Seq::empty(),
    }
}

/// The role given to a finalized message whose pieces never carried one.
pub open spec fn unstreamed_role() -> ChatCompletionMessageRole {
    ChatCompletionMessageRole::System
}

/// A streamed function-call piece as a function call: a missing name or
/// missing arguments become empty text.
pub open spec fn finalize_function_call(f: FunctionCallDeltaModel) -> FunctionCallModel {
    FunctionCallModel { name: text_or_empty(f.name), arguments: text_or_empty(f.arguments) }
}

/// An accumulated choice piece as a choice. The tool calls come out empty,
/// whatever pieces of them were streamed.
pub open spec fn finalize_choice(c: ChoiceDeltaModel) -> ChoiceModel {
    ChoiceModel {
        index: c.index,
        finish_reason: text_or_empty(c.finish_reason),
        message: MessageModel {
            role: match c.delta.role {
                Some(r) => r,
                None => unstreamed_role(),
            },
            content: c.delta.content,
            name: c.delta.name,
            function_call: match c.delta.function_call {
                Some(f) => Some(finalize_function_call(f)),
                None => None,
            },
            tool_call_id: None,
            tool_calls: Some(Seq::empty()),
        },
    }
}

/// An accumulated fragment as a completion: the envelope is kept and each
/// choice is finalized in place.
pub open spec fn finalize_completion(d: CompletionModel<ChoiceDeltaModel>) -> CompletionModel<
    ChoiceModel,
> {
    CompletionModel {
        id: d.id,
        object: d.object,
        created: d.created,
        model: d.model,
        choices: d.choices.map_values(|c: ChoiceDeltaModel| finalize_choice(c)),
        usage: d.usage,
    }
}

/// A choice whose pieces never carried a role keeps none through merging.
proof fn lemma_absorb_keeps_no_role(acc: ChoiceDeltaModel, incoming: Seq<ChoiceDeltaModel>, n: nat)
    requires
        n <= incoming.len(),
        acc.delta.role is None,
        forall|i: int|
            0 <= i < n && (#[trigger] incoming[i]).index == acc.index ==> incoming[i].delta.role is None,
    ensures
        absorb(acc, incoming, n).delta.role is None,
        absorb(acc, incoming, n).index == acc.index,
    decreases n,
{
    if n > 0 {
        lemma_absorb_keeps_no_role(acc, incoming, (n - 1) as nat);
    }
}

/// A choice that received no role, neither in the fragment that started the
/// accumulation nor in a merged fragment, is finalized with the fixed
/// default role, never without one.
pub proof fn lemma_unstreamed_role_defaults(
    acc: CompletionModel<ChoiceDeltaModel>,
    incoming: CompletionModel<ChoiceDeltaModel>,
    j: int,
)
    requires
        0 <= j < acc.choices.len(),
        acc.choices[j].delta.role is None,
        forall|i: int|
            0 <= i < incoming.choices.len() && (#[trigger] incoming.choices[i]).index
                == acc.choices[j].index ==> incoming.choices[i].delta.role is None,
    ensures
        finalize_completion(merge_completion(acc, incoming)).choices[j].message.role
            == unstreamed_role(),
{
    lemma_absorb_keeps_no_role(acc.choices[j], incoming.choices, incoming.choices.len());
}

/// Tool-call pieces seen while merging never reach the completion: every
/// finalized choice has an empty list of tool calls.
pub proof fn lemma_streamed_tool_calls_dropped(
    acc: CompletionModel<ChoiceDeltaModel>,
    incoming: CompletionModel<ChoiceDeltaModel>,
    j: int,
)
    requires
        0 <= j < acc.choices.len(),
    ensures
        finalize_completion(merge_completion(acc, incoming)).choices[j].message.tool_calls == Some(
            Seq::<ToolCall>::empty(),
        ),
{
}

/// The text of an optional string, or an empty string.
fn clone_default_unwrapped_option_string(s: &Option<String>) -> (r: String)
    ensures
        r@ == text_or_empty(opt_text(*s)),
{
    match s {
        Some(value) => value.clone(),
        None => String::new(),
    }
}

impl ChatCompletionFunctionCall {
    /// The function call that a streamed piece stands for; a missing name or
    /// missing arguments become empty strings.
    pub fn from_delta(delta: ChatCompletionFunctionCallDelta) -> (r: ChatCompletionFunctionCall)
        ensures
            r@ == finalize_function_call(delta@),
    {
        ChatCompletionFunctionCall {
            name: clone_default_unwrapped_option_string(&delta.name),
            arguments: clone_default_unwrapped_option_string(&delta.arguments),
        }
    }
}

impl ChatCompletion {
    /// The completion that an accumulated fragment stands for.
    pub fn from_delta(delta: ChatCompletionDelta) -> (r: ChatCompletion)
        ensures
            r@ == finalize_completion(delta@),
            r.choices.len() == delta.choices.len(),
            forall|j: int|
                0 <= j < r.choices.len() ==> #[trigger] r@.choices[j].message.tool_calls == Some(
                    Seq::<ToolCall>::empty(),
                ),
            forall|j: int|
                0 <= j < r.choices.len() && delta@.choices[j].delta.role is None
                    ==> #[trigger] r@.choices[j].message.role == ChatCompletionMessageRole::System,
    {
        let mut choices: Vec<ChatCompletionChoice> = Vec::new();
        let mut i: usize = 0;
        while i < delta.choices.len()
            invariant
                i <= delta.choices.len(),
                choices.len() == i,
                forall|k: int|
                    0 <= k < i ==> #[trigger] choices@[k]@ == finalize_choice(delta@.choices[k]),
            decreases delta.choices.len() - i,
        {
            let c = &delta.choices[i];
            let function_call = match &c.delta.function_call {
                Some(f) => Some(
                    ChatCompletionFunctionCall::from_delta(
                        ChatCompletionFunctionCallDelta {
                            name: clone_text(&f.name),
                            arguments: clone_text(&f.arguments),
                        },
                    ),
                ),
                None => None,
            };
            let role = match c.delta.role {
                Some(r) => r,
                None => ChatCompletionMessageRole::System,
            };
            choices.push(
                ChatCompletionChoice {
                    index: c.index,
                    finish_reason: clone_default_unwrapped_option_string(&c.finish_reason),
                    message: ChatCompletionMessage {
                        role,
                        content: clone_text(&c.delta.content),
                        name: clone_text(&c.delta.name),
                        function_call,
                        tool_call_id: None,
                        tool_calls: Some(Vec::new()),
                    },
                },
            );
            i += 1;
        }
        let r = ChatCompletion {
            id: delta.id,
            object: delta.object,
            created: delta.created,
            model: delta.model,
            choices,
            usage: delta.usage,
        };
        proof {
            assert(r@.choices =~= finalize_completion(delta@).choices);
        }
        r
    }
}

/// Finalization through the standard conversion; what it returns is stated
/// by `ChatCompletion::from_delta`, which it calls.
impl From<ChatCompletionDelta> for ChatCompletion {
    fn from(delta: ChatCompletionDelta) -> (r: ChatCompletion)
        ensures
            r@ == finalize_completion(delta@),
    {
        ChatCompletion::from_delta(delta)
    }
}

impl vstd::std_specs::convert::FromSpecImpl<ChatCompletionDelta> for ChatCompletion {
    open spec fn obeys_from_spec() -> bool {
        false
    }

    open spec fn from_spec(v: ChatCompletionDelta) -> ChatCompletion {
        arbitrary()
    }
}

/// The standard conversion of a function-call piece; what it returns is
/// stated by `ChatCompletionFunctionCall::from_delta`, which it calls.
impl From<ChatCompletionFunctionCallDelta> for ChatCompletionFunctionCall {
    fn from(delta: ChatCompletionFunctionCallDelta) -> (r: ChatCompletionFunctionCall)
        ensures
            r@ == finalize_function_call(delta@),
    {
        ChatCompletionFunctionCall::from_delta(delta)
    }
}

impl vstd::std_specs::convert::FromSpecImpl<ChatCompletionFunctionCallDelta> for
    ChatCompletionFunctionCall {
    open spec fn obeys_from_spec() -> bool {
        false
    }

    open spec fn from_spec(v: ChatCompletionFunctionCallDelta) -> ChatCompletionFunctionCall {
        arbitrary()
    }
}

} // verus!
