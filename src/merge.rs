//! Folding streamed fragments into an accumulated fragment.
use vstd::prelude::*;
use crate::chat::{
    ChatCompletionChoiceDelta, ChatCompletionDelta, ChoiceDeltaModel, CompletionModel,
    FunctionCallDeltaModel, MessageDeltaModel, clone_text,
};

verus! {

/// Why a fragment could not be merged.
#[derive(Debug, Clone, Copy, PartialEq, Eq, Structural)]
pub enum ChatCompletionDeltaMergeError {
    DifferentCompletionIds,
    DifferentCompletionChoiceIndices,
    FunctionCallArgumentTypeMismatch,
}

impl ChatCompletionDeltaMergeError {
    /// A short human-readable description of the error.
    pub fn message(&self) -> (r: &'static str)
        ensures
            *self == ChatCompletionDeltaMergeError::DifferentCompletionIds ==> r@
                == "Different completion IDs"@,
            *self == ChatCompletionDeltaMergeError::DifferentCompletionChoiceIndices ==> r@
                == "Different completion choice indices"@,
            *self == ChatCompletionDeltaMergeError::FunctionCallArgumentTypeMismatch ==> r@
                == "Function call argument type mismatch"@,
    {
        match self {
            ChatCompletionDeltaMergeError::DifferentCompletionIds => "Different completion IDs",
            ChatCompletionDeltaMergeError::DifferentCompletionChoiceIndices => {
                "Different completion choice indices"
            },
            ChatCompletionDeltaMergeError::FunctionCallArgumentTypeMismatch => {
                "Function call argument type mismatch"
            },
        }
    }
}

/// Text extended by a streamed chunk: the chunk is appended to text already
/// held, and adopted when none is held yet.
pub open spec fn append_text(acc: Option<Seq<char>>, chunk: Option<Seq<char>>) -> Option<
    Seq<char>,
> {
    match (acc, chunk) {
        (Some(a), Some(c)) => Some(a + c),
        (Some(a), None) => Some(a),
        (None, c) => c,
    }
}

/// A value that, once set, is kept: the incoming one is adopted only while
/// none is held.
pub open spec fn first_set<T>(acc: Option<T>, incoming: Option<T>) -> Option<T> {
    if acc is Some {
        acc
    } else {
        incoming
    }
}

/// The function-call piece after a merge: adopted whole when none is held;
/// otherwise its name is kept and its arguments are extended.
pub open spec fn merge_function_call(
    acc: Option<FunctionCallDeltaModel>,
    incoming: Option<FunctionCallDeltaModel>,
) -> Option<FunctionCallDeltaModel> {
    match (acc, incoming) {
        (Some(f), Some(g)) => Some(
            FunctionCallDeltaModel { name: f.name, arguments: append_text(f.arguments, g.arguments) },
        ),
        (Some(f), None) => Some(f),
        (None, g) => g,
    }
}

/// A choice piece after one incoming piece of the same index is merged into
/// it. Index, finish reason and tool calls are not touched.
pub open spec fn merge_choice(acc: ChoiceDeltaModel, incoming: ChoiceDeltaModel) -> ChoiceDeltaModel {
    ChoiceDeltaModel {
        index: acc.index,
        finish_reason: acc.finish_reason,
        delta: MessageDeltaModel {
            role: first_set(acc.delta.role, incoming.delta.role),
            content: append_text(acc.delta.content, incoming.delta.content),
            name: first_set(acc.delta.name, incoming.delta.name),
            function_call: merge_function_call(acc.delta.function_call, incoming.delta.function_call),
            tool_call_id: acc.delta.tool_call_id,
            tool_calls: acc.delta.tool_calls,
        },
    }
}

/// A held choice piece after the first `n` incoming pieces are folded into
/// it, in order; those of another index are passed over.
pub open spec fn absorb(acc: ChoiceDeltaModel, incoming: Seq<ChoiceDeltaModel>, n: nat) -> ChoiceDeltaModel
    decreases n,
{
    if n == 0 {
        acc
    } else {
        let prev = absorb(acc, incoming, (n - 1) as nat);
        if incoming[n - 1].index == prev.index {
            merge_choice(prev, incoming[n - 1])
        } else {
            prev
        }
    }
}

/// An accumulated fragment after another fragment of the same completion is
/// merged into it: each held choice absorbs every incoming choice of its
/// index, and no choice is added.
pub open spec fn merge_completion(
    acc: CompletionModel<ChoiceDeltaModel>,
    incoming: CompletionModel<ChoiceDeltaModel>,
) -> CompletionModel<ChoiceDeltaModel> {
    CompletionModel {
        id: acc.id,
        object: acc.object,
        created: acc.created,
        model: acc.model,
        choices: Seq::new(
            acc.choices.len(),
            |j: int| absorb(acc.choices[j], incoming.choices, incoming.choices.len()),
        ),
        usage: acc.usage,
    }
}

/// Content is extended by concatenation however the chunks are grouped:
/// merging two pieces of a choice in turn leaves the same content as merging
/// one piece whose chunk is their two chunks joined in arrival order.
pub proof fn lemma_content_append_associative(
    acc: ChoiceDeltaModel,
    first: ChoiceDeltaModel,
    second: ChoiceDeltaModel,
)
    requires
        first.index == acc.index,
        second.index == acc.index,
    ensures
        merge_choice(merge_choice(acc, first), second).delta.content == merge_choice(
            acc,
            ChoiceDeltaModel {
                delta: MessageDeltaModel {
                    content: append_text(first.delta.content, second.delta.content),
                    ..first.delta
                },
                ..first
            },
        ).delta.content,
{
    match (acc.delta.content, first.delta.content, second.delta.content) {
        (Some(a), Some(b), Some(c)) => {
            assert(a + b + c =~= a + (b + c));
        },
        _ => {},
    }
}

/// A held choice is untouched by incoming pieces none of which has its index.
proof fn lemma_absorb_foreign(acc: ChoiceDeltaModel, incoming: Seq<ChoiceDeltaModel>, n: nat)
    requires
        n <= incoming.len(),
        forall|i: int| 0 <= i < n ==> #[trigger] incoming[i].index != acc.index,
    ensures
        absorb(acc, incoming, n) == acc,
    decreases n,
{
    if n > 0 {
        lemma_absorb_foreign(acc, incoming, (n - 1) as nat);
    }
}

/// Incoming choices whose index the accumulated fragment does not hold are
/// dropped: a fragment made only of such choices leaves it as it was.
pub proof fn lemma_unknown_choices_dropped(
    acc: CompletionModel<ChoiceDeltaModel>,
    incoming: CompletionModel<ChoiceDeltaModel>,
)
    requires
        forall|i: int, j: int|
            0 <= i < incoming.choices.len() && 0 <= j < acc.choices.len()
                ==> #[trigger] incoming.choices[i].index != #[trigger] acc.choices[j].index,
    ensures
        merge_completion(acc, incoming) == acc,
{
    assert forall|j: int| 0 <= j < acc.choices.len() implies #[trigger] absorb(
        acc.choices[j],
        incoming.choices,
        incoming.choices.len(),
    ) == acc.choices[j] by {
        assert forall|i: int| 0 <= i < incoming.choices.len() implies #[trigger] incoming.choices[i].index
            != acc.choices[j].index by {}
        lemma_absorb_foreign(acc.choices[j], incoming.choices, incoming.choices.len());
    }
    assert(merge_completion(acc, incoming).choices =~= acc.choices);
}

impl ChatCompletionChoiceDelta {
    /// Merges a piece of the same choice into `self`.
    pub fn merge(&mut self, other: &ChatCompletionChoiceDelta) -> (r: Result<
        (),
        ChatCompletionDeltaMergeError,
    >)
        ensures
            old(self).index != other.index ==> r == Err::<(), _>(
                ChatCompletionDeltaMergeError::DifferentCompletionChoiceIndices,
            ) && *final(self) == *old(self),
            old(self).index == other.index ==> r is Ok && final(self)@ == merge_choice(
                old(self)@,
                other@,
            ),
    {
        if self.index != other.index {
            return Err(ChatCompletionDeltaMergeError::DifferentCompletionChoiceIndices);
        }
        if self.delta.role.is_none() {
            if let Some(other_role) = other.delta.role {
                self.delta.role = Some(other_role);
            }
        }
        if self.delta.name.is_none() {
            if let Some(other_name) = &other.delta.name {
                self.delta.name = Some(other_name.clone());
            }
        }
        match &mut self.delta.content {
            Some(content) => {
                if let Some(other_content) = &other.delta.content {
                    content.append(other_content.as_str());
                }
            },
            None => {
                if let Some(other_content) = &other.delta.content {
                    self.delta.content = Some(other_content.clone());
                }
            },
        }
        match &mut self.delta.function_call {
            Some(function_call) => {
                if let Some(other_function_call) = &other.delta.function_call {
                    match (&mut function_call.arguments, &other_function_call.arguments) {
                        (Some(arguments), Some(other_arguments)) => {
                            arguments.append(other_arguments.as_str());
                        },
                        (None, Some(other_arguments)) => {
                            function_call.arguments = Some(other_arguments.clone());
                        },
                        _ => {},
                    }
                }
            },
            None => {
                if let Some(other_function_call) = &other.delta.function_call {
                    self.delta.function_call = Some(
                        crate::chat::ChatCompletionFunctionCallDelta {
                            name: clone_text(&other_function_call.name),
                            arguments: clone_text(&other_function_call.arguments),
                        },
                    );
                }
            },
        }
        Ok(())
    }
}

impl ChatCompletionDelta {
    /// Merges a later fragment of the same completion into `self`, the
    /// accumulated fragment. Fails, changing nothing, when the fragment
    /// belongs to another completion. An incoming choice whose index `self`
    /// does not hold is dropped.
    pub fn merge(&mut self, other: ChatCompletionDelta) -> (r: Result<
        (),
        ChatCompletionDeltaMergeError,
    >)
        ensures
            old(self)@.id != other@.id ==> r == Err::<(), _>(
                ChatCompletionDeltaMergeError::DifferentCompletionIds,
            ) && *final(self) == *old(self),
            old(self)@.id == other@.id ==> r is Ok && final(self)@ == merge_completion(
                old(self)@,
                other@,
            ),
    {
        if self.id != other.id {
            return Err(ChatCompletionDeltaMergeError::DifferentCompletionIds);
        }
        let ghost before = self@;
        let ghost incoming = other@.choices;
        let mut i: usize = 0;
        while i < other.choices.len()
            invariant
                i <= other.choices.len(),
                incoming == other@.choices,
                self@.id == before.id,
                self@.object == before.object,
                self@.created == before.created,
                self@.model == before.model,
                self@.usage == before.usage,
                self.choices.len() == before.choices.len(),
                forall|j: int|
                    0 <= j < self.choices.len() ==> #[trigger] self.choices@[j]@ == absorb(
                        before.choices[j],
                        incoming,
                        i as nat,
                    ),
            decreases other.choices.len() - i,
        {
            let other_choice = &other.choices[i];
            let mut j: usize = 0;
            while j < self.choices.len()
                invariant
                    i < other.choices.len(),
                    j <= self.choices.len(),
                    incoming == other@.choices,
                    *other_choice == other.choices@[i as int],
                    self@.id == before.id,
                    self@.object == before.object,
                    self@.created == before.created,
                    self@.model == before.model,
                    self@.usage == before.usage,
                    self.choices.len() == before.choices.len(),
                    forall|k: int|
                        0 <= k < j ==> #[trigger] self.choices@[k]@ == absorb(
                            before.choices[k],
                            incoming,
                            (i + 1) as nat,
                        ),
                    forall|k: int|
                        j <= k < self.choices.len() ==> #[trigger] self.choices@[k]@ == absorb(
                            before.choices[k],
                            incoming,
                            i as nat,
                        ),
                decreases self.choices.len() - j,
            {
                if self.choices[j].index == other_choice.index {
                    let _ = self.choices[j].merge(other_choice);
                }
                j += 1;
            }
            i += 1;
        }
        proof {
            assert(self@.choices =~= merge_completion(before, other@).choices);
        }
        Ok(())
    }
}

} // verus!
