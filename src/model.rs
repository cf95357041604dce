//! The shapes of a completion response: messages, choices, tool calls and
//! the bookkeeping that travels with them.
use vstd::prelude::*;

verus! {

/// The name of a function to call and its arguments. The arguments are an
/// arbitrary JSON value, held as its compact JSON text.
#[derive(Clone, Debug)]
pub struct FunctionData {
    pub name: String,
    pub arguments: String,
}

/// A structured call that the assistant asks the caller to make.
#[derive(Clone, Debug)]
pub enum ToolCall {
    Function { id: String, function: FunctionData },
}

/// A message of a conversation, tagged by the role that wrote it.
#[derive(Clone, Debug)]
pub enum Message {
    User { content: String },
    Assistant { content: Option<String>, tool_calls: Option<Vec<ToolCall>> },
    System { content: String },
    Tool { content: String },
}

/// One candidate response of a completion.
#[derive(Clone, Debug)]
pub struct Choice {
    pub message: Message,
    /// Zero-based position of this choice among the completion's choices.
    pub index: u8,
    /// Why the model stopped generating, as the provider labelled it.
    pub finish_reason: String,
}

/// Token counts reported by the provider, passed through as given.
#[derive(Clone, Copy, Debug, PartialEq, Eq)]
pub struct Usage {
    pub prompt_tokens: u32,
    pub completion_tokens: u32,
    pub total_tokens: u32,
}

/// A completion response: its choices and metadata.
#[derive(Clone, Debug)]
pub struct Completion {
    pub choices: Vec<Choice>,
    pub object: String,
    pub id: String,
    pub model: String,
    /// Unix timestamp of creation.
    pub created: u64,
    pub usage: Usage,
}

/// Costs of a request. Each amount is the bit pattern of an IEEE-754
/// single-precision number; this library carries them and never computes
/// with them.
#[derive(Clone, Copy, Debug, PartialEq, Eq)]
pub struct Price {
    pub input: u32,
    pub output: u32,
    pub total: u32,
}

/// Word counts of a request, passed through as given.
#[derive(Clone, Copy, Debug, PartialEq, Eq)]
pub struct Words {
    pub input: u32,
    pub output: u32,
    pub total: u32,
}

/// The completion of one model with its bookkeeping.
#[derive(Clone, Debug)]
pub struct Model {
    pub completion: Completion,
    pub price: Price,
    pub words: Words,
}

/// The results of several models, each under its own label, with totals.
/// The entries stand in no meaningful order.
#[derive(Clone, Debug)]
pub struct CompletionData {
    pub completions: Vec<(String, Model)>,
    pub overall_price: Price,
    pub overall_words: Words,
}

impl CompletionData {
    /// No two entries share a label.
    pub open spec fn wf(&self) -> bool {
        forall|i: int, j: int|
            0 <= i < j < self.completions.len() ==> (#[trigger] self.completions@[i]).0@
                != (#[trigger] self.completions@[j]).0@
    }
}

/// A markup span that is not a JSON object with a text `name` and an
/// `arguments` member.
#[derive(Clone, Copy, Debug, PartialEq, Eq)]
pub struct MarkupDecodeError;

impl Message {
    /// An assistant message that carries text and no tool calls.
    pub fn new_assistant_content(content: String) -> (r: Message)
        ensures
            r == (Message::Assistant { content: Some(content), tool_calls: None }),
    {
        Message::Assistant { content: Some(content), tool_calls: None }
    }

    /// An assistant message that carries tool calls and no text.
    pub fn new_assistant_tool_calls(tool_calls: Vec<ToolCall>) -> (r: Message)
        ensures
            r == (Message::Assistant { content: None, tool_calls: Some(tool_calls) }),
    {
        Message::Assistant { content: None, tool_calls: Some(tool_calls) }
    }
}

} // verus!
