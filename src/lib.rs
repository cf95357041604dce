//! Normalisation of language-model completion responses: recovery of
//! tool-call markup embedded in assistant text, and reconciliation of the
//! provider's finish reason with what the message still carries.

pub mod json;
pub mod laws;
pub mod markup;
pub mod model;
pub mod process;

pub use model::{
    Choice, Completion, CompletionData, FunctionData, MarkupDecodeError, Message, Model, Price,
    ToolCall, Usage, Words,
};
