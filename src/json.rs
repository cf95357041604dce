//! Decoding of a markup span into `FunctionData`, through serde_json.
use crate::model::{FunctionData, MarkupDecodeError};
use vstd::prelude::*;

verus! {

/// What str::trim makes of a text.
pub uninterp spec fn trimmed(s: Seq<char>) -> Seq<char>;

/// What serde_json reads from a text as a function: the `name` member's text
/// and the compact JSON text of the `arguments` member, or None where the
/// text is no JSON object with a text `name` and an `arguments` member.
pub uninterp spec fn decoded_function(text: Seq<char>) -> Option<(Seq<char>, Seq<char>)>;

/// The function that a markup span denotes, once trimmed.
pub open spec fn span_function(span: Seq<char>) -> Option<(Seq<char>, Seq<char>)> {
    decoded_function(trimmed(span))
}

/// Relies on str::trim: the text without its leading and trailing
/// whitespace, so a contiguous part of it.
#[verifier::external_body]
fn trim_text<'a>(s: &'a str) -> (r: &'a str)
    ensures
        r@ == trimmed(s@),
        r@.len() <= s@.len(),
        r@.len() <= s@.len() ==> exists|i: int|
            0 <= i <= s@.len() - r@.len() && r@ == #[trigger] s@.subrange(i, i + r@.len()),
{
    s.trim()
}

/// Relies on serde_json::from_str::<Value> and its Value::get, Value::as_str
/// and Display: reads the text as a JSON object and gives its `name` text
/// and the compact JSON text of its `arguments`.
#[verifier::external_body]
fn decode_object(text: &str) -> (r: Option<(String, String)>)
    ensures
        match r {
            Some(p) => decoded_function(text@) == Some((p.0@, p.1@)),
            None => decoded_function(text@) is None,
        },
{
    let value = serde_json::from_str::<serde_json::Value>(text).ok()?;
    let name = value.get("name")?.as_str()?;
    let arguments = value.get("arguments")?;
    Some((name.to_string(), arguments.to_string()))
}

impl FunctionData {
    /// Decodes a span of markup: the text, trimmed, must be a JSON object
    /// with a text member `name` and a member `arguments`.
    pub fn decode(span: &str) -> (r: Result<FunctionData, MarkupDecodeError>)
        ensures
            r is Ok <==> span_function(span@) is Some,
            r is Ok ==> span_function(span@) == Some((r->Ok_0.name@, r->Ok_0.arguments@)),
    {
        let text = trim_text(span);
        match decode_object(text) {
            Some((name, arguments)) => Ok(FunctionData { name, arguments }),
            None => Err(MarkupDecodeError),
        }
    }

    /// The arguments written as one JSON text, the form in which they are
    /// sent on.
    pub fn arguments_text(&self) -> (r: String)
        ensures
            r@ == self.arguments@,
    {
        self.arguments.clone()
    }
}

} // verus!
