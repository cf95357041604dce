//! Properties that hold of every message and choice the pass handles.
use crate::json::{decoded_function, span_function, trimmed};
use crate::markup::{
    first_from, has_markup, lemma_first_from, markup_spans, occurs_in, open_marker,
    without_newlines,
};
use crate::model::{Choice, FunctionData, Message};
use crate::process::{
    calls_for, end_turn_reason, extracted, markup_of, normalized_reason, processed, stop_reason,
    tool_calls_reason,
};
use vstd::prelude::*;

verus! {

/// An assistant message whose text holds no opening marker, neither as
/// written nor once its newlines are removed, or that has no text, has
/// nothing to decode, and extraction leaves it exactly as it was.
pub proof fn lemma_no_markup_unchanged(before: Message, after: Message)
    requires
        before is Assistant,
        match before {
            Message::Assistant { content: Some(text), .. } => !occurs_in(text@, open_marker())
                && !occurs_in(without_newlines(text@), open_marker()),
            _ => true,
        },
        extracted(before, after),
    ensures
        markup_of(before) is None,
        after == before,
{
    match before {
        Message::Assistant { content: Some(text), .. } => {
            let t = without_newlines(text@);
            lemma_first_from(t, open_marker(), 0);
            if first_from(t, open_marker(), 0) is Some {
                assert(occurs_in(t, open_marker()));
            }
            assert(markup_spans(t) =~= Seq::<Seq<char>>::empty());
        },
        _ => {},
    }
}

/// When extraction succeeds on a choice whose message holds markup with
/// `k` spans, `k` at least one, the message ends with no text and `k` calls,
/// the calls in the order of their spans, and the finish reason is
/// `tool_calls` whatever the provider said.
pub proof fn lemma_markup_gives_tool_calls(before: Choice, after: Choice)
    requires
        processed(before, after),
        markup_of(before.message) is Some,
    ensures
        markup_of(before.message)->Some_0.len() >= 1,
        after.message matches Message::Assistant { content: None, tool_calls: Some(calls) }
            && calls_for(calls@, markup_of(before.message)->Some_0),
        after.finish_reason@ == tool_calls_reason(),
{
}

/// Decoding a span and writing the arguments back out keeps the name as
/// decoded and gives the compact JSON text of the decoded arguments.
pub proof fn lemma_decode_round_trip(span: Seq<char>, f: FunctionData)
    requires
        span_function(span) == Some((f.name@, f.arguments@)),
    ensures
        decoded_function(trimmed(span)) is Some,
        f.name@ == decoded_function(trimmed(span))->Some_0.0,
        f.arguments@ == decoded_function(trimmed(span))->Some_0.1,
{
}

/// A choice whose message keeps its text after processing has `end_turn`
/// turned into `stop`, and any other finish reason kept as it was.
pub proof fn lemma_text_keeps_reason(before: Choice, after: Choice)
    requires
        processed(before, after),
        after.message matches Message::Assistant { content: Some(_), .. },
    ensures
        before.finish_reason@ == end_turn_reason() ==> after.finish_reason@ == stop_reason(),
        before.finish_reason@ != end_turn_reason() ==> after.finish_reason@
            == before.finish_reason@,
{
}

/// Extraction on an assistant message that has no text changes nothing.
pub proof fn lemma_extraction_idempotent(before: Message, after: Message)
    requires
        before matches Message::Assistant { content: None, .. },
        extracted(before, after),
    ensures
        markup_of(before) is None,
        after == before,
{
}

/// Processing a choice a second time changes nothing more.
pub proof fn lemma_processing_idempotent(first: Choice, second: Choice, third: Choice)
    requires
        processed(first, second),
        processed(second, third),
    ensures
        markup_of(second.message) is None,
        third.message == second.message,
        third.index == second.index,
        third.finish_reason@ == second.finish_reason@,
{
    assert(stop_reason() != end_turn_reason()) by {
        assert(stop_reason().len() != end_turn_reason().len());
    }
    if markup_of(first.message) is Some {
        assert(second.message matches Message::Assistant { content: None, .. });
    }
    if markup_of(second.message) is Some {
        match first.message {
            Message::Assistant { content: Some(text), .. } => {
                assert(!has_markup(text@));
            },
            _ => {},
        }
    }
}

} // verus!
