//! Extraction of tool calls from assistant text, normalisation of finish
//! reasons, and the pass over a whole completion.
use crate::markup::{
    chars_of, find_spans, has_markup, holds_markup, markup_spans, slices, strip_newlines,
    text_of, within, without_newlines,
};
use crate::json::span_function;
use crate::model::{Choice, Completion, CompletionData, FunctionData, MarkupDecodeError, Message, ToolCall};
use vstd::prelude::*;

verus! {

/// The identifier given to every extracted call.
pub open spec fn call_id() -> Seq<char> {
    seq!['f', 'u', 'n', 'c']
}

/// The finish reason of a choice whose message carries no text.
pub open spec fn tool_calls_reason() -> Seq<char> {
    seq!['t', 'o', 'o', 'l', '_', 'c', 'a', 'l', 'l', 's']
}

/// The provider's label for a turn that ended normally.
pub open spec fn end_turn_reason() -> Seq<char> {
    seq!['e', 'n', 'd', '_', 't', 'u', 'r', 'n']
}

/// The canonical label for a turn that ended normally.
pub open spec fn stop_reason() -> Seq<char> {
    seq!['s', 't', 'o', 'p']
}

/// The spans that extraction decodes for a message: present only for an
/// assistant message whose text holds either marker and, once its newlines
/// are removed, at least one complete span.
pub open spec fn markup_of(m: Message) -> Option<Seq<Seq<char>>> {
    match m {
        Message::Assistant { content: Some(text), .. } => if has_markup(text@) && markup_spans(
            without_newlines(text@),
        ).len() > 0 {
            Some(markup_spans(without_newlines(text@)))
        } else {
            None
        },
        _ => None,
    }
}

/// Every span decodes as a function.
pub open spec fn all_decode(spans: Seq<Seq<char>>) -> bool {
    forall|i: int| 0 <= i < spans.len() ==> (#[trigger] span_function(spans[i])) is Some
}

/// Extraction on `m` can succeed: it has no markup, or all its spans decode.
pub open spec fn decodes(m: Message) -> bool {
    markup_of(m) is Some ==> all_decode(markup_of(m)->Some_0)
}

/// `c` is the call that extraction builds from `span`: a function call under
/// the fixed identifier, with the name and arguments that the span decodes to.
pub open spec fn call_from(c: ToolCall, span: Seq<char>) -> bool {
    match c {
        ToolCall::Function { id, function } => id@ == call_id() && span_function(span) == Some(
            (function.name@, function.arguments@),
        ),
    }
}

/// `calls` are what extraction builds from `spans`: one call per span, in
/// the same order.
pub open spec fn calls_for(calls: Seq<ToolCall>, spans: Seq<Seq<char>>) -> bool {
    calls.len() == spans.len() && forall|i: int|
        0 <= i < calls.len() ==> call_from(#[trigger] calls[i], spans[i])
}

/// `after` is what a successful extraction makes of `before`: unchanged when
/// there is no markup, otherwise the text gone and one call per span.
pub open spec fn extracted(before: Message, after: Message) -> bool {
    match markup_of(before) {
        None => after == before,
        Some(spans) => match after {
            Message::Assistant { content: None, tool_calls: Some(calls) } => calls_for(
                calls@,
                spans,
            ),
            _ => false,
        },
    }
}

/// The finish reason that a choice with message `m` gets from `reason`.
pub open spec fn normalized_reason(m: Message, reason: Seq<char>) -> Seq<char> {
    match m {
        Message::Assistant { content, .. } => if content is None {
            tool_calls_reason()
        } else if reason == end_turn_reason() {
            stop_reason()
        } else {
            reason
        },
        _ => reason,
    }
}

/// `after` is `before` with its message extracted and its finish reason
/// normalised.
pub open spec fn processed(before: Choice, after: Choice) -> bool {
    &&& extracted(before.message, after.message)
    &&& after.index == before.index
    &&& after.finish_reason@ == normalized_reason(after.message, before.finish_reason@)
}

/// Whether two character sequences are equal.
fn same_chars(a: &Vec<char>, b: &Vec<char>) -> (r: bool)
    ensures
        r == (a@ == b@),
{
    if a.len() != b.len() {
        return false;
    }
    let mut i: usize = 0;
    while i < a.len()
        invariant
            i <= a.len() == b.len(),
            forall|k: int| 0 <= k < i ==> a@[k] == b@[k],
        decreases a.len() - i,
    {
        if a[i] != b[i] {
            return false;
        }
        i = i + 1;
    }
    assert(a@ =~= b@);
    true
}

/// Decodes every span of `t` into a call, all or nothing.
fn decode_spans(t: &Vec<char>) -> (r: Result<Vec<ToolCall>, MarkupDecodeError>)
    ensures
        r is Ok <==> all_decode(markup_spans(t@)),
        r is Ok ==> calls_for(r->Ok_0@, markup_spans(t@)),
{
    let spans = find_spans(t);
    let ghost all = markup_spans(t@);
    let mut calls: Vec<ToolCall> = Vec::new();
    let mut k: usize = 0;
    while k < spans.len()
        invariant
            k <= spans.len(),
            within(spans@, t@.len()),
            slices(t@, spans@) == all,
            all == markup_spans(t@),
            calls.len() == k,
            forall|i: int| 0 <= i < k ==> call_from(#[trigger] calls@[i], all[i]),
            forall|i: int| 0 <= i < k ==> (#[trigger] span_function(all[i])) is Some,
        decreases spans.len() - k,
    {
        let (start, end) = spans[k];
        assert(spans@[k as int].0 <= spans@[k as int].1 <= t@.len());
        let span = text_of(t, start, end);
        assert(span@ == all[k as int]);
        match FunctionData::decode(span.as_str()) {
            Err(e) => {
                return Err(e);
            },
            Ok(function) => {
                let id = String::from_str("func");
                proof {
                    reveal_strlit("func");
                    assert(id@ =~= call_id());
                }
                calls.push(ToolCall::Function { id, function });
            },
        }
        k = k + 1;
    }
    Ok(calls)
}

impl Message {
    /// Turns tool-call markup in an assistant message's text into structured
    /// calls. Where the text holds either marker, each span is decoded; if all
    /// decode, the text is removed and the calls, in order, take its place. If
    /// one fails the message is left as it was and the error is returned. Any
    /// other message is left as it was.
    pub fn into_tool_calls_response(&mut self) -> (r: Result<(), MarkupDecodeError>)
        ensures
            r is Ok <==> decodes(*old(self)),
            r is Ok ==> extracted(*old(self), *final(self)),
            r is Err ==> *final(self) == *old(self),
    {
        let found = match &*self {
            Message::Assistant { content: Some(text), .. } => {
                let chars = chars_of(text.as_str());
                if holds_markup(&chars) {
                    let stripped = strip_newlines(&chars);
                    Some(decode_spans(&stripped))
                } else {
                    None
                }
            },
            _ => None,
        };
        match found {
            None => Ok(()),
            Some(Err(e)) => Err(e),
            Some(Ok(calls)) => {
                if calls.len() > 0 {
                    *self = Message::Assistant { content: None, tool_calls: Some(calls) };
                }
                Ok(())
            },
        }
    }
}

impl Choice {
    /// Reconciles the finish reason with the message: an assistant message
    /// without text gets `tool_calls`; one with text turns `end_turn` into
    /// `stop`; every other reason, and every other role, is kept.
    pub fn normalize_finish_reason(&mut self)
        ensures
            final(self).message == old(self).message,
            final(self).index == old(self).index,
            final(self).finish_reason@ == normalized_reason(
                old(self).message,
                old(self).finish_reason@,
            ),
    {
        let no_text = match &self.message {
            Message::Assistant { content, .. } => Some(content.is_none()),
            _ => None,
        };
        match no_text {
            Some(true) => {
                let reason = String::from_str("tool_calls");
                proof {
                    reveal_strlit("tool_calls");
                    assert(reason@ =~= tool_calls_reason());
                }
                self.finish_reason = reason;
            },
            Some(false) => {
                let end_turn = vec!['e', 'n', 'd', '_', 't', 'u', 'r', 'n'];
                assert(end_turn@ =~= end_turn_reason());
                let current = chars_of(self.finish_reason.as_str());
                if same_chars(&current, &end_turn) {
                    let reason = String::from_str("stop");
                    proof {
                        reveal_strlit("stop");
                        assert(reason@ =~= stop_reason());
                    }
                    self.finish_reason = reason;
                }
            },
            None => {},
        }
    }

    /// Extracts the tool calls of this choice's message, then normalises its
    /// finish reason. On failure the choice is left as it was.
    pub fn process(&mut self) -> (r: Result<(), MarkupDecodeError>)
        ensures
            r is Ok <==> decodes(old(self).message),
            r is Ok ==> processed(*old(self), *final(self)),
            r is Err ==> *final(self) == *old(self),
    {
        match self.message.into_tool_calls_response() {
            Err(e) => Err(e),
            Ok(()) => {
                self.normalize_finish_reason();
                Ok(())
            },
        }
    }
}

/// `at` is the first choice of `choices` whose markup does not decode.
pub open spec fn first_failure(choices: Seq<Choice>, at: int) -> bool {
    &&& 0 <= at < choices.len()
    &&& !decodes(choices[at].message)
    &&& forall|j: int| 0 <= j < at ==> decodes(#[trigger] choices[j].message)
}

/// `after` is `before` processed up to the choice at `at`, which failed:
/// the choices before it processed, it and those after it unchanged.
pub open spec fn stopped_at(before: Seq<Choice>, after: Seq<Choice>, at: int) -> bool {
    &&& after.len() == before.len()
    &&& first_failure(before, at)
    &&& forall|j: int| 0 <= j < at ==> processed(before[j], #[trigger] after[j])
    &&& forall|j: int| at <= j < after.len() ==> #[trigger] after[j] == before[j]
}

/// Every choice of `after` is the matching choice of `before`, processed.
pub open spec fn all_processed(before: Seq<Choice>, after: Seq<Choice>) -> bool {
    after.len() == before.len() && forall|j: int|
        0 <= j < after.len() ==> processed(before[j], #[trigger] after[j])
}

/// Every choice of `choices` can be processed: its markup, if any, decodes.
pub open spec fn all_choices_decode(choices: Seq<Choice>) -> bool {
    forall|j: int| 0 <= j < choices.len() ==> decodes(#[trigger] choices[j].message)
}

impl Completion {
    /// Processes the choices in order and stops at the first that fails.
    /// The choices before it keep what was done to them; it and the later
    /// ones are left as they were.
    pub fn process_choices(&mut self) -> (r: Result<(), MarkupDecodeError>)
        ensures
            r is Ok <==> all_choices_decode(old(self).choices@),
            r is Ok ==> all_processed(old(self).choices@, final(self).choices@),
            r is Err ==> exists|at: int| stopped_at(old(self).choices@, final(self).choices@, at),
            final(self).object == old(self).object,
            final(self).id == old(self).id,
            final(self).model == old(self).model,
            final(self).created == old(self).created,
            final(self).usage == old(self).usage,
    {
        let mut choices: Vec<Choice> = Vec::new();
        std::mem::swap(&mut self.choices, &mut choices);
        let ghost before = choices@;
        let mut out: Vec<Choice> = Vec::new();
        let mut failure: Option<MarkupDecodeError> = None;
        let ghost mut at: int = 0;
        for c in it: choices
            invariant
                it.seq() == before,
                out.len() == it.index(),
                failure is None ==> forall|j: int|
                    0 <= j < out.len() ==> processed(before[j], #[trigger] out@[j]),
                failure is None ==> forall|j: int|
                    0 <= j < out.len() ==> decodes(#[trigger] before[j].message),
                failure is Some ==> {
                    &&& 0 <= at < out.len()
                    &&& first_failure(before, at)
                    &&& forall|j: int| 0 <= j < at ==> processed(before[j], #[trigger] out@[j])
                    &&& forall|j: int| at <= j < out.len() ==> #[trigger] out@[j] == before[j]
                },
        {
            let mut c = c;
            if failure.is_none() {
                match c.process() {
                    Ok(()) => {},
                    Err(e) => {
                        failure = Some(e);
                        proof {
                            at = out.len() as int;
                        }
                    },
                }
            }
            out.push(c);
        }
        self.choices = out;
        proof {
            if failure is Some {
                assert(stopped_at(old(self).choices@, self.choices@, at));
            }
        }
        match failure {
            None => Ok(()),
            Some(e) => Err(e),
        }
    }

    /// Processes every choice of the completion and hands it back; the first
    /// choice whose markup does not decode ends the pass with that error.
    pub fn parse(self) -> (r: Result<Completion, MarkupDecodeError>)
        ensures
            r is Ok ==> all_processed(self.choices@, r->Ok_0.choices@),
            r is Ok ==> r->Ok_0.object == self.object && r->Ok_0.id == self.id
                && r->Ok_0.model == self.model && r->Ok_0.created == self.created
                && r->Ok_0.usage == self.usage,
            r is Ok <==> all_choices_decode(self.choices@),
    {
        let mut completion = self;
        match completion.process_choices() {
            Ok(()) => Ok(completion),
            Err(e) => Err(e),
        }
    }
}

impl CompletionData {
    /// The completion of one of the entries, the one stored first. The
    /// entries stand in no meaningful order, so which one that is carries no
    /// meaning either.
    pub fn get_completion(self) -> (r: Completion)
        requires
            self.wf(),
            self.completions.len() > 0,
        ensures
            r == self.completions@[0].1.completion,
    {
        let mut completions = self.completions;
        let (_, model) = completions.swap_remove(0);
        model.completion
    }
}

} // verus!
