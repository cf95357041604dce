//! The `<tool_call>` ... `</tool_call>` markup that a model may write into an
//! assistant message, and a scanner that finds its spans.
use vstd::prelude::*;

verus! {

/// The marker that opens a tool-call span.
pub open spec fn open_marker() -> Seq<char> {
    seq!['<', 't', 'o', 'o', 'l', '_', 'c', 'a', 'l', 'l', '>']
}

/// The marker that closes a tool-call span.
pub open spec fn close_marker() -> Seq<char> {
    seq!['<', '/', 't', 'o', 'o', 'l', '_', 'c', 'a', 'l', 'l', '>']
}

/// `pat` occurs in `t` starting at position `i`.
pub open spec fn occurs_at(t: Seq<char>, pat: Seq<char>, i: int) -> bool {
    0 <= i && i + pat.len() <= t.len() && t.subrange(i, i + pat.len()) == pat
}

/// `pat` occurs somewhere in `t`.
pub open spec fn occurs_in(t: Seq<char>, pat: Seq<char>) -> bool {
    exists|i: int| occurs_at(t, pat, i)
}

/// A text holds markup when either marker occurs in it.
pub open spec fn has_markup(t: Seq<char>) -> bool {
    occurs_in(t, open_marker()) || occurs_in(t, close_marker())
}

/// The first position at or after `i` where `pat` occurs in `t`.
pub open spec fn first_from(t: Seq<char>, pat: Seq<char>, i: int) -> Option<int>
    decreases t.len() + 1 - i,
    when 0 <= i
{
    if i + pat.len() > t.len() {
        None
    } else if occurs_at(t, pat, i) {
        Some(i)
    } else {
        first_from(t, pat, i + 1)
    }
}

/// The text with every newline character removed.
pub open spec fn without_newlines(s: Seq<char>) -> Seq<char>
    decreases s.len(),
{
    if s.len() == 0 {
        s
    } else if s.last() == '\n' {
        without_newlines(s.drop_last())
    } else {
        without_newlines(s.drop_last()).push(s.last())
    }
}

/// The spans of `t` from position `pos` on: each runs from just after an
/// opening marker to the nearest closing marker that follows it, and the
/// search for the next one resumes after that closing marker.
pub open spec fn spans_from(t: Seq<char>, pos: int) -> Seq<Seq<char>>
    decreases t.len() - pos,
    when 0 <= pos
{
    match first_from(t, open_marker(), pos) {
        None => Seq::empty(),
        Some(o) => match first_from(t, close_marker(), o + open_marker().len()) {
            None => Seq::empty(),
            Some(c) => {
                proof {
                    lemma_first_from(t, open_marker(), pos);
                    lemma_first_from(t, close_marker(), o + open_marker().len());
                }
                seq![t.subrange(o + open_marker().len(), c)] + spans_from(
                    t,
                    c + close_marker().len(),
                )
            },
        },
    }
}

/// The markup spans of a text, left to right.
pub open spec fn markup_spans(t: Seq<char>) -> Seq<Seq<char>> {
    spans_from(t, 0)
}

/// What `first_from` finds is an occurrence, and the first one.
pub proof fn lemma_first_from(t: Seq<char>, pat: Seq<char>, i: int)
    requires
        0 <= i,
    ensures
        match first_from(t, pat, i) {
            Some(k) => i <= k && k + pat.len() <= t.len() && occurs_at(t, pat, k) && forall|j: int|
                i <= j < k ==> !occurs_at(t, pat, j),
            None => forall|j: int| i <= j ==> !occurs_at(t, pat, j),
        },
    decreases t.len() + 1 - i,
{
    if i + pat.len() > t.len() {
    } else if occurs_at(t, pat, i) {
    } else {
        lemma_first_from(t, pat, i + 1);
    }
}

/// Whether `pat` occurs in `t` at position `i`.
fn occurs_here(t: &Vec<char>, pat: &Vec<char>, i: usize) -> (r: bool)
    requires
        i + pat.len() <= t.len(),
    ensures
        r == occurs_at(t@, pat@, i as int),
{
    let mut j: usize = 0;
    while j < pat.len()
        invariant
            j <= pat.len(),
            i + pat.len() <= t.len(),
            forall|k: int| 0 <= k < j ==> t@[i + k] == pat@[k],
        decreases pat.len() - j,
    {
        if t[i + j] != pat[j] {
            assert(t@.subrange(i as int, i + pat.len())[j as int] != pat@[j as int]);
            return false;
        }
        j = j + 1;
    }
    assert(t@.subrange(i as int, i + pat.len()) =~= pat@);
    true
}

/// The first position at or after `from` where `pat` occurs in `t`.
pub fn find_from(t: &Vec<char>, pat: &Vec<char>, from: usize) -> (r: Option<usize>)
    requires
        pat.len() > 0,
    ensures
        match r {
            Some(k) => first_from(t@, pat@, from as int) == Some(k as int),
            None => first_from(t@, pat@, from as int) is None,
        },
{
    let mut i: usize = from;
    while i <= t.len() && pat.len() <= t.len() - i
        invariant
            from <= i,
            pat.len() > 0,
            first_from(t@, pat@, from as int) == first_from(t@, pat@, i as int),
        decreases t.len() + 1 - i,
    {
        if occurs_here(t, pat, i) {
            return Some(i);
        }
        i = i + 1;
    }
    None
}

/// The characters of the opening marker.
pub fn open_marker_chars() -> (r: Vec<char>)
    ensures
        r@ == open_marker(),
{
    let r = vec!['<', 't', 'o', 'o', 'l', '_', 'c', 'a', 'l', 'l', '>'];
    assert(r@ =~= open_marker());
    r
}

/// The characters of the closing marker.
pub fn close_marker_chars() -> (r: Vec<char>)
    ensures
        r@ == close_marker(),
{
    let r = vec!['<', '/', 't', 'o', 'o', 'l', '_', 'c', 'a', 'l', 'l', '>'];
    assert(r@ =~= close_marker());
    r
}

/// Whether `pat` occurs anywhere in `t`.
pub fn contains(t: &Vec<char>, pat: &Vec<char>) -> (r: bool)
    requires
        pat.len() > 0,
    ensures
        r == occurs_in(t@, pat@),
{
    let found = find_from(t, pat, 0);
    proof {
        lemma_first_from(t@, pat@, 0);
    }
    found.is_some()
}

/// Whether a text holds either marker.
pub fn holds_markup(t: &Vec<char>) -> (r: bool)
    ensures
        r == has_markup(t@),
{
    let open = open_marker_chars();
    let close = close_marker_chars();
    contains(t, &open) || contains(t, &close)
}

/// The characters of a text, in order.
pub fn chars_of(s: &str) -> (r: Vec<char>)
    ensures
        r@ == s@,
{
    let mut r: Vec<char> = Vec::new();
    for c in it: s.chars()
        invariant
            r@ == it.seq().take(it.index() as int),
    {
        r.push(c);
    }
    r
}

/// The text with every newline character removed.
pub fn strip_newlines(s: &Vec<char>) -> (r: Vec<char>)
    ensures
        r@ == without_newlines(s@),
{
    let mut r: Vec<char> = Vec::new();
    let mut i: usize = 0;
    while i < s.len()
        invariant
            i <= s.len(),
            r@ == without_newlines(s@.take(i as int)),
        decreases s.len() - i,
    {
        assert(s@.take(i + 1).drop_last() =~= s@.take(i as int));
        if s[i] != '\n' {
            r.push(s[i]);
        }
        i = i + 1;
    }
    assert(s@.take(s.len() as int) =~= s@);
    r
}

/// The index ranges in `t` that a sequence of (start, end) pairs denotes.
pub open spec fn slices(t: Seq<char>, r: Seq<(usize, usize)>) -> Seq<Seq<char>> {
    r.map_values(|p: (usize, usize)| t.subrange(p.0 as int, p.1 as int))
}

/// Every pair is an ordered range of positions in a text of length `n`.
pub open spec fn within(r: Seq<(usize, usize)>, n: nat) -> bool {
    forall|k: int| 0 <= k < r.len() ==> #[trigger] r[k].0 <= r[k].1 && r[k].1 <= n
}

/// The spans of the markup in `t`, as (start, end) positions, left to right.
pub fn find_spans(t: &Vec<char>) -> (r: Vec<(usize, usize)>)
    ensures
        within(r@, t@.len()),
        slices(t@, r@) == markup_spans(t@),
{
    let open = open_marker_chars();
    let close = close_marker_chars();
    let mut r: Vec<(usize, usize)> = Vec::new();
    let mut pos: usize = 0;
    while pos <= t.len()
        invariant
            within(r@, t@.len()),
            open@ == open_marker(),
            close@ == close_marker(),
            slices(t@, r@) + spans_from(t@, pos as int) == markup_spans(t@),
        decreases t.len() + 1 - pos,
    {
        proof {
            lemma_first_from(t@, open@, pos as int);
        }
        match find_from(t, &open, pos) {
            None => {
                assert(slices(t@, r@) + spans_from(t@, pos as int) =~= slices(t@, r@));
                return r;
            },
            Some(o) => {
                let start = o + open.len();
                proof {
                    lemma_first_from(t@, close@, start as int);
                }
                match find_from(t, &close, start) {
                    None => {
                        assert(slices(t@, r@) + spans_from(t@, pos as int) =~= slices(t@, r@));
                        return r;
                    },
                    Some(c) => {
                        let ghost before = r@;
                        r.push((start, c));
                        assert(slices(t@, r@) =~= slices(t@, before).push(
                            t@.subrange(start as int, c as int),
                        ));
                        assert(slices(t@, r@) + spans_from(t@, (c + close.len()) as int) =~= slices(
                            t@,
                            before,
                        ) + spans_from(t@, pos as int));
                        pos = c + close.len();
                    },
                }
            },
        }
    }
    assert(spans_from(t@, pos as int) =~= Seq::<Seq<char>>::empty()) by {
        lemma_first_from(t@, open_marker(), pos as int);
    }
    assert(slices(t@, r@) + spans_from(t@, pos as int) =~= slices(t@, r@));
    r
}

/// Relies on String::push: appends one character to the text.
#[verifier::external_body]
fn push_char(s: &mut String, c: char)
    ensures
        final(s)@ == old(s)@.push(c),
{
    s.push(c);
}

/// The text made of the characters of `t` from `start` up to `end`.
pub fn text_of(t: &Vec<char>, start: usize, end: usize) -> (r: String)
    requires
        start <= end <= t.len(),
    ensures
        r@ == t@.subrange(start as int, end as int),
{
    let mut r = String::new();
    let mut i: usize = start;
    while i < end
        invariant
            start <= i <= end <= t.len(),
            r@ == t@.subrange(start as int, i as int),
        decreases end - i,
    {
        push_char(&mut r, t[i]);
        assert(t@.subrange(start as int, i + 1) =~= t@.subrange(start as int, i as int).push(t@[i as int]));
        i = i + 1;
    }
    r
}

} // verus!
