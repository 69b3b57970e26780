//! Searching and cutting text, stated over sequences of characters.

use vstd::prelude::*;

verus! {

/// Whether `pattern` stands in `text` at position `at`.
pub open spec fn occurs_at(text: Seq<char>, pattern: Seq<char>, at: int) -> bool {
    &&& 0 <= at
    &&& at + pattern.len() <= text.len()
    &&& text.subrange(at, at + pattern.len()) == pattern
}

/// Whether `pattern` stands anywhere in `text`.
pub open spec fn occurs_in(text: Seq<char>, pattern: Seq<char>) -> bool {
    exists|at: int| occurs_at(text, pattern, at)
}

/// `text` without `prefix` in front, or `text` as it is where it does not
/// begin with `prefix`.
pub open spec fn without_prefix(text: Seq<char>, prefix: Seq<char>) -> Seq<char> {
    if prefix.is_prefix_of(text) {
        text.skip(prefix.len() as int)
    } else {
        text
    }
}

/// What is left of `text` behind the last separator, where the separators
/// are looked for from position `at` on, from left to right, each one behind
/// the end of the one before it. `start` is where the piece that holds `at`
/// begins.
pub open spec fn segment_scan(text: Seq<char>, separator: Seq<char>, start: int, at: int) -> Seq<
    char,
>
    decreases text.len() - at,
{
    if separator.len() == 0 || at < 0 || at + separator.len() > text.len() {
        text.skip(start)
    } else if occurs_at(text, separator, at) {
        segment_scan(text, separator, at + separator.len(), at + separator.len())
    } else {
        segment_scan(text, separator, start, at + 1)
    }
}

/// The last of the pieces into which the separators cut `text`. The
/// separators are taken from left to right and do not overlap, so that in
/// `"a - - b"` cut at `" - "` the last piece is `"- b"`. An empty separator
/// leaves an empty last piece.
pub open spec fn final_segment(text: Seq<char>, separator: Seq<char>) -> Seq<char> {
    if separator.len() == 0 {
        Seq::empty()
    } else {
        segment_scan(text, separator, 0, 0)
    }
}

/// The characters of `text`, one by one.
pub fn characters(text: &str) -> (out: Vec<char>)
    ensures
        out@ == text@,
{
    let mut out: Vec<char> = Vec::new();
    for c in it: text.chars()
        invariant
            out@ == it.seq().take(it.index() as int),
            it.seq() == text@,
    {
        out.push(c);
    }
    out
}

/// Tells whether `pattern` stands in `text` at position `at`.
pub fn matches_at(text: &Vec<char>, pattern: &Vec<char>, at: usize) -> (found: bool)
    ensures
        found == occurs_at(text@, pattern@, at as int),
{
    let n = text.len();
    let k = pattern.len();
    if at > n || k > n - at {
        return false;
    }
    let mut i: usize = 0;
    while i < k
        invariant
            i <= k,
            at + k <= n,
            n == text.len(),
            k == pattern.len(),
            forall|j: int| 0 <= j < i ==> text@[at + j] == pattern@[j],
        decreases k - i,
    {
        if text[at + i] != pattern[i] {
            assert(text@.subrange(at as int, at + k)[i as int] == text@[at + i]);
            return false;
        }
        i += 1;
    }
    assert(text@.subrange(at as int, at + k) =~= pattern@);
    true
}

/// Takes `prefix` from the front of `text`; a text that does not begin with
/// it comes back whole.
pub fn strip_prefix(text: &str, prefix: &str) -> (out: String)
    ensures
        out@ == without_prefix(text@, prefix@),
{
    let chars = characters(text);
    let head = characters(prefix);
    if matches_at(&chars, &head, 0) {
        assert(text@.subrange(0, prefix@.len() as int) == prefix@);
        let rest = text.substring_char(head.len(), chars.len());
        assert(rest@ =~= text@.skip(prefix@.len() as int));
        rest.to_owned()
    } else {
        text.to_owned()
    }
}

/// Cuts `text` at the separators and hands out the last piece.
pub fn last_segment(text: &str, separator: &str) -> (out: String)
    ensures
        out@ == final_segment(text@, separator@),
{
    let chars = characters(text);
    let cut = characters(separator);
    let n = chars.len();
    let k = cut.len();
    if k == 0 {
        return String::new();
    }
    let mut start: usize = 0;
    let mut at: usize = 0;
    while k <= n - at
        invariant
            start <= at <= n,
            n == chars.len(),
            k == cut.len(),
            k > 0,
            chars@ == text@,
            cut@ == separator@,
            segment_scan(text@, separator@, start as int, at as int) == segment_scan(
                text@,
                separator@,
                0,
                0,
            ),
        decreases n - at,
    {
        if matches_at(&chars, &cut, at) {
            at = at + k;
            start = at;
        } else {
            at = at + 1;
        }
    }
    let rest = text.substring_char(start, n);
    assert(rest@ =~= text@.skip(start as int));
    rest.to_owned()
}

/// Where no separator stands at `at` or behind it, the scan finds none: the
/// piece that began at `start` runs to the end.
proof fn lemma_scan_without_separator(
    text: Seq<char>,
    separator: Seq<char>,
    start: int,
    at: int,
)
    requires
        forall|p: int| at <= p ==> !occurs_at(text, separator, p),
    ensures
        segment_scan(text, separator, start, at) == text.skip(start),
    decreases text.len() - at,
{
    if separator.len() == 0 || at < 0 || at + separator.len() > text.len() {
    } else {
        lemma_scan_without_separator(text, separator, start, at + 1);
    }
}

/// A text that holds no separator is its own last piece.
pub proof fn lemma_final_segment_of_uncut(text: Seq<char>, separator: Seq<char>)
    requires
        separator.len() > 0,
        !occurs_in(text, separator),
    ensures
        final_segment(text, separator) == text,
{
    lemma_scan_without_separator(text, separator, 0, 0);
    assert(text.skip(0) =~= text);
}

/// What the scan leaves is the end of the text, and it is the piece that
/// began at `start` or stands right behind a separator.
proof fn lemma_scan_leaves_end(text: Seq<char>, separator: Seq<char>, start: int, at: int)
    requires
        separator.len() > 0,
        0 <= start <= at <= text.len(),
    ensures
        ({
            let piece = segment_scan(text, separator, start, at);
            &&& piece.len() <= text.len() - start
            &&& piece == text.skip(text.len() - piece.len())
            &&& piece.len() == text.len() - start || occurs_at(
                text,
                separator,
                text.len() - piece.len() - separator.len(),
            )
        }),
    decreases text.len() - at,
{
    let k = separator.len() as int;
    if at + k > text.len() {
    } else if occurs_at(text, separator, at) {
        lemma_scan_leaves_end(text, separator, at + k, at + k);
    } else {
        lemma_scan_leaves_end(text, separator, start, at + 1);
    }
}

/// The last piece of a text is the end of the text, and it is the whole
/// text or stands right behind a separator.
pub proof fn lemma_final_segment_is_end(text: Seq<char>, separator: Seq<char>)
    requires
        separator.len() > 0,
    ensures
        ({
            let piece = final_segment(text, separator);
            &&& piece.len() <= text.len()
            &&& piece == text.skip(text.len() - piece.len())
            &&& piece == text || occurs_at(
                text,
                separator,
                text.len() - piece.len() - separator.len(),
            )
        }),
{
    lemma_scan_leaves_end(text, separator, 0, 0);
    assert(text.skip(0) =~= text);
}

/// What the scan leaves holds no separator, if none stands between `start`
/// and `at`.
proof fn lemma_scan_leaves_no_separator(
    text: Seq<char>,
    separator: Seq<char>,
    start: int,
    at: int,
)
    requires
        separator.len() > 0,
        0 <= start <= at <= text.len(),
        forall|p: int| start <= p < at ==> !occurs_at(text, separator, p),
    ensures
        !occurs_in(segment_scan(text, separator, start, at), separator),
    decreases text.len() - at,
{
    let k = separator.len() as int;
    if at + k > text.len() {
        let rest = text.skip(start);
        assert forall|q: int| !occurs_at(rest, separator, q) by {
            if occurs_at(rest, separator, q) {
                assert(rest.subrange(q, q + k) =~= text.subrange(start + q, start + q + k));
                assert(occurs_at(text, separator, start + q));
            }
        }
    } else if occurs_at(text, separator, at) {
        lemma_scan_leaves_no_separator(text, separator, at + k, at + k);
    } else {
        lemma_scan_leaves_no_separator(text, separator, start, at + 1);
    }
}

/// The last piece of a text holds no separator.
pub proof fn lemma_final_segment_is_uncut(text: Seq<char>, separator: Seq<char>)
    requires
        separator.len() > 0,
    ensures
        !occurs_in(final_segment(text, separator), separator),
{
    lemma_scan_leaves_no_separator(text, separator, 0, 0);
}

/// Where the scan of `head` ends on an empty piece, the scan of `head`
/// followed by a `tail` that holds no separator ends on `tail`.
proof fn lemma_scan_of_extended(
    head: Seq<char>,
    tail: Seq<char>,
    separator: Seq<char>,
    start: int,
    at: int,
)
    requires
        separator.len() > 0,
        0 <= start <= at <= head.len(),
        segment_scan(head, separator, start, at).len() == 0,
        !occurs_in(tail, separator),
    ensures
        segment_scan(head + tail, separator, start, at) == tail,
    decreases head.len() - at,
{
    let k = separator.len() as int;
    let whole = head + tail;
    if at + k > head.len() {
        assert(start == head.len());
        assert forall|p: int| at <= p implies !occurs_at(whole, separator, p) by {
            if occurs_at(whole, separator, p) {
                assert(whole.subrange(p, p + k) =~= tail.subrange(
                    p - head.len(),
                    p - head.len() + k,
                ));
                assert(occurs_at(tail, separator, p - head.len()));
            }
        }
        lemma_scan_without_separator(whole, separator, start, at);
        assert(whole.skip(start) =~= tail);
    } else {
        assert(whole.subrange(at, at + k) =~= head.subrange(at, at + k));
        if occurs_at(head, separator, at) {
            lemma_scan_of_extended(head, tail, separator, at + k, at + k);
        } else {
            lemma_scan_of_extended(head, tail, separator, start, at + 1);
        }
    }
}

/// What the scan leaves is the piece that began at `start`, or it begins
/// behind a separator that stands at `at` or later.
proof fn lemma_scan_length(text: Seq<char>, separator: Seq<char>, start: int, at: int)
    requires
        separator.len() > 0,
        0 <= start <= at <= text.len(),
    ensures
        segment_scan(text, separator, start, at).len() == text.len() - start || segment_scan(
            text,
            separator,
            start,
            at,
        ).len() + at + separator.len() <= text.len(),
    decreases text.len() - at,
{
    let k = separator.len() as int;
    if at + k > text.len() {
    } else if occurs_at(text, separator, at) {
        lemma_scan_length(text, separator, at + k, at + k);
    } else {
        lemma_scan_length(text, separator, start, at + 1);
    }
}

/// Where the scan of `head` followed by `tail` ends on a piece as long as
/// `tail`, the scan of `head` alone ends on an empty piece.
proof fn lemma_scan_of_shortened(
    head: Seq<char>,
    tail: Seq<char>,
    separator: Seq<char>,
    start: int,
    at: int,
)
    requires
        separator.len() > 0,
        0 <= start <= at <= head.len(),
        segment_scan(head + tail, separator, start, at).len() == tail.len(),
    ensures
        segment_scan(head, separator, start, at).len() == 0,
    decreases head.len() - at,
{
    let k = separator.len() as int;
    let whole = head + tail;
    if at + k > head.len() {
        lemma_scan_length(whole, separator, start, at);
    } else {
        assert(whole.subrange(at, at + k) =~= head.subrange(at, at + k));
        if occurs_at(head, separator, at) {
            lemma_scan_of_shortened(head, tail, separator, at + k, at + k);
        } else {
            lemma_scan_of_shortened(head, tail, separator, start, at + 1);
        }
    }
}

/// A text put behind a separator is found again as the last piece only if
/// the scan of what stands before it ends on the separator that was put
/// there.
pub proof fn lemma_final_segment_of_joined_conversely(
    front: Seq<char>,
    separator: Seq<char>,
    last: Seq<char>,
)
    requires
        separator.len() > 0,
        final_segment(front + separator + last, separator) == last,
    ensures
        final_segment(front + separator, separator).len() == 0,
{
    lemma_scan_of_shortened(front + separator, last, separator, 0, 0);
}

/// A text put behind a separator is found again as the last piece, provided
/// that it holds no separator itself and that the scan of what stands before
/// it ends on the separator that was put there.
pub proof fn lemma_final_segment_of_joined(
    front: Seq<char>,
    separator: Seq<char>,
    last: Seq<char>,
)
    requires
        separator.len() > 0,
        final_segment(front + separator, separator).len() == 0,
        !occurs_in(last, separator),
    ensures
        final_segment(front + separator + last, separator) == last,
{
    lemma_scan_of_extended(front + separator, last, separator, 0, 0);
}

} // verus!
