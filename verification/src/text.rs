//! Text model shared by the probes: lines, whitespace-separated words,
//! prefixes and occurrences in a character sequence, with scanners proved
//! against them.
//!
//! The scanners work on the characters of a text and hand back spans
//! (`start`, `end`) into it, so that callers can cut the pieces out of the
//! text themselves.

use vstd::prelude::*;
use vstd::string::StringExecFns;

verus! {

broadcast use vstd::seq::group_seq_axioms;

/// Whether `c` is whitespace: whether it has the Unicode property
/// `White_Space`. These are the code points U+0009 to U+000D, U+0020,
/// U+0085, U+00A0, U+1680, U+2000 to U+200A, U+2028, U+2029, U+202F, U+205F
/// and U+3000.
pub open spec fn char_is_whitespace(c: char) -> bool {
    let code = c as u32;
    ||| 0x0009 <= code <= 0x000D
    ||| code == 0x0020
    ||| code == 0x0085
    ||| code == 0x00A0
    ||| code == 0x1680
    ||| 0x2000 <= code <= 0x200A
    ||| code == 0x2028
    ||| code == 0x2029
    ||| code == 0x202F
    ||| code == 0x205F
    ||| code == 0x3000
}

/// The lowercase form of `s`: what `str::to_lowercase` returns.
pub uninterp spec fn str_lowercase(s: Seq<char>) -> Seq<char>;

/// Calls `char::is_whitespace`, which std documents as the test for the
/// Unicode property `White_Space`. The contract says that the answer is that
/// test, over the code points that have the property.
#[verifier::external_body]
pub(crate) fn is_whitespace(c: char) -> (b: bool)
    ensures
        b == char_is_whitespace(c),
{
    c.is_whitespace()
}

/// Calls `str::to_lowercase`. The result depends on the text alone (Unicode
/// lowercase mapping); the contract only names it.
#[verifier::external_body]
pub(crate) fn to_lowercase(s: &str) -> (lower: String)
    ensures
        lower@ == str_lowercase(s@),
{
    s.to_lowercase()
}

/// Number of characters of `t` before its first line feed; all of them where
/// it has none.
pub open spec fn line_len(t: Seq<char>) -> nat
    decreases t.len(),
{
    if t.len() == 0 || t[0] == '\n' {
        0
    } else {
        1 + line_len(t.skip(1))
    }
}

/// `t` without one trailing carriage return.
pub open spec fn strip_cr(t: Seq<char>) -> Seq<char> {
    if t.len() > 0 && t.last() == '\r' {
        t.drop_last()
    } else {
        t
    }
}

/// The lines of `t`. A line ends at a line feed or at the end of the text;
/// the line feed, and a carriage return directly before it, are not part of
/// the line. A text that ends in a line feed has no empty line after it.
pub open spec fn lines(t: Seq<char>) -> Seq<Seq<char>>
    decreases t.len(),
{
    if t.len() == 0 {
        Seq::empty()
    } else {
        let n = line_len(t);
        if n >= t.len() {
            seq![t]
        } else {
            seq![strip_cr(t.take(n as int))] + lines(t.skip((n + 1) as int))
        }
    }
}

/// For each character of `t`, whether it is whitespace.
pub open spec fn whitespace_mask(t: Seq<char>) -> Seq<bool> {
    Seq::new(t.len(), |i: int| char_is_whitespace(t[i]))
}

/// How many places at the start of `mask` are not marked.
pub open spec fn solid_len(mask: Seq<bool>) -> nat
    decreases mask.len(),
{
    if mask.len() == 0 || mask[0] {
        0
    } else {
        1 + solid_len(mask.skip(1))
    }
}

/// The maximal runs of places of `mask` that are not marked, in order, each
/// as its first place and the place after its last, counted from `base`.
pub open spec fn solid_runs(mask: Seq<bool>, base: int) -> Seq<(int, int)>
    decreases mask.len(),
{
    if mask.len() == 0 {
        Seq::empty()
    } else if mask[0] {
        solid_runs(mask.skip(1), base + 1)
    } else {
        let n = solid_len(mask);
        proof {
            lemma_solid_len_bound(mask);
        }
        seq![(base, base + n)] + solid_runs(mask.skip(n as int), base + n)
    }
}

/// The words of `t`: its maximal runs of characters that are not whitespace,
/// in order.
pub open spec fn words(t: Seq<char>) -> Seq<Seq<char>> {
    let runs = solid_runs(whitespace_mask(t), 0);
    Seq::new(runs.len(), |k: int| t.subrange(runs[k].0, runs[k].1))
}

/// Spans as pairs of mathematical integers.
pub open spec fn as_runs(spans: Seq<(usize, usize)>) -> Seq<(int, int)> {
    Seq::new(spans.len(), |k: int| (spans[k].0 as int, spans[k].1 as int))
}

/// Whether `needle` stands in `text` at place `k`.
pub open spec fn occurs_at(needle: Seq<char>, text: Seq<char>, k: int) -> bool {
    0 <= k && k + needle.len() <= text.len() && text.subrange(k, k + needle.len()) == needle
}

/// Whether `needle` stands somewhere in `text`.
pub open spec fn occurs_in(needle: Seq<char>, text: Seq<char>) -> bool {
    exists|k: int| occurs_at(needle, text, k)
}

/// Whether each span cuts the matching part out of `text`.
pub open spec fn spans_cut(
    text: Seq<char>,
    spans: Seq<(usize, usize)>,
    parts: Seq<Seq<char>>,
) -> bool {
    &&& spans.len() == parts.len()
    &&& forall|k: int|
        0 <= k < spans.len() ==> {
            &&& (#[trigger] spans[k]).0 <= spans[k].1 <= text.len()
            &&& text.subrange(spans[k].0 as int, spans[k].1 as int) == parts[k]
        }
}

/// The run at the start of a mask ends inside the mask, at a marked place
/// or at the end, and covers no marked place.
pub proof fn lemma_solid_len_bound(mask: Seq<bool>)
    ensures
        solid_len(mask) <= mask.len(),
        mask.len() > 0 && !mask[0] ==> solid_len(mask) >= 1,
        solid_len(mask) < mask.len() ==> mask[solid_len(mask) as int],
        forall|i: int| 0 <= i < solid_len(mask) ==> !mask[i],
    decreases mask.len(),
{
    if mask.len() > 0 && !mask[0] {
        let r = mask.skip(1);
        lemma_solid_len_bound(r);
        assert forall|i: int| 0 <= i < solid_len(mask) implies !mask[i] by {
            if i > 0 {
                assert(r[i - 1] == mask[i]);
            }
        }
    }
}

/// Each run is non-empty, lies inside the mask, and covers no marked place.
pub proof fn lemma_solid_runs_bounds(mask: Seq<bool>, base: int, k: int)
    requires
        0 <= k < solid_runs(mask, base).len(),
    ensures
        base <= solid_runs(mask, base)[k].0 < solid_runs(mask, base)[k].1 <= base + mask.len(),
        forall|i: int|
            solid_runs(mask, base)[k].0 - base <= i < solid_runs(mask, base)[k].1 - base
                ==> !mask[i],
    decreases mask.len(),
{
    let run = solid_runs(mask, base)[k];
    if mask[0] {
        let r = mask.skip(1);
        lemma_solid_runs_bounds(r, base + 1, k);
        assert forall|i: int| run.0 - base <= i < run.1 - base implies !mask[i] by {
            assert(r[i - 1] == mask[i]);
        }
    } else {
        lemma_solid_len_bound(mask);
        let n = solid_len(mask);
        if k > 0 {
            let r = mask.skip(n as int);
            lemma_solid_runs_bounds(r, base + n, k - 1);
            assert forall|i: int| run.0 - base <= i < run.1 - base implies !mask[i] by {
                assert(r[i - n] == mask[i]);
            }
        }
    }
}

/// Moving the base moves every run by as much.
pub proof fn lemma_solid_runs_shift(mask: Seq<bool>, base: int, by: int)
    ensures
        solid_runs(mask, base + by).len() == solid_runs(mask, base).len(),
        forall|k: int|
            0 <= k < solid_runs(mask, base).len() ==> {
                &&& (#[trigger] solid_runs(mask, base + by)[k]).0 == solid_runs(
                    mask,
                    base,
                )[k].0 + by
                &&& solid_runs(mask, base + by)[k].1 == solid_runs(mask, base)[k].1 + by
            },
    decreases mask.len(),
{
    if mask.len() == 0 {
    } else if mask[0] {
        lemma_solid_runs_shift(mask.skip(1), base + 1, by);
        assert(solid_runs(mask, base + by) == solid_runs(mask.skip(1), base + 1 + by));
    } else {
        lemma_solid_len_bound(mask);
        let n = solid_len(mask);
        lemma_solid_runs_shift(mask.skip(n as int), base + n, by);
        assert(solid_runs(mask, base + by) == seq![(base + by, base + by + n)] + solid_runs(
            mask.skip(n as int),
            base + n + by,
        ));
    }
}

/// A run of `n` unmarked places that ends at a marked place, or at the end,
/// is the run at the start.
pub proof fn lemma_solid_len_is(mask: Seq<bool>, n: int)
    requires
        0 <= n <= mask.len(),
        forall|i: int| 0 <= i < n ==> !mask[i],
        n == mask.len() || mask[n],
    ensures
        solid_len(mask) == n,
    decreases n,
{
    if n > 0 {
        let r = mask.skip(1);
        assert forall|i: int| 0 <= i < n - 1 implies !r[i] by {
            assert(r[i] == mask[i + 1]);
        }
        lemma_solid_len_is(r, n - 1);
    }
}

/// A line of `n` characters that ends at a line feed, or at the end of the
/// text, is the line at the start.
pub proof fn lemma_line_len_is(t: Seq<char>, n: int)
    requires
        0 <= n <= t.len(),
        forall|i: int| 0 <= i < n ==> t[i] != '\n',
        n == t.len() || t[n] == '\n',
    ensures
        line_len(t) == n,
    decreases n,
{
    if n > 0 {
        let r = t.skip(1);
        assert forall|i: int| 0 <= i < n - 1 implies r[i] != '\n' by {
            assert(r[i] == t[i + 1]);
        }
        lemma_line_len_is(r, n - 1);
    }
}

/// The first line of a text is what stands before its first line feed,
/// without a carriage return at its end; the other lines are those of what
/// stands behind that line feed.
pub proof fn lemma_lines_first(t: Seq<char>, n: int)
    requires
        0 <= n < t.len(),
        forall|i: int| 0 <= i < n ==> t[i] != '\n',
        t[n] == '\n',
    ensures
        lines(t) == seq![strip_cr(t.take(n))] + lines(t.skip(n + 1)),
{
    lemma_line_len_is(t, n);
}

/// A text without a line feed, if it is not empty, is one line.
pub proof fn lemma_lines_last(t: Seq<char>)
    requires
        t.len() > 0,
        forall|i: int| 0 <= i < t.len() ==> t[i] != '\n',
    ensures
        lines(t) == seq![t],
{
    lemma_line_len_is(t, t.len() as int);
}

/// Whitespace at the start of a text belongs to no word.
pub proof fn lemma_words_skip_whitespace(t: Seq<char>)
    requires
        t.len() > 0,
        char_is_whitespace(t[0]),
    ensures
        words(t) == words(t.skip(1)),
{
    let mask = whitespace_mask(t);
    let rest = whitespace_mask(t.skip(1));
    assert(mask.skip(1) == rest);
    lemma_solid_runs_shift(rest, 0, 1);
    assert forall|k: int| 0 <= k < words(t).len() implies words(t)[k] == words(t.skip(1))[k] by {
        lemma_solid_runs_bounds(rest, 0, k);
        let run = solid_runs(rest, 0)[k];
        assert(solid_runs(rest, 1)[k] == (run.0 + 1, run.1 + 1));
        assert(t.subrange(run.0 + 1, run.1 + 1) == t.skip(1).subrange(run.0, run.1));
    }
}

/// The first word of a text that begins with one is its longest start
/// without whitespace; the other words are those of what stands behind it.
pub proof fn lemma_words_first(t: Seq<char>, n: int)
    requires
        0 < n <= t.len(),
        forall|i: int| 0 <= i < n ==> !char_is_whitespace(t[i]),
        n == t.len() || char_is_whitespace(t[n]),
    ensures
        words(t) == seq![t.take(n)] + words(t.skip(n)),
{
    let mask = whitespace_mask(t);
    let rest = whitespace_mask(t.skip(n));
    lemma_solid_len_is(mask, n);
    assert(mask.skip(n) == rest);
    lemma_solid_runs_shift(rest, 0, n);
    let all = seq![t.take(n)] + words(t.skip(n));
    assert(words(t).len() == all.len());
    assert forall|k: int| 0 <= k < words(t).len() implies words(t)[k] == all[k] by {
        if k == 0 {
            assert(t.subrange(0, n) == t.take(n));
        } else {
            lemma_solid_runs_bounds(rest, 0, k - 1);
            let run = solid_runs(rest, 0)[k - 1];
            assert(solid_runs(rest, n)[k - 1] == (run.0 + n, run.1 + n));
            assert(t.subrange(run.0 + n, run.1 + n) == t.skip(n).subrange(run.0, run.1));
        }
    }
}

/// A text holds what it begins with.
pub proof fn lemma_prefix_occurs(needle: Seq<char>, text: Seq<char>)
    requires
        needle.is_prefix_of(text),
    ensures
        occurs_in(needle, text),
{
    assert(occurs_at(needle, text, 0));
}

/// The characters of `s`, in order.
pub fn chars_of(s: &str) -> (cs: Vec<char>)
    ensures
        cs@ == s@,
{
    broadcast use vstd::string::group_string_axioms;

    let mut cs: Vec<char> = Vec::new();
    let it = s.chars();
    for c in iter: it
        invariant
            iter.seq() == s@,
            cs@ == iter.seq().take(iter.index()),
    {
        cs.push(c);
    }
    cs
}

/// Where the line that starts at `from` stops: at its line feed, or at the
/// end of the text.
pub fn line_stop(cs: &Vec<char>, from: usize) -> (stop: usize)
    requires
        from <= cs.len(),
    ensures
        stop == from + line_len(cs@.skip(from as int)),
        from <= stop <= cs.len(),
{
    let mut i: usize = from;
    while i < cs.len() && cs[i] != '\n'
        invariant
            from <= i <= cs.len(),
            line_len(cs@.skip(from as int)) == (i - from) + line_len(cs@.skip(i as int)),
        decreases cs.len() - i,
    {
        assert(cs@.skip(i as int).skip(1) == cs@.skip(i + 1));
        i = i + 1;
    }
    i
}

/// Where the run of unmarked places that starts at `from` stops: at the next
/// marked place, or at the end of the mask.
pub fn solid_stop(mask: &Vec<bool>, from: usize) -> (stop: usize)
    requires
        from <= mask.len(),
    ensures
        stop == from + solid_len(mask@.skip(from as int)),
        from <= stop <= mask.len(),
{
    let mut i: usize = from;
    while i < mask.len() && !mask[i]
        invariant
            from <= i <= mask.len(),
            solid_len(mask@.skip(from as int)) == (i - from) + solid_len(mask@.skip(i as int)),
        decreases mask.len() - i,
    {
        assert(mask@.skip(i as int).skip(1) == mask@.skip(i + 1));
        i = i + 1;
    }
    i
}

/// The maximal runs of unmarked places of `mask`.
pub fn solid_spans(mask: &Vec<bool>) -> (spans: Vec<(usize, usize)>)
    ensures
        as_runs(spans@) == solid_runs(mask@, 0),
{
    let mut spans: Vec<(usize, usize)> = Vec::new();
    let mut pos: usize = 0;
    assert(mask@.skip(0) == mask@);
    while pos < mask.len()
        invariant
            pos <= mask.len(),
            solid_runs(mask@, 0) == as_runs(spans@) + solid_runs(
                mask@.skip(pos as int),
                pos as int,
            ),
        decreases mask.len() - pos,
    {
        let ghost rest = mask@.skip(pos as int);
        if mask[pos] {
            assert(rest.skip(1) == mask@.skip(pos + 1));
            pos = pos + 1;
        } else {
            let stop = solid_stop(mask, pos);
            proof {
                lemma_solid_len_bound(rest);
                assert(rest.skip(solid_len(rest) as int) == mask@.skip(stop as int));
            }
            spans.push((pos, stop));
            pos = stop;
        }
    }
    spans
}

/// For each character of `cs[from..to]`, whether it is whitespace.
pub fn mask_of(cs: &Vec<char>, from: usize, to: usize) -> (mask: Vec<bool>)
    requires
        from <= to <= cs.len(),
    ensures
        mask@ == whitespace_mask(cs@.subrange(from as int, to as int)),
{
    let mut mask: Vec<bool> = Vec::new();
    let mut i: usize = from;
    while i < to
        invariant
            from <= i <= to <= cs.len(),
            mask@ == whitespace_mask(cs@.subrange(from as int, i as int)),
        decreases to - i,
    {
        mask.push(is_whitespace(cs[i]));
        i = i + 1;
    }
    mask
}

/// The spans of the lines of `cs`.
pub fn line_spans(cs: &Vec<char>) -> (spans: Vec<(usize, usize)>)
    ensures
        spans_cut(cs@, spans@, lines(cs@)),
{
    let mut spans: Vec<(usize, usize)> = Vec::new();
    let mut pos: usize = 0;
    let ghost mut done: Seq<Seq<char>> = Seq::empty();
    assert(cs@.skip(0) == cs@);
    while pos < cs.len()
        invariant
            pos <= cs.len(),
            spans_cut(cs@, spans@, done),
            lines(cs@) == done + lines(cs@.skip(pos as int)),
        decreases cs.len() - pos,
    {
        let ghost rest = cs@.skip(pos as int);
        let stop = line_stop(cs, pos);
        if stop < cs.len() {
            let end = if stop > pos && cs[stop - 1] == '\r' {
                stop - 1
            } else {
                stop
            };
            let ghost line = strip_cr(rest.take(stop - pos));
            assert(line == cs@.subrange(pos as int, end as int));
            assert(rest.skip(stop - pos + 1) == cs@.skip(stop + 1));
            spans.push((pos, end));
            proof {
                done = done.push(line);
            }
            pos = stop + 1;
        } else {
            spans.push((pos, stop));
            proof {
                done = done.push(rest);
            }
            pos = stop;
        }
    }
    spans
}

/// The spans of the words of `cs[from..to]`.
pub fn word_spans(cs: &Vec<char>, from: usize, to: usize) -> (spans: Vec<(usize, usize)>)
    requires
        from <= to <= cs.len(),
    ensures
        spans_cut(cs@, spans@, words(cs@.subrange(from as int, to as int))),
        forall|k: int| 0 <= k < spans.len() ==> from <= (#[trigger] spans[k]).0 < spans[k].1 <= to,
{
    let mask = mask_of(cs, from, to);
    let local = solid_spans(&mask);
    let ghost line = cs@.subrange(from as int, to as int);
    let ghost runs = solid_runs(mask@, 0);
    let mut spans: Vec<(usize, usize)> = Vec::new();
    let mut k: usize = 0;
    while k < local.len()
        invariant
            from <= to <= cs.len(),
            mask@.len() == to - from,
            line == cs@.subrange(from as int, to as int),
            mask@ == whitespace_mask(line),
            runs == solid_runs(mask@, 0),
            as_runs(local@) == runs,
            k <= local.len() == runs.len(),
            spans.len() == k,
            forall|j: int|
                0 <= j < k ==> {
                    &&& from <= (#[trigger] spans[j]).0 < spans[j].1 <= to
                    &&& spans[j].0 == from + runs[j].0
                    &&& spans[j].1 == from + runs[j].1
                },
        decreases local.len() - k,
    {
        let (a, b) = local[k];
        proof {
            lemma_solid_runs_bounds(mask@, 0, k as int);
        }
        spans.push((from + a, from + b));
        k = k + 1;
    }
    assert forall|j: int| 0 <= j < spans.len() implies cs@.subrange(
        (#[trigger] spans[j]).0 as int,
        spans[j].1 as int,
    ) == words(line)[j] by {
        let span = spans[j];
        assert(cs@.subrange(span.0 as int, span.1 as int) == line.subrange(
            span.0 - from,
            span.1 - from,
        ));
    }
    spans
}

/// Whether `a` and `b` hold the same characters.
pub fn str_eq(a: &str, b: &str) -> (same: bool)
    ensures
        same == (a@ == b@),
{
    String::from_str(a) == String::from_str(b)
}

/// Whether `text[from..to]` begins with `prefix`.
pub fn starts_with(text: &Vec<char>, from: usize, to: usize, prefix: &Vec<char>) -> (b: bool)
    requires
        from <= to <= text.len(),
    ensures
        b == prefix@.is_prefix_of(text@.subrange(from as int, to as int)),
{
    if prefix.len() > to - from {
        return false;
    }
    let mut i: usize = 0;
    while i < prefix.len()
        invariant
            i <= prefix.len() <= to - from,
            from <= to <= text.len(),
            forall|j: int| 0 <= j < i ==> prefix@[j] == text@[from + j],
        decreases prefix.len() - i,
    {
        if prefix[i] != text[from + i] {
            return false;
        }
        i = i + 1;
    }
    true
}

/// Whether `needle` stands somewhere in `text`.
pub fn contains(text: &Vec<char>, needle: &Vec<char>) -> (b: bool)
    ensures
        b == occurs_in(needle@, text@),
{
    if needle.len() > text.len() {
        return false;
    }
    let last: usize = text.len() - needle.len();
    let mut k: usize = 0;
    while k <= last
        invariant
            last == text.len() - needle.len(),
            k <= last + 1,
            forall|j: int| 0 <= j < k ==> !occurs_at(needle@, text@, j),
        decreases last + 1 - k,
    {
        let found = starts_with(text, k, text.len(), needle);
        assert(found == occurs_at(needle@, text@, k as int)) by {
            let tail = text@.subrange(k as int, text@.len() as int);
            assert(tail.subrange(0, needle@.len() as int) == text@.subrange(
                k as int,
                k + needle@.len(),
            ));
        }
        if found {
            return true;
        }
        k = k + 1;
    }
    false
}

} // verus!
