//! Sequences of characters: splitting at a separator, joining with one, and
//! the decimal notation of a number.

use vstd::prelude::*;
use vstd::std_specs::iter::IteratorSpec;
use vstd::string::*;

verus! {

/// The texts that a list of string slices holds.
pub open spec fn views(parts: Seq<&str>) -> Seq<Seq<char>> {
    parts.map_values(|p: &str| p@)
}

/// The texts that a list of owned strings holds.
pub open spec fn texts(lines: Seq<String>) -> Seq<Seq<char>> {
    lines.map_values(|l: String| l@)
}

/// The position of the first `c` in `s`, or the length of `s` if it holds none.
pub open spec fn first_index(s: Seq<char>, c: char) -> nat
    decreases s.len(),
{
    if s.len() == 0 || s[0] == c {
        0
    } else {
        (first_index(s.drop_first(), c) + 1) as nat
    }
}

/// Whether `c` occurs nowhere in `s`.
pub open spec fn free_of(s: Seq<char>, c: char) -> bool {
    forall|i: int| 0 <= i < s.len() ==> s[i] != c
}

/// The pieces of `s` between the occurrences of `sep`, in order. There is one
/// piece more than there are separators, so the empty text has one empty piece.
pub open spec fn pieces(s: Seq<char>, sep: char) -> Seq<Seq<char>>
    decreases s.len(),
{
    let cut = first_index(s, sep);
    if cut >= s.len() {
        seq![s]
    } else {
        seq![s.take(cut as int)] + pieces(s.skip(cut as int + 1), sep)
    }
}

/// The parts written one after the other with `sep` between any two.
pub open spec fn joined(parts: Seq<Seq<char>>, sep: Seq<char>) -> Seq<char>
    decreases parts.len(),
{
    if parts.len() == 0 {
        Seq::empty()
    } else if parts.len() == 1 {
        parts[0]
    } else {
        joined(parts.drop_last(), sep) + sep + parts.last()
    }
}

/// The character that stands for a digit below ten.
pub open spec fn digit(d: nat) -> char
    recommends
        d < 10,
{
    "0123456789"@[d as int]
}

/// The decimal notation of `n`: most significant digit first, no sign, and no
/// leading zero but for zero itself.
pub open spec fn decimal_digits(n: nat) -> Seq<char>
    decreases n,
{
    if n < 10 {
        seq![digit(n)]
    } else {
        decimal_digits(n / 10).push(digit(n % 10))
    }
}

/// `first_index` is at most the length, it points at the character looked
/// for unless it is the length, and nothing before it is that character.
pub proof fn lemma_first_index(s: Seq<char>, c: char)
    ensures
        first_index(s, c) <= s.len(),
        first_index(s, c) < s.len() ==> s[first_index(s, c) as int] == c,
        free_of(s.take(first_index(s, c) as int), c),
    decreases s.len(),
{
    if s.len() == 0 || s[0] == c {
    } else {
        lemma_first_index(s.drop_first(), c);
        let k = first_index(s.drop_first(), c) as int;
        let head = s.take(k + 1);
        assert forall|i: int| 0 <= i < head.len() implies head[i] != c by {
            if i > 0 {
                assert(head[i] == s.drop_first().take(k)[i - 1]);
            }
        }
    }
}

/// The first index is `k` where `k` is the first place that holds `c`, or the
/// length if no place does.
pub proof fn lemma_first_index_is(s: Seq<char>, c: char, k: int)
    requires
        0 <= k <= s.len(),
        free_of(s.take(k), c),
        k < s.len() ==> s[k] == c,
    ensures
        first_index(s, c) == k,
    decreases s.len(),
{
    if s.len() == 0 {
    } else if s[0] == c {
        if k > 0 {
            assert(s.take(k)[0] == c);
        }
    } else {
        let rest = s.drop_first();
        let head = rest.take(k - 1);
        assert forall|i: int| 0 <= i < head.len() implies head[i] != c by {
            assert(head[i] == s.take(k)[i + 1]);
        }
        lemma_first_index_is(rest, c, k - 1);
    }
}

/// A text without the separator is its own single piece.
pub proof fn lemma_pieces_of_free(s: Seq<char>, sep: char)
    requires
        free_of(s, sep),
    ensures
        pieces(s, sep) == seq![s],
{
    lemma_first_index_is(s, sep, s.len() as int);
}

/// No piece holds the separator.
pub proof fn lemma_pieces_are_free(s: Seq<char>, sep: char)
    ensures
        forall|i: int| 0 <= i < pieces(s, sep).len() ==> free_of(#[trigger] pieces(s, sep)[i], sep),
    decreases s.len(),
{
    lemma_first_index(s, sep);
    let cut = first_index(s, sep) as int;
    if cut >= s.len() {
        assert(s.take(s.len() as int) == s);
    } else {
        let rest = pieces(s.skip(cut + 1), sep);
        lemma_pieces_are_free(s.skip(cut + 1), sep);
        assert forall|i: int| 0 <= i < pieces(s, sep).len() implies free_of(
            #[trigger] pieces(s, sep)[i],
            sep,
        ) by {
            if i > 0 {
                assert(pieces(s, sep)[i] == rest[i - 1]);
            }
        }
    }
}

/// A separator between two texts parts their pieces: those of the first
/// text come first, those of the second follow, and none runs across.
pub proof fn lemma_pieces_across(a: Seq<char>, b: Seq<char>, sep: char)
    ensures
        pieces(a + seq![sep] + b, sep) == pieces(a, sep) + pieces(b, sep),
    decreases a.len(),
{
    let s = a + seq![sep] + b;
    lemma_first_index(a, sep);
    let cut = first_index(a, sep) as int;
    if cut >= a.len() {
        assert(a.take(a.len() as int) == a);
        assert(s.take(a.len() as int) == a);
        lemma_first_index_is(s, sep, a.len() as int);
        assert(s.skip(a.len() as int + 1) == b);
    } else {
        assert(s.take(cut) == a.take(cut));
        lemma_first_index_is(s, sep, cut);
        assert(s.skip(cut + 1) == a.skip(cut + 1) + seq![sep] + b);
        lemma_pieces_across(a.skip(cut + 1), b, sep);
    }
}

/// Parts without the separator, joined with it, split into the same parts.
pub proof fn lemma_pieces_of_joined(parts: Seq<Seq<char>>, sep: char)
    requires
        parts.len() > 0,
        forall|i: int| 0 <= i < parts.len() ==> free_of(#[trigger] parts[i], sep),
    ensures
        pieces(joined(parts, seq![sep]), sep) == parts,
    decreases parts.len(),
{
    if parts.len() == 1 {
        lemma_pieces_of_free(parts[0], sep);
    } else {
        let front = parts.drop_last();
        lemma_pieces_of_joined(front, sep);
        lemma_pieces_across(joined(front, seq![sep]), parts.last(), sep);
        lemma_pieces_of_free(parts.last(), sep);
    }
}

/// Filtering a sequence with one more element at its end filters what came
/// before and keeps or drops the new element.
pub proof fn lemma_filter_push<A>(s: Seq<A>, last: A, pred: spec_fn(A) -> bool)
    ensures
        s.push(last).filter(pred) == if pred(last) {
            s.filter(pred).push(last)
        } else {
            s.filter(pred)
        },
{
    reveal(Seq::filter);
    assert(s.push(last).drop_last() == s);
}

/// A filter keeps a sequence whose elements all pass.
pub proof fn lemma_filter_keeps_all<A>(s: Seq<A>, pred: spec_fn(A) -> bool)
    requires
        forall|i: int| 0 <= i < s.len() ==> pred(#[trigger] s[i]),
    ensures
        s.filter(pred) == s,
    decreases s.len(),
{
    reveal(Seq::filter);
    if s.len() > 0 {
        lemma_filter_keeps_all(s.drop_last(), pred);
    }
}

/// A filter leaves nothing of a sequence whose elements all fail.
pub proof fn lemma_filter_drops_all<A>(s: Seq<A>, pred: spec_fn(A) -> bool)
    requires
        forall|i: int| 0 <= i < s.len() ==> !pred(#[trigger] s[i]),
    ensures
        s.filter(pred) == Seq::<A>::empty(),
    decreases s.len(),
{
    reveal(Seq::filter);
    if s.len() > 0 {
        lemma_filter_drops_all(s.drop_last(), pred);
    }
}

/// What a filter keeps passes the test and was in the sequence.
pub proof fn lemma_filter_members<A>(s: Seq<A>, pred: spec_fn(A) -> bool)
    ensures
        forall|i: int|
            0 <= i < s.filter(pred).len() ==> pred(#[trigger] s.filter(pred)[i]) && s.contains(
                s.filter(pred)[i],
            ),
    decreases s.len(),
{
    reveal(Seq::filter);
    if s.len() > 0 {
        let rest = s.drop_last();
        lemma_filter_members(rest, pred);
        assert forall|i: int| 0 <= i < s.filter(pred).len() implies pred(
            #[trigger] s.filter(pred)[i],
        ) && s.contains(s.filter(pred)[i]) by {
            if i < rest.filter(pred).len() {
                assert(rest.contains(rest.filter(pred)[i]));
            }
        }
    }
}

/// Two filters, one after the other, keep the same in either order.
pub proof fn lemma_filter_commutes<A>(s: Seq<A>, p: spec_fn(A) -> bool, q: spec_fn(A) -> bool)
    ensures
        s.filter(p).filter(q) == s.filter(q).filter(p),
    decreases s.len(),
{
    if s.len() == 0 {
        reveal(Seq::filter);
    } else {
        let rest = s.drop_last();
        let last = s.last();
        assert(rest.push(last) == s);
        lemma_filter_commutes(rest, p, q);
        lemma_filter_push(rest, last, p);
        lemma_filter_push(rest, last, q);
        lemma_filter_push(rest.filter(p), last, q);
        lemma_filter_push(rest.filter(q), last, p);
    }
}

/// Whether `s` begins with `prefix`.
pub fn starts_with(s: &str, prefix: &str) -> (b: bool)
    ensures
        b == prefix@.is_prefix_of(s@),
{
    let mut rest = s.chars();
    for expected in it: prefix.chars()
        invariant
            it.seq() == prefix@,
            rest.obeys_prophetic_iter_laws(),
            it.index() <= s@.len(),
            rest.remaining() == s@.skip(it.index()),
            forall|j: int| 0 <= j < it.index() ==> s@[j] == prefix@[j],
    {
        match rest.next() {
            Some(found) => {
                if expected != found {
                    return false;
                }
            },
            None => {
                return false;
            },
        }
    }
    true
}

/// Cuts `s` at every `sep`. The pieces borrow from `s` and leave the
/// separators out.
pub fn split<'a>(s: &'a str, sep: char) -> (parts: Vec<&'a str>)
    ensures
        views(parts@) == pieces(s@, sep),
{
    let n = s.unicode_len();
    let mut parts: Vec<&'a str> = Vec::new();
    let mut start: usize = 0;
    let mut i: usize = 0;
    assert(s@.skip(0) == s@);
    for c in it: s.chars()
        invariant
            it.seq() == s@,
            i == it.index(),
            n == s@.len(),
            start <= i <= n,
            free_of(s@.subrange(start as int, i as int), sep),
            pieces(s@, sep) == views(parts@) + pieces(s@.skip(start as int), sep),
    {
        if c == sep {
            let piece = s.substring_char(start, i);
            proof {
                let rest = s@.skip(start as int);
                assert(rest.take(i - start) == s@.subrange(start as int, i as int));
                lemma_first_index_is(rest, sep, i - start);
                assert(rest.skip(i - start + 1) == s@.skip(i + 1));
            }
            parts.push(piece);
            start = i + 1;
        } else {
            proof {
                let run = s@.subrange(start as int, i + 1);
                assert forall|j: int| 0 <= j < run.len() implies run[j] != sep by {
                    if j < i - start {
                        assert(run[j] == s@.subrange(start as int, i as int)[j]);
                    }
                }
            }
        }
        i += 1;
    }
    let piece = s.substring_char(start, n);
    proof {
        lemma_pieces_of_free(piece@, sep);
    }
    parts.push(piece);
    parts
}

/// Writes the parts one after the other with `sep` between any two.
pub fn join(parts: &Vec<&str>, sep: &str) -> (text: String)
    ensures
        text@ == joined(views(parts@), sep@),
{
    let mut text = String::new();
    let mut i: usize = 0;
    while i < parts.len()
        invariant
            i <= parts.len(),
            text@ == joined(views(parts@).take(i as int), sep@),
        decreases parts.len() - i,
    {
        proof {
            let next = views(parts@).take(i + 1);
            assert(next.drop_last() == views(parts@).take(i as int));
        }
        if i > 0 {
            text.append(sep);
        }
        text.append(parts[i]);
        i += 1;
    }
    assert(views(parts@).take(parts.len() as int) == views(parts@));
    text
}

/// The decimal notation of `n`.
pub fn decimal(n: u32) -> (text: String)
    ensures
        text@ == decimal_digits(n as nat),
    decreases n,
{
    proof {
        reveal_strlit("0123456789");
    }
    let last = (n % 10) as usize;
    let unit = "0123456789".substring_char(last, last + 1);
    if n < 10 {
        String::from_str(unit)
    } else {
        let mut text = decimal(n / 10);
        text.append(unit);
        text
    }
}

} // verus!
