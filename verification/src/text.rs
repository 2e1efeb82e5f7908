//! The mathematical model of document text.
//!
//! A document is modelled as a `Seq<char>`: a sequence of Unicode scalar
//! values.  All positions are character indices.  Lines are the segments
//! delimited by `'\n'`; the terminator belongs to the line it ends, and a
//! text always has one more line than it has terminators (so a text that
//! ends in `'\n'` has a final empty line, and the empty text has one empty
//! line).

use vstd::prelude::*;

verus! {

/// The text after inserting `t` at character index `i` of `s`.
pub open spec fn insert_seq(s: Seq<char>, i: int, t: Seq<char>) -> Seq<char> {
    s.subrange(0, i) + t + s.subrange(i, s.len() as int)
}

/// The text after removing the character range `[a, b)` of `s`.
pub open spec fn remove_seq(s: Seq<char>, a: int, b: int) -> Seq<char> {
    s.subrange(0, a) + s.subrange(b, s.len() as int)
}

/// The number of bytes of the UTF-8 encoding of one character.
pub open spec fn char_utf8_len(c: char) -> nat {
    if (c as u32) < 0x80 {
        1
    } else if (c as u32) < 0x800 {
        2
    } else if (c as u32) < 0x10000 {
        3
    } else {
        4
    }
}

/// The number of bytes of the UTF-8 encoding of `s`.
pub open spec fn utf8_len(s: Seq<char>) -> nat
    decreases s.len(),
{
    if s.len() == 0 {
        0
    } else {
        utf8_len(s.drop_last()) + char_utf8_len(s.last())
    }
}

/// The number of line terminators in `s`.
pub open spec fn nl_count(s: Seq<char>) -> nat
    decreases s.len(),
{
    if s.len() == 0 {
        0
    } else {
        nl_count(s.drop_last()) + if s.last() == '\n' {
            1nat
        } else {
            0nat
        }
    }
}

/// The number of lines of `s`: one more than the number of terminators.
pub open spec fn line_count(s: Seq<char>) -> nat {
    nl_count(s) + 1
}

/// The length of the first line of `s`, terminator included; the whole of
/// `s` if it holds no terminator.
pub open spec fn first_line_len(s: Seq<char>) -> nat
    decreases s.len(),
{
    if s.len() == 0 {
        0
    } else if s[0] == '\n' {
        1
    } else {
        1 + first_line_len(s.subrange(1, s.len() as int))
    }
}

/// Line `i` of `s` (zero-indexed), terminator included.
pub open spec fn line_at(s: Seq<char>, i: nat) -> Seq<char>
    decreases i,
{
    if i == 0 {
        s.take(first_line_len(s) as int)
    } else {
        line_at(s.skip(first_line_len(s) as int), (i - 1) as nat)
    }
}

/// The character index at which line `i` of `s` starts.
pub open spec fn line_start(s: Seq<char>, i: nat) -> nat
    decreases i,
{
    if i == 0 {
        0
    } else {
        line_start(s, (i - 1) as nat) + line_at(s, (i - 1) as nat).len()
    }
}

/// The first line is never longer than the text.
pub proof fn lemma_first_line_len_le(s: Seq<char>)
    ensures
        first_line_len(s) <= s.len(),
    decreases s.len(),
{
    if s.len() > 0 && s[0] != '\n' {
        lemma_first_line_len_le(s.subrange(1, s.len() as int));
    }
}

/// Terminator counts split over concatenation.
pub proof fn lemma_nl_count_concat(a: Seq<char>, b: Seq<char>)
    ensures
        nl_count(a + b) == nl_count(a) + nl_count(b),
    decreases b.len(),
{
    if b.len() == 0 {
        assert(a + b =~= a);
    } else {
        assert((a + b).drop_last() =~= a + b.drop_last());
        assert((a + b).last() == b.last());
        lemma_nl_count_concat(a, b.drop_last());
    }
}

/// What the first line looks like: it holds no terminator before its last
/// character; when the text holds any terminator, the first line ends at
/// the first one, which is its own single terminator, and the rest of the
/// text holds the others; when the text holds none, the first line is the
/// whole text.
pub proof fn lemma_first_line(s: Seq<char>)
    ensures
        forall|j: int| 0 <= j < first_line_len(s) - 1 ==> s[j] != '\n',
        nl_count(s) > 0 ==> {
            let n = first_line_len(s) as int;
            &&& 1 <= n <= s.len()
            &&& s[n - 1] == '\n'
            &&& nl_count(s.take(n)) == 1
            &&& nl_count(s.skip(n)) == nl_count(s) - 1
        },
        nl_count(s) == 0 ==> first_line_len(s) == s.len(),
    decreases s.len(),
{
    lemma_first_line_len_le(s);
    if s.len() == 0 {
    } else {
        let tail = s.subrange(1, s.len() as int);
        assert(s.take(1) + tail =~= s);
        lemma_nl_count_concat(s.take(1), tail);
        assert(nl_count(Seq::<char>::empty()) == 0);
        assert(s.take(1).drop_last() =~= Seq::<char>::empty());
        assert(s.take(1).last() == s[0]);
        assert(nl_count(s.take(1)) == if s[0] == '\n' {
            1int
        } else {
            0int
        });
        if s[0] == '\n' {
            assert(s.take(1) =~= s.take(first_line_len(s) as int));
            assert(tail =~= s.skip(first_line_len(s) as int));
        } else {
            lemma_first_line(tail);
            let n = first_line_len(s) as int;
            assert(n == 1 + first_line_len(tail));
            assert(forall|j: int| 1 <= j < n - 1 ==> s[j] == tail[j - 1]);
            if nl_count(s) > 0 {
                assert(nl_count(tail) == nl_count(s));
                assert(s[n - 1] == tail[n - 2]);
                assert(s.take(n).take(1) =~= s.take(1));
                assert(s.take(n).skip(1) =~= tail.take(n - 1));
                assert(s.take(n).take(1) + s.take(n).skip(1) =~= s.take(n));
                lemma_nl_count_concat(s.take(n).take(1), s.take(n).skip(1));
                assert(s.skip(n) =~= tail.skip(n - 1));
            } else {
                assert(nl_count(tail) == 0);
            }
        }
    }
}

/// Line starts and lines decompose over dropping the first line.
pub proof fn lemma_line_start_skip(s: Seq<char>, i: nat)
    requires
        i >= 1,
    ensures
        line_start(s, i) == first_line_len(s) + line_start(
            s.skip(first_line_len(s) as int),
            (i - 1) as nat,
        ),
    decreases i,
{
    lemma_first_line_len_le(s);
    let n = first_line_len(s) as int;
    let rest = s.skip(n);
    if i == 1 {
        assert(line_start(s, 1) == line_start(s, 0) + line_at(s, 0).len());
        assert(line_at(s, 0) =~= s.take(n));
        assert(line_start(rest, 0) == 0);
    } else {
        lemma_line_start_skip(s, (i - 1) as nat);
        assert(line_start(s, i) == line_start(s, (i - 1) as nat) + line_at(
            s,
            (i - 1) as nat,
        ).len());
        assert(line_at(s, (i - 1) as nat) == line_at(rest, (i - 2) as nat));
        assert(line_start(rest, (i - 1) as nat) == line_start(rest, (i - 2) as nat) + line_at(
            rest,
            (i - 2) as nat,
        ).len());
    }
}

/// A text with no terminator has exactly one line; every line index below
/// the line count starts within the text, counts exactly its own index in
/// terminators before its start, and ends within the text.
pub proof fn lemma_line_partition(s: Seq<char>, i: nat)
    requires
        i < line_count(s),
    ensures
        line_start(s, i) + line_at(s, i).len() <= s.len(),
        nl_count(s.take(line_start(s, i) as int)) == i,
    decreases i,
{
    lemma_first_line_len_le(s);
    lemma_first_line(s);
    let n = first_line_len(s) as int;
    if i == 0 {
        assert(line_at(s, 0) =~= s.take(n));
        assert(s.take(0) =~= Seq::<char>::empty());
    } else {
        // i >= 1 forces a terminator, so the first line ends at one.
        assert(nl_count(s) >= i);
        let rest = s.skip(n);
        lemma_line_partition(rest, (i - 1) as nat);
        lemma_line_start_skip(s, i);
        let ls = line_start(rest, (i - 1) as nat) as int;
        assert(s.take(n + ls) =~= s.take(n) + rest.take(ls));
        lemma_nl_count_concat(s.take(n), rest.take(ls));
    }
}

/// The start of the line that a character position belongs to (the line
/// index being the count of terminators before the position) never lies
/// past that position.
pub proof fn lemma_line_start_le(s: Seq<char>, c: int)
    requires
        0 <= c <= s.len(),
    ensures
        nl_count(s.take(c)) <= nl_count(s),
        line_start(s, nl_count(s.take(c))) <= c,
    decreases s.len(),
{
    assert(s.take(c) + s.skip(c) =~= s);
    lemma_nl_count_concat(s.take(c), s.skip(c));
    lemma_first_line(s);
    lemma_first_line_len_le(s);
    let k = nl_count(s.take(c));
    if k > 0 {
        let n = first_line_len(s) as int;
        // The first terminator lies inside the prefix, so the prefix
        // reaches at least to the end of the first line.
        if c < n {
            assert(forall|j: int| 0 <= j < c ==> s.take(c)[j] == s[j]);
            lemma_nl_count_zero(s.take(c), s, n);
            assert(false);
        }
        let rest = s.skip(n);
        assert(s.take(c) =~= s.take(n) + rest.take(c - n));
        lemma_nl_count_concat(s.take(n), rest.take(c - n));
        lemma_line_start_le(rest, c - n);
        lemma_line_start_skip(s, k);
    }
}

/// A prefix that stops before the first terminator holds none.
proof fn lemma_nl_count_zero(p: Seq<char>, s: Seq<char>, n: int)
    requires
        p.len() < n,
        n <= s.len() + 1,
        forall|j: int| 0 <= j < p.len() ==> p[j] == s[j],
        forall|j: int| 0 <= j < n - 1 ==> s[j] != '\n',
    ensures
        nl_count(p) == 0,
    decreases p.len(),
{
    if p.len() > 0 {
        lemma_nl_count_zero(p.drop_last(), s, n);
    }
}

} // verus!
