//! Trusted bindings to the `ropey` crate.
//!
//! The rope is the balanced-tree text store that gives the buffer its
//! sub-linear edit costs.  Its contents are named by the uninterpreted
//! [`rope_chars`], and every method the buffer uses is wrapped in a function
//! whose contract states, over that name, what `ropey`'s documentation and
//! source promise.  `ropey` is built without its `unicode_lines` feature, so
//! the only line terminator it recognises is `'\n'`, which is what the
//! contracts here state (see [`crate::text`]).

use vstd::prelude::*;

use crate::text::{insert_seq, line_at, line_count, line_start, nl_count, remove_seq, utf8_len};

verus! {

#[verifier::external_type_specification]
#[verifier::external_body]
pub struct ExRope(ropey::Rope);

/// The characters a rope holds, in order.
pub uninterp spec fn rope_chars(r: ropey::Rope) -> Seq<char>;

/// Relies on ropey::Rope::new: an empty rope.
#[verifier::external_body]
pub(crate) fn rope_new() -> (r: ropey::Rope)
    ensures
        rope_chars(r) == Seq::<char>::empty(),
{
    ropey::Rope::new()
}

/// Relies on ropey::Rope::from_str: a rope holding exactly the characters of `text`.
#[verifier::external_body]
pub(crate) fn rope_from_str(text: &str) -> (r: ropey::Rope)
    ensures
        rope_chars(r) == text@,
{
    ropey::Rope::from_str(text)
}

/// Relies on ropey::Rope::clone: clones share the same text.
#[verifier::external_body]
pub(crate) fn rope_clone(r: &ropey::Rope) -> (r2: ropey::Rope)
    ensures
        rope_chars(r2) == rope_chars(*r),
{
    r.clone()
}

/// Relies on ropey::Rope::len_chars: the total number of chars.
#[verifier::external_body]
pub(crate) fn rope_len_chars(r: &ropey::Rope) -> (n: usize)
    ensures
        n == rope_chars(*r).len(),
{
    r.len_chars()
}

/// Relies on ropey::Rope::len_bytes: the total number of bytes of the
/// UTF-8 encoding of the text.
#[verifier::external_body]
pub(crate) fn rope_len_bytes(r: &ropey::Rope) -> (n: usize)
    ensures
        n == utf8_len(rope_chars(*r)),
{
    r.len_bytes()
}

/// Relies on ropey::Rope::len_lines: one more than the number of line
/// terminators (`'\n'` only, with the `unicode_lines` feature off).
#[verifier::external_body]
pub(crate) fn rope_len_lines(r: &ropey::Rope) -> (n: usize)
    ensures
        n == line_count(rope_chars(*r)),
{
    r.len_lines()
}

/// Relies on ropey::Rope::insert: inserts `text` at char index `char_idx`;
/// panics only when `char_idx > len_chars()`, which the precondition rules out.
#[verifier::external_body]
pub(crate) fn rope_insert(r: &mut ropey::Rope, char_idx: usize, text: &str)
    requires
        char_idx <= rope_chars(*old(r)).len(),
    ensures
        rope_chars(*final(r)) == insert_seq(rope_chars(*old(r)), char_idx as int, text@),
{
    r.insert(char_idx, text);
}

/// Relies on ropey::Rope::insert_char: inserts one char at `char_idx`;
/// panics only when `char_idx > len_chars()`, which the precondition rules out.
#[verifier::external_body]
pub(crate) fn rope_insert_char(r: &mut ropey::Rope, char_idx: usize, ch: char)
    requires
        char_idx <= rope_chars(*old(r)).len(),
    ensures
        rope_chars(*final(r)) == insert_seq(rope_chars(*old(r)), char_idx as int, seq![ch]),
{
    r.insert_char(char_idx, ch);
}

/// Relies on ropey::Rope::remove: removes the char range `[start, end)`;
/// panics only when `start > end` or `end > len_chars()`, which the
/// precondition rules out.
#[verifier::external_body]
pub(crate) fn rope_remove(r: &mut ropey::Rope, start: usize, end: usize)
    requires
        start <= end,
        end <= rope_chars(*old(r)).len(),
    ensures
        rope_chars(*final(r)) == remove_seq(rope_chars(*old(r)), start as int, end as int),
{
    r.remove(start..end);
}

/// Relies on ropey::Rope's Display impl: the whole text as a String.
#[verifier::external_body]
pub(crate) fn rope_to_string(r: &ropey::Rope) -> (s: String)
    ensures
        s@ == rope_chars(*r),
{
    r.to_string()
}

/// Relies on ropey::Rope::slice and RopeSlice's Display impl: the chars of
/// `[start, end)` as a String; `slice` panics only on an invalid range,
/// which the precondition rules out.
#[verifier::external_body]
pub(crate) fn rope_slice_to_string(r: &ropey::Rope, start: usize, end: usize) -> (s: String)
    requires
        start <= end,
        end <= rope_chars(*r).len(),
    ensures
        s@ == rope_chars(*r).subrange(start as int, end as int),
{
    r.slice(start..end).to_string()
}

/// Relies on ropey::Rope::char: the char at `char_idx`; panics only when
/// `char_idx >= len_chars()`, which the precondition rules out.
#[verifier::external_body]
pub(crate) fn rope_char(r: &ropey::Rope, char_idx: usize) -> (c: char)
    requires
        char_idx < rope_chars(*r).len(),
    ensures
        c == rope_chars(*r)[char_idx as int],
{
    r.char(char_idx)
}

/// Relies on ropey::Rope::line and RopeSlice's Display impl: line
/// `line_idx`, terminator included, as a String; `line` panics only when
/// `line_idx >= len_lines()`, which the precondition rules out.
#[verifier::external_body]
pub(crate) fn rope_line_to_string(r: &ropey::Rope, line_idx: usize) -> (s: String)
    requires
        line_idx < line_count(rope_chars(*r)),
    ensures
        s@ == line_at(rope_chars(*r), line_idx as nat),
{
    r.line(line_idx).to_string()
}

/// Relies on ropey::Rope::line_to_char: the char index of the start of line
/// `line_idx` (one-past-the-end gives one-past-the-end); panics only when
/// `line_idx > len_lines()`, which the precondition rules out.
#[verifier::external_body]
pub(crate) fn rope_line_to_char(r: &ropey::Rope, line_idx: usize) -> (n: usize)
    requires
        line_idx <= line_count(rope_chars(*r)),
    ensures
        n == line_start(rope_chars(*r), line_idx as nat),
{
    r.line_to_char(line_idx)
}

/// Relies on ropey::Rope::char_to_line: the index of the line holding char
/// `char_idx`, i.e. the number of line terminators before it; panics only
/// when `char_idx > len_chars()`, which the precondition rules out.
#[verifier::external_body]
pub(crate) fn rope_char_to_line(r: &ropey::Rope, char_idx: usize) -> (n: usize)
    requires
        char_idx <= rope_chars(*r).len(),
    ensures
        n == nl_count(rope_chars(*r).take(char_idx as int)),
{
    r.char_to_line(char_idx)
}

} // verus!
