//! Text buffer backed by a rope.
//!
//! A [`TextBuffer`] holds the document content as a sequence of Unicode
//! scalar values, with sub-linear insert, delete and slice by character
//! index.  Its view is that character sequence (`Seq<char>`).
//!
//! The buffer follows a deliberately permissive policy: every index-taking
//! mutation with an out-of-range index is a no-op that leaves the buffer
//! unchanged, and `slice`/`line` return an empty string for an invalid
//! range.  Callers that want a hard failure (such as the editor facade)
//! pre-validate the indices themselves.

use vstd::prelude::*;

use crate::rope::{
    rope_char, rope_chars, rope_clone, rope_from_str, rope_insert, rope_insert_char,
    rope_len_bytes, rope_len_chars, rope_len_lines, rope_line_to_string, rope_new, rope_remove,
    rope_slice_to_string, rope_to_string,
};
use crate::text::{insert_seq, line_at, line_count, remove_seq, utf8_len};

verus! {

/// A text buffer; its view is the character sequence it holds.
pub struct TextBuffer {
    rope: ropey::Rope,
}

impl View for TextBuffer {
    type V = Seq<char>;

    closed spec fn view(&self) -> Seq<char> {
        rope_chars(self.rope)
    }
}

impl TextBuffer {
    /// Create a new empty text buffer.
    pub fn new() -> (r: Self)
        ensures
            r@ == Seq::<char>::empty(),
    {
        Self { rope: rope_new() }
    }

    /// Create a text buffer holding the characters of `text`.
    pub fn from_str(text: &str) -> (r: Self)
        ensures
            r@ == text@,
    {
        Self { rope: rope_from_str(text) }
    }

    /// The length of the text in bytes of its UTF-8 encoding.
    pub fn len_bytes(&self) -> (r: usize)
        ensures
            r == utf8_len(self@),
    {
        rope_len_bytes(&self.rope)
    }

    /// The length of the text in characters.
    pub fn len_chars(&self) -> (r: usize)
        ensures
            r == self@.len(),
    {
        rope_len_chars(&self.rope)
    }

    /// The number of lines: one more than the number of `'\n'` terminators.
    pub fn len_lines(&self) -> (r: usize)
        ensures
            r == line_count(self@),
    {
        rope_len_lines(&self.rope)
    }

    /// Whether the buffer holds no characters.
    pub fn is_empty(&self) -> (r: bool)
        ensures
            r <==> self@.len() == 0,
    {
        rope_len_chars(&self.rope) == 0
    }

    /// Insert a character at the given character index; a no-op when the
    /// index is past the end.
    pub fn insert_char(&mut self, idx: usize, ch: char)
        ensures
            final(self)@ == if idx <= old(self)@.len() {
                insert_seq(old(self)@, idx as int, seq![ch])
            } else {
                old(self)@
            },
    {
        if idx <= rope_len_chars(&self.rope) {
            rope_insert_char(&mut self.rope, idx, ch);
        }
    }

    /// Insert a string at the given character index; a no-op when the index
    /// is past the end.
    pub fn insert(&mut self, idx: usize, text: &str)
        ensures
            final(self)@ == if idx <= old(self)@.len() {
                insert_seq(old(self)@, idx as int, text@)
            } else {
                old(self)@
            },
    {
        if idx <= rope_len_chars(&self.rope) {
            rope_insert(&mut self.rope, idx, text);
        }
    }

    /// Delete a range of characters; a no-op when the range is reversed or
    /// reaches past the end.
    pub fn delete_range(&mut self, range: core::ops::Range<usize>)
        ensures
            final(self)@ == if range.start <= range.end && range.end <= old(self)@.len() {
                remove_seq(old(self)@, range.start as int, range.end as int)
            } else {
                old(self)@
            },
    {
        if range.start <= range.end && range.end <= rope_len_chars(&self.rope) {
            rope_remove(&mut self.rope, range.start, range.end);
        }
    }

    /// Delete the single character at the given index; a no-op when the
    /// index is past the end.
    pub fn delete_char(&mut self, idx: usize)
        ensures
            final(self)@ == if idx < old(self)@.len() {
                remove_seq(old(self)@, idx as int, idx as int + 1)
            } else {
                old(self)@
            },
    {
        if idx < rope_len_chars(&self.rope) {
            rope_remove(&mut self.rope, idx, idx + 1);
        }
    }

    /// The entire text as a String.
    pub fn to_string(&self) -> (r: String)
        ensures
            r@ == self@,
    {
        rope_to_string(&self.rope)
    }

    /// The characters of `[range.start, range.end)` as a String; empty when
    /// the range is reversed or reaches past the end.
    pub fn slice(&self, range: core::ops::Range<usize>) -> (r: String)
        ensures
            r@ == if range.start <= range.end && range.end <= self@.len() {
                self@.subrange(range.start as int, range.end as int)
            } else {
                Seq::<char>::empty()
            },
    {
        if range.start <= range.end && range.end <= rope_len_chars(&self.rope) {
            rope_slice_to_string(&self.rope, range.start, range.end)
        } else {
            String::new()
        }
    }

    /// Line `idx` (zero-indexed, terminator included) as a String; empty
    /// when the index is past the last line.
    pub fn line(&self, idx: usize) -> (r: String)
        ensures
            r@ == if idx < line_count(self@) {
                line_at(self@, idx as nat)
            } else {
                Seq::<char>::empty()
            },
    {
        if idx < rope_len_lines(&self.rope) {
            rope_line_to_string(&self.rope, idx)
        } else {
            String::new()
        }
    }

    /// The character at the given index, or `None` past the end.
    pub fn char_at(&self, idx: usize) -> (r: Option<char>)
        ensures
            r == if idx < self@.len() {
                Some(self@[idx as int])
            } else {
                None::<char>
            },
    {
        if idx < rope_len_chars(&self.rope) {
            Some(rope_char(&self.rope, idx))
        } else {
            None
        }
    }

    /// Replace the entire buffer content with the characters of `text`.
    pub fn replace_all(&mut self, text: &str)
        ensures
            final(self)@ == text@,
    {
        self.rope = rope_from_str(text);
    }

    /// A reference to the underlying rope.
    pub fn rope(&self) -> (r: &ropey::Rope)
        ensures
            rope_chars(*r) == self@,
    {
        &self.rope
    }
}

impl Clone for TextBuffer {
    /// A clone holds the same text.
    fn clone(&self) -> (r: Self)
        ensures
            r@ == self@,
    {
        Self { rope: rope_clone(&self.rope) }
    }
}

impl Default for TextBuffer {
    /// The default buffer is empty.
    fn default() -> (r: Self)
        ensures
            r@ == Seq::<char>::empty(),
    {
        Self::new()
    }
}

} // verus!
