//! A rope-backed buffer addressed by line/column positions.
//!
//! Where [`crate::buffer::TextBuffer`] is addressed by flat character
//! indices, this buffer converts between those and line/column
//! [`Position`]s, supports range replacement, and tracks a dirty flag and an
//! associated file path.

use vstd::prelude::*;
use vstd::string::StrSliceExecFns;

use crate::rope::{
    rope_char_to_line, rope_chars, rope_from_str, rope_insert, rope_len_chars, rope_len_lines,
    rope_line_to_char, rope_line_to_string, rope_new, rope_remove, rope_to_string,
};
use crate::text::{
    lemma_line_partition, lemma_line_start_le, line_at, line_count, line_start, nl_count,
};

verus! {

/// An identifier for one buffer among many.
#[derive(Debug, Clone, Copy, PartialEq, Eq, Hash, Structural)]
pub struct BufferId(pub usize);

/// A line/column position, both zero-indexed and counted in characters; the
/// column may sit just past the line's last character.
#[derive(Debug, Clone, Copy, PartialEq, Eq, Structural)]
pub struct Position {
    pub line: usize,
    pub col: usize,
}

impl Position {
    /// A position from its line and column.
    pub fn new(line: usize, col: usize) -> (r: Self)
        ensures
            r.line == line,
            r.col == col,
    {
        Self { line, col }
    }
}

/// A half-open position range `[start, end)`.
#[derive(Debug, Clone, Copy, PartialEq, Eq, Structural)]
pub struct Range {
    pub start: Position,
    pub end: Position,
}

impl Range {
    /// A range from its bounds.
    pub fn new(start: Position, end: Position) -> (r: Self)
        ensures
            r.start == start,
            r.end == end,
    {
        Self { start, end }
    }
}

/// Whether a position names a place in the text `s`: its line exists and
/// its column lies within that line (one past the line's last character,
/// terminator included, still counts).
pub open spec fn pos_valid(s: Seq<char>, p: Position) -> bool {
    p.line < line_count(s) && p.col <= line_at(s, p.line as nat).len()
}

/// The flat character index a position names in the text `s`.
pub open spec fn pos_char_idx(s: Seq<char>, p: Position) -> int {
    line_start(s, p.line as nat) + p.col
}

/// A text buffer backed by a rope, with a dirty flag and an optional file
/// path.
pub struct Buffer {
    id: BufferId,
    rope: ropey::Rope,
    file_path: Option<String>,
    dirty: bool,
}

impl Buffer {
    /// The characters the buffer holds.
    pub closed spec fn text(&self) -> Seq<char> {
        rope_chars(self.rope)
    }

    /// The buffer's identifier.
    pub closed spec fn spec_id(&self) -> BufferId {
        self.id
    }

    /// The buffer's file path, if any.
    pub closed spec fn spec_file_path(&self) -> Option<Seq<char>> {
        match &self.file_path {
            Some(p) => Some(p@),
            None => None,
        }
    }

    /// Whether the buffer has been edited since it was last marked clean.
    pub closed spec fn spec_dirty(&self) -> bool {
        self.dirty
    }

    /// A fresh empty buffer.
    pub fn new(id: BufferId) -> (r: Self)
        ensures
            r.spec_id() == id,
            r.text() == Seq::<char>::empty(),
            r.spec_file_path() is None,
            !r.spec_dirty(),
    {
        Self {
            id,
            rope: rope_new(),
            file_path: None,
            dirty: false,
        }
    }

    /// A clean buffer holding `content`, optionally tied to a file path.
    pub fn from_string(id: BufferId, content: String, file_path: Option<String>) -> (r: Self)
        ensures
            r.spec_id() == id,
            r.text() == content@,
            r.spec_file_path() == match file_path {
                Some(p) => Some(p@),
                None => None::<Seq<char>>,
            },
            !r.spec_dirty(),
    {
        Self {
            id,
            rope: rope_from_str(content.as_str()),
            file_path,
            dirty: false,
        }
    }

    /// The buffer's identifier.
    pub fn id(&self) -> (r: BufferId)
        ensures
            r == self.spec_id(),
    {
        self.id
    }

    /// The file path, if one is set.
    pub fn file_path(&self) -> (r: Option<&str>)
        ensures
            match r {
                Some(p) => self.spec_file_path() == Some(p@),
                None => self.spec_file_path() is None,
            },
    {
        match &self.file_path {
            Some(p) => Some(p.as_str()),
            None => None,
        }
    }

    /// Tie the buffer to a file path.
    pub fn set_file_path(&mut self, path: String)
        ensures
            final(self).spec_file_path() == Some(path@),
            final(self).text() == old(self).text(),
            final(self).spec_id() == old(self).spec_id(),
            final(self).spec_dirty() == old(self).spec_dirty(),
    {
        self.file_path = Some(path);
    }

    /// Whether the buffer has been edited since it was last marked clean.
    pub fn is_dirty(&self) -> (r: bool)
        ensures
            r == self.spec_dirty(),
    {
        self.dirty
    }

    /// Mark the buffer clean, as after a save.
    pub fn mark_clean(&mut self)
        ensures
            !final(self).spec_dirty(),
            final(self).text() == old(self).text(),
            final(self).spec_id() == old(self).spec_id(),
            final(self).spec_file_path() == old(self).spec_file_path(),
    {
        self.dirty = false;
    }

    /// The whole content as a String.
    pub fn as_string(&self) -> (r: String)
        ensures
            r@ == self.text(),
    {
        rope_to_string(&self.rope)
    }

    /// The whole content as a String.
    pub fn content(&self) -> (r: String)
        ensures
            r@ == self.text(),
    {
        rope_to_string(&self.rope)
    }

    /// The number of lines: one more than the number of terminators.
    pub fn line_count(&self) -> (r: usize)
        ensures
            r == line_count(self.text()),
    {
        rope_len_lines(&self.rope)
    }

    /// Line `line_idx` (terminator included), or `None` past the last line.
    pub fn line(&self, line_idx: usize) -> (r: Option<String>)
        ensures
            match r {
                Some(l) => line_idx < line_count(self.text()) && l@ == line_at(
                    self.text(),
                    line_idx as nat,
                ),
                None => line_idx >= line_count(self.text()),
            },
    {
        if line_idx < rope_len_lines(&self.rope) {
            Some(rope_line_to_string(&self.rope, line_idx))
        } else {
            None
        }
    }

    /// The flat character index of a position.  Succeeds exactly on valid
    /// positions: the line must exist and the column must lie within it.
    pub fn position_to_char_idx(&self, pos: Position) -> (r: Result<usize, String>)
        ensures
            pos_valid(self.text(), pos) ==> (r matches Ok(idx) && idx == pos_char_idx(
                self.text(),
                pos,
            ) && idx <= self.text().len()),
            !pos_valid(self.text(), pos) ==> r is Err,
    {
        let total = rope_len_chars(&self.rope);
        let n_lines = rope_len_lines(&self.rope);
        if pos.line >= n_lines {
            return Err(String::from_str("line out of bounds"));
        }

        let start_idx = rope_line_to_char(&self.rope, pos.line);
        let line_text = rope_line_to_string(&self.rope, pos.line);
        let line_len = line_text.as_str().unicode_len();

        proof {
            lemma_line_partition(self.text(), pos.line as nat);
        }

        if pos.col > line_len {
            return Err(String::from_str("column out of bounds"));
        }

        Ok(start_idx + pos.col)
    }

    /// The position of a flat character index.  Succeeds exactly on indices
    /// up to the text length: the line is the count of terminators before
    /// the index, the column the distance from that line's start.
    pub fn char_idx_to_position(&self, char_idx: usize) -> (r: Result<Position, String>)
        ensures
            char_idx <= self.text().len() ==> {
                let line = nl_count(self.text().take(char_idx as int));
                (r matches Ok(p) && p.line == line && p.col == char_idx - line_start(
                    self.text(),
                    line,
                ))
            },
            char_idx > self.text().len() ==> r is Err,
    {
        let total = rope_len_chars(&self.rope);
        if char_idx > total {
            return Err(String::from_str("character index out of bounds"));
        }

        let line = rope_char_to_line(&self.rope, char_idx);
        proof {
            lemma_line_start_le(self.text(), char_idx as int);
        }
        let start_idx = rope_line_to_char(&self.rope, line);
        let col = char_idx - start_idx;

        Ok(Position::new(line, col))
    }

    /// Replace the characters `[start, end)` with `t` and mark the buffer
    /// dirty.
    pub(crate) fn splice_chars(&mut self, start: usize, end: usize, t: &str)
        requires
            start <= end,
            end <= old(self).text().len(),
        ensures
            final(self).text() == old(self).text().take(start as int) + t@ + old(
                self,
            ).text().skip(end as int),
            final(self).spec_dirty(),
            final(self).spec_id() == old(self).spec_id(),
            final(self).spec_file_path() == old(self).spec_file_path(),
    {
        rope_remove(&mut self.rope, start, end);
        rope_insert(&mut self.rope, start, t);
        self.dirty = true;
        proof {
            assert(self.text() =~= old(self).text().take(start as int) + t@ + old(
                self,
            ).text().skip(end as int));
        }
    }

    /// Replace the text between two positions with `new_text` and mark the
    /// buffer dirty.  Succeeds exactly when both positions are valid and the
    /// start does not lie after the end.
    pub fn replace_range(&mut self, range: Range, new_text: &str) -> (r: Result<(), String>)
        ensures
            ({
                let s = old(self).text();
                &&& (pos_valid(s, range.start) && pos_valid(s, range.end) && pos_char_idx(
                    s,
                    range.start,
                ) <= pos_char_idx(s, range.end)) ==> {
                    let sc = pos_char_idx(s, range.start);
                    let ec = pos_char_idx(s, range.end);
                    &&& r is Ok
                    &&& final(self).text() == s.take(sc) + new_text@ + s.skip(ec)
                    &&& final(self).spec_dirty()
                    &&& final(self).spec_id() == old(self).spec_id()
                    &&& final(self).spec_file_path() == old(self).spec_file_path()
                }
                &&& !(pos_valid(s, range.start) && pos_valid(s, range.end) && pos_char_idx(
                    s,
                    range.start,
                ) <= pos_char_idx(s, range.end)) ==> r is Err && *final(self) == *old(self)
            }),
    {
        let start_char = match self.position_to_char_idx(range.start) {
            Ok(v) => v,
            Err(e) => {
                return Err(e);
            },
        };
        let end_char = match self.position_to_char_idx(range.end) {
            Ok(v) => v,
            Err(e) => {
                return Err(e);
            },
        };

        if start_char > end_char {
            return Err(String::from_str("invalid range: start is after end"));
        }

        rope_remove(&mut self.rope, start_char, end_char);
        rope_insert(&mut self.rope, start_char, new_text);
        self.dirty = true;

        proof {
            let s = old(self).text();
            let sc = start_char as int;
            let ec = end_char as int;
            assert(self.text() =~= s.take(sc) + new_text@ + s.skip(ec));
        }
        Ok(())
    }
}

} // verus!
