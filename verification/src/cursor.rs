//! Cursor position management.
//!
//! A [`Cursor`] is a single logical position into a text buffer, counted in
//! characters (Unicode scalar values), never in bytes.  The adjustment rules
//! for edits applied elsewhere in the buffer are:
//!
//! - insertion of length `L` at position `P`: if `P <= cursor`, the cursor
//!   moves forward by `L`;
//! - deletion of the range `[S, S + L)`: if the whole range lies at or before
//!   the cursor, the cursor moves back by `L`; if the cursor lies strictly
//!   inside the range, it snaps to `S`; otherwise it is unchanged.

use vstd::prelude::*;

verus! {

/// A cursor position in a text buffer, in character units.
///
/// The view of a cursor is its position as a mathematical natural number.
#[derive(Debug, Clone, Copy, PartialEq, Eq, Structural)]
pub struct Cursor {
    position: usize,
}

impl View for Cursor {
    type V = nat;

    closed spec fn view(&self) -> nat {
        self.position as nat
    }
}

impl Cursor {
    /// Create a new cursor at position 0.
    pub fn new() -> (r: Self)
        ensures
            r@ == 0,
    {
        Self { position: 0 }
    }

    /// Create a cursor at a specific position.
    pub fn at(position: usize) -> (r: Self)
        ensures
            r@ == position,
    {
        Self { position }
    }

    /// Get the current cursor position.
    pub fn position(&self) -> (r: usize)
        ensures
            r == self@,
    {
        self.position
    }

    /// Set the cursor position.
    pub fn set_position(&mut self, position: usize)
        ensures
            final(self)@ == position,
    {
        self.position = position;
    }

    /// Move the cursor forward by `n` characters, saturating at
    /// `max_position` (and in particular never exceeding it).
    pub fn move_forward(&mut self, n: usize, max_position: usize)
        ensures
            final(self)@ == if old(self)@ + n <= max_position {
                old(self)@ + n
            } else {
                max_position as int
            },
    {
        let stepped = self.position.saturating_add(n);
        self.position = if stepped <= max_position {
            stepped
        } else {
            max_position
        };
    }

    /// Move the cursor backward by `n` characters, saturating at 0.
    pub fn move_backward(&mut self, n: usize)
        ensures
            final(self)@ == if old(self)@ >= n {
                old(self)@ - n
            } else {
                0int
            },
    {
        self.position = self.position.saturating_sub(n);
    }

    /// Adjust the cursor after an insertion of `insert_len` characters at
    /// `insert_pos`: an insertion at or before the cursor pushes it forward.
    pub fn adjust_for_insert(&mut self, insert_pos: usize, insert_len: usize)
        ensures
            final(self)@ == if insert_pos <= old(self)@ {
                if old(self)@ + insert_len <= usize::MAX {
                    old(self)@ + insert_len
                } else {
                    usize::MAX as int
                }
            } else {
                old(self)@ as int
            },
    {
        if insert_pos <= self.position {
            self.position = self.position.saturating_add(insert_len);
        }
    }

    /// Adjust the cursor after a deletion of `delete_len` characters
    /// starting at `delete_start`: a deletion wholly at or before the cursor
    /// pulls it back by the deleted length; a deletion straddling the cursor
    /// snaps it to the start of the deleted range.
    pub fn adjust_for_delete(&mut self, delete_start: usize, delete_len: usize)
        requires
            delete_start + delete_len <= usize::MAX,
        ensures
            final(self)@ == if delete_start + delete_len <= old(self)@ {
                old(self)@ - delete_len
            } else if delete_start < old(self)@ {
                delete_start as int
            } else {
                old(self)@ as int
            },
    {
        let delete_end = delete_start + delete_len;
        if delete_end <= self.position {
            self.position = self.position.saturating_sub(delete_len);
        } else if delete_start < self.position {
            self.position = delete_start;
        }
    }

    /// Clamp the cursor to `max_position`.
    pub fn clamp(&mut self, max_position: usize)
        ensures
            final(self)@ == if old(self)@ <= max_position {
                old(self)@ as int
            } else {
                max_position as int
            },
    {
        if self.position > max_position {
            self.position = max_position;
        }
    }
}

impl Default for Cursor {
    /// The default cursor sits at position 0.
    fn default() -> (r: Self)
        ensures
            r@ == 0,
    {
        Self::new()
    }
}

} // verus!
