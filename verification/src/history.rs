//! Undo/redo history management.
//!
//! An [`Edit`] is one reversible edit record: it carries enough information
//! both to replay the edit (its forward action) and to invert it (its
//! inverse action), together with the cursor positions immediately before
//! and after the edit was originally performed, so undo and redo restore the
//! cursor exactly instead of recomputing it.  Its view is an [`EditModel`],
//! the record over mathematical values.
//!
//! A [`History`] is a bounded log of edit records together with a `current`
//! index that partitions it into undoable records (indices below `current`)
//! and redoable records (indices at or above it), and an optional saved
//! anchor: the value of `current` at the moment of the last save, used to
//! answer "has the document diverged from its last saved state".

use vstd::prelude::*;
use vstd::string::StrSliceExecFns;

use crate::buffer::TextBuffer;
use crate::cursor::Cursor;
use crate::text::{insert_seq, remove_seq};

verus! {

/// Relies on the Clone impl of core::ops::Range, which clones the two
/// bounds; vstd gives it no specification, and the derived Clone of [`Edit`]
/// needs the declaration.  Nothing is claimed of the result.
pub assume_specification<Idx: Clone>[ <core::ops::Range<Idx> as Clone>::clone ](
    r: &core::ops::Range<Idx>,
) -> core::ops::Range<Idx>;

/// A single reversible edit record.
#[derive(Debug, Clone)]
pub enum Edit {
    /// Text was inserted at a character position.
    Insert {
        position: usize,
        text: String,
        cursor_before: Cursor,
        cursor_after: Cursor,
    },
    /// The text of a character range was deleted; `text` is the text that
    /// stood in that range before the deletion, captured eagerly because it
    /// cannot be recovered once removed.
    Delete {
        range: core::ops::Range<usize>,
        text: String,
        cursor_before: Cursor,
        cursor_after: Cursor,
    },
}

/// An edit record over mathematical values: the view of an [`Edit`].
pub ghost enum EditModel {
    Insert {
        position: nat,
        text: Seq<char>,
        cursor_before: nat,
        cursor_after: nat,
    },
    Delete {
        start: nat,
        end: nat,
        text: Seq<char>,
        cursor_before: nat,
        cursor_after: nat,
    },
}

impl View for Edit {
    type V = EditModel;

    open spec fn view(&self) -> EditModel {
        match self {
            Edit::Insert { position, text, cursor_before, cursor_after } => EditModel::Insert {
                position: *position as nat,
                text: text@,
                cursor_before: cursor_before@,
                cursor_after: cursor_after@,
            },
            Edit::Delete { range, text, cursor_before, cursor_after } => EditModel::Delete {
                start: range.start as nat,
                end: range.end as nat,
                text: text@,
                cursor_before: cursor_before@,
                cursor_after: cursor_after@,
            },
        }
    }
}

impl EditModel {
    /// The cursor recorded from just before this edit was first performed.
    pub open spec fn cursor_before(&self) -> nat {
        match self {
            EditModel::Insert { cursor_before, .. } => *cursor_before,
            EditModel::Delete { cursor_before, .. } => *cursor_before,
        }
    }

    /// The cursor recorded from just after this edit was first performed.
    pub open spec fn cursor_after(&self) -> nat {
        match self {
            EditModel::Insert { cursor_after, .. } => *cursor_after,
            EditModel::Delete { cursor_after, .. } => *cursor_after,
        }
    }

    /// The text that results from replaying this edit on `s`.  An edit whose
    /// indices do not fit `s` leaves the text unchanged, mirroring the
    /// buffer's permissive policy.
    pub open spec fn apply_spec(&self, s: Seq<char>) -> Seq<char> {
        match self {
            EditModel::Insert { position, text, .. } => if *position <= s.len() {
                insert_seq(s, *position as int, *text)
            } else {
                s
            },
            EditModel::Delete { start, end, .. } => if *start <= *end && *end <= s.len() {
                remove_seq(s, *start as int, *end as int)
            } else {
                s
            },
        }
    }

    /// The text that results from inverting this edit on `s`: an insertion
    /// is inverted by deleting the span it inserted (counted in characters),
    /// a deletion by re-inserting the captured text at the start of the
    /// range.
    pub open spec fn undo_spec(&self, s: Seq<char>) -> Seq<char> {
        match self {
            EditModel::Insert { position, text, .. } => if *position + text.len() <= s.len() {
                remove_seq(s, *position as int, *position as int + text.len())
            } else {
                s
            },
            EditModel::Delete { start, text, .. } => if *start <= s.len() {
                insert_seq(s, *start as int, *text)
            } else {
                s
            },
        }
    }

    /// Whether this edit's indices fit the text `s` it is replayed on, and,
    /// for a deletion, whether the captured text is exactly the text of the
    /// recorded range.  Every record the editor appends satisfies this for
    /// the buffer it was recorded against.
    pub open spec fn applies_to(&self, s: Seq<char>) -> bool {
        match self {
            EditModel::Insert { position, .. } => *position <= s.len(),
            EditModel::Delete { start, end, text, .. } => *start <= *end && *end <= s.len()
                && *text == s.subrange(*start as int, *end as int),
        }
    }

    /// Whether the text `s` looks as it does just after this edit was
    /// replayed: the recorded span is present and matches the record.
    pub open spec fn undoes_on(&self, s: Seq<char>) -> bool {
        match self {
            EditModel::Insert { position, text, .. } => *position + text.len() <= s.len()
                && s.subrange(*position as int, *position as int + text.len()) == *text,
            EditModel::Delete { start, end, text, .. } => *start <= s.len()
                && *start + text.len() == *end,
        }
    }
}

impl Edit {
    /// Replay this edit on a buffer, and set the cursor to the recorded
    /// after-position.
    pub fn apply(&self, buffer: &mut TextBuffer, cursor: &mut Cursor)
        ensures
            final(buffer)@ == self@.apply_spec(old(buffer)@),
            final(cursor)@ == self@.cursor_after(),
    {
        match self {
            Edit::Insert { position, text, cursor_after, .. } => {
                buffer.insert(*position, text.as_str());
                *cursor = *cursor_after;
            },
            Edit::Delete { range, cursor_after, .. } => {
                buffer.delete_range(range.start..range.end);
                *cursor = *cursor_after;
            },
        }
    }

    /// Invert this edit on a buffer, and restore the cursor to the recorded
    /// before-position.
    pub fn undo(&self, buffer: &mut TextBuffer, cursor: &mut Cursor)
        ensures
            final(buffer)@ == self@.undo_spec(old(buffer)@),
            final(cursor)@ == self@.cursor_before(),
    {
        match self {
            Edit::Insert { position, text, cursor_before, .. } => {
                let text_len = text.as_str().unicode_len();
                let buffer_len = buffer.len_chars();
                if *position <= buffer_len && text_len <= buffer_len - *position {
                    buffer.delete_range(*position..*position + text_len);
                }
                *cursor = *cursor_before;
            },
            Edit::Delete { range, text, cursor_before, .. } => {
                buffer.insert(range.start, text.as_str());
                *cursor = *cursor_before;
            },
        }
    }
}

/// Round-trip law: replaying an edit whose indices fit the text and then
/// inverting it restores the original text exactly (the cursor is restored
/// to the recorded before-position by `undo`'s own contract).
pub proof fn lemma_apply_then_undo(e: EditModel, s: Seq<char>)
    requires
        e.applies_to(s),
    ensures
        e.undo_spec(e.apply_spec(s)) == s,
{
    assert(e.undo_spec(e.apply_spec(s)) =~= s);
}

/// Redo idempotence law: inverting an edit on a text that matches its
/// record and then replaying it restores that text exactly (the cursor is
/// restored to the recorded after-position by `apply`'s own contract).
pub proof fn lemma_undo_then_apply(e: EditModel, s: Seq<char>)
    requires
        e.undoes_on(s),
    ensures
        e.apply_spec(e.undo_spec(s)) == s,
{
    assert(e.apply_spec(e.undo_spec(s)) =~= s);
}

/// The mathematical state of a history: the record log, the partition
/// index, the capacity bound, and the saved anchor.
pub ghost struct HistoryState {
    pub edits: Seq<EditModel>,
    pub current: nat,
    pub max_size: nat,
    pub saved_position: Option<nat>,
}

impl HistoryState {
    /// Well-formedness: the partition index never exceeds the log, and the
    /// log never exceeds the capacity bound.
    pub open spec fn wf(&self) -> bool {
        &&& self.current <= self.edits.len()
        &&& self.edits.len() <= self.max_size
        &&& match self.saved_position {
            Some(p) => p <= self.edits.len(),
            None => true,
        }
    }

    /// A fresh history with capacity `max_size`: empty, anchored at 0.
    pub open spec fn fresh(max_size: nat) -> HistoryState {
        HistoryState {
            edits: Seq::<EditModel>::empty(),
            current: 0,
            max_size: max_size,
            saved_position: Some(0),
        }
    }

    /// The document has diverged from its last saved state iff there is no
    /// saved anchor or the anchor differs from the partition index.
    pub open spec fn is_modified(&self) -> bool {
        match self.saved_position {
            Some(p) => p != self.current,
            None => true,
        }
    }

    pub open spec fn can_undo(&self) -> bool {
        self.current > 0
    }

    pub open spec fn can_redo(&self) -> bool {
        self.current < self.edits.len()
    }

    /// The state after appending a new edit: the redo branch (records at or
    /// after `current`) is discarded, a saved anchor inside that branch is
    /// invalidated, the record is pushed, and if the log now exceeds the
    /// capacity bound the oldest record is evicted, shifting the partition
    /// index and the anchor down (an anchor at 0 is evicted with it).
    pub open spec fn add_edit_spec(&self, edit: EditModel) -> HistoryState {
        let truncated = self.edits.take(self.current as int);
        let saved_kept = match self.saved_position {
            Some(p) => if p > self.current {
                None
            } else {
                Some(p)
            },
            None => None,
        };
        let grown = truncated.push(edit);
        if grown.len() > self.max_size {
            HistoryState {
                edits: grown.remove(0),
                current: self.current,
                max_size: self.max_size,
                saved_position: match saved_kept {
                    Some(p) => if p > 0 {
                        Some((p - 1) as nat)
                    } else {
                        None
                    },
                    None => None,
                },
            }
        } else {
            HistoryState {
                edits: grown,
                current: self.current + 1,
                max_size: self.max_size,
                saved_position: saved_kept,
            }
        }
    }
}

/// History manager for undo/redo.
#[derive(Debug, Clone)]
pub struct History {
    edits: Vec<Edit>,
    current: usize,
    max_size: usize,
    saved_position: Option<usize>,
}

impl View for History {
    type V = HistoryState;

    closed spec fn view(&self) -> HistoryState {
        HistoryState {
            edits: Seq::new(self.edits@.len(), |i: int| self.edits@[i]@),
            current: self.current as nat,
            max_size: self.max_size as nat,
            saved_position: match self.saved_position {
                Some(p) => Some(p as nat),
                None => None,
            },
        }
    }
}

impl History {
    /// Create a new history with the default capacity bound of 1000.
    pub fn new() -> (r: Self)
        ensures
            r@ == HistoryState::fresh(1000),
            r@.wf(),
            !r@.is_modified(),
    {
        Self::with_capacity(1000)
    }

    /// Create a new history with the given capacity bound.  A fresh history
    /// is anchored at 0: the document starts out unmodified.
    pub fn with_capacity(max_size: usize) -> (r: Self)
        ensures
            r@ == HistoryState::fresh(max_size as nat),
            r@.wf(),
            !r@.is_modified(),
    {
        let r = Self {
            edits: Vec::new(),
            current: 0,
            max_size,
            saved_position: Some(0),
        };
        proof {
            assert(r@.edits =~= Seq::<EditModel>::empty());
        }
        r
    }

    /// Append a new edit.  Afterwards the document always counts as
    /// modified: appending moves the partition index off any saved anchor.
    pub fn add_edit(&mut self, edit: Edit)
        requires
            old(self)@.wf(),
        ensures
            final(self)@ == old(self)@.add_edit_spec(edit@),
            final(self)@.wf(),
            final(self)@.is_modified(),
    {
        // Discard the redo branch: records at or after `current` were
        // undone and are overwritten by the new edit.
        self.edits.truncate(self.current);

        // A saved anchor inside the discarded branch no longer names any
        // reachable state.
        if let Some(saved_pos) = self.saved_position {
            if saved_pos > self.current {
                self.saved_position = None;
            }
        }

        self.edits.push(edit);
        let grown_len = self.edits.len();
        self.current = grown_len;

        // Enforce the capacity bound by evicting the oldest record.
        if grown_len > self.max_size {
            self.edits.remove(0);
            self.current = self.current - 1;
            if let Some(saved_pos) = self.saved_position {
                self.saved_position = if saved_pos > 0 {
                    Some(saved_pos - 1)
                } else {
                    None
                };
            }
        }

        proof {
            assert(self@.edits =~= old(self)@.add_edit_spec(edit@).edits);
        }
    }

    /// Undo the newest undoable edit against the given buffer and cursor.
    /// Fails (returns false, changing nothing) iff there is nothing to undo.
    pub fn undo(&mut self, buffer: &mut TextBuffer, cursor: &mut Cursor) -> (r: bool)
        requires
            old(self)@.wf(),
        ensures
            final(self)@.wf(),
            r == old(self)@.can_undo(),
            !old(self)@.can_undo() ==> final(self)@ == old(self)@
                && final(buffer)@ == old(buffer)@
                && final(cursor)@ == old(cursor)@,
            old(self)@.can_undo() ==> {
                let e = old(self)@.edits[old(self)@.current - 1];
                &&& final(self)@ == (HistoryState {
                    current: (old(self)@.current - 1) as nat,
                    ..old(self)@
                })
                &&& final(buffer)@ == e.undo_spec(old(buffer)@)
                &&& final(cursor)@ == e.cursor_before()
            },
    {
        if self.current > 0 {
            self.current = self.current - 1;
            let edit = &self.edits[self.current];
            edit.undo(buffer, cursor);
            true
        } else {
            false
        }
    }

    /// Redo the oldest redoable edit against the given buffer and cursor.
    /// Fails (returns false, changing nothing) iff there is nothing to redo.
    pub fn redo(&mut self, buffer: &mut TextBuffer, cursor: &mut Cursor) -> (r: bool)
        requires
            old(self)@.wf(),
        ensures
            final(self)@.wf(),
            r == old(self)@.can_redo(),
            !old(self)@.can_redo() ==> final(self)@ == old(self)@
                && final(buffer)@ == old(buffer)@
                && final(cursor)@ == old(cursor)@,
            old(self)@.can_redo() ==> {
                let e = old(self)@.edits[old(self)@.current as int];
                &&& final(self)@ == (HistoryState {
                    current: old(self)@.current + 1,
                    ..old(self)@
                })
                &&& final(buffer)@ == e.apply_spec(old(buffer)@)
                &&& final(cursor)@ == e.cursor_after()
            },
    {
        if self.current < self.edits.len() {
            let edit = &self.edits[self.current];
            edit.apply(buffer, cursor);
            self.current = self.current + 1;
            true
        } else {
            false
        }
    }

    /// Whether there is an edit to undo.
    pub fn can_undo(&self) -> (r: bool)
        ensures
            r == self@.can_undo(),
    {
        self.current > 0
    }

    /// Whether there is an edit to redo.
    pub fn can_redo(&self) -> (r: bool)
        ensures
            r == self@.can_redo(),
    {
        self.current < self.edits.len()
    }

    /// Wipe the history and reset the saved anchor to 0, as when a new file
    /// is loaded.
    pub fn clear(&mut self)
        ensures
            final(self)@ == HistoryState::fresh(old(self)@.max_size),
            final(self)@.wf(),
            !final(self)@.is_modified(),
    {
        self.edits.clear();
        self.current = 0;
        self.saved_position = Some(0);

        proof {
            assert(self@.edits =~= Seq::<EditModel>::empty());
        }
    }

    /// Whether the document has diverged from its last saved state.
    pub fn is_modified(&self) -> (r: bool)
        ensures
            r == self@.is_modified(),
    {
        match self.saved_position {
            Some(saved_pos) => self.current != saved_pos,
            None => true,
        }
    }

    /// Anchor the saved state at the current partition index; the document
    /// then counts as unmodified.
    pub fn mark_saved(&mut self)
        ensures
            final(self)@ == (HistoryState {
                saved_position: Some(old(self)@.current),
                ..old(self)@
            }),
            !final(self)@.is_modified(),
    {
        self.saved_position = Some(self.current);
    }
}

impl Default for History {
    /// The default history has the default capacity bound.
    fn default() -> (r: Self)
        ensures
            r@ == HistoryState::fresh(1000),
    {
        Self::new()
    }
}

/// The state after appending each edit of `es` in order.
pub open spec fn add_all(h: HistoryState, es: Seq<EditModel>) -> HistoryState
    decreases es.len(),
{
    if es.len() == 0 {
        h
    } else {
        add_all(h.add_edit_spec(es[0]), es.skip(1))
    }
}

/// Capacity eviction law: appending edits drives the number of undoable
/// steps to `min(current + n, max_size)` — in particular, appending
/// `max_size + 1` edits to a fresh history leaves exactly `max_size` steps
/// undoable, never `max_size + 1`.
pub proof fn lemma_capacity_eviction(h: HistoryState, es: Seq<EditModel>)
    requires
        h.wf(),
    ensures
        add_all(h, es).wf(),
        add_all(h, es).max_size == h.max_size,
        add_all(h, es).current == if h.current + es.len() <= h.max_size {
            h.current + es.len()
        } else {
            h.max_size
        },
    decreases es.len(),
{
    if es.len() > 0 {
        let h1 = h.add_edit_spec(es[0]);
        assert(h1.wf());
        lemma_capacity_eviction(h1, es.skip(1));
    }
}

} // verus!
