//! The editor facade: buffer, cursor, history and file state behind one
//! mutation API.
//!
//! Every mutating operation follows the same shape: snapshot the cursor,
//! mutate the buffer, adjust the cursor by the rules of [`crate::cursor`],
//! snapshot the cursor again, append the corresponding [`Edit`] record to
//! the history, and raise the modified flag.
//!
//! Policy choices, applied uniformly:
//!
//! - out-of-range indices are absorbed silently (`delete_range` with a
//!   reversed or overlong range is a no-op), matching the buffer's
//!   permissive policy;
//! - the editor's own `modified` flag is the simple "has any call mutated
//!   state since construction, load or save" boolean: undo and redo raise it
//!   unconditionally, even when history's own saved anchor would say the
//!   document is back at its saved state (history's finer answer stays
//!   available through the history type itself);
//! - after undo and redo the cursor is re-clamped to the new buffer length,
//!   the safety net for records whose snapshots no longer fit the buffer.
//!
//! File input and output live outside this crate: a host performs the read
//! or write and reports its in-memory effect through [`Editor::loaded`] and
//! [`Editor::note_saved`].

use vstd::prelude::*;
use vstd::string::StrSliceExecFns;

use crate::buffer::TextBuffer;
use crate::cursor::Cursor;
use crate::history::{Edit, EditModel, History, HistoryState};
use crate::paths::{file_name_of, path_file_name};
use crate::text::insert_seq;

verus! {

#[verifier::external_type_specification]
#[verifier::external_body]
pub struct ExIoError(std::io::Error);

/// Errors of editor operations.  The in-memory mutation API never produces
/// one: these arise at the file boundary, which the host drives.
#[derive(Debug)]
pub enum EditorError {
    /// Reading or writing the file failed.
    IoError(std::io::Error),
    /// A position was rejected.
    InvalidPosition(usize),
    /// A save was requested with no file path set.
    NoFilePath,
}

/// Relies on char::to_string (through ToString/Display): a String holding
/// exactly the one character.
#[verifier::external_body]
fn char_to_string(ch: char) -> (r: String)
    ensures
        r@ == seq![ch],
{
    ch.to_string()
}

/// The mathematical state of an editor.
pub ghost struct EditorState {
    pub text: Seq<char>,
    pub cursor: nat,
    pub history: HistoryState,
    pub file_path: Option<Seq<char>>,
    pub modified: bool,
}

impl EditorState {
    /// Well-formedness: the cursor is a valid offset into the text, and the
    /// history is well-formed.
    pub open spec fn wf(&self) -> bool {
        self.cursor <= self.text.len() && self.history.wf()
    }
}

/// The cursor position after a deletion of `[a, b)`, by the adjustment
/// rules: pulled back by the deleted length when the range lies at or
/// before it, snapped to `a` when it lies strictly inside, else unchanged.
pub open spec fn cursor_after_delete(c: nat, a: nat, b: nat) -> nat {
    if b <= c {
        (c - (b - a)) as nat
    } else if a < c {
        a
    } else {
        c
    }
}

/// Main editor state.
pub struct Editor {
    buffer: TextBuffer,
    cursor: Cursor,
    history: History,
    file_path: Option<String>,
    modified: bool,
}

impl View for Editor {
    type V = EditorState;

    closed spec fn view(&self) -> EditorState {
        EditorState {
            text: self.buffer@,
            cursor: self.cursor@,
            history: self.history@,
            file_path: match &self.file_path {
                Some(p) => Some(p@),
                None => None,
            },
            modified: self.modified,
        }
    }
}

impl Editor {
    /// Create a new empty editor.
    pub fn new() -> (r: Self)
        ensures
            r@ == (EditorState {
                text: Seq::<char>::empty(),
                cursor: 0,
                history: HistoryState::fresh(1000),
                file_path: None,
                modified: false,
            }),
            r@.wf(),
    {
        Self {
            buffer: TextBuffer::new(),
            cursor: Cursor::new(),
            history: History::new(),
            file_path: None,
            modified: false,
        }
    }

    /// Create an editor holding `text`, with no file path.
    pub fn with_text(text: &str) -> (r: Self)
        ensures
            r@ == (EditorState {
                text: text@,
                cursor: 0,
                history: HistoryState::fresh(1000),
                file_path: None,
                modified: false,
            }),
            r@.wf(),
    {
        Self {
            buffer: TextBuffer::from_str(text),
            cursor: Cursor::new(),
            history: History::new(),
            file_path: None,
            modified: false,
        }
    }

    /// The in-memory effect of loading a file: an editor holding `text`,
    /// with its path set, a fresh history (undo state referring to the
    /// previous document is meaningless), and the modified flag down.
    pub fn loaded(text: &str, path: &str) -> (r: Self)
        ensures
            r@ == (EditorState {
                text: text@,
                cursor: 0,
                history: HistoryState::fresh(1000),
                file_path: Some(path@),
                modified: false,
            }),
            r@.wf(),
    {
        Self {
            buffer: TextBuffer::from_str(text),
            cursor: Cursor::new(),
            history: History::new(),
            file_path: Some(String::from_str(path)),
            modified: false,
        }
    }

    /// The in-memory effect of a successful save to `path`: the path is
    /// remembered and the modified flag drops.
    pub fn note_saved(&mut self, path: &str)
        ensures
            final(self)@ == (EditorState {
                file_path: Some(path@),
                modified: false,
                ..old(self)@
            }),
    {
        self.file_path = Some(String::from_str(path));
        self.modified = false;
    }

    /// The file path, if any.
    pub fn file_path(&self) -> (r: Option<&str>)
        ensures
            match r {
                Some(p) => self@.file_path == Some(p@),
                None => self@.file_path is None,
            },
    {
        match &self.file_path {
            Some(p) => Some(p.as_str()),
            None => None,
        }
    }

    /// The file name: the last component of the file path, or `None` when
    /// no path is set or the path ends in a separator.
    pub fn file_name(&self) -> (r: Option<String>)
        ensures
            match self@.file_path {
                Some(p) => if file_name_of(p).len() > 0 {
                    r matches Some(n) && n@ == file_name_of(p)
                } else {
                    r is None
                },
                None => r is None,
            },
    {
        match &self.file_path {
            Some(p) => {
                let name = path_file_name(p.as_str());
                if name.as_str().unicode_len() == 0 {
                    None
                } else {
                    Some(name)
                }
            },
            None => None,
        }
    }

    /// Whether the editor has unsaved changes: raised by every mutation,
    /// undo and redo included, and dropped on load and save.
    pub fn is_modified(&self) -> (r: bool)
        ensures
            r == self@.modified,
    {
        self.modified
    }

    /// A reference to the text buffer.
    pub fn buffer(&self) -> (r: &TextBuffer)
        ensures
            r@ == self@.text,
    {
        &self.buffer
    }

    /// A reference to the cursor.
    pub fn cursor(&self) -> (r: &Cursor)
        ensures
            r@ == self@.cursor,
    {
        &self.cursor
    }

    /// Set the cursor position, clamped to the buffer length: any requested
    /// position past the end lands exactly at the end.
    pub fn set_cursor_position(&mut self, position: usize)
        requires
            old(self)@.wf(),
        ensures
            final(self)@.wf(),
            final(self)@ == (EditorState {
                cursor: if position <= old(self)@.text.len() {
                    position as nat
                } else {
                    old(self)@.text.len()
                },
                ..old(self)@
            }),
    {
        self.cursor.set_position(position);
        self.cursor.clamp(self.buffer.len_chars());
    }

    /// The entire text as a String.
    pub fn text(&self) -> (r: String)
        ensures
            r@ == self@.text,
    {
        self.buffer.to_string()
    }

    /// Insert a character at the cursor; the cursor ends just after it.
    pub fn insert_char(&mut self, ch: char)
        requires
            old(self)@.wf(),
        ensures
            final(self)@.wf(),
            final(self)@.text == insert_seq(old(self)@.text, old(self)@.cursor as int, seq![ch]),
            final(self)@.cursor == old(self)@.cursor + 1,
            final(self)@.history == old(self)@.history.add_edit_spec(EditModel::Insert {
                position: old(self)@.cursor,
                text: seq![ch],
                cursor_before: old(self)@.cursor,
                cursor_after: (old(self)@.cursor + 1) as nat,
            }),
            final(self)@.file_path == old(self)@.file_path,
            final(self)@.modified,
    {
        let pos = self.cursor.position();
        let cursor_before = self.cursor;

        self.buffer.insert_char(pos, ch);
        self.cursor.move_forward(1, self.buffer.len_chars());

        let cursor_after = self.cursor;

        let edit = Edit::Insert {
            position: pos,
            text: char_to_string(ch),
            cursor_before,
            cursor_after,
        };

        self.history.add_edit(edit);
        self.modified = true;
    }

    /// Insert a string at the cursor; the cursor ends just after it.
    /// Inserting the empty string changes nothing and records nothing.
    pub fn insert_text(&mut self, text: &str)
        requires
            old(self)@.wf(),
        ensures
            final(self)@.wf(),
            text@.len() == 0 ==> final(self)@ == old(self)@,
            text@.len() > 0 ==> {
                &&& final(self)@.text == insert_seq(
                    old(self)@.text,
                    old(self)@.cursor as int,
                    text@,
                )
                &&& final(self)@.cursor == old(self)@.cursor + text@.len()
                &&& final(self)@.history == old(self)@.history.add_edit_spec(EditModel::Insert {
                    position: old(self)@.cursor,
                    text: text@,
                    cursor_before: old(self)@.cursor,
                    cursor_after: (old(self)@.cursor + text@.len()) as nat,
                })
                &&& final(self)@.file_path == old(self)@.file_path
                &&& final(self)@.modified
            },
    {
        if text.is_empty() {
            return ;
        }
        let text_len = text.unicode_len();
        let pos = self.cursor.position();
        let cursor_before = self.cursor;

        self.buffer.insert(pos, text);
        self.cursor.move_forward(text_len, self.buffer.len_chars());

        let cursor_after = self.cursor;

        let edit = Edit::Insert {
            position: pos,
            text: text.to_owned(),
            cursor_before,
            cursor_after,
        };

        self.history.add_edit(edit);
        self.modified = true;
    }

    /// Delete the character range `[range.start, range.end)`.  A reversed,
    /// empty or overlong range is absorbed silently: nothing changes and
    /// nothing is recorded.
    pub fn delete_range(&mut self, range: core::ops::Range<usize>)
        requires
            old(self)@.wf(),
        ensures
            final(self)@.wf(),
            !(range.start < range.end && range.end <= old(self)@.text.len()) ==> final(self)@
                == old(self)@,
            range.start < range.end && range.end <= old(self)@.text.len() ==> {
                let deleted = old(self)@.text.subrange(range.start as int, range.end as int);
                let moved = cursor_after_delete(
                    old(self)@.cursor,
                    range.start as nat,
                    range.end as nat,
                );
                &&& final(self)@.text == old(self)@.text.subrange(0, range.start as int)
                    + old(self)@.text.subrange(range.end as int, old(self)@.text.len() as int)
                &&& final(self)@.cursor == moved
                &&& final(self)@.history == old(self)@.history.add_edit_spec(EditModel::Delete {
                    start: range.start as nat,
                    end: range.end as nat,
                    text: deleted,
                    cursor_before: old(self)@.cursor,
                    cursor_after: moved,
                })
                &&& final(self)@.file_path == old(self)@.file_path
                &&& final(self)@.modified
            },
    {
        if range.start >= range.end || range.end > self.buffer.len_chars() {
            return ;
        }

        let cursor_before = self.cursor;
        let deleted_text = self.buffer.slice(range.start..range.end);

        self.buffer.delete_range(range.start..range.end);

        if self.cursor.position() > range.start {
            self.cursor.adjust_for_delete(range.start, range.end - range.start);
        }

        let cursor_after = self.cursor;

        let edit = Edit::Delete {
            range,
            text: deleted_text,
            cursor_before,
            cursor_after,
        };

        self.history.add_edit(edit);
        self.modified = true;
    }

    /// Delete the character just before the cursor (backspace); nothing
    /// happens at position 0.
    pub fn delete_before_cursor(&mut self)
        requires
            old(self)@.wf(),
        ensures
            final(self)@.wf(),
            old(self)@.cursor == 0 ==> final(self)@ == old(self)@,
            old(self)@.cursor > 0 ==> {
                let c = old(self)@.cursor;
                &&& final(self)@.text == old(self)@.text.subrange(0, c - 1)
                    + old(self)@.text.subrange(c as int, old(self)@.text.len() as int)
                &&& final(self)@.cursor == c - 1
                &&& final(self)@.history == old(self)@.history.add_edit_spec(EditModel::Delete {
                    start: (c - 1) as nat,
                    end: c,
                    text: old(self)@.text.subrange(c - 1, c as int),
                    cursor_before: c,
                    cursor_after: (c - 1) as nat,
                })
                &&& final(self)@.file_path == old(self)@.file_path
                &&& final(self)@.modified
            },
    {
        let pos = self.cursor.position();
        if pos > 0 {
            self.delete_range(pos - 1..pos);
        }
    }

    /// Delete the character at the cursor (forward delete); nothing happens
    /// at the end of the buffer.
    pub fn delete_at_cursor(&mut self)
        requires
            old(self)@.wf(),
        ensures
            final(self)@.wf(),
            old(self)@.cursor >= old(self)@.text.len() ==> final(self)@ == old(self)@,
            old(self)@.cursor < old(self)@.text.len() ==> {
                let c = old(self)@.cursor;
                &&& final(self)@.text == old(self)@.text.subrange(0, c as int)
                    + old(self)@.text.subrange(c as int + 1, old(self)@.text.len() as int)
                &&& final(self)@.cursor == c
                &&& final(self)@.history == old(self)@.history.add_edit_spec(EditModel::Delete {
                    start: c,
                    end: (c + 1) as nat,
                    text: old(self)@.text.subrange(c as int, c as int + 1),
                    cursor_before: c,
                    cursor_after: c,
                })
                &&& final(self)@.file_path == old(self)@.file_path
                &&& final(self)@.modified
            },
    {
        let pos = self.cursor.position();
        if pos < self.buffer.len_chars() {
            self.delete_range(pos..pos + 1);
        }
    }

    /// Undo the newest undoable edit.  Fails (returns false, changing
    /// nothing) iff there is nothing to undo; on success the buffer and
    /// cursor take the record's inverse action, the cursor re-clamped to the
    /// new length, and the modified flag is raised unconditionally.
    pub fn undo(&mut self) -> (r: bool)
        requires
            old(self)@.wf(),
        ensures
            final(self)@.wf(),
            r == old(self)@.history.can_undo(),
            !old(self)@.history.can_undo() ==> final(self)@ == old(self)@,
            old(self)@.history.can_undo() ==> {
                let e = old(self)@.history.edits[old(self)@.history.current - 1];
                let text2 = e.undo_spec(old(self)@.text);
                &&& final(self)@.text == text2
                &&& final(self)@.cursor == if e.cursor_before() <= text2.len() {
                    e.cursor_before()
                } else {
                    text2.len()
                }
                &&& final(self)@.history == (HistoryState {
                    current: (old(self)@.history.current - 1) as nat,
                    ..old(self)@.history
                })
                &&& final(self)@.file_path == old(self)@.file_path
                &&& final(self)@.modified
            },
    {
        if self.history.undo(&mut self.buffer, &mut self.cursor) {
            self.cursor.clamp(self.buffer.len_chars());
            self.modified = true;
            true
        } else {
            false
        }
    }

    /// Redo the oldest redoable edit.  Fails (returns false, changing
    /// nothing) iff there is nothing to redo; on success the buffer and
    /// cursor take the record's forward action, the cursor re-clamped to the
    /// new length, and the modified flag is raised unconditionally.
    pub fn redo(&mut self) -> (r: bool)
        requires
            old(self)@.wf(),
        ensures
            final(self)@.wf(),
            r == old(self)@.history.can_redo(),
            !old(self)@.history.can_redo() ==> final(self)@ == old(self)@,
            old(self)@.history.can_redo() ==> {
                let e = old(self)@.history.edits[old(self)@.history.current as int];
                let text2 = e.apply_spec(old(self)@.text);
                &&& final(self)@.text == text2
                &&& final(self)@.cursor == if e.cursor_after() <= text2.len() {
                    e.cursor_after()
                } else {
                    text2.len()
                }
                &&& final(self)@.history == (HistoryState {
                    current: old(self)@.history.current + 1,
                    ..old(self)@.history
                })
                &&& final(self)@.file_path == old(self)@.file_path
                &&& final(self)@.modified
            },
    {
        if self.history.redo(&mut self.buffer, &mut self.cursor) {
            self.cursor.clamp(self.buffer.len_chars());
            self.modified = true;
            true
        } else {
            false
        }
    }

    /// Whether there is an edit to undo.
    pub fn can_undo(&self) -> (r: bool)
        ensures
            r == self@.history.can_undo(),
    {
        self.history.can_undo()
    }

    /// Whether there is an edit to redo.
    pub fn can_redo(&self) -> (r: bool)
        ensures
            r == self@.history.can_redo(),
    {
        self.history.can_redo()
    }

    /// Move the cursor forward by `n` characters, stopping at the end of
    /// the buffer.
    pub fn move_cursor_forward(&mut self, n: usize)
        requires
            old(self)@.wf(),
        ensures
            final(self)@.wf(),
            final(self)@ == (EditorState {
                cursor: if old(self)@.cursor + n <= old(self)@.text.len() {
                    (old(self)@.cursor + n) as nat
                } else {
                    old(self)@.text.len()
                },
                ..old(self)@
            }),
    {
        self.cursor.move_forward(n, self.buffer.len_chars());
    }

    /// Move the cursor backward by `n` characters, stopping at 0.
    pub fn move_cursor_backward(&mut self, n: usize)
        requires
            old(self)@.wf(),
        ensures
            final(self)@.wf(),
            final(self)@ == (EditorState {
                cursor: if old(self)@.cursor >= n {
                    (old(self)@.cursor - n) as nat
                } else {
                    0
                },
                ..old(self)@
            }),
    {
        self.cursor.move_backward(n);
    }
}

impl Default for Editor {
    /// The default editor is empty.
    fn default() -> (r: Self)
        ensures
            r@.text == Seq::<char>::empty(),
            r@.cursor == 0,
            r@.wf(),
    {
        Self::new()
    }
}

} // verus!
