//! A self-contained editing core with typed errors: the stricter sibling of
//! the [`crate::editor`] facade.
//!
//! Where the facade absorbs out-of-range indices silently, this core
//! rejects them with a typed [`CoreError`] carrying the offending index and
//! the buffer length.  Its history is a pair of stacks: every successful
//! edit pushes its inverse material onto the undo stack and clears the redo
//! stack; undo moves one operation to the redo stack, redo moves it back.
//!
//! File input and output live outside this crate: a host reads or writes
//! the file and reports a load's in-memory effect through
//! [`EditorCore::load_text`].

use vstd::prelude::*;
use vstd::string::StrSliceExecFns;
use vstd::string::StringExecFns;

use crate::buffer::TextBuffer;
use crate::text::{insert_seq, remove_seq};

verus! {

#[verifier::external_type_specification]
#[verifier::external_body]
pub struct ExFromUtf8Error(std::string::FromUtf8Error);

/// Errors of the editing core.
#[derive(Debug)]
pub enum CoreError {
    /// Reading or writing the file failed.
    IoError(std::io::Error),
    /// An index fell outside the buffer.
    OutOfBounds { index: usize, buffer_len: usize },
    /// Undo or redo was requested with nothing to undo or redo.
    HistoryError(String),
    /// Decoding bytes as UTF-8 failed.
    Utf8Error(std::string::FromUtf8Error),
}

/// The result type of the editing core.
pub type CoreResult<T> = Result<T, CoreError>;

/// One recorded operation: the position and the text that was inserted or
/// deleted there.
#[derive(Debug, Clone)]
enum Operation {
    Insert(usize, String),
    Delete(usize, String),
}

/// An operation over mathematical values: the view of an operation.
pub ghost enum OpModel {
    Insert(nat, Seq<char>),
    Delete(nat, Seq<char>),
}

impl View for Operation {
    type V = OpModel;

    closed spec fn view(&self) -> OpModel {
        match self {
            Operation::Insert(i, t) => OpModel::Insert(*i as nat, t@),
            Operation::Delete(i, t) => OpModel::Delete(*i as nat, t@),
        }
    }
}

impl OpModel {
    /// The text after replaying this operation forward.
    pub open spec fn redo_on(&self, s: Seq<char>) -> Seq<char> {
        match self {
            OpModel::Insert(i, t) => if *i <= s.len() {
                insert_seq(s, *i as int, *t)
            } else {
                s
            },
            OpModel::Delete(i, t) => if *i as int + t.len() <= s.len() {
                remove_seq(s, *i as int, *i as int + t.len())
            } else {
                s
            },
        }
    }

    /// The text after inverting this operation.
    pub open spec fn undo_on(&self, s: Seq<char>) -> Seq<char> {
        match self {
            OpModel::Insert(i, t) => if *i as int + t.len() <= s.len() {
                remove_seq(s, *i as int, *i as int + t.len())
            } else {
                s
            },
            OpModel::Delete(i, t) => if *i <= s.len() {
                insert_seq(s, *i as int, *t)
            } else {
                s
            },
        }
    }
}

/// The mathematical state of the editing core.
pub ghost struct CoreState {
    pub text: Seq<char>,
    pub undo_stack: Seq<OpModel>,
    pub redo_stack: Seq<OpModel>,
}

/// A text editing core: a buffer and two operation stacks.
pub struct EditorCore {
    buffer: TextBuffer,
    undo_stack: Vec<Operation>,
    redo_stack: Vec<Operation>,
}

impl View for EditorCore {
    type V = CoreState;

    closed spec fn view(&self) -> CoreState {
        CoreState {
            text: self.buffer@,
            undo_stack: Seq::new(self.undo_stack@.len(), |i: int| self.undo_stack@[i]@),
            redo_stack: Seq::new(self.redo_stack@.len(), |i: int| self.redo_stack@[i]@),
        }
    }
}

impl EditorCore {
    /// Create an empty editing core.
    pub fn new() -> (r: Self)
        ensures
            r@.text == Seq::<char>::empty(),
            r@.undo_stack == Seq::<OpModel>::empty(),
            r@.redo_stack == Seq::<OpModel>::empty(),
    {
        let r = Self {
            buffer: TextBuffer::new(),
            undo_stack: Vec::new(),
            redo_stack: Vec::new(),
        };
        proof {
            assert(r@.undo_stack =~= Seq::<OpModel>::empty());
            assert(r@.redo_stack =~= Seq::<OpModel>::empty());
        }
        r
    }

    /// Create an editing core holding `text`.
    pub fn from_text(text: &str) -> (r: Self)
        ensures
            r@.text == text@,
            r@.undo_stack == Seq::<OpModel>::empty(),
            r@.redo_stack == Seq::<OpModel>::empty(),
    {
        let r = Self {
            buffer: TextBuffer::from_str(text),
            undo_stack: Vec::new(),
            redo_stack: Vec::new(),
        };
        proof {
            assert(r@.undo_stack =~= Seq::<OpModel>::empty());
            assert(r@.redo_stack =~= Seq::<OpModel>::empty());
        }
        r
    }

    /// The in-memory effect of loading a file: the buffer is replaced and
    /// both histories are wiped, since they refer to the previous document.
    pub fn load_text(&mut self, text: &str)
        ensures
            final(self)@.text == text@,
            final(self)@.undo_stack == Seq::<OpModel>::empty(),
            final(self)@.redo_stack == Seq::<OpModel>::empty(),
    {
        self.buffer.replace_all(text);
        self.undo_stack.clear();
        self.redo_stack.clear();
        proof {
            assert(self@.undo_stack =~= Seq::<OpModel>::empty());
            assert(self@.redo_stack =~= Seq::<OpModel>::empty());
        }
    }

    /// Insert `text` at the character index `index`.  Returns `Ok` and
    /// records the operation exactly when `index` is within the buffer
    /// (at most its length); any other index is rejected with
    /// `OutOfBounds`, unchanged state.
    pub fn insert(&mut self, index: usize, text: &str) -> (r: CoreResult<()>)
        ensures
            index <= old(self)@.text.len() ==> {
                &&& r is Ok
                &&& final(self)@.text == insert_seq(old(self)@.text, index as int, text@)
                &&& final(self)@.undo_stack == old(self)@.undo_stack.push(
                    OpModel::Insert(index as nat, text@),
                )
                &&& final(self)@.redo_stack == Seq::<OpModel>::empty()
            },
            index > old(self)@.text.len() ==> {
                &&& final(self)@ == old(self)@
                &&& r matches Err(CoreError::OutOfBounds { index: i, buffer_len: l }) && i == index
                    && l == old(self)@.text.len()
            },
    {
        let buffer_len = self.buffer.len_chars();
        if index > buffer_len {
            return Err(CoreError::OutOfBounds { index, buffer_len });
        }

        self.buffer.insert(index, text);
        self.undo_stack.push(Operation::Insert(index, text.to_owned()));
        // A fresh operation makes the undone branch unreachable.
        self.redo_stack.clear();

        proof {
            assert(self@.undo_stack =~= old(self)@.undo_stack.push(
                OpModel::Insert(index as nat, text@),
            ));
            assert(self@.redo_stack =~= Seq::<OpModel>::empty());
        }
        Ok(())
    }

    /// Delete the character range `[start, end)`.  Returns `Ok` and records
    /// the deleted text exactly when `start <= end <= len`; a range end past
    /// the buffer is rejected with `OutOfBounds` carrying the larger index,
    /// and a reversed range with `OutOfBounds` carrying the two bounds.
    pub fn delete(&mut self, start: usize, end: usize) -> (r: CoreResult<()>)
        ensures
            start <= end && end <= old(self)@.text.len() ==> {
                &&& r is Ok
                &&& final(self)@.text == remove_seq(old(self)@.text, start as int, end as int)
                &&& final(self)@.undo_stack == old(self)@.undo_stack.push(
                    OpModel::Delete(
                        start as nat,
                        old(self)@.text.subrange(start as int, end as int),
                    ),
                )
                &&& final(self)@.redo_stack == Seq::<OpModel>::empty()
            },
            start > old(self)@.text.len() || end > old(self)@.text.len() ==> {
                &&& final(self)@ == old(self)@
                &&& r matches Err(CoreError::OutOfBounds { index: i, buffer_len: l }) && i == if
                    start >= end {
                    start
                } else {
                    end
                } && l == old(self)@.text.len()
            },
            start > end && start <= old(self)@.text.len() ==> {
                &&& final(self)@ == old(self)@
                &&& r matches Err(CoreError::OutOfBounds { index: i, buffer_len: l }) && i == start
                    && l == end
            },
    {
        let buffer_len = self.buffer.len_chars();
        if start > buffer_len || end > buffer_len {
            let index = if start >= end {
                start
            } else {
                end
            };
            return Err(CoreError::OutOfBounds { index, buffer_len });
        }
        if start > end {
            return Err(CoreError::OutOfBounds { index: start, buffer_len: end });
        }

        // Capture the text being deleted: it cannot be recovered afterwards.
        let deleted_text = self.buffer.slice(start..end);
        self.buffer.delete_range(start..end);
        self.undo_stack.push(Operation::Delete(start, deleted_text));
        self.redo_stack.clear();

        proof {
            assert(self@.undo_stack =~= old(self)@.undo_stack.push(
                OpModel::Delete(start as nat, old(self)@.text.subrange(start as int, end as int)),
            ));
            assert(self@.redo_stack =~= Seq::<OpModel>::empty());
        }
        Ok(())
    }

    /// Invert the newest recorded operation and move it to the redo stack.
    /// Fails with `HistoryError`, changing nothing, exactly when there is
    /// nothing to undo.
    pub fn undo(&mut self) -> (r: CoreResult<()>)
        ensures
            old(self)@.undo_stack.len() == 0 ==> final(self)@ == old(self)@ && (r matches Err(
                CoreError::HistoryError(_),
            )),
            old(self)@.undo_stack.len() > 0 ==> {
                let op = old(self)@.undo_stack.last();
                &&& r is Ok
                &&& final(self)@.text == op.undo_on(old(self)@.text)
                &&& final(self)@.undo_stack == old(self)@.undo_stack.drop_last()
                &&& final(self)@.redo_stack == old(self)@.redo_stack.push(op)
            },
    {
        let popped = self.undo_stack.pop();
        match popped {
            None => Err(CoreError::HistoryError(String::from_str("nothing to undo"))),
            Some(op) => {
                match &op {
                    Operation::Insert(index, text) => {
                        // Inverting an insertion deletes the span it added.
                        let text_len = text.as_str().unicode_len();
                        let buffer_len = self.buffer.len_chars();
                        if *index <= buffer_len && text_len <= buffer_len - *index {
                            self.buffer.delete_range(*index..*index + text_len);
                        }
                    },
                    Operation::Delete(index, text) => {
                        // Inverting a deletion re-inserts the captured text.
                        self.buffer.insert(*index, text.as_str());
                    },
                }
                self.redo_stack.push(op);
                proof {
                    assert(self@.undo_stack =~= old(self)@.undo_stack.drop_last());
                    assert(self@.redo_stack =~= old(self)@.redo_stack.push(
                        old(self)@.undo_stack.last(),
                    ));
                }
                Ok(())
            },
        }
    }

    /// Replay the newest undone operation and move it back to the undo
    /// stack.  Fails with `HistoryError`, changing nothing, exactly when
    /// there is nothing to redo.
    pub fn redo(&mut self) -> (r: CoreResult<()>)
        ensures
            old(self)@.redo_stack.len() == 0 ==> final(self)@ == old(self)@ && (r matches Err(
                CoreError::HistoryError(_),
            )),
            old(self)@.redo_stack.len() > 0 ==> {
                let op = old(self)@.redo_stack.last();
                &&& r is Ok
                &&& final(self)@.text == op.redo_on(old(self)@.text)
                &&& final(self)@.redo_stack == old(self)@.redo_stack.drop_last()
                &&& final(self)@.undo_stack == old(self)@.undo_stack.push(op)
            },
    {
        let popped = self.redo_stack.pop();
        match popped {
            None => Err(CoreError::HistoryError(String::from_str("nothing to redo"))),
            Some(op) => {
                match &op {
                    Operation::Insert(index, text) => {
                        self.buffer.insert(*index, text.as_str());
                    },
                    Operation::Delete(index, text) => {
                        let text_len = text.as_str().unicode_len();
                        let buffer_len = self.buffer.len_chars();
                        if *index <= buffer_len && text_len <= buffer_len - *index {
                            self.buffer.delete_range(*index..*index + text_len);
                        }
                    },
                }
                self.undo_stack.push(op);
                proof {
                    assert(self@.redo_stack =~= old(self)@.redo_stack.drop_last());
                    assert(self@.undo_stack =~= old(self)@.undo_stack.push(
                        old(self)@.redo_stack.last(),
                    ));
                }
                Ok(())
            },
        }
    }

    /// The number of characters in the buffer.
    pub fn len(&self) -> (r: usize)
        ensures
            r == self@.text.len(),
    {
        self.buffer.len_chars()
    }

    /// Whether the buffer is empty.
    pub fn is_empty(&self) -> (r: bool)
        ensures
            r <==> self@.text.len() == 0,
    {
        self.buffer.is_empty()
    }

    /// The buffer content as a String.
    pub fn as_str(&self) -> (r: String)
        ensures
            r@ == self@.text,
    {
        self.buffer.to_string()
    }

    /// The buffer content as a String.
    pub fn to_string(&self) -> (r: String)
        ensures
            r@ == self@.text,
    {
        self.buffer.to_string()
    }
}

impl Default for EditorCore {
    /// The default editing core is empty.
    fn default() -> (r: Self)
        ensures
            r@.text == Seq::<char>::empty(),
            r@.undo_stack == Seq::<OpModel>::empty(),
            r@.redo_stack == Seq::<OpModel>::empty(),
    {
        Self::new()
    }
}

} // verus!
