//! Per-tab editing state: one open document of the application.

use vstd::prelude::*;
use vstd::string::StringExecFns;

use crate::editor::Editor;

verus! {

/// The state of one editor tab: an identifier, the display file name, an
/// unsaved-changes flag of its own, and the editing engine for its document.
pub struct EditorTabState {
    /// The tab's identifier.
    pub id: usize,
    /// The file name shown on the tab.
    pub file_name: String,
    /// Whether the tab holds unsaved changes.
    pub is_modified: bool,
    /// The editing engine holding the tab's document.
    pub engine: Editor,
}

/// A plain open-document record: the path, the content as last read or
/// written, and whether it has unsaved changes.
#[derive(Clone)]
pub struct EditorTab {
    pub path: String,
    pub content: String,
    pub modified: bool,
}

impl EditorTabState {
    /// Create a new, unmodified tab around a fresh engine.
    pub fn new(id: usize, file_name: &str) -> (r: Self)
        ensures
            r.id == id,
            r.file_name@ == file_name@,
            !r.is_modified,
            r.engine@.text == Seq::<char>::empty(),
            r.engine@.wf(),
    {
        Self {
            id,
            file_name: String::from_str(file_name),
            is_modified: false,
            engine: Editor::new(),
        }
    }

    /// The tab's title: the file name, with a trailing `*` when the tab
    /// holds unsaved changes.
    pub fn title(&self) -> (r: String)
        ensures
            r@ == if self.is_modified {
                self.file_name@ + "*"@
            } else {
                self.file_name@
            },
    {
        if self.is_modified {
            self.file_name.clone().concat("*")
        } else {
            self.file_name.clone()
        }
    }

    /// Mark the tab as holding unsaved changes.
    pub fn mark_modified(&mut self)
        ensures
            final(self).id == old(self).id,
            final(self).file_name == old(self).file_name,
            final(self).is_modified,
            final(self).engine == old(self).engine,
    {
        self.is_modified = true;
    }

    /// Mark the tab as saved.
    pub fn mark_saved(&mut self)
        ensures
            final(self).id == old(self).id,
            final(self).file_name == old(self).file_name,
            !final(self).is_modified,
            final(self).engine == old(self).engine,
    {
        self.is_modified = false;
    }
}

} // verus!
