//! Application-wide tab management: the list of open tabs and which of them
//! is active.

use vstd::prelude::*;

use crate::tab::EditorTabState;

verus! {

/// The tab list, the index of the active tab, and the next identifier to
/// hand out.  There is an active tab exactly when any tab is open.
pub struct AppState {
    tabs: Vec<EditorTabState>,
    active_tab_index: Option<usize>,
    next_tab_id: usize,
}

impl AppState {
    /// The open tabs, in order.
    pub closed spec fn spec_tabs(&self) -> Seq<EditorTabState> {
        self.tabs@
    }

    /// The index of the active tab, if any.
    pub closed spec fn spec_active(&self) -> Option<nat> {
        match self.active_tab_index {
            Some(i) => Some(i as nat),
            None => None,
        }
    }

    /// The identifier the next opened tab will get.
    pub closed spec fn spec_next_id(&self) -> nat {
        self.next_tab_id as nat
    }

    /// Well-formedness: there is an active index exactly when any tab is
    /// open, and it always lies inside the tab list.
    pub open spec fn wf(&self) -> bool {
        match self.spec_active() {
            Some(i) => i < self.spec_tabs().len(),
            None => self.spec_tabs().len() == 0,
        }
    }

    /// Create an application state with no tabs.
    pub fn new() -> (r: Self)
        ensures
            r.spec_tabs() == Seq::<EditorTabState>::empty(),
            r.spec_active() is None,
            r.spec_next_id() == 0,
            r.wf(),
    {
        let r = Self {
            tabs: Vec::new(),
            active_tab_index: None,
            next_tab_id: 0,
        };
        proof {
            assert(r.spec_tabs() =~= Seq::<EditorTabState>::empty());
        }
        r
    }

    /// Open a new tab named `file_name` and return its identifier.  The
    /// first tab opened becomes active by itself.
    pub fn open_new_tab(&mut self, file_name: &str) -> (id: usize)
        requires
            old(self).wf(),
            old(self).spec_next_id() < usize::MAX,
        ensures
            final(self).wf(),
            id == old(self).spec_next_id(),
            final(self).spec_next_id() == old(self).spec_next_id() + 1,
            final(self).spec_tabs().len() == old(self).spec_tabs().len() + 1,
            final(self).spec_tabs().take(old(self).spec_tabs().len() as int) == old(
                self,
            ).spec_tabs(),
            final(self).spec_tabs().last().id == id,
            final(self).spec_tabs().last().file_name@ == file_name@,
            !final(self).spec_tabs().last().is_modified,
            final(self).spec_active() == if old(self).spec_active() is None {
                Some(0nat)
            } else {
                old(self).spec_active()
            },
    {
        let id = self.next_tab_id;
        self.next_tab_id = self.next_tab_id + 1;

        let tab = EditorTabState::new(id, file_name);
        self.tabs.push(tab);

        // The first tab opened becomes active by itself.
        if self.active_tab_index.is_none() {
            self.active_tab_index = Some(0);
        }

        proof {
            assert(self.spec_tabs().take(old(self).spec_tabs().len() as int) =~= old(
                self,
            ).spec_tabs());
        }
        id
    }

    /// Close the tab at `index`; fails (returns false, changing nothing)
    /// iff the index is out of bounds.  The active index is pulled back into
    /// range: closing the last remaining tab leaves no active tab, closing a
    /// tab before the active one shifts the active index down, and an active
    /// index past the new end snaps to the new last tab.
    pub fn close_tab(&mut self, index: usize) -> (r: bool)
        requires
            old(self).wf(),
        ensures
            final(self).wf(),
            r == (index < old(self).spec_tabs().len()),
            !r ==> final(self).spec_tabs() == old(self).spec_tabs() && final(self).spec_active()
                == old(self).spec_active() && final(self).spec_next_id() == old(
                self,
            ).spec_next_id(),
            r ==> {
                let n2 = (old(self).spec_tabs().len() - 1) as nat;
                &&& final(self).spec_tabs() == old(self).spec_tabs().remove(index as int)
                &&& final(self).spec_next_id() == old(self).spec_next_id()
                &&& final(self).spec_active() == {
                    let a = old(self).spec_active()->Some_0;
                    if n2 == 0 {
                        None::<nat>
                    } else if a >= n2 {
                        Some((n2 - 1) as nat)
                    } else if a > index {
                        Some((a - 1) as nat)
                    } else {
                        Some(a)
                    }
                }
            },
    {
        if index >= self.tabs.len() {
            return false;
        }

        self.tabs.remove(index);

        if let Some(active_idx) = self.active_tab_index {
            if self.tabs.is_empty() {
                self.active_tab_index = None;
            } else if active_idx >= self.tabs.len() {
                self.active_tab_index = Some(self.tabs.len() - 1);
            } else if active_idx == index {
                // The closed tab was active: the tab that slid into its
                // place becomes active.
                self.active_tab_index = Some(index);
            } else if active_idx > index {
                // The closed tab stood before the active one.
                self.active_tab_index = Some(active_idx - 1);
            }
        }

        true
    }

    /// The active tab, if any tab is open.
    pub fn active_tab(&self) -> (r: Option<&EditorTabState>)
        requires
            self.wf(),
        ensures
            match self.spec_active() {
                Some(i) => r == Some(&self.spec_tabs()[i as int]),
                None => r is None,
            },
    {
        match self.active_tab_index {
            Some(idx) => Some(&self.tabs[idx]),
            None => None,
        }
    }

    /// The active tab, mutably, if any tab is open; the rest of the state
    /// is untouched.
    pub fn active_tab_mut(&mut self) -> (r: Option<&mut EditorTabState>)
        requires
            old(self).wf(),
        ensures
            final(self).spec_active() == old(self).spec_active(),
            final(self).spec_next_id() == old(self).spec_next_id(),
            match old(self).spec_active() {
                Some(i) => match r {
                    Some(m) => *m == old(self).spec_tabs()[i as int] && final(self).spec_tabs()
                        == old(self).spec_tabs().update(i as int, *final(m)),
                    None => false,
                },
                None => r is None && final(self).spec_tabs() == old(self).spec_tabs(),
            },
    {
        match self.active_tab_index {
            Some(idx) => Some(&mut self.tabs[idx]),
            None => None,
        }
    }

    /// Make the tab at `index` active; fails (returns false, changing
    /// nothing) iff the index is out of bounds.
    pub fn set_active_tab(&mut self, index: usize) -> (r: bool)
        requires
            old(self).wf(),
        ensures
            final(self).wf(),
            r == (index < old(self).spec_tabs().len()),
            final(self).spec_tabs() == old(self).spec_tabs(),
            final(self).spec_next_id() == old(self).spec_next_id(),
            final(self).spec_active() == if index < old(self).spec_tabs().len() {
                Some(index as nat)
            } else {
                old(self).spec_active()
            },
    {
        if index < self.tabs.len() {
            self.active_tab_index = Some(index);
            true
        } else {
            false
        }
    }

    /// All open tabs, in order.
    pub fn tabs(&self) -> (r: &[EditorTabState])
        ensures
            r@ == self.spec_tabs(),
    {
        self.tabs.as_slice()
    }

    /// The index of the active tab, if any.
    pub fn active_tab_index(&self) -> (r: Option<usize>)
        ensures
            r == match self.spec_active() {
                Some(i) => Some(i as usize),
                None => None::<usize>,
            },
    {
        self.active_tab_index
    }

    /// How many tabs are open.
    pub fn tab_count(&self) -> (r: usize)
        ensures
            r == self.spec_tabs().len(),
    {
        self.tabs.len()
    }

    /// Whether no tab is open.
    pub fn is_empty(&self) -> (r: bool)
        ensures
            r <==> self.spec_tabs().len() == 0,
    {
        self.tabs.is_empty()
    }
}

impl Default for AppState {
    /// The default application state has no tabs.
    fn default() -> (r: Self)
        ensures
            r.spec_tabs().len() == 0,
            r.spec_active() is None,
            r.wf(),
    {
        Self::new()
    }
}

} // verus!
