//! The ordered store of bookmarked directory paths.
//!
//! Independent of the current directory; the only mutation the key loop
//! reaches is appending the current directory.

use vstd::prelude::*;
use crate::list::first_cursor;
use crate::list::SelectableList;

verus! {

/// An ordered, append-only list of bookmarked directory paths.
#[derive(Debug)]
pub struct BookmarkStore {
    pub entries: Vec<String>,
}

impl BookmarkStore {
    /// An empty store.
    pub fn new() -> (b: Self)
        ensures
            b.entries@.len() == 0,
    {
        BookmarkStore { entries: Vec::new() }
    }

    /// Appends a path at the end; everything already stored stays put.
    pub fn add(&mut self, path: String)
        ensures
            final(self).entries@ == old(self).entries@.push(path),
    {
        self.entries.push(path);
    }

    /// A selectable copy of the entries for the bookmarks panel, with the
    /// cursor on the first entry when there is one.
    pub fn to_list(&self) -> (l: SelectableList<String>)
        ensures
            l.items@ == self.entries@,
            l.cursor == first_cursor(self.entries@.len()),
            l.wf(),
    {
        let mut items: Vec<String> = Vec::new();
        let mut idx: usize = 0;
        while idx < self.entries.len()
            invariant
                idx <= self.entries@.len(),
                items@.len() == idx,
                forall|j: int| 0 <= j < idx ==> items@[j] == self.entries@[j],
            decreases self.entries@.len() - idx,
        {
            items.push(self.entries[idx].clone());
            idx = idx + 1;
        }
        proof {
            assert(items@ =~= self.entries@);
        }
        let cursor: Option<usize> = if items.len() > 0 {
            Some(0)
        } else {
            None
        };
        SelectableList { items, cursor }
    }
}

} // verus!
