//! The working-directory tracker.
//!
//! Holds the current absolute path, the two selectable panes populated from
//! it, and the cached disk-usage text. The filesystem itself is a
//! collaborator: whoever runs the event loop reads a directory and hands the
//! listing in as plain values; this module does everything that follows.

use vstd::prelude::*;
use crate::list::clamped_cursor;
use crate::list::first_cursor;
use crate::list::SelectableList;
use crate::paths::is_up_entry;
use crate::paths::join_path;
use crate::paths::join_seq;
use crate::paths::parent_of;
use crate::paths::parent_seq;
use crate::paths::trim_trailing_slashes;
use crate::paths::up_marker;
use crate::paths::without_trailing_slashes;
use crate::text::push_char;

verus! {

/// The current directory and the two panes derived from it.
#[derive(Debug)]
pub struct WorkingDirectory {
    /// Absolute path of the current directory.
    pub path: String,
    /// File names of the current directory.
    pub files: SelectableList<String>,
    /// Subdirectory names, led by the synthetic parent entry except at the
    /// filesystem root; the lister supplies them in that shape.
    pub dirs: SelectableList<String>,
    /// Human-readable aggregate size of the current directory.
    pub usage: String,
}

/// The path a descend from `wd` resolves to: the parent for the synthetic
/// parent entry, the joined path for a real one. The entry's decorative
/// trailing '/' is dropped, so stored paths stay canonical and a later
/// up-navigation reaches the true parent.
pub open spec fn nav_target_seq(wd: WorkingDirectory) -> Seq<char>
    recommends
        wd.dirs.cursor is Some,
{
    let entry = wd.dirs.items@[wd.dirs.cursor->0 as int]@;
    if entry == up_marker() {
        parent_seq(wd.path@)
    } else {
        join_seq(wd.path@, without_trailing_slashes(entry))
    }
}

impl WorkingDirectory {
    /// Both panes keep their cursors in range.
    pub open spec fn wf(self) -> bool {
        self.files.wf() && self.dirs.wf()
    }

    /// A tracker for `path` with empty panes, before the first listing.
    pub fn new(path: String, usage: String) -> (wd: Self)
        ensures
            wd.path == path,
            wd.usage == usage,
            wd.files.items@.len() == 0,
            wd.files.cursor is None,
            wd.dirs.items@.len() == 0,
            wd.dirs.cursor is None,
            wd.wf(),
    {
        WorkingDirectory {
            path,
            files: SelectableList::new(),
            dirs: SelectableList::new(),
            usage,
        }
    }

    /// Installs the listing of a freshly entered directory: the file cursor
    /// is clamped so it never dangles, and the directory pane regains the
    /// cursor on its first entry.
    pub fn set_listing(&mut self, path: String, files: Vec<String>, dirs: Vec<String>, usage: String)
        requires
            old(self).wf(),
        ensures
            final(self).path == path,
            final(self).usage == usage,
            final(self).files.items == files,
            final(self).files.cursor == clamped_cursor(old(self).files.cursor, files@.len()),
            final(self).dirs.items == dirs,
            final(self).dirs.cursor == first_cursor(dirs@.len()),
            final(self).wf(),
    {
        self.path = path;
        self.usage = usage;
        self.files.replace_items(files);
        self.dirs.replace_items(dirs);
        let n = self.dirs.items.len();
        if n > 0 {
            self.dirs.select(Some(0));
        } else {
            self.dirs.select(None);
        }
    }

    /// The path a descend would enter, from the selected directory entry;
    /// nothing when the directory pane has no cursor.
    pub fn navigation_target(&self) -> (r: Option<String>)
        requires
            self.wf(),
        ensures
            match r {
                Some(p) => self.dirs.cursor is Some && p@ == nav_target_seq(*self),
                None => self.dirs.cursor is None,
            },
    {
        match self.dirs.cursor {
            Some(i) => {
                let entry = &self.dirs.items[i];
                if is_up_entry(entry.as_str()) {
                    Some(parent_of(self.path.as_str()))
                } else {
                    let trimmed = trim_trailing_slashes(entry.as_str());
                    Some(join_path(self.path.as_str(), trimmed.as_str()))
                }
            },
            None => None,
        }
    }
}

/// The file names of a raw listing, in order: the entries not marked as
/// directories.
pub open spec fn file_names(entries: Seq<(String, bool)>) -> Seq<String>
    decreases entries.len(),
{
    if entries.len() == 0 {
        Seq::empty()
    } else if entries.last().1 {
        file_names(entries.drop_last())
    } else {
        file_names(entries.drop_last()).push(entries.last().0)
    }
}

/// The decorated subdirectory names of a raw listing, in order: each entry
/// marked as a directory, with '/' appended.
pub open spec fn dir_names(entries: Seq<(String, bool)>) -> Seq<Seq<char>>
    decreases entries.len(),
{
    if entries.len() == 0 {
        Seq::empty()
    } else if entries.last().1 {
        dir_names(entries.drop_last()).push(entries.last().0@ + seq!['/'])
    } else {
        dir_names(entries.drop_last())
    }
}

/// Splits a raw `(name, is-directory)` listing into the two panes' entries:
/// files keep their names in order, subdirectories get a trailing '/', and
/// the synthetic parent entry leads the directory list except at the
/// filesystem root — so a directory pane away from the root is never empty.
pub fn build_listing(entries: Vec<(String, bool)>, at_root: bool) -> (r: (Vec<String>, Vec<String>))
    ensures
        r.0@ == file_names(entries@),
        r.1@.len() == dir_names(entries@).len() + (if at_root {
            0int
        } else {
            1
        }),
        !at_root ==> r.1@[0]@ == up_marker(),
        forall|j: int|
            0 <= j < dir_names(entries@).len() ==> r.1@[j + (if at_root {
                0int
            } else {
                1
            })]@ == dir_names(entries@)[j],
        !at_root ==> r.1@.len() > 0,
{
    let mut files: Vec<String> = Vec::new();
    let mut dirs: Vec<String> = Vec::new();
    let off: usize = if at_root {
        0
    } else {
        1
    };
    if !at_root {
        let up = String::from_str("../");
        proof {
            reveal_strlit("../");
            assert(up@ =~= up_marker());
        }
        dirs.push(up);
    }
    let mut idx: usize = 0;
    while idx < entries.len()
        invariant
            idx <= entries@.len(),
            off == (if at_root {
                0usize
            } else {
                1usize
            }),
            files@ == file_names(entries@.take(idx as int)),
            dirs@.len() == off + dir_names(entries@.take(idx as int)).len(),
            !at_root ==> dirs@[0]@ == up_marker(),
            forall|j: int|
                0 <= j < dir_names(entries@.take(idx as int)).len() ==> dirs@[j + off]@
                    == dir_names(entries@.take(idx as int))[j],
        decreases entries@.len() - idx,
    {
        let name = entries[idx].0.clone();
        let is_dir = entries[idx].1;
        proof {
            assert(entries@.take(idx + 1).drop_last() =~= entries@.take(idx as int));
            assert(entries@.take(idx + 1).last() == entries@[idx as int]);
        }
        if is_dir {
            let mut d = name;
            push_char(&mut d, '/');
            proof {
                assert(d@ =~= entries@[idx as int].0@ + seq!['/']);
            }
            dirs.push(d);
        } else {
            files.push(name);
        }
        idx = idx + 1;
    }
    proof {
        assert(entries@.take(entries@.len() as int) =~= entries@);
    }
    (files, dirs)
}

} // verus!
