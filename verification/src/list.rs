//! An ordered collection of entries plus an optional cursor.
//!
//! The cursor is the highlighted index of a pane. It survives wholesale
//! repopulation of the entries by being clamped to the new length, and it
//! moves with wraparound under `next` and `previous`.

use vstd::prelude::*;

verus! {

/// Cursor position after one step forward with wraparound.
pub open spec fn wrap_next(i: int, len: int) -> int {
    if i + 1 == len {
        0
    } else {
        i + 1
    }
}

/// Cursor position after one step backward with wraparound.
pub open spec fn wrap_prev(i: int, len: int) -> int {
    if i == 0 {
        len - 1
    } else {
        i - 1
    }
}

/// What `next` does to a cursor over a list of length `len`.
pub open spec fn next_cursor(c: Option<usize>, len: nat) -> Option<usize> {
    match c {
        Some(i) => Some(wrap_next(i as int, len as int) as usize),
        None => None,
    }
}

/// What `previous` does to a cursor over a list of length `len`.
pub open spec fn prev_cursor(c: Option<usize>, len: nat) -> Option<usize> {
    match c {
        Some(i) => Some(wrap_prev(i as int, len as int) as usize),
        None => None,
    }
}

/// What replacing the items does to a cursor: an out-of-range index is
/// clamped to the new last index, and an index over an empty list is dropped.
pub open spec fn clamped_cursor(c: Option<usize>, len: nat) -> Option<usize> {
    match c {
        Some(i) => if len == 0 {
            None
        } else if i < len {
            Some(i)
        } else {
            Some((len - 1) as usize)
        },
        None => None,
    }
}

/// The cursor a freshly focused or repopulated pane gets: its first entry,
/// or none when it is empty.
pub open spec fn first_cursor(len: nat) -> Option<usize> {
    if len > 0 {
        Some(0usize)
    } else {
        None
    }
}

/// `next_cursor` iterated `k` times.
pub open spec fn next_cursor_n(c: Option<usize>, len: nat, k: nat) -> Option<usize>
    decreases k,
{
    if k == 0 {
        c
    } else {
        next_cursor(next_cursor_n(c, len, (k - 1) as nat), len)
    }
}

/// The list value `next` leaves behind: same entries, stepped cursor.
pub open spec fn after_next<T>(l: SelectableList<T>) -> SelectableList<T> {
    SelectableList { items: l.items, cursor: next_cursor(l.cursor, l.items@.len()) }
}

/// The list value `previous` leaves behind: same entries, stepped cursor.
pub open spec fn after_prev<T>(l: SelectableList<T>) -> SelectableList<T> {
    SelectableList { items: l.items, cursor: prev_cursor(l.cursor, l.items@.len()) }
}

/// `after_next` iterated `k` times.
pub open spec fn after_next_n<T>(l: SelectableList<T>, k: nat) -> SelectableList<T>
    decreases k,
{
    if k == 0 {
        l
    } else {
        after_next(after_next_n(l, (k - 1) as nat))
    }
}

/// An ordered sequence of entries with an optional current index.
#[derive(Debug)]
pub struct SelectableList<T> {
    pub items: Vec<T>,
    pub cursor: Option<usize>,
}

impl<T> SelectableList<T> {
    /// A cursor, when present, is a valid index; in particular an empty
    /// list never carries a cursor.
    pub open spec fn wf(self) -> bool {
        self.cursor matches Some(i) ==> i < self.items@.len()
    }

    /// An empty list with no cursor.
    pub fn new() -> (l: Self)
        ensures
            l.items@.len() == 0,
            l.cursor is None,
            l.wf(),
    {
        SelectableList { items: Vec::new(), cursor: None }
    }

    /// Replaces the entries wholesale; the cursor is clamped to the new
    /// length and never left dangling.
    pub fn replace_items(&mut self, new_items: Vec<T>)
        ensures
            final(self).items == new_items,
            final(self).cursor == clamped_cursor(old(self).cursor, new_items@.len()),
            final(self).wf(),
    {
        let len = new_items.len();
        self.items = new_items;
        match self.cursor {
            Some(i) => {
                if len == 0 {
                    self.cursor = None;
                } else if i >= len {
                    self.cursor = Some(len - 1);
                }
            },
            None => {},
        }
    }

    /// Sets the cursor directly; the index must be in range.
    pub fn select(&mut self, index: Option<usize>)
        requires
            index matches Some(i) ==> i < old(self).items@.len(),
        ensures
            final(self).items == old(self).items,
            final(self).cursor == index,
            final(self).wf(),
    {
        self.cursor = index;
    }

    /// Moves the cursor one entry forward, wrapping past the end to the
    /// first entry; a list without a cursor is left untouched.
    pub fn next(&mut self)
        requires
            old(self).wf(),
        ensures
            final(self).items == old(self).items,
            final(self).cursor == next_cursor(old(self).cursor, old(self).items@.len()),
            *final(self) == after_next(*old(self)),
            final(self).wf(),
    {
        let len = self.items.len();
        match self.cursor {
            Some(i) => {
                if i + 1 == len {
                    self.cursor = Some(0);
                } else {
                    self.cursor = Some(i + 1);
                }
            },
            None => {},
        }
    }

    /// Moves the cursor one entry backward, wrapping from the first entry
    /// to the last; a list without a cursor is left untouched.
    pub fn previous(&mut self)
        requires
            old(self).wf(),
        ensures
            final(self).items == old(self).items,
            final(self).cursor == prev_cursor(old(self).cursor, old(self).items@.len()),
            *final(self) == after_prev(*old(self)),
            final(self).wf(),
    {
        match self.cursor {
            Some(i) => {
                if i == 0 {
                    self.cursor = Some(self.items.len() - 1);
                } else {
                    self.cursor = Some(i - 1);
                }
            },
            None => {},
        }
    }

    /// The entry under the cursor, if any.
    pub fn selected(&self) -> (r: Option<&T>)
        requires
            self.wf(),
        ensures
            match r {
                Some(t) => self.cursor matches Some(i) && *t == self.items@[i as int],
                None => self.cursor is None,
            },
    {
        match self.cursor {
            Some(i) => Some(&self.items[i]),
            None => None,
        }
    }
}

proof fn lemma_next_n_none(len: nat, k: nat)
    ensures
        next_cursor_n(None, len, k) is None,
    decreases k,
{
    if k > 0 {
        lemma_next_n_none(len, (k - 1) as nat);
    }
}

proof fn lemma_next_n_adds(i: usize, len: nat, k: nat)
    requires
        i < len,
        k <= len,
        len <= usize::MAX,
    ensures
        next_cursor_n(Some(i), len, k) == Some(
            (if i + k < len {
                i + k
            } else {
                i + k - len
            }) as usize,
        ),
    decreases k,
{
    if k > 0 {
        lemma_next_n_adds(i, len, (k - 1) as nat);
    }
}

/// Wraparound law: on a list of `len` entries, stepping the cursor forward
/// `len` times brings it back to where it started.
pub proof fn lemma_next_wraparound(c: Option<usize>, len: nat)
    requires
        c matches Some(i) ==> i < len,
        len <= usize::MAX,
    ensures
        next_cursor_n(c, len, len) == c,
{
    match c {
        Some(i) => {
            lemma_next_n_adds(i, len, len);
        },
        None => {
            lemma_next_n_none(len, len);
        },
    }
}

proof fn lemma_after_next_n_fields<T>(l: SelectableList<T>, k: nat)
    ensures
        after_next_n(l, k).items == l.items,
        after_next_n(l, k).cursor == next_cursor_n(l.cursor, l.items@.len(), k),
    decreases k,
{
    if k > 0 {
        lemma_after_next_n_fields(l, (k - 1) as nat);
    }
}

/// Wraparound law: a list is exactly what it was after `next` has run as
/// many times as it has entries.
pub proof fn lemma_next_round_trip<T>(l: SelectableList<T>)
    requires
        l.wf(),
    ensures
        after_next_n(l, l.items@.len()) == l,
{
    let len = l.items@.len();
    assert(l.items.len() == len);
    lemma_after_next_n_fields(l, len);
    lemma_next_wraparound(l.cursor, len);
}

/// `previous` is the exact inverse of `next` on whole lists: either order
/// of the two calls restores the original list.
pub proof fn lemma_previous_round_trip<T>(l: SelectableList<T>)
    requires
        l.wf(),
    ensures
        after_prev(after_next(l)) == l,
        after_next(after_prev(l)) == l,
{
    let len = l.items@.len();
    assert(l.items.len() == len);
    lemma_previous_inverts_next(l.cursor, len);
}

/// `previous` is the exact inverse of `next`: stepping forward then
/// backward, or backward then forward, restores the cursor.
pub proof fn lemma_previous_inverts_next(c: Option<usize>, len: nat)
    requires
        c matches Some(i) ==> i < len,
        len <= usize::MAX,
    ensures
        prev_cursor(next_cursor(c, len), len) == c,
        next_cursor(prev_cursor(c, len), len) == c,
{
    match c {
        Some(i) => {
            assert(wrap_prev(wrap_next(i as int, len as int), len as int) == i as int);
            assert(wrap_next(wrap_prev(i as int, len as int), len as int) == i as int);
        },
        None => {},
    }
}

} // verus!
