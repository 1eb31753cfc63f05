//! The modal overlay over the main panes.
//!
//! At most one overlay is ever active, which a single tagged variant makes
//! unrepresentable otherwise. While any overlay other than `Inactive` is up,
//! the controller routes every key to it and the main panes see nothing.

use vstd::prelude::*;
use crate::list::SelectableList;

verus! {

/// What an open text-input prompt will create on confirmation.
#[derive(Clone, Copy, Debug, PartialEq, Eq)]
pub enum PromptPurpose {
    CreateFile,
    CreateDir,
}

/// The at-most-one active modal overlay and its transient state.
#[derive(Debug)]
pub enum Overlay {
    /// No overlay: keys go to the main panes.
    Inactive,
    /// A one-line prompt collecting a name to create.
    TextInput { purpose: PromptPurpose, buffer: String },
    /// A one-line prompt collecting a path to jump to.
    Navigator { buffer: String },
    /// The fuzzy-search results panel.
    FuzzySearch { results: SelectableList<String> },
    /// The bookmarked-directories panel.
    Bookmarks { list: SelectableList<String> },
}

impl Overlay {
    /// Any list an overlay carries keeps its cursor in range.
    pub open spec fn wf(self) -> bool {
        match self {
            Overlay::FuzzySearch { results } => results.wf(),
            Overlay::Bookmarks { list } => list.wf(),
            _ => true,
        }
    }

    /// Whether no overlay is active, so keys reach the main panes.
    pub fn is_inactive(&self) -> (r: bool)
        ensures
            r == (*self is Inactive),
    {
        match self {
            Overlay::Inactive => true,
            _ => false,
        }
    }
}

} // verus!
