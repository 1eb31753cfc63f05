//! The navigation controller: one key event in, one action out.
//!
//! The event loop around the library is dumb: it maps raw keys to [`Key`],
//! calls [`App::handle_key`], carries out the returned [`Action`] (reading a
//! directory, creating a file, running the fuzzy finder), and hands any
//! result back through the `on_*` methods. Every decision in between — key
//! routing, overlay exclusivity, cursor discipline — happens here, and the
//! whole transition is pinned down by [`app_step`].

use vstd::prelude::*;
use crate::bookmarks::BookmarkStore;
use crate::list::clamped_cursor;
use crate::list::first_cursor;
use crate::list::next_cursor;
use crate::list::prev_cursor;
use crate::list::SelectableList;
use crate::overlay::Overlay;
use crate::overlay::PromptPurpose;
use crate::paths::join_path;
use crate::paths::join_seq;
use crate::text::pop_char;
use crate::text::push_char;
use crate::workdir::nav_target_seq;
use crate::workdir::WorkingDirectory;

verus! {

/// A key event, already stripped to what the controller distinguishes.
#[derive(Clone, Copy, Debug, PartialEq, Eq)]
pub enum Key {
    /// Give the files pane the cursor.
    FocusFiles,
    /// Give the directories pane the cursor.
    FocusDirs,
    /// Move the focused list one entry down.
    Next,
    /// Move the focused list one entry up.
    Previous,
    /// Enter the selected directory, or confirm a line prompt.
    Descend,
    /// Open the create-file prompt, or confirm an open one.
    FilePrompt,
    /// Open the create-directory prompt, or confirm an open one.
    DirPrompt,
    /// Close the active overlay, or quit when none is active.
    Cancel,
    /// A printable character for the active text prompt.
    Char(char),
    /// Remove the last character of the active text prompt.
    Backspace,
    /// Open the path-navigator prompt.
    NavigatorPrompt,
    /// Open the fuzzy-search panel.
    FuzzyPrompt,
    /// Open the bookmarks panel.
    BookmarksPanel,
    /// Bookmark the current directory.
    BookmarkAdd,
    /// Any key the controller ignores.
    Other,
}

/// What the event loop must do after a key was handled.
#[derive(Debug, PartialEq, Eq)]
pub enum Action {
    /// Nothing beyond re-rendering the state.
    Redraw,
    /// Leave the event loop.
    Quit,
    /// List the directory at `path` and answer with [`App::on_dir_read`].
    ReadDir { path: String },
    /// Create a file at `path`: on success re-list the current directory's
    /// files and answer with [`App::on_files_read`]; when `name` was
    /// already taken, answer with [`App::on_create_failed`] instead.
    CreateFile { path: String, name: String },
    /// Create a directory at `path`: on success re-list the current
    /// directory's subdirectories and answer with [`App::on_dirs_read`];
    /// when `name` was already taken, answer with
    /// [`App::on_create_failed`] instead.
    CreateDir { path: String, name: String },
    /// Run the fuzzy finder under `path` and answer with
    /// [`App::on_fuzzy_results`].
    RunFuzzy { path: String },
}

/// The whole state the controller owns.
#[derive(Debug)]
pub struct App {
    pub wd: WorkingDirectory,
    pub overlay: Overlay,
    pub bookmarks: BookmarkStore,
}

/// The main panes and the bookmark store are untouched; only the overlay
/// may have changed.
pub open spec fn unchanged_core(pre: App, post: App) -> bool {
    post.wd == pre.wd && post.bookmarks == pre.bookmarks
}

/// Path, usage and the entries of both panes are kept; only the cursors may
/// have moved.
pub open spec fn same_wd_items(pre: WorkingDirectory, post: WorkingDirectory) -> bool {
    post.path == pre.path && post.usage == pre.usage && post.files.items == pre.files.items
        && post.dirs.items == pre.dirs.items
}

/// One key handled while a text-input prompt is up.
pub open spec fn text_input_step(
    pre: App,
    purpose: PromptPurpose,
    buffer: String,
    key: Key,
    post: App,
    a: Action,
) -> bool {
    match key {
        Key::Cancel => post.overlay is Inactive && a is Redraw,
        Key::FilePrompt | Key::DirPrompt => if buffer@.len() == 0 {
            post.overlay == pre.overlay && a is Redraw
        } else {
            post.overlay is Inactive && match purpose {
                PromptPurpose::CreateFile => a matches Action::CreateFile { path, name } && path@
                    == join_seq(pre.wd.path@, buffer@) && name@ == buffer@,
                PromptPurpose::CreateDir => a matches Action::CreateDir { path, name } && path@
                    == join_seq(pre.wd.path@, buffer@) && name@ == buffer@,
            }
        },
        Key::Char(c) => (post.overlay matches Overlay::TextInput { purpose: p2, buffer: b2 }
            && p2 == purpose && b2@ == buffer@.push(c)) && a is Redraw,
        Key::Backspace => (post.overlay matches Overlay::TextInput { purpose: p2, buffer: b2 }
            && p2 == purpose && b2@ == (if buffer@.len() == 0 {
            buffer@
        } else {
            buffer@.drop_last()
        })) && a is Redraw,
        _ => post.overlay == pre.overlay && a is Redraw,
    }
}

/// One key handled while the path navigator is up.
pub open spec fn navigator_step(pre: App, buffer: String, key: Key, post: App, a: Action) -> bool {
    match key {
        Key::Cancel => post.overlay is Inactive && a is Redraw,
        Key::Descend => if buffer@.len() == 0 {
            post.overlay == pre.overlay && a is Redraw
        } else {
            post.overlay is Inactive && (a matches Action::ReadDir { path } && path@ == buffer@)
        },
        Key::Char(c) => (post.overlay matches Overlay::Navigator { buffer: b2 } && b2@
            == buffer@.push(c)) && a is Redraw,
        Key::Backspace => (post.overlay matches Overlay::Navigator { buffer: b2 } && b2@ == (
        if buffer@.len() == 0 {
            buffer@
        } else {
            buffer@.drop_last()
        })) && a is Redraw,
        _ => post.overlay == pre.overlay && a is Redraw,
    }
}

/// One key handled while the fuzzy-search panel is up.
pub open spec fn fuzzy_step(
    pre: App,
    results: SelectableList<String>,
    key: Key,
    post: App,
    a: Action,
) -> bool {
    match key {
        Key::Cancel => post.overlay is Inactive && a is Redraw,
        Key::Next => (post.overlay matches Overlay::FuzzySearch { results: l2 } && l2.items
            == results.items && l2.cursor == next_cursor(results.cursor, results.items@.len()))
            && a is Redraw,
        Key::Previous => (post.overlay matches Overlay::FuzzySearch { results: l2 } && l2.items
            == results.items && l2.cursor == prev_cursor(results.cursor, results.items@.len()))
            && a is Redraw,
        Key::Descend => match results.cursor {
            Some(i) => post.overlay is Inactive && (a matches Action::ReadDir { path } && path@
                == results.items@[i as int]@),
            None => post.overlay == pre.overlay && a is Redraw,
        },
        _ => post.overlay == pre.overlay && a is Redraw,
    }
}

/// One key handled while the bookmarks panel is up.
pub open spec fn bookmarks_step(
    pre: App,
    list: SelectableList<String>,
    key: Key,
    post: App,
    a: Action,
) -> bool {
    match key {
        Key::Cancel => post.overlay is Inactive && a is Redraw,
        Key::Next => (post.overlay matches Overlay::Bookmarks { list: l2 } && l2.items
            == list.items && l2.cursor == next_cursor(list.cursor, list.items@.len())) && a
            is Redraw,
        Key::Previous => (post.overlay matches Overlay::Bookmarks { list: l2 } && l2.items
            == list.items && l2.cursor == prev_cursor(list.cursor, list.items@.len())) && a
            is Redraw,
        Key::Descend => match list.cursor {
            Some(i) => post.overlay is Inactive && (a matches Action::ReadDir { path } && path@
                == list.items@[i as int]@),
            None => post.overlay == pre.overlay && a is Redraw,
        },
        _ => post.overlay == pre.overlay && a is Redraw,
    }
}

/// One key handled with no overlay up: the main-pane dispatch.
pub open spec fn main_step(pre: App, key: Key, post: App, a: Action) -> bool {
    match key {
        Key::FocusFiles => post.overlay == pre.overlay && post.bookmarks == pre.bookmarks
            && same_wd_items(pre.wd, post.wd) && post.wd.files.cursor == first_cursor(
            pre.wd.files.items@.len(),
        ) && post.wd.dirs.cursor is None && a is Redraw,
        Key::FocusDirs => post.overlay == pre.overlay && post.bookmarks == pre.bookmarks
            && same_wd_items(pre.wd, post.wd) && post.wd.dirs.cursor == first_cursor(
            pre.wd.dirs.items@.len(),
        ) && post.wd.files.cursor is None && a is Redraw,
        Key::Next => post.overlay == pre.overlay && post.bookmarks == pre.bookmarks
            && same_wd_items(pre.wd, post.wd) && (if pre.wd.files.cursor is Some {
            post.wd.files.cursor == next_cursor(pre.wd.files.cursor, pre.wd.files.items@.len())
                && post.wd.dirs.cursor == pre.wd.dirs.cursor
        } else {
            post.wd.files.cursor is None && post.wd.dirs.cursor == next_cursor(
                pre.wd.dirs.cursor,
                pre.wd.dirs.items@.len(),
            )
        }) && a is Redraw,
        Key::Previous => post.overlay == pre.overlay && post.bookmarks == pre.bookmarks
            && same_wd_items(pre.wd, post.wd) && (if pre.wd.files.cursor is Some {
            post.wd.files.cursor == prev_cursor(pre.wd.files.cursor, pre.wd.files.items@.len())
                && post.wd.dirs.cursor == pre.wd.dirs.cursor
        } else {
            post.wd.files.cursor is None && post.wd.dirs.cursor == prev_cursor(
                pre.wd.dirs.cursor,
                pre.wd.dirs.items@.len(),
            )
        }) && a is Redraw,
        Key::Descend => post == pre && (match pre.wd.dirs.cursor {
            Some(_) => a matches Action::ReadDir { path } && path@ == nav_target_seq(pre.wd),
            None => a is Redraw,
        }),
        Key::FilePrompt => unchanged_core(pre, post) && (post.overlay matches Overlay::TextInput {
            purpose: p,
            buffer: b,
        } && p is CreateFile && b@.len() == 0) && a is Redraw,
        Key::DirPrompt => unchanged_core(pre, post) && (post.overlay matches Overlay::TextInput {
            purpose: p,
            buffer: b,
        } && p is CreateDir && b@.len() == 0) && a is Redraw,
        Key::NavigatorPrompt => unchanged_core(pre, post) && (post.overlay
            matches Overlay::Navigator { buffer: b } && b@.len() == 0) && a is Redraw,
        Key::FuzzyPrompt => unchanged_core(pre, post) && (post.overlay
            matches Overlay::FuzzySearch { results } && results.items@.len() == 0 && results.cursor
            is None) && (a matches Action::RunFuzzy { path } && path@ == pre.wd.path@),
        Key::BookmarksPanel => post.wd == pre.wd && post.bookmarks == pre.bookmarks
            && (post.overlay matches Overlay::Bookmarks { list } && list.items@
            == pre.bookmarks.entries@ && list.cursor == first_cursor(pre.bookmarks.entries@.len()))
            && a is Redraw,
        Key::BookmarkAdd => post.wd == pre.wd && post.overlay == pre.overlay
            && post.bookmarks.entries@ == pre.bookmarks.entries@.push(pre.wd.path) && a is Redraw,
        Key::Cancel => post == pre && a is Quit,
        _ => post == pre && a is Redraw,
    }
}

/// The whole transition one key makes: overlay routing first, main-pane
/// dispatch only when no overlay is active.
pub open spec fn app_step(pre: App, key: Key, post: App, a: Action) -> bool {
    match pre.overlay {
        Overlay::Inactive => main_step(pre, key, post, a),
        Overlay::TextInput { purpose, buffer } => unchanged_core(pre, post) && text_input_step(
            pre,
            purpose,
            buffer,
            key,
            post,
            a,
        ),
        Overlay::Navigator { buffer } => unchanged_core(pre, post) && navigator_step(
            pre,
            buffer,
            key,
            post,
            a,
        ),
        Overlay::FuzzySearch { results } => unchanged_core(pre, post) && fuzzy_step(
            pre,
            results,
            key,
            post,
            a,
        ),
        Overlay::Bookmarks { list } => unchanged_core(pre, post) && bookmarks_step(
            pre,
            list,
            key,
            post,
            a,
        ),
    }
}

impl App {
    /// Panes and overlay lists keep their cursors in range.
    pub open spec fn wf(self) -> bool {
        self.wd.wf() && self.overlay.wf()
    }

    /// A fresh state: empty panes for `path`, no overlay, no bookmarks.
    pub fn new(path: String, usage: String) -> (app: App)
        ensures
            app.wf(),
            app.wd.path == path,
            app.wd.usage == usage,
            app.wd.files.items@.len() == 0,
            app.wd.files.cursor is None,
            app.wd.dirs.items@.len() == 0,
            app.wd.dirs.cursor is None,
            app.overlay is Inactive,
            app.bookmarks.entries@.len() == 0,
    {
        App {
            wd: WorkingDirectory::new(path, usage),
            overlay: Overlay::Inactive,
            bookmarks: BookmarkStore::new(),
        }
    }

    /// Installs a freshly read directory listing: the answer to
    /// [`Action::ReadDir`]. The directory pane regains the cursor on its
    /// first entry; the file cursor is clamped, never left dangling.
    pub fn on_dir_read(&mut self, path: String, files: Vec<String>, dirs: Vec<String>, usage: String)
        requires
            old(self).wf(),
        ensures
            final(self).wf(),
            final(self).wd.path == path,
            final(self).wd.usage == usage,
            final(self).wd.files.items == files,
            final(self).wd.files.cursor == clamped_cursor(
                old(self).wd.files.cursor,
                files@.len(),
            ),
            final(self).wd.dirs.items == dirs,
            final(self).wd.dirs.cursor == first_cursor(dirs@.len()),
            final(self).overlay == old(self).overlay,
            final(self).bookmarks == old(self).bookmarks,
    {
        self.wd.set_listing(path, files, dirs, usage);
    }

    /// Re-installs the file names of the current directory: the answer to
    /// [`Action::CreateFile`]. The cursor is clamped, never left dangling.
    pub fn on_files_read(&mut self, files: Vec<String>)
        requires
            old(self).wf(),
        ensures
            final(self).wf(),
            final(self).wd.files.items == files,
            final(self).wd.files.cursor == clamped_cursor(
                old(self).wd.files.cursor,
                files@.len(),
            ),
            final(self).wd.path == old(self).wd.path,
            final(self).wd.usage == old(self).wd.usage,
            final(self).wd.dirs == old(self).wd.dirs,
            final(self).overlay == old(self).overlay,
            final(self).bookmarks == old(self).bookmarks,
    {
        self.wd.files.replace_items(files);
    }

    /// Re-installs the subdirectory names of the current directory: the
    /// answer to [`Action::CreateDir`]. The cursor is clamped.
    pub fn on_dirs_read(&mut self, dirs: Vec<String>)
        requires
            old(self).wf(),
        ensures
            final(self).wf(),
            final(self).wd.dirs.items == dirs,
            final(self).wd.dirs.cursor == clamped_cursor(old(self).wd.dirs.cursor, dirs@.len()),
            final(self).wd.path == old(self).wd.path,
            final(self).wd.usage == old(self).wd.usage,
            final(self).wd.files == old(self).wd.files,
            final(self).overlay == old(self).overlay,
            final(self).bookmarks == old(self).bookmarks,
    {
        self.wd.dirs.replace_items(dirs);
    }

    /// Fills the fuzzy-search panel with the finder's matches: the answer
    /// to [`Action::RunFuzzy`]. A result that arrives after the panel was
    /// closed is dropped.
    pub fn on_fuzzy_results(&mut self, results: Vec<String>)
        requires
            old(self).wf(),
        ensures
            final(self).wf(),
            old(self).overlay is FuzzySearch ==> (final(self).overlay
                matches Overlay::FuzzySearch { results: l } && l.items == results && l.cursor
                == first_cursor(results@.len())) && final(self).wd == old(self).wd
                && final(self).bookmarks == old(self).bookmarks,
            !(old(self).overlay is FuzzySearch) ==> *final(self) == *old(self),
    {
        match &self.overlay {
            Overlay::FuzzySearch { results: _ } => {
                let cursor: Option<usize> = if results.len() > 0 {
                    Some(0)
                } else {
                    None
                };
                self.overlay = Overlay::FuzzySearch {
                    results: SelectableList { items: results, cursor },
                };
            },
            _ => {},
        }
    }

    /// Reopens the create prompt with the rejected name: the answer to a
    /// failed [`Action::CreateFile`] or [`Action::CreateDir`] whose name
    /// was already taken, so the user can correct it in place.
    pub fn on_create_failed(&mut self, purpose: PromptPurpose, name: String)
        requires
            old(self).wf(),
        ensures
            final(self).wf(),
            (final(self).overlay matches Overlay::TextInput { purpose: p, buffer: b } && p
                == purpose && b == name),
            final(self).wd == old(self).wd,
            final(self).bookmarks == old(self).bookmarks,
    {
        self.overlay = Overlay::TextInput { purpose, buffer: name };
    }

    /// Routes one key event: to the active overlay exclusively when there
    /// is one, to the main panes otherwise.
    pub fn handle_key(&mut self, key: Key) -> (a: Action)
        requires
            old(self).wf(),
        ensures
            final(self).wf(),
            app_step(*old(self), key, *final(self), a),
    {
        if self.overlay.is_inactive() {
            self.handle_key_main(key)
        } else {
            self.handle_key_overlay(key)
        }
    }

    fn handle_key_main(&mut self, key: Key) -> (a: Action)
        requires
            old(self).wf(),
            old(self).overlay is Inactive,
        ensures
            final(self).wf(),
            app_step(*old(self), key, *final(self), a),
    {
        match key {
            Key::FocusFiles => {
                let n = self.wd.files.items.len();
                if n > 0 {
                    self.wd.files.select(Some(0));
                } else {
                    self.wd.files.select(None);
                }
                self.wd.dirs.select(None);
                Action::Redraw
            },
            Key::FocusDirs => {
                let n = self.wd.dirs.items.len();
                if n > 0 {
                    self.wd.dirs.select(Some(0));
                } else {
                    self.wd.dirs.select(None);
                }
                self.wd.files.select(None);
                Action::Redraw
            },
            Key::Next => {
                if self.wd.files.cursor.is_some() {
                    self.wd.files.next();
                } else {
                    self.wd.dirs.next();
                }
                Action::Redraw
            },
            Key::Previous => {
                if self.wd.files.cursor.is_some() {
                    self.wd.files.previous();
                } else {
                    self.wd.dirs.previous();
                }
                Action::Redraw
            },
            Key::Descend => {
                match self.wd.navigation_target() {
                    Some(t) => Action::ReadDir { path: t },
                    None => Action::Redraw,
                }
            },
            Key::FilePrompt => {
                self.overlay = Overlay::TextInput {
                    purpose: PromptPurpose::CreateFile,
                    buffer: String::new(),
                };
                Action::Redraw
            },
            Key::DirPrompt => {
                self.overlay = Overlay::TextInput {
                    purpose: PromptPurpose::CreateDir,
                    buffer: String::new(),
                };
                Action::Redraw
            },
            Key::NavigatorPrompt => {
                self.overlay = Overlay::Navigator { buffer: String::new() };
                Action::Redraw
            },
            Key::FuzzyPrompt => {
                let p = self.wd.path.clone();
                self.overlay = Overlay::FuzzySearch { results: SelectableList::new() };
                Action::RunFuzzy { path: p }
            },
            Key::BookmarksPanel => {
                let l = self.bookmarks.to_list();
                self.overlay = Overlay::Bookmarks { list: l };
                Action::Redraw
            },
            Key::BookmarkAdd => {
                let p = self.wd.path.clone();
                self.bookmarks.add(p);
                Action::Redraw
            },
            Key::Cancel => Action::Quit,
            _ => Action::Redraw,
        }
    }

    fn handle_key_overlay(&mut self, key: Key) -> (a: Action)
        requires
            old(self).wf(),
            !(old(self).overlay is Inactive),
        ensures
            final(self).wf(),
            app_step(*old(self), key, *final(self), a),
    {
        match key {
            Key::Cancel => {
                self.overlay = Overlay::Inactive;
                Action::Redraw
            },
            Key::Char(c) => {
                match &mut self.overlay {
                    Overlay::TextInput { purpose: _, buffer } => {
                        push_char(buffer, c);
                    },
                    Overlay::Navigator { buffer } => {
                        push_char(buffer, c);
                    },
                    _ => {},
                }
                Action::Redraw
            },
            Key::Backspace => {
                match &mut self.overlay {
                    Overlay::TextInput { purpose: _, buffer } => {
                        let _ = pop_char(buffer);
                    },
                    Overlay::Navigator { buffer } => {
                        let _ = pop_char(buffer);
                    },
                    _ => {},
                }
                Action::Redraw
            },
            Key::Next => {
                match &mut self.overlay {
                    Overlay::FuzzySearch { results } => {
                        results.next();
                    },
                    Overlay::Bookmarks { list } => {
                        list.next();
                    },
                    _ => {},
                }
                Action::Redraw
            },
            Key::Previous => {
                match &mut self.overlay {
                    Overlay::FuzzySearch { results } => {
                        results.previous();
                    },
                    Overlay::Bookmarks { list } => {
                        list.previous();
                    },
                    _ => {},
                }
                Action::Redraw
            },
            Key::Descend => {
                let target: Option<String> = match &self.overlay {
                    Overlay::Navigator { buffer } => {
                        if buffer.as_str().is_empty() {
                            None
                        } else {
                            Some(buffer.clone())
                        }
                    },
                    Overlay::FuzzySearch { results } => {
                        match results.cursor {
                            Some(i) => Some(results.items[i].clone()),
                            None => None,
                        }
                    },
                    Overlay::Bookmarks { list } => {
                        match list.cursor {
                            Some(i) => Some(list.items[i].clone()),
                            None => None,
                        }
                    },
                    _ => None,
                };
                match target {
                    Some(p) => {
                        self.overlay = Overlay::Inactive;
                        Action::ReadDir { path: p }
                    },
                    None => Action::Redraw,
                }
            },
            Key::FilePrompt | Key::DirPrompt => {
                let decision: Option<(bool, String, String)> = match &self.overlay {
                    Overlay::TextInput { purpose, buffer } => {
                        if buffer.as_str().is_empty() {
                            None
                        } else {
                            let target = join_path(self.wd.path.as_str(), buffer.as_str());
                            let make_file = match purpose {
                                PromptPurpose::CreateFile => true,
                                PromptPurpose::CreateDir => false,
                            };
                            Some((make_file, target, buffer.clone()))
                        }
                    },
                    _ => None,
                };
                match decision {
                    Some((true, target, nm)) => {
                        self.overlay = Overlay::Inactive;
                        Action::CreateFile { path: target, name: nm }
                    },
                    Some((false, target, nm)) => {
                        self.overlay = Overlay::Inactive;
                        Action::CreateDir { path: target, name: nm }
                    },
                    None => Action::Redraw,
                }
            },
            _ => Action::Redraw,
        }
    }
}

/// While any overlay is active, no key reaches the main panes: the working
/// directory — both cursors included — and the bookmarks are unchanged.
pub proof fn lemma_overlay_suppresses_navigation(pre: App, key: Key, post: App, a: Action)
    requires
        !(pre.overlay is Inactive),
        app_step(pre, key, post, a),
    ensures
        post.wd == pre.wd,
        post.wd.files.cursor == pre.wd.files.cursor,
        post.wd.dirs.cursor == pre.wd.dirs.cursor,
        post.bookmarks == pre.bookmarks,
{
}

} // verus!
