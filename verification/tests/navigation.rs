use filenav::controller::Action;
use filenav::controller::App;
use filenav::controller::Key;
use filenav::overlay::Overlay;
use filenav::overlay::PromptPurpose;

fn strings(names: &[&str]) -> Vec<String> {
    names.iter().map(|n| String::from(*n)).collect()
}

/// An app sitting in `/a/b` with a few entries and the directory pane focused.
fn app_in_a_b() -> App {
    let mut app = App::new(String::from("/a/b"), String::from("12K"));
    app.on_dir_read(
        String::from("/a/b"),
        strings(&["readme.txt", "notes.md"]),
        strings(&["../", "src/", "docs/"]),
        String::from("12K"),
    );
    app
}

#[test]
fn listing_gives_directory_pane_the_first_entry() {
    let app = app_in_a_b();
    assert_eq!(app.wd.dirs.cursor, Some(0));
    assert_eq!(app.wd.files.cursor, None);
    assert_eq!(app.wd.path, "/a/b");
}

#[test]
fn descend_on_up_entry_requests_the_parent() {
    let mut app = app_in_a_b();
    let a = app.handle_key(Key::Descend);
    assert_eq!(a, Action::ReadDir { path: String::from("/a") });
}

#[test]
fn descend_into_subdirectory_requests_the_joined_path() {
    let mut app = app_in_a_b();
    app.handle_key(Key::Next);
    let a = app.handle_key(Key::Descend);
    assert_eq!(a, Action::ReadDir { path: String::from("/a/b/src") });
}

#[test]
fn descend_then_up_returns_to_the_same_directory() {
    let mut app = app_in_a_b();
    app.handle_key(Key::Next);
    let a = app.handle_key(Key::Descend);
    assert_eq!(a, Action::ReadDir { path: String::from("/a/b/src") });
    app.on_dir_read(
        String::from("/a/b/src"),
        strings(&["lib.rs"]),
        strings(&["../", "inner/"]),
        String::from("2K"),
    );
    let a = app.handle_key(Key::Descend);
    assert_eq!(a, Action::ReadDir { path: String::from("/a/b") });
}

#[test]
fn descend_then_listing_repopulates_and_refocuses() {
    let mut app = app_in_a_b();
    let a = app.handle_key(Key::Descend);
    match a {
        Action::ReadDir { path } => {
            assert_eq!(path, "/a");
            app.on_dir_read(
                path,
                strings(&["x.rs"]),
                strings(&["../", "b/"]),
                String::from("40K"),
            );
        }
        other => panic!("expected a directory read, got {:?}", other),
    }
    assert_eq!(app.wd.path, "/a");
    assert_eq!(app.wd.dirs.items, strings(&["../", "b/"]));
    assert_eq!(app.wd.files.items, strings(&["x.rs"]));
    assert_eq!(app.wd.dirs.cursor, Some(0));
}

#[test]
fn file_cursor_is_clamped_when_the_directory_shrinks() {
    let mut app = App::new(String::from("/big"), String::from("1M"));
    app.on_dir_read(
        String::from("/big"),
        strings(&["a", "b", "c", "d", "e"]),
        strings(&["../"]),
        String::from("1M"),
    );
    app.handle_key(Key::FocusFiles);
    for _ in 0..4 {
        app.handle_key(Key::Next);
    }
    assert_eq!(app.wd.files.cursor, Some(4));
    app.on_dir_read(
        String::from("/small"),
        strings(&["p", "q"]),
        strings(&["../"]),
        String::from("8K"),
    );
    assert_eq!(app.wd.files.cursor, Some(1));
}

#[test]
fn focus_is_exclusive_between_the_panes() {
    let mut app = app_in_a_b();
    app.handle_key(Key::FocusFiles);
    assert_eq!(app.wd.files.cursor, Some(0));
    assert_eq!(app.wd.dirs.cursor, None);
    app.handle_key(Key::FocusDirs);
    assert_eq!(app.wd.files.cursor, None);
    assert_eq!(app.wd.dirs.cursor, Some(0));
}

#[test]
fn focus_on_an_empty_pane_leaves_no_cursor() {
    let mut app = App::new(String::from("/e"), String::from("0"));
    app.on_dir_read(String::from("/e"), Vec::new(), strings(&["../"]), String::from("0"));
    app.handle_key(Key::FocusFiles);
    assert_eq!(app.wd.files.cursor, None);
    assert_eq!(app.wd.dirs.cursor, None);
}

#[test]
fn cancel_without_overlay_quits() {
    let mut app = app_in_a_b();
    assert_eq!(app.handle_key(Key::Cancel), Action::Quit);
}

#[test]
fn typing_a_name_and_confirming_requests_the_file() {
    let mut app = App::new(String::from("/tmp"), String::from("4K"));
    app.on_dir_read(String::from("/tmp"), Vec::new(), strings(&["../"]), String::from("4K"));
    app.handle_key(Key::FilePrompt);
    assert!(matches!(
        app.overlay,
        Overlay::TextInput { purpose: PromptPurpose::CreateFile, .. }
    ));
    for c in ['n', 'o', 't', 'e', 's'] {
        app.handle_key(Key::Char(c));
    }
    let a = app.handle_key(Key::FilePrompt);
    assert_eq!(
        a,
        Action::CreateFile { path: String::from("/tmp/notes"), name: String::from("notes") }
    );
    assert!(matches!(app.overlay, Overlay::Inactive));
}

#[test]
fn a_taken_name_reopens_the_prompt_for_correction() {
    let mut app = App::new(String::from("/tmp"), String::from("4K"));
    app.handle_key(Key::FilePrompt);
    for c in ['n', 'o', 't', 'e', 's'] {
        app.handle_key(Key::Char(c));
    }
    let a = app.handle_key(Key::FilePrompt);
    match a {
        Action::CreateFile { path: _, name } => {
            app.on_create_failed(PromptPurpose::CreateFile, name);
        }
        other => panic!("expected a create request, got {:?}", other),
    }
    match &app.overlay {
        Overlay::TextInput { purpose: PromptPurpose::CreateFile, buffer } => {
            assert_eq!(buffer, "notes");
        }
        other => panic!("expected the reopened prompt, got {:?}", other),
    }
    app.handle_key(Key::Backspace);
    app.handle_key(Key::Char('2'));
    let a = app.handle_key(Key::FilePrompt);
    assert_eq!(
        a,
        Action::CreateFile { path: String::from("/tmp/note2"), name: String::from("note2") }
    );
}

#[test]
fn confirm_uses_the_purpose_the_prompt_was_opened_with() {
    let mut app = app_in_a_b();
    app.handle_key(Key::DirPrompt);
    app.handle_key(Key::Char('d'));
    let a = app.handle_key(Key::FilePrompt);
    assert_eq!(
        a,
        Action::CreateDir { path: String::from("/a/b/d"), name: String::from("d") }
    );
}

#[test]
fn confirming_an_empty_name_keeps_the_prompt_open() {
    let mut app = app_in_a_b();
    app.handle_key(Key::FilePrompt);
    let a = app.handle_key(Key::FilePrompt);
    assert_eq!(a, Action::Redraw);
    assert!(matches!(app.overlay, Overlay::TextInput { .. }));
}

#[test]
fn backspace_removes_the_last_typed_character() {
    let mut app = App::new(String::from("/tmp"), String::from("4K"));
    app.handle_key(Key::FilePrompt);
    for c in ['a', 'b', 'c'] {
        app.handle_key(Key::Char(c));
    }
    app.handle_key(Key::Backspace);
    let a = app.handle_key(Key::FilePrompt);
    assert_eq!(
        a,
        Action::CreateFile { path: String::from("/tmp/ab"), name: String::from("ab") }
    );
}

#[test]
fn cancel_closes_the_prompt_without_creating() {
    let mut app = app_in_a_b();
    app.handle_key(Key::FilePrompt);
    app.handle_key(Key::Char('x'));
    let a = app.handle_key(Key::Cancel);
    assert_eq!(a, Action::Redraw);
    assert!(matches!(app.overlay, Overlay::Inactive));
}

#[test]
fn overlay_swallows_navigation_keys() {
    let mut app = app_in_a_b();
    app.handle_key(Key::FocusFiles);
    let files_before = app.wd.files.cursor;
    let dirs_before = app.wd.dirs.cursor;
    app.handle_key(Key::FilePrompt);
    for key in [Key::Next, Key::Previous, Key::FocusFiles, Key::FocusDirs, Key::Descend] {
        let a = app.handle_key(key);
        assert_eq!(a, Action::Redraw);
        assert_eq!(app.wd.files.cursor, files_before);
        assert_eq!(app.wd.dirs.cursor, dirs_before);
    }
}

#[test]
fn cancel_in_overlay_closes_it_instead_of_quitting() {
    let mut app = app_in_a_b();
    app.handle_key(Key::FilePrompt);
    assert_eq!(app.handle_key(Key::Cancel), Action::Redraw);
    assert_eq!(app.handle_key(Key::Cancel), Action::Quit);
}

#[test]
fn navigator_jumps_to_the_typed_path() {
    let mut app = app_in_a_b();
    app.handle_key(Key::NavigatorPrompt);
    for c in ['/', 'e', 't', 'c'] {
        app.handle_key(Key::Char(c));
    }
    let a = app.handle_key(Key::Descend);
    assert_eq!(a, Action::ReadDir { path: String::from("/etc") });
    assert!(matches!(app.overlay, Overlay::Inactive));
}

#[test]
fn fuzzy_panel_selects_a_result() {
    let mut app = app_in_a_b();
    let a = app.handle_key(Key::FuzzyPrompt);
    assert_eq!(a, Action::RunFuzzy { path: String::from("/a/b") });
    app.on_fuzzy_results(strings(&["/a/b/src", "/a/b/docs"]));
    app.handle_key(Key::Next);
    let a = app.handle_key(Key::Descend);
    assert_eq!(a, Action::ReadDir { path: String::from("/a/b/docs") });
    assert!(matches!(app.overlay, Overlay::Inactive));
}

#[test]
fn late_fuzzy_results_are_dropped() {
    let mut app = app_in_a_b();
    app.handle_key(Key::FuzzyPrompt);
    app.handle_key(Key::Cancel);
    app.on_fuzzy_results(strings(&["/x"]));
    assert!(matches!(app.overlay, Overlay::Inactive));
}

#[test]
fn bookmarks_remember_and_reopen_directories() {
    let mut app = app_in_a_b();
    app.handle_key(Key::BookmarkAdd);
    assert_eq!(app.bookmarks.entries, strings(&["/a/b"]));
    app.handle_key(Key::BookmarksPanel);
    let a = app.handle_key(Key::Descend);
    assert_eq!(a, Action::ReadDir { path: String::from("/a/b") });
    assert!(matches!(app.overlay, Overlay::Inactive));
}

#[test]
fn empty_bookmarks_panel_has_nothing_to_select() {
    let mut app = app_in_a_b();
    app.handle_key(Key::BookmarksPanel);
    match &app.overlay {
        Overlay::Bookmarks { list } => {
            assert_eq!(list.items.len(), 0);
            assert_eq!(list.cursor, None);
        }
        other => panic!("expected the bookmarks panel, got {:?}", other),
    }
    let a = app.handle_key(Key::Descend);
    assert_eq!(a, Action::Redraw);
}

#[test]
fn descend_without_directory_cursor_does_nothing() {
    let mut app = app_in_a_b();
    app.handle_key(Key::FocusFiles);
    let a = app.handle_key(Key::Descend);
    assert_eq!(a, Action::Redraw);
    assert_eq!(app.wd.path, "/a/b");
}
