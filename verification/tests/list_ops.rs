use filenav::list::SelectableList;

#[test]
fn new_list_is_empty_without_cursor() {
    let l: SelectableList<String> = SelectableList::new();
    assert_eq!(l.items.len(), 0);
    assert_eq!(l.cursor, None);
}

#[test]
fn next_wraps_back_to_start_after_len_steps() {
    let mut l = SelectableList { items: vec![10u64, 20, 30], cursor: Some(1) };
    l.next();
    l.next();
    l.next();
    assert_eq!(l.cursor, Some(1));
}

#[test]
fn next_wraps_past_the_end_to_zero() {
    let mut l = SelectableList { items: vec![1u64, 2, 3], cursor: Some(2) };
    l.next();
    assert_eq!(l.cursor, Some(0));
}

#[test]
fn previous_undoes_next() {
    let mut l = SelectableList { items: vec![1u64, 2, 3], cursor: Some(0) };
    l.next();
    l.previous();
    assert_eq!(l.cursor, Some(0));
}

#[test]
fn previous_wraps_from_zero_to_last() {
    let mut l = SelectableList { items: vec![1u64, 2, 3], cursor: Some(0) };
    l.previous();
    assert_eq!(l.cursor, Some(2));
    l.next();
    assert_eq!(l.cursor, Some(0));
}

#[test]
fn next_without_cursor_is_a_no_op() {
    let mut l = SelectableList { items: vec![1u64, 2, 3], cursor: None };
    l.next();
    assert_eq!(l.cursor, None);
    l.previous();
    assert_eq!(l.cursor, None);
}

#[test]
fn replace_items_clamps_out_of_range_cursor() {
    let mut l = SelectableList {
        items: vec![
            String::from("a"),
            String::from("b"),
            String::from("c"),
            String::from("d"),
            String::from("e"),
        ],
        cursor: Some(4),
    };
    l.replace_items(vec![String::from("x"), String::from("y")]);
    assert_eq!(l.cursor, Some(1));
    assert_eq!(l.items.len(), 2);
}

#[test]
fn replace_items_keeps_in_range_cursor() {
    let mut l = SelectableList { items: vec![1u64, 2], cursor: Some(1) };
    l.replace_items(vec![5, 6, 7]);
    assert_eq!(l.cursor, Some(1));
}

#[test]
fn replace_items_with_empty_clears_cursor() {
    let mut l = SelectableList { items: vec![1u64, 2], cursor: Some(1) };
    l.replace_items(Vec::new());
    assert_eq!(l.cursor, None);
}

#[test]
fn select_and_selected_agree() {
    let mut l = SelectableList { items: vec![7u64, 8, 9], cursor: None };
    assert_eq!(l.selected(), None);
    l.select(Some(2));
    assert_eq!(l.selected(), Some(&9));
    l.select(None);
    assert_eq!(l.selected(), None);
}
