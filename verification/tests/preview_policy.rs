use filenav::preview::head_lines;
use filenav::preview::looks_binary;

#[test]
fn nul_byte_marks_content_as_binary() {
    assert!(looks_binary(&[b'a', 0, b'b']));
    assert!(looks_binary(&[0]));
}

#[test]
fn plain_text_is_not_binary() {
    assert!(!looks_binary(b"hello\nworld\n"));
    assert!(!looks_binary(&[]));
}

#[test]
fn head_lines_truncates_long_content() {
    let lines = vec![
        String::from("one"),
        String::from("two"),
        String::from("three"),
    ];
    let head = head_lines(lines, 2);
    assert_eq!(head, vec![String::from("one"), String::from("two")]);
}

#[test]
fn head_lines_keeps_short_content_whole() {
    let lines = vec![String::from("only")];
    assert_eq!(head_lines(lines.clone(), 30), lines);
}
