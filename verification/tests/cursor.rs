use cliclack::cursor::StringCursor;

fn cursor_with(text: &str) -> StringCursor {
    let mut line = StringCursor::new();
    for c in text.chars() {
        line.insert(c);
    }
    line
}

#[test]
fn new_cursor_is_empty() {
    let line = StringCursor::new();
    assert_eq!(line.to_string(), "");
    assert_eq!(line.cursor(), 0);
    assert_eq!(line.len(), 0);
    assert!(line.is_empty());
}

#[test]
fn insert_advances_the_caret() {
    let mut line = StringCursor::new();
    line.insert('a');
    line.insert('b');
    assert_eq!(line.to_string(), "ab");
    assert_eq!(line.cursor(), 2);
    assert_eq!(line.len(), 2);
}

#[test]
fn insert_goes_in_at_the_caret() {
    let mut line = cursor_with("ac");
    line.move_left();
    line.insert('b');
    assert_eq!(line.to_string(), "abc");
    assert_eq!(line.cursor(), 2);
}

#[test]
fn delete_left_removes_the_character_before_the_caret() {
    let mut line = cursor_with("abc");
    line.move_left();
    line.delete_left();
    assert_eq!(line.to_string(), "ac");
    assert_eq!(line.cursor(), 1);
}

#[test]
fn delete_left_at_the_start_does_nothing() {
    let mut line = cursor_with("ab");
    line.move_left();
    line.move_left();
    line.delete_left();
    assert_eq!(line.to_string(), "ab");
    assert_eq!(line.cursor(), 0);
    let mut empty = StringCursor::new();
    empty.delete_left();
    assert_eq!(empty.to_string(), "");
    assert_eq!(empty.cursor(), 0);
}

#[test]
fn delete_right_removes_the_character_under_the_caret() {
    let mut line = cursor_with("abc");
    line.move_left();
    line.move_left();
    line.delete_right();
    assert_eq!(line.to_string(), "ac");
    assert_eq!(line.cursor(), 1);
}

#[test]
fn delete_right_at_the_end_does_nothing() {
    let mut line = cursor_with("ab");
    line.delete_right();
    assert_eq!(line.to_string(), "ab");
    assert_eq!(line.cursor(), 2);
    let mut empty = StringCursor::new();
    empty.delete_right();
    assert_eq!(empty.to_string(), "");
    assert_eq!(empty.cursor(), 0);
}

#[test]
fn moves_stop_at_both_ends() {
    let mut line = cursor_with("ab");
    line.move_right();
    assert_eq!(line.cursor(), 2);
    line.move_left();
    line.move_left();
    line.move_left();
    assert_eq!(line.cursor(), 0);
    line.move_right();
    assert_eq!(line.cursor(), 1);
    assert_eq!(line.to_string(), "ab");
}

#[test]
fn edits_take_effect_in_order() {
    let mut line = StringCursor::new();
    line.insert('a');
    line.insert('b');
    line.insert('c');
    line.move_left();
    line.delete_left();
    line.insert('x');
    line.move_right();
    line.move_right();
    line.insert('!');
    line.move_left();
    line.move_left();
    line.delete_right();
    assert_eq!(line.to_string(), "ax!");
    assert_eq!(line.cursor(), 2);
}

#[test]
fn caret_stays_within_the_text_through_many_edits() {
    let mut line = StringCursor::new();
    for round in 0..200usize {
        match round % 7 {
            0 | 1 | 2 => line.insert('z'),
            3 => line.move_left(),
            4 => line.delete_right(),
            5 => line.delete_left(),
            _ => line.move_right(),
        }
        assert!(line.cursor() <= line.len());
        assert_eq!(line.to_string().chars().count(), line.len());
    }
    for _ in 0..400usize {
        line.delete_left();
        line.delete_right();
        assert!(line.cursor() <= line.len());
    }
    assert_eq!(line.len(), 0);
    assert_eq!(line.cursor(), 0);
}

#[test]
fn extend_appends_and_leaves_the_caret() {
    let mut line = cursor_with("ab");
    line.move_left();
    line.extend("cd");
    assert_eq!(line.to_string(), "abcd");
    assert_eq!(line.cursor(), 1);
}

#[test]
fn split_views_meet_at_the_caret() {
    let mut line = cursor_with("hello");
    line.move_left();
    line.move_left();
    assert_eq!(line.before(), "hel");
    assert_eq!(line.after(), "lo");
    assert_eq!(line.current(), Some('l'));
    assert_eq!(line.cell(), "l");
    assert_eq!(line.rest(), "o");
}

#[test]
fn split_views_at_the_end() {
    let line = cursor_with("hi");
    assert_eq!(line.before(), "hi");
    assert_eq!(line.after(), "");
    assert_eq!(line.current(), None);
    assert_eq!(line.cell(), " ");
    assert_eq!(line.rest(), "");
}

#[test]
fn masked_view_keeps_length_and_caret() {
    let mut line = cursor_with("secret");
    line.move_left();
    line.move_left();
    let masked = line.masked('*');
    assert_eq!(masked.to_string(), "******");
    assert_eq!(masked.cursor(), 4);
    assert_eq!(masked.len(), 6);
    assert_eq!(line.to_string(), "secret");
}

#[test]
fn each_character_is_one_unit() {
    let mut line = cursor_with("añ日");
    assert_eq!(line.len(), 3);
    line.delete_left();
    assert_eq!(line.to_string(), "añ");
    assert_eq!(line.cursor(), 2);
}
