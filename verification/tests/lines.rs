use cliclack::lines::{count_lines, split_lines};

#[test]
fn split_gives_one_piece_more_than_breaks() {
    assert_eq!(split_lines(""), vec![String::new()]);
    assert_eq!(split_lines("abc"), vec!["abc".to_string()]);
    assert_eq!(split_lines("a\nb"), vec!["a".to_string(), "b".to_string()]);
    assert_eq!(split_lines("a\n"), vec!["a".to_string(), String::new()]);
    assert_eq!(
        split_lines("\n\nx"),
        vec![String::new(), String::new(), "x".to_string()]
    );
}

#[test]
fn count_lines_counts_what_a_terminal_shows() {
    assert_eq!(count_lines(""), 0);
    assert_eq!(count_lines("abc"), 1);
    assert_eq!(count_lines("abc\n"), 1);
    assert_eq!(count_lines("a\nb"), 2);
    assert_eq!(count_lines("a\n\n"), 2);
    assert_eq!(count_lines("\n"), 1);
    assert_eq!(count_lines("a\nb\nc\n"), 3);
}

#[test]
fn count_lines_agrees_with_std() {
    for text in ["", "x", "x\n", "x\ny", "\n\n", "a\n\nb\n", "│  é\n└\n"] {
        assert_eq!(count_lines(text), text.lines().count());
    }
}
