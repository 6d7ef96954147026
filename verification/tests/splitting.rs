use riffle::split_lines;

fn lines_of(text: &str) -> Vec<String> {
    split_lines(text)
}

#[test]
fn empty_text_gives_no_lines() {
    assert_eq!(lines_of(""), Vec::<String>::new());
}

#[test]
fn single_line_without_terminator() {
    assert_eq!(lines_of("hello"), vec!["hello".to_string()]);
}

#[test]
fn newline_separates_lines() {
    assert_eq!(lines_of("a\nb"), vec!["a".to_string(), "b".to_string()]);
}

#[test]
fn trailing_newline_adds_no_empty_line() {
    assert_eq!(lines_of("a\nb\n"), vec!["a".to_string(), "b".to_string()]);
}

#[test]
fn lone_newline_is_one_empty_line() {
    assert_eq!(lines_of("\n"), vec!["".to_string()]);
}

#[test]
fn carriage_return_before_newline_is_stripped() {
    assert_eq!(lines_of("a\r\nb\r\n"), vec!["a".to_string(), "b".to_string()]);
}

#[test]
fn lone_carriage_return_is_kept() {
    assert_eq!(lines_of("a\r"), vec!["a\r".to_string()]);
}

#[test]
fn empty_lines_between_terminators_are_kept() {
    assert_eq!(
        lines_of("a\n\nb"),
        vec!["a".to_string(), "".to_string(), "b".to_string()]
    );
}

#[test]
fn non_ascii_text_splits_on_newlines() {
    assert_eq!(
        lines_of("héllo\nwörld"),
        vec!["héllo".to_string(), "wörld".to_string()]
    );
}
