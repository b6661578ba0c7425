use gtp_bridge::framing::frame_command;
use gtp_bridge::framing::is_single_line;
use gtp_bridge::framing::join_lines;

#[test]
fn frame_command_appends_one_newline() {
    assert_eq!(frame_command("play b c3"), "play b c3\n");
}

#[test]
fn frame_command_on_empty_command_is_bare_newline() {
    assert_eq!(frame_command(""), "\n");
}

#[test]
fn join_of_no_lines_is_empty() {
    let lines: Vec<String> = vec![];
    assert_eq!(join_lines(&lines), "");
}

#[test]
fn join_of_one_line_has_no_separator() {
    let lines = vec![String::from("= A1")];
    assert_eq!(join_lines(&lines), "= A1");
}

#[test]
fn join_of_three_lines_uses_two_separators() {
    let lines = vec![String::from("= 19"), String::from("komi 6.5"), String::from("done")];
    assert_eq!(join_lines(&lines), "= 19\nkomi 6.5\ndone");
}

#[test]
fn join_keeps_empty_middle_line() {
    let lines = vec![String::from("a"), String::from(""), String::from("b")];
    assert_eq!(join_lines(&lines), "a\n\nb");
}

#[test]
fn single_line_accepts_plain_text() {
    assert!(is_single_line("genmove w"));
    assert!(is_single_line(""));
}

#[test]
fn single_line_rejects_embedded_newline() {
    assert!(!is_single_line("genmove w\nquit"));
    assert!(!is_single_line("\n"));
}
