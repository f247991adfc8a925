use gptsh::script::{join_lines_exec, parse_script, split_lines};

#[test]
fn script_two_paragraphs_with_leading_comment() {
    // two paragraphs separated by a blank line, behind a comment line:
    // exactly two prompts, the comment in neither
    let text = "# a comment\nline1\nline2\n\nsecond para\n";
    let prompts = parse_script(text);
    assert_eq!(prompts.len(), 2);
    assert_eq!(prompts[0], "line1\nline2");
    assert_eq!(prompts[1], "second para");
}

#[test]
fn script_empty_text_yields_no_prompts() {
    assert_eq!(parse_script("").len(), 0);
}

#[test]
fn script_only_comments_and_blanks_yields_no_prompts() {
    assert_eq!(parse_script("# one\n\n   \n# two\n").len(), 0);
}

#[test]
fn script_final_paragraph_without_trailing_newline() {
    let prompts = parse_script("a\nb");
    assert_eq!(prompts, vec![String::from("a\nb")]);
}

#[test]
fn script_crlf_line_endings() {
    let prompts = parse_script("a\r\n\r\nb\r\n");
    assert_eq!(prompts, vec![String::from("a"), String::from("b")]);
}

#[test]
fn script_lines_are_trimmed() {
    let prompts = parse_script("  x  \n\n\t y\n");
    assert_eq!(prompts, vec![String::from("x"), String::from("y")]);
}

#[test]
fn script_comment_inside_paragraph_is_dropped() {
    let prompts = parse_script("a\n# not this\nb\n");
    assert_eq!(prompts, vec![String::from("a\nb")]);
}

#[test]
fn split_lines_keeps_empty_lines_between_newlines() {
    let lines = split_lines("a\n\nb");
    assert_eq!(lines, vec![String::from("a"), String::new(), String::from("b")]);
}

#[test]
fn split_lines_no_extra_line_for_final_newline() {
    assert_eq!(split_lines("a\n"), vec![String::from("a")]);
    assert_eq!(split_lines("").len(), 0);
}

#[test]
fn join_lines_joins_with_newlines() {
    let ls = vec![String::from("a"), String::from("b"), String::from("c")];
    assert_eq!(join_lines_exec(&ls), "a\nb\nc");
    let one = vec![String::from("solo")];
    assert_eq!(join_lines_exec(&one), "solo");
    let none: Vec<String> = Vec::new();
    assert_eq!(join_lines_exec(&none), "");
}
