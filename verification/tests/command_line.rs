use tedit::command::{is_colon_command, parse_command_line, recognize_command, CommandKind};

#[test]
fn splits_on_spaces() {
    let args = parse_command_line(":open some file.txt");
    assert_eq!(args, vec![":open", "some", "file.txt"]);
}

#[test]
fn collapses_repeated_spaces() {
    let args = parse_command_line("  a   b  ");
    assert_eq!(args, vec!["a", "b"]);
}

#[test]
fn keeps_spaces_inside_single_quotes() {
    let args = parse_command_line(":open 'my file'");
    assert_eq!(args, vec![":open", "'my file'"]);
}

#[test]
fn keeps_spaces_inside_double_quotes() {
    let args = parse_command_line(":find \"a b\"");
    assert_eq!(args, vec![":find", "\"a b\""]);
}

#[test]
fn keeps_spaces_inside_a_regex_span() {
    let args = parse_command_line(":find /a b/");
    assert_eq!(args, vec![":find", "/a b/"]);
}

#[test]
fn escaped_quote_joins_the_argument() {
    let args = parse_command_line("\"a\\\"b\"");
    assert_eq!(args, vec!["\"a\"b\""]);
}

#[test]
fn escaped_single_quote_joins_the_argument() {
    let args = parse_command_line("'a\\'b'");
    assert_eq!(args, vec!["'a'b'"]);
}

#[test]
fn backslash_without_quote_is_kept() {
    let args = parse_command_line("a\\b");
    assert_eq!(args, vec!["a\\b"]);
}

#[test]
fn empty_line_has_no_arguments() {
    let args = parse_command_line("");
    assert!(args.is_empty());
}

#[test]
fn recognizes_the_builtin_commands() {
    assert_eq!(recognize_command(&":quit".to_string()), CommandKind::Quit);
    assert_eq!(recognize_command(&":find".to_string()), CommandKind::Find);
    assert_eq!(recognize_command(&":open".to_string()), CommandKind::Open);
    assert_eq!(recognize_command(&":save".to_string()), CommandKind::Save);
    assert_eq!(recognize_command(&":nope".to_string()), CommandKind::Unknown);
    assert_eq!(recognize_command(&"ls".to_string()), CommandKind::Unknown);
}

#[test]
fn colon_lines_are_commands() {
    assert!(is_colon_command(":quit"));
    assert!(!is_colon_command("ls -la"));
    assert!(!is_colon_command(""));
}
