use tedit::document::Document;
use tedit::motion::{move_char_left, move_char_right, move_line_down, move_line_up,
    move_word_left, move_word_right};

#[test]
fn char_motions_clamp_at_the_edges() {
    let d = Document::from_text("ab");
    assert_eq!(move_char_right(&d, 0), 1);
    assert_eq!(move_char_right(&d, 2), 2);
    assert_eq!(move_char_left(&d, 1), 0);
    assert_eq!(move_char_left(&d, 0), 0);
}

#[test]
fn word_right_skips_whitespace_then_a_word() {
    let d = Document::from_text("foo  bar");
    assert_eq!(move_word_right(&d, 0), 3);
    assert_eq!(move_word_right(&d, 3), 8);
}

#[test]
fn word_right_prefers_a_punctuation_run() {
    let d = Document::from_text("a++b");
    assert_eq!(move_word_right(&d, 1), 3);
}

#[test]
fn word_motion_noop_at_document_edges() {
    let d = Document::from_text("some words");
    assert_eq!(move_word_right(&d, 10), 10);
    assert_eq!(move_word_left(&d, 0), 0);
}

#[test]
fn word_left_mirrors_word_right() {
    let d = Document::from_text("foo  bar");
    assert_eq!(move_word_left(&d, 8), 5);
    assert_eq!(move_word_left(&d, 5), 0);
}

#[test]
fn line_down_clamps_column_into_shorter_line() {
    // from "hello" at column 4, down into "hi": column clamps to 1
    let d = Document::from_text("hello\nhi\n");
    assert_eq!(move_line_down(&d, 4), 7);
}

#[test]
fn line_down_into_empty_line_lands_on_its_start() {
    let d = Document::from_text("hello\n\nx\n");
    assert_eq!(move_line_down(&d, 3), 6);
}

#[test]
fn line_down_near_the_bottom_goes_to_document_end() {
    let d = Document::from_text("hello\nhi");
    assert_eq!(move_line_down(&d, 2), 8);
}

#[test]
fn line_up_clamps_column_into_shorter_line() {
    let d = Document::from_text("hi\nhello\n");
    // from "hello" at column 4 (position 7), up into "hi": column clamps to 1
    assert_eq!(move_line_up(&d, 7), 1);
}

#[test]
fn line_up_keeps_the_column_when_it_fits() {
    let d = Document::from_text("hello\nhi\n");
    assert_eq!(move_line_up(&d, 7), 1);
    assert_eq!(move_line_up(&d, 1), 0);
}
