use tedit::document::Document;

#[test]
fn empty_document_has_one_line() {
    let d = Document::new();
    assert_eq!(d.len_chars(), 0);
    assert_eq!(d.line_count(), 1);
    assert_eq!(d.to_text(), "");
}

#[test]
fn line_structure_of_two_lines_and_trailing_newline() {
    let d = Document::from_text("hello\nhi\n");
    assert_eq!(d.len_chars(), 9);
    assert_eq!(d.line_count(), 3);
    assert_eq!(d.char_to_line(0), 0);
    assert_eq!(d.char_to_line(4), 0);
    assert_eq!(d.char_to_line(5), 0);
    assert_eq!(d.char_to_line(6), 1);
    assert_eq!(d.char_to_line(9), 2);
    assert_eq!(d.line_to_char(0), 0);
    assert_eq!(d.line_to_char(1), 6);
    assert_eq!(d.line_to_char(2), 9);
    assert_eq!(d.line_len_chars(0), 6);
    assert_eq!(d.line_len_chars(1), 3);
    assert_eq!(d.line_len_chars(2), 0);
}

#[test]
fn char_at_reads_the_text() {
    let d = Document::from_text("abc");
    assert_eq!(d.char_at(0), 'a');
    assert_eq!(d.char_at(2), 'c');
}

#[test]
fn insert_splices_and_shifts() {
    let mut d = Document::from_text("abc");
    d.insert(1, "XY");
    assert_eq!(d.to_text(), "aXYbc");
    assert_eq!(d.len_chars(), 5);
    d.insert(5, "!");
    assert_eq!(d.to_text(), "aXYbc!");
}

#[test]
fn remove_returns_the_removed_slice() {
    let mut d = Document::from_text("aXYbc");
    let removed = d.remove(1, 3);
    assert_eq!(removed, "XY");
    assert_eq!(d.to_text(), "abc");
    let none = d.remove(2, 2);
    assert_eq!(none, "");
    assert_eq!(d.to_text(), "abc");
}

#[test]
fn insert_char_inserts_one_character() {
    let mut d = Document::from_text("ac");
    d.insert_char(1, 'b');
    assert_eq!(d.to_text(), "abc");
}

#[test]
fn byte_to_char_walks_multibyte_text() {
    // 'e' with acute accent takes two bytes in UTF-8
    let d = Document::from_text("a\u{e9}\nb");
    assert_eq!(d.len_chars(), 4);
    assert_eq!(d.byte_to_char(0), 0);
    assert_eq!(d.byte_to_char(1), 1);
    assert_eq!(d.byte_to_char(2), 1);
    assert_eq!(d.byte_to_char(3), 2);
    assert_eq!(d.byte_to_char(4), 3);
    assert_eq!(d.byte_to_char(5), 4);
}

#[test]
fn newline_only_counts_as_line_break() {
    // carriage return alone must not open a new line
    let d = Document::from_text("a\rb\nc");
    assert_eq!(d.line_count(), 2);
    assert_eq!(d.char_to_line(2), 0);
    assert_eq!(d.char_to_line(4), 1);
}
