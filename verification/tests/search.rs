use tedit::document::Document;
use tedit::search::{find_plain, find_regex, match_spans, parse_search_term, select_match,
    SearchState};
use tedit::widget::ColorTextTag;

#[test]
fn plain_search_finds_every_occurrence() {
    let hits = find_plain("abcabc", "abc");
    assert_eq!(hits, vec![(0, 3), (3, 3)]);
}

#[test]
fn plain_search_does_not_overlap() {
    let hits = find_plain("aaaa", "aa");
    assert_eq!(hits, vec![(0, 2), (2, 2)]);
}

#[test]
fn plain_search_with_no_occurrence_is_empty() {
    let hits = find_plain("abc", "xyz");
    assert!(hits.is_empty());
}

#[test]
fn search_term_forms() {
    let (is_regex, inner) = parse_search_term("/ab c/");
    assert!(is_regex);
    assert_eq!(inner.iter().collect::<String>(), "ab c");
    let (is_regex, inner) = parse_search_term("'ab'");
    assert!(!is_regex);
    assert_eq!(inner.iter().collect::<String>(), "ab");
    let (is_regex, inner) = parse_search_term("\"ab\"");
    assert!(!is_regex);
    assert_eq!(inner.iter().collect::<String>(), "ab");
    let (is_regex, inner) = parse_search_term("ab");
    assert!(!is_regex);
    assert_eq!(inner.iter().collect::<String>(), "ab");
    // too short to be a delimited form
    let (is_regex, inner) = parse_search_term("//");
    assert!(!is_regex);
    assert_eq!(inner.iter().collect::<String>(), "//");
}

#[test]
fn selection_picks_first_match_at_or_after_cursor() {
    let ps = vec![(2usize, 3usize), (9, 3)];
    assert_eq!(select_match(&ps, 0), Some(0));
    assert_eq!(select_match(&ps, 2), Some(0));
    assert_eq!(select_match(&ps, 5), Some(1));
    // past every match: wrap to the first
    assert_eq!(select_match(&ps, 10), Some(0));
    assert_eq!(select_match(&Vec::new(), 3), None);
}

#[test]
fn cycling_wraps_both_ways() {
    let mut st = SearchState::new();
    st.set_matches(vec![(1, 2), (5, 2), (9, 2)], 0);
    assert_eq!(st.next_position(), (5, 2));
    assert_eq!(st.next_position(), (9, 2));
    assert_eq!(st.next_position(), (1, 2));
    st.prev_position();
    assert_eq!(st.position_idx, 2);
    let mut empty = SearchState::new();
    assert_eq!(empty.next_position(), (0, 0));
    assert_eq!(empty.prev_position(), (0, 0));
}

#[test]
fn regex_search_reports_char_positions() {
    let d = Document::from_text("foo1 foo2");
    let hits = find_regex(&d, "foo[0-9]").unwrap();
    assert_eq!(hits, vec![(0, 4), (5, 4)]);
}

#[test]
fn regex_search_on_multibyte_text_counts_chars() {
    // the accented character is one char but two bytes
    let d = Document::from_text("\u{e9} foo");
    let hits = find_regex(&d, "foo").unwrap();
    assert_eq!(hits, vec![(2, 3)]);
}

#[test]
fn bad_regex_pattern_reports_none() {
    let d = Document::from_text("abc");
    assert!(find_regex(&d, "(").is_none());
}

#[test]
fn match_spans_mark_matches_and_selection() {
    let d = Document::from_text("foo bar\nfoo");
    let positions = vec![(0usize, 3usize), (8, 3)];
    let spans = match_spans(&d, &positions, Some(1));
    assert_eq!(spans.len(), 3);
    assert_eq!((spans[0].line, spans[0].x, spans[0].len), (0, 0, 3));
    assert_eq!(spans[0].tag, ColorTextTag::Find);
    assert_eq!((spans[1].line, spans[1].x, spans[1].len), (1, 0, 3));
    assert_eq!(spans[1].tag, ColorTextTag::Find);
    assert_eq!((spans[2].line, spans[2].x, spans[2].len), (1, 0, 3));
    assert_eq!(spans[2].tag, ColorTextTag::Selection);
}

#[test]
fn match_spans_without_selection() {
    let d = Document::from_text("aba");
    let spans = match_spans(&d, &vec![(0, 1), (2, 1)], None);
    assert_eq!(spans.len(), 2);
    assert!(spans.iter().all(|s| s.tag == ColorTextTag::Find));
}
