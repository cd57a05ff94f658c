use tedit::action::{Action, ActionType};
use tedit::strutil::{char_count, chars_vec, last_char, reverse_string};
use tedit::widget::WidgetType;

#[test]
fn chars_vec_lists_the_characters() {
    assert_eq!(chars_vec("abc"), vec!['a', 'b', 'c']);
    assert_eq!(chars_vec(""), Vec::<char>::new());
    assert_eq!(chars_vec("a\u{e9}b"), vec!['a', '\u{e9}', 'b']);
}

#[test]
fn char_count_counts_chars_not_bytes() {
    assert_eq!(char_count("abc"), 3);
    assert_eq!(char_count("a\u{e9}b"), 3);
    assert_eq!(char_count(""), 0);
}

#[test]
fn reverse_string_reverses() {
    assert_eq!(reverse_string("abc"), "cba");
    assert_eq!(reverse_string(""), "");
    assert_eq!(reverse_string(reverse_string("round").as_str()), "round");
}

#[test]
fn last_char_of_a_string() {
    assert_eq!(last_char("abc"), Some('c'));
    assert_eq!(last_char(""), None);
}

#[test]
fn new_action_is_started_and_not_done() {
    let a = Action::new(ActionType::Insert, 7, "xy".to_string());
    assert_eq!(a.typ, ActionType::Insert);
    assert_eq!(a.cursor_position_byte, 7);
    assert_eq!(a.text, "xy");
    assert!(a.started);
    assert!(!a.done);
    assert_eq!(a.widget_id, 0);
    assert_eq!(a.widget_type, WidgetType::NoWidget);
}

#[test]
fn default_action_is_blank() {
    let a = Action::default();
    assert_eq!(a.typ, ActionType::NoAction);
    assert!(!a.started);
    assert!(!a.done);
    assert_eq!(a.text, "");
}
