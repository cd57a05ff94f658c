use tedit::view::{EditorCommand, Panel};
use tedit::widget::{BorderStyle, WidgetType};

#[test]
fn border_offset_follows_the_style() {
    let p = Panel::new("", 0, 0, 10, 5, BorderStyle::NoBorder);
    assert_eq!(p.get_offset(), 0);
    let q = Panel::new("", 0, 0, 10, 5, BorderStyle::Solid);
    assert_eq!(q.get_offset(), 1);
    let r = Panel::new("", 0, 0, 10, 5, BorderStyle::Dashed);
    assert_eq!(r.get_offset(), 1);
}

#[test]
fn cursor_maps_to_origin_plus_column_and_line() {
    let mut p = Panel::new("hello\nworld", 3, 2, 20, 10, BorderStyle::NoBorder);
    p.record_cursor_jump(8);
    let (x, y) = p.update_cursor_position_and_view();
    // line 1, column 2, no scrolling needed
    assert_eq!((x, y), (5, 3));
    assert_eq!(p.scroll_lines, 0);
    assert_eq!(p.scroll_columns, 0);
}

#[test]
fn moving_past_the_right_edge_scrolls_columns() {
    let mut p = Panel::new("abcdefghijklmnop", 0, 0, 8, 4, BorderStyle::NoBorder);
    p.apply(EditorCommand::End);
    // column 16 with width 8: the window slides right so the cursor sits
    // on the last visible column
    assert_eq!(p.scroll_columns, 9);
    assert!(p.is_cursor_visible());
    let (x, y) = p.get_cursor_view();
    assert_eq!((x, y), (7, 0));
}

#[test]
fn moving_down_past_the_bottom_scrolls_lines() {
    let mut p = Panel::new("a\nb\nc\nd\ne\nf\ng", 0, 0, 10, 3, BorderStyle::NoBorder);
    p.apply(EditorCommand::End);
    let line = p.buffer.char_to_line(p.text_position);
    assert_eq!(line, 6);
    assert_eq!(p.scroll_lines, 4);
    assert!(p.is_cursor_visible());
}

#[test]
fn moving_back_up_scrolls_lines_back() {
    let mut p = Panel::new("a\nb\nc\nd\ne\nf\ng", 0, 0, 10, 3, BorderStyle::NoBorder);
    p.apply(EditorCommand::End);
    p.apply(EditorCommand::Home);
    assert_eq!(p.scroll_lines, 0);
    assert_eq!(p.scroll_columns, 0);
    assert!(p.is_cursor_visible());
}

#[test]
fn scroll_invariant_holds_along_a_motion_sequence() {
    let text = "alpha beta gamma\nx\nlonger line here with words\n\nend";
    let mut p = Panel::new(text, 1, 1, 9, 4, BorderStyle::NoBorder);
    let cmds = [
        EditorCommand::End,
        EditorCommand::MoveUp,
        EditorCommand::MoveWordLeft,
        EditorCommand::MoveUp,
        EditorCommand::MoveDown,
        EditorCommand::PageUp,
        EditorCommand::MoveWordRight,
        EditorCommand::MoveWordRight,
        EditorCommand::PageDown,
        EditorCommand::MoveLeft,
        EditorCommand::Home,
    ];
    for cmd in cmds {
        p.apply(cmd);
        let line = p.buffer.char_to_line(p.text_position);
        let col = p.text_position - p.buffer.line_to_char(line);
        assert!(p.scroll_lines <= line && line < p.scroll_lines + p.height);
        assert!(p.scroll_columns <= col && col < p.scroll_columns + p.width);
    }
}

#[test]
fn get_cursor_view_matches_update_once_consistent() {
    let mut p = Panel::new("one\ntwo three four five\nsix", 2, 1, 7, 3, BorderStyle::Solid);
    p.apply(EditorCommand::End);
    let (ux, uy) = p.update_cursor_position_and_view();
    let (gx, gy) = p.get_cursor_view();
    assert_eq!((ux, uy), (gx, gy));
}

#[test]
fn cursor_scrolled_out_is_not_visible() {
    let mut p = Panel::new("a\nb\nc\nd\ne\nf\ng", 0, 0, 10, 3, BorderStyle::NoBorder);
    p.apply(EditorCommand::Home);
    p.scroll_down_one();
    p.scroll_down_one();
    p.scroll_down_one();
    assert_eq!(p.scroll_lines, 3);
    assert!(!p.is_cursor_visible());
    p.scroll_up_one();
    p.scroll_up_one();
    p.scroll_up_one();
    assert!(p.is_cursor_visible());
}

#[test]
fn scroll_down_stops_at_the_last_line() {
    let mut p = Panel::new("a\nb", 0, 0, 10, 3, BorderStyle::NoBorder);
    for _ in 0..5 {
        p.scroll_down_one();
    }
    assert_eq!(p.scroll_lines, 2);
}

#[test]
fn page_down_moves_a_viewport_at_a_time() {
    let mut p = Panel::new("a\nb\nc\nd\ne\nf\ng\nh", 0, 0, 10, 4, BorderStyle::NoBorder);
    p.apply(EditorCommand::PageDown);
    // three line-down steps from line 0
    assert_eq!(p.buffer.char_to_line(p.text_position), 3);
    p.apply(EditorCommand::PageUp);
    assert_eq!(p.buffer.char_to_line(p.text_position), 0);
}

#[test]
fn widget_type_names_render() {
    assert_eq!(WidgetType::Panel.name(), "Panel");
    assert_eq!(WidgetType::CommandLine.name(), "CommandLine");
    assert_eq!(WidgetType::NoWidget.name(), "None");
}
