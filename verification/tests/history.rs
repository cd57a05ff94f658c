use tedit::action::ActionType;
use tedit::view::{EditorCommand, Panel};
use tedit::widget::BorderStyle;

fn plain_panel(text: &str) -> Panel {
    Panel::new(text, 0, 0, 80, 24, BorderStyle::NoBorder)
}

fn type_str(p: &mut Panel, s: &str) {
    for c in s.chars() {
        p.insert_char(c);
    }
}

#[test]
fn coalescing_splits_at_the_space_boundary() {
    // typing "ab cd" yields exactly two undo groups, split at the space
    let mut p = plain_panel("");
    type_str(&mut p, "ab cd");
    p.commit_current_action();
    assert_eq!(p.buffer.to_text(), "ab cd");
    assert_eq!(p.undo_stack.len(), 2);
    assert_eq!(p.undo_stack[0].text, "ab");
    assert_eq!(p.undo_stack[1].text, " cd");
    assert!(p.undo_stack.iter().all(|a| a.done));
}

#[test]
fn consecutive_spaces_stay_in_one_group() {
    let mut p = plain_panel("");
    type_str(&mut p, "a  b");
    p.commit_current_action();
    assert_eq!(p.undo_stack.len(), 2);
    assert_eq!(p.undo_stack[0].text, "a");
    assert_eq!(p.undo_stack[1].text, "  b");
}

#[test]
fn insert_then_undo_restores_document_and_cursor() {
    let mut p = plain_panel("hello");
    p.insert(2, "XY");
    assert_eq!(p.buffer.to_text(), "heXYllo");
    assert_eq!(p.text_position, 4);
    let r = p.undo();
    assert!(r.is_some());
    assert_eq!(p.buffer.to_text(), "hello");
    assert_eq!(p.text_position, 2);
}

#[test]
fn remove_then_undo_restores_the_removed_text() {
    let mut p = plain_panel("hello");
    let removed = p.remove(1, 3);
    assert_eq!(removed, "el");
    assert_eq!(p.buffer.to_text(), "hlo");
    assert_eq!(p.text_position, 1);
    // the delete entry stores its text reversed, anchored at the range end
    assert_eq!(p.undo_stack[0].text, "le");
    assert_eq!(p.undo_stack[0].cursor_position_byte, 3);
    let r = p.undo();
    assert!(r.is_some());
    assert_eq!(p.buffer.to_text(), "hello");
    assert_eq!(p.text_position, 3);
}

#[test]
fn redo_replays_an_undone_remove() {
    let mut p = plain_panel("hello");
    p.remove(1, 3);
    p.undo();
    let r = p.redo();
    assert!(r.is_some());
    assert_eq!(p.buffer.to_text(), "hlo");
    assert_eq!(p.text_position, 1);
}

#[test]
fn redo_replays_an_undone_typed_run() {
    let mut p = plain_panel("");
    type_str(&mut p, "abc");
    p.undo();
    assert_eq!(p.buffer.to_text(), "");
    let r = p.redo();
    assert!(r.is_some());
    assert_eq!(p.buffer.to_text(), "abc");
    assert_eq!(p.text_position, 3);
}

#[test]
fn typed_run_undoes_as_one_group() {
    let mut p = plain_panel("xy");
    p.apply(EditorCommand::End);
    type_str(&mut p, "abc");
    let r = p.undo();
    assert!(r.is_some());
    assert_eq!(p.buffer.to_text(), "xy");
    assert_eq!(p.text_position, 2);
}

#[test]
fn backspace_run_undoes_as_one_group() {
    let mut p = plain_panel("abc");
    p.apply(EditorCommand::End);
    p.backspace();
    p.backspace();
    assert_eq!(p.buffer.to_text(), "a");
    p.commit_current_action();
    assert_eq!(p.undo_stack.len(), 1);
    assert_eq!(p.undo_stack[0].typ, ActionType::Delete);
    assert_eq!(p.undo_stack[0].text, "cb");
    let r = p.undo();
    assert!(r.is_some());
    assert_eq!(p.buffer.to_text(), "abc");
    assert_eq!(p.text_position, 3);
}

#[test]
fn backspace_at_start_is_a_noop() {
    let mut p = plain_panel("abc");
    p.backspace();
    assert_eq!(p.buffer.to_text(), "abc");
    assert_eq!(p.text_position, 0);
    assert_eq!(p.undo_stack.len(), 0);
    assert!(!p.current_action.started);
}

#[test]
fn kind_change_commits_the_open_group() {
    let mut p = plain_panel("");
    type_str(&mut p, "ab");
    p.backspace();
    assert_eq!(p.undo_stack.len(), 1);
    assert_eq!(p.undo_stack[0].typ, ActionType::Insert);
    assert_eq!(p.undo_stack[0].text, "ab");
    assert_eq!(p.current_action.typ, ActionType::Delete);
}

#[test]
fn newline_starts_its_own_group() {
    let mut p = plain_panel("");
    type_str(&mut p, "ab");
    p.insert_newline();
    assert_eq!(p.undo_stack.len(), 1);
    assert_eq!(p.undo_stack[0].text, "ab");
    assert_eq!(p.current_action.text, "\n");
}

#[test]
fn undo_on_empty_stacks_is_a_noop() {
    let mut p = plain_panel("abc");
    assert!(p.undo().is_none());
    assert!(p.redo().is_none());
    assert_eq!(p.buffer.to_text(), "abc");
}

#[test]
fn fresh_insert_after_undo_clears_the_redo_stack() {
    // undo, then a fresh character: the redo stack empties and a
    // subsequent redo replays nothing
    let mut p = plain_panel("");
    type_str(&mut p, "a");
    p.undo();
    assert_eq!(p.redo_stack.len(), 1);
    p.insert_char('b');
    assert_eq!(p.redo_stack.len(), 0);
    let r = p.redo();
    assert!(r.is_none());
    assert_eq!(p.buffer.to_text(), "b");
    assert_eq!(p.text_position, 1);
}

#[test]
fn motion_commits_the_open_group() {
    let mut p = plain_panel("");
    type_str(&mut p, "ab");
    p.apply(EditorCommand::MoveLeft);
    assert!(!p.current_action.started);
    assert_eq!(p.undo_stack.len(), 1);
    // a plain motion adds no undo entry of its own
    assert_eq!(p.undo_stack[0].typ, ActionType::Insert);
}

#[test]
fn cursor_jump_is_undoable() {
    let mut p = plain_panel("hello world");
    p.record_cursor_jump(6);
    assert_eq!(p.text_position, 6);
    let r = p.undo();
    assert!(r.is_some());
    assert_eq!(p.text_position, 0);
    assert_eq!(p.buffer.to_text(), "hello world");
    let r2 = p.redo();
    assert!(r2.is_some());
    assert_eq!(p.buffer.to_text(), "hello world");
}

#[test]
fn undo_undoes_groups_in_reverse_order() {
    let mut p = plain_panel("");
    type_str(&mut p, "ab cd");
    p.undo();
    assert_eq!(p.buffer.to_text(), "ab");
    p.undo();
    assert_eq!(p.buffer.to_text(), "");
    assert!(p.undo().is_none());
}

#[test]
fn replace_text_resets_cursor_and_history() {
    let mut p = plain_panel("");
    type_str(&mut p, "old text");
    p.replace_text("fresh\ncontent");
    assert_eq!(p.buffer.to_text(), "fresh\ncontent");
    assert_eq!(p.text_position, 0);
    assert_eq!(p.undo_stack.len(), 0);
    assert_eq!(p.redo_stack.len(), 0);
    assert!(p.undo().is_none());
}

#[test]
fn undo_replays_every_entry_of_a_nonempty_history() {
    // undo returns Some exactly as many times as there are recorded groups
    let mut p = plain_panel("seed ");
    p.apply(EditorCommand::End);
    type_str(&mut p, "one two");
    p.record_cursor_jump(0);
    p.insert(0, "head ");
    let mut replayed = 0;
    while p.undo().is_some() {
        replayed += 1;
        assert!(replayed <= 10);
    }
    // groups: "one", " two" (split at the space), the jump, the insert
    assert_eq!(replayed, 4);
    assert_eq!(p.buffer.to_text(), "seed ");
}
