//! The editing panel: a document plus cursor, viewport and undo history.
//! Every mutating operation is specified exactly against the transition
//! functions of [`crate::model`].

use vstd::prelude::*;
use crate::action::{Action, ActionType, ActionModel, CursorPositionByte, blank_action};
use crate::document::{Document, MAX_TEXT};
use crate::lines::{newline_count, lemma_pos_in_line};
use crate::model::{PanelModel, commit_tr, type_char_tr, backspace_tr, insert_tr, remove_tr,
    jump_record_tr, motion_tr, undo_tr, redo_tr, undo_applies, redo_applies, view_update_tr,
    cursor_xy, cursor_xy_raw, scroll_lines_after, scroll_columns_after};
use crate::strutil::{char_count, last_char, reverse_string, string_push};
use crate::widget::BorderStyle;

verus! {

/// Screen coordinates of the cursor.
pub type CursorPosition = (i32, i32);

/// Whether an event handler asks the editor to shut down.
pub type ShouldExit = bool;

/// The model of a stack of actions.
pub open spec fn stack_model(v: Seq<Action>) -> Seq<ActionModel> {
    v.map_values(|a: Action| a@)
}

pub struct Panel {
    pub buffer: Document,
    pub text_position: CursorPositionByte,
    pub scroll_lines: usize,
    pub scroll_columns: usize,
    pub x: usize,
    pub y: usize,
    pub width: usize,
    pub height: usize,
    pub border_style: BorderStyle,
    pub undo_stack: Vec<Action>,
    pub redo_stack: Vec<Action>,
    pub current_action: Action,
}

impl View for Panel {
    type V = PanelModel;

    open spec fn view(&self) -> PanelModel {
        PanelModel {
            text: self.buffer@,
            text_position: self.text_position as int,
            scroll_lines: self.scroll_lines as int,
            scroll_columns: self.scroll_columns as int,
            x: self.x as int,
            y: self.y as int,
            width: self.width as int,
            height: self.height as int,
            border_style: self.border_style,
            undo: stack_model(self.undo_stack@),
            redo: stack_model(self.redo_stack@),
            current: self.current_action@,
        }
    }
}

impl Panel {
    /// A panel showing `text`, with the cursor at the start, nothing
    /// scrolled, and an empty history.
    pub fn new(
        text: &str,
        x: usize,
        y: usize,
        width: usize,
        height: usize,
        border_style: BorderStyle,
    ) -> (p: Panel)
        requires
            text@.len() <= MAX_TEXT,
            x <= 0xFFFF,
            y <= 0xFFFF,
            1 + 2 * crate::widget::border_offset_of(border_style) <= width <= 0xFFFF,
            1 + 2 * crate::widget::border_offset_of(border_style) <= height <= 0xFFFF,
        ensures
            p@.wf(),
            p@.text == text@,
            p@.text_position == 0,
            p@.scroll_lines == 0,
            p@.scroll_columns == 0,
            p@.x == x && p@.y == y && p@.width == width && p@.height == height,
            p@.border_style == border_style,
            p@.undo.len() == 0,
            p@.redo.len() == 0,
            !p@.current.started,
    {
        let p = Panel {
            buffer: Document::from_text(text),
            text_position: 0,
            scroll_lines: 0,
            scroll_columns: 0,
            x,
            y,
            width,
            height,
            border_style,
            undo_stack: Vec::new(),
            redo_stack: Vec::new(),
            current_action: Action::default(),
        };
        proof {
            assert(stack_model(Seq::<Action>::empty()) =~= Seq::<ActionModel>::empty());
        }
        p
    }

    /// The border inset: one row and column on each side when a border is
    /// drawn.
    pub fn get_offset(&self) -> (r: usize)
        ensures
            r as int == self@.off(),
            r <= 1,
    {
        match self.border_style {
            BorderStyle::NoBorder => 0,
            BorderStyle::Solid => 1,
            BorderStyle::Dashed => 1,
        }
    }

    /// Closes the open action, if any, and pushes it onto the undo stack.
    pub fn commit_current_action(&mut self)
        requires
            old(self)@.wf(),
        ensures
            final(self)@.wf(),
            final(self)@ == commit_tr(old(self)@),
    {
        proof {
            crate::model::lemma_commit_wf(old(self)@);
        }
        if self.current_action.started {
            self.current_action.done = true;
            let mut finished = Action::default();
            core::mem::swap(&mut self.current_action, &mut finished);
            self.undo_stack.push(finished);
            proof {
                assert(stack_model(self.undo_stack@) =~= stack_model(old(self).undo_stack@).push(
                    ActionModel { done: true, ..old(self).current_action@ },
                ));
            }
        }
    }

    /// Inserts `c` at the cursor: the character joins the open insert run,
    /// or starts a new one when the kind changes, when `force_break` is
    /// set, or at the word-boundary heuristic (a space typed right after a
    /// non-space).
    fn type_char(&mut self, c: char, force_break: bool)
        requires
            old(self)@.wf(),
            old(self)@.text.len() + 1 <= MAX_TEXT,
        ensures
            final(self)@.wf(),
            final(self)@ == type_char_tr(old(self)@, c, force_break),
    {
        let ghost m = self@;
        proof {
            crate::model::lemma_type_char_wf(m, c, force_break);
        }
        self.buffer.insert_char(self.text_position, c);
        self.text_position = self.text_position + 1;
        if self.current_action.started {
            let broke = if force_break {
                true
            } else if !matches!(self.current_action.typ, ActionType::Insert) {
                true
            } else if c == ' ' {
                match last_char(self.current_action.text.as_str()) {
                    Some(prev) => prev != ' ',
                    None => false,
                }
            } else {
                false
            };
            if broke {
                self.current_action.done = true;
                let mut finished = Action::default();
                core::mem::swap(&mut self.current_action, &mut finished);
                self.undo_stack.push(finished);
                self.redo_stack = Vec::new();
                let mut started = String::new();
                string_push(&mut started, c);
                self.current_action = Action::new(
                    ActionType::Insert,
                    self.text_position,
                    started,
                );
                proof {
                    assert(self@.text =~= type_char_tr(m, c, force_break).text);
                    assert(self@.undo =~= type_char_tr(m, c, force_break).undo);
                    assert(self@.redo =~= type_char_tr(m, c, force_break).redo);
                    assert(self@.current.text =~= type_char_tr(m, c, force_break).current.text);
                    assert(self@ =~~= type_char_tr(m, c, force_break));
                }
            } else {
                string_push(&mut self.current_action.text, c);
                proof {
                    assert(self@.text =~= type_char_tr(m, c, force_break).text);
                    assert(self@ =~~= type_char_tr(m, c, force_break));
                }
            }
        } else {
            self.redo_stack = Vec::new();
            let mut started = String::new();
            string_push(&mut started, c);
            self.current_action = Action::new(ActionType::Insert, self.text_position, started);
            proof {
                assert(self@.text =~= type_char_tr(m, c, force_break).text);
                assert(self@.redo =~= type_char_tr(m, c, force_break).redo);
                assert(self@.current.text =~= type_char_tr(m, c, force_break).current.text);
                assert(self@ =~~= type_char_tr(m, c, force_break));
            }
        }
    }

    /// Types one printable character at the cursor.
    pub fn insert_char(&mut self, c: char)
        requires
            old(self)@.wf(),
            old(self)@.text.len() + 1 <= MAX_TEXT,
        ensures
            final(self)@.wf(),
            final(self)@ == type_char_tr(old(self)@, c, false),
    {
        self.type_char(c, false)
    }

    /// Types a line break; a break always starts a fresh undo group.
    pub fn insert_newline(&mut self)
        requires
            old(self)@.wf(),
            old(self)@.text.len() + 1 <= MAX_TEXT,
        ensures
            final(self)@.wf(),
            final(self)@ == type_char_tr(old(self)@, '\n', true),
    {
        self.type_char('\n', true)
    }

    /// Deletes the character before the cursor; a no-op at the start.
    pub fn backspace(&mut self)
        requires
            old(self)@.wf(),
        ensures
            final(self)@.wf(),
            final(self)@ == backspace_tr(old(self)@),
    {
        let ghost m = self@;
        proof {
            crate::model::lemma_backspace_wf(m);
        }
        if self.text_position > 0 {
            let deleted = self.buffer.char_at(self.text_position - 1);
            let keep_run = self.current_action.started && matches!(
                self.current_action.typ,
                ActionType::Delete,
            );
            if keep_run {
                string_push(&mut self.current_action.text, deleted);
            } else {
                if self.current_action.started {
                    self.current_action.done = true;
                    let mut finished = Action::default();
                    core::mem::swap(&mut self.current_action, &mut finished);
                    self.undo_stack.push(finished);
                }
                self.redo_stack = Vec::new();
                let mut run = String::new();
                string_push(&mut run, deleted);
                self.current_action = Action::new(ActionType::Delete, self.text_position, run);
            }
            let _removed = self.buffer.remove(self.text_position - 1, self.text_position);
            self.text_position = self.text_position - 1;
            proof {
                assert(self@.text =~= backspace_tr(m).text);
                assert(self@.undo =~= backspace_tr(m).undo);
                assert(self@.redo =~= backspace_tr(m).redo);
                assert(self@.current.text =~= backspace_tr(m).current.text);
                assert(self@ =~~= backspace_tr(m));
            }
        }
    }

    /// Brings the scroll state up to date so the cursor is visible, and
    /// returns the cursor's absolute screen coordinates.  Only the two
    /// scroll offsets change.
    pub fn update_cursor_position_and_view(&mut self) -> (r: CursorPosition)
        requires
            old(self)@.wf(),
        ensures
            final(self)@.wf(),
            final(self)@ == view_update_tr(old(self)@),
            r.0 as int == cursor_xy(old(self)@).0,
            r.1 as int == cursor_xy(old(self)@).1,
    {
        let ghost m = self@;
        let off = self.get_offset();
        let l = self.buffer.char_to_line(self.text_position);
        proof {
            lemma_pos_in_line(self.buffer@, self.text_position as int);
            crate::lines::lemma_newlines_before_mono(self.buffer@, 0, self.buffer@.len() as int);
        }
        let start = self.buffer.line_to_char(l);
        let col = self.text_position - start;
        if l < self.scroll_lines {
            self.scroll_lines = l;
        }
        if l > self.scroll_lines + (self.height - 1) - off - off {
            self.scroll_lines = l - (self.height - 1 - off);
        }
        if col < self.scroll_columns {
            self.scroll_columns = col;
        }
        if col > self.scroll_columns + (self.width - 1) - off - off {
            self.scroll_columns = col - (self.width - 1 - off);
        }
        proof {
            assert(self@.scroll_lines == scroll_lines_after(m));
            assert(self@.scroll_columns == scroll_columns_after(m));
        }
        let sx = (col - self.scroll_columns) + off + self.x;
        let sy = (l - self.scroll_lines) + off + self.y;
        (sx as i32, sy as i32)
    }

    /// The cursor's screen coordinates against the current scroll state,
    /// without touching it; negative when the cursor is scrolled out above
    /// or left of the viewport.
    pub fn get_cursor_view(&self) -> (r: CursorPosition)
        requires
            self@.wf(),
        ensures
            r.0 as int == cursor_xy_raw(self@).0,
            r.1 as int == cursor_xy_raw(self@).1,
    {
        let off = self.get_offset();
        let l = self.buffer.char_to_line(self.text_position);
        proof {
            lemma_pos_in_line(self.buffer@, self.text_position as int);
            crate::lines::lemma_newlines_before_mono(self.buffer@, 0, self.buffer@.len() as int);
        }
        let start = self.buffer.line_to_char(l);
        let col = self.text_position - start;
        let sx = (col + off + self.x) as i64 - self.scroll_columns as i64;
        let sy = (l + off + self.y) as i64 - self.scroll_lines as i64;
        (sx as i32, sy as i32)
    }

    /// Whether the cursor lies inside the current scroll window.
    pub fn is_cursor_visible(&self) -> (r: bool)
        requires
            self@.wf(),
        ensures
            r == {
                &&& self@.scroll_lines <= self@.cursor_line() <= self@.scroll_lines + self@.height
                    - 1
                &&& self@.scroll_columns <= self@.cursor_col() <= self@.scroll_columns
                    + self@.width - 1
            },
    {
        let l = self.buffer.char_to_line(self.text_position);
        proof {
            lemma_pos_in_line(self.buffer@, self.text_position as int);
        }
        let start = self.buffer.line_to_char(l);
        let col = self.text_position - start;
        if l < self.scroll_lines {
            return false;
        }
        if l > self.scroll_lines + (self.height - 1) {
            return false;
        }
        if col < self.scroll_columns {
            return false;
        }
        if col > self.scroll_columns + self.width - 1 {
            return false;
        }
        true
    }

    /// Scrolls one line down (mouse wheel), never past the last line.
    pub fn scroll_down_one(&mut self)
        requires
            old(self)@.wf(),
        ensures
            final(self)@.wf(),
            final(self)@ == (PanelModel {
                scroll_lines: if old(self)@.scroll_lines < newline_count(old(self)@.text) + 1 {
                    old(self)@.scroll_lines + 1
                } else {
                    old(self)@.scroll_lines
                },
                ..old(self)@
            }),
    {
        proof {
            crate::lines::lemma_newlines_before_mono(self@.text, 0, self@.text.len() as int);
        }
        if self.scroll_lines < self.buffer.line_count() {
            self.scroll_lines = self.scroll_lines + 1;
        }
    }

    /// Scrolls one line up, never past the first line.
    pub fn scroll_up_one(&mut self)
        requires
            old(self)@.wf(),
        ensures
            final(self)@.wf(),
            final(self)@ == (PanelModel {
                scroll_lines: if old(self)@.scroll_lines > 0 {
                    old(self)@.scroll_lines - 1
                } else {
                    0
                },
                ..old(self)@
            }),
    {
        if self.scroll_lines > 0 {
            self.scroll_lines = self.scroll_lines - 1;
        }
    }

    /// Replaces the whole text, for loading a file: the cursor returns to
    /// the start and the undo history is discarded, since its entries
    /// speak of the text they were recorded against.
    pub fn replace_text(&mut self, text: &str)
        requires
            old(self)@.wf(),
            text@.len() <= MAX_TEXT,
        ensures
            final(self)@.wf(),
            final(self)@ == (PanelModel {
                text: text@,
                text_position: 0,
                undo: Seq::empty(),
                redo: Seq::empty(),
                current: blank_action(),
                ..old(self)@
            }),
    {
        self.buffer = Document::from_text(text);
        self.text_position = 0;
        self.undo_stack = Vec::new();
        self.redo_stack = Vec::new();
        self.current_action = Action::default();
        proof {
            assert(stack_model(Seq::<Action>::empty()) =~= Seq::<ActionModel>::empty());
        }
    }

    /// Inserts `text` at `char_idx` as one committed undo entry, and puts
    /// the cursor after the insertion.
    pub fn insert(&mut self, char_idx: usize, text: &str)
        requires
            old(self)@.wf(),
            char_idx <= old(self)@.text.len(),
            old(self)@.text.len() + text@.len() <= MAX_TEXT,
        ensures
            final(self)@.wf(),
            final(self)@ == insert_tr(old(self)@, char_idx as int, text@),
    {
        let ghost m = self@;
        proof {
            crate::model::lemma_insert_tr_wf(m, char_idx as int, text@);
        }
        self.commit_current_action();
        self.buffer.insert(char_idx, text);
        let n = char_count(text);
        self.text_position = char_idx + n;
        self.redo_stack = Vec::new();
        let mut entry = Action::new(ActionType::Insert, char_idx + 1, String::from_str(text));
        entry.done = true;
        self.undo_stack.push(entry);
        proof {
            assert(self@.undo =~= insert_tr(m, char_idx as int, text@).undo);
            assert(self@.redo =~= insert_tr(m, char_idx as int, text@).redo);
            assert(self@ =~~= insert_tr(m, char_idx as int, text@));
        }
    }

    /// Deletes the half-open range `[start, end)` as one committed undo
    /// entry, puts the cursor at `start`, and returns the removed text.
    pub fn remove(&mut self, start: usize, end: usize) -> (removed: String)
        requires
            old(self)@.wf(),
            start <= end <= old(self)@.text.len(),
        ensures
            final(self)@.wf(),
            final(self)@ == remove_tr(old(self)@, start as int, end as int),
            removed@ == old(self)@.text.subrange(start as int, end as int),
    {
        let ghost m = self@;
        proof {
            crate::model::lemma_remove_tr_wf(m, start as int, end as int);
        }
        self.commit_current_action();
        let removed = self.buffer.remove(start, end);
        self.text_position = start;
        self.redo_stack = Vec::new();
        let stored = reverse_string(removed.as_str());
        let mut entry = Action::new(ActionType::Delete, end, stored);
        entry.done = true;
        self.undo_stack.push(entry);
        proof {
            assert(self@.undo =~= remove_tr(m, start as int, end as int).undo);
            assert(self@.redo =~= remove_tr(m, start as int, end as int).redo);
            assert(self@ =~~= remove_tr(m, start as int, end as int));
        }
        removed
    }

    /// An explicit cursor jump (find/goto): records a `MoveCursor` undo
    /// entry holding the position jumped away from.
    pub fn record_cursor_jump(&mut self, new_pos: usize)
        requires
            old(self)@.wf(),
            new_pos <= old(self)@.text.len(),
        ensures
            final(self)@.wf(),
            final(self)@ == jump_record_tr(old(self)@, new_pos as int),
    {
        let ghost m = self@;
        proof {
            crate::model::lemma_jump_tr_wf(m, new_pos as int);
        }
        self.commit_current_action();
        let mut entry = Action::new(ActionType::MoveCursor, self.text_position, String::new());
        entry.done = true;
        self.undo_stack.push(entry);
        self.redo_stack = Vec::new();
        self.text_position = new_pos;
        proof {
            reveal_strlit("");
            assert(""@ =~= Seq::<char>::empty());
            assert(self@.undo =~= jump_record_tr(m, new_pos as int).undo);
            assert(self@.redo =~= jump_record_tr(m, new_pos as int).redo);
            assert(self@ =~~= jump_record_tr(m, new_pos as int));
        }
    }

    /// A plain cursor motion to `p`: commits any open action, creates no
    /// undo entry, and reveals the cursor.
    fn finish_motion(&mut self, p: usize) -> (r: CursorPosition)
        requires
            old(self)@.wf(),
            p <= old(self)@.text.len(),
        ensures
            final(self)@.wf(),
            final(self)@ == view_update_tr(motion_tr(old(self)@, p as int)),
            r.0 as int == cursor_xy(motion_tr(old(self)@, p as int)).0,
            r.1 as int == cursor_xy(motion_tr(old(self)@, p as int)).1,
            r.0 as int == cursor_xy_raw(final(self)@).0,
            r.1 as int == cursor_xy_raw(final(self)@).1,
    {
        broadcast use crate::model::lemma_xy_after_update;

        proof {
            crate::model::lemma_motion_tr_wf(old(self)@, p as int);
        }
        self.commit_current_action();
        self.text_position = p;
        self.update_cursor_position_and_view()
    }

    /// One position right, clamped to the document end.
    pub fn move_right(&mut self) -> (r: CursorPosition)
        requires
            old(self)@.wf(),
        ensures
            final(self)@.wf(),
            final(self)@ == view_update_tr(
                motion_tr(
                    old(self)@,
                    if old(self)@.text_position < old(self)@.text.len() {
                        old(self)@.text_position + 1
                    } else {
                        old(self)@.text_position
                    },
                ),
            ),
            r.0 as int == cursor_xy_raw(final(self)@).0,
            r.1 as int == cursor_xy_raw(final(self)@).1,
    {
        let p = crate::motion::move_char_right(&self.buffer, self.text_position);
        self.finish_motion(p)
    }

    /// One position left, clamped to the document start.
    pub fn move_left(&mut self) -> (r: CursorPosition)
        requires
            old(self)@.wf(),
        ensures
            final(self)@.wf(),
            final(self)@ == view_update_tr(
                motion_tr(
                    old(self)@,
                    if old(self)@.text_position > 0 {
                        old(self)@.text_position - 1
                    } else {
                        0
                    },
                ),
            ),
            r.0 as int == cursor_xy_raw(final(self)@).0,
            r.1 as int == cursor_xy_raw(final(self)@).1,
    {
        let p = crate::motion::move_char_left(&self.buffer, self.text_position);
        self.finish_motion(p)
    }

    /// Up one line, the column clamped into the shorter line.
    pub fn move_up(&mut self) -> (r: CursorPosition)
        requires
            old(self)@.wf(),
        ensures
            final(self)@.wf(),
            final(self)@ == view_update_tr(
                motion_tr(
                    old(self)@,
                    crate::motion::line_up_pos(old(self)@.text, old(self)@.text_position),
                ),
            ),
            r.0 as int == cursor_xy_raw(final(self)@).0,
            r.1 as int == cursor_xy_raw(final(self)@).1,
    {
        let p = crate::motion::move_line_up(&self.buffer, self.text_position);
        self.finish_motion(p)
    }

    /// Down one line, the column clamped into the shorter line.
    pub fn move_down(&mut self) -> (r: CursorPosition)
        requires
            old(self)@.wf(),
        ensures
            final(self)@.wf(),
            final(self)@ == view_update_tr(
                motion_tr(
                    old(self)@,
                    crate::motion::line_down_pos(old(self)@.text, old(self)@.text_position),
                ),
            ),
            r.0 as int == cursor_xy_raw(final(self)@).0,
            r.1 as int == cursor_xy_raw(final(self)@).1,
    {
        let p = crate::motion::move_line_down(&self.buffer, self.text_position);
        self.finish_motion(p)
    }

    /// One word right.
    pub fn move_word_right(&mut self) -> (r: CursorPosition)
        requires
            old(self)@.wf(),
        ensures
            final(self)@.wf(),
            final(self)@ == view_update_tr(
                motion_tr(
                    old(self)@,
                    crate::motion::word_right_pos(old(self)@.text, old(self)@.text_position),
                ),
            ),
            r.0 as int == cursor_xy_raw(final(self)@).0,
            r.1 as int == cursor_xy_raw(final(self)@).1,
    {
        let p = crate::motion::move_word_right(&self.buffer, self.text_position);
        self.finish_motion(p)
    }

    /// One word left.
    pub fn move_word_left(&mut self) -> (r: CursorPosition)
        requires
            old(self)@.wf(),
        ensures
            final(self)@.wf(),
            final(self)@ == view_update_tr(
                motion_tr(
                    old(self)@,
                    crate::motion::word_left_pos(old(self)@.text, old(self)@.text_position),
                ),
            ),
            r.0 as int == cursor_xy_raw(final(self)@).0,
            r.1 as int == cursor_xy_raw(final(self)@).1,
    {
        let p = crate::motion::move_word_left(&self.buffer, self.text_position);
        self.finish_motion(p)
    }

    /// To the document start.
    pub fn move_home(&mut self) -> (r: CursorPosition)
        requires
            old(self)@.wf(),
        ensures
            final(self)@.wf(),
            final(self)@ == view_update_tr(motion_tr(old(self)@, 0)),
            r.0 as int == cursor_xy_raw(final(self)@).0,
            r.1 as int == cursor_xy_raw(final(self)@).1,
    {
        self.finish_motion(0)
    }

    /// To the document end.
    pub fn move_end(&mut self) -> (r: CursorPosition)
        requires
            old(self)@.wf(),
        ensures
            final(self)@.wf(),
            final(self)@ == view_update_tr(motion_tr(old(self)@, old(self)@.text.len() as int)),
            r.0 as int == cursor_xy_raw(final(self)@).0,
            r.1 as int == cursor_xy_raw(final(self)@).1,
    {
        let p = self.buffer.len_chars();
        self.finish_motion(p)
    }

    /// Up one viewport's worth of lines (height minus one).
    pub fn page_up(&mut self) -> (r: CursorPosition)
        requires
            old(self)@.wf(),
        ensures
            final(self)@.wf(),
            final(self)@ == view_update_tr(
                motion_tr(
                    old(self)@,
                    crate::motion::line_up_n(
                        old(self)@.text,
                        old(self)@.text_position,
                        (old(self)@.height - 1) as nat,
                    ),
                ),
            ),
            r.0 as int == cursor_xy_raw(final(self)@).0,
            r.1 as int == cursor_xy_raw(final(self)@).1,
    {
        let ghost s = self@.text;
        let ghost p0 = self@.text_position;
        let n = self.height - 1;
        let mut p = self.text_position;
        let mut k: usize = 0;
        while k < n
            invariant
                k <= n,
                self@ == old(self)@,
                p <= self@.text.len(),
                p == crate::motion::line_up_n(s, p0, k as nat),
                s == self@.text,
                p0 == self@.text_position,
            decreases n - k,
        {
            p = crate::motion::move_line_up(&self.buffer, p);
            k = k + 1;
        }
        self.finish_motion(p)
    }

    /// Down one viewport's worth of lines (height minus one).
    pub fn page_down(&mut self) -> (r: CursorPosition)
        requires
            old(self)@.wf(),
        ensures
            final(self)@.wf(),
            final(self)@ == view_update_tr(
                motion_tr(
                    old(self)@,
                    crate::motion::line_down_n(
                        old(self)@.text,
                        old(self)@.text_position,
                        (old(self)@.height - 1) as nat,
                    ),
                ),
            ),
            r.0 as int == cursor_xy_raw(final(self)@).0,
            r.1 as int == cursor_xy_raw(final(self)@).1,
    {
        let ghost s = self@.text;
        let ghost p0 = self@.text_position;
        let n = self.height - 1;
        let mut p = self.text_position;
        let mut k: usize = 0;
        while k < n
            invariant
                k <= n,
                self@ == old(self)@,
                p <= self@.text.len(),
                p == crate::motion::line_down_n(s, p0, k as nat),
                s == self@.text,
                p0 == self@.text_position,
            decreases n - k,
        {
            p = crate::motion::move_line_down(&self.buffer, p);
            k = k + 1;
        }
        self.finish_motion(p)
    }

    /// Undo: commits the open action, pops the newest undo entry, replays
    /// it backward, and parks it on the redo stack.  Returns the updated
    /// cursor coordinates; `None` exactly when there was nothing to undo.
    pub fn undo(&mut self) -> (r: Option<CursorPosition>)
        requires
            old(self)@.wf(),
        ensures
            final(self)@.wf(),
            r is Some <==> undo_applies(old(self)@),
            undo_applies(old(self)@) ==> final(self)@ == view_update_tr(undo_tr(old(self)@))
                && (r->0).0 as int == cursor_xy(undo_tr(old(self)@)).0 && (r->0).1 as int
                == cursor_xy(undo_tr(old(self)@)).1,
            !undo_applies(old(self)@) ==> final(self)@ == undo_tr(old(self)@),
    {
        let ghost m0 = self@;
        proof {
            crate::model::lemma_undo_tr_wf(m0);
        }
        self.commit_current_action();
        match self.undo_stack.pop() {
            None => {
                proof {
                    assert(self@ =~~= undo_tr(m0));
                }
                None
            },
            Some(entry) => {
                proof {
                    assert(entry@ == commit_tr(m0).undo.last());
                    assert(stack_model(self.undo_stack@) =~= commit_tr(m0).undo.drop_last());
                    crate::model::lemma_undo_stack_ok_pop(
                        self@.text.len() as int,
                        commit_tr(m0).undo,
                    );
                }
                let tlen = char_count(entry.text.as_str());
                match entry.typ {
                    ActionType::Insert => {
                        let startp = entry.cursor_position_byte - 1;
                        let _removed = self.buffer.remove(startp, startp + tlen);
                        self.text_position = startp;
                        self.redo_stack.push(entry);
                        proof {
                            assert(self@.redo =~= undo_tr(m0).redo);
                            assert(self@ =~~= undo_tr(m0));
                        }
                        Some(self.update_cursor_position_and_view())
                    },
                    ActionType::Delete => {
                        let rev = reverse_string(entry.text.as_str());
                        self.buffer.insert(entry.cursor_position_byte - tlen, rev.as_str());
                        self.text_position = entry.cursor_position_byte;
                        self.redo_stack.push(entry);
                        proof {
                            assert(self@.redo =~= undo_tr(m0).redo);
                            assert(self@ =~~= undo_tr(m0));
                        }
                        Some(self.update_cursor_position_and_view())
                    },
                    ActionType::MoveCursor => {
                        self.text_position = entry.cursor_position_byte;
                        self.redo_stack.push(entry);
                        proof {
                            assert(self@.redo =~= undo_tr(m0).redo);
                            assert(self@ =~~= undo_tr(m0));
                        }
                        Some(self.update_cursor_position_and_view())
                    },
                    ActionType::NoAction => {
                        // a well-formed stack never holds a blank entry
                        proof {
                            assert(false);
                        }
                        None
                    },
                }
            },
        }
    }

    /// Redo: the inverse replay, moving the entry back to the undo stack.
    /// Returns the updated cursor coordinates; `None` exactly when the
    /// redo stack is empty.
    pub fn redo(&mut self) -> (r: Option<CursorPosition>)
        requires
            old(self)@.wf(),
        ensures
            final(self)@.wf(),
            r is Some <==> redo_applies(old(self)@),
            redo_applies(old(self)@) ==> final(self)@ == view_update_tr(redo_tr(old(self)@))
                && (r->0).0 as int == cursor_xy(redo_tr(old(self)@)).0 && (r->0).1 as int
                == cursor_xy(redo_tr(old(self)@)).1,
            !redo_applies(old(self)@) ==> final(self)@ == redo_tr(old(self)@),
    {
        let ghost m0 = self@;
        proof {
            crate::model::lemma_redo_tr_wf(m0);
        }
        self.commit_current_action();
        match self.redo_stack.pop() {
            None => {
                proof {
                    assert(self@ =~~= redo_tr(m0));
                }
                None
            },
            Some(entry) => {
                proof {
                    assert(entry@ == commit_tr(m0).redo.last());
                    assert(stack_model(self.redo_stack@) =~= commit_tr(m0).redo.drop_last());
                    crate::model::lemma_redo_stack_ok_pop(
                        self@.text.len() as int,
                        commit_tr(m0).redo,
                    );
                }
                let tlen = char_count(entry.text.as_str());
                match entry.typ {
                    ActionType::Insert => {
                        let startp = entry.cursor_position_byte - 1;
                        self.buffer.insert(startp, entry.text.as_str());
                        self.text_position = startp + tlen;
                        self.undo_stack.push(entry);
                        proof {
                            assert(self@.undo =~= redo_tr(m0).undo);
                            assert(self@ =~~= redo_tr(m0));
                        }
                        Some(self.update_cursor_position_and_view())
                    },
                    ActionType::Delete => {
                        let startp = entry.cursor_position_byte - tlen;
                        let _removed = self.buffer.remove(startp, entry.cursor_position_byte);
                        self.text_position = startp;
                        self.undo_stack.push(entry);
                        proof {
                            assert(self@.undo =~= redo_tr(m0).undo);
                            assert(self@ =~~= redo_tr(m0));
                        }
                        Some(self.update_cursor_position_and_view())
                    },
                    ActionType::MoveCursor => {
                        self.text_position = entry.cursor_position_byte;
                        self.undo_stack.push(entry);
                        proof {
                            assert(self@.undo =~= redo_tr(m0).undo);
                            assert(self@ =~~= redo_tr(m0));
                        }
                        Some(self.update_cursor_position_and_view())
                    },
                    ActionType::NoAction => {
                        // a well-formed stack never holds a blank entry
                        proof {
                            assert(false);
                        }
                        None
                    },
                }
            },
        }
    }
}



/// A logical editing command, as delivered by the input dispatcher.  The
/// mapping from physical key events to these commands lives outside the
/// core.
#[derive(PartialEq, Eq, Structural, Clone, Copy, Debug)]
pub enum EditorCommand {
    InsertChar(char),
    InsertNewline,
    DeleteBackward,
    MoveRight,
    MoveLeft,
    MoveUp,
    MoveDown,
    MoveWordRight,
    MoveWordLeft,
    PageUp,
    PageDown,
    Home,
    End,
    Undo,
    Redo,
}

/// The panel after one command: edits and motions reveal the cursor;
/// undo/redo reveal it only when an entry was replayed.
pub open spec fn apply_tr(m: PanelModel, cmd: EditorCommand) -> PanelModel {
    match cmd {
        EditorCommand::InsertChar(c) => view_update_tr(type_char_tr(m, c, false)),
        EditorCommand::InsertNewline => view_update_tr(type_char_tr(m, '\n', true)),
        EditorCommand::DeleteBackward => view_update_tr(backspace_tr(m)),
        EditorCommand::MoveRight => view_update_tr(
            motion_tr(
                m,
                if m.text_position < m.text.len() {
                    m.text_position + 1
                } else {
                    m.text_position
                },
            ),
        ),
        EditorCommand::MoveLeft => view_update_tr(
            motion_tr(
                m,
                if m.text_position > 0 {
                    m.text_position - 1
                } else {
                    0
                },
            ),
        ),
        EditorCommand::MoveUp => view_update_tr(
            motion_tr(m, crate::motion::line_up_pos(m.text, m.text_position)),
        ),
        EditorCommand::MoveDown => view_update_tr(
            motion_tr(m, crate::motion::line_down_pos(m.text, m.text_position)),
        ),
        EditorCommand::MoveWordRight => view_update_tr(
            motion_tr(m, crate::motion::word_right_pos(m.text, m.text_position)),
        ),
        EditorCommand::MoveWordLeft => view_update_tr(
            motion_tr(m, crate::motion::word_left_pos(m.text, m.text_position)),
        ),
        EditorCommand::PageUp => view_update_tr(
            motion_tr(
                m,
                crate::motion::line_up_n(m.text, m.text_position, (m.height - 1) as nat),
            ),
        ),
        EditorCommand::PageDown => view_update_tr(
            motion_tr(
                m,
                crate::motion::line_down_n(m.text, m.text_position, (m.height - 1) as nat),
            ),
        ),
        EditorCommand::Home => view_update_tr(motion_tr(m, 0)),
        EditorCommand::End => view_update_tr(motion_tr(m, m.text.len() as int)),
        EditorCommand::Undo => if undo_applies(m) {
            view_update_tr(undo_tr(m))
        } else {
            undo_tr(m)
        },
        EditorCommand::Redo => if redo_applies(m) {
            view_update_tr(redo_tr(m))
        } else {
            redo_tr(m)
        },
    }
}

/// Whether a command reports updated cursor coordinates: every edit and
/// motion does; undo and redo only when an entry was replayed.
pub open spec fn apply_reports(m: PanelModel, cmd: EditorCommand) -> bool {
    match cmd {
        EditorCommand::Undo => undo_applies(m),
        EditorCommand::Redo => redo_applies(m),
        _ => true,
    }
}

impl Panel {
    /// Processes one logical command: mutates the document, cursor and
    /// history per the command's transition, reveals the cursor, and
    /// returns its screen coordinates (`None` when an undo or redo had
    /// nothing to replay).
    pub fn apply(&mut self, cmd: EditorCommand) -> (r: Option<CursorPosition>)
        requires
            old(self)@.wf(),
            matches!(cmd, EditorCommand::InsertChar(_) | EditorCommand::InsertNewline)
                ==> old(self)@.text.len() + 1 <= MAX_TEXT,
        ensures
            final(self)@.wf(),
            final(self)@ == apply_tr(old(self)@, cmd),
            r is Some <==> apply_reports(old(self)@, cmd),
            r is Some ==> (r->0).0 as int == cursor_xy_raw(final(self)@).0 && (r->0).1 as int
                == cursor_xy_raw(final(self)@).1,
    {
        broadcast use crate::model::lemma_xy_after_update;

        match cmd {
            EditorCommand::InsertChar(c) => {
                self.insert_char(c);
                let ghost mp = self@;
                let rr = self.update_cursor_position_and_view();
                proof {
                    assert(cursor_xy_raw(view_update_tr(mp)) == cursor_xy(mp));
                }
                Some(rr)
            },
            EditorCommand::InsertNewline => {
                self.insert_newline();
                let ghost mp = self@;
                let rr = self.update_cursor_position_and_view();
                proof {
                    assert(cursor_xy_raw(view_update_tr(mp)) == cursor_xy(mp));
                }
                Some(rr)
            },
            EditorCommand::DeleteBackward => {
                self.backspace();
                let ghost mp = self@;
                let rr = self.update_cursor_position_and_view();
                proof {
                    assert(cursor_xy_raw(view_update_tr(mp)) == cursor_xy(mp));
                }
                Some(rr)
            },
            EditorCommand::MoveRight => Some(self.move_right()),
            EditorCommand::MoveLeft => Some(self.move_left()),
            EditorCommand::MoveUp => Some(self.move_up()),
            EditorCommand::MoveDown => Some(self.move_down()),
            EditorCommand::MoveWordRight => Some(self.move_word_right()),
            EditorCommand::MoveWordLeft => Some(self.move_word_left()),
            EditorCommand::PageUp => Some(self.page_up()),
            EditorCommand::PageDown => Some(self.page_down()),
            EditorCommand::Home => Some(self.move_home()),
            EditorCommand::End => Some(self.move_end()),
            EditorCommand::Undo => self.undo(),
            EditorCommand::Redo => self.redo(),
        }
    }
}

} // verus!
