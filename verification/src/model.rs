//! The mathematical model of an editing panel and the transition functions
//! that every mutating operation is specified against: text splicing,
//! coalesced action accumulation, undo/redo replay, and scroll clamping.

use vstd::prelude::*;
use crate::action::{ActionModel, ActionType, blank_action};
use crate::document::MAX_TEXT;
use crate::lines::{line_of, line_start};
use crate::widget::{BorderStyle, border_offset_of};

verus! {

/// The model of a panel: document text, cursor, viewport geometry and
/// scroll state, and the undo/redo history.
pub ghost struct PanelModel {
    pub text: Seq<char>,
    pub text_position: int,
    pub scroll_lines: int,
    pub scroll_columns: int,
    pub x: int,
    pub y: int,
    pub width: int,
    pub height: int,
    pub border_style: BorderStyle,
    pub undo: Seq<ActionModel>,
    pub redo: Seq<ActionModel>,
    pub current: ActionModel,
}

/// `s` with `t` spliced in at position `i`.
pub open spec fn text_insert(s: Seq<char>, i: int, t: Seq<char>) -> Seq<char> {
    s.take(i) + t + s.skip(i)
}

/// `s` with the half-open range `[a, b)` deleted.
pub open spec fn text_remove(s: Seq<char>, a: int, b: int) -> Seq<char> {
    s.take(a) + s.skip(b)
}

impl PanelModel {
    /// The border inset of this panel.
    pub open spec fn off(self) -> int {
        border_offset_of(self.border_style)
    }

    /// The line the cursor is on.
    pub open spec fn cursor_line(self) -> int {
        line_of(self.text, self.text_position)
    }

    /// The column the cursor is on within its line.
    pub open spec fn cursor_col(self) -> int {
        self.text_position - line_start(self.text, self.cursor_line())
    }

    /// The open (uncommitted) action, when there is one, accumulates a run
    /// of edits that ends exactly at the cursor, and anything undoable was
    /// started after the redo stack was last cleared.
    pub open spec fn action_open_ok(self) -> bool {
        self.current.started ==> {
            &&& self.redo.len() == 0
            &&& (self.current.typ == ActionType::Insert || self.current.typ == ActionType::Delete)
            &&& (self.current.typ == ActionType::Insert ==> self.current.cursor_position_byte >= 1
                && self.current.cursor_position_byte - 1 + self.current.text.len()
                == self.text_position)
            &&& (self.current.typ == ActionType::Delete ==> self.current.cursor_position_byte
                == self.text_position + self.current.text.len() && self.text.len()
                + self.current.text.len() <= MAX_TEXT)
        }
    }

    /// The text length once the open action, if any, has been undone.
    pub open spec fn len_after_current(self) -> int {
        if self.current.started {
            len_after_undo(self.text.len() as int, self.current)
        } else {
            self.text.len() as int
        }
    }

    /// Well-formedness: the cursor is a valid position, sizes stay within
    /// terminal-sized bounds, scroll offsets are bounded, the open action
    /// is consistent, and every recorded undo/redo entry fits the text it
    /// will be replayed against, so a non-empty history always replays.
    pub open spec fn wf(self) -> bool {
        &&& 0 <= self.text_position <= self.text.len() <= MAX_TEXT
        &&& 0 <= self.scroll_lines <= MAX_TEXT + 1
        &&& 0 <= self.scroll_columns <= MAX_TEXT
        &&& 0 <= self.x <= 0xFFFF
        &&& 0 <= self.y <= 0xFFFF
        &&& 1 + 2 * self.off() <= self.width <= 0xFFFF
        &&& 1 + 2 * self.off() <= self.height <= 0xFFFF
        &&& self.action_open_ok()
        &&& undo_stack_ok(self.len_after_current(), self.undo)
        &&& redo_stack_ok(self.text.len() as int, self.redo)
    }
}

/// Committing: when an action is open, it is closed (`done`) and pushed
/// onto the undo stack; otherwise nothing changes.
pub open spec fn commit_tr(m: PanelModel) -> PanelModel {
    if m.current.started {
        PanelModel {
            undo: m.undo.push(ActionModel { done: true, ..m.current }),
            current: blank_action(),
            ..m
        }
    } else {
        m
    }
}

/// Whether typing `c` breaks the open action: a kind change, an explicit
/// break (the Enter key), or a space typed right after a non-space (the
/// word-granularity heuristic).
pub open spec fn typing_breaks(cur: ActionModel, c: char, force_break: bool) -> bool {
    ||| force_break
    ||| cur.typ != ActionType::Insert
    ||| (c == ' ' && cur.text.len() > 0 && cur.text.last() != ' ')
}

/// Typing one character at the cursor: the character is inserted, the
/// cursor advances, and the character either joins the open insert run or
/// starts a new one (committing the old run and clearing the redo stack).
pub open spec fn type_char_tr(m: PanelModel, c: char, force_break: bool) -> PanelModel {
    let text2 = text_insert(m.text, m.text_position, seq![c]);
    let pos2 = m.text_position + 1;
    if m.current.started {
        if typing_breaks(m.current, c, force_break) {
            PanelModel {
                text: text2,
                text_position: pos2,
                undo: m.undo.push(ActionModel { done: true, ..m.current }),
                redo: Seq::empty(),
                current: ActionModel {
                    typ: ActionType::Insert,
                    cursor_position_byte: pos2,
                    text: seq![c],
                    started: true,
                    ..blank_action()
                },
                ..m
            }
        } else {
            PanelModel {
                text: text2,
                text_position: pos2,
                current: ActionModel { text: m.current.text.push(c), ..m.current },
                ..m
            }
        }
    } else {
        PanelModel {
            text: text2,
            text_position: pos2,
            redo: Seq::empty(),
            current: ActionModel {
                typ: ActionType::Insert,
                cursor_position_byte: pos2,
                text: seq![c],
                started: true,
                ..blank_action()
            },
            ..m
        }
    }
}

/// Deleting the character before the cursor: it joins the open delete run
/// or starts a new one; at position 0 nothing changes.
pub open spec fn backspace_tr(m: PanelModel) -> PanelModel {
    if m.text_position > 0 {
        let pos = m.text_position;
        let d = m.text[pos - 1];
        let text2 = text_remove(m.text, pos - 1, pos);
        if m.current.started && m.current.typ == ActionType::Delete {
            PanelModel {
                text: text2,
                text_position: pos - 1,
                current: ActionModel { text: m.current.text.push(d), ..m.current },
                ..m
            }
        } else if m.current.started {
            PanelModel {
                text: text2,
                text_position: pos - 1,
                undo: m.undo.push(ActionModel { done: true, ..m.current }),
                redo: Seq::empty(),
                current: ActionModel {
                    typ: ActionType::Delete,
                    cursor_position_byte: pos,
                    text: seq![d],
                    started: true,
                    ..blank_action()
                },
                ..m
            }
        } else {
            PanelModel {
                text: text2,
                text_position: pos - 1,
                redo: Seq::empty(),
                current: ActionModel {
                    typ: ActionType::Delete,
                    cursor_position_byte: pos,
                    text: seq![d],
                    started: true,
                    ..blank_action()
                },
                ..m
            }
        }
    } else {
        m
    }
}

/// A block insertion recorded as one already-committed action.
pub open spec fn insert_tr(m: PanelModel, p: int, s: Seq<char>) -> PanelModel {
    let m1 = commit_tr(m);
    PanelModel {
        text: text_insert(m1.text, p, s),
        text_position: p + s.len(),
        undo: m1.undo.push(ActionModel {
            typ: ActionType::Insert,
            cursor_position_byte: p + 1,
            text: s,
            done: true,
            started: true,
            ..blank_action()
        }),
        redo: Seq::empty(),
        ..m1
    }
}

/// A block deletion recorded as one already-committed action; the removed
/// text is stored reversed, anchored at the range's end, which is how the
/// character-by-character delete runs store theirs.
pub open spec fn remove_tr(m: PanelModel, a: int, b: int) -> PanelModel {
    let m1 = commit_tr(m);
    PanelModel {
        text: text_remove(m1.text, a, b),
        text_position: a,
        undo: m1.undo.push(ActionModel {
            typ: ActionType::Delete,
            cursor_position_byte: b,
            text: m1.text.subrange(a, b).reverse(),
            done: true,
            started: true,
            ..blank_action()
        }),
        redo: Seq::empty(),
        ..m1
    }
}

/// An explicit cursor jump (find/goto) recorded as one committed action
/// holding the position jumped away from, so that undo returns there.
pub open spec fn jump_record_tr(m: PanelModel, p: int) -> PanelModel {
    let m1 = commit_tr(m);
    PanelModel {
        text_position: p,
        undo: m1.undo.push(ActionModel {
            typ: ActionType::MoveCursor,
            cursor_position_byte: m.text_position,
            text: Seq::empty(),
            done: true,
            started: true,
            ..blank_action()
        }),
        redo: Seq::empty(),
        ..m1
    }
}

/// A plain cursor motion: it commits any open action and moves the cursor,
/// creating no undo entry of its own.
pub open spec fn motion_tr(m: PanelModel, p: int) -> PanelModel {
    let m1 = commit_tr(m);
    PanelModel { text_position: p, ..m1 }
}

/// Whether replaying `a` backward on a text of length `len` stays in
/// bounds (and, for a re-insertion, within the size cap).
pub open spec fn undo_applicable(len: int, a: ActionModel) -> bool {
    match a.typ {
        ActionType::Insert => a.cursor_position_byte >= 1 && a.cursor_position_byte - 1
            + a.text.len() <= len,
        ActionType::Delete => a.text.len() <= a.cursor_position_byte && a.cursor_position_byte
            - a.text.len() <= len && len + a.text.len() <= MAX_TEXT,
        ActionType::MoveCursor => 0 <= a.cursor_position_byte <= len,
        ActionType::NoAction => false,
    }
}

/// The text length after replaying `a` backward.
pub open spec fn len_after_undo(len: int, a: ActionModel) -> int {
    match a.typ {
        ActionType::Insert => len - a.text.len(),
        ActionType::Delete => len + a.text.len(),
        ActionType::MoveCursor => len,
        ActionType::NoAction => len,
    }
}

/// Every entry of the undo stack, replayed newest first, fits the text it
/// will meet: the stack never holds an entry that undoing would take out
/// of bounds.
pub open spec fn undo_stack_ok(len: int, stack: Seq<ActionModel>) -> bool
    decreases stack.len(),
{
    stack.len() == 0 || {
        let a = stack.last();
        undo_applicable(len, a) && undo_stack_ok(len_after_undo(len, a), stack.drop_last())
    }
}

/// Whether `undo` replays an entry: there is something to pop once the
/// open action is committed.
pub open spec fn undo_applies(m: PanelModel) -> bool {
    m.current.started || m.undo.len() > 0
}

/// Undoing: commit the open action, pop the newest undo entry, replay it
/// backward, and park it on the redo stack.  On a well-formed panel the
/// entry always fits (see `undo_stack_ok`), so a non-empty history always
/// replays.
pub open spec fn undo_tr(m: PanelModel) -> PanelModel {
    let m1 = commit_tr(m);
    if m1.undo.len() == 0 {
        m1
    } else {
        let a = m1.undo.last();
        let rest = m1.undo.drop_last();
        match a.typ {
            ActionType::Insert => PanelModel {
                text: text_remove(
                    m1.text,
                    a.cursor_position_byte - 1,
                    a.cursor_position_byte - 1 + a.text.len(),
                ),
                text_position: a.cursor_position_byte - 1,
                undo: rest,
                redo: m1.redo.push(a),
                ..m1
            },
            ActionType::Delete => PanelModel {
                text: text_insert(
                    m1.text,
                    a.cursor_position_byte - a.text.len(),
                    a.text.reverse(),
                ),
                text_position: a.cursor_position_byte,
                undo: rest,
                redo: m1.redo.push(a),
                ..m1
            },
            ActionType::MoveCursor => PanelModel {
                text_position: a.cursor_position_byte,
                undo: rest,
                redo: m1.redo.push(a),
                ..m1
            },
            ActionType::NoAction => PanelModel { undo: rest, ..m1 },
        }
    }
}

/// Whether replaying `a` forward on a text of length `len` stays in
/// bounds (and, for an insertion, within the size cap).
pub open spec fn redo_applicable(len: int, a: ActionModel) -> bool {
    match a.typ {
        ActionType::Insert => a.cursor_position_byte >= 1 && a.cursor_position_byte - 1 <= len
            && len + a.text.len() <= MAX_TEXT,
        ActionType::Delete => a.text.len() <= a.cursor_position_byte && a.cursor_position_byte
            <= len,
        ActionType::MoveCursor => 0 <= a.cursor_position_byte <= len,
        ActionType::NoAction => false,
    }
}

/// The text length after replaying `a` forward.
pub open spec fn len_after_redo(len: int, a: ActionModel) -> int {
    match a.typ {
        ActionType::Insert => len + a.text.len(),
        ActionType::Delete => len - a.text.len(),
        ActionType::MoveCursor => len,
        ActionType::NoAction => len,
    }
}

/// Every entry of the redo stack, replayed newest first, fits the text it
/// will meet.
pub open spec fn redo_stack_ok(len: int, stack: Seq<ActionModel>) -> bool
    decreases stack.len(),
{
    stack.len() == 0 || {
        let a = stack.last();
        redo_applicable(len, a) && redo_stack_ok(len_after_redo(len, a), stack.drop_last())
    }
}

/// Whether `redo` replays an entry: the redo stack is not empty.  (An open
/// action implies an empty redo stack, so committing first changes
/// nothing.)
pub open spec fn redo_applies(m: PanelModel) -> bool {
    m.redo.len() > 0
}

/// Redoing: the inverse replay, moving the entry back to the undo stack.
pub open spec fn redo_tr(m: PanelModel) -> PanelModel {
    let m1 = commit_tr(m);
    if m1.redo.len() == 0 {
        m1
    } else {
        let a = m1.redo.last();
        let rest = m1.redo.drop_last();
        match a.typ {
            ActionType::Insert => PanelModel {
                text: text_insert(m1.text, a.cursor_position_byte - 1, a.text),
                text_position: a.cursor_position_byte - 1 + a.text.len(),
                redo: rest,
                undo: m1.undo.push(a),
                ..m1
            },
            ActionType::Delete => PanelModel {
                text: text_remove(
                    m1.text,
                    a.cursor_position_byte - a.text.len(),
                    a.cursor_position_byte,
                ),
                text_position: a.cursor_position_byte - a.text.len(),
                redo: rest,
                undo: m1.undo.push(a),
                ..m1
            },
            ActionType::MoveCursor => PanelModel {
                text_position: a.cursor_position_byte,
                redo: rest,
                undo: m1.undo.push(a),
                ..m1
            },
            ActionType::NoAction => PanelModel { redo: rest, ..m1 },
        }
    }
}

/// Pushing a fitting entry keeps an undo stack valid.
pub proof fn lemma_undo_stack_ok_push(len: int, s: Seq<ActionModel>, a: ActionModel)
    requires
        undo_applicable(len, a),
        undo_stack_ok(len_after_undo(len, a), s),
    ensures
        undo_stack_ok(len, s.push(a)),
{
    assert(s.push(a).last() == a);
    assert(s.push(a).drop_last() =~= s);
}

/// A valid undo stack's newest entry fits, and the rest stays valid.
pub proof fn lemma_undo_stack_ok_pop(len: int, s: Seq<ActionModel>)
    requires
        undo_stack_ok(len, s),
        s.len() > 0,
    ensures
        undo_applicable(len, s.last()),
        undo_stack_ok(len_after_undo(len, s.last()), s.drop_last()),
{
}

/// Pushing a fitting entry keeps a redo stack valid.
pub proof fn lemma_redo_stack_ok_push(len: int, s: Seq<ActionModel>, a: ActionModel)
    requires
        redo_applicable(len, a),
        redo_stack_ok(len_after_redo(len, a), s),
    ensures
        redo_stack_ok(len, s.push(a)),
{
    assert(s.push(a).last() == a);
    assert(s.push(a).drop_last() =~= s);
}

/// A valid redo stack's newest entry fits, and the rest stays valid.
pub proof fn lemma_redo_stack_ok_pop(len: int, s: Seq<ActionModel>)
    requires
        redo_stack_ok(len, s),
        s.len() > 0,
    ensures
        redo_applicable(len, s.last()),
        redo_stack_ok(len_after_redo(len, s.last()), s.drop_last()),
{
}

/// Committing preserves well-formedness.
pub proof fn lemma_commit_wf(m: PanelModel)
    requires
        m.wf(),
    ensures
        commit_tr(m).wf(),
{
    if m.current.started {
        let a = ActionModel { done: true, ..m.current };
        lemma_undo_stack_ok_push(m.text.len() as int, m.undo, a);
    }
}

/// Typing preserves well-formedness.
pub proof fn lemma_type_char_wf(m: PanelModel, c: char, force_break: bool)
    requires
        m.wf(),
        m.text.len() + 1 <= MAX_TEXT,
    ensures
        type_char_tr(m, c, force_break).wf(),
{
    assert(text_insert(m.text, m.text_position, seq![c]).len() == m.text.len() + 1);
    if m.current.started && typing_breaks(m.current, c, force_break) {
        let a = ActionModel { done: true, ..m.current };
        lemma_undo_stack_ok_push(m.text.len() as int, m.undo, a);
    }
}

/// Backspace preserves well-formedness.
pub proof fn lemma_backspace_wf(m: PanelModel)
    requires
        m.wf(),
    ensures
        backspace_tr(m).wf(),
{
    if m.text_position > 0 {
        assert(text_remove(m.text, m.text_position - 1, m.text_position).len() == m.text.len()
            - 1);
        if m.current.started && m.current.typ != ActionType::Delete {
            let a = ActionModel { done: true, ..m.current };
            lemma_undo_stack_ok_push(m.text.len() as int, m.undo, a);
        }
    }
}

/// A block insertion preserves well-formedness.
pub proof fn lemma_insert_tr_wf(m: PanelModel, p: int, s: Seq<char>)
    requires
        m.wf(),
        0 <= p <= m.text.len(),
        m.text.len() + s.len() <= MAX_TEXT,
    ensures
        insert_tr(m, p, s).wf(),
{
    lemma_commit_wf(m);
    let m1 = commit_tr(m);
    let a = ActionModel {
        typ: ActionType::Insert,
        cursor_position_byte: p + 1,
        text: s,
        done: true,
        started: true,
        ..blank_action()
    };
    assert(text_insert(m1.text, p, s).len() == m.text.len() + s.len());
    lemma_undo_stack_ok_push(m.text.len() + s.len() as int, m1.undo, a);
}

/// A block deletion preserves well-formedness.
pub proof fn lemma_remove_tr_wf(m: PanelModel, a: int, b: int)
    requires
        m.wf(),
        0 <= a <= b <= m.text.len(),
    ensures
        remove_tr(m, a, b).wf(),
{
    lemma_commit_wf(m);
    let m1 = commit_tr(m);
    let entry = ActionModel {
        typ: ActionType::Delete,
        cursor_position_byte: b,
        text: m1.text.subrange(a, b).reverse(),
        done: true,
        started: true,
        ..blank_action()
    };
    assert(text_remove(m1.text, a, b).len() == m.text.len() - (b - a));
    assert(entry.text.len() == b - a);
    lemma_undo_stack_ok_push(m.text.len() - (b - a) as int, m1.undo, entry);
}

/// Recording a cursor jump preserves well-formedness.
pub proof fn lemma_jump_tr_wf(m: PanelModel, p: int)
    requires
        m.wf(),
        0 <= p <= m.text.len(),
    ensures
        jump_record_tr(m, p).wf(),
{
    lemma_commit_wf(m);
    let m1 = commit_tr(m);
    let entry = ActionModel {
        typ: ActionType::MoveCursor,
        cursor_position_byte: m.text_position,
        text: Seq::empty(),
        done: true,
        started: true,
        ..blank_action()
    };
    lemma_undo_stack_ok_push(m.text.len() as int, m1.undo, entry);
}

/// A plain motion preserves well-formedness.
pub proof fn lemma_motion_tr_wf(m: PanelModel, p: int)
    requires
        m.wf(),
        0 <= p <= m.text.len(),
    ensures
        motion_tr(m, p).wf(),
{
    lemma_commit_wf(m);
}

/// Undoing preserves well-formedness: the stack invariant hands each
/// popped entry a text it fits, and the entry, replayed backward, fits
/// the redo stack it lands on.
pub proof fn lemma_undo_tr_wf(m: PanelModel)
    requires
        m.wf(),
    ensures
        undo_tr(m).wf(),
{
    lemma_commit_wf(m);
    let m1 = commit_tr(m);
    if m1.undo.len() > 0 {
        let len = m1.text.len() as int;
        lemma_undo_stack_ok_pop(len, m1.undo);
        let a = m1.undo.last();
        let len2 = len_after_undo(len, a);
        match a.typ {
            ActionType::Insert => {
                assert(text_remove(
                    m1.text,
                    a.cursor_position_byte - 1,
                    a.cursor_position_byte - 1 + a.text.len(),
                ).len() == len - a.text.len());
            },
            ActionType::Delete => {
                assert(a.text.reverse().len() == a.text.len());
                assert(text_insert(
                    m1.text,
                    a.cursor_position_byte - a.text.len(),
                    a.text.reverse(),
                ).len() == len + a.text.len());
            },
            ActionType::MoveCursor => {},
            ActionType::NoAction => {
                assert(false);
            },
        }
        if a.typ != ActionType::NoAction {
            lemma_redo_stack_ok_push(len2, m1.redo, a);
        }
    }
}

/// Redoing preserves well-formedness.
pub proof fn lemma_redo_tr_wf(m: PanelModel)
    requires
        m.wf(),
    ensures
        redo_tr(m).wf(),
{
    lemma_commit_wf(m);
    let m1 = commit_tr(m);
    if m1.redo.len() > 0 {
        let len = m1.text.len() as int;
        lemma_redo_stack_ok_pop(len, m1.redo);
        let a = m1.redo.last();
        let len2 = len_after_redo(len, a);
        match a.typ {
            ActionType::Insert => {
                assert(text_insert(m1.text, a.cursor_position_byte - 1, a.text).len() == len
                    + a.text.len());
            },
            ActionType::Delete => {
                assert(text_remove(
                    m1.text,
                    a.cursor_position_byte - a.text.len(),
                    a.cursor_position_byte,
                ).len() == len - a.text.len());
            },
            ActionType::MoveCursor => {},
            ActionType::NoAction => {
                assert(false);
            },
        }
        if a.typ != ActionType::NoAction {
            lemma_undo_stack_ok_push(len2, m1.undo, a);
        }
    }
}

/// The scroll line after revealing the cursor: scroll up to the cursor's
/// line, or down just far enough, else stay.
pub open spec fn scroll_lines_after(m: PanelModel) -> int {
    let l = m.cursor_line();
    let off = m.off();
    if l < m.scroll_lines {
        l
    } else if l > m.scroll_lines + (m.height - 1) - off - off {
        l - (m.height - 1 - off)
    } else {
        m.scroll_lines
    }
}

/// The scroll column after revealing the cursor: scroll left to the
/// cursor's column, or right just far enough, else stay.
pub open spec fn scroll_columns_after(m: PanelModel) -> int {
    let c = m.cursor_col();
    let off = m.off();
    if c < m.scroll_columns {
        c
    } else if c > m.scroll_columns + (m.width - 1) - off - off {
        c - (m.width - 1 - off)
    } else {
        m.scroll_columns
    }
}

/// Revealing the cursor: only the two scroll offsets change.
pub open spec fn view_update_tr(m: PanelModel) -> PanelModel {
    PanelModel {
        scroll_lines: scroll_lines_after(m),
        scroll_columns: scroll_columns_after(m),
        ..m
    }
}

/// The absolute screen coordinates of the cursor after the scroll state of
/// `m` has been brought up to date.
pub open spec fn cursor_xy(m: PanelModel) -> (int, int) {
    let off = m.off();
    (
        m.cursor_col() + off + m.x - scroll_columns_after(m),
        m.cursor_line() + off + m.y - scroll_lines_after(m),
    )
}

/// The absolute screen coordinates read against the current scroll state,
/// without revealing the cursor first.
pub open spec fn cursor_xy_raw(m: PanelModel) -> (int, int) {
    let off = m.off();
    (
        m.cursor_col() + off + m.x - m.scroll_columns,
        m.cursor_line() + off + m.y - m.scroll_lines,
    )
}

/// After revealing the cursor, reading coordinates against the new scroll
/// state gives exactly what the revealing step reported.
pub broadcast proof fn lemma_xy_after_update(m: PanelModel)
    ensures
        #[trigger] cursor_xy_raw(view_update_tr(m)) == cursor_xy(m),
{
}

/// Inserting a block and undoing it restores the document exactly, with
/// the cursor back at the insertion offset.
pub proof fn lemma_insert_undo_round_trip(m: PanelModel, p: int, s: Seq<char>)
    requires
        m.wf(),
        0 <= p <= m.text.len(),
        m.text.len() + s.len() <= MAX_TEXT,
    ensures
        undo_applies(insert_tr(m, p, s)),
        undo_tr(insert_tr(m, p, s)).text == m.text,
        undo_tr(insert_tr(m, p, s)).text_position == p,
{
    let m1 = insert_tr(m, p, s);
    assert(!m1.current.started);
    assert(m1.undo.last().typ == ActionType::Insert);
    assert(text_remove(text_insert(m.text, p, s), p, p + s.len()) =~= m.text);
}

/// Deleting a range and undoing it restores the removed text at the same
/// place, with the cursor after the restored range.
pub proof fn lemma_remove_undo_round_trip(m: PanelModel, a: int, b: int)
    requires
        m.wf(),
        0 <= a <= b <= m.text.len(),
    ensures
        undo_applies(remove_tr(m, a, b)),
        undo_tr(remove_tr(m, a, b)).text == m.text,
        undo_tr(remove_tr(m, a, b)).text_position == b,
{
    let m1 = remove_tr(m, a, b);
    let sub = m.text.subrange(a, b);
    assert(!m1.current.started);
    assert(sub.reverse().reverse() =~= sub);
    assert(text_insert(text_remove(m.text, a, b), a, sub) =~= m.text);
    assert(undo_tr(m1).text =~= m.text);
}

/// `k` successive backspaces.
pub open spec fn backspace_n_tr(m: PanelModel, k: nat) -> PanelModel
    decreases k,
{
    if k == 0 {
        m
    } else {
        backspace_tr(backspace_n_tr(m, (k - 1) as nat))
    }
}

proof fn lemma_backspace_n_shape(m: PanelModel, k: nat)
    requires
        m.wf(),
        !m.current.started,
        1 <= k <= m.text_position,
    ensures
        backspace_n_tr(m, k).text == text_remove(m.text, m.text_position - k, m.text_position),
        backspace_n_tr(m, k).text_position == m.text_position - k,
        backspace_n_tr(m, k).current.started,
        backspace_n_tr(m, k).current.typ == ActionType::Delete,
        backspace_n_tr(m, k).current.cursor_position_byte == m.text_position,
        backspace_n_tr(m, k).current.text == m.text.subrange(
            m.text_position - k,
            m.text_position,
        ).reverse(),
        backspace_n_tr(m, k).undo == m.undo,
    decreases k,
{
    let pos = m.text_position;
    if k == 1 {
        assert(seq![m.text[pos - 1]] =~= m.text.subrange(pos - 1, pos).reverse());
        assert(backspace_n_tr(m, 1) == backspace_tr(m));
    } else {
        lemma_backspace_n_shape(m, (k - 1) as nat);
        let mk = backspace_n_tr(m, (k - 1) as nat);
        let d = mk.text[pos - k];
        assert(d == m.text[pos - k]);
        assert(text_remove(mk.text, pos - k, pos - (k - 1)) =~= text_remove(m.text, pos - k, pos));
        assert(mk.current.text.push(d) =~= m.text.subrange(pos - k, pos).reverse());
    }
}

/// Deleting `k` characters backward, one backspace at a time, and undoing
/// once restores the document and the cursor: the delete run stores its
/// text in reverse order, and the undo re-inserts it reversed again,
/// giving back the original order.
pub proof fn lemma_backspace_run_undo_round_trip(m: PanelModel, k: nat)
    requires
        m.wf(),
        !m.current.started,
        1 <= k <= m.text_position,
    ensures
        undo_applies(backspace_n_tr(m, k)),
        undo_tr(backspace_n_tr(m, k)).text == m.text,
        undo_tr(backspace_n_tr(m, k)).text_position == m.text_position,
{
    lemma_backspace_n_shape(m, k);
    let mk = backspace_n_tr(m, k);
    let pos = m.text_position;
    let sub = m.text.subrange(pos - k, pos);
    let m1 = commit_tr(mk);
    assert(m1.undo.last() == ActionModel { done: true, ..mk.current });
    assert(sub.reverse().reverse() =~= sub);
    assert(text_insert(text_remove(m.text, pos - k, pos), pos - k, sub) =~= m.text);
}

/// Undoing and then typing a fresh character clears the redo stack, so a
/// subsequent redo replays nothing and leaves the document alone.
pub proof fn lemma_redo_stack_invalidation(m: PanelModel, c: char)
    requires
        m.wf(),
    ensures
        type_char_tr(undo_tr(m), c, false).redo.len() == 0,
        !redo_applies(type_char_tr(undo_tr(m), c, false)),
        redo_tr(type_char_tr(undo_tr(m), c, false)).text == type_char_tr(undo_tr(m), c, false).text,
        redo_tr(type_char_tr(undo_tr(m), c, false)).text_position == type_char_tr(
            undo_tr(m),
            c,
            false,
        ).text_position,
{
    let mu = undo_tr(m);
    assert(!mu.current.started);
    let mt = type_char_tr(mu, c, false);
    assert(mt.redo.len() == 0);
    assert(commit_tr(mt).redo.len() == 0);
}

/// After revealing the cursor, its line and column lie inside the
/// viewport's half-open windows.
pub proof fn lemma_scroll_reveals_cursor(m: PanelModel)
    requires
        m.wf(),
    ensures
        view_update_tr(m).scroll_lines <= view_update_tr(m).cursor_line() < view_update_tr(
            m,
        ).scroll_lines + m.height,
        view_update_tr(m).scroll_columns <= view_update_tr(m).cursor_col() < view_update_tr(
            m,
        ).scroll_columns + m.width,
{
    crate::lines::lemma_pos_in_line(m.text, m.text_position);
}

/// After revealing the cursor, the visibility check holds: the scroll
/// window contains the cursor.
pub proof fn lemma_cursor_visible_after_update(m: PanelModel)
    requires
        m.wf(),
    ensures
        view_update_tr(m).scroll_lines <= view_update_tr(m).cursor_line() <= view_update_tr(
            m,
        ).scroll_lines + m.height - 1,
        view_update_tr(m).scroll_columns <= view_update_tr(m).cursor_col() <= view_update_tr(
            m,
        ).scroll_columns + m.width - 1,
{
    lemma_scroll_reveals_cursor(m);
}

/// Reading the cursor's screen coordinates without revealing it gives the
/// same answer as revealing it, whenever the scroll state is already
/// consistent.
pub proof fn lemma_view_query_consistent(m: PanelModel)
    requires
        view_update_tr(m) == m,
    ensures
        cursor_xy_raw(m) == cursor_xy(m),
{
    assert(view_update_tr(m).scroll_lines == m.scroll_lines);
    assert(view_update_tr(m).scroll_columns == m.scroll_columns);
}

} // verus!
