//! Undo/redo units.  An action accumulates one contiguous run of same-kind
//! edits; once committed (`done`) it is pushed onto the undo stack and
//! replayed by undo/redo.

use vstd::prelude::*;
use crate::widget::WidgetType;

verus! {

/// A cursor coordinate: the character offset into the document.
pub type CursorPositionByte = usize;

#[derive(PartialEq, Eq, Structural, Clone, Copy, Debug)]
pub enum ActionType {
    NoAction,
    Insert,
    Delete,
    MoveCursor,
}

/// The mathematical model of an [`Action`].
pub ghost struct ActionModel {
    pub typ: ActionType,
    pub widget_id: int,
    pub widget_type: WidgetType,
    pub cursor_position_byte: int,
    pub text: Seq<char>,
    pub done: bool,
    pub started: bool,
}

/// The blank action: no kind, nothing accumulated, not started.
pub open spec fn blank_action() -> ActionModel {
    ActionModel {
        typ: ActionType::NoAction,
        widget_id: 0,
        widget_type: WidgetType::NoWidget,
        cursor_position_byte: 0,
        text: Seq::empty(),
        done: false,
        started: false,
    }
}

#[derive(Debug)]
pub struct Action {
    pub typ: ActionType,
    pub widget_id: usize,
    pub widget_type: WidgetType,
    pub cursor_position_byte: CursorPositionByte,
    pub text: String,
    pub done: bool,
    pub started: bool,
}

impl View for Action {
    type V = ActionModel;

    open spec fn view(&self) -> ActionModel {
        ActionModel {
            typ: self.typ,
            widget_id: self.widget_id as int,
            widget_type: self.widget_type,
            cursor_position_byte: self.cursor_position_byte as int,
            text: self.text@,
            done: self.done,
            started: self.started,
        }
    }
}

impl Action {
    /// A freshly started action of the given kind, anchored at
    /// `cursor_position_byte`, holding `text` so far.
    pub fn new(typ: ActionType, cursor_position_byte: CursorPositionByte, text: String) -> (r:
        Self)
        ensures
            r@ == (ActionModel {
                typ,
                cursor_position_byte: cursor_position_byte as int,
                text: text@,
                started: true,
                ..blank_action()
            }),
    {
        Self {
            typ,
            cursor_position_byte,
            text,
            started: true,
            widget_id: 0,
            widget_type: WidgetType::NoWidget,
            done: false,
        }
    }
}

impl Default for Action {
    /// The blank action.
    fn default() -> (r: Self)
        ensures
            r@ == blank_action(),
    {
        proof {
            reveal_strlit("");
            assert(""@ =~= Seq::<char>::empty());
        }
        Self {
            typ: ActionType::NoAction,
            widget_id: 0,
            widget_type: WidgetType::NoWidget,
            cursor_position_byte: 0,
            text: String::new(),
            done: false,
            started: false,
        }
    }
}

} // verus!
