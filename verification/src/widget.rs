//! Widget-facing enums shared with the surrounding editor shell: the widget
//! kinds, border styles, and the tags that classify colored text spans.

use vstd::prelude::*;
use vstd::string::StringExecFns;

verus! {

#[derive(PartialEq, Eq, Structural, Clone, Copy, Debug)]
pub enum ColorTextTag {
    NoTag,
    Cursor,
    Selection,
    Find,
}

#[derive(PartialEq, Eq, Structural, Clone, Copy, Debug)]
pub enum WidgetType {
    NoWidget,
    Popup,
    Panel,
    StatusBar,
    LineNumber,
    CommandLine,
    _WidgetCount,
}

/// The display name of a widget kind.
pub open spec fn widget_type_name(t: WidgetType) -> Seq<char> {
    match t {
        WidgetType::NoWidget => "None"@,
        WidgetType::Popup => "Popup"@,
        WidgetType::Panel => "Panel"@,
        WidgetType::StatusBar => "StatusBar"@,
        WidgetType::LineNumber => "LineNumber"@,
        WidgetType::CommandLine => "CommandLine"@,
        WidgetType::_WidgetCount => "WidgetCount"@,
    }
}

impl WidgetType {
    /// The display name, for status lines and logs.
    pub fn name(&self) -> (r: String)
        ensures
            r@ == widget_type_name(*self),
    {
        match *self {
            WidgetType::NoWidget => String::from_str("None"),
            WidgetType::Popup => String::from_str("Popup"),
            WidgetType::Panel => String::from_str("Panel"),
            WidgetType::StatusBar => String::from_str("StatusBar"),
            WidgetType::LineNumber => String::from_str("LineNumber"),
            WidgetType::CommandLine => String::from_str("CommandLine"),
            WidgetType::_WidgetCount => String::from_str("WidgetCount"),
        }
    }
}

#[derive(PartialEq, Eq, Structural, Clone, Copy)]
pub enum BorderStyle {
    NoBorder,
    Solid,
    Dashed,
}

/// A border consumes one row and one column on each side.
pub open spec fn border_offset_of(b: BorderStyle) -> int {
    if b == BorderStyle::NoBorder {
        0
    } else {
        1
    }
}

} // verus!
