//! Core of a terminal text editor: a rope-backed document, cursor and
//! viewport translation, word/line motions, and a coalescing undo/redo log.
//!
//! Positions are measured in Unicode scalar values (chars) from the start of
//! the document; a line boundary is a `'\n'` character.

pub mod action;
pub mod chars;
pub mod command;
pub mod document;
pub mod lines;
pub mod model;
pub mod motion;
pub mod rope_text;
pub mod search;
pub mod strutil;
pub mod view;
pub mod widget;
