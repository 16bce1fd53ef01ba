//! A two-pane note keeper: the rules that keep a selection, a scroll offset
//! and a resizable window consistent, the transformation of markdown into
//! display lines, and the checklist operations on raw note text.

pub mod app;
pub mod laws;
pub mod markdown;
pub mod notes;
pub mod panes;
pub mod text;
pub mod utils;
