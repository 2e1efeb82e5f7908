//! A text-editing engine: an in-memory document model with efficient
//! insertion and deletion, cursor tracking, and reversible edit history.
//!
//! The engine is presentation-agnostic: a front end drives it through the
//! [`editor::Editor`] facade, which composes a rope-backed [`buffer::TextBuffer`],
//! a [`cursor::Cursor`], and an undo/redo [`history::History`].

pub mod app_state;
pub mod buffer;
pub mod core_engine;
pub mod cursor;
pub mod editor;
pub mod engine;
pub mod file_tree;
pub mod grep;
pub mod grep_panel;
pub mod history;
pub mod paths;
pub mod previews;
pub mod rope;
pub mod sample;
pub mod search;
pub mod search_panel;
pub mod startup;
pub mod tab;
pub mod text;
