//! The engine of a note-taking application with vim-style editing: the
//! state machine of its screens and modes, and the interpreter that carries
//! the editing commands out on a text buffer.
//!
//! An event is dispatched to the machine ([`glues`], [`notebook`], and the
//! editing modes), which answers with a transition, after asking the
//! database what it needs to know ([`request`], [`db`]). The transition is
//! carried out on what is shown ([`context`]); in an editing mode that is
//! the text buffer ([`editor`], [`command`], [`motion`]).
//!
//! The text buffer is the text area of `tui_textarea`. What it does is
//! stated over a model ([`buffer`]) and taken on trust ([`textarea`]); all
//! else is proved, and [`laws`], [`history`] and [`db::store`] state what
//! holds of every buffer and of every store.

pub mod area;
pub mod buffer;
pub mod command;
pub mod context;
pub mod data;
pub mod db;
pub mod editing_normal_mode;
pub mod editing_visual_mode;
pub mod editor;
pub mod error;
pub mod event;
pub mod glues;
pub mod history;
pub mod laws;
pub mod motion;
pub mod notebook;
pub mod request;
pub mod state;
pub mod step;
pub mod text;
pub mod textarea;
pub mod transition;
pub mod tree;
