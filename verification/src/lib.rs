//! Core of a terminal note browser: a selectable list of note labels with a
//! cyclic cursor, the session state holding the current preview text and
//! status message, the controller state machine that maps input events to
//! state changes and terminal actions, and the geometry that splits the
//! screen into list, preview and status regions.
//!
//! Terminal I/O, the note index, content reads and the external editor are
//! collaborators outside this crate; the controller receives their answers
//! as plain values and decides everything else.

pub mod controller;
pub mod preview;
pub mod render;
pub mod selection_list;
pub mod session;
