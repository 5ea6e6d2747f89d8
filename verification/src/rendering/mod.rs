//! The terminal interface's own state: selectable lists and tables, and the
//! events the interface loop handles.
pub mod main;
pub mod utils;
