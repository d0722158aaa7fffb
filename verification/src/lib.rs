//! Core logic of a small CAD application: the user-input state machine,
//! tool dispatch, pick selection, the menubar and toolbar decisions, the
//! render-kernel message loop, and the `.idaphsprt` part file format.

mod text;

pub mod messages;
pub mod toolbar;
mod outside;
pub mod part_file;
pub mod key_set;
pub mod user_io;
pub mod selection;
pub mod menubar;
pub mod tool;
pub mod kernel;
pub mod input_handler;
