//! Alt-tab for a tiling window manager: the focus history, the decisions the
//! daemon takes on each notification and signal, and the command texts it
//! sends to the window manager.

pub mod command;
pub mod daemon;
pub mod event;
pub mod fault;
pub mod focus;
pub mod guarantees;
pub mod signal;
pub mod text;
pub mod tree;
