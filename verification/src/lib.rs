//! Focus-recency tracking for an i3-style window manager.
//!
//! The library holds the verified core of a small daemon: a stack of window
//! ids ordered by when they were last focused, the router that turns window
//! events into stack updates and title-format commands, and the rendering of
//! those commands into the textual form the window manager accepts. All I/O
//! (the IPC sockets, signals, logging) lives outside the library.

pub mod manager;
pub mod render;
pub mod stack;
