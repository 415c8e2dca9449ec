//! A terminal Pomodoro timer's verified core: the countdown state machine,
//! the configuration editor, the preference codec, and the clock layout
//! arithmetic. Terminal and file I/O live outside this crate.

pub mod codec;
pub mod config;
pub mod laws;
pub mod render;
pub mod session;
pub mod timer;
