//! A verified core for a single-session pomodoro service.
//!
//! The library holds the logic of the service as functions over plain
//! values: the session state machine (`session`), the lifecycle of a
//! one-shot cancellable countdown (`engine`), the parsing of control
//! commands from raw bytes (`command`), and the length-prefixed framing
//! of responses (`frame`). Everything that touches the operating system
//! (the socket listener, the background timer thread, the notification
//! process) lives outside the library and drives these functions with
//! the values it reads.

pub mod command;
pub mod engine;
pub mod frame;
pub mod session;
