//! The logic of a small terminal emulator: the messages that pass between its
//! backend and its user interface, the bookkeeping of calls that wait for an
//! answer, the terminal's text state, UTF-8 handling of what the shell writes
//! and what the user types, and the decisions that the event loops make.
//!
//! Everything that talks to the operating system or to the widget toolkit
//! lives outside this crate and hands plain values to it.
pub mod backend;
pub mod channel;
pub mod codec;
pub mod conn;
pub mod message;
pub mod relation;
pub mod screen;
pub mod terminal;
