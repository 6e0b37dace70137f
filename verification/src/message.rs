use vstd::prelude::*;

verus! {

/// An event that the backend and the user interface exchange.
#[derive(Clone, Debug, PartialEq, Eq)]
pub enum Event {
    /// A request that opens a terminal (and its answer).
    Testing,
    /// A character that the user typed into the terminal with the given id.
    KeyInput(u64, char),
    /// Text that the shell of the terminal with the given id wrote.
    WindowWrite(u64, String),
}

/// The envelope of an event: a one-way notice, or a call that waits for an
/// answer carrying the same id.
#[derive(Clone, Debug, PartialEq, Eq)]
pub enum Message {
    Cast(Event),
    Call(u64, Event),
}

} // verus!
