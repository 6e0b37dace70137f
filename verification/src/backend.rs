use std::collections::HashMap;
use vstd::prelude::*;

use crate::message::{Event, Message};

verus! {

broadcast use vstd::std_specs::hash::group_hash_axioms;

/// What the backend's main loop does with one request from the user
/// interface.
#[derive(Debug, PartialEq, Eq)]
pub enum Plan {
    /// Open a terminal under `id`, then answer with `reply`.
    Open { id: u64, reply: Message },
    /// Write the typed character to the terminal open under `id`.
    Forward { id: u64, ch: char },
    /// Nothing to do.
    Ignore,
}

/// The plan for `request` when the terminals under the ids in `open` are
/// open: a call to open a terminal is carried out and answered with the same
/// call; a typed character goes to its terminal if that one is open; every
/// other request is ignored.
pub open spec fn plan_for(open: Set<u64>, request: Message) -> Plan {
    match request {
        Message::Call(id, Event::Testing) => Plan::Open { id, reply: Message::Call(id, Event::Testing) },
        Message::Cast(Event::KeyInput(id, ch)) => if open.contains(id) {
            Plan::Forward { id, ch }
        } else {
            Plan::Ignore
        },
        _ => Plan::Ignore,
    }
}

/// The terminals that the backend has open, each under the id of the call
/// that opened it.
pub struct Terminals<H> {
    terminals: HashMap<u64, H>,
}

impl<H> Terminals<H> {
    /// The open terminals, by id.
    pub closed spec fn open(self) -> Map<u64, H> {
        self.terminals@
    }

    /// No terminal open.
    pub fn new() -> (t: Self)
        ensures
            t.open() == Map::<u64, H>::empty(),
    {
        Terminals { terminals: HashMap::new() }
    }

    /// What to do with a request, given the terminals that are open.
    pub fn plan(&self, request: &Message) -> (plan: Plan)
        ensures
            plan == plan_for(self.open().dom(), *request),
            plan matches Plan::Open { id, reply } ==> *request == Message::Call(id, Event::Testing)
                && reply == *request,
            plan matches Plan::Forward { id, ch } ==> *request == Message::Cast(
                Event::KeyInput(id, ch),
            ) && self.open().contains_key(id),
            *request == Message::Call(request->Call_0, Event::Testing) ==> plan == (Plan::Open {
                id: request->Call_0,
                reply: *request,
            }),
    {
        match request {
            Message::Call(id, Event::Testing) => Plan::Open {
                id: *id,
                reply: Message::Call(*id, Event::Testing),
            },
            Message::Cast(Event::KeyInput(id, ch)) => {
                if self.terminals.contains_key(id) {
                    Plan::Forward { id: *id, ch: *ch }
                } else {
                    Plan::Ignore
                }
            },
            _ => Plan::Ignore,
        }
    }

    /// Records a terminal that was opened under `id`; one that was open
    /// under the same id before is replaced.
    pub fn attach(&mut self, id: u64, handle: H)
        ensures
            final(self).open() == old(self).open().insert(id, handle),
    {
        self.terminals.insert(id, handle);
    }

    /// The terminal open under `id`, if any.
    pub fn get(&self, id: u64) -> (handle: Option<&H>)
        ensures
            match handle {
                Some(h) => self.open().contains_key(id) && self.open()[id] == *h,
                None => !self.open().contains_key(id),
            },
    {
        self.terminals.get(&id)
    }
}

/// A terminal is opened only for a call of `Testing`, under that call's id
/// and answered with that same call; every notice (`Cast`), whatever its
/// event, and every call of another event opens nothing. A character is
/// forwarded only for a `KeyInput` notice to a terminal that is open, and
/// only to that terminal.
pub proof fn law_only_open_calls_open(open: Set<u64>, request: Message)
    ensures
        plan_for(open, request) matches Plan::Open { id, reply } ==> request == Message::Call(
            id,
            Event::Testing,
        ) && reply == request,
        plan_for(open, request) matches Plan::Forward { id, ch } ==> request == Message::Cast(
            Event::KeyInput(id, ch),
        ) && open.contains(id),
        request is Cast ==> !(plan_for(open, request) is Open),
{
}

/// Once a terminal is open under an id, the characters typed for that id
/// are forwarded to it, whatever else is open.
pub proof fn law_typed_keys_reach_opened_terminal(open: Set<u64>, id: u64, ch: char)
    ensures
        plan_for(open.insert(id), Message::Cast(Event::KeyInput(id, ch))) == (Plan::Forward {
            id,
            ch,
        }),
{
}

/// A call to open a terminal is always carried out and answered with the
/// same call, whether or not a terminal is open under its id.
pub proof fn law_open_call_is_answered(open: Set<u64>, id: u64)
    ensures
        plan_for(open, Message::Call(id, Event::Testing)) == (Plan::Open {
            id,
            reply: Message::Call(id, Event::Testing),
        }),
{
}

/// The window of a terminal on the backend side: what the shell writes is
/// sent to the user interface under the terminal's id.
pub struct Window {
    pub id: u64,
}

impl Window {
    pub fn new(id: u64) -> (w: Window)
        ensures
            w.id == id,
    {
        Window { id }
    }

    /// The notice that carries text written by the shell to the user
    /// interface.
    pub fn message(&self, s: String) -> (msg: Message)
        ensures
            msg == Message::Cast(Event::WindowWrite(self.id, s)),
    {
        Message::Cast(Event::WindowWrite(self.id, s))
    }
}

} // verus!
