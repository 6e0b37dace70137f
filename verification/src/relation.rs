use std::collections::HashMap;
use vstd::prelude::*;

use crate::message::{Event, Message};

verus! {

broadcast use vstd::std_specs::hash::group_hash_axioms;

/// What became of an answer: handed to the waiter that was registered for
/// its id, or left over because no one waits for that id.
#[derive(Debug, PartialEq, Eq)]
pub enum Response<W> {
    Delivered(W, Event),
    Unclaimed(Event),
}

/// What the user interface does with a message from the backend.
#[derive(Debug, PartialEq, Eq)]
pub enum BridgeAction<W> {
    /// A notice: pass the event on to the user interface.
    ToUi(Event),
    /// An answer to a pending call: hand the event to its waiter.
    Deliver(W, Event),
    /// An answer that no pending call expects: it is dropped.
    Unanswered(Event),
}

/// The calls that wait for an answer, each under the id that was sent with
/// it, and the id that the next call will get. Ids count up from zero and
/// are never given out twice.
pub struct EventRelation<W> {
    uniq: u64,
    msg_recv_tx_map: HashMap<u64, W>,
}

/// `after` is `before` with waiter `w` registered under `id`, which is the
/// next id of `before`.
pub open spec fn registers<W>(before: EventRelation<W>, w: W, id: u64, after: EventRelation<W>) -> bool {
    &&& id == before.next_id()
    &&& after.next_id() == id + 1
    &&& after.waiting() == before.waiting().insert(id, w)
}

/// `after` and `r` are what an answer `e` for `id` makes of `before`: the
/// waiter under `id` gets the event and is no longer pending, or, where no
/// one waits under `id`, the event comes back and nothing changes.
pub open spec fn responds<W>(
    before: EventRelation<W>,
    id: u64,
    e: Event,
    r: Response<W>,
    after: EventRelation<W>,
) -> bool {
    &&& after.next_id() == before.next_id()
    &&& if before.waiting().contains_key(id) {
        &&& r == Response::Delivered(before.waiting()[id], e)
        &&& after.waiting() == before.waiting().remove(id)
    } else {
        &&& r == Response::<W>::Unclaimed(e)
        &&& after.waiting() == before.waiting()
    }
}

impl<W> EventRelation<W> {
    /// The id that the next registered call gets.
    pub closed spec fn next_id(self) -> u64 {
        self.uniq
    }

    /// The pending calls, by id.
    pub closed spec fn waiting(self) -> Map<u64, W> {
        self.msg_recv_tx_map@
    }

    /// Every pending id was given out before the next one.
    pub open spec fn wf(self) -> bool {
        forall|k: u64| #[trigger] self.waiting().contains_key(k) ==> k < self.next_id()
    }

    /// No call pending; the first id is zero.
    pub fn new() -> (relation: Self)
        ensures
            relation.wf(),
            relation.next_id() == 0,
            relation.waiting() == Map::<u64, W>::empty(),
    {
        EventRelation { uniq: 0, msg_recv_tx_map: HashMap::new() }
    }

    /// The id that the next registered call gets.
    pub fn next(&self) -> (id: u64)
        ensures
            id == self.next_id(),
    {
        self.uniq
    }

    /// Registers a waiter under the next id and returns that id.
    pub fn register(&mut self, tx: W) -> (id: u64)
        requires
            old(self).wf(),
            old(self).next_id() < u64::MAX,
        ensures
            final(self).wf(),
            registers(*old(self), tx, id, *final(self)),
            !old(self).waiting().contains_key(id),
    {
        let cur = self.uniq;
        self.uniq = self.uniq + 1;
        self.msg_recv_tx_map.insert(cur, tx);
        assert(self.msg_recv_tx_map@ == old(self).msg_recv_tx_map@.insert(cur, tx));
        assert forall|k: u64| #[trigger] self.waiting().contains_key(k) implies k < self.next_id() by {
            if k != cur {
                assert(old(self).waiting().contains_key(k));
            }
        }
        cur
    }

    /// Hands an answer to the waiter registered under `id`, which is no
    /// longer pending afterwards; where no one waits under `id`, the event
    /// comes back.
    pub fn response(&mut self, id: &u64, e: Event) -> (r: Response<W>)
        requires
            old(self).wf(),
        ensures
            final(self).wf(),
            responds(*old(self), *id, e, r, *final(self)),
            old(self).waiting().contains_key(*id) ==> r == Response::Delivered(
                old(self).waiting()[*id],
                e,
            ) && final(self).waiting() == old(self).waiting().remove(*id),
            !old(self).waiting().contains_key(*id) ==> r == Response::<W>::Unclaimed(e)
                && final(self).waiting() == old(self).waiting(),
            final(self).next_id() == old(self).next_id(),
    {
        let cb_opt = self.msg_recv_tx_map.remove(id);
        assert(self.msg_recv_tx_map@ == old(self).msg_recv_tx_map@.remove(*id));
        assert forall|k: u64| #[trigger] self.waiting().contains_key(k) implies k < self.next_id() by {
            assert(old(self).waiting().contains_key(k));
        }
        match cb_opt {
            Some(cb) => {
                assert(old(self).waiting().contains_key(*id) && cb == old(self).waiting()[*id]);
                Response::Delivered(cb, e)
            },
            None => {
                assert(self.waiting() =~= old(self).waiting());
                Response::Unclaimed(e)
            },
        }
    }

    /// Registers a waiter for a call of `e` and returns the message that
    /// carries the call under its new id.
    pub fn call(&mut self, tx: W, e: Event) -> (msg: Message)
        requires
            old(self).wf(),
            old(self).next_id() < u64::MAX,
        ensures
            final(self).wf(),
            registers(*old(self), tx, old(self).next_id(), *final(self)),
            msg == Message::Call(old(self).next_id(), e),
    {
        let cur = self.register(tx);
        Message::Call(cur, e)
    }

    /// What to do with a message from the backend: a notice goes to the user
    /// interface and changes nothing here; a call's answer goes through
    /// `response`.
    pub fn receive(&mut self, msg: Message) -> (action: BridgeAction<W>)
        requires
            old(self).wf(),
        ensures
            final(self).wf(),
            match msg {
                Message::Cast(ev) => {
                    &&& action == BridgeAction::<W>::ToUi(ev)
                    &&& final(self).next_id() == old(self).next_id()
                    &&& final(self).waiting() == old(self).waiting()
                },
                Message::Call(id, ev) => {
                    &&& final(self).next_id() == old(self).next_id()
                    &&& if old(self).waiting().contains_key(id) {
                        &&& action == BridgeAction::Deliver(old(self).waiting()[id], ev)
                        &&& final(self).waiting() == old(self).waiting().remove(id)
                    } else {
                        &&& action == BridgeAction::<W>::Unanswered(ev)
                        &&& final(self).waiting() == old(self).waiting()
                    }
                },
            },
    {
        match msg {
            Message::Cast(ev) => BridgeAction::ToUi(ev),
            Message::Call(id, ev) => match self.response(&id, ev) {
                Response::Delivered(w, e) => BridgeAction::Deliver(w, e),
                Response::Unclaimed(e) => BridgeAction::Unanswered(e),
            },
        }
    }
}

/// A call registered and then answered under the id it got reaches the
/// waiter registered for it, and the pending calls are as before the call.
pub proof fn law_answer_reaches_its_caller<W>(
    a: EventRelation<W>,
    w: W,
    id: u64,
    b: EventRelation<W>,
    e: Event,
    r: Response<W>,
    c: EventRelation<W>,
)
    requires
        a.wf(),
        registers(a, w, id, b),
        responds(b, id, e, r, c),
    ensures
        r == Response::Delivered(w, e),
        c.waiting() == a.waiting(),
{
    assert(!a.waiting().contains_key(id));
    assert(c.waiting() =~= a.waiting());
}

/// An answer for any pending call, not only the latest, reaches the waiter
/// registered under its id; that call alone stops being pending and every
/// other pending call stays as it was.
pub proof fn law_any_pending_answer_delivered<W>(
    a: EventRelation<W>,
    id: u64,
    e: Event,
    r: Response<W>,
    b: EventRelation<W>,
)
    requires
        a.wf(),
        a.waiting().contains_key(id),
        responds(a, id, e, r, b),
    ensures
        r == Response::Delivered(a.waiting()[id], e),
        !b.waiting().contains_key(id),
        forall|k: u64| k != id ==> (#[trigger] b.waiting().contains_key(k) <==> a.waiting().contains_key(k)),
        forall|k: u64| k != id && #[trigger] a.waiting().contains_key(k) ==> b.waiting()[k] == a.waiting()[k],
        b.next_id() == a.next_id(),
{
}

/// Two registrations, one after the other, get consecutive ids: the later
/// one is larger by one, so no id is given out twice.
pub proof fn law_ids_increase<W>(
    a: EventRelation<W>,
    w1: W,
    id1: u64,
    b: EventRelation<W>,
    w2: W,
    id2: u64,
    c: EventRelation<W>,
)
    requires
        registers(a, w1, id1, b),
        registers(b, w2, id2, c),
    ensures
        id2 == id1 + 1,
{
}

/// An id that is given out is not pending at the time: a registration never
/// replaces a waiter.
pub proof fn law_fresh_id<W>(a: EventRelation<W>, w: W, id: u64, b: EventRelation<W>)
    requires
        a.wf(),
        registers(a, w, id, b),
    ensures
        !a.waiting().contains_key(id),
        b.waiting().remove(id) == a.waiting(),
{
    assert(b.waiting().remove(id) =~= a.waiting());
}

/// An answer is delivered at most once: a second answer under the same id
/// comes back unclaimed.
pub proof fn law_answer_delivered_once<W>(
    a: EventRelation<W>,
    id: u64,
    e1: Event,
    r1: Response<W>,
    b: EventRelation<W>,
    e2: Event,
    r2: Response<W>,
    c: EventRelation<W>,
)
    requires
        responds(a, id, e1, r1, b),
        responds(b, id, e2, r2, c),
    ensures
        r2 == Response::<W>::Unclaimed(e2),
        c.waiting() == b.waiting(),
{
}

} // verus!
