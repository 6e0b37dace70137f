use yterm::message::{Event, Message};
use yterm::relation::{BridgeAction, EventRelation, Response};

#[test]
fn new_relation() {
    let r: EventRelation<u32> = EventRelation::new();
    assert_eq!(r.next(), 0);
}

#[test]
fn ids_count_up() {
    let mut r: EventRelation<&str> = EventRelation::new();
    assert_eq!(r.register("first"), 0);
    assert_eq!(r.register("second"), 1);
    assert_eq!(r.register("third"), 2);
    assert_eq!(r.next(), 3);
}

#[test]
fn answer_reaches_its_caller() {
    let mut r: EventRelation<&str> = EventRelation::new();
    let a = r.register("a");
    let b = r.register("b");
    assert_eq!(r.response(&b, Event::Testing), Response::Delivered("b", Event::Testing));
    assert_eq!(
        r.response(&a, Event::KeyInput(3, 'x')),
        Response::Delivered("a", Event::KeyInput(3, 'x'))
    );
}

#[test]
fn answer_delivered_once() {
    let mut r: EventRelation<u8> = EventRelation::new();
    let id = r.register(9);
    assert_eq!(r.response(&id, Event::Testing), Response::Delivered(9, Event::Testing));
    assert_eq!(r.response(&id, Event::Testing), Response::Unclaimed(Event::Testing));
}

#[test]
fn unknown_answer_unclaimed() {
    let mut r: EventRelation<u8> = EventRelation::new();
    r.register(1);
    let e = Event::WindowWrite(4, "x".to_string());
    assert_eq!(r.response(&42, e.clone()), Response::Unclaimed(e));
    assert_eq!(r.response(&0, Event::Testing), Response::Delivered(1, Event::Testing));
}

#[test]
fn call_registers_and_builds_message() {
    let mut r: EventRelation<char> = EventRelation::new();
    assert_eq!(r.call('w', Event::Testing), Message::Call(0, Event::Testing));
    assert_eq!(r.call('v', Event::Testing), Message::Call(1, Event::Testing));
    assert_eq!(r.next(), 2);
    assert_eq!(r.response(&1, Event::Testing), Response::Delivered('v', Event::Testing));
}

#[test]
fn receive_cast_goes_to_ui() {
    let mut r: EventRelation<u8> = EventRelation::new();
    let ev = Event::WindowWrite(0, "$ ".to_string());
    assert_eq!(r.receive(Message::Cast(ev.clone())), BridgeAction::ToUi(ev));
    assert_eq!(r.next(), 0);
}

#[test]
fn receive_call_answer() {
    let mut r: EventRelation<u8> = EventRelation::new();
    let id = r.register(5);
    assert_eq!(
        r.receive(Message::Call(id, Event::Testing)),
        BridgeAction::Deliver(5, Event::Testing)
    );
    assert_eq!(
        r.receive(Message::Call(id, Event::Testing)),
        BridgeAction::Unanswered(Event::Testing)
    );
}
