use yterm::backend::{Plan, Terminals, Window};
use yterm::message::{Event, Message};

#[test]
fn open_call_planned() {
    let t: Terminals<u8> = Terminals::new();
    assert_eq!(
        t.plan(&Message::Call(7, Event::Testing)),
        Plan::Open { id: 7, reply: Message::Call(7, Event::Testing) }
    );
}

#[test]
fn key_to_unknown_terminal_ignored() {
    let t: Terminals<u8> = Terminals::new();
    assert_eq!(t.plan(&Message::Cast(Event::KeyInput(0, 'a'))), Plan::Ignore);
}

#[test]
fn key_to_open_terminal_forwarded() {
    let mut t: Terminals<&str> = Terminals::new();
    t.attach(3, "pty3");
    assert_eq!(t.plan(&Message::Cast(Event::KeyInput(3, 'a'))), Plan::Forward { id: 3, ch: 'a' });
    assert_eq!(t.plan(&Message::Cast(Event::KeyInput(4, 'a'))), Plan::Ignore);
    assert_eq!(t.get(3), Some(&"pty3"));
    assert_eq!(t.get(4), None);
}

#[test]
fn other_requests_ignored() {
    let mut t: Terminals<u8> = Terminals::new();
    t.attach(1, 0);
    assert_eq!(t.plan(&Message::Cast(Event::Testing)), Plan::Ignore);
    assert_eq!(t.plan(&Message::Cast(Event::WindowWrite(1, "x".to_string()))), Plan::Ignore);
    assert_eq!(t.plan(&Message::Call(1, Event::KeyInput(1, 'a'))), Plan::Ignore);
}

#[test]
fn attach_replaces() {
    let mut t: Terminals<u8> = Terminals::new();
    t.attach(1, 10);
    t.attach(1, 11);
    assert_eq!(t.get(1), Some(&11));
}

#[test]
fn window_message() {
    let w = Window::new(5);
    assert_eq!(w.id, 5);
    assert_eq!(
        w.message("out".to_string()),
        Message::Cast(Event::WindowWrite(5, "out".to_string()))
    );
}
