use yterm::conn::{Connector, LocalConnector};
use yterm::message::{Event, Message};

#[test]
fn sides_taken_once() {
    let mut c = LocalConnector::new();
    assert!(c.server_conn().is_some());
    assert!(c.server_conn().is_none());
    assert!(c.client_attach_to_local_server().is_some());
    assert!(c.client_attach_to_local_server().is_none());
}

#[test]
fn client_to_server() {
    let mut c: Connector = Connector::new();
    let server = c.server_conn().unwrap();
    let client = c.client_attach_to_local_server().unwrap();
    let (_server_tx, mut server_rx) = server.split();
    let (client_tx, _client_rx) = client.split();
    client_tx.try_send(Message::Cast(Event::KeyInput(0, 'q')));
    assert_eq!(server_rx.0.try_recv().ok(), Some(Message::Cast(Event::KeyInput(0, 'q'))));
}

#[test]
fn server_to_client() {
    let mut c = LocalConnector::new();
    let (server_tx, _server_rx) = c.server_conn().unwrap().split();
    let (_client_tx, mut client_rx) = c.client_attach_to_local_server().unwrap().split();
    let cloned = server_tx.clone();
    cloned.try_send(Message::Call(1, Event::Testing));
    assert_eq!(client_rx.0.try_recv().ok(), Some(Message::Call(1, Event::Testing)));
}

#[test]
fn try_send_drops_when_full() {
    let mut c = LocalConnector::new();
    let (tx, _) = c.client_attach_to_local_server().unwrap().split();
    let (_, mut rx) = c.server_conn().unwrap().split();
    for i in 0..150u64 {
        tx.try_send(Message::Call(i, Event::Testing));
    }
    let mut n = 0;
    while rx.0.try_recv().is_ok() {
        n += 1;
    }
    assert_eq!(n, 100);
}
