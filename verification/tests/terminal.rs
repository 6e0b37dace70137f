use yterm::terminal::{fork_role, Event, ForkRole, State};

#[test]
fn new_state() {
    let s = State::new();
    assert_eq!(s.columns, 40);
    assert_eq!(s.rows, 16);
    assert_eq!(s.font_width, 20);
    assert_eq!(s.font_height, 26);
    assert!(s.texts.is_empty());
}

#[test]
fn recv_char_appends() {
    let mut s = State::new();
    s.recv_char('a');
    s.recv_char('\n');
    s.recv_char('b');
    assert_eq!(s.texts, vec!['a', '\n', 'b']);
    assert_eq!(s.columns, 40);
}

#[test]
fn handle_event_decodes() {
    let mut s = State::new();
    s.recv_char('>');
    s.handle_event(Event::Terminal("héllo\r\n€".as_bytes().to_vec()));
    let expected: Vec<char> = ">héllo\r\n€".chars().collect();
    assert_eq!(s.texts, expected);
}

#[test]
fn handle_event_two_chunks() {
    let mut s = State::new();
    s.handle_event(Event::Terminal(b"ab".to_vec()));
    s.handle_event(Event::Terminal("ç".as_bytes().to_vec()));
    assert_eq!(s.texts, vec!['a', 'b', 'ç']);
}

#[test]
fn winsize_default() {
    assert_eq!(State::new().winsize(), (40, 16));
}

#[test]
fn winsize_truncates() {
    let mut s = State::new();
    s.columns = 70000;
    s.rows = -1;
    assert_eq!(s.winsize(), (70000u32 as u16, 65535));
    assert_eq!(s.winsize().0, 4464);
}

#[test]
fn pixel_size_default() {
    assert_eq!(State::new().pixel_size(), (800, 416));
}

#[test]
fn child_env_default() {
    let env = State::new().child_env();
    assert_eq!(
        env,
        vec![
            ("TERM".to_string(), "term-256color".to_string()),
            ("COLORTERM".to_string(), "truecolor".to_string()),
            ("COLUMNS".to_string(), "40".to_string()),
            ("LINES".to_string(), "16".to_string()),
        ]
    );
}

#[test]
fn child_env_other_size() {
    let mut s = State::new();
    s.columns = 132;
    s.rows = 43;
    let env = s.child_env();
    assert_eq!(env[2].1, "132");
    assert_eq!(env[3].1, "43");
}

#[test]
fn fork_roles() {
    assert_eq!(fork_role(-1), ForkRole::Failed);
    assert_eq!(fork_role(0), ForkRole::Child);
    assert_eq!(fork_role(1234), ForkRole::Parent);
}
