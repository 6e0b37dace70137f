use yterm::message::Event;
use yterm::screen::{glyphs, key_char, window_write_target, Glyph, IMEventHooksRecords, KEY_RETURN};

#[test]
fn return_key() {
    assert_eq!(key_char(65293), Some('\r'));
    assert_eq!(key_char(KEY_RETURN), Some('\r'));
    assert_eq!(key_char(97), None);
}

#[test]
fn window_write_routed() {
    assert_eq!(
        window_write_target(Event::WindowWrite(2, "hi".to_string())),
        Some((2, "hi".to_string()))
    );
    assert_eq!(window_write_target(Event::Testing), None);
    assert_eq!(window_write_target(Event::KeyInput(2, 'a')), None);
}

#[test]
fn glyph_rows() {
    let text: Vec<char> = "ab\nc\n\nd".chars().collect();
    assert_eq!(
        glyphs(&text),
        vec![
            Glyph { ch: 'a', row: 0 },
            Glyph { ch: 'b', row: 0 },
            Glyph { ch: 'c', row: 1 },
            Glyph { ch: 'd', row: 3 },
        ]
    );
    assert_eq!(glyphs(&Vec::new()), Vec::new());
    assert_eq!(glyphs(&vec!['\n']), Vec::new());
}

#[test]
fn hooks_hold_callback() {
    let hooks = IMEventHooksRecords::new(|s: &str| s.len());
    assert_eq!((hooks.connect)("abc"), 3);
}
