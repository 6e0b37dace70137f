use yterm::codec::{decimal_string, decode_text, encode_char, is_valid_utf8};

#[test]
fn encode_char_ascii() {
    assert_eq!(encode_char('a'), vec![0x61]);
    assert_eq!(encode_char('\r'), vec![0x0d]);
}

#[test]
fn encode_char_two_bytes() {
    assert_eq!(encode_char('é'), vec![0xC3, 0xA9]);
    assert_eq!(encode_char('\u{7FF}'), vec![0xDF, 0xBF]);
}

#[test]
fn encode_char_three_bytes() {
    assert_eq!(encode_char('€'), vec![0xE2, 0x82, 0xAC]);
    assert_eq!(encode_char('あ'), vec![0xE3, 0x81, 0x82]);
}

#[test]
fn encode_char_four_bytes() {
    assert_eq!(encode_char('😀'), vec![0xF0, 0x9F, 0x98, 0x80]);
    assert_eq!(encode_char('\u{10FFFF}'), vec![0xF4, 0x8F, 0xBF, 0xBF]);
}

#[test]
fn encode_char_matches_std() {
    for c in ['a', 'ß', 'ह', '中', '𝄞', '\u{80}', '\u{800}', '\u{10000}'] {
        let mut buf = [0u8; 4];
        let expected = c.encode_utf8(&mut buf).as_bytes().to_vec();
        assert_eq!(encode_char(c), expected);
    }
}

#[test]
fn decode_text_valid() {
    assert_eq!(decode_text(b"ls -l\n".to_vec()), Some("ls -l\n".to_string()));
    assert_eq!(decode_text("héllo €".as_bytes().to_vec()), Some("héllo €".to_string()));
    assert_eq!(decode_text(Vec::new()), Some(String::new()));
}

#[test]
fn decode_text_invalid() {
    assert_eq!(decode_text(vec![0xFF]), None);
    // a character cut in the middle
    assert_eq!(decode_text(vec![0xE2, 0x82]), None);
    // an overlong encoding of '/'
    assert_eq!(decode_text(vec![0xC0, 0xAF]), None);
    // a surrogate
    assert_eq!(decode_text(vec![0xED, 0xA0, 0x80]), None);
}

#[test]
fn is_valid_utf8_cases() {
    assert!(is_valid_utf8(&"abc€".as_bytes().to_vec()));
    assert!(!is_valid_utf8(&vec![0x80]));
    assert!(!is_valid_utf8(&vec![b'a', 0xF0, 0x9F]));
}

#[test]
fn encoding_decodes_back() {
    let text: Vec<char> = "echo 日本語 😀".chars().collect();
    let mut bytes: Vec<u8> = Vec::new();
    for c in &text {
        bytes.extend(encode_char(*c));
    }
    let back: Vec<char> = decode_text(bytes).unwrap().chars().collect();
    assert_eq!(back, text);
}

#[test]
fn chunks_concatenate() {
    let a = "prompt$ ".as_bytes().to_vec();
    let b = "ünïcode".as_bytes().to_vec();
    let mut ab = a.clone();
    ab.extend_from_slice(&b);
    let joined = decode_text(ab).unwrap();
    let separate = decode_text(a).unwrap() + &decode_text(b).unwrap();
    assert_eq!(joined, separate);
}

#[test]
fn decimal_string_cases() {
    assert_eq!(decimal_string(0), "0");
    assert_eq!(decimal_string(40), "40");
    assert_eq!(decimal_string(16), "16");
    assert_eq!(decimal_string(-123), "-123");
    assert_eq!(decimal_string(i32::MAX), "2147483647");
    assert_eq!(decimal_string(i32::MIN), "-2147483648");
    for n in [-1000000, -10, -9, -1, 1, 9, 10, 99, 100, 65535] {
        assert_eq!(decimal_string(n), n.to_string());
    }
}
