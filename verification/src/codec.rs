use vstd::prelude::*;
use vstd::utf8::*;

verus! {

/// The UTF-8 encoding of one character, as `char::encode_utf8` writes it.
pub fn encode_char(c: char) -> (bytes: Vec<u8>)
    ensures
        bytes@ == encode_scalar(c as u32),
{
    let x: u32 = c as u32;
    proof {
        char_is_scalar(c);
    }
    if x <= 0x7F {
        vec![(x & 0x7F) as u8]
    } else if x <= 0x7FF {
        vec![0xC0u8 | ((x >> 6) & 0x1F) as u8, 0x80u8 | (x & 0x3F) as u8]
    } else if x <= 0xFFFF {
        vec![
            0xE0u8 | ((x >> 12) & 0x0F) as u8,
            0x80u8 | ((x >> 6) & 0x3F) as u8,
            0x80u8 | (x & 0x3F) as u8,
        ]
    } else {
        vec![
            0xF0u8 | ((x >> 18) & 0x7) as u8,
            0x80u8 | ((x >> 12) & 0x3F) as u8,
            0x80u8 | ((x >> 6) & 0x3F) as u8,
            0x80u8 | (x & 0x3F) as u8,
        ]
    }
}


/// The encoding of two character sequences one after the other is the
/// encoding of the first followed by the encoding of the second.
pub proof fn lemma_encode_utf8_append(a: Seq<char>, b: Seq<char>)
    ensures
        encode_utf8(a + b) == encode_utf8(a) + encode_utf8(b),
    decreases a.len(),
{
    if a.len() == 0 {
        assert(a + b =~= b);
    } else {
        lemma_encode_utf8_append(a.drop_first(), b);
        assert((a + b).drop_first() =~= a.drop_first() + b);
        assert(encode_utf8(a + b) == encode_scalar(a[0] as u32) + encode_utf8(a.drop_first() + b));
        assert(encode_scalar(a[0] as u32) + (encode_utf8(a.drop_first()) + encode_utf8(b))
            =~= (encode_scalar(a[0] as u32) + encode_utf8(a.drop_first())) + encode_utf8(b));
    }
}

/// What the keyboard side encodes, the shell side decodes back to the same
/// characters: the encoding of any characters is valid UTF-8 and decodes to
/// them.
pub proof fn law_encoding_decodes_back(chars: Seq<char>)
    ensures
        valid_utf8(encode_utf8(chars)),
        decode_utf8(encode_utf8(chars)) == chars,
{
    encode_utf8_valid_utf8(chars);
    encode_utf8_decode_utf8(chars);
}

/// Shell output read in two valid chunks gives the same text as the two
/// chunks read as one.
pub proof fn law_chunks_concatenate(b1: Seq<u8>, b2: Seq<u8>)
    requires
        valid_utf8(b1),
        valid_utf8(b2),
    ensures
        valid_utf8(b1 + b2),
        decode_utf8(b1 + b2) == decode_utf8(b1) + decode_utf8(b2),
{
    let d1 = decode_utf8(b1);
    let d2 = decode_utf8(b2);
    decode_utf8_encode_utf8(b1);
    decode_utf8_encode_utf8(b2);
    lemma_encode_utf8_append(d1, d2);
    assert(b1 + b2 == encode_utf8(d1 + d2));
    law_encoding_decodes_back(d1 + d2);
}

/// Wraps `String::from_utf8`. Its documentation says that it succeeds exactly
/// when the bytes are valid UTF-8, and that the string then holds the
/// characters that the bytes encode.
#[verifier::external_body]
fn string_from_utf8(bytes: Vec<u8>) -> (text: Option<String>)
    ensures
        text is Some <==> valid_utf8(bytes@),
        text matches Some(s) ==> s@ == decode_utf8(bytes@),
{
    match String::from_utf8(bytes) {
        Ok(s) => Some(s),
        Err(_) => None,
    }
}

/// The text that the bytes encode, or `None` where they are not valid UTF-8.
pub fn decode_text(bytes: Vec<u8>) -> (text: Option<String>)
    ensures
        text is Some <==> valid_utf8(bytes@),
        text matches Some(s) ==> s@ == decode_utf8(bytes@),
{
    string_from_utf8(bytes)
}

/// Whether the bytes are valid UTF-8.
pub fn is_valid_utf8(bytes: &Vec<u8>) -> (valid: bool)
    ensures
        valid == valid_utf8(bytes@),
{
    let copy: Vec<u8> = bytes.clone();
    assert(copy@ =~= bytes@);
    string_from_utf8(copy).is_some()
}

/// The character of a decimal digit.
pub open spec fn digit_char(d: nat) -> char {
    if d == 0 {
        '0'
    } else if d == 1 {
        '1'
    } else if d == 2 {
        '2'
    } else if d == 3 {
        '3'
    } else if d == 4 {
        '4'
    } else if d == 5 {
        '5'
    } else if d == 6 {
        '6'
    } else if d == 7 {
        '7'
    } else if d == 8 {
        '8'
    } else {
        '9'
    }
}

/// The decimal digits of a natural number, most significant first, without
/// leading zeros (zero itself is the single digit `0`).
pub open spec fn decimal_digits(n: nat) -> Seq<char>
    decreases n,
{
    if n < 10 {
        seq![digit_char(n)]
    } else {
        decimal_digits(n / 10).push(digit_char(n % 10))
    }
}

/// The decimal notation of an integer, as `to_string` writes it: a minus sign
/// for negative numbers, then the digits of the magnitude.
pub open spec fn decimal(n: int) -> Seq<char> {
    if n < 0 {
        seq!['-'] + decimal_digits((-n) as nat)
    } else {
        decimal_digits(n as nat)
    }
}

/// Whether a character is one of the ASCII digits `0` to `9`.
pub open spec fn is_ascii_digit(c: char) -> bool {
    '0' <= c && c <= '9'
}

/// The number that a string of ASCII digits denotes in base ten, read from
/// the left.
pub open spec fn digits_value(s: Seq<char>) -> int
    decreases s.len(),
{
    if s.len() == 0 {
        0
    } else {
        digits_value(s.drop_last()) * 10 + (s.last() as int - '0' as int)
    }
}

/// A string of digits in canonical form: at least one digit, only digits,
/// and no leading zero unless it is the single digit `0`.
pub open spec fn canonical_digits(s: Seq<char>) -> bool {
    &&& s.len() > 0
    &&& forall|i: int| 0 <= i < s.len() ==> #[trigger] is_ascii_digit(s[i])
    &&& (s[0] == '0' ==> s.len() == 1)
}

proof fn lemma_decimal_digits_read_back(n: nat)
    ensures
        canonical_digits(decimal_digits(n)),
        digits_value(decimal_digits(n)) == n,
        n == 0 <==> decimal_digits(n) == seq!['0'],
    decreases n,
{
    let s = decimal_digits(n);
    if n < 10 {
        assert(s == seq![digit_char(n)]);
        assert(s.drop_last() =~= Seq::<char>::empty());
        assert(digits_value(s.drop_last()) == 0);
        assert(is_ascii_digit(s[0]));
    } else {
        let p = decimal_digits(n / 10);
        lemma_decimal_digits_read_back(n / 10);
        assert(s == p.push(digit_char(n % 10)));
        assert(s.drop_last() =~= p);
        assert(s[0] == p[0]);
        assert forall|i: int| 0 <= i < s.len() implies #[trigger] is_ascii_digit(s[i]) by {
            if i < p.len() {
                assert(s[i] == p[i]);
                assert(is_ascii_digit(p[i]));
            }
        }
        assert(p[0] != '0') by {
            if p[0] == '0' {
                assert(p.len() == 1);
                assert(p =~= seq!['0']);
            }
        }
        assert(s != seq!['0']) by {
            assert(s.len() >= 2);
        }
    }
}

/// The decimal notation of any integer reads back as that integer: for a
/// non-negative number it is a canonical string of digits (no leading zero
/// but for zero itself) whose base-ten value is the number; for a negative
/// number it is a minus sign followed by the canonical digits of the
/// magnitude.
pub proof fn law_decimal_reads_back(n: int)
    ensures
        n >= 0 ==> canonical_digits(decimal(n)) && digits_value(decimal(n)) == n,
        n < 0 ==> decimal(n)[0] == '-' && canonical_digits(decimal(n).drop_first())
            && digits_value(decimal(n).drop_first()) == -n,
{
    if n >= 0 {
        lemma_decimal_digits_read_back(n as nat);
    } else {
        lemma_decimal_digits_read_back((-n) as nat);
        assert(decimal(n).drop_first() =~= decimal_digits((-n) as nat));
    }
}

fn digit_str(d: u64) -> (s: &'static str)
    requires
        d < 10,
    ensures
        s@ == seq![digit_char(d as nat)],
{
    proof {
        reveal_strlit("0");
        reveal_strlit("1");
        reveal_strlit("2");
        reveal_strlit("3");
        reveal_strlit("4");
        reveal_strlit("5");
        reveal_strlit("6");
        reveal_strlit("7");
        reveal_strlit("8");
        reveal_strlit("9");
    }
    if d == 0 {
        "0"
    } else if d == 1 {
        "1"
    } else if d == 2 {
        "2"
    } else if d == 3 {
        "3"
    } else if d == 4 {
        "4"
    } else if d == 5 {
        "5"
    } else if d == 6 {
        "6"
    } else if d == 7 {
        "7"
    } else if d == 8 {
        "8"
    } else {
        "9"
    }
}

fn append_digits(out: &mut String, m: u64)
    ensures
        final(out)@ == old(out)@ + decimal_digits(m as nat),
    decreases m,
{
    if m >= 10 {
        append_digits(out, m / 10);
    }
    out.append(digit_str(m % 10));
    proof {
        if m >= 10 {
            assert(old(out)@ + decimal_digits((m / 10) as nat) + seq![digit_char((m % 10) as nat)]
                =~= old(out)@ + decimal_digits(m as nat));
        } else {
            assert(decimal_digits(m as nat) == seq![digit_char(m as nat)]);
        }
    }
}

/// The decimal notation of a 32-bit integer.
pub fn decimal_string(n: i32) -> (s: String)
    ensures
        s@ == decimal(n as int),
        n >= 0 ==> canonical_digits(s@) && digits_value(s@) == n,
        n < 0 ==> s@[0] == '-' && canonical_digits(s@.drop_first()) && digits_value(
            s@.drop_first(),
        ) == -(n as int),
{
    proof {
        law_decimal_reads_back(n as int);
    }
    let mut out = String::new();
    let wide: i64 = n as i64;
    if wide < 0 {
        proof {
            reveal_strlit("-");
        }
        out.append("-");
        append_digits(&mut out, (-wide) as u64);
    } else {
        append_digits(&mut out, wide as u64);
    }
    assert(out@ =~= decimal(n as int));
    out
}

} // verus!
