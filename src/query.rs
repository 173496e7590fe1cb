//! Query strings: decimal numbers, `application/x-www-form-urlencoded` values
//! and the `key=value&...` text that joins them.

use vstd::prelude::*;
use vstd::utf8::{decode_utf8, encode_utf8, encode_utf8_decode_utf8};

verus! {

/// The bytes that form encoding keeps as they are: ASCII letters and digits,
/// `*`, `-`, `.` and `_`.
pub open spec fn kept_byte(b: u8) -> bool {
    b == 0x2a || b == 0x2d || b == 0x2e || (0x30 <= b && b <= 0x39) || (0x41 <= b && b <= 0x5a)
        || b == 0x5f || (0x61 <= b && b <= 0x7a)
}

/// An uppercase hexadecimal digit.
pub open spec fn upper_hex_digit(n: u8) -> char {
    if n < 10 {
        (n + 48) as char
    } else {
        (n + 55) as char
    }
}

/// How form encoding writes one byte: kept, `+` for a space, else `%XX`.
pub open spec fn form_byte(b: u8) -> Seq<char> {
    if kept_byte(b) {
        seq![b as char]
    } else if b == 0x20 {
        seq!['+']
    } else {
        seq!['%', upper_hex_digit(b / 16), upper_hex_digit(b % 16)]
    }
}

pub open spec fn form_encode_bytes(bytes: Seq<u8>) -> Seq<char>
    decreases bytes.len(),
{
    if bytes.len() == 0 {
        Seq::empty()
    } else {
        form_byte(bytes[0]) + form_encode_bytes(bytes.drop_first())
    }
}

/// The form encoding of a text's UTF-8 bytes.
pub open spec fn form_encoded(s: Seq<char>) -> Seq<char> {
    form_encode_bytes(encode_utf8(s))
}

/// Relies on url's `form_urlencoded::byte_serialize`, which writes each byte
/// as `form_byte` says (percent-encoding's uppercase `%XX` table).
#[verifier::external_body]
fn form_encode(s: &str) -> (r: String)
    ensures
        r@ == form_encoded(s@),
{
    url::form_urlencoded::byte_serialize(s.as_bytes()).collect()
}

/// The value of a hexadecimal digit of either case.
pub open spec fn hex_value(c: char) -> u8 {
    if '0' <= c && c <= '9' {
        (c as u32 - 48) as u8
    } else if 'A' <= c && c <= 'F' {
        (c as u32 - 55) as u8
    } else if 'a' <= c && c <= 'f' {
        (c as u32 - 87) as u8
    } else {
        0
    }
}

/// The bytes that a form-encoded text stands for: `%XX` is one byte, `+` a
/// space, any other character itself.
pub open spec fn form_decode_bytes(s: Seq<char>) -> Seq<u8>
    decreases s.len(),
{
    if s.len() == 0 {
        Seq::empty()
    } else if s[0] == '%' && s.len() >= 3 {
        seq![(hex_value(s[1]) * 16 + hex_value(s[2])) as u8] + form_decode_bytes(s.skip(3))
    } else if s[0] == '+' {
        seq![0x20u8] + form_decode_bytes(s.drop_first())
    } else {
        seq![s[0] as u8] + form_decode_bytes(s.drop_first())
    }
}

/// The text that a form-encoded text stands for.
pub open spec fn form_decoded(s: Seq<char>) -> Seq<char> {
    decode_utf8(form_decode_bytes(s))
}

proof fn lemma_decode_form_byte(b: u8, rest: Seq<char>)
    ensures
        form_decode_bytes(form_byte(b) + rest) == seq![b] + form_decode_bytes(rest),
        forall|i: int| 0 <= i < form_byte(b).len() ==> #[trigger] form_byte(b)[i] != ' ',
{
    let s = form_byte(b) + rest;
    if kept_byte(b) {
        assert(s[0] == b as char);
        assert(s.drop_first() =~= rest);
    } else if b == 0x20 {
        assert(s.drop_first() =~= rest);
    } else {
        assert(s.skip(3) =~= rest);
        assert(hex_value(upper_hex_digit(b / 16)) == b / 16);
        assert(hex_value(upper_hex_digit(b % 16)) == b % 16);
        assert((hex_value(s[1]) * 16 + hex_value(s[2])) as u8 == b);
    }
}

proof fn lemma_form_bytes_round_trip(bytes: Seq<u8>)
    ensures
        form_decode_bytes(form_encode_bytes(bytes)) == bytes,
        forall|i: int|
            0 <= i < form_encode_bytes(bytes).len() ==> #[trigger] form_encode_bytes(bytes)[i]
                != ' ',
    decreases bytes.len(),
{
    if bytes.len() > 0 {
        let head = form_byte(bytes[0]);
        let tail = form_encode_bytes(bytes.drop_first());
        lemma_form_bytes_round_trip(bytes.drop_first());
        lemma_decode_form_byte(bytes[0], tail);
        assert(seq![bytes[0]] + bytes.drop_first() =~= bytes);
        assert forall|i: int| 0 <= i < (head + tail).len() implies #[trigger] (head + tail)[i]
            != ' ' by {
            if i >= head.len() {
                assert((head + tail)[i] == tail[i - head.len()]);
            }
        }
    }
}

/// Form encoding leaves no space in the text, and decoding its result gives
/// back the text it was given.
pub proof fn law_form_encoding_round_trip(s: Seq<char>)
    ensures
        !form_encoded(s).contains(' '),
        form_decoded(form_encoded(s)) == s,
{
    lemma_form_bytes_round_trip(encode_utf8(s));
    encode_utf8_decode_utf8(s);
}

pub open spec fn digit_char(d: nat) -> char {
    (d + 48) as char
}

/// `n` in decimal, without leading zeros.
pub open spec fn decimal_of(n: nat) -> Seq<char>
    decreases n,
{
    if n < 10 {
        seq![digit_char(n)]
    } else {
        decimal_of(n / 10) + seq![digit_char(n % 10)]
    }
}

fn digit_str(d: u16) -> (r: &'static str)
    requires
        d < 10,
    ensures
        r@ == seq![digit_char(d as nat)],
{
    proof {
        reveal_strlit("0");
        reveal_strlit("1");
        reveal_strlit("2");
        reveal_strlit("3");
        reveal_strlit("4");
        reveal_strlit("5");
        reveal_strlit("6");
        reveal_strlit("7");
        reveal_strlit("8");
        reveal_strlit("9");
    }
    let r = match d {
        0 => "0",
        1 => "1",
        2 => "2",
        3 => "3",
        4 => "4",
        5 => "5",
        6 => "6",
        7 => "7",
        8 => "8",
        _ => "9",
    };
    assert(r@ =~= seq![digit_char(d as nat)]);
    r
}

/// `n` written in decimal.
pub fn decimal(n: u16) -> (r: String)
    ensures
        r@ == decimal_of(n as nat),
    decreases n,
{
    if n < 10 {
        String::from_str(digit_str(n))
    } else {
        let mut r = decimal(n / 10);
        r.append(digit_str(n % 10));
        r
    }
}

/// One query pair, its value form-encoded.
pub open spec fn pair_text(p: (Seq<char>, Seq<char>)) -> Seq<char> {
    p.0 + seq!['='] + form_encoded(p.1)
}

/// The pairs written as `key=value`, joined by `&`.
pub open spec fn query_of(ps: Seq<(Seq<char>, Seq<char>)>) -> Seq<char>
    decreases ps.len(),
{
    if ps.len() == 0 {
        Seq::empty()
    } else if ps.len() == 1 {
        pair_text(ps[0])
    } else {
        query_of(ps.drop_last()) + seq!['&'] + pair_text(ps.last())
    }
}

pub open spec fn pairs_view(ps: Seq<(String, String)>) -> Seq<(Seq<char>, Seq<char>)> {
    ps.map_values(|p: (String, String)| (p.0@, p.1@))
}

/// Serialises `params` as a query string; keys are written as they are,
/// values form-encoded.
pub fn query_string(params: &Vec<(String, String)>) -> (r: String)
    ensures
        r@ == query_of(pairs_view(params@)),
{
    let mut r = String::new();
    let mut i: usize = 0;
    while i < params.len()
        invariant
            i <= params@.len(),
            r@ == query_of(pairs_view(params@).take(i as int)),
        decreases params@.len() - i,
    {
        let ghost ps = pairs_view(params@);
        assert(ps.take(i + 1).drop_last() =~= ps.take(i as int));
        if i > 0 {
            r.append("&");
            proof { reveal_strlit("&"); }
        }
        let (k, v) = &params[i];
        r.append(k.as_str());
        r.append("=");
        proof { reveal_strlit("="); }
        let e = form_encode(v.as_str());
        r.append(e.as_str());
        i = i + 1;
        assert(r@ =~= query_of(ps.take(i as int)));
    }
    assert(pairs_view(params@).take(params@.len() as int) =~= pairs_view(params@));
    r
}

} // verus!
