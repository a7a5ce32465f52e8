//! `application/x-www-form-urlencoded` byte serialisation, used to
//! embed queries in the search request URLs.

use vstd::prelude::*;
use vstd::utf8::encode_utf8;
use crate::episodes::dec_digit;

verus! {

/// The upper-case hexadecimal digit for `n`; only digits below 16
/// arise.
pub open spec fn hex_digit_up(n: int) -> char {
    if n < 10 {
        dec_digit(n)
    } else if n == 10 {
        'A'
    } else if n == 11 {
        'B'
    } else if n == 12 {
        'C'
    } else if n == 13 {
        'D'
    } else if n == 14 {
        'E'
    } else {
        'F'
    }
}

fn hex_digit_up_char(n: u8) -> (c: char)
    requires
        n < 16,
    ensures
        c == hex_digit_up(n as int),
{
    if n < 10 {
        ((n + 0x30) as char)
    } else if n == 10 {
        'A'
    } else if n == 11 {
        'B'
    } else if n == 12 {
        'C'
    } else if n == 13 {
        'D'
    } else if n == 14 {
        'E'
    } else {
        'F'
    }
}

/// The bytes the serialisation keeps unchanged: ASCII alphanumerics and
/// `*`, `-`, `.`, `_`.
pub open spec fn byte_unchanged(b: u8) -> bool {
    ||| (0x30 <= b && b <= 0x39)
    ||| (0x41 <= b && b <= 0x5A)
    ||| (0x61 <= b && b <= 0x7A)
    ||| b == 0x2A
    ||| b == 0x2D
    ||| b == 0x2E
    ||| b == 0x5F
}

/// The serialisation of one byte: unchanged bytes stay themselves, a
/// space becomes `+`, every other byte becomes `%` and two upper-case
/// hex digits.
pub open spec fn encoded_byte(b: u8) -> Seq<char> {
    if byte_unchanged(b) {
        seq![b as char]
    } else if b == 0x20 {
        seq!['+']
    } else {
        seq!['%', hex_digit_up(b as int / 16), hex_digit_up(b as int % 16)]
    }
}

/// The serialisation of a byte sequence.
pub open spec fn form_encoded_bytes(bs: Seq<u8>) -> Seq<char>
    decreases bs.len(),
{
    if bs.len() == 0 {
        Seq::empty()
    } else {
        form_encoded_bytes(bs.drop_last()) + encoded_byte(bs.last())
    }
}

/// The serialisation of a string: its UTF-8 bytes, encoded.
pub open spec fn form_encoded(s: Seq<char>) -> Seq<char> {
    form_encoded_bytes(encode_utf8(s))
}

/// Serialises a string for use in a URL query, as the
/// `application/x-www-form-urlencoded` byte serialiser does.
pub fn encode(input: &str) -> (r: String)
    ensures
        r@ == form_encoded(input@),
{
    let bytes = input.as_bytes_vec();
    let mut out: Vec<char> = Vec::new();
    let mut i: usize = 0;
    while i < bytes.len()
        invariant
            bytes@ == encode_utf8(input@),
            i <= bytes@.len(),
            out@ == form_encoded_bytes(bytes@.take(i as int)),
        decreases bytes@.len() - i,
    {
        let b = bytes[i];
        let ghost pre = out@;
        if (0x30 <= b && b <= 0x39) || (0x41 <= b && b <= 0x5A) || (0x61 <= b && b <= 0x7A) || b
            == 0x2A || b == 0x2D || b == 0x2E || b == 0x5F {
            out.push(b as char);
            proof {
                assert(out@ =~= pre + encoded_byte(b));
            }
        } else if b == 0x20 {
            out.push('+');
            proof {
                assert(out@ =~= pre + encoded_byte(b));
            }
        } else {
            out.push('%');
            out.push(hex_digit_up_char(b / 16));
            out.push(hex_digit_up_char(b % 16));
            proof {
                assert(out@ =~= pre + encoded_byte(b));
            }
        }
        i = i + 1;
        proof {
            assert(bytes@.take(i as int).drop_last() =~= bytes@.take(i - 1));
            assert(bytes@.take(i as int).last() == bytes@[i - 1]);
        }
    }
    proof {
        assert(bytes@.take(bytes@.len() as int) =~= bytes@);
    }
    crate::text::string_from_chars(&out)
}

} // verus!
