//! Parsing of hex-encoded payment identifiers: the path segment of
//! `GET /get-payment/{id}` is 64 hex characters naming 32 bytes.
use vstd::prelude::*;
use vstd::string::StrSliceExecFns;

verus! {

/// Whether `c` is an ASCII hex digit, of either case.
pub open spec fn is_hex_digit(c: char) -> bool {
    let u = c as u32;
    (48 <= u <= 57) || (97 <= u <= 102) || (65 <= u <= 70)
}

/// The value of a hex digit; unspecified garbage elsewhere.
pub open spec fn hex_val(c: char) -> nat
    recommends
        is_hex_digit(c),
{
    let u = c as u32;
    if 48 <= u <= 57 {
        (u - 48) as nat
    } else if 97 <= u <= 102 {
        (u - 87) as nat
    } else if 65 <= u <= 70 {
        (u - 55) as nat
    } else {
        0
    }
}

/// The byte named by two hex digits, high digit first.
pub open spec fn hex_byte(hi: char, lo: char) -> nat {
    16 * hex_val(hi) + hex_val(lo)
}

fn hex_digit_val(c: char) -> (r: Option<u8>)
    ensures
        r is Some <==> is_hex_digit(c),
        r is Some ==> r->Some_0 as nat == hex_val(c),
{
    let u = c as u32;
    if 48 <= u && u <= 57 {
        Some((u - 48) as u8)
    } else if 97 <= u && u <= 102 {
        Some((u - 87) as u8)
    } else if 65 <= u && u <= 70 {
        Some((u - 55) as u8)
    } else {
        None
    }
}

/// Parses a payment identifier: succeeds exactly on 64 hex characters and
/// then yields the 32 bytes they name, in order.
pub fn parse_payment_id(s: &str) -> (r: Option<Vec<u8>>)
    ensures
        r is Some <==> (s@.len() == 64 && (forall|i: int| 0 <= i < 64 ==> is_hex_digit(s@[i]))),
        r is Some ==> r->Some_0@.len() == 32 && (forall|i: int|
            0 <= i < 32 ==> r->Some_0@[i] as nat == hex_byte(s@[2 * i], s@[2 * i + 1])),
{
    if s.unicode_len() != 64 {
        return None;
    }
    let mut bytes: Vec<u8> = Vec::new();
    let mut i: usize = 0;
    while i < 32
        invariant
            i <= 32,
            s@.len() == 64,
            bytes@.len() == i,
            forall|j: int| 0 <= j < 2 * i ==> is_hex_digit(s@[j]),
            forall|j: int| 0 <= j < i ==> bytes@[j] as nat == hex_byte(s@[2 * j], s@[2 * j + 1]),
        decreases 32 - i,
    {
        let hi = s.get_char(2 * i);
        let lo = s.get_char(2 * i + 1);
        let hv = match hex_digit_val(hi) {
            Some(v) => v,
            None => {
                return None;
            },
        };
        let lv = match hex_digit_val(lo) {
            Some(v) => v,
            None => {
                return None;
            },
        };
        bytes.push(16 * hv + lv);
        i = i + 1;
    }
    Some(bytes)
}

} // verus!
