//! Bytes as hexadecimal digits, as the editable text shows raw bytes.

use vstd::prelude::*;

verus! {

/// The digit for a number below 16, in lower case.
pub open spec fn digit_of(nibble: int) -> u8 {
    if nibble < 10 {
        (48 + nibble) as u8
    } else {
        (87 + nibble) as u8
    }
}

/// True for `0` to `9`, `a` to `f` and `A` to `F`.
pub open spec fn is_digit(c: u8) -> bool {
    (48 <= c <= 57) || (97 <= c <= 102) || (65 <= c <= 70)
}

/// The number that a digit stands for.
pub open spec fn value_of(c: u8) -> int {
    if 48 <= c <= 57 {
        c - 48
    } else if 97 <= c <= 102 {
        c - 87
    } else {
        c - 55
    }
}

/// Two digits for each byte, the high half first.
pub open spec fn hex_of(bytes: Seq<u8>) -> Seq<u8> {
    Seq::new(
        2 * bytes.len(),
        |i: int|
            if i % 2 == 0 {
                digit_of(bytes[i / 2] as int / 16)
            } else {
                digit_of(bytes[i / 2] as int % 16)
            },
    )
}

/// True when `text` is an even number of digits.
pub open spec fn is_hex(text: Seq<u8>) -> bool {
    &&& text.len() % 2 == 0
    &&& forall|i: int| 0 <= i < text.len() ==> is_digit(#[trigger] text[i])
}

/// One byte for each two digits.
pub open spec fn bytes_of(text: Seq<u8>) -> Seq<u8> {
    Seq::new(
        text.len() / 2,
        |i: int| (value_of(text[2 * i]) * 16 + value_of(text[2 * i + 1])) as u8,
    )
}

/// Reading the digits of some bytes gives the bytes back.
pub proof fn lemma_bytes_of_hex(bytes: Seq<u8>)
    ensures
        is_hex(hex_of(bytes)),
        hex_of(bytes).len() == 2 * bytes.len(),
        bytes_of(hex_of(bytes)) == bytes,
{
    let text = hex_of(bytes);
    assert(bytes_of(text) =~= bytes) by {
        assert forall|i: int| 0 <= i < bytes.len() implies bytes_of(text)[i] == bytes[i] by {
            assert(text[2 * i] == digit_of(bytes[i] as int / 16));
            assert(text[2 * i + 1] == digit_of(bytes[i] as int % 16));
        }
    }
}

fn digit(nibble: u8) -> (c: u8)
    requires
        nibble < 16,
    ensures
        c == digit_of(nibble as int),
{
    if nibble < 10 {
        48 + nibble
    } else {
        87 + nibble
    }
}

fn digit_value(c: u8) -> (v: Option<u8>)
    ensures
        v is Some <==> is_digit(c),
        v is Some ==> v.unwrap() == value_of(c),
{
    if 48 <= c && c <= 57 {
        Some(c - 48)
    } else if 97 <= c && c <= 102 {
        Some(c - 87)
    } else if 65 <= c && c <= 70 {
        Some(c - 55)
    } else {
        None
    }
}

/// Writes bytes as digits.
pub fn to_hex(bytes: &[u8]) -> (text: Vec<u8>)
    ensures
        text@ == hex_of(bytes@),
{
    let mut text: Vec<u8> = Vec::new();
    let mut i: usize = 0;
    while i < bytes.len()
        invariant
            i <= bytes.len(),
            text@.len() == 2 * i,
            forall|k: int| 0 <= k < 2 * i ==> text@[k] == hex_of(bytes@)[k],
        decreases bytes.len() - i,
    {
        let b = bytes[i];
        text.push(digit(b / 16));
        text.push(digit(b % 16));
        i += 1;
    }
    proof {
        assert(text@ =~= hex_of(bytes@));
    }
    text
}

/// Reads digits as bytes; `None` when `text` is not an even number of digits.
pub fn from_hex(text: &[u8]) -> (bytes: Option<Vec<u8>>)
    ensures
        bytes is Some <==> is_hex(text@),
        bytes is Some ==> bytes.unwrap()@ == bytes_of(text@),
{
    if text.len() % 2 != 0 {
        return None;
    }
    let mut bytes: Vec<u8> = Vec::new();
    let mut i: usize = 0;
    while i < text.len() / 2
        invariant
            text.len() % 2 == 0,
            i <= text.len() / 2,
            bytes@.len() == i,
            forall|k: int| 0 <= k < 2 * i ==> is_digit(#[trigger] text@[k]),
            forall|k: int| 0 <= k < i ==> bytes@[k] == bytes_of(text@)[k],
        decreases text.len() / 2 - i,
    {
        let high = match digit_value(text[2 * i]) {
            Some(v) => v,
            None => { return None; },
        };
        let low = match digit_value(text[2 * i + 1]) {
            Some(v) => v,
            None => { return None; },
        };
        bytes.push(high * 16 + low);
        i += 1;
    }
    proof {
        assert(bytes@ =~= bytes_of(text@));
    }
    Some(bytes)
}

} // verus!
