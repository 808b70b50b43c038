use vstd::prelude::*;
use crate::error::FromHexError;

verus! {

/// Which letters an encoder writes for the nibbles 10 to 15.
#[derive(Debug, Clone, Copy, PartialEq, Eq, Structural)]
pub enum Case {
    Lower,
    Upper,
}

/// The byte that marks "not a hex digit" in the decoding table.
pub const NOT_HEX: u8 = 255;

/// An ASCII hex digit: `0-9`, `a-f` or `A-F`.
pub open spec fn is_hex_digit(c: u8) -> bool {
    (48 <= c <= 57) || (97 <= c <= 102) || (65 <= c <= 70)
}

/// The nibble a hex digit stands for, or `NOT_HEX` for any other byte.
pub open spec fn nibble_of(c: u8) -> u8 {
    if 48 <= c <= 57 {
        (c - 48) as u8
    } else if 97 <= c <= 102 {
        (c - 87) as u8
    } else if 65 <= c <= 70 {
        (c - 55) as u8
    } else {
        NOT_HEX
    }
}

/// The ASCII digit that encodes nibble `n` (meaningful for `n < 16`).
pub open spec fn digit_of(n: u8, case: Case) -> u8 {
    if n < 10 {
        (48 + n) as u8
    } else if case == Case::Upper {
        (55 + n) as u8
    } else {
        (87 + n) as u8
    }
}

/// The hex text of `b` as ASCII bytes: two digits per byte, high nibble first.
pub open spec fn encode_bytes(b: Seq<u8>, case: Case) -> Seq<u8> {
    Seq::new(
        2 * b.len(),
        |i: int|
            if i % 2 == 0 {
                digit_of(b[i / 2] / 16, case)
            } else {
                digit_of(b[i / 2] % 16, case)
            },
    )
}

/// The hex text of `b` as characters.
pub open spec fn encode_chars(b: Seq<u8>, case: Case) -> Seq<char> {
    encode_bytes(b, case).map_values(|c: u8| c as char)
}

/// The byte that the digit pair `hi`, `lo` stands for.
pub open spec fn pair_value(hi: u8, lo: u8) -> u8 {
    (nibble_of(hi) * 16 + nibble_of(lo)) as u8
}

/// The bytes that a string of hex digits of even length stands for.
pub open spec fn decode_bytes(h: Seq<u8>) -> Seq<u8> {
    Seq::new(h.len() / 2, |i: int| pair_value(h[2 * i], h[2 * i + 1]))
}

/// The first position at or after `from` whose byte is not a hex digit.
pub open spec fn first_non_hex(h: Seq<u8>, from: int) -> Option<int>
    decreases h.len() - from,
{
    if from < 0 || from >= h.len() {
        None
    } else if !is_hex_digit(h[from]) {
        Some(from)
    } else {
        first_non_hex(h, from + 1)
    }
}

/// The outcome of decoding `h` into a buffer of `out_len` bytes.
pub open spec fn decode_into_result(h: Seq<u8>, out_len: int) -> Result<Seq<u8>, FromHexError> {
    if h.len() % 2 != 0 {
        Err(FromHexError::OddLength)
    } else if h.len() / 2 != out_len {
        Err(FromHexError::InvalidStringLength)
    } else {
        match first_non_hex(h, 0) {
            Some(i) => Err(FromHexError::InvalidHexCharacter { c: h[i] as char, index: i as usize }),
            None => Ok(decode_bytes(h)),
        }
    }
}

/// The outcome of decoding `h` into a freshly sized buffer.
pub open spec fn decode_result(h: Seq<u8>) -> Result<Seq<u8>, FromHexError> {
    decode_into_result(h, (h.len() / 2) as int)
}

/// The outcome of encoding `b` into a buffer of `out_len` bytes.
pub open spec fn encode_into_result(b: Seq<u8>, out_len: int, case: Case) -> Result<Seq<u8>, FromHexError> {
    if out_len != 2 * b.len() {
        Err(FromHexError::InvalidStringLength)
    } else {
        Ok(encode_bytes(b, case))
    }
}

} // verus!

verus! {

/// `r` with its success value dropped.
pub open spec fn outcome(r: Result<Seq<u8>, FromHexError>) -> Result<(), FromHexError> {
    match r {
        Ok(_) => Ok(()),
        Err(e) => Err(e),
    }
}

} // verus!
