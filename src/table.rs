use vstd::prelude::*;
use crate::error::FromHexError;
use crate::model::{Case, NOT_HEX, digit_of, is_hex_digit, nibble_of, pair_value};

verus! {

/// The decoding table: the nibble that byte `c` stands for, or `NOT_HEX`.
pub fn hex_value(c: u8) -> (r: u8)
    ensures
        r == nibble_of(c),
        is_hex_digit(c) ==> r < 16,
        !is_hex_digit(c) ==> r == NOT_HEX,
{
    if 48 <= c && c <= 57 {
        c - 48
    } else if 97 <= c && c <= 102 {
        c - 87
    } else if 65 <= c && c <= 70 {
        c - 55
    } else {
        NOT_HEX
    }
}

/// The encoding table: the ASCII digit for nibble `n`.
pub fn hex_digit(n: u8, case: Case) -> (r: u8)
    requires
        n < 16,
    ensures
        r == digit_of(n, case),
        is_hex_digit(r),
        nibble_of(r) == n,
        r < 128,
{
    if n < 10 {
        48 + n
    } else {
        match case {
            Case::Upper => 55 + n,
            Case::Lower => 87 + n,
        }
    }
}

/// The two digits that encode `byte`, high nibble first.
pub fn byte2hex(byte: u8, case: Case) -> (r: (u8, u8))
    ensures
        r.0 == digit_of(byte / 16, case),
        r.1 == digit_of(byte % 16, case),
{
    let hi = (byte & 0xf0) >> 4;
    let lo = byte & 0x0f;
    assert(hi == byte / 16 && lo == byte % 16) by (bit_vector)
        requires
            hi == (byte & 0xf0) >> 4,
            lo == byte & 0x0f,
    ;
    (hex_digit(hi, case), hex_digit(lo, case))
}

/// Decodes the digit pair `pair[0]`, `pair[1]`, which stands at position `idx`
/// of the input; an invalid digit is reported with its own position.
pub fn val(pair: &[u8], idx: usize) -> (r: Result<u8, FromHexError>)
    requires
        pair@.len() == 2,
        idx < usize::MAX,
    ensures
        !is_hex_digit(pair@[0]) ==> r == Err::<u8, FromHexError>(
            FromHexError::InvalidHexCharacter { c: pair@[0] as char, index: idx },
        ),
        is_hex_digit(pair@[0]) && !is_hex_digit(pair@[1]) ==> r == Err::<u8, FromHexError>(
            FromHexError::InvalidHexCharacter { c: pair@[1] as char, index: (idx + 1) as usize },
        ),
        is_hex_digit(pair@[0]) && is_hex_digit(pair@[1]) ==> r == Ok::<u8, FromHexError>(
            pair_value(pair@[0], pair@[1]),
        ),
{
    let upper = hex_value(pair[0]);
    let lower = hex_value(pair[1]);
    if upper == NOT_HEX {
        return Err(FromHexError::InvalidHexCharacter { c: pair[0] as char, index: idx });
    }
    if lower == NOT_HEX {
        return Err(FromHexError::InvalidHexCharacter { c: pair[1] as char, index: idx + 1 });
    }
    let r = (upper << 4) | lower;
    assert(r == upper * 16 + lower) by (bit_vector)
        requires
            upper < 16,
            lower < 16,
            r == (upper << 4) | lower,
    ;
    Ok(r)
}

} // verus!
