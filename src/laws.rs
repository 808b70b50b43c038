use vstd::prelude::*;
use crate::model::{
    Case, decode_bytes, decode_result, digit_of, encode_bytes, encode_chars, first_non_hex,
    is_hex_digit, nibble_of,
};
use crate::error::FromHexError;
use vstd::string::StringSliceAdditionalSpecFns;

verus! {

/// `c` with `a-z` turned into `A-Z`.
pub open spec fn upper_byte(c: u8) -> u8 {
    if 97 <= c <= 122 {
        (c - 32) as u8
    } else {
        c
    }
}

/// `c` with `A-Z` turned into `a-z`.
pub open spec fn lower_byte(c: u8) -> u8 {
    if 65 <= c <= 90 {
        (c + 32) as u8
    } else {
        c
    }
}

/// ASCII text with every letter in upper case.
pub open spec fn ascii_upper(h: Seq<u8>) -> Seq<u8> {
    h.map_values(|c: u8| upper_byte(c))
}

/// ASCII text with every letter in lower case.
pub open spec fn ascii_lower(h: Seq<u8>) -> Seq<u8> {
    h.map_values(|c: u8| lower_byte(c))
}

/// Every byte of `h` is a hex digit.
pub open spec fn all_hex(h: Seq<u8>) -> bool {
    forall|i: int| 0 <= i < h.len() ==> is_hex_digit(#[trigger] h[i])
}

proof fn lemma_no_non_hex(h: Seq<u8>, from: int)
    requires
        0 <= from,
        all_hex(h),
    ensures
        first_non_hex(h, from) == None::<int>,
    decreases h.len() - from,
{
    if from < h.len() {
        lemma_no_non_hex(h, from + 1);
    }
}

proof fn lemma_digit_decodes(n: u8, case: Case)
    requires
        n < 16,
    ensures
        is_hex_digit(digit_of(n, case)),
        nibble_of(digit_of(n, case)) == n,
{
}

/// Decoding the hex text of any byte sequence, written in either case, gives
/// that byte sequence back.
pub proof fn lemma_decode_encoded(b: Seq<u8>, case: Case)
    ensures
        decode_result(encode_bytes(b, case)) == Ok::<Seq<u8>, FromHexError>(b),
{
    let e = encode_bytes(b, case);
    assert forall|i: int| 0 <= i < e.len() implies is_hex_digit(#[trigger] e[i]) by {
        lemma_digit_decodes(b[i / 2] / 16, case);
        lemma_digit_decodes(b[i / 2] % 16, case);
    }
    lemma_no_non_hex(e, 0);
    assert forall|i: int| 0 <= i < b.len() implies #[trigger] decode_bytes(e)[i] == b[i] by {
        assert((2 * i) / 2 == i && (2 * i) % 2 == 0);
        assert((2 * i + 1) / 2 == i && (2 * i + 1) % 2 == 1);
        lemma_digit_decodes(b[i] / 16, case);
        lemma_digit_decodes(b[i] % 16, case);
    }
    assert(decode_bytes(e) =~= b);
}

/// The text that an encoder returns, read back as UTF-8 bytes, decodes to the
/// bytes it was made from: `decode(encode(b)) == b`, in either case.
pub proof fn lemma_round_trip(b: Seq<u8>, text: &str, case: Case)
    requires
        text@ == encode_chars(b, case),
    ensures
        text.spec_bytes() == encode_bytes(b, case),
        decode_result(text.spec_bytes()) == Ok::<Seq<u8>, FromHexError>(b),
{
    let e = encode_bytes(b, case);
    assert forall|i: int| 0 <= i < e.len() implies #[trigger] e[i] < 128 by {
        lemma_digit_decodes(b[i / 2] / 16, case);
        lemma_digit_decodes(b[i / 2] % 16, case);
    }
    assert(vstd::string::is_ascii(text));
    vstd::string::is_ascii_spec_bytes(text);
    assert(text.spec_bytes() =~= e);
    lemma_decode_encoded(b, case);
}

/// Hex text is twice as long as the bytes it encodes.
pub proof fn lemma_encoded_length(b: Seq<u8>, case: Case)
    ensures
        encode_chars(b, case).len() == 2 * b.len(),
        encode_bytes(b, case).len() == 2 * b.len(),
{
}

/// Hex text made only of hex digits decodes the same whatever the case of
/// its letters: as given, all upper case, or all lower case.
pub proof fn lemma_case_insensitive(h: Seq<u8>)
    requires
        all_hex(h),
    ensures
        decode_result(ascii_upper(h)) == decode_result(h),
        decode_result(ascii_lower(h)) == decode_result(h),
{
    let u = ascii_upper(h);
    let l = ascii_lower(h);
    assert(all_hex(u));
    assert(all_hex(l));
    lemma_no_non_hex(h, 0);
    lemma_no_non_hex(u, 0);
    lemma_no_non_hex(l, 0);
    assert(decode_bytes(u) =~= decode_bytes(h));
    assert(decode_bytes(l) =~= decode_bytes(h));
}

} // verus!
