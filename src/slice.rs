use vstd::prelude::*;
use crate::error::FromHexError;
use crate::model::{
    Case, decode_bytes, decode_into_result, encode_bytes, encode_into_result,
    first_non_hex, is_hex_digit, outcome,
};
use crate::table::{byte2hex, val};

verus! {

/// When every byte in `[from, to)` is a hex digit, the search for the first
/// non-digit from `from` gives the same answer as the search from `to`.
proof fn lemma_skip_digits(h: Seq<u8>, from: int, to: int)
    requires
        0 <= from <= to <= h.len(),
        forall|j: int| from <= j < to ==> is_hex_digit(#[trigger] h[j]),
    ensures
        first_non_hex(h, from) == first_non_hex(h, to),
    decreases to - from,
{
    if from < to {
        lemma_skip_digits(h, from + 1, to);
    }
}

/// Writes the hex digits of `input` into `output`, which must hold exactly
/// twice as many bytes as `input`.
pub fn encode_to_slice_inner(input: &[u8], output: &mut [u8], case: Case) -> (r: Result<(), FromHexError>)
    ensures
        r == outcome(encode_into_result(input@, old(output)@.len() as int, case)),
        r is Err ==> final(output)@ == old(output)@,
        r is Ok ==> final(output)@ == encode_bytes(input@, case),
{
    let out_len = output.len();
    if input.len() > usize::MAX / 2 || input.len() * 2 != out_len {
        return Err(FromHexError::InvalidStringLength);
    }
    let n = input.len();
    let mut i: usize = 0;
    while i < n
        invariant
            n == input@.len(),
            2 * n == output@.len(),
            n <= usize::MAX / 2,
            0 <= i <= n,
            forall|k: int| 0 <= k < 2 * i ==> output@[k] == #[trigger] encode_bytes(input@, case)[k],
        decreases n - i,
    {
        let (high, low) = byte2hex(input[i], case);
        output[2 * i] = high;
        output[2 * i + 1] = low;
        proof {
            assert forall|k: int| 0 <= k < 2 * i + 2 implies output@[k] == #[trigger] encode_bytes(input@, case)[k] by {
                if k >= 2 * i {
                    assert(k / 2 == i);
                }
            }
        }
        i = i + 1;
    }
    assert(output@ =~= encode_bytes(input@, case));
    Ok(())
}

/// Encodes `input` into `output` with lowercase digits; `output` must hold
/// exactly `2 * input.len()` bytes.
pub fn encode_to_slice(input: &[u8], output: &mut [u8]) -> (r: Result<(), FromHexError>)
    ensures
        r == outcome(encode_into_result(input@, old(output)@.len() as int, Case::Lower)),
        r is Ok ==> final(output)@ == encode_bytes(input@, Case::Lower),
        r is Err ==> final(output)@ == old(output)@,
{
    encode_to_slice_inner(input, output, Case::Lower)
}

/// Encodes `input` into `output` with uppercase digits; `output` must hold
/// exactly `2 * input.len()` bytes.
pub fn encode_to_slice_upper(input: &[u8], output: &mut [u8]) -> (r: Result<(), FromHexError>)
    ensures
        r == outcome(encode_into_result(input@, old(output)@.len() as int, Case::Upper)),
        r is Ok ==> final(output)@ == encode_bytes(input@, Case::Upper),
        r is Err ==> final(output)@ == old(output)@,
{
    encode_to_slice_inner(input, output, Case::Upper)
}

/// Decodes the hex text `data` into `out`, which must hold exactly
/// `data.len() / 2` bytes. Upper and lower case digits are both accepted.
pub fn decode_to_slice(data: &[u8], out: &mut [u8]) -> (r: Result<(), FromHexError>)
    ensures
        r == outcome(decode_into_result(data@, old(out)@.len() as int)),
        r is Ok ==> final(out)@ == decode_bytes(data@),
        final(out)@.len() == old(out)@.len(),
{
    if data.len() % 2 != 0 {
        return Err(FromHexError::OddLength);
    }
    if data.len() / 2 != out.len() {
        return Err(FromHexError::InvalidStringLength);
    }
    assert(data@.len() <= usize::MAX);
    let n = out.len();
    let mut i: usize = 0;
    while i < n
        invariant
            n <= usize::MAX / 2,
            2 * n == data@.len(),
            n == out@.len(),
            n == old(out)@.len(),
            0 <= i <= n,
            forall|j: int| 0 <= j < 2 * i ==> is_hex_digit(#[trigger] data@[j]),
            forall|k: int| 0 <= k < i ==> out@[k] == #[trigger] decode_bytes(data@)[k],
        decreases n - i,
    {
        let pair = vstd::slice::slice_subrange(data, 2 * i, 2 * i + 2);
        proof {
            lemma_skip_digits(data@, 0, 2 * i as int);
            reveal_with_fuel(first_non_hex, 3);
        }
        match val(pair, 2 * i) {
            Ok(byte) => {
                out[i] = byte;
            },
            Err(e) => {
                return Err(e);
            },
        }
        i = i + 1;
    }
    proof {
        lemma_skip_digits(data@, 0, data@.len() as int);
    }
    assert(out@ =~= decode_bytes(data@));
    Ok(())
}

} // verus!
