use vstd::prelude::*;
use crate::chars::{encode_to_iter, fits_text};
use crate::error::FromHexError;
use crate::model::{Case, decode_into_result, decode_result, encode_chars};
use crate::slice::decode_to_slice;

verus! {

/// Values whose bytes can be written out as hex text.
pub trait ToHex {
    /// The bytes that the value stands for.
    spec fn hex_source(&self) -> Seq<u8>;

    /// The hex text of the value's bytes, with lowercase letters (e.g. `f9b4ca`).
    fn encode_hex(&self) -> (r: String)
        requires
            fits_text(2 * self.hex_source().len()),
        ensures
            r@ == encode_chars(self.hex_source(), Case::Lower),
    ;

    /// The hex text of the value's bytes, with uppercase letters (e.g. `F9B4CA`).
    fn encode_hex_upper(&self) -> (r: String)
        requires
            fits_text(2 * self.hex_source().len()),
        ensures
            r@ == encode_chars(self.hex_source(), Case::Upper),
    ;
}

impl ToHex for [u8] {
    open spec fn hex_source(&self) -> Seq<u8> {
        self@
    }

    fn encode_hex(&self) -> (r: String) {
        encode_to_iter(Case::Lower, self)
    }

    fn encode_hex_upper(&self) -> (r: String) {
        encode_to_iter(Case::Upper, self)
    }
}

impl ToHex for Vec<u8> {
    open spec fn hex_source(&self) -> Seq<u8> {
        self@
    }

    fn encode_hex(&self) -> (r: String) {
        encode_to_iter(Case::Lower, self.as_slice())
    }

    fn encode_hex_upper(&self) -> (r: String) {
        encode_to_iter(Case::Upper, self.as_slice())
    }
}

impl<const N: usize> ToHex for [u8; N] {
    open spec fn hex_source(&self) -> Seq<u8> {
        self@
    }

    fn encode_hex(&self) -> (r: String) {
        encode_to_iter(Case::Lower, self.as_slice())
    }

    fn encode_hex_upper(&self) -> (r: String) {
        encode_to_iter(Case::Upper, self.as_slice())
    }
}

/// Values that can be built from hex text. Upper and lower case digits are
/// both accepted, and may be mixed.
pub trait FromHex: Sized {
    /// The bytes that a value holds.
    spec fn hex_target(&self) -> Seq<u8>;

    /// How many bytes a value built from `hex_len` characters must hold.
    spec fn target_len(hex_len: nat) -> int;

    /// Decodes `hex` into a value, or reports why it cannot.
    fn from_hex(hex: &[u8]) -> (r: Result<Self, FromHexError>)
        ensures
            r matches Ok(v) ==> decode_into_result(hex@, Self::target_len(hex@.len())) == Ok::<
                Seq<u8>,
                FromHexError,
            >(v.hex_target()),
            r matches Err(e) ==> decode_into_result(hex@, Self::target_len(hex@.len())) == Err::<
                Seq<u8>,
                FromHexError,
            >(e),
    ;
}

impl FromHex for Vec<u8> {
    open spec fn hex_target(&self) -> Seq<u8> {
        self@
    }

    open spec fn target_len(hex_len: nat) -> int {
        (hex_len / 2) as int
    }

    fn from_hex(hex: &[u8]) -> (r: Result<Self, FromHexError>) {
        if hex.len() % 2 != 0 {
            return Err(FromHexError::OddLength);
        }
        let mut out = vec![0u8; hex.len() / 2];
        match decode_to_slice(hex, out.as_mut_slice()) {
            Ok(()) => Ok(out),
            Err(e) => Err(e),
        }
    }
}

impl<const N: usize> FromHex for [u8; N] {
    open spec fn hex_target(&self) -> Seq<u8> {
        self@
    }

    open spec fn target_len(hex_len: nat) -> int {
        N as int
    }

    fn from_hex(hex: &[u8]) -> (r: Result<Self, FromHexError>) {
        let mut out = [0u8; N];
        match decode_to_slice(hex, &mut out) {
            Ok(()) => Ok(out),
            Err(e) => Err(e),
        }
    }
}

/// Decodes the hex text `data` into bytes.
pub fn decode(data: &[u8]) -> (r: Result<Vec<u8>, FromHexError>)
    ensures
        r matches Ok(v) ==> decode_result(data@) == Ok::<Seq<u8>, FromHexError>(v@),
        r matches Err(e) ==> decode_result(data@) == Err::<Seq<u8>, FromHexError>(e),
{
    <Vec<u8> as FromHex>::from_hex(data)
}

} // verus!
