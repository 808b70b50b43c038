//! Encoding bytes as hexadecimal text, and decoding such text back to bytes.
//!
//! `encode` and `encode_upper` turn bytes into text, `decode` turns text
//! back into bytes. The slice functions work on buffers that the caller
//! provides, and the traits `ToHex` and `FromHex` offer the same conversions
//! as methods.
pub mod error;
pub mod model;
pub mod table;
pub mod slice;
pub mod chars;
pub mod traits;
pub mod laws;

pub use crate::chars::{BytesToHexChars, encode, encode_to, encode_upper, encode_upper_to};
pub use crate::error::FromHexError;
pub use crate::model::Case;
pub use crate::slice::{decode_to_slice, encode_to_slice, encode_to_slice_upper};
pub use crate::traits::{FromHex, ToHex, decode};
