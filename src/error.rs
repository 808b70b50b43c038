use vstd::prelude::*;

verus! {

/// The ways in which decoding (or encoding into a fixed buffer) can fail.
#[derive(Debug, Clone, Copy, PartialEq, Eq, Structural)]
pub enum FromHexError {
    /// A byte of the input is not a hex digit; `index` is its position in the input.
    InvalidHexCharacter { c: char, index: usize },
    /// The hex input has an odd number of characters.
    OddLength,
    /// A target buffer does not have the length that the other side of the
    /// conversion implies.
    InvalidStringLength,
}

impl FromHexError {
    /// A short human-readable description of the error.
    pub fn message(&self) -> (r: String) {
        match self {
            FromHexError::InvalidHexCharacter { .. } => String::from_str("Invalid character"),
            FromHexError::OddLength => String::from_str("Odd number of digits"),
            FromHexError::InvalidStringLength => String::from_str("Invalid string length"),
        }
    }
}

} // verus!
