//! The error type shared by the wire decoders and encoders.

use vstd::prelude::*;

verus! {

/// Why a PDU could not be decoded or encoded.
#[derive(Debug, Clone, Copy)]
pub enum PduError {
    /// The input ended before the named structure was complete.
    NotEnoughBytes { name: &'static str, received: usize, expected: usize },
    /// A field holds a value that the format forbids.
    InvalidField { field: &'static str, reason: &'static str },
    /// A field holds a value that this implementation does not support.
    UnsupportedValue { field: &'static str, value: u32 },
    /// A length does not fit the width of its wire field.
    InvalidLength { field: &'static str },
}

} // verus!
