//! Why a batch read did not complete.

use vstd::prelude::*;
use crate::primitives::H160;

verus! {

/// The ways a batch read can fail. Each carries the address of the pool it
/// concerns where there is one.
#[derive(Debug, PartialEq, Eq)]
pub enum AMMError {
    /// The call never completed. The message is the transport's own.
    TransportError(String),
    /// The returned data does not have the shape of an array of pool records.
    /// The address is that of the pool asked for, where only one was.
    AbiDecodeError(Option<H160>),
    /// A record held a field that its target type cannot represent. The
    /// address is that of the registry entry the record was meant for.
    FieldConversionError(H160),
    /// The number of records differs from the number of pools asked for.
    /// The address is that of the first pool left without a record.
    BoundsError { expected: usize, found: usize, address: Option<H160> },
}

} // verus!
