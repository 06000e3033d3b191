//! Errors surfaced to callers of the library.
use vstd::prelude::*;

verus! {

/// What can go wrong while encoding, decoding, deriving or sequencing.
#[derive(Debug)]
pub enum WorldError {
    /// The transport failed; the text is what it reported.
    RpcError(String),
    /// Bytes shorter than the fixed layout, or a length field that does not
    /// match the trailing byte count.
    SerializationError,
    /// A leading byte that names no instruction kind.
    UnknownDiscriminator(u8),
    /// No bump seed yields a valid program address for the seeds.
    AddressDerivationError,
    /// The requested step is not allowed in the account's delegation state.
    InvalidLifecycleTransition,
}

} // verus!
