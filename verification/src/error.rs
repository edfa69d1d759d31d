//! Failures that the bridge reports to its embedder.

use vstd::prelude::*;

verus! {

/// Why a record of the return channel could not be turned into a log.
#[derive(Clone, Copy, Debug, PartialEq, Eq, Structural)]
pub enum DecodeError {
    /// The text is not a record of the expected structure.
    MalformedRecord,
    /// The record names an operation other than the four storage accesses.
    UnknownOpcode,
    /// A key or value is not exactly 64 hexadecimal digits.
    MalformedHex,
}

/// The two sides of the boundary are out of step; the embedder aborts the
/// instrumentation of the running transaction.
#[derive(Clone, Copy, Debug, PartialEq, Eq, Structural)]
pub enum BridgeError {
    /// The engine asked for prefetched data that nothing had armed.
    PrefetchNotArmed,
    /// An exit hook arrived with no call or creation open.
    UnmatchedExit,
    /// A session of this flavor cannot be created beside the one installed.
    FlavorMismatch,
    /// Resetting a live session has no defined meaning.
    ClearUnsupported,
}

} // verus!
