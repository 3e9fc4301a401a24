//! Core types of the word calling convention: the word itself, memory
//! handles, and the structured fatal-error channel.

use vstd::prelude::*;

verus! {

/// The fixed-width unsigned word that is the sole unit crossing the
/// guest/host call boundary.
pub type WIPICWord = u32;

/// Opaque handle to a host-owned guest-visible buffer, created by
/// allocation and destroyed by release.
#[derive(Clone, Copy, PartialEq, Eq, Structural, Debug)]
pub struct WIPICMemoryId(pub WIPICWord);

/// The category of a host-level (fatal) failure.
#[derive(Clone, Copy, PartialEq, Eq, Structural, Debug)]
pub enum WIPICErrorKind {
    /// The ordinal is present in the dispatch table only as a stub.
    UnimplementedOrdinal,
    /// A guest address or range fell outside the arena bounds.
    InvalidAddress,
    /// The arena could not satisfy an allocation request.
    OutOfMemory,
    /// A memory handle did not denote a live allocation.
    InvalidMemoryId,
    /// A numeric resource id did not denote a bundled resource.
    UnknownResourceId,
    /// A guest string had no terminator inside the arena bounds.
    UnterminatedString,
    /// Arming a timer would overflow the 64-bit clock.
    ClockOverflow,
}

/// A host-level fatal error: it aborts the in-flight call chain and is
/// surfaced to the embedding interpreter. It carries structured fields
/// (operation symbol, ordinal, raw argument words) rather than free text,
/// so callers can program against structure instead of parsing messages.
#[derive(Debug)]
pub struct WIPICError {
    /// What went wrong.
    pub kind: WIPICErrorKind,
    /// Symbolic name of the operation that failed.
    pub op: &'static str,
    /// Position of the operation in its dispatch table.
    pub ordinal: WIPICWord,
    /// The raw argument words of the failed call.
    pub args: Vec<WIPICWord>,
}

/// Result of a kernel service: either its typed value or a fatal error.
pub type WIPICResult<T> = Result<T, WIPICError>;

} // verus!
