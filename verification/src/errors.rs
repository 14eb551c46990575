use vstd::prelude::*;

verus! {

/// Signifies that an out-of-bounds memory access was requested.
///
/// This is the one recoverable error of the runtime layer: it aborts only the
/// guest operation that asked for the access, never the whole execution.
#[derive(Clone, Copy, Debug, PartialEq, Eq, Structural)]
pub struct MemoryBoundsError;

/// An invariant violation that cannot be safely continued past.
///
/// Each variant names the protocol invariant that was broken, so a caller (or
/// a harness) can tell which one failed rather than merely that something did.
#[derive(Clone, Copy, Debug, PartialEq, Eq, Structural)]
pub enum FatalError {
    /// The registry of active programs was popped or queried while empty.
    EmptyStack,
    /// Host and guest disagree about which request an answer belongs to.
    ProtocolDesync,
}

} // verus!
