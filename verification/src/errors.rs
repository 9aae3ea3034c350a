//! The error surface of the bridge.
//!
//! Failures at the script/host boundary are reported values, never host
//! crashes: a bad handle or index is a `BoundaryError`, a rejected
//! registration is a `RegistryError`, and a failed compile carries the
//! phase that produced its diagnostic.

use vstd::prelude::*;

verus! {

/// A fault detected by a guard at a registered boundary entry point.
#[derive(Clone, Copy, Debug, PartialEq, Eq, Structural)]
pub enum BoundaryError {
    /// An operation was invoked on an invalid or already released handle,
    /// or the protocol was driven out of order.
    PreconditionViolation,
    /// An index reached past the current length of an opaque object or of
    /// the state buffer.
    BoundsError,
    /// Formatted text would not fit the caller-supplied capacity.
    CapacityOverflow,
    /// The object store can hold no further container.
    AllocationFailure,
}

/// The phase of a compile attempt that produced a diagnostic.
#[derive(Clone, Copy, Debug, PartialEq, Eq, Structural)]
pub enum CompilePhase {
    SyntaxError,
    TypeError,
    LinkError,
}

/// A rejected change to the host function registry.
#[derive(Clone, Copy, Debug, PartialEq, Eq, Structural)]
pub enum RegistryError {
    /// The registry is sealed: registration is done once at startup.
    Sealed,
    /// The declared signature is not one of the supported shapes.
    UnsupportedSignature,
    /// An entry with the same symbol name already exists.
    DuplicateName,
}

} // verus!
