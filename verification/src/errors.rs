//! Plain models of the error outcomes the bridge propagates.
//!
//! Errors cross this layer verbatim: the only outcome ever intercepted is
//! a would-block, which the adapter turns into a scheduling decision
//! instead of surfacing it.

use vstd::prelude::*;

verus! {

/// The OS-level error kinds that flow through the bridge unchanged.
///
/// `WouldBlock` is special: it never escapes an adapter operation; every
/// other kind is surfaced to the caller on first occurrence and is never
/// retried internally.
#[derive(Clone, Copy, Debug, PartialEq, Eq, Structural)]
pub enum IoErrorKind {
    /// An immediate call could not complete without waiting.
    WouldBlock,
    /// The remote endpoint actively refused the connection.
    ConnectionRefused,
    /// The connection was reset by the peer.
    ConnectionReset,
    /// No route to the remote endpoint.
    HostUnreachable,
    /// The operation did not complete in time.
    TimedOut,
    /// The caller lacks the permission for the operation.
    PermissionDenied,
    /// A name did not resolve to any address.
    NotFound,
    /// Any other OS error kind; propagated verbatim like the rest.
    Other,
}

/// Why a readiness primitive rejected a handle at registration time.
///
/// Registration failures are fatal to that call: they are surfaced
/// immediately and never retried. A primitive may also reject a handle as
/// invalid; with a handle reduced to its numeric identity that cause is
/// not expressible here, and the asynchronous glue surfaces it through
/// the OS error of the registering call instead.
#[derive(Clone, Copy, Debug, PartialEq, Eq, Structural)]
pub enum RegistrationError {
    /// The primitive has no free slot left for another handle.
    Exhausted,
    /// The handle's identity is already registered with the primitive.
    DuplicateRegistration,
}

} // verus!
