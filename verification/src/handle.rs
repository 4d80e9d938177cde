//! The synchronous handle: what the bridge knows of "a thing that blocks".
//!
//! A handle is a pure pass-through: it adds no buffering and no
//! transformation, and the one platform-conditional thing about it, the
//! extraction of its platform identity, is the single narrow seam between
//! OS families. Here that identity is carried as a plain number; each OS
//! family's glue produces it from its own raw-handle type.

use vstd::prelude::*;

verus! {

/// A blocking I/O handle, reduced to what the readiness machinery needs
/// from it: its platform identity. The blocking calls themselves are made
/// against the transport the handle is connected to.
#[derive(Debug)]
pub struct SyncIoHandle {
    /// The platform identity of the handle (a file descriptor on one OS
    /// family, a socket handle on the other), as a plain number.
    pub id: u64,
}

impl SyncIoHandle {
    /// Wrap a platform identity.
    pub fn new(id: u64) -> (h: SyncIoHandle)
        ensures
            h.id == id,
    {
        SyncIoHandle { id }
    }

    /// The narrow seam: extract the platform identity of the handle.
    pub fn raw_id(&self) -> (r: u64)
        ensures
            r == self.id,
    {
        self.id
    }
}

} // verus!
