//! Registration: how a reactor turns a synchronous handle into an adapter.
//!
//! A readiness primitive has finitely many slots and tracks one handle
//! identity per slot. Registering a handle it refuses — no slot free, or
//! the identity already registered — fails with the registration error,
//! immediately and without retry, and leaves the reactor exactly as it
//! was: no slot is consumed and no partial adapter exists.

use vstd::prelude::*;

use crate::adapter::AsyncAdapter;
use crate::errors::RegistrationError;
use crate::handle::SyncIoHandle;

verus! {

/// Whether `v` holds `id`.
fn contains_id(v: &Vec<u64>, id: u64) -> (r: bool)
    ensures
        r == v@.contains(id),
{
    let mut i: usize = 0;
    while i < v.len()
        invariant
            i <= v@.len(),
            forall|k: int| 0 <= k < i ==> v@[k] != id,
        decreases v@.len() - i,
    {
        if v[i] == id {
            proof {
                assert(v@[i as int] == id);
            }
            return true;
        }
        i = i + 1;
    }
    false
}

/// A readiness-notification backend with finitely many registration slots,
/// each tracking one handle identity.
pub struct SimReactor {
    /// How many handles the primitive can track at once.
    pub capacity: usize,
    /// The identities currently registered, in registration order.
    pub registered: Vec<u64>,
}

impl SimReactor {
    /// A reactor with the given number of free slots and nothing
    /// registered.
    pub fn new(capacity: usize) -> (r: SimReactor)
        ensures
            r.capacity == capacity,
            r.registered@ == Seq::<u64>::empty(),
    {
        SimReactor { capacity, registered: Vec::new() }
    }

    /// Register `handle` with the primitive and wrap it into an adapter.
    ///
    /// Succeeds exactly when the identity is not already registered and a
    /// slot is free; the fresh adapter starts idle, with the write side
    /// believed ready (a freshly registered handle can usually accept
    /// bytes at once) and the read side not (no data has arrived). On
    /// refusal the error says why, nothing is retried, and the reactor is
    /// left untouched — no partial adapter, no consumed slot.
    pub fn register(&mut self, handle: SyncIoHandle) -> (r: Result<
        AsyncAdapter,
        RegistrationError,
    >)
        ensures
            final(self).capacity == old(self).capacity,
            (r is Ok) <==> (!old(self).registered@.contains(handle.id) && old(
                self,
            ).registered@.len() < old(self).capacity),
            r is Ok ==> final(self).registered@ == old(self).registered@.push(handle.id),
            r matches Ok(a) ==> {
                &&& a.wf()
                &&& a.handle == handle
                &&& a.read_dir.phase is Idle
                &&& a.write_dir.phase is Idle
                &&& !a.read_dir.ready
                &&& a.write_dir.ready
                &&& !a.read_dir.interest
                &&& !a.write_dir.interest
                &&& a.read_dir.confirms == 0
                &&& a.read_dir.attempts == 0
                &&& a.write_dir.confirms == 0
                &&& a.write_dir.attempts == 0
            },
            r is Err ==> *final(self) == *old(self),
            r matches Err(e) ==> {
                &&& (e is DuplicateRegistration <==> old(self).registered@.contains(handle.id))
                &&& (e is Exhausted <==> (!old(self).registered@.contains(handle.id) && old(
                    self,
                ).registered@.len() >= old(self).capacity))
            },
    {
        if contains_id(&self.registered, handle.id) {
            return Err(RegistrationError::DuplicateRegistration);
        }
        if self.registered.len() >= self.capacity {
            return Err(RegistrationError::Exhausted);
        }
        self.registered.push(handle.id);
        Ok(AsyncAdapter::new(handle, false, true))
    }
}

} // verus!
