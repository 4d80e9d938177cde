//! Connecting and name resolution: the decisions around the OS calls.
//!
//! Connecting suspends until the OS answers, then propagates the answer
//! verbatim: an adapter on success, the OS error kind on refusal or
//! unreachability, with exactly one attempt per call and no retry inside
//! this layer. Resolution produces a finite, single-use sequence of
//! addresses and fails when a name resolves to none.

use vstd::prelude::*;

use crate::adapter::AsyncAdapter;
use crate::errors::IoErrorKind;
use crate::handle::SyncIoHandle;

verus! {

/// Whether `v` holds `addr`.
fn contains_addr(v: &Vec<u64>, addr: u64) -> (r: bool)
    ensures
        r == v@.contains(addr),
{
    let mut i: usize = 0;
    while i < v.len()
        invariant
            i <= v@.len(),
            forall|k: int| 0 <= k < i ==> v@[k] != addr,
        decreases v@.len() - i,
    {
        if v[i] == addr {
            proof {
                assert(v@[i as int] == addr);
            }
            return true;
        }
        i = i + 1;
    }
    false
}

/// The remote side of `connect`, as the OS reports it: which endpoints
/// have a listener, which actively refuse, everything else unreachable.
/// Addresses are plain numbers, the platform identity of an endpoint.
pub struct SimNetwork {
    /// Endpoints that accept a connection.
    pub accepting: Vec<u64>,
    /// Endpoints that actively refuse a connection.
    pub refused: Vec<u64>,
    /// How many connection attempts were made against this network.
    pub attempts: usize,
}

impl SimNetwork {
    /// A network with the given endpoint behaviour and no attempt made.
    pub fn new(accepting: Vec<u64>, refused: Vec<u64>) -> (n: SimNetwork)
        ensures
            n.accepting == accepting,
            n.refused == refused,
            n.attempts == 0,
    {
        SimNetwork { accepting, refused, attempts: 0 }
    }

    /// Connect to `addr`: exactly one attempt, whose outcome propagates
    /// verbatim. An accepting endpoint yields a fresh adapter over a
    /// handle carrying the endpoint's identity; a refusing endpoint yields
    /// the refused error kind; any other endpoint is unreachable. Nothing
    /// is retried inside this layer: the attempt counter grows by exactly
    /// one per call, whatever the outcome.
    pub fn connect(&mut self, addr: u64) -> (r: Result<AsyncAdapter, IoErrorKind>)
        requires
            old(self).attempts < usize::MAX,
        ensures
            final(self).accepting == old(self).accepting,
            final(self).refused == old(self).refused,
            final(self).attempts == old(self).attempts + 1,
            (r is Ok) <==> old(self).accepting@.contains(addr),
            r matches Ok(a) ==> {
                &&& a.wf()
                &&& a.handle.id == addr
                &&& a.read_dir.phase is Idle
                &&& a.write_dir.phase is Idle
                &&& !a.read_dir.ready
                &&& a.write_dir.ready
                &&& a.read_dir.confirms == 0
                &&& a.read_dir.attempts == 0
                &&& a.write_dir.confirms == 0
                &&& a.write_dir.attempts == 0
            },
            r matches Err(e) ==> {
                &&& (e is ConnectionRefused <==> old(self).refused@.contains(addr))
                &&& (e is HostUnreachable <==> !old(self).refused@.contains(addr))
            },
    {
        self.attempts = self.attempts + 1;
        if contains_addr(&self.accepting, addr) {
            Ok(AsyncAdapter::new(SyncIoHandle::new(addr), false, true))
        } else if contains_addr(&self.refused, addr) {
            Err(IoErrorKind::ConnectionRefused)
        } else {
            Err(IoErrorKind::HostUnreachable)
        }
    }
}

/// A finite, single-use sequence of resolved addresses, handed out in
/// order, each exactly once.
pub struct AddressSequence {
    /// The resolved addresses, in resolution order.
    pub addrs: Vec<u64>,
    /// How many addresses were already handed out.
    pub next: usize,
}

impl AddressSequence {
    /// Well-formedness: the cursor never passes the end.
    pub open spec fn wf(self) -> bool {
        self.next <= self.addrs@.len()
    }

    /// The next address, if one is left: the addresses come out in
    /// resolution order, each exactly once, and then the sequence is
    /// spent for good.
    pub fn next_address(&mut self) -> (r: Option<u64>)
        requires
            old(self).wf(),
        ensures
            final(self).wf(),
            final(self).addrs == old(self).addrs,
            (r is Some) <==> old(self).next < old(self).addrs@.len(),
            r matches Some(a) ==> {
                &&& a == old(self).addrs@[old(self).next as int]
                &&& final(self).next == old(self).next + 1
            },
            r is None ==> *final(self) == *old(self),
    {
        if self.next < self.addrs.len() {
            let a: u64 = self.addrs[self.next];
            self.next = self.next + 1;
            Some(a)
        } else {
            None
        }
    }
}

/// Turn the addresses a lookup produced into the outcome of `resolve`:
/// a name that resolved to no address at all is a failure, surfaced
/// verbatim and never retried; otherwise the addresses become a fresh
/// single-use sequence.
pub fn resolve_outcome(addrs: Vec<u64>) -> (r: Result<AddressSequence, IoErrorKind>)
    ensures
        (r is Ok) <==> addrs@.len() > 0,
        r matches Ok(s) ==> {
            &&& s.wf()
            &&& s.addrs == addrs
            &&& s.next == 0
        },
        r matches Err(e) ==> e == IoErrorKind::NotFound,
{
    if addrs.len() == 0 {
        Err(IoErrorKind::NotFound)
    } else {
        Ok(AddressSequence { addrs, next: 0 })
    }
}

} // verus!
