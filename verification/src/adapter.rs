//! The readiness-driven asynchronous adapter.
//!
//! An adapter owns one registered handle together with the two per-direction
//! drivers of its readiness-notification primitive. Each operation follows
//! the same algorithm: check readiness without blocking, suspend when the
//! direction is not ready, attempt the blocking call under a readiness
//! guard when it is, and absorb a would-block outcome by clearing the stale
//! signal and suspending again. Would-block is the only outcome ever
//! intercepted; success and hard errors propagate verbatim on first
//! occurrence. The two directions are independent; within one direction a
//! single operation is outstanding at a time.

use vstd::prelude::*;

use crate::channel::{flat, lesser, seq_views, total_size, LoopbackChannel};
use crate::driver::{AttemptResolution, Direction, DirectionDriver, resolve_attempt};
use crate::errors::IoErrorKind;
use crate::handle::SyncIoHandle;

verus! {

/// What one poll of an operation came to: either the task suspended,
/// awaiting a readiness notification, or the operation completed with the
/// outcome of the blocking call.
#[derive(Debug)]
pub enum PollOutcome<T> {
    /// The direction was not ready (or its readiness proved stale): the
    /// task registered wake-up interest and suspended.
    Pending,
    /// The blocking call completed; its outcome is handed over verbatim.
    Ready(T),
}

/// The non-blocking wrapper produced by registering a synchronous handle:
/// the handle plus one readiness driver per direction, owned together, so
/// that the primitive instance never outlives the handle it tracks.
pub struct AsyncAdapter {
    /// The registered synchronous handle.
    pub handle: SyncIoHandle,
    /// The readiness driver of the readable side.
    pub read_dir: DirectionDriver,
    /// The readiness driver of the writable side.
    pub write_dir: DirectionDriver,
}

impl AsyncAdapter {
    /// Well-formedness: both drivers are well-formed, each owns its own
    /// direction, and no attempt is in flight between operations — a
    /// readiness guard is never held across a suspension point.
    pub open spec fn wf(self) -> bool {
        &&& self.read_dir.wf()
        &&& self.write_dir.wf()
        &&& self.read_dir.direction is Read
        &&& self.write_dir.direction is Write
        &&& !(self.read_dir.phase is ReadyToAttempt)
        &&& !(self.write_dir.phase is ReadyToAttempt)
    }

    /// A fresh adapter over `handle`, with the given initial readiness
    /// beliefs and nothing counted yet.
    pub fn new(handle: SyncIoHandle, read_ready: bool, write_ready: bool) -> (a: AsyncAdapter)
        ensures
            a.wf(),
            a.handle == handle,
            a.read_dir.ready == read_ready,
            a.write_dir.ready == write_ready,
            a.read_dir.phase is Idle,
            a.write_dir.phase is Idle,
            !a.read_dir.interest,
            !a.write_dir.interest,
            a.read_dir.confirms == 0,
            a.read_dir.attempts == 0,
            a.write_dir.confirms == 0,
            a.write_dir.attempts == 0,
    {
        AsyncAdapter {
            handle,
            read_dir: DirectionDriver::new(Direction::Read, read_ready),
            write_dir: DirectionDriver::new(Direction::Write, write_ready),
        }
    }

    /// One poll of an asynchronous write of `buf` into the channel.
    ///
    /// Suspends exactly when the write direction is not believed ready, or
    /// when the belief proves stale (there is something to write and the
    /// channel is full, so the blocking call would block); the stale signal
    /// is then cleared so the next check suspends instead of spinning.
    /// Otherwise the blocking write completes, possibly partially, and its
    /// outcome is returned verbatim.
    pub fn poll_write(&mut self, ch: &mut LoopbackChannel, buf: &Vec<u8>) -> (r: PollOutcome<
        Result<usize, IoErrorKind>,
    >)
        requires
            old(self).wf(),
            old(ch).wf(),
            old(self).write_dir.confirms < usize::MAX,
        ensures
            final(self).wf(),
            final(ch).wf(),
            final(self).handle == old(self).handle,
            final(self).read_dir == old(self).read_dir,
            final(ch).capacity == old(ch).capacity,
            final(ch).received@ == old(ch).received@,
            (r is Pending) <==> (!old(self).write_dir.ready || (buf@.len() > 0 && old(
                ch,
            ).data@.len() == old(ch).capacity)),
            r is Pending ==> {
                &&& final(ch).data@ == old(ch).data@
                &&& final(ch).sent@ == old(ch).sent@
                &&& final(self).write_dir.phase is AwaitingReadiness
                &&& final(self).write_dir.interest
                &&& !final(self).write_dir.ready
            },
            (r is Pending && !old(self).write_dir.ready) ==> {
                &&& final(self).write_dir.confirms == old(self).write_dir.confirms
                &&& final(self).write_dir.attempts == old(self).write_dir.attempts
            },
            (r is Pending && old(self).write_dir.ready) ==> {
                &&& final(self).write_dir.confirms == old(self).write_dir.confirms + 1
                &&& final(self).write_dir.attempts == old(self).write_dir.attempts + 1
            },
            r matches PollOutcome::Ready(res) ==> {
                &&& res matches Ok(n) && {
                    &&& n as int == lesser(buf@.len() as int, old(ch).capacity - old(
                        ch,
                    ).data@.len())
                    &&& final(ch).data@ == old(ch).data@ + buf@.subrange(0, n as int)
                    &&& final(ch).sent@ == old(ch).sent@ + buf@.subrange(0, n as int)
                }
                &&& final(self).write_dir.phase is Idle
                &&& final(self).write_dir.ready == old(self).write_dir.ready
                &&& final(self).write_dir.confirms == old(self).write_dir.confirms + 1
                &&& final(self).write_dir.attempts == old(self).write_dir.attempts + 1
            },
    {
        match self.write_dir.begin_poll() {
            None => PollOutcome::Pending,
            Some(guard) => {
                match resolve_attempt(ch.try_write(buf)) {
                    AttemptResolution::Retry => {
                        // The readiness signal was stale: clear it, then
                        // re-check. The cleared belief cannot confirm, so
                        // the attempt suspends for a fresh notification.
                        self.write_dir.clear_stale(guard);
                        let retry = self.write_dir.begin_poll();
                        proof {
                            assert(retry is None);
                        }
                        PollOutcome::Pending
                    },
                    AttemptResolution::Finish(res) => {
                        self.write_dir.complete_attempt(guard);
                        PollOutcome::Ready(res)
                    },
                }
            },
        }
    }

    /// One poll of an asynchronous read of up to `max` bytes from the
    /// channel. Mirrors `poll_write`: suspends when the read direction is
    /// not ready or its readiness proves stale (something was asked for
    /// and nothing is in flight); otherwise the blocking read completes,
    /// possibly partially, and its outcome is returned verbatim.
    pub fn poll_read(&mut self, ch: &mut LoopbackChannel, max: usize) -> (r: PollOutcome<
        Result<Vec<u8>, IoErrorKind>,
    >)
        requires
            old(self).wf(),
            old(ch).wf(),
            old(self).read_dir.confirms < usize::MAX,
        ensures
            final(self).wf(),
            final(ch).wf(),
            final(self).handle == old(self).handle,
            final(self).write_dir == old(self).write_dir,
            final(ch).capacity == old(ch).capacity,
            final(ch).sent@ == old(ch).sent@,
            (r is Pending) <==> (!old(self).read_dir.ready || (max > 0 && old(
                ch,
            ).data@.len() == 0)),
            r is Pending ==> {
                &&& final(ch).data@ == old(ch).data@
                &&& final(ch).received@ == old(ch).received@
                &&& final(self).read_dir.phase is AwaitingReadiness
                &&& final(self).read_dir.interest
                &&& !final(self).read_dir.ready
            },
            (r is Pending && !old(self).read_dir.ready) ==> {
                &&& final(self).read_dir.confirms == old(self).read_dir.confirms
                &&& final(self).read_dir.attempts == old(self).read_dir.attempts
            },
            (r is Pending && old(self).read_dir.ready) ==> {
                &&& final(self).read_dir.confirms == old(self).read_dir.confirms + 1
                &&& final(self).read_dir.attempts == old(self).read_dir.attempts + 1
            },
            r matches PollOutcome::Ready(res) ==> {
                &&& res matches Ok(bytes) && {
                    &&& bytes@.len() as int == lesser(max as int, old(ch).data@.len() as int)
                    &&& bytes@ == old(ch).data@.subrange(0, bytes@.len() as int)
                    &&& final(ch).data@ == old(ch).data@.subrange(
                        bytes@.len() as int,
                        old(ch).data@.len() as int,
                    )
                    &&& final(ch).received@ == old(ch).received@ + bytes@
                }
                &&& final(self).read_dir.phase is Idle
                &&& final(self).read_dir.ready == old(self).read_dir.ready
                &&& final(self).read_dir.confirms == old(self).read_dir.confirms + 1
                &&& final(self).read_dir.attempts == old(self).read_dir.attempts + 1
            },
    {
        match self.read_dir.begin_poll() {
            None => PollOutcome::Pending,
            Some(guard) => {
                match resolve_attempt(ch.try_read(max)) {
                    AttemptResolution::Retry => {
                        self.read_dir.clear_stale(guard);
                        let retry = self.read_dir.begin_poll();
                        proof {
                            assert(retry is None);
                        }
                        PollOutcome::Pending
                    },
                    AttemptResolution::Finish(res) => {
                        self.read_dir.complete_attempt(guard);
                        PollOutcome::Ready(res)
                    },
                }
            },
        }
    }

    /// One poll of an asynchronous gather-write of the segments of `bufs`,
    /// treated as one contiguous buffer. The readiness dance is the same
    /// as for `poll_write`; partial completion may end inside a segment.
    pub fn poll_write_vectored(&mut self, ch: &mut LoopbackChannel, bufs: &Vec<Vec<u8>>) -> (r:
        PollOutcome<Result<usize, IoErrorKind>>)
        requires
            old(self).wf(),
            old(ch).wf(),
            old(self).write_dir.confirms < usize::MAX,
        ensures
            final(self).wf(),
            final(ch).wf(),
            final(self).handle == old(self).handle,
            final(self).read_dir == old(self).read_dir,
            final(ch).capacity == old(ch).capacity,
            final(ch).received@ == old(ch).received@,
            (r is Pending) <==> (!old(self).write_dir.ready || (flat(seq_views(bufs@)).len() > 0
                && old(ch).data@.len() == old(ch).capacity)),
            r is Pending ==> {
                &&& final(ch).data@ == old(ch).data@
                &&& final(ch).sent@ == old(ch).sent@
                &&& final(self).write_dir.phase is AwaitingReadiness
                &&& final(self).write_dir.interest
                &&& !final(self).write_dir.ready
            },
            (r is Pending && !old(self).write_dir.ready) ==> {
                &&& final(self).write_dir.confirms == old(self).write_dir.confirms
                &&& final(self).write_dir.attempts == old(self).write_dir.attempts
            },
            (r is Pending && old(self).write_dir.ready) ==> {
                &&& final(self).write_dir.confirms == old(self).write_dir.confirms + 1
                &&& final(self).write_dir.attempts == old(self).write_dir.attempts + 1
            },
            r matches PollOutcome::Ready(res) ==> {
                &&& res matches Ok(n) && {
                    &&& n as int == lesser(
                        flat(seq_views(bufs@)).len() as int,
                        old(ch).capacity - old(ch).data@.len(),
                    )
                    &&& final(ch).data@ == old(ch).data@ + flat(seq_views(bufs@)).subrange(
                        0,
                        n as int,
                    )
                    &&& final(ch).sent@ == old(ch).sent@ + flat(seq_views(bufs@)).subrange(
                        0,
                        n as int,
                    )
                }
                &&& final(self).write_dir.phase is Idle
                &&& final(self).write_dir.ready == old(self).write_dir.ready
                &&& final(self).write_dir.confirms == old(self).write_dir.confirms + 1
                &&& final(self).write_dir.attempts == old(self).write_dir.attempts + 1
            },
    {
        match self.write_dir.begin_poll() {
            None => PollOutcome::Pending,
            Some(guard) => {
                match resolve_attempt(ch.try_write_vectored(bufs)) {
                    AttemptResolution::Retry => {
                        self.write_dir.clear_stale(guard);
                        let retry = self.write_dir.begin_poll();
                        proof {
                            assert(retry is None);
                        }
                        PollOutcome::Pending
                    },
                    AttemptResolution::Finish(res) => {
                        self.write_dir.complete_attempt(guard);
                        PollOutcome::Ready(res)
                    },
                }
            },
        }
    }

    /// One poll of an asynchronous scatter-read into segments of the given
    /// sizes, treated as one contiguous read. The readiness dance is the
    /// same as for `poll_read`; partial completion leaves later segments
    /// empty.
    pub fn poll_read_vectored(&mut self, ch: &mut LoopbackChannel, sizes: &Vec<usize>) -> (r:
        PollOutcome<Result<Vec<Vec<u8>>, IoErrorKind>>)
        requires
            old(self).wf(),
            old(ch).wf(),
            old(self).read_dir.confirms < usize::MAX,
        ensures
            final(self).wf(),
            final(ch).wf(),
            final(self).handle == old(self).handle,
            final(self).write_dir == old(self).write_dir,
            final(ch).capacity == old(ch).capacity,
            final(ch).sent@ == old(ch).sent@,
            (r is Pending) <==> (!old(self).read_dir.ready || (total_size(sizes@) > 0 && old(
                ch,
            ).data@.len() == 0)),
            r is Pending ==> {
                &&& final(ch).data@ == old(ch).data@
                &&& final(ch).received@ == old(ch).received@
                &&& final(self).read_dir.phase is AwaitingReadiness
                &&& final(self).read_dir.interest
                &&& !final(self).read_dir.ready
            },
            (r is Pending && !old(self).read_dir.ready) ==> {
                &&& final(self).read_dir.confirms == old(self).read_dir.confirms
                &&& final(self).read_dir.attempts == old(self).read_dir.attempts
            },
            (r is Pending && old(self).read_dir.ready) ==> {
                &&& final(self).read_dir.confirms == old(self).read_dir.confirms + 1
                &&& final(self).read_dir.attempts == old(self).read_dir.attempts + 1
            },
            r matches PollOutcome::Ready(res) ==> {
                &&& res matches Ok(segs) && {
                    &&& segs@.len() == sizes@.len()
                    &&& forall|k: int|
                        0 <= k < segs@.len() ==> (#[trigger] segs@[k])@.len() <= sizes@[k]
                    &&& flat(seq_views(segs@)).len() as int == lesser(
                        total_size(sizes@),
                        old(ch).data@.len() as int,
                    )
                    &&& flat(seq_views(segs@)) == old(ch).data@.subrange(
                        0,
                        flat(seq_views(segs@)).len() as int,
                    )
                    &&& final(ch).data@ == old(ch).data@.subrange(
                        flat(seq_views(segs@)).len() as int,
                        old(ch).data@.len() as int,
                    )
                    &&& final(ch).received@ == old(ch).received@ + flat(seq_views(segs@))
                }
                &&& final(self).read_dir.phase is Idle
                &&& final(self).read_dir.ready == old(self).read_dir.ready
                &&& final(self).read_dir.confirms == old(self).read_dir.confirms + 1
                &&& final(self).read_dir.attempts == old(self).read_dir.attempts + 1
            },
    {
        match self.read_dir.begin_poll() {
            None => PollOutcome::Pending,
            Some(guard) => {
                match resolve_attempt(ch.try_read_vectored(sizes)) {
                    AttemptResolution::Retry => {
                        self.read_dir.clear_stale(guard);
                        let retry = self.read_dir.begin_poll();
                        proof {
                            assert(retry is None);
                        }
                        PollOutcome::Pending
                    },
                    AttemptResolution::Finish(res) => {
                        self.read_dir.complete_attempt(guard);
                        PollOutcome::Ready(res)
                    },
                }
            },
        }
    }

    /// One poll of an asynchronous flush: a write attempt with no payload
    /// beyond making pending writes visible. It is gated by write
    /// readiness like any write, and the loopback transport buffers
    /// nothing, so once ready it always completes at once.
    pub fn poll_flush(&mut self, ch: &mut LoopbackChannel) -> (r: PollOutcome<
        Result<(), IoErrorKind>,
    >)
        requires
            old(self).wf(),
            old(ch).wf(),
            old(self).write_dir.confirms < usize::MAX,
        ensures
            final(self).wf(),
            final(ch).wf(),
            final(self).handle == old(self).handle,
            final(self).read_dir == old(self).read_dir,
            *final(ch) == *old(ch),
            (r is Pending) <==> !old(self).write_dir.ready,
            r is Pending ==> {
                &&& final(self).write_dir.phase is AwaitingReadiness
                &&& final(self).write_dir.interest
                &&& !final(self).write_dir.ready
                &&& final(self).write_dir.confirms == old(self).write_dir.confirms
                &&& final(self).write_dir.attempts == old(self).write_dir.attempts
            },
            r matches PollOutcome::Ready(res) ==> {
                &&& res is Ok
                &&& final(self).write_dir.phase is Idle
                &&& final(self).write_dir.ready == old(self).write_dir.ready
                &&& final(self).write_dir.confirms == old(self).write_dir.confirms + 1
                &&& final(self).write_dir.attempts == old(self).write_dir.attempts + 1
            },
    {
        match self.write_dir.begin_poll() {
            None => PollOutcome::Pending,
            Some(guard) => {
                match resolve_attempt(ch.try_flush()) {
                    AttemptResolution::Retry => {
                        proof {
                            assert(false);
                        }
                        PollOutcome::Pending
                    },
                    AttemptResolution::Finish(res) => {
                        self.write_dir.complete_attempt(guard);
                        PollOutcome::Ready(res)
                    },
                }
            },
        }
    }

    /// One poll of closing the adapter: a terminal flush. The handle and
    /// its primitive instance are owned together and released together
    /// when the adapter is dropped afterwards.
    pub fn poll_close(&mut self, ch: &mut LoopbackChannel) -> (r: PollOutcome<
        Result<(), IoErrorKind>,
    >)
        requires
            old(self).wf(),
            old(ch).wf(),
            old(self).write_dir.confirms < usize::MAX,
        ensures
            final(self).wf(),
            final(ch).wf(),
            final(self).handle == old(self).handle,
            final(self).read_dir == old(self).read_dir,
            *final(ch) == *old(ch),
            (r is Pending) <==> !old(self).write_dir.ready,
            r is Pending ==> {
                &&& final(self).write_dir.phase is AwaitingReadiness
                &&& final(self).write_dir.interest
                &&& !final(self).write_dir.ready
                &&& final(self).write_dir.confirms == old(self).write_dir.confirms
                &&& final(self).write_dir.attempts == old(self).write_dir.attempts
            },
            r matches PollOutcome::Ready(res) ==> {
                &&& res is Ok
                &&& final(self).write_dir.phase is Idle
                &&& final(self).write_dir.ready == old(self).write_dir.ready
                &&& final(self).write_dir.confirms == old(self).write_dir.confirms + 1
                &&& final(self).write_dir.attempts == old(self).write_dir.attempts + 1
            },
    {
        self.poll_flush(ch)
    }

    /// Release the handle, consuming the adapter: the end of the close
    /// sequence, after a terminal flush. The readiness drivers — the
    /// primitive instance bound to the handle — are dropped here with the
    /// adapter, so the instance never outlives the handle it tracks.
    pub fn release(self) -> (h: SyncIoHandle)
        ensures
            h == self.handle,
    {
        self.handle
    }

    /// Cancellation of a pending read: deregister the wake-up interest and
    /// reset the read direction to idle, with no side effect on the
    /// handle, the channel, the write direction, or the counters, so a
    /// fresh attempt afterwards starts cleanly.
    pub fn cancel_read(&mut self)
        requires
            old(self).wf(),
        ensures
            final(self).wf(),
            final(self).handle == old(self).handle,
            final(self).write_dir == old(self).write_dir,
            final(self).read_dir.phase is Idle,
            !final(self).read_dir.interest,
            final(self).read_dir.ready == old(self).read_dir.ready,
            final(self).read_dir.confirms == old(self).read_dir.confirms,
            final(self).read_dir.attempts == old(self).read_dir.attempts,
    {
        self.read_dir.cancel();
    }

    /// Cancellation of a pending write, mirroring `cancel_read`.
    pub fn cancel_write(&mut self)
        requires
            old(self).wf(),
        ensures
            final(self).wf(),
            final(self).handle == old(self).handle,
            final(self).read_dir == old(self).read_dir,
            final(self).write_dir.phase is Idle,
            !final(self).write_dir.interest,
            final(self).write_dir.ready == old(self).write_dir.ready,
            final(self).write_dir.confirms == old(self).write_dir.confirms,
            final(self).write_dir.attempts == old(self).write_dir.attempts,
    {
        self.write_dir.cancel();
    }

    /// A readiness notification for the read direction arrived from the
    /// primitive: the belief becomes ready and a task suspended on the
    /// direction is woken for its next poll.
    pub fn notify_read(&mut self)
        requires
            old(self).wf(),
        ensures
            final(self).wf(),
            final(self).handle == old(self).handle,
            final(self).write_dir == old(self).write_dir,
            final(self).read_dir.ready,
            !final(self).read_dir.interest,
            final(self).read_dir.phase is Idle,
            final(self).read_dir.confirms == old(self).read_dir.confirms,
            final(self).read_dir.attempts == old(self).read_dir.attempts,
    {
        self.read_dir.notify();
    }

    /// A readiness notification for the write direction, mirroring
    /// `notify_read`.
    pub fn notify_write(&mut self)
        requires
            old(self).wf(),
        ensures
            final(self).wf(),
            final(self).handle == old(self).handle,
            final(self).read_dir == old(self).read_dir,
            final(self).write_dir.ready,
            !final(self).write_dir.interest,
            final(self).write_dir.phase is Idle,
            final(self).write_dir.confirms == old(self).write_dir.confirms,
            final(self).write_dir.attempts == old(self).write_dir.attempts,
    {
        self.write_dir.notify();
    }
}

} // verus!
