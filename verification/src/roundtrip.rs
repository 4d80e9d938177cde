//! A verified end-to-end exercise of the adapter algorithm: a connected
//! pair of adapters over a loopback channel, with this code playing the
//! role the OS plays for a real socket pair — issuing readiness
//! notifications as the channel fills and drains. Whatever mixture of
//! partial completions and stale-readiness retries occurs along the way,
//! the bytes read are exactly the bytes written.

use vstd::prelude::*;

use crate::adapter::{AsyncAdapter, PollOutcome};
use crate::channel::LoopbackChannel;
use crate::handle::SyncIoHandle;

verus! {

/// Copy the tail of `data` starting at `from`.
fn tail_copy(data: &Vec<u8>, from: usize) -> (r: Vec<u8>)
    requires
        from <= data@.len(),
    ensures
        r@ == data@.subrange(from as int, data@.len() as int),
{
    let mut r: Vec<u8> = Vec::new();
    let mut i: usize = from;
    while i < data.len()
        invariant
            from <= i <= data@.len(),
            r@ == data@.subrange(from as int, i as int),
        decreases data@.len() - i,
    {
        r.push(data[i]);
        proof {
            assert(r@ =~= data@.subrange(from as int, i + 1));
        }
        i = i + 1;
    }
    r
}

/// Write all of `data` through one adapter into a loopback channel of the
/// given capacity and read it back through a second adapter, driving both
/// ends until the transfer completes. Readiness notifications are issued
/// here the way a kernel would issue them, including a notification for
/// every write poll — so writes against a full channel go through the full
/// stale-readiness path: confirm, would-block, clear, suspend, retry. The
/// bytes read back equal the bytes written, exactly and in order.
///
/// The two bounds asked of the caller are machine limits: the channel
/// needs room for at least one byte, and the instrumentation counters of
/// the drivers must fit in a machine word over the whole run.
pub fn pump_loopback(data: &Vec<u8>, capacity: usize) -> (out: Vec<u8>)
    requires
        1 <= capacity,
        2 * data@.len() + capacity + 2 <= usize::MAX,
    ensures
        out@ == data@,
{
    let mut ch = LoopbackChannel::new(capacity);
    let mut writer = AsyncAdapter::new(SyncIoHandle::new(1), false, false);
    let mut reader = AsyncAdapter::new(SyncIoHandle::new(2), false, false);
    let mut out: Vec<u8> = Vec::new();
    let mut pos: usize = 0;
    proof {
        assert(ch.sent@ =~= data@.subrange(0, 0));
        assert(ch.received@ =~= out@);
    }
    while pos < data.len() || ch.data.len() > 0
        invariant
            writer.wf(),
            reader.wf(),
            ch.wf(),
            ch.capacity == capacity,
            1 <= capacity,
            2 * data@.len() + capacity + 2 <= usize::MAX,
            pos <= data@.len(),
            ch.sent@ == data@.subrange(0, pos as int),
            ch.received@ == out@,
            writer.write_dir.confirms as int <= 2 * pos + capacity - ch.data@.len() + 1,
            reader.read_dir.confirms as int <= pos + out@.len() + 1,
        decreases 2 * (data@.len() - pos) + ch.data@.len(),
    {
        if pos < data.len() {
            // The write end believes itself ready: poll the write. When
            // the channel is full this belief is stale and the poll runs
            // the clear-and-suspend path.
            writer.notify_write();
            let rest = tail_copy(data, pos);
            match writer.poll_write(&mut ch, &rest) {
                PollOutcome::Ready(res) => match res {
                    Ok(n) => {
                        proof {
                            assert(rest@.subrange(0, n as int) =~= data@.subrange(
                                pos as int,
                                pos + n,
                            ));
                            assert(ch.sent@ =~= data@.subrange(0, pos + n));
                        }
                        pos = pos + n;
                    },
                    Err(_) => {
                        proof {
                            assert(false);
                        }
                    },
                },
                PollOutcome::Pending => {
                    // Stale readiness: the channel is full, nothing moved,
                    // and the writer now awaits a fresh notification. The
                    // read below drains the channel, after which the next
                    // round's notification retries the write.
                },
            }
        }
        if ch.data.len() > 0 {
            proof {
                // The received log is what was sent minus what is still in
                // flight, which bounds the reader's confirmation counter.
                assert(ch.sent@.len() == ch.received@.len() + ch.data@.len());
            }
            reader.notify_read();
            let want: usize = ch.data.len();
            match reader.poll_read(&mut ch, want) {
                PollOutcome::Ready(res) => match res {
                    Ok(mut bytes) => {
                        out.append(&mut bytes);
                    },
                    Err(_) => {
                        proof {
                            assert(false);
                        }
                    },
                },
                PollOutcome::Pending => {
                    proof {
                        assert(false);
                    }
                },
            }
        }
    }
    proof {
        assert(ch.sent@ =~= data@);
        assert(out@ =~= data@);
    }
    out
}

} // verus!
