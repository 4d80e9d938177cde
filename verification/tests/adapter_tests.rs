use reactor_trait::adapter::{AsyncAdapter, PollOutcome};
use reactor_trait::channel::LoopbackChannel;
use reactor_trait::driver::{resolve_attempt, AttemptResolution, Phase};
use reactor_trait::errors::IoErrorKind;
use reactor_trait::handle::SyncIoHandle;

#[test]
fn stale_write_readiness_is_cleared_then_retried() {
    // A full channel, and a primitive whose first confirmation reports
    // "write ready" although the blocking write would block.
    let mut ch = LoopbackChannel::with_contents(vec![9u8, 9, 9, 9], 4);
    let mut a = AsyncAdapter::new(SyncIoHandle::new(7), false, true);
    let buf = vec![1u8, 2, 3];

    // First attempt: the confirmation is consumed, the write would block,
    // the stale readiness is cleared and the task suspends.
    assert!(matches!(a.poll_write(&mut ch, &buf), PollOutcome::Pending));
    assert_eq!(a.write_dir.confirms, 1);
    assert_eq!(a.write_dir.attempts, 1);
    assert!(!a.write_dir.ready);
    assert!(a.write_dir.interest);
    assert_eq!(a.write_dir.phase, Phase::AwaitingReadiness);
    assert_eq!(ch.data, vec![9u8, 9, 9, 9]);

    // The peer drains the channel.
    let mut peer = AsyncAdapter::new(SyncIoHandle::new(8), true, false);
    match peer.poll_read(&mut ch, 4) {
        PollOutcome::Ready(Ok(bytes)) => assert_eq!(bytes, vec![9u8, 9, 9, 9]),
        _ => panic!("the peer read should complete"),
    }

    // The second notification arrives; the retried write completes with
    // the exact original buffer on the second attempt.
    a.notify_write();
    match a.poll_write(&mut ch, &buf) {
        PollOutcome::Ready(Ok(n)) => assert_eq!(n, 3),
        _ => panic!("the retried write should complete"),
    }
    assert_eq!(ch.data, vec![1u8, 2, 3]);
    assert_eq!(a.write_dir.attempts, 2);
    assert_eq!(a.write_dir.confirms, 2);
}

#[test]
fn attempts_never_exceed_confirmations() {
    let mut ch = LoopbackChannel::new(2);
    let mut a = AsyncAdapter::new(SyncIoHandle::new(1), false, false);
    let buf = vec![1u8, 2, 3];

    // Not ready: suspend without an attempt.
    assert!(matches!(a.poll_write(&mut ch, &buf), PollOutcome::Pending));
    assert!(a.write_dir.confirms >= a.write_dir.attempts);
    assert_eq!(a.write_dir.attempts, 0);

    // Notified: a confirmed attempt completes partially.
    a.notify_write();
    match a.poll_write(&mut ch, &buf) {
        PollOutcome::Ready(Ok(n)) => assert_eq!(n, 2),
        _ => panic!("the write should complete partially"),
    }
    assert!(a.write_dir.confirms >= a.write_dir.attempts);

    // Stale readiness on a now-full channel: confirm, attempt, clear.
    a.notify_write();
    assert!(matches!(a.poll_write(&mut ch, &buf), PollOutcome::Pending));
    assert!(a.write_dir.confirms >= a.write_dir.attempts);

    // The read side too.
    a.notify_read();
    match a.poll_read(&mut ch, 1) {
        PollOutcome::Ready(Ok(bytes)) => assert_eq!(bytes, vec![1u8]),
        _ => panic!("the read should complete"),
    }
    assert!(a.read_dir.confirms >= a.read_dir.attempts);
}

#[test]
fn cancelled_read_resets_cleanly_and_fresh_read_succeeds() {
    let mut ch = LoopbackChannel::new(4);
    let mut a = AsyncAdapter::new(SyncIoHandle::new(1), false, true);

    // A read on an empty channel suspends.
    assert!(matches!(a.poll_read(&mut ch, 1), PollOutcome::Pending));
    assert_eq!(a.read_dir.phase, Phase::AwaitingReadiness);
    assert!(a.read_dir.interest);

    // The pending read is dropped before its notification arrives: the
    // wake-up interest is deregistered and the state resets to idle.
    a.cancel_read();
    assert_eq!(a.read_dir.phase, Phase::Idle);
    assert!(!a.read_dir.interest);

    // Bytes arrive and a fresh read succeeds at once, no deadlock.
    ch.try_write(&vec![5u8, 6]).unwrap();
    a.notify_read();
    match a.poll_read(&mut ch, 2) {
        PollOutcome::Ready(Ok(bytes)) => assert_eq!(bytes, vec![5u8, 6]),
        _ => panic!("the fresh read should complete"),
    }
}

#[test]
fn cancelled_write_resets_cleanly() {
    let mut ch = LoopbackChannel::with_contents(vec![1u8, 2], 2);
    let mut a = AsyncAdapter::new(SyncIoHandle::new(1), false, false);
    assert!(matches!(a.poll_write(&mut ch, &vec![3u8]), PollOutcome::Pending));
    assert!(a.write_dir.interest);
    a.cancel_write();
    assert_eq!(a.write_dir.phase, Phase::Idle);
    assert!(!a.write_dir.interest);
    assert_eq!(ch.data, vec![1u8, 2]);
}

#[test]
fn read_suspends_when_not_ready_and_reads_in_order() {
    let mut ch = LoopbackChannel::new(8);
    ch.try_write(&vec![10u8, 11, 12, 13]).unwrap();
    let mut a = AsyncAdapter::new(SyncIoHandle::new(1), false, false);

    assert!(matches!(a.poll_read(&mut ch, 2), PollOutcome::Pending));
    a.notify_read();
    match a.poll_read(&mut ch, 2) {
        PollOutcome::Ready(Ok(bytes)) => assert_eq!(bytes, vec![10u8, 11]),
        _ => panic!("the read should complete"),
    }
    a.notify_read();
    match a.poll_read(&mut ch, 10) {
        PollOutcome::Ready(Ok(bytes)) => assert_eq!(bytes, vec![12u8, 13]),
        _ => panic!("the read should complete"),
    }
}

#[test]
fn stale_read_readiness_is_cleared() {
    // The primitive believes the read side ready while nothing is in
    // flight: the attempt would block, the belief is cleared, the task
    // suspends instead of spinning.
    let mut ch = LoopbackChannel::new(4);
    let mut a = AsyncAdapter::new(SyncIoHandle::new(1), true, false);
    assert!(matches!(a.poll_read(&mut ch, 1), PollOutcome::Pending));
    assert!(!a.read_dir.ready);
    assert!(a.read_dir.interest);
    assert_eq!(a.read_dir.attempts, 1);
    assert_eq!(a.read_dir.confirms, 1);
}

#[test]
fn flush_and_close_are_gated_by_write_readiness() {
    let mut ch = LoopbackChannel::new(4);
    let mut a = AsyncAdapter::new(SyncIoHandle::new(1), false, false);

    assert!(matches!(a.poll_flush(&mut ch), PollOutcome::Pending));
    a.notify_write();
    assert!(matches!(a.poll_flush(&mut ch), PollOutcome::Ready(Ok(()))));

    // A close without readiness suspends with interest registered, no
    // attempt made.
    let mut b = AsyncAdapter::new(SyncIoHandle::new(2), false, false);
    assert!(matches!(b.poll_close(&mut ch), PollOutcome::Pending));
    assert_eq!(b.write_dir.phase, Phase::AwaitingReadiness);
    assert!(b.write_dir.interest);
    assert_eq!(b.write_dir.confirms, 0);
    assert_eq!(b.write_dir.attempts, 0);

    b.notify_write();
    assert!(matches!(b.poll_close(&mut ch), PollOutcome::Ready(Ok(()))));
    assert_eq!(ch.data, Vec::<u8>::new());
    // The terminal flush consumed one confirmation and made one attempt.
    assert_eq!(b.write_dir.phase, Phase::Idle);
    assert_eq!(b.write_dir.confirms, 1);
    assert_eq!(b.write_dir.attempts, 1);

    // Close releases the handle; the primitive instance goes with the
    // adapter and does not outlive it.
    let h = a.release();
    assert_eq!(h.raw_id(), 1);
}

#[test]
fn vectored_write_is_a_gather_over_the_segments() {
    let mut ch = LoopbackChannel::new(4);
    let mut a = AsyncAdapter::new(SyncIoHandle::new(1), false, true);
    let bufs = vec![vec![1u8, 2], vec![3u8], vec![4u8, 5, 6]];
    match a.poll_write_vectored(&mut ch, &bufs) {
        PollOutcome::Ready(Ok(n)) => assert_eq!(n, 4),
        _ => panic!("the gather-write should complete partially"),
    }
    assert_eq!(ch.data, vec![1u8, 2, 3, 4]);

    // Full channel: a further gather-write finds the readiness stale.
    a.notify_write();
    assert!(matches!(a.poll_write_vectored(&mut ch, &bufs), PollOutcome::Pending));
    assert_eq!(ch.data, vec![1u8, 2, 3, 4]);
}

#[test]
fn vectored_read_is_a_scatter_into_the_segments() {
    let mut ch = LoopbackChannel::with_contents(vec![1u8, 2, 3], 8);
    let mut a = AsyncAdapter::new(SyncIoHandle::new(1), true, false);
    let sizes = vec![2usize, 2, 2];
    match a.poll_read_vectored(&mut ch, &sizes) {
        PollOutcome::Ready(Ok(segs)) => {
            assert_eq!(segs, vec![vec![1u8, 2], vec![3u8], Vec::<u8>::new()]);
        },
        _ => panic!("the scatter-read should complete partially"),
    }
    assert_eq!(ch.data, Vec::<u8>::new());

    // Empty channel: a further scatter-read finds the readiness stale.
    a.notify_read();
    assert!(matches!(a.poll_read_vectored(&mut ch, &sizes), PollOutcome::Pending));
}

#[test]
fn would_block_is_the_only_intercepted_outcome() {
    assert!(matches!(
        resolve_attempt::<usize>(Err(IoErrorKind::WouldBlock)),
        AttemptResolution::Retry
    ));
    assert!(matches!(
        resolve_attempt::<usize>(Ok(5)),
        AttemptResolution::Finish(Ok(5))
    ));
    assert!(matches!(
        resolve_attempt::<usize>(Err(IoErrorKind::ConnectionReset)),
        AttemptResolution::Finish(Err(IoErrorKind::ConnectionReset))
    ));
    assert!(matches!(
        resolve_attempt::<usize>(Err(IoErrorKind::TimedOut)),
        AttemptResolution::Finish(Err(IoErrorKind::TimedOut))
    ));
    assert!(matches!(
        resolve_attempt::<usize>(Err(IoErrorKind::PermissionDenied)),
        AttemptResolution::Finish(Err(IoErrorKind::PermissionDenied))
    ));
    assert!(matches!(
        resolve_attempt::<usize>(Err(IoErrorKind::Other)),
        AttemptResolution::Finish(Err(IoErrorKind::Other))
    ));
}

#[test]
fn zero_length_operations_complete_without_readiness_trouble() {
    let mut ch = LoopbackChannel::with_contents(vec![1u8, 2], 2);
    let mut a = AsyncAdapter::new(SyncIoHandle::new(1), true, true);

    // Writing nothing against a full channel is not a would-block.
    match a.poll_write(&mut ch, &Vec::new()) {
        PollOutcome::Ready(Ok(n)) => assert_eq!(n, 0),
        _ => panic!("the empty write should complete"),
    }

    // Reading nothing from an empty channel is not a would-block.
    let mut empty = LoopbackChannel::new(2);
    match a.poll_read(&mut empty, 0) {
        PollOutcome::Ready(Ok(bytes)) => assert_eq!(bytes, Vec::<u8>::new()),
        _ => panic!("the empty read should complete"),
    }
}
