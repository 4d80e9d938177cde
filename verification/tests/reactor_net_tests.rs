use reactor_trait::errors::{IoErrorKind, RegistrationError};
use reactor_trait::handle::SyncIoHandle;
use reactor_trait::net::{resolve_outcome, SimNetwork};
use reactor_trait::reactor::SimReactor;

#[test]
fn registration_succeeds_while_slots_are_free() {
    let mut r = SimReactor::new(2);
    let a = r.register(SyncIoHandle::new(3)).expect("a slot is free");
    assert_eq!(a.handle.id, 3);
    assert_eq!(a.read_dir.confirms, 0);
    assert_eq!(a.write_dir.confirms, 0);
    assert!(a.write_dir.ready);
    assert!(!a.read_dir.ready);
    r.register(SyncIoHandle::new(4)).expect("a second slot is free");
}

#[test]
fn exhausted_primitive_refuses_without_partial_state() {
    let mut r = SimReactor::new(0);
    match r.register(SyncIoHandle::new(3)) {
        Err(RegistrationError::Exhausted) => {},
        _ => panic!("an exhausted primitive must refuse the handle"),
    }
    // No slot was consumed and no partial adapter exists.
    assert_eq!(r.registered, Vec::<u64>::new());
    assert_eq!(r.capacity, 0);

    let mut one = SimReactor::new(1);
    one.register(SyncIoHandle::new(1)).expect("a slot is free");
    match one.register(SyncIoHandle::new(2)) {
        Err(RegistrationError::Exhausted) => {},
        _ => panic!("the second handle must be refused"),
    }
    assert_eq!(one.registered, vec![1u64]);
}

#[test]
fn duplicate_identity_is_refused() {
    let mut r = SimReactor::new(8);
    r.register(SyncIoHandle::new(5)).expect("a slot is free");
    match r.register(SyncIoHandle::new(5)) {
        Err(RegistrationError::DuplicateRegistration) => {},
        _ => panic!("the duplicate must be refused"),
    }
    assert_eq!(r.registered, vec![5u64]);
}

#[test]
fn connect_outcomes_propagate_verbatim_without_retry() {
    let mut net = SimNetwork::new(vec![10], vec![20]);

    let a = net.connect(10).expect("the endpoint accepts");
    assert_eq!(a.handle.id, 10);
    assert_eq!(net.attempts, 1);

    match net.connect(20) {
        Err(IoErrorKind::ConnectionRefused) => {},
        _ => panic!("the refusing endpoint must surface its error kind"),
    }
    assert_eq!(net.attempts, 2);

    match net.connect(30) {
        Err(IoErrorKind::HostUnreachable) => {},
        _ => panic!("an absent endpoint must be unreachable"),
    }
    // Exactly one attempt per call: nothing was silently retried.
    assert_eq!(net.attempts, 3);
}

#[test]
fn resolving_to_nothing_fails() {
    match resolve_outcome(Vec::new()) {
        Err(IoErrorKind::NotFound) => {},
        _ => panic!("an empty resolution must fail"),
    }
}

#[test]
fn resolved_addresses_come_out_in_order_exactly_once() {
    let mut seq = resolve_outcome(vec![11, 22, 33]).expect("addresses were found");
    assert_eq!(seq.next_address(), Some(11));
    assert_eq!(seq.next_address(), Some(22));
    assert_eq!(seq.next_address(), Some(33));
    assert_eq!(seq.next_address(), None);
    assert_eq!(seq.next_address(), None);
}
