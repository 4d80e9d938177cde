use reactor_trait::roundtrip::pump_loopback;

#[test]
fn bytes_read_equal_bytes_written_small_channel() {
    // A channel much smaller than the payload forces many partial
    // completions and stale-readiness retries along the way.
    let data: Vec<u8> = (0..=255u8).chain(0..=99u8).collect();
    let out = pump_loopback(&data, 3);
    assert_eq!(out, data);
}

#[test]
fn bytes_read_equal_bytes_written_capacity_one() {
    let data = vec![42u8, 7, 42, 0, 255, 1];
    let out = pump_loopback(&data, 1);
    assert_eq!(out, data);
}

#[test]
fn bytes_read_equal_bytes_written_roomy_channel() {
    let data = vec![1u8, 2, 3];
    let out = pump_loopback(&data, 64);
    assert_eq!(out, data);
}

#[test]
fn empty_payload_round_trips() {
    let data: Vec<u8> = Vec::new();
    let out = pump_loopback(&data, 4);
    assert_eq!(out, data);
}
