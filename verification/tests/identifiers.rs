use android_bridge::ids::{
    call_id_from_jlong, call_id_to_jlong, device_id_from_jint, device_id_to_jint,
    raw_handle_to_jlong, CallId, ConnectionId,
};

#[test]
fn call_id_keeps_its_value() {
    let id = CallId::new(0x1234_5678_9abc_def0);
    assert_eq!(id.as_u64(), 0x1234_5678_9abc_def0);
}

#[test]
fn call_id_encodes_small_values_unchanged() {
    assert_eq!(call_id_to_jlong(CallId::new(0)), 0);
    assert_eq!(call_id_to_jlong(CallId::new(42)), 42);
    assert_eq!(call_id_to_jlong(CallId::new(i64::MAX as u64)), i64::MAX);
}

#[test]
fn call_id_encodes_high_bit_as_negative() {
    assert_eq!(call_id_to_jlong(CallId::new(u64::MAX)), -1);
    assert_eq!(call_id_to_jlong(CallId::new(1u64 << 63)), i64::MIN);
}

#[test]
fn call_id_encoding_round_trips() {
    for raw in [0u64, 1, 42, i64::MAX as u64, (1u64 << 63), u64::MAX] {
        let encoded = call_id_to_jlong(CallId::new(raw));
        assert_eq!(call_id_from_jlong(encoded).as_u64(), raw);
    }
}

#[test]
fn device_id_encoding_round_trips() {
    for raw in [0u32, 1, 7, i32::MAX as u32, 1u32 << 31, u32::MAX] {
        let encoded = device_id_to_jint(raw);
        assert_eq!(device_id_from_jint(encoded), raw);
    }
    assert_eq!(device_id_to_jint(u32::MAX), -1);
}

#[test]
fn raw_handle_encoding_reinterprets_bits() {
    assert_eq!(raw_handle_to_jlong(0), 0);
    assert_eq!(raw_handle_to_jlong(u64::MAX), -1);
    assert_eq!(raw_handle_to_jlong(123456), 123456);
}

#[test]
fn connection_id_recovers_both_components() {
    let connection_id = ConnectionId::new(CallId::new(99), 3);
    assert_eq!(connection_id.call_id().as_u64(), 99);
    assert_eq!(connection_id.remote_device(), 3);
}

#[test]
fn connection_ids_compare_by_components() {
    let a = ConnectionId::new(CallId::new(1), 2);
    let b = ConnectionId::new(CallId::new(1), 2);
    let c = ConnectionId::new(CallId::new(1), 3);
    assert_eq!(a, b);
    assert_ne!(a, c);
}
