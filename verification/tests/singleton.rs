use wasm_works::singleton::WasmRootContext;

#[test]
fn default_tokens_are_zero() {
    let r = WasmRootContext::default();
    assert_eq!((r.log_token, r.filter_token, r.filter_grpc, r.log_grpc), (0, 0, 0, 0));
}

#[test]
fn fetch_request_payload() {
    let r = WasmRootContext::default();
    let mut expected = vec![10u8, 19];
    expected.extend_from_slice(b"FetchFilteringRules");
    assert_eq!(r.fetch_filtering_rules(), expected);
}

#[test]
fn pumps_the_constraints_of_the_filter_call() {
    let mut r = WasmRootContext::default();
    r.register_queues(4, 6);
    r.record_filter_call(Some(11));
    assert_eq!(r.on_grpc_call_response(11, Some(vec![10, 2, 7, 8])), Some((6, vec![7, 8])));
    assert_eq!(r.on_grpc_call_response(12, Some(vec![10, 2, 7, 8])), None);
    assert_eq!(r.on_grpc_call_response(11, None), None);
    assert_eq!(r.on_grpc_call_response(11, Some(vec![10, 5, 1])), None);
    assert_eq!(r.on_grpc_call_response(11, Some(vec![])), Some((6, vec![])));
}

#[test]
fn forwards_log_lines() {
    let mut r = WasmRootContext::default();
    r.register_queues(4, 6);
    assert!(r.on_queue_ready(4));
    assert!(!r.on_queue_ready(6));
    assert_eq!(r.grpc_log_line(Some(vec![1, 2, 3])), Some(vec![10, 3, 1, 2, 3]));
    assert_eq!(r.grpc_log_line(Some(vec![])), Some(vec![]));
    assert_eq!(r.grpc_log_line(None), None);
    r.record_log_call(Some(7));
    r.record_log_call(None);
    assert_eq!(r.log_grpc, 7);
}

#[test]
fn long_payload_length_is_a_varint() {
    let r = WasmRootContext::default();
    let payload = vec![0u8; 200];
    let m = r.grpc_log_line(Some(payload.clone())).unwrap();
    assert_eq!(&m[..3], &[10u8, 0xc8, 0x01]);
    assert_eq!(&m[3..], &payload[..]);
    let mut r2 = WasmRootContext::default();
    r2.register_queues(1, 2);
    r2.record_filter_call(Some(3));
    assert_eq!(r2.on_grpc_call_response(3, Some(m)), Some((2, payload)));
}
