use wasm_works::control::{HttpCall, LogCollectorService};
use wasm_works::exchange::HttpRequestResponse;

fn exchange() -> HttpRequestResponse {
    HttpRequestResponse {
        request_header: Some(vec![("host".to_string(), "example.com".to_string())]),
        request_body: Some(b"hi".to_vec()),
        response_header: None,
        response_body: Some(vec![0xff, 0xfe]),
    }
}

#[test]
fn new_exchange_is_empty() {
    let x = HttpRequestResponse::new();
    assert_eq!(x.request_header, None);
    assert_eq!(x.request_body, None);
    assert_eq!(x.response_header, None);
    assert_eq!(x.response_body, None);
    assert_eq!(HttpRequestResponse::encode_contents(&x).unwrap(), vec![0u8, 0, 0, 0]);
}

#[test]
fn encode_contents_bytes() {
    let x = HttpRequestResponse {
        request_header: Some(vec![("a".to_string(), "b".to_string())]),
        request_body: None,
        response_header: None,
        response_body: Some(vec![7]),
    };
    assert_eq!(
        HttpRequestResponse::encode_contents(&x).unwrap(),
        vec![1u8, 1, 1, b'a', 1, b'b', 0, 0, 1, 1, 7]
    );
}

#[test]
fn decode_bytes_gives_back_the_exchange() {
    let bytes = HttpRequestResponse::encode_contents(&exchange()).unwrap();
    let len = bytes.len();
    let (call, n) = LogCollectorService::decode_bytes(bytes).unwrap();
    let x = exchange();
    assert_eq!(
        call,
        HttpCall {
            request_header: x.request_header,
            request_body: x.request_body,
            response_header: x.response_header,
            response_body: x.response_body,
        }
    );
    assert_eq!(n, len);
}

#[test]
fn decode_bytes_rejects_garbage() {
    assert!(LogCollectorService::decode_bytes(vec![1]).is_err());
    assert!(LogCollectorService::unwrap_request(vec![3]).is_none());
}

#[test]
fn extract_headers_debug_form() {
    assert_eq!(LogCollectorService::extract_headers(None), "");
    assert_eq!(LogCollectorService::extract_headers(Some(vec![])), "[]");
    let h = vec![("a".to_string(), "b\"c".to_string()), ("d".to_string(), "e".to_string())];
    assert_eq!(LogCollectorService::extract_headers(Some(h.clone())), format!("{:?}", h));
    assert_eq!(LogCollectorService::extract_headers(Some(h)), "[(\"a\", \"b\\\"c\"), (\"d\", \"e\")]");
}

#[test]
fn extract_body_text() {
    assert_eq!(LogCollectorService::extract_body(None), "");
    assert_eq!(LogCollectorService::extract_body(Some(b"hello".to_vec())), "hello");
    assert_eq!(LogCollectorService::extract_body(Some(vec![0xff])), "");
}

#[test]
fn unwrap_request_reports_the_logged_exchange() {
    let bytes = HttpRequestResponse::encode_contents(&exchange()).unwrap();
    let (req, resp) = LogCollectorService::unwrap_request(bytes).unwrap();
    assert_eq!(req, "Request:\n Headers: [(\"host\", \"example.com\")] \n Body: hi");
    assert_eq!(resp, "Response:\n Headers:  \n Body: ");
}

#[test]
fn extract_http_call_lines() {
    let call = HttpCall {
        request_header: None,
        request_body: None,
        response_header: Some(vec![("k".to_string(), "v".to_string())]),
        response_body: Some(b"ok".to_vec()),
    };
    let (req, resp) = LogCollectorService::extract_http_call(call);
    assert_eq!(req, "Request:\n Headers:  \n Body: ");
    assert_eq!(resp, "Response:\n Headers: [(\"k\", \"v\")] \n Body: ok");
}

#[test]
fn decode_bytes_refuses_huge_length_prefixes() {
    let mut bytes = vec![1u8, 253];
    bytes.extend_from_slice(&[0xff; 8]);
    assert!(LogCollectorService::decode_bytes(bytes).is_err());
}
