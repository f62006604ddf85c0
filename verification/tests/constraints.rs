use wasm_works::constraints::{ActionEnum, FilterDecodeError, FilteringConstraints, RequestHeadersConstraint};
use wasm_works::control::FilterConstraintsService;

fn sample(default: ActionEnum) -> FilteringConstraints {
    FilteringConstraints {
        request: Some(RequestHeadersConstraint {
            allow_constraints: Some(String::from("a")),
            deny_constraints: None,
            log_constraints: Some(String::from("xyz")),
        }),
        default,
    }
}

#[test]
fn encode_without_header_constraint() {
    let f = FilteringConstraints { request: None, default: ActionEnum::Deny };
    assert_eq!(FilteringConstraints::encode(f), vec![0u8, 1]);
}

#[test]
fn encode_with_header_constraint() {
    let bytes = FilteringConstraints::encode(sample(ActionEnum::Log));
    assert_eq!(bytes, vec![1u8, 1, 1, b'a', 0, 1, 3, b'x', b'y', b'z', 2]);
}

#[test]
fn decode_gives_back_what_was_encoded() {
    for action in [ActionEnum::Allow, ActionEnum::Deny, ActionEnum::Log] {
        let bytes = FilteringConstraints::encode(sample(action));
        let len = bytes.len();
        let (f, n) = FilteringConstraints::decode_filters(bytes).unwrap();
        assert_eq!(f, sample(action));
        assert_eq!(n, len);
    }
}

#[test]
fn decode_ignores_trailing_bytes() {
    let mut bytes = FilteringConstraints::encode(FilteringConstraints { request: None, default: ActionEnum::Log });
    bytes.extend_from_slice(&[9, 9, 9]);
    let (f, n) = FilteringConstraints::decode_filters(bytes).unwrap();
    assert_eq!(f, FilteringConstraints { request: None, default: ActionEnum::Log });
    assert_eq!(n, 2);
}

#[test]
fn decode_rejects_unknown_action() {
    match FilteringConstraints::decode_filters(vec![0, 5]) {
        Err(FilterDecodeError::UnexpectedVariant(5)) => {}
        other => panic!("unexpected {:?}", other),
    }
}

#[test]
fn decode_rejects_truncated_bytes() {
    match FilteringConstraints::decode_filters(vec![1, 1]) {
        Err(FilterDecodeError::Bincode(_)) => {}
        other => panic!("unexpected {:?}", other),
    }
    assert!(matches!(FilteringConstraints::decode_filters(vec![]), Err(FilterDecodeError::Bincode(_))));
}

#[test]
fn decode_rejects_bad_option_tag() {
    assert!(matches!(FilteringConstraints::decode_filters(vec![7, 0]), Err(FilterDecodeError::Bincode(_))));
}

#[test]
fn default_constraints() {
    let f: FilteringConstraints = Default::default();
    assert_eq!(f, FilteringConstraints { request: None, default: ActionEnum::Allow });
}

#[test]
fn control_filter_contents() {
    let f = FilterConstraintsService::create_control_filter();
    assert_eq!(f.default, ActionEnum::Log);
    let r = f.request.unwrap();
    assert_eq!(
        r.allow_constraints.as_deref(),
        Some("match(index(split(head(lowercase(\"content-type\")), \";\"), 0), \"application/json\")")
    );
    assert_eq!(r.deny_constraints.as_deref(), Some("Denyeee Expression"));
    assert_eq!(r.log_constraints.as_deref(), Some("Logee Expression"));
}

#[test]
fn control_payload_decodes_to_control_filter() {
    let payload = FilterConstraintsService::constraints_payload();
    let len = payload.len();
    let (f, n) = FilteringConstraints::decode_filters(payload).unwrap();
    assert_eq!(f, FilterConstraintsService::create_control_filter());
    assert_eq!(n, len);
}

#[test]
fn decode_refuses_huge_length_prefixes() {
    let mut bytes = vec![1u8, 1, 253];
    bytes.extend_from_slice(&[0xff; 8]);
    assert!(matches!(FilteringConstraints::decode_filters(bytes), Err(FilterDecodeError::Bincode(_))));
}
