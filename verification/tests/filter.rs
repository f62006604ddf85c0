use std::rc::Rc;
use wasm_works::constraints::{ActionEnum, FilteringConstraints, RequestHeadersConstraint};
use wasm_works::control::{FilterConstraintsService, LogCollectorService};
use wasm_works::filter::{Action, FilteringOutcome, HttpCallContext, WasmRootContext};

fn constraints(allow: bool, deny: bool, log: bool) -> FilteringConstraints {
    let e = |b: bool| if b { Some("e".to_string()) } else { None };
    FilteringConstraints {
        request: Some(RequestHeadersConstraint {
            allow_constraints: e(allow),
            deny_constraints: e(deny),
            log_constraints: e(log),
        }),
        default: ActionEnum::Deny,
    }
}

#[test]
fn header_filtering_priority() {
    let h: Vec<(String, String)> = vec![];
    let ctx = HttpCallContext::new(1, Rc::new(constraints(true, true, true)));
    assert_eq!(ctx.header_filtering(&h).action, Some(ActionEnum::Allow));
    let ctx = HttpCallContext::new(1, Rc::new(constraints(false, true, true)));
    assert_eq!(ctx.header_filtering(&h), FilteringOutcome { action: Some(ActionEnum::Deny), allow_evaluation: None });
    let ctx = HttpCallContext::new(1, Rc::new(constraints(false, false, true)));
    assert_eq!(ctx.header_filtering(&h), FilteringOutcome { action: Some(ActionEnum::Log), allow_evaluation: None });
    let ctx = HttpCallContext::new(1, Rc::new(constraints(false, false, false)));
    assert_eq!(ctx.header_filtering(&h), FilteringOutcome { action: None, allow_evaluation: None });
    let ctx = HttpCallContext::new(1, Rc::new(FilteringConstraints { request: None, default: ActionEnum::Deny }));
    assert_eq!(ctx.header_filtering(&h), FilteringOutcome { action: None, allow_evaluation: None });
}

#[test]
fn allow_expression_is_evaluated_on_the_headers() {
    let ctx = HttpCallContext::new(1, Rc::new(FilterConstraintsService::create_control_filter()));
    let json = vec![("Content-Type".to_string(), "application/json; charset=utf-8".to_string())];
    assert_eq!(ctx.header_filtering(&json), FilteringOutcome { action: Some(ActionEnum::Allow), allow_evaluation: Some(Some(true)) });
    let html = vec![("content-type".to_string(), "text/html".to_string())];
    assert_eq!(ctx.header_filtering(&html).allow_evaluation, Some(Some(false)));
    // The allow constraint "e" names no variable, so its evaluation fails.
    let ctx = HttpCallContext::new(1, Rc::new(constraints(true, false, false)));
    assert_eq!(ctx.header_filtering(&json).allow_evaluation, Some(None));
}

#[test]
fn allow_expression_with_other_functions() {
    let exprs = [
        ("bool_regex(\"^app\", head(\"content-type\"))", Some(true)),
        ("len(head(\"content-type\")) == 16", Some(true)),
        ("len(split(\"a;b;c\", \";\")) == 3", Some(true)),
        ("match(\"a\")", None),
        ("match(split(\"abc\", \";\"))", None),
    ];
    let h = vec![("Content-Type".to_string(), "application/json".to_string())];
    for (e, expected) in exprs {
        let c = FilteringConstraints {
            request: Some(RequestHeadersConstraint { allow_constraints: Some(e.to_string()), deny_constraints: None, log_constraints: None }),
            default: ActionEnum::Allow,
        };
        let ctx = HttpCallContext::new(1, Rc::new(c));
        assert_eq!(ctx.header_filtering(&h).allow_evaluation, Some(expected), "{}", e);
    }
}

#[test]
fn records_only_before_end_of_stream() {
    let mut ctx = HttpCallContext::new(4, Rc::new(constraints(true, false, false)));
    let h = vec![("a".to_string(), "b".to_string())];
    assert_eq!(ctx.on_http_request_headers(true, h.clone()), (Action::Continue, None));
    assert_eq!(ctx.log_req_res.request_header, None);
    let (action, outcome) = ctx.on_http_request_headers(false, h.clone());
    assert_eq!(action, Action::Continue);
    assert_eq!(outcome.unwrap().action, Some(ActionEnum::Allow));
    assert_eq!(ctx.log_req_res.request_header, Some(h.clone()));
    assert_eq!(ctx.on_http_request_body(false, Some(b"x".to_vec())), Action::Continue);
    assert_eq!(ctx.on_http_request_body(true, Some(b"y".to_vec())), Action::Continue);
    assert_eq!(ctx.log_req_res.request_body, Some(b"x".to_vec()));
    assert_eq!(ctx.on_http_response_headers(false, h.clone()), Action::Continue);
    assert_eq!(ctx.log_req_res.response_header, Some(h));
    assert_eq!(ctx.on_http_response_body(false, None), Action::Continue);
    assert_eq!(ctx.log_req_res.response_body, None);
}

#[test]
fn on_log_sends_the_encoded_exchange_to_the_log_queue() {
    let mut ctx = HttpCallContext::new(9, Rc::new(constraints(true, false, false)));
    ctx.on_http_request_headers(false, vec![("h".to_string(), "v".to_string())]);
    ctx.on_http_request_body(false, Some(b"body".to_vec()));
    let (queue, bytes) = ctx.on_log().unwrap();
    assert_eq!(queue, 9);
    let (req, resp) = LogCollectorService::unwrap_request(bytes).unwrap();
    assert_eq!(req, "Request:\n Headers: [(\"h\", \"v\")] \n Body: body");
    assert_eq!(resp, "Response:\n Headers:  \n Body: ");
}

#[test]
fn root_context_starts_empty() {
    let root = WasmRootContext::new();
    assert_eq!(root.log_queue_token, 0);
    assert_eq!(root.filter_queue_token, 0);
    assert_eq!(*root.filtering_constraints, FilteringConstraints { request: None, default: ActionEnum::Allow });
}

#[test]
fn root_context_resolves_queues() {
    let mut root = WasmRootContext::new();
    root.resolve_log_queue(Some(3));
    root.resolve_control_queue(None);
    assert_eq!((root.log_queue_token, root.filter_queue_token), (3, 0));
    root.resolve_control_queue(Some(8));
    root.resolve_log_queue(None);
    assert_eq!((root.log_queue_token, root.filter_queue_token), (3, 8));
}

#[test]
fn root_context_takes_constraints_from_the_queue() {
    let mut root = WasmRootContext::new();
    root.resolve_log_queue(Some(5));
    root.read_control_queue(Some(FilterConstraintsService::constraints_payload()));
    assert_eq!(*root.filtering_constraints, FilterConstraintsService::create_control_filter());
    let ctx = root.create_http_context();
    assert_eq!(ctx.log_queue_token, 5);
    assert_eq!(ctx.header_filtering(&vec![]).action, Some(ActionEnum::Allow));
}

#[test]
fn root_context_keeps_constraints_on_bad_input() {
    let mut root = WasmRootContext::new();
    root.read_control_queue(Some(FilteringConstraints::encode(constraints(false, true, false))));
    root.read_control_queue(Some(vec![0, 9]));
    root.read_control_queue(Some(vec![]));
    root.read_control_queue(None);
    assert_eq!(*root.filtering_constraints, constraints(false, true, false));
}
