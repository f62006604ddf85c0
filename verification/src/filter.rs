//! The proxy-wasm filter: the root context that keeps the current filtering
//! constraints, and the per-request context that applies them and records the
//! exchange for logging.
use vstd::prelude::*;
use std::rc::Rc;
use crate::constraints::{
    bincode_filtering_decoding, bincode_filtering_encoding, decode_limit, filtering_claims, filtering_wire, is_prefix,
    action_of_index, ActionEnum, FilteringConstraints, FilteringView, HeaderConstraintView,
};
use crate::exchange::{bincode_exchange_encoding, opt_bytes_view, HttpRequestResponse};
use crate::evaluation::{evalexpr_evaluation, evaluate_header_expression, expression_functions};
use crate::expr::ExprFunction;
use crate::expr::headers_view;

verus! {

/// What the host proxy does next with the stream, as `proxy_wasm::types::Action`.
#[derive(PartialEq, Eq, Structural, Debug, Clone, Copy)]
pub enum Action {
    Continue,
    Pause,
}

/// Calls `Rc::clone`, which hands out another pointer to the same value; in
/// Verus an `Rc` stands for the value it points to, so the contract states
/// that the clone is equal to the original.
#[verifier::external_body]
fn share_constraints(rc: &Rc<FilteringConstraints>) -> (r: Rc<FilteringConstraints>)
    ensures
        r == *rc,
{
    Rc::clone(rc)
}

/// The action that the header constraint calls for: the first of allow, deny
/// and log that has an expression; none where there is no header constraint
/// or it has no expression.
pub open spec fn header_decision(f: FilteringView) -> Option<ActionEnum> {
    match f.0 {
        Some(c) => if c.0 is Some {
            Some(ActionEnum::Allow)
        } else if c.1 is Some {
            Some(ActionEnum::Deny)
        } else if c.2 is Some {
            Some(ActionEnum::Log)
        } else {
            None
        },
        None => None,
    }
}

/// The allow expression decides first, then the deny expression, then the
/// log expression: a constraint whose first expression present is a deny
/// expression denies, whatever log expression it has, and one with no
/// expression, or no header constraint at all, calls for no action.
pub proof fn law_header_decision_precedence(f: FilteringView)
    ensures
        (f.0 matches Some(c) && c.0 is Some) ==> header_decision(f) == Some(ActionEnum::Allow),
        (f.0 matches Some(c) && c.0 is None && c.1 is Some) ==> header_decision(f) == Some(ActionEnum::Deny),
        (f.0 matches Some(c) && c.0 is None && c.1 is None && c.2 is Some) ==> header_decision(f) == Some(ActionEnum::Log),
        (f.0 matches Some(c) && c.0 is None && c.1 is None && c.2 is None) ==> header_decision(f) is None,
        f.0 is None ==> header_decision(f) is None,
{
}

/// The allow expression is evaluated in the context of the expression
/// language's functions and `head`, reading the whole list of the request's
/// headers, whatever its length; without an allow expression nothing is
/// evaluated.
pub proof fn law_allow_evaluation_reads_all_headers(f: FilteringView, headers: Seq<(Seq<char>, Seq<char>)>)
    ensures
        f.0 matches Some(c) ==> (c.0 matches Some(e) ==> allow_evaluation(f, headers) == Some(
            evalexpr_evaluation(e, (expression_functions().push(("head"@, ExprFunction::Head)), headers)),
        )),
        (f.0 matches Some(c) && c.0 is Some) || allow_evaluation(f, headers) is None,
{
}

/// What filtering a request's headers gave: the action the constraints call
/// for, and, where there is an allow expression, whether it evaluated to true
/// or false (`None` inside where evaluation failed).
#[derive(Debug, PartialEq, Eq)]
pub struct FilteringOutcome {
    pub action: Option<ActionEnum>,
    pub allow_evaluation: Option<Option<bool>>,
}

/// The outcome of evaluating the allow expression on the headers, where the
/// constraints hold one.
pub open spec fn allow_evaluation(f: FilteringView, headers: Seq<(Seq<char>, Seq<char>)>) -> Option<Option<bool>> {
    match f.0 {
        Some(c) => match c.0 {
            Some(e) => Some(evalexpr_evaluation(e, (expression_functions().push(("head"@, ExprFunction::Head)), headers))),
            None => None,
        },
        None => None,
    }
}

/// The context of one HTTP exchange passing through the filter.
pub struct HttpCallContext {
    pub log_req_res: HttpRequestResponse,
    pub log_queue_token: u32,
    pub filters: Rc<FilteringConstraints>,
}

impl HttpCallContext {
    pub fn new(log_queue_token: u32, filters: Rc<FilteringConstraints>) -> (r: HttpCallContext)
        ensures
            r.log_req_res@ == HttpRequestResponse::new_view(),
            r.log_queue_token == log_queue_token,
            r.filters == filters,
    {
        HttpCallContext { log_req_res: HttpRequestResponse::new(), log_queue_token, filters }
    }

    /// The action that the constraints call for on the request's headers,
    /// with the outcome of evaluating the allow expression, if there is one,
    /// on those headers.
    pub fn header_filtering(&self, headers: &Vec<(String, String)>) -> (r: FilteringOutcome)
        ensures
            r.action == header_decision(self.filters@),
            r.allow_evaluation == allow_evaluation(self.filters@, headers_view(headers@)),
            (self.filters@.0 matches Some(c) && c.0 is Some) ==> r.action == Some(ActionEnum::Allow),
            (self.filters@.0 matches Some(c) && c.0 is None && c.1 is Some) ==> r.action == Some(ActionEnum::Deny),
            (self.filters@.0 matches Some(c) && c.0 is None && c.1 is None && c.2 is Some) ==> r.action == Some(
                ActionEnum::Log,
            ),
            (self.filters@.0 matches Some(c) && c.0 is None && c.1 is None && c.2 is None) ==> r.action is None,
            self.filters@.0 is None ==> r.action is None,
            self.filters@.0 matches Some(c) ==> (c.0 matches Some(e) ==> r.allow_evaluation == Some(
                evalexpr_evaluation(e, (expression_functions().push(("head"@, ExprFunction::Head)), headers_view(headers@))),
            )),
            (self.filters@.0 matches Some(c) && c.0 is Some) || r.allow_evaluation is None,
    {
        let filter: &FilteringConstraints = &self.filters;
        if let Some(header_filter) = &filter.request {
            if let Some(expression) = &header_filter.allow_constraints {
                let result = evaluate_header_expression(expression.as_str(), headers);
                return FilteringOutcome { action: Some(ActionEnum::Allow), allow_evaluation: Some(result) };
            }
            if header_filter.deny_constraints.is_some() {
                return FilteringOutcome { action: Some(ActionEnum::Deny), allow_evaluation: None };
            }
            if header_filter.log_constraints.is_some() {
                return FilteringOutcome { action: Some(ActionEnum::Log), allow_evaluation: None };
            }
        }
        FilteringOutcome { action: None, allow_evaluation: None }
    }

    /// The request's headers have arrived: unless the stream has ended, they
    /// are filtered by the constraints, with the outcome returned, and
    /// recorded for logging.
    pub fn on_http_request_headers(&mut self, end_of_stream: bool, headers: Vec<(String, String)>) -> (r: (Action, Option<FilteringOutcome>))
        ensures
            r.0 == Action::Continue,
            end_of_stream ==> r.1 is None,
            !end_of_stream ==> (r.1 matches Some(o) && o.action == header_decision(old(self).filters@)
                && o.allow_evaluation == allow_evaluation(old(self).filters@, headers_view(headers@))),
            final(self).log_queue_token == old(self).log_queue_token,
            final(self).filters == old(self).filters,
            final(self).log_req_res@ == if end_of_stream {
                old(self).log_req_res@
            } else {
                (Some(headers_view(headers@)), old(self).log_req_res@.1, old(self).log_req_res@.2, old(self).log_req_res@.3)
            },
    {
        if !end_of_stream {
            let outcome = self.header_filtering(&headers);
            self.log_req_res.request_header = Some(headers);
            (Action::Continue, Some(outcome))
        } else {
            (Action::Continue, None)
        }
    }

    /// A part of the request's body has arrived: unless the stream has ended,
    /// it is recorded for logging.
    pub fn on_http_request_body(&mut self, end_of_stream: bool, body: Option<Vec<u8>>) -> (r: Action)
        ensures
            r == Action::Continue,
            final(self).log_queue_token == old(self).log_queue_token,
            final(self).filters == old(self).filters,
            final(self).log_req_res@ == if end_of_stream {
                old(self).log_req_res@
            } else {
                (old(self).log_req_res@.0, opt_bytes_view(body), old(self).log_req_res@.2, old(self).log_req_res@.3)
            },
    {
        if !end_of_stream {
            self.log_req_res.request_body = body;
        }
        Action::Continue
    }

    /// The response's headers have arrived: unless the stream has ended, the
    /// headers handed in are recorded as the response's.
    pub fn on_http_response_headers(&mut self, end_of_stream: bool, headers: Vec<(String, String)>) -> (r: Action)
        ensures
            r == Action::Continue,
            final(self).log_queue_token == old(self).log_queue_token,
            final(self).filters == old(self).filters,
            final(self).log_req_res@ == if end_of_stream {
                old(self).log_req_res@
            } else {
                (old(self).log_req_res@.0, old(self).log_req_res@.1, Some(headers_view(headers@)), old(self).log_req_res@.3)
            },
    {
        if !end_of_stream {
            self.log_req_res.response_header = Some(headers);
        }
        Action::Continue
    }

    /// A part of the response's body has arrived: unless the stream has ended,
    /// it is recorded for logging.
    pub fn on_http_response_body(&mut self, end_of_stream: bool, body: Option<Vec<u8>>) -> (r: Action)
        ensures
            r == Action::Continue,
            final(self).log_queue_token == old(self).log_queue_token,
            final(self).filters == old(self).filters,
            final(self).log_req_res@ == if end_of_stream {
                old(self).log_req_res@
            } else {
                (old(self).log_req_res@.0, old(self).log_req_res@.1, old(self).log_req_res@.2, opt_bytes_view(body))
            },
    {
        if !end_of_stream {
            self.log_req_res.response_body = body;
        }
        Action::Continue
    }

    /// The exchange is over: the queue to log it on, and the encoded exchange
    /// to put there.
    pub fn on_log(&self) -> (r: Option<(u32, Vec<u8>)>)
        ensures
            r matches Some((q, bytes)) && q == self.log_queue_token
                && bytes@ == bincode_exchange_encoding(self.log_req_res@),
    {
        let result = HttpRequestResponse::encode_contents(&self.log_req_res);
        if let Ok(bin) = result {
            Some((self.log_queue_token, bin))
        } else {
            None
        }
    }
}

/// The filter's root context: the tokens of the shared queues it uses, and the
/// constraints that the control plane last handed out.
pub struct WasmRootContext {
    pub log_queue_token: u32,
    pub filter_queue_token: u32,
    pub filtering_constraints: Rc<FilteringConstraints>,
}

impl WasmRootContext {
    /// No queue resolved yet, and the default constraints.
    pub fn new() -> (r: WasmRootContext)
        ensures
            r.log_queue_token == 0,
            r.filter_queue_token == 0,
            r.filtering_constraints@ == (None::<HeaderConstraintView>, ActionEnum::Allow),
    {
        WasmRootContext {
            log_queue_token: 0,
            filter_queue_token: 0,
            filtering_constraints: Rc::new(FilteringConstraints::default()),
        }
    }

    /// Keeps the token of the log queue, where the host resolved it.
    pub fn resolve_log_queue(&mut self, token: Option<u32>)
        ensures
            final(self).log_queue_token == match token {
                Some(t) => t,
                None => old(self).log_queue_token,
            },
            final(self).filter_queue_token == old(self).filter_queue_token,
            final(self).filtering_constraints == old(self).filtering_constraints,
    {
        if let Some(t) = token {
            self.log_queue_token = t;
        }
    }

    /// Keeps the token of the queue of constraints, where the host resolved it.
    pub fn resolve_control_queue(&mut self, token: Option<u32>)
        ensures
            final(self).filter_queue_token == match token {
                Some(t) => t,
                None => old(self).filter_queue_token,
            },
            final(self).log_queue_token == old(self).log_queue_token,
            final(self).filtering_constraints == old(self).filtering_constraints,
    {
        if let Some(t) = token {
            self.filter_queue_token = t;
        }
    }

    /// Takes what was dequeued from the queue of constraints: bytes that
    /// decode to constraints replace the current ones; anything else leaves
    /// them.
    pub fn read_control_queue(&mut self, dequeued: Option<Vec<u8>>)
        ensures
            final(self).log_queue_token == old(self).log_queue_token,
            final(self).filter_queue_token == old(self).filter_queue_token,
            match dequeued {
                Some(bytes) => match bincode_filtering_decoding(bytes@) {
                    Some((w, n)) => if action_of_index(w.1) is Some {
                        filtering_wire(final(self).filtering_constraints@) == w
                    } else {
                        final(self).filtering_constraints == old(self).filtering_constraints
                    },
                    None => final(self).filtering_constraints == old(self).filtering_constraints,
                },
                None => final(self).filtering_constraints == old(self).filtering_constraints,
            },
            forall|v: FilteringView|
                dequeued matches Some(bytes) && is_prefix(#[trigger] bincode_filtering_encoding(filtering_wire(v)), bytes@)
                    && filtering_claims(filtering_wire(v)) <= decode_limit()
                    ==> final(self).filtering_constraints@ == v,
    {
        if let Some(bytes) = dequeued {
            if let Ok((filter, _)) = FilteringConstraints::decode_filters(bytes) {
                self.filtering_constraints = Rc::new(filter);
            }
        }
    }

    /// The context for a new HTTP exchange: it logs to the log queue and
    /// applies the current constraints.
    pub fn create_http_context(&self) -> (r: HttpCallContext)
        ensures
            r.log_queue_token == self.log_queue_token,
            r.filters == self.filtering_constraints,
            r.log_req_res@ == HttpRequestResponse::new_view(),
    {
        HttpCallContext::new(self.log_queue_token, share_constraints(&self.filtering_constraints))
    }
}

} // verus!
