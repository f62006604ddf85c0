//! The control plane's services: the one that hands out the filtering
//! constraints, and the one that reads the exchanges logged by the filters.
use vstd::prelude::*;
use vstd::string::StringExecFns;
use vstd::utf8::{decode_utf8, valid_utf8};
use crate::constraints::{
    bincode_filtering_encoding, decode_limit, filtering_claims, filtering_wire, is_prefix, lemma_utf8_len_bound, ActionEnum, FilteringConstraints,
    FilteringView, RequestHeadersConstraint,
};
use crate::exchange::{
    bincode_decode_exchange, bincode_exchange_decoding, bincode_exchange_encoding,
    exchange_claims, opt_bytes_view, opt_headers_view, ExchangeView,
};
use crate::expr::headers_view;
use crate::text::{contains_seq, debug_quoted, join, lemma_join_contains, str_debug, string_from_utf8};

verus! {

/// The service that hands the filtering constraints to the filters.
pub struct FilterConstraintsService {}

impl Default for FilterConstraintsService {
    fn default() -> (r: FilterConstraintsService)
        ensures
            r == (FilterConstraintsService {}),
    {
        FilterConstraintsService {}
    }
}

/// The constraints that the control plane hands out.
pub open spec fn control_filter_view() -> FilteringView {
    (
        Some(
            (
                Some(
                    "match(index(split(head(lowercase(\"content-type\")), \";\"), 0), \"application/json\")"@,
                ),
                Some("Denyeee Expression"@),
                Some("Logee Expression"@),
            ),
        ),
        ActionEnum::Log,
    )
}

impl FilterConstraintsService {
    /// The constraints that the control plane hands out: allow requests whose
    /// content type is JSON, with a deny and a log expression, and logging as
    /// the default action.
    pub fn create_control_filter() -> (r: FilteringConstraints)
        ensures
            r@ == control_filter_view(),
    {
        let header_constraint = RequestHeadersConstraint {
            allow_constraints: Some(
                String::from_str(
                    "match(index(split(head(lowercase(\"content-type\")), \";\"), 0), \"application/json\")",
                ),
            ),
            deny_constraints: Some(String::from_str("Denyeee Expression")),
            log_constraints: Some(String::from_str("Logee Expression")),
        };
        FilteringConstraints { request: Some(header_constraint), default: ActionEnum::Log }
    }

    /// The payload of the answer to a request for the constraints: the
    /// encoded constraints of `create_control_filter`.
    pub fn constraints_payload() -> (r: Vec<u8>)
        ensures
            r@ == bincode_filtering_encoding(filtering_wire(control_filter_view())),
            filtering_claims(filtering_wire(control_filter_view())) <= decode_limit(),
    {
        proof {
            reveal_strlit(
                "match(index(split(head(lowercase(\"content-type\")), \";\"), 0), \"application/json\")",
            );
            reveal_strlit("Denyeee Expression");
            reveal_strlit("Logee Expression");
            lemma_utf8_len_bound(
                "match(index(split(head(lowercase(\"content-type\")), \";\"), 0), \"application/json\")"@,
            );
            lemma_utf8_len_bound("Denyeee Expression"@);
            lemma_utf8_len_bound("Logee Expression"@);
        }
        let filter = Self::create_control_filter();
        FilteringConstraints::encode(filter)
    }
}

/// One logged HTTP exchange, as the control plane reads it.
#[derive(Debug, PartialEq, Eq)]
pub struct HttpCall {
    pub request_header: Option<Vec<(String, String)>>,
    pub request_body: Option<Vec<u8>>,
    pub response_header: Option<Vec<(String, String)>>,
    pub response_body: Option<Vec<u8>>,
}

impl View for HttpCall {
    type V = ExchangeView;

    open spec fn view(&self) -> ExchangeView {
        (
            opt_headers_view(self.request_header),
            opt_bytes_view(self.request_body),
            opt_headers_view(self.response_header),
            opt_bytes_view(self.response_body),
        )
    }
}

/// How `Debug` writes a header: its name and value, quoted, as a pair.
pub open spec fn pair_debug(p: (Seq<char>, Seq<char>)) -> Seq<char> {
    "("@ + str_debug(p.0) + ", "@ + str_debug(p.1) + ")"@
}

/// How `Debug` writes a list of headers.
pub open spec fn headers_debug(h: Seq<(Seq<char>, Seq<char>)>) -> Seq<char> {
    "["@ + join(h.map_values(|p: (Seq<char>, Seq<char>)| pair_debug(p)), ", "@) + "]"@
}

/// No headers are written as an empty list.
pub proof fn law_headers_debug_empty()
    ensures
        headers_debug(Seq::<(Seq<char>, Seq<char>)>::empty()) == "[]"@,
{
    reveal_strlit("[");
    reveal_strlit("]");
    reveal_strlit("[]");
    assert(Seq::<(Seq<char>, Seq<char>)>::empty().map_values(|p: (Seq<char>, Seq<char>)| pair_debug(p))
        =~= Seq::<Seq<char>>::empty());
    assert(headers_debug(Seq::<(Seq<char>, Seq<char>)>::empty()) =~= "[]"@);
}

/// One more header makes the list's text longer by exactly that header's
/// pair, after a separator where the list was not empty: every header is
/// written, however many there are.
pub proof fn law_headers_debug_push(h: Seq<(Seq<char>, Seq<char>)>, e: (Seq<char>, Seq<char>))
    ensures
        headers_debug(h.push(e)) == headers_debug(h).drop_last() + (if h.len() == 0 {
            Seq::<char>::empty()
        } else {
            ", "@
        }) + pair_debug(e) + "]"@,
        headers_debug(h.push(e)).len() > headers_debug(h).len(),
{
    reveal_strlit("]");
    reveal_strlit("(");
    reveal_strlit(")");
    let items = h.map_values(|p: (Seq<char>, Seq<char>)| pair_debug(p));
    let items2 = h.push(e).map_values(|p: (Seq<char>, Seq<char>)| pair_debug(p));
    assert(items2 =~= items.push(pair_debug(e)));
    assert(items2.drop_last() =~= items);
    let jd = join(items, ", "@);
    assert(headers_debug(h).drop_last() =~= "["@ + jd);
    if h.len() == 0 {
        assert(items2.len() == 1);
        assert(join(items2, ", "@) == pair_debug(e));
        assert(jd == Seq::<char>::empty());
        assert(headers_debug(h.push(e)) =~= headers_debug(h).drop_last() + Seq::<char>::empty() + pair_debug(e) + "]"@);
    } else {
        assert(join(items2, ", "@) == jd + ", "@ + pair_debug(e));
        assert(headers_debug(h.push(e)) =~= headers_debug(h).drop_last() + ", "@ + pair_debug(e) + "]"@);
    }
}

/// Every header of the list is written in the list's text.
pub proof fn law_headers_debug_lists_every_header(h: Seq<(Seq<char>, Seq<char>)>, i: int)
    requires
        0 <= i < h.len(),
    ensures
        contains_seq(headers_debug(h), pair_debug(h[i])),
{
    let items = h.map_values(|p: (Seq<char>, Seq<char>)| pair_debug(p));
    let jd = join(items, ", "@);
    lemma_join_contains(items, ", "@, i);
    assert(items[i] == pair_debug(h[i]));
    let n = pair_debug(h[i]).len() as int;
    let p = choose|p: int| 0 <= p && p + n <= jd.len() && #[trigger] jd.subrange(p, p + n) == pair_debug(h[i]);
    reveal_strlit("[");
    let t = headers_debug(h);
    assert(t == "["@ + jd + "]"@);
    assert(t.subrange(p + 1, p + 1 + n) =~= jd.subrange(p, p + n));
}

/// The text logged for optional headers: their `Debug` form, or nothing.
pub open spec fn headers_text(h: Option<Seq<(Seq<char>, Seq<char>)>>) -> Seq<char> {
    match h {
        Some(h) => headers_debug(h),
        None => seq![],
    }
}

/// The text logged for an optional body: the body where it is UTF-8, else
/// nothing.
pub open spec fn body_text(b: Option<Seq<u8>>) -> Seq<char> {
    match b {
        Some(b) => if valid_utf8(b) {
            decode_utf8(b)
        } else {
            seq![]
        },
        None => seq![],
    }
}

/// The line logged for the request half of an exchange.
pub open spec fn request_report(x: ExchangeView) -> Seq<char> {
    "Request:\n Headers: "@ + headers_text(x.0) + " \n Body: "@ + body_text(x.1)
}

/// The line logged for the response half of an exchange.
pub open spec fn response_report(x: ExchangeView) -> Seq<char> {
    "Response:\n Headers: "@ + headers_text(x.2) + " \n Body: "@ + body_text(x.3)
}

/// The service that collects the exchanges logged by the filters.
pub struct LogCollectorService {}

impl Default for LogCollectorService {
    fn default() -> (r: LogCollectorService)
        ensures
            r == (LogCollectorService {}),
    {
        LogCollectorService {}
    }
}

impl LogCollectorService {
    /// Decodes a logged exchange, returning it with the number of bytes read.
    pub fn decode_bytes(bytes: Vec<u8>) -> (r: Result<(HttpCall, usize), bincode::error::DecodeError>)
        ensures
            r is Ok <==> bincode_exchange_decoding(bytes@) is Some,
            r is Ok ==> bincode_exchange_decoding(bytes@) == Some((r->Ok_0.0@, r->Ok_0.1 as nat)),
            forall|x: ExchangeView|
                is_prefix(#[trigger] bincode_exchange_encoding(x), bytes@) && exchange_claims(x) <= decode_limit() ==> r is Ok && r->Ok_0.0@ == x
                    && r->Ok_0.1 == bincode_exchange_encoding(x).len(),
    {
        match bincode_decode_exchange(bytes.as_slice()) {
            Ok(((request_header, request_body, response_header, response_body), n)) => {
                Ok((HttpCall { request_header, request_body, response_header, response_body }, n))
            },
            Err(e) => Err(e),
        }
    }

    /// The `Debug` form of the headers, or the empty string where there are
    /// none.
    pub fn extract_headers(headers: Option<Vec<(String, String)>>) -> (r: String)
        ensures
            r@ == headers_text(opt_headers_view(headers)),
            headers matches Some(h) ==> forall|i: int|
                0 <= i < h@.len() ==> contains_seq(r@, pair_debug(#[trigger] headers_view(h@)[i])),
    {
        match headers {
            Some(h) => {
                let ghost hv = headers_view(h@);
                let ghost items = hv.map_values(|p: (Seq<char>, Seq<char>)| pair_debug(p));
                let mut res = String::from_str("[");
                let mut i: usize = 0;
                proof {
                    assert(items.take(0) =~= Seq::<Seq<char>>::empty());
                }
                while i < h.len()
                    invariant
                        0 <= i <= h@.len(),
                        hv == headers_view(h@),
                        items == hv.map_values(|p: (Seq<char>, Seq<char>)| pair_debug(p)),
                        res@ == "["@ + join(items.take(i as int), ", "@),
                    decreases h@.len() - i,
                {
                    let ghost before = res@;
                    if i != 0 {
                        res.append(", ");
                    }
                    res.append("(");
                    let name = debug_quoted(h[i].0.as_str());
                    res.append(name.as_str());
                    res.append(", ");
                    let value = debug_quoted(h[i].1.as_str());
                    res.append(value.as_str());
                    res.append(")");
                    proof {
                        assert(items[i as int] == pair_debug(hv[i as int]));
                        assert(items.take(i + 1).drop_last() =~= items.take(i as int));
                        if i == 0 {
                            assert(res@ =~= "["@ + items[0]);
                        } else {
                            assert(res@ =~= before + ", "@ + items[i as int]);
                        }
                    }
                    i = i + 1;
                }
                res.append("]");
                proof {
                    assert(items.take(h@.len() as int) =~= items);
                    assert forall|i: int| 0 <= i < h@.len() implies contains_seq(res@, pair_debug(#[trigger] headers_view(h@)[i])) by {
                        law_headers_debug_lists_every_header(hv, i);
                    }
                }
                res
            },
            None => String::new(),
        }
    }

    /// The body as text where it is UTF-8, else the empty string.
    pub fn extract_body(body: Option<Vec<u8>>) -> (r: String)
        ensures
            r@ == body_text(opt_bytes_view(body)),
    {
        if let Some(request) = body {
            if let Some(request_body) = string_from_utf8(request) {
                return request_body;
            }
        }
        String::new()
    }

    /// The two lines that the control plane prints for a logged exchange:
    /// the request's headers and body, then the response's.
    pub fn extract_http_call(http_call: HttpCall) -> (r: (String, String))
        ensures
            r.0@ == request_report(http_call@),
            r.1@ == response_report(http_call@),
    {
        let ghost x = http_call@;
        let request_headers = Self::extract_headers(http_call.request_header);
        let request_body = Self::extract_body(http_call.request_body);
        let response_headers = Self::extract_headers(http_call.response_header);
        let response_body = Self::extract_body(http_call.response_body);
        let mut request = String::from_str("Request:\n Headers: ");
        request.append(request_headers.as_str());
        request.append(" \n Body: ");
        request.append(request_body.as_str());
        let mut response = String::from_str("Response:\n Headers: ");
        response.append(response_headers.as_str());
        response.append(" \n Body: ");
        response.append(response_body.as_str());
        (request, response)
    }

    /// Decodes a logged exchange and gives the lines to print for it; `None`
    /// where the bytes do not decode.
    pub fn unwrap_request(bytes: Vec<u8>) -> (r: Option<(String, String)>)
        ensures
            r is Some <==> bincode_exchange_decoding(bytes@) is Some,
            r matches Some((a, b)) ==> (bincode_exchange_decoding(bytes@) matches Some((x, n))
                && a@ == request_report(x) && b@ == response_report(x)),
            forall|x: ExchangeView|
                is_prefix(#[trigger] bincode_exchange_encoding(x), bytes@) && exchange_claims(x) <= decode_limit() ==> (r matches Some((a, b))
                    && a@ == request_report(x) && b@ == response_report(x)),
    {
        let decode = Self::decode_bytes(bytes);
        if let Ok((http_call, _)) = decode {
            Some(Self::extract_http_call(http_call))
        } else {
            None
        }
    }
}

} // verus!
