//! A logged HTTP exchange, and its bincode encoding, which the filters write
//! and the control plane reads.
use vstd::prelude::*;
use vstd::utf8::encode_utf8;
use crate::expr::headers_view;

verus! {

/// The abstract value of an exchange: request headers, request body,
/// response headers and response body, each present or not.
pub type ExchangeView = (
    Option<Seq<(Seq<char>, Seq<char>)>>,
    Option<Seq<u8>>,
    Option<Seq<(Seq<char>, Seq<char>)>>,
    Option<Seq<u8>>,
);

/// The exchange's fields as executable data, in order.
pub type ExchangeData = (
    Option<Vec<(String, String)>>,
    Option<Vec<u8>>,
    Option<Vec<(String, String)>>,
    Option<Vec<u8>>,
);

pub open spec fn opt_headers_view(o: Option<Vec<(String, String)>>) -> Option<Seq<(Seq<char>, Seq<char>)>> {
    match o {
        Some(h) => Some(headers_view(h@)),
        None => None,
    }
}

pub open spec fn opt_bytes_view(o: Option<Vec<u8>>) -> Option<Seq<u8>> {
    match o {
        Some(b) => Some(b@),
        None => None,
    }
}

pub open spec fn exchange_data_view(d: ExchangeData) -> ExchangeView {
    (opt_headers_view(d.0), opt_bytes_view(d.1), opt_headers_view(d.2), opt_bytes_view(d.3))
}

/// What bincode's decoder claims for the strings of a list of headers: eight
/// bytes for each string's length and one for each of its bytes.
pub open spec fn pair_claims(h: Seq<(Seq<char>, Seq<char>)>) -> nat
    decreases h.len(),
{
    if h.len() == 0 {
        0
    } else {
        pair_claims(h.drop_last()) + 16 + encode_utf8(h.last().0).len() + encode_utf8(h.last().1).len()
    }
}

/// A bound on what bincode's decoder claims at once for optional headers: the
/// tag, eight bytes for the length, the size of a header pair (48 bytes at
/// most) for each header, claimed ahead, and the strings.
pub open spec fn opt_headers_claims(o: Option<Seq<(Seq<char>, Seq<char>)>>) -> nat {
    1 + match o {
        Some(h) => 8 + 48 * h.len() + pair_claims(h),
        None => 0,
    }
}

/// What bincode's decoder claims for an optional body: the tag, eight bytes
/// for the length and one for each byte.
pub open spec fn opt_bytes_claims(o: Option<Seq<u8>>) -> nat {
    1 + match o {
        Some(b) => 8 + b.len(),
        None => 0,
    }
}

/// A bound on what bincode's decoder claims at once for an exchange.
pub open spec fn exchange_claims(x: ExchangeView) -> nat {
    opt_headers_claims(x.0) + opt_bytes_claims(x.1) + opt_headers_claims(x.2) + opt_bytes_claims(x.3)
}

/// The bytes that `bincode::encode_to_vec` with the standard configuration
/// writes for an exchange's fields, in order.
pub uninterp spec fn bincode_exchange_encoding(x: ExchangeView) -> Seq<u8>;

/// What `bincode::decode_from_slice` with the standard configuration and a
/// limit of `decode_limit` claimed bytes reads from the bytes as an exchange's fields,
/// with the number of bytes consumed; `None` where it fails.
pub uninterp spec fn bincode_exchange_decoding(bytes: Seq<u8>) -> Option<(ExchangeView, nat)>;

/// Calls `bincode::encode_to_vec` with `bincode::config::standard()` on the
/// exchange's fields, given by reference, as a tuple. Bincode encodes a tuple
/// field by field and a reference as its value, so these are the bytes of the
/// derived encoding of the exchange. The contract claims success (the writer is
/// an in-memory vector and none of the encoded types can fail) and names the
/// bytes.
#[verifier::external_body]
pub(crate) fn bincode_encode_exchange(
    request_header: &Option<Vec<(String, String)>>,
    request_body: &Option<Vec<u8>>,
    response_header: &Option<Vec<(String, String)>>,
    response_body: &Option<Vec<u8>>,
) -> (r: Result<Vec<u8>, bincode::error::EncodeError>)
    ensures
        r is Ok,
        r is Ok ==> r->Ok_0@ == bincode_exchange_encoding(
            (
                opt_headers_view(*request_header),
                opt_bytes_view(*request_body),
                opt_headers_view(*response_header),
                opt_bytes_view(*response_body),
            ),
        ),
{
    bincode::encode_to_vec(
        (request_header, request_body, response_header, response_body),
        bincode::config::standard(),
    )
}

/// Calls `bincode::decode_from_slice` with `bincode::config::standard()`
/// limited to `decode_limit` claimed bytes for an exchange's fields. Without a
/// limit, bincode allocates whatever a length prefix asks for, and a huge one
/// panics; with it, such a prefix is refused before anything is allocated. The
/// contract names the outcome and states the round trip that bincode
/// guarantees: bytes that begin with the encoding of a value decode to that
/// value, consuming exactly that encoding, wherever what the decoder claims
/// for that value (at most `exchange_claims`) stays within the limit.
#[verifier::external_body]
pub(crate) fn bincode_decode_exchange(bytes: &[u8]) -> (r: Result<(ExchangeData, usize), bincode::error::DecodeError>)
    ensures
        r is Ok <==> bincode_exchange_decoding(bytes@) is Some,
        r is Ok ==> bincode_exchange_decoding(bytes@) == Some((exchange_data_view(r->Ok_0.0), r->Ok_0.1 as nat)),
        forall|x: ExchangeView|
            crate::constraints::is_prefix(#[trigger] bincode_exchange_encoding(x), bytes@) && exchange_claims(x) <= crate::constraints::decode_limit() ==> r is Ok && exchange_data_view(r->Ok_0.0) == x && r->Ok_0.1 == bincode_exchange_encoding(x).len(),
{
    bincode::decode_from_slice(bytes, bincode::config::standard().with_limit::<2147483647>())
}

/// What a filter records of one HTTP exchange, to be logged.
#[derive(Debug, PartialEq, Eq)]
pub struct HttpRequestResponse {
    pub request_header: Option<Vec<(String, String)>>,
    pub request_body: Option<Vec<u8>>,
    pub response_header: Option<Vec<(String, String)>>,
    pub response_body: Option<Vec<u8>>,
}

impl View for HttpRequestResponse {
    type V = ExchangeView;

    open spec fn view(&self) -> ExchangeView {
        (
            opt_headers_view(self.request_header),
            opt_bytes_view(self.request_body),
            opt_headers_view(self.response_header),
            opt_bytes_view(self.response_body),
        )
    }
}

impl HttpRequestResponse {
    /// The abstract value of an exchange of which nothing has been recorded.
    pub open spec fn new_view() -> ExchangeView {
        (
            None::<Seq<(Seq<char>, Seq<char>)>>,
            None::<Seq<u8>>,
            None::<Seq<(Seq<char>, Seq<char>)>>,
            None::<Seq<u8>>,
        )
    }

    /// An exchange of which nothing has been recorded yet.
    pub fn new() -> (r: HttpRequestResponse)
        ensures
            r@ == Self::new_view(),
    {
        HttpRequestResponse {
            request_header: None,
            request_body: None,
            response_header: None,
            response_body: None,
        }
    }

    /// Encodes the exchange with bincode's standard configuration.
    pub fn encode_contents(content: &HttpRequestResponse) -> (r: Result<Vec<u8>, bincode::error::EncodeError>)
        ensures
            r is Ok,
            r is Ok ==> r->Ok_0@ == bincode_exchange_encoding(content@),
    {
        bincode_encode_exchange(
            &content.request_header,
            &content.request_body,
            &content.response_header,
            &content.response_body,
        )
    }
}

} // verus!
