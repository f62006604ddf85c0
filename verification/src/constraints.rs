use vstd::prelude::*;
use vstd::utf8::encode_utf8;

verus! {

/// Declares `bincode::error::DecodeError` so that it can stand in signatures.
#[verifier::external_type_specification]
#[verifier::external_body]
pub struct ExDecodeError(bincode::error::DecodeError);

/// Declares `bincode::error::EncodeError` so that it can stand in signatures.
#[verifier::external_type_specification]
#[verifier::external_body]
pub struct ExEncodeError(bincode::error::EncodeError);

/// What a filter does with a request.
#[derive(PartialEq, Eq, Structural, Debug, Clone, Copy)]
pub enum ActionEnum {
    Allow,
    Deny,
    Log,
}

/// Expressions that a request's headers are checked against.
#[derive(Debug, PartialEq, Eq)]
pub struct RequestHeadersConstraint {
    pub allow_constraints: Option<String>,
    pub deny_constraints: Option<String>,
    pub log_constraints: Option<String>,
}

/// The constraints that the control plane hands to the filters.
#[derive(Debug, PartialEq, Eq)]
pub struct FilteringConstraints {
    pub request: Option<RequestHeadersConstraint>,
    pub default: ActionEnum,
}

/// The abstract value of a header constraint: its three expressions.
pub type HeaderConstraintView = (Option<Seq<char>>, Option<Seq<char>>, Option<Seq<char>>);

/// The abstract value of the filtering constraints.
pub type FilteringView = (Option<HeaderConstraintView>, ActionEnum);

/// What bincode sees of the constraints: the header constraint's fields in
/// order, then the action as its variant index.
pub type FilteringWire = (Option<HeaderConstraintView>, u32);

/// The wire form as executable data.
pub type FilteringWireData = (Option<(Option<String>, Option<String>, Option<String>)>, u32);

impl View for RequestHeadersConstraint {
    type V = HeaderConstraintView;

    open spec fn view(&self) -> HeaderConstraintView {
        (self.allow_constraints.deep_view(), self.deny_constraints.deep_view(), self.log_constraints.deep_view())
    }
}

impl View for FilteringConstraints {
    type V = FilteringView;

    open spec fn view(&self) -> FilteringView {
        (
            match self.request {
                Some(r) => Some(r@),
                None => None,
            },
            self.default,
        )
    }
}

/// The variant index that bincode's derived encoding gives each action.
pub open spec fn action_index(a: ActionEnum) -> u32 {
    match a {
        ActionEnum::Allow => 0,
        ActionEnum::Deny => 1,
        ActionEnum::Log => 2,
    }
}

/// The action with a given variant index, if there is one.
pub open spec fn action_of_index(i: u32) -> Option<ActionEnum> {
    if i == 0 {
        Some(ActionEnum::Allow)
    } else if i == 1 {
        Some(ActionEnum::Deny)
    } else if i == 2 {
        Some(ActionEnum::Log)
    } else {
        None
    }
}

/// An action's variant index on the wire is its position in the enum, as
/// bincode's derive numbers the variants: allow 0, deny 1, log 2; reading an
/// index back gives the action, and no other index names one.
pub proof fn law_action_variant_indices(a: ActionEnum, i: u32)
    ensures
        action_index(ActionEnum::Allow) == 0,
        action_index(ActionEnum::Deny) == 1,
        action_index(ActionEnum::Log) == 2,
        action_of_index(action_index(a)) == Some(a),
        action_of_index(i) is Some <==> i < 3,
        action_of_index(i) matches Some(b) ==> action_index(b) == i,
{
}

pub open spec fn filtering_wire(v: FilteringView) -> FilteringWire {
    (v.0, action_index(v.1))
}

/// The bytes that `bincode::encode_to_vec` with the standard configuration
/// writes for the constraints' wire form.
pub uninterp spec fn bincode_filtering_encoding(w: FilteringWire) -> Seq<u8>;

/// What `bincode::decode_from_slice` with the standard configuration and a
/// limit of `decode_limit` claimed bytes reads from the given bytes as
/// the constraints' wire form, with the number of bytes it consumed; `None`
/// where it fails.
pub uninterp spec fn bincode_filtering_decoding(bytes: Seq<u8>) -> Option<(FilteringWire, nat)>;

/// Calls `bincode::encode_to_vec` with `bincode::config::standard()` on the
/// constraints' wire form, given by reference. Bincode encodes a reference as
/// the value it points to, and a tuple field by field, so these are the bytes
/// of the derived encoding of the constraints. The contract claims that the
/// call succeeds (its writer is an in-memory vector, and none of the encoded
/// types can fail) and names the bytes it returns. Where there is no header
/// constraint, it also states them: the option's tag byte 0, then the variant
/// index, which the standard variable-length integer encoding writes as a
/// single byte up to 250.
#[verifier::external_body]
fn bincode_encode_filtering(
    request: Option<(&Option<String>, &Option<String>, &Option<String>)>,
    variant: u32,
) -> (r: Result<Vec<u8>, bincode::error::EncodeError>)
    ensures
        r is Ok,
        r matches Ok(bytes) ==> bytes@ == bincode_filtering_encoding(
            (
                match request {
                    Some(t) => Some((t.0.deep_view(), t.1.deep_view(), t.2.deep_view())),
                    None => None,
                },
                variant,
            ),
        ),
        request is None && variant <= 250 ==> r->Ok_0@ == seq![0u8, variant as u8],
{
    bincode::encode_to_vec((request, variant), bincode::config::standard())
}

/// Calls `bincode::decode_from_slice` with `bincode::config::standard()`
/// limited to `decode_limit` claimed bytes for the constraints' wire form.
/// Without a limit, bincode allocates whatever a length prefix asks for, and a
/// huge one panics; with it, such a prefix is refused before anything is
/// allocated. The contract names the outcome and states the round trip that
/// bincode guarantees: bytes that begin with the encoding of a value decode to
/// that value, consuming exactly that encoding, wherever what the decoder
/// claims for that value (`filtering_claims`) stays within the limit. It also
/// states how the shortest input reads: a zero tag byte is an absent header
/// constraint, and a following byte of at most 250 is a variant index written
/// in a single byte, so two such bytes decode to those values.
#[verifier::external_body]
fn bincode_decode_filtering(bytes: &[u8]) -> (r: Result<(FilteringWireData, usize), bincode::error::DecodeError>)
    ensures
        bytes@.len() >= 2 && bytes@[0] == 0u8 && bytes@[1] <= 250u8 ==> r is Ok && r->Ok_0.0.deep_view() == (
            None::<HeaderConstraintView>,
            bytes@[1] as u32,
        ) && r->Ok_0.1 == 2,
        r is Ok <==> bincode_filtering_decoding(bytes@) is Some,
        r matches Ok((w, n)) ==> bincode_filtering_decoding(bytes@) == Some((w.deep_view(), n as nat)),
        forall|w: FilteringWire|
            is_prefix(#[trigger] bincode_filtering_encoding(w), bytes@) && filtering_claims(w) <= decode_limit() ==> r is Ok && r->Ok_0.0.deep_view() == w && r->Ok_0.1 == bincode_filtering_encoding(w).len(),
{
    bincode::decode_from_slice(bytes, bincode::config::standard().with_limit::<2147483647>())
}

/// Why constraints could not be decoded: bincode refused the bytes, or the
/// action's variant index names no action.
#[derive(Debug)]
pub enum FilterDecodeError {
    Bincode(bincode::error::DecodeError),
    UnexpectedVariant(u32),
}

/// The most bytes that the decoders may claim: 2^31 - 1, which is at most
/// `isize::MAX` on every platform, so that no allocation that a claim allows
/// overflows a vector's capacity.
pub open spec fn decode_limit() -> nat {
    0x7fff_ffff
}

/// What bincode's decoder claims for an optional string: one byte for the tag
/// and, where present, eight for its length and one for each of its bytes.
pub open spec fn string_claims(s: Option<Seq<char>>) -> nat {
    match s {
        Some(t) => 1 + 8 + encode_utf8(t).len(),
        None => 1,
    }
}

/// What bincode's decoder claims for the constraints' wire form: the tag of
/// the header constraint, its three strings, and four bytes for the variant.
pub open spec fn filtering_claims(w: FilteringWire) -> nat {
    1 + match w.0 {
        Some(c) => string_claims(c.0) + string_claims(c.1) + string_claims(c.2),
        None => 0,
    } + 4
}

/// A UTF-8 encoding has at most four bytes for each character.
pub proof fn lemma_utf8_len_bound(s: Seq<char>)
    ensures
        encode_utf8(s).len() <= 4 * s.len(),
    decreases s.len(),
{
    if s.len() > 0 {
        lemma_utf8_len_bound(s.drop_first());
    }
}

/// `prefix` is the beginning of `s`.
pub open spec fn is_prefix<T>(prefix: Seq<T>, s: Seq<T>) -> bool {
    prefix.len() <= s.len() && forall|i: int| 0 <= i < prefix.len() ==> #[trigger] prefix[i] == s[i]
}

impl Default for FilteringConstraints {
    /// No header constraint, and requests allowed by default.
    fn default() -> (r: FilteringConstraints)
        ensures
            r@ == (None::<HeaderConstraintView>, ActionEnum::Allow),
    {
        FilteringConstraints { request: None, default: ActionEnum::Allow }
    }
}

impl FilteringConstraints {
    /// Encodes the constraints with bincode's standard configuration.
    pub fn encode(filter: FilteringConstraints) -> (bytes: Vec<u8>)
        ensures
            bytes@ == bincode_filtering_encoding(filtering_wire(filter@)),
            filter.request is None ==> bytes@ == seq![
                0u8,
                match filter.default {
                    ActionEnum::Allow => 0u8,
                    ActionEnum::Deny => 1u8,
                    ActionEnum::Log => 2u8,
                },
            ],
    {
        let variant: u32 = match filter.default {
            ActionEnum::Allow => 0,
            ActionEnum::Deny => 1,
            ActionEnum::Log => 2,
        };
        let request = match &filter.request {
            Some(r) => Some((&r.allow_constraints, &r.deny_constraints, &r.log_constraints)),
            None => None,
        };
        match bincode_encode_filtering(request, variant) {
            Ok(bytes) => bytes,
            Err(_) => Vec::new(),
        }
    }

    /// Decodes constraints written by `encode`, returning them with the number
    /// of bytes read.
    pub fn decode_filters(bytes: Vec<u8>) -> (r: Result<(FilteringConstraints, usize), FilterDecodeError>)
        ensures
            r is Ok <==> (bincode_filtering_decoding(bytes@) matches Some((w, n))
                && action_of_index(w.1) is Some),
            r matches Ok((f, n)) ==> bincode_filtering_decoding(bytes@) == Some(
                (filtering_wire(f@), n as nat),
            ),
            r matches Err(FilterDecodeError::UnexpectedVariant(i)) ==> (
            bincode_filtering_decoding(bytes@) matches Some((w, n)) && w.1 == i && action_of_index(i) is None),
            r matches Err(FilterDecodeError::Bincode(_)) ==> bincode_filtering_decoding(bytes@) is None,
            bytes@.len() >= 2 && bytes@[0] == 0u8 && bytes@[1] < 3u8 ==> (r matches Ok((f, n)) && n == 2
                && f.request is None && f.default == (if bytes@[1] == 0u8 {
                ActionEnum::Allow
            } else if bytes@[1] == 1u8 {
                ActionEnum::Deny
            } else {
                ActionEnum::Log
            })),
            bytes@.len() >= 2 && bytes@[0] == 0u8 && 3u8 <= bytes@[1] <= 250u8 ==> (r matches Err(
                FilterDecodeError::UnexpectedVariant(i),
            ) && i == bytes@[1] as u32),
            forall|v: FilteringView|
                is_prefix(#[trigger] bincode_filtering_encoding(filtering_wire(v)), bytes@)
                    && filtering_claims(filtering_wire(v)) <= decode_limit()
                    ==> (r matches Ok((f, n)) && f@ == v && n == bincode_filtering_encoding(
                    filtering_wire(v),
                ).len()),
    {
        let decoded = bincode_decode_filtering(bytes.as_slice());
        match decoded {
            Ok(((request, variant), n)) => {
                let default = if variant == 0 {
                    ActionEnum::Allow
                } else if variant == 1 {
                    ActionEnum::Deny
                } else if variant == 2 {
                    ActionEnum::Log
                } else {
                    return Err(FilterDecodeError::UnexpectedVariant(variant));
                };
                let request = match request {
                    Some((allow, deny, log)) => Some(
                        RequestHeadersConstraint {
                            allow_constraints: allow,
                            deny_constraints: deny,
                            log_constraints: log,
                        },
                    ),
                    None => None,
                };
                Ok((FilteringConstraints { request, default }, n))
            },
            Err(e) => Err(FilterDecodeError::Bincode(e)),
        }
    }
}

} // verus!
