//! The singleton proxy-wasm service: it fetches the constraints from the
//! control plane over gRPC and passes them on to the filters through a shared
//! queue, and forwards the exchanges that the filters log to the control
//! plane. Each gRPC message carries one byte string as its first field, which
//! is the wire form of protobuf's `BytesValue`.
use vstd::prelude::*;

verus! {

/// The base-128 varint encoding of `n` that protobuf uses for lengths.
pub open spec fn varint(n: nat) -> Seq<u8>
    decreases n,
{
    if n < 128 {
        seq![n as u8]
    } else {
        seq![((n % 128) + 128) as u8] + varint(n / 128)
    }
}

/// The protobuf encoding of a message whose only field, number 1, holds the
/// given bytes: nothing where they are empty, else the field's tag, the
/// length (written as a 32-bit number) and the bytes.
pub open spec fn bytes_message_encoding(payload: Seq<u8>) -> Seq<u8> {
    if payload.len() == 0 {
        seq![]
    } else {
        seq![10u8] + varint(payload.len() % 0x1_0000_0000) + payload
    }
}

/// What `Message::parse_from_bytes` of `BytesValue` reads from the bytes as
/// its field; `None` where it fails.
pub uninterp spec fn bytes_message_decoding(bytes: Seq<u8>) -> Option<Seq<u8>>;

/// Calls `Message::write_to_bytes` on a `protobuf::well_known_types::wrappers::BytesValue`
/// holding the payload. The contract states what its generated code writes:
/// the field is left out where it is empty, else it is written as field 1 with
/// its length; writing to a vector does not fail.
#[verifier::external_body]
fn encode_bytes_message(payload: &[u8]) -> (r: Option<Vec<u8>>)
    ensures
        r is Some && r->Some_0@ == bytes_message_encoding(payload@),
{
    let mut message = protobuf::well_known_types::wrappers::BytesValue::new();
    message.value = payload.to_vec();
    protobuf::Message::write_to_bytes(&message).ok()
}

/// Calls `Message::parse_from_bytes` for a `protobuf::well_known_types::wrappers::BytesValue`
/// and hands out its field. The contract names the outcome and states the
/// round trip: the encoding of a payload shorter than 2^32 bytes (whose length
/// the encoder writes as a 32-bit number) parses to that payload.
#[verifier::external_body]
fn decode_bytes_message(bytes: &[u8]) -> (r: Option<Vec<u8>>)
    ensures
        r is Some ==> bytes_message_decoding(bytes@) == Some(r->Some_0@),
        r is None <==> bytes_message_decoding(bytes@) is None,
        forall|p: Seq<u8>| #[trigger] bytes_message_encoding(p) == bytes@ && p.len() < 0x1_0000_0000 ==> r is Some && r->Some_0@ == p,
{
    match <protobuf::well_known_types::wrappers::BytesValue as protobuf::Message>::parse_from_bytes(bytes) {
        Ok(message) => Some(message.value),
        Err(_) => None,
    }
}

/// The root context of the singleton service: the tokens of its two shared
/// queues and of its last two gRPC calls.
pub struct WasmRootContext {
    pub log_token: u32,
    pub filter_token: u32,
    pub filter_grpc: u32,
    pub log_grpc: u32,
}

impl Default for WasmRootContext {
    fn default() -> (r: WasmRootContext)
        ensures
            r.log_token == 0 && r.filter_token == 0 && r.filter_grpc == 0 && r.log_grpc == 0,
    {
        WasmRootContext { log_token: 0, filter_grpc: 0, log_grpc: 0, filter_token: 0 }
    }
}

impl WasmRootContext {
    /// Keeps the tokens of the log queue and of the queue of constraints that
    /// the host registered.
    pub fn register_queues(&mut self, log_token: u32, filter_token: u32)
        ensures
            final(self).log_token == log_token,
            final(self).filter_token == filter_token,
            final(self).filter_grpc == old(self).filter_grpc,
            final(self).log_grpc == old(self).log_grpc,
    {
        self.log_token = log_token;
        self.filter_token = filter_token;
    }

    /// A gRPC call has answered: where it is the last request for the
    /// constraints, its body is passed on to the queue of constraints.
    pub fn on_grpc_call_response(&self, token_id: u32, body: Option<Vec<u8>>) -> (r: Option<(u32, Vec<u8>)>)
        ensures
            self.filter_grpc != token_id ==> r is None,
            self.filter_grpc == token_id ==> match body {
                Some(b) => match bytes_message_decoding(b@) {
                    Some(p) => r matches Some((q, v)) && q == self.filter_token && v@ == p,
                    None => r is None,
                },
                None => r is None,
            },
    {
        if self.filter_grpc == token_id {
            self.pump_to_worker_queue(body)
        } else {
            None
        }
    }

    /// The queue of constraints, and the constraints to put there, taken from
    /// the answer of the control plane.
    pub fn pump_to_worker_queue(&self, body: Option<Vec<u8>>) -> (r: Option<(u32, Vec<u8>)>)
        ensures
            match body {
                Some(b) => match bytes_message_decoding(b@) {
                    Some(p) => r matches Some((q, v)) && q == self.filter_token && v@ == p,
                    None => r is None,
                },
                None => r is None,
            },
            forall|p: Seq<u8>|
                body matches Some(b) && #[trigger] bytes_message_encoding(p) == b@ && p.len() < 0x1_0000_0000 ==> (r matches Some(
                    (q, v),
                ) && q == self.filter_token && v@ == p),
    {
        if let Some(bytes) = body {
            if let Some(payload) = decode_bytes_message(bytes.as_slice()) {
                return Some((self.filter_token, payload));
            }
        }
        None
    }

    /// Whether a queue that became ready is the log queue.
    pub fn on_queue_ready(&self, queue_id: u32) -> (r: bool)
        ensures
            r == (queue_id == self.log_token),
    {
        queue_id == self.log_token
    }

    /// The request to the logger service for what was dequeued from the log
    /// queue, if anything was.
    pub fn grpc_log_line(&self, dequeued: Option<Vec<u8>>) -> (r: Option<Vec<u8>>)
        ensures
            match dequeued {
                Some(b) => r matches Some(m) && m@ == bytes_message_encoding(b@),
                None => r is None,
            },
    {
        if let Some(bytes) = dequeued {
            encode_bytes_message(bytes.as_slice())
        } else {
            None
        }
    }

    /// Keeps the token of the logging call, where the host dispatched it.
    pub fn record_log_call(&mut self, dispatched: Option<u32>)
        ensures
            final(self).log_grpc == match dispatched {
                Some(t) => t,
                None => old(self).log_grpc,
            },
            final(self).log_token == old(self).log_token,
            final(self).filter_token == old(self).filter_token,
            final(self).filter_grpc == old(self).filter_grpc,
    {
        if let Some(token) = dispatched {
            self.log_grpc = token;
        }
    }

    /// The request to the control plane for the filtering rules.
    pub fn fetch_filtering_rules(&self) -> (r: Vec<u8>)
        ensures
            r@ == bytes_message_encoding("FetchFilteringRules"@.map_values(|c: char| c as u8)),
    {
        let text = "FetchFilteringRules";
        proof {
            reveal_strlit("FetchFilteringRules");
            vstd::string::is_ascii_spec_bytes(text);
        }
        let bytes = text.as_bytes();
        assert(bytes@ =~= "FetchFilteringRules"@.map_values(|c: char| c as u8));
        match encode_bytes_message(bytes) {
            Some(m) => m,
            None => Vec::new(),
        }
    }

    /// Keeps the token of the call for the filtering rules, where the host
    /// dispatched it.
    pub fn record_filter_call(&mut self, dispatched: Option<u32>)
        ensures
            final(self).filter_grpc == match dispatched {
                Some(t) => t,
                None => old(self).filter_grpc,
            },
            final(self).log_token == old(self).log_token,
            final(self).filter_token == old(self).filter_token,
            final(self).log_grpc == old(self).log_grpc,
    {
        if let Some(token) = dispatched {
            self.filter_grpc = token;
        }
    }
}

} // verus!
