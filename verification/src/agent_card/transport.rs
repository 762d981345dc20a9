//! The transport protocol enumeration and its wire tokens.

use vstd::prelude::*;

verus! {

/// Supported transport protocols.  Decoding is lenient: an unrecognized
/// token maps to the default `JsonRpc`, so that newer peers can still be
/// understood.
#[derive(Debug, Clone, Copy, PartialEq, Eq, Structural)]
pub enum TransportProtocol {
    /// JSON-RPC 2.0 over HTTP; wire token `"JSONRPC"`.
    JsonRpc,
    /// gRPC over HTTP/2; wire token `"GRPC"`.
    Grpc,
    /// REST-style HTTP with JSON; wire token `"HTTP+JSON"`.
    HttpJson,
}

/// The wire token of each transport.
pub open spec fn transport_token(t: TransportProtocol) -> Seq<char> {
    match t {
        TransportProtocol::JsonRpc => "JSONRPC"@,
        TransportProtocol::Grpc => "GRPC"@,
        TransportProtocol::HttpJson => "HTTP+JSON"@,
    }
}

/// Total decoding of a transport token: unrecognized tokens map to
/// `JsonRpc`.
pub open spec fn spec_transport_from_token(s: Seq<char>) -> TransportProtocol {
    if s == "GRPC"@ {
        TransportProtocol::Grpc
    } else if s == "HTTP+JSON"@ {
        TransportProtocol::HttpJson
    } else {
        TransportProtocol::JsonRpc
    }
}

impl View for TransportProtocol {
    type V = TransportProtocol;

    open spec fn view(&self) -> TransportProtocol {
        *self
    }
}

impl DeepView for TransportProtocol {
    type V = TransportProtocol;

    open spec fn deep_view(&self) -> TransportProtocol {
        *self
    }
}

impl Default for TransportProtocol {
    /// The default transport is `JsonRpc`.
    fn default() -> (r: TransportProtocol)
        ensures
            r == TransportProtocol::JsonRpc,
    {
        TransportProtocol::JsonRpc
    }
}

impl TransportProtocol {
    /// The canonical wire token of this transport.
    pub fn as_str(&self) -> (r: &str)
        ensures
            r@ == transport_token(*self),
    {
        match self {
            TransportProtocol::JsonRpc => "JSONRPC",
            TransportProtocol::Grpc => "GRPC",
            TransportProtocol::HttpJson => "HTTP+JSON",
        }
    }

    /// Decodes a wire token; unrecognized tokens yield `JsonRpc` rather
    /// than an error.
    pub fn from_wire(s: &str) -> (r: TransportProtocol)
        ensures
            r == spec_transport_from_token(s@),
    {
        if crate::json::str_eq(s, "GRPC") {
            TransportProtocol::Grpc
        } else if crate::json::str_eq(s, "HTTP+JSON") {
            TransportProtocol::HttpJson
        } else {
            TransportProtocol::JsonRpc
        }
    }
}

/// Encoding a transport and decoding the token yields the transport back.
pub proof fn lemma_transport_round_trip(t: TransportProtocol)
    ensures
        spec_transport_from_token(transport_token(t)) == t,
{
    reveal_strlit("JSONRPC");
    reveal_strlit("GRPC");
    reveal_strlit("HTTP+JSON");
    assert("JSONRPC"@.len() == 7);
    assert("GRPC"@.len() == 4);
    assert("HTTP+JSON"@.len() == 9);
}

} // verus!
