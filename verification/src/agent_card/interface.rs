//! A target URL paired with the transport protocol it speaks.

use vstd::prelude::*;

use crate::agent_card::transport::TransportProtocol;
use crate::agent_card::transport::lemma_transport_round_trip;
use crate::agent_card::transport::spec_transport_from_token;
use crate::agent_card::transport::transport_token;
use crate::codec::DecodeError;
use crate::codec::DecodeErrorKind;
use crate::codec::ObjBuilder;
use crate::codec::SpecDecodeError;
use crate::codec::get_str_req;
use crate::codec::mk_err;
use crate::codec::res_deep_view;
use crate::codec::spec_err;
use crate::codec::spec_get;
use crate::codec::spec_req_str;
use crate::codec::str_entry;
use crate::json::JsonValue;
use crate::json::SpecJson;

verus! {

broadcast use {vstd::std_specs::vec::group_vec_axioms, crate::json::group_json_view_lemmas};

/// Declares a combination of a target URL and a transport protocol for
/// interacting with the agent.
#[derive(Debug, Clone, PartialEq, Eq)]
pub struct AgentInterface {
    /// The URL where this interface is available.
    pub url: String,
    /// The transport protocol supported at this URL.
    pub transport: TransportProtocol,
}

/// Mathematical model of an [`AgentInterface`].
#[verifier::ext_equal]
pub struct SpecAgentInterface {
    pub url: Seq<char>,
    pub transport: TransportProtocol,
}

impl View for AgentInterface {
    type V = SpecAgentInterface;

    open spec fn view(&self) -> SpecAgentInterface {
        SpecAgentInterface { url: self.url@, transport: self.transport }
    }
}

impl DeepView for AgentInterface {
    type V = SpecAgentInterface;

    open spec fn deep_view(&self) -> SpecAgentInterface {
        self.view()
    }
}

/// The encoded entries of an [`AgentInterface`], in ascending key order.
pub open spec fn interface_entries(v: SpecAgentInterface) -> Seq<(Seq<char>, SpecJson)> {
    str_entry("transport"@, transport_token(v.transport)) + str_entry("url"@, v.url)
}

pub open spec fn spec_encode_interface(v: SpecAgentInterface) -> SpecJson {
    SpecJson::Obj(interface_entries(v))
}

pub open spec fn spec_decode_interface(j: SpecJson) -> Result<SpecAgentInterface, SpecDecodeError> {
    match j {
        SpecJson::Obj(es) => match spec_req_str(es, "url"@) {
            Err(e) => Err(e),
            Ok(url) => match spec_req_str(es, "transport"@) {
                Err(e) => Err(e),
                Ok(t) => Ok(
                    SpecAgentInterface { url, transport: spec_transport_from_token(t) },
                ),
            },
        },
        _ => Err(spec_err(DecodeErrorKind::ExpectedObject, "interface"@)),
    }
}

impl AgentInterface {
    /// Encodes this interface as a JSON object.
    pub fn to_json(&self) -> (r: JsonValue)
        ensures
            r@ == spec_encode_interface(self@),
    {
        let mut b = ObjBuilder::new();
        b.push_str("transport", self.transport.as_str());
        b.push_str("url", self.url.as_str());
        proof {
            assert(b@ =~= interface_entries(self@));
        }
        b.finish()
    }

    /// Decodes a JSON object into an interface; the transport token
    /// decodes leniently.
    pub fn from_json(j: &JsonValue) -> (r: Result<AgentInterface, DecodeError>)
        ensures
            res_deep_view(r) == spec_decode_interface(j@),
    {
        let es = match j {
            JsonValue::Obj(es) => es,
            _ => { return Err(mk_err(DecodeErrorKind::ExpectedObject, "interface")) },
        };
        let url = match get_str_req(es, "url") {
            Ok(v) => v,
            Err(e) => { return Err(e) },
        };
        let t = match get_str_req(es, "transport") {
            Ok(v) => v,
            Err(e) => { return Err(e) },
        };
        Ok(AgentInterface { url, transport: TransportProtocol::from_wire(t.as_str()) })
    }
}

/// Decoding an encoded interface yields it back.
pub proof fn lemma_interface_round_trip(v: SpecAgentInterface)
    ensures
        spec_decode_interface(spec_encode_interface(v)) == Ok::<
            SpecAgentInterface,
            SpecDecodeError,
        >(v),
{
    broadcast use crate::codec::group_entry_lookup;

    reveal_strlit("transport");
    reveal_strlit("url");
    assert("transport"@.len() == 9);
    assert("url"@.len() == 3);
    let es = interface_entries(v);
    assert(spec_get(es, "url"@) == Some(SpecJson::Str(v.url)));
    assert(spec_get(es, "transport"@) == Some(SpecJson::Str(transport_token(v.transport))));
    lemma_transport_round_trip(v.transport);
}

} // verus!
