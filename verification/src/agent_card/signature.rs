//! A detached JWS signature over an agent card.

use vstd::prelude::*;

use crate::codec::DecodeError;
use crate::codec::DecodeErrorKind;
use crate::codec::ObjBuilder;
use crate::codec::SpecDecodeError;
use crate::codec::get_str_req;
use crate::codec::get_strmap_opt;
use crate::codec::mk_err;
use crate::codec::opt_strmap_entry;
use crate::codec::res_deep_view;
use crate::codec::spec_err;
use crate::codec::spec_get;
use crate::codec::spec_opt_strmap;
use crate::codec::spec_req_str;
use crate::codec::str_entry;
use crate::codec::strmap_entries;
use crate::json::JsonValue;
use crate::json::SpecJson;
use crate::util_types::StrMap;

verus! {

broadcast use {vstd::std_specs::vec::group_vec_axioms, crate::json::group_json_view_lemmas};

/// A JWS signature of an agent card, in the JSON format of RFC 7515.
#[derive(Debug, Clone, PartialEq, Eq)]
pub struct AgentCardSignature {
    /// The protected JWS header, base64url-encoded.
    pub protected: String,
    /// The computed signature, base64url-encoded.
    pub signature: String,
    /// The unprotected JWS header values.
    pub header: Option<StrMap>,
}

/// Mathematical model of an [`AgentCardSignature`].
#[verifier::ext_equal]
pub struct SpecAgentCardSignature {
    pub protected: Seq<char>,
    pub signature: Seq<char>,
    pub header: Option<Seq<(Seq<char>, Seq<char>)>>,
}

impl View for AgentCardSignature {
    type V = SpecAgentCardSignature;

    open spec fn view(&self) -> SpecAgentCardSignature {
        SpecAgentCardSignature {
            protected: self.protected@,
            signature: self.signature@,
            header: self.header.deep_view(),
        }
    }
}

impl DeepView for AgentCardSignature {
    type V = SpecAgentCardSignature;

    open spec fn deep_view(&self) -> SpecAgentCardSignature {
        self.view()
    }
}

/// The encoded entries of an [`AgentCardSignature`], in ascending key
/// order.
pub open spec fn signature_entries(v: SpecAgentCardSignature) -> Seq<(Seq<char>, SpecJson)> {
    opt_strmap_entry("header"@, v.header) + str_entry("protected"@, v.protected) + str_entry(
        "signature"@,
        v.signature,
    )
}

pub open spec fn spec_encode_signature(v: SpecAgentCardSignature) -> SpecJson {
    SpecJson::Obj(signature_entries(v))
}

pub open spec fn spec_decode_signature(j: SpecJson) -> Result<
    SpecAgentCardSignature,
    SpecDecodeError,
> {
    match j {
        SpecJson::Obj(es) => match spec_req_str(es, "protected"@) {
            Err(e) => Err(e),
            Ok(protected) => match spec_req_str(es, "signature"@) {
                Err(e) => Err(e),
                Ok(signature) => match spec_opt_strmap(es, "header"@) {
                    Err(e) => Err(e),
                    Ok(header) => Ok(SpecAgentCardSignature { protected, signature, header }),
                },
            },
        },
        _ => Err(spec_err(DecodeErrorKind::ExpectedObject, "signature"@)),
    }
}

impl AgentCardSignature {
    /// Encodes this signature as a JSON object.
    pub fn to_json(&self) -> (r: JsonValue)
        ensures
            r@ == spec_encode_signature(self@),
    {
        let mut b = ObjBuilder::new();
        b.push_opt_str_map("header", &self.header);
        b.push_str("protected", self.protected.as_str());
        b.push_str("signature", self.signature.as_str());
        proof {
            assert(b@ =~= signature_entries(self@));
        }
        b.finish()
    }

    /// Decodes a JSON object into a signature.
    pub fn from_json(j: &JsonValue) -> (r: Result<AgentCardSignature, DecodeError>)
        ensures
            res_deep_view(r) == spec_decode_signature(j@),
    {
        let es = match j {
            JsonValue::Obj(es) => es,
            _ => { return Err(mk_err(DecodeErrorKind::ExpectedObject, "signature")) },
        };
        let protected = match get_str_req(es, "protected") {
            Ok(v) => v,
            Err(e) => { return Err(e) },
        };
        let signature = match get_str_req(es, "signature") {
            Ok(v) => v,
            Err(e) => { return Err(e) },
        };
        let header = match get_strmap_opt(es, "header") {
            Ok(v) => v,
            Err(e) => { return Err(e) },
        };
        Ok(AgentCardSignature { protected, signature, header })
    }
}

/// A signature fit for a lossless round trip: its header map stands in
/// the canonical ascending key order.
pub open spec fn signature_wf(v: SpecAgentCardSignature) -> bool {
    crate::codec::opt_strmap_wf(v.header)
}

/// Decoding an encoded signature yields it back.
pub proof fn lemma_signature_round_trip(v: SpecAgentCardSignature)
    requires
        signature_wf(v),
    ensures
        spec_decode_signature(spec_encode_signature(v)) == Ok::<
            SpecAgentCardSignature,
            SpecDecodeError,
        >(v),
{
    broadcast use
        crate::codec::group_entry_lookup,
        crate::codec::lemma_parse_str_map_rt;

    reveal_strlit("header");
    reveal_strlit("protected");
    reveal_strlit("signature");
    assert("header"@.len() == 6);
    assert("protected"@.len() == 9);
    assert("signature"@.len() == 9);
    assert("protected"@[0] == 'p');
    assert("signature"@[0] == 's');
    let es = signature_entries(v);
    assert(spec_get(es, "protected"@) == Some(SpecJson::Str(v.protected)));
    assert(spec_get(es, "signature"@) == Some(SpecJson::Str(v.signature)));
    assert(spec_get(es, "header"@) == match v.header {
        Some(m) => Some(SpecJson::Obj(strmap_entries(m))),
        None => None,
    });
}

} // verus!
