//! The agent card: a self-describing manifest of an agent's identity,
//! capabilities, skills, endpoints and security requirements.

use vstd::prelude::*;

use crate::agent_card::interface::AgentInterface;
use crate::agent_card::interface::SpecAgentInterface;
use crate::agent_card::interface::lemma_interface_round_trip;
use crate::agent_card::interface::spec_decode_interface;
use crate::agent_card::interface::spec_encode_interface;
use crate::agent_card::security_scheme::SecurityRequirement;
use crate::agent_card::security_scheme::SecurityScheme;
use crate::agent_card::security_scheme::SpecSecurityScheme;
use crate::agent_card::security_scheme::encode_secreqs;
use crate::agent_card::security_scheme::lemma_parse_secreqs_rt;
use crate::agent_card::security_scheme::lemma_security_scheme_round_trip;
use crate::agent_card::security_scheme::parse_secreqs;
use crate::agent_card::security_scheme::secreqs_arr;
use crate::agent_card::security_scheme::security_scheme_wf;
use crate::agent_card::security_scheme::spec_decode_security_scheme;
use crate::agent_card::security_scheme::spec_encode_security_scheme;
use crate::agent_card::security_scheme::spec_parse_secreqs;
use crate::agent_card::signature::AgentCardSignature;
use crate::agent_card::signature::SpecAgentCardSignature;
use crate::agent_card::signature::lemma_signature_round_trip;
use crate::agent_card::signature::spec_decode_signature;
use crate::agent_card::signature::spec_encode_signature;
use crate::agent_card::skill::AgentSkill;
use crate::agent_card::skill::SpecAgentSkill;
use crate::agent_card::skill::lemma_skill_round_trip;
use crate::agent_card::skill::spec_decode_skill;
use crate::agent_card::skill::spec_encode_skill;
use crate::agent_card::transport::TransportProtocol;
use crate::agent_card::transport::lemma_transport_round_trip;
use crate::agent_card::transport::spec_transport_from_token;
use crate::agent_card::transport::transport_token;
use crate::codec::DecodeError;
use crate::codec::DecodeErrorKind;
use crate::codec::ObjBuilder;
use crate::codec::SpecDecodeError;
use crate::codec::bool_entry;
use crate::codec::get_bool_opt;
use crate::codec::get_bool_req;
use crate::codec::get_entry;
use crate::codec::get_str_arr_req;
use crate::codec::get_str_opt;
use crate::codec::get_str_req;
use crate::codec::get_strmap_opt;
use crate::codec::mk_err;
use crate::codec::opt_bool_entry;
use crate::codec::opt_str_entry;
use crate::codec::opt_strmap_entry;
use crate::codec::opt_val_entry;
use crate::codec::res_deep_view;
use crate::codec::spec_err;
use crate::codec::spec_get;
use crate::codec::spec_opt_bool;
use crate::codec::spec_opt_str;
use crate::codec::spec_opt_strmap;
use crate::codec::spec_req_bool;
use crate::codec::spec_req_str;
use crate::codec::spec_req_str_arr;
use crate::codec::str_arr;
use crate::codec::str_arr_entry;
use crate::codec::str_entry;
use crate::codec::strmap_entries;
use crate::codec::val_entry;
use crate::json::JsonValue;
use crate::json::SpecJson;
use crate::json::json_entries_view;
use crate::json::json_seq_view;
use crate::json::json_view;
use crate::util_types::StrMap;

verus! {

broadcast use {vstd::std_specs::vec::group_vec_axioms, crate::json::group_json_view_lemmas};

/// The organization or entity providing an agent.
#[derive(Debug, Clone, PartialEq, Eq)]
pub struct AgentProvider {
    /// The provider's organization name.
    pub organization: String,
    /// A URL for the provider's website or documentation.
    pub url: String,
}

/// Mathematical model of an [`AgentProvider`].
#[verifier::ext_equal]
pub struct SpecAgentProvider {
    pub organization: Seq<char>,
    pub url: Seq<char>,
}

impl View for AgentProvider {
    type V = SpecAgentProvider;

    open spec fn view(&self) -> SpecAgentProvider {
        SpecAgentProvider { organization: self.organization@, url: self.url@ }
    }
}

impl DeepView for AgentProvider {
    type V = SpecAgentProvider;

    open spec fn deep_view(&self) -> SpecAgentProvider {
        self.view()
    }
}

/// The encoded entries of an [`AgentProvider`], in ascending key order.
pub open spec fn provider_entries(v: SpecAgentProvider) -> Seq<(Seq<char>, SpecJson)> {
    str_entry("organization"@, v.organization) + str_entry("url"@, v.url)
}

pub open spec fn spec_encode_provider(v: SpecAgentProvider) -> SpecJson {
    SpecJson::Obj(provider_entries(v))
}

pub open spec fn spec_decode_provider(j: SpecJson) -> Result<SpecAgentProvider, SpecDecodeError> {
    match j {
        SpecJson::Obj(es) => match spec_req_str(es, "organization"@) {
            Err(e) => Err(e),
            Ok(organization) => match spec_req_str(es, "url"@) {
                Err(e) => Err(e),
                Ok(url) => Ok(SpecAgentProvider { organization, url }),
            },
        },
        _ => Err(spec_err(DecodeErrorKind::ExpectedObject, "provider"@)),
    }
}

impl AgentProvider {
    /// Encodes this provider as a JSON object.
    pub fn to_json(&self) -> (r: JsonValue)
        ensures
            r@ == spec_encode_provider(self@),
    {
        let mut b = ObjBuilder::new();
        b.push_str("organization", self.organization.as_str());
        b.push_str("url", self.url.as_str());
        proof {
            assert(b@ =~= provider_entries(self@));
        }
        b.finish()
    }

    /// Decodes a JSON object into a provider.
    pub fn from_json(j: &JsonValue) -> (r: Result<AgentProvider, DecodeError>)
        ensures
            res_deep_view(r) == spec_decode_provider(j@),
    {
        let es = match j {
            JsonValue::Obj(es) => es,
            _ => { return Err(mk_err(DecodeErrorKind::ExpectedObject, "provider")) },
        };
        let organization = match get_str_req(es, "organization") {
            Ok(v) => v,
            Err(e) => { return Err(e) },
        };
        let url = match get_str_req(es, "url") {
            Ok(v) => v,
            Err(e) => { return Err(e) },
        };
        Ok(AgentProvider { organization, url })
    }
}

/// Decoding an encoded provider yields it back.
pub proof fn lemma_provider_round_trip(v: SpecAgentProvider)
    ensures
        spec_decode_provider(spec_encode_provider(v)) == Ok::<SpecAgentProvider, SpecDecodeError>(
            v,
        ),
{
    broadcast use crate::codec::group_entry_lookup;

    reveal_strlit("organization");
    reveal_strlit("url");
    assert("organization"@.len() == 12);
    assert("url"@.len() == 3);
    let es = provider_entries(v);
    assert(spec_get(es, "organization"@) == Some(SpecJson::Str(v.organization)));
    assert(spec_get(es, "url"@) == Some(SpecJson::Str(v.url)));
}

/// A protocol extension an agent supports.
#[derive(Debug, Clone, PartialEq, Eq)]
pub struct AgentExtension {
    /// The URI identifying the extension.
    pub uri: String,
    /// How the agent uses the extension.
    pub description: Option<String>,
    /// Whether clients must understand the extension.
    pub required: Option<bool>,
    /// Extension-specific configuration parameters.
    pub params: Option<StrMap>,
}

/// Mathematical model of an [`AgentExtension`].
#[verifier::ext_equal]
pub struct SpecAgentExtension {
    pub uri: Seq<char>,
    pub description: Option<Seq<char>>,
    pub required: Option<bool>,
    pub params: Option<Seq<(Seq<char>, Seq<char>)>>,
}

impl View for AgentExtension {
    type V = SpecAgentExtension;

    open spec fn view(&self) -> SpecAgentExtension {
        SpecAgentExtension {
            uri: self.uri@,
            description: self.description.deep_view(),
            required: self.required.deep_view(),
            params: self.params.deep_view(),
        }
    }
}

impl DeepView for AgentExtension {
    type V = SpecAgentExtension;

    open spec fn deep_view(&self) -> SpecAgentExtension {
        self.view()
    }
}

/// The encoded entries of an [`AgentExtension`], in ascending key order.
pub open spec fn agent_extension_entries(v: SpecAgentExtension) -> Seq<(Seq<char>, SpecJson)> {
    opt_str_entry("description"@, v.description) + opt_strmap_entry("params"@, v.params)
        + opt_bool_entry("required"@, v.required) + str_entry("uri"@, v.uri)
}

pub open spec fn spec_encode_agent_extension(v: SpecAgentExtension) -> SpecJson {
    SpecJson::Obj(agent_extension_entries(v))
}

pub open spec fn spec_decode_agent_extension(j: SpecJson) -> Result<
    SpecAgentExtension,
    SpecDecodeError,
> {
    match j {
        SpecJson::Obj(es) => match spec_req_str(es, "uri"@) {
            Err(e) => Err(e),
            Ok(uri) => match spec_opt_str(es, "description"@) {
                Err(e) => Err(e),
                Ok(description) => match spec_opt_bool(es, "required"@) {
                    Err(e) => Err(e),
                    Ok(required) => match spec_opt_strmap(es, "params"@) {
                        Err(e) => Err(e),
                        Ok(params) => Ok(
                            SpecAgentExtension { uri, description, required, params },
                        ),
                    },
                },
            },
        },
        _ => Err(spec_err(DecodeErrorKind::ExpectedObject, "extension"@)),
    }
}

impl AgentExtension {
    /// Encodes this extension as a JSON object.
    pub fn to_json(&self) -> (r: JsonValue)
        ensures
            r@ == spec_encode_agent_extension(self@),
    {
        let mut b = ObjBuilder::new();
        b.push_opt_str("description", &self.description);
        b.push_opt_str_map("params", &self.params);
        b.push_opt_bool("required", &self.required);
        b.push_str("uri", self.uri.as_str());
        proof {
            assert(b@ =~= agent_extension_entries(self@));
        }
        b.finish()
    }

    /// Decodes a JSON object into an extension.
    pub fn from_json(j: &JsonValue) -> (r: Result<AgentExtension, DecodeError>)
        ensures
            res_deep_view(r) == spec_decode_agent_extension(j@),
    {
        let es = match j {
            JsonValue::Obj(es) => es,
            _ => { return Err(mk_err(DecodeErrorKind::ExpectedObject, "extension")) },
        };
        let uri = match get_str_req(es, "uri") {
            Ok(v) => v,
            Err(e) => { return Err(e) },
        };
        let description = match get_str_opt(es, "description") {
            Ok(v) => v,
            Err(e) => { return Err(e) },
        };
        let required = match get_bool_opt(es, "required") {
            Ok(v) => v,
            Err(e) => { return Err(e) },
        };
        let params = match get_strmap_opt(es, "params") {
            Ok(v) => v,
            Err(e) => { return Err(e) },
        };
        Ok(AgentExtension { uri, description, required, params })
    }
}

/// An extension fit for a lossless round trip: its parameter map stands
/// in the canonical ascending key order.
pub open spec fn agent_extension_wf(v: SpecAgentExtension) -> bool {
    crate::codec::opt_strmap_wf(v.params)
}

/// Decoding an encoded extension yields it back.
pub proof fn lemma_agent_extension_round_trip(v: SpecAgentExtension)
    requires
        agent_extension_wf(v),
    ensures
        spec_decode_agent_extension(spec_encode_agent_extension(v)) == Ok::<
            SpecAgentExtension,
            SpecDecodeError,
        >(v),
{
    broadcast use
        crate::codec::group_entry_lookup,
        crate::codec::lemma_parse_str_map_rt;

    reveal_strlit("description");
    reveal_strlit("params");
    reveal_strlit("required");
    reveal_strlit("uri");
    assert("description"@.len() == 11);
    assert("params"@.len() == 6);
    assert("required"@.len() == 8);
    assert("uri"@.len() == 3);
    let es = agent_extension_entries(v);
    assert(spec_get(es, "uri"@) == Some(SpecJson::Str(v.uri)));
    assert(spec_get(es, "description"@) == match v.description {
        Some(s) => Some(SpecJson::Str(s)),
        None => None,
    });
    assert(spec_get(es, "required"@) == match v.required {
        Some(b) => Some(SpecJson::Bool(b)),
        None => None,
    });
    assert(spec_get(es, "params"@) == match v.params {
        Some(m) => Some(SpecJson::Obj(strmap_entries(m))),
        None => None,
    });
}

/// The encoded form of a list of protocol extensions.
pub open spec fn agent_extensions_arr(vs: Seq<SpecAgentExtension>) -> Seq<SpecJson> {
    Seq::new(vs.len(), |i: int| spec_encode_agent_extension(vs[i]))
}

/// Reads an array whose items must all decode as protocol extensions.
pub open spec fn spec_parse_agent_extensions(items: Seq<SpecJson>) -> Result<
    Seq<SpecAgentExtension>,
    SpecDecodeError,
>
    decreases items.len(),
{
    if items.len() == 0 {
        Ok(Seq::empty())
    } else {
        match spec_parse_agent_extensions(items.drop_last()) {
            Ok(pre) => match spec_decode_agent_extension(items.last()) {
                Ok(x) => Ok(pre.push(x)),
                Err(e) => Err(e),
            },
            Err(e) => Err(e),
        }
    }
}

pub proof fn lemma_parse_agent_extensions_err(items: Seq<SpecJson>, i: int)
    requires
        0 <= i < items.len(),
        spec_parse_agent_extensions(items.subrange(0, i)) is Ok,
        spec_decode_agent_extension(items[i]) is Err,
    ensures
        spec_parse_agent_extensions(items) == Err::<Seq<SpecAgentExtension>, SpecDecodeError>(
            spec_decode_agent_extension(items[i])->Err_0,
        ),
    decreases items.len(),
{
    if i == items.len() - 1 {
        assert(items.subrange(0, i) =~= items.drop_last());
    } else {
        assert(items.drop_last().subrange(0, i) =~= items.subrange(0, i));
        lemma_parse_agent_extensions_err(items.drop_last(), i);
    }
}

/// Whether every extension of a list is fit for a round trip.
pub open spec fn agent_extensions_wf(vs: Seq<SpecAgentExtension>) -> bool {
    forall|i: int| 0 <= i < vs.len() ==> agent_extension_wf(#[trigger] vs[i])
}

/// Decoding an encoded list of extensions yields the list back.
pub broadcast proof fn lemma_agent_extensions_arr_round_trip(vs: Seq<SpecAgentExtension>)
    requires
        agent_extensions_wf(vs),
    ensures
        #[trigger] spec_parse_agent_extensions(agent_extensions_arr(vs)) == Ok::<
            Seq<SpecAgentExtension>,
            SpecDecodeError,
        >(vs),
    decreases vs.len(),
{
    reveal_with_fuel(spec_parse_agent_extensions, 2);
    if vs.len() == 0 {
        assert(agent_extensions_arr(vs).len() == 0);
        assert(vs =~= Seq::<SpecAgentExtension>::empty());
    } else {
        assert(agent_extensions_arr(vs).drop_last() =~= agent_extensions_arr(vs.drop_last()));
        assert(agent_extensions_wf(vs.drop_last())) by {
            assert(forall|i: int|
                0 <= i < vs.drop_last().len() ==> #[trigger] vs.drop_last()[i] == vs[i]);
        }
        lemma_agent_extensions_arr_round_trip(vs.drop_last());
        assert(agent_extensions_arr(vs).last() == spec_encode_agent_extension(vs.last()));
        lemma_agent_extension_round_trip(vs.last());
        assert(vs.drop_last().push(vs.last()) =~= vs);
    }
}

/// Encodes a list of extensions as a JSON array.
pub fn encode_agent_extensions(v: &Vec<AgentExtension>) -> (r: JsonValue)
    ensures
        r@ == SpecJson::Arr(agent_extensions_arr(v.deep_view())),
{
    let mut out: Vec<JsonValue> = Vec::new();
    let mut i: usize = 0;
    while i < v.len()
        invariant
            i <= v.len(),
            out@.len() == i,
            forall|j: int|
                0 <= j < i ==> json_view(out@[j]) == spec_encode_agent_extension(
                    v@[j].deep_view(),
                ),
        decreases v.len() - i,
    {
        out.push(v[i].to_json());
        i += 1;
    }
    proof {
        assert(json_seq_view(out@) =~= agent_extensions_arr(v.deep_view()));
    }
    JsonValue::Arr(out)
}

/// Decodes a JSON array whose items must all be extensions.
pub fn parse_agent_extensions(items: &Vec<JsonValue>) -> (r: Result<
    Vec<AgentExtension>,
    DecodeError,
>)
    ensures
        res_deep_view(r) == spec_parse_agent_extensions(json_seq_view(items@)),
{
    let ghost g = json_seq_view(items@);
    let mut out: Vec<AgentExtension> = Vec::new();
    let mut i: usize = 0;
    proof {
        assert(g.subrange(0, 0).len() == 0);
        assert(out.deep_view() =~= Seq::<SpecAgentExtension>::empty());
    }
    while i < items.len()
        invariant
            i <= items.len(),
            g == json_seq_view(items@),
            g.len() == items@.len(),
            spec_parse_agent_extensions(g.subrange(0, i as int)) == Ok::<
                Seq<SpecAgentExtension>,
                SpecDecodeError,
            >(out.deep_view()),
        decreases items.len() - i,
    {
        let ghost pre = g.subrange(0, i as int);
        let ghost cur = g.subrange(0, i + 1);
        proof {
            assert(cur.drop_last() =~= pre);
            assert(cur.last() == g[i as int]);
            assert(g[i as int] == json_view(items@[i as int]));
        }
        match AgentExtension::from_json(&items[i]) {
            Ok(x) => {
                let ghost before = out.deep_view();
                out.push(x);
                proof {
                    assert(out.deep_view() =~= before.push(out@.last().deep_view()));
                }
            },
            Err(e) => {
                proof {
                    lemma_parse_agent_extensions_err(g, i as int);
                }
                return Err(e);
            },
        }
        i += 1;
    }
    proof {
        assert(g.subrange(0, items@.len() as int) =~= g);
    }
    Ok(out)
}

/// Optional capabilities an agent supports.
#[derive(Debug, Clone, PartialEq, Eq)]
pub struct AgentCapabilities {
    /// Whether the agent supports streaming responses.
    pub streaming: bool,
    /// Whether the agent can send push notifications.
    pub push_notifications: bool,
    /// Whether the agent keeps a history of state transitions.
    pub state_transition_history: Option<bool>,
    /// Protocol extensions the agent supports.
    pub extensions: Option<Vec<AgentExtension>>,
}

/// Mathematical model of an [`AgentCapabilities`].
#[verifier::ext_equal]
pub struct SpecAgentCapabilities {
    pub streaming: bool,
    pub push_notifications: bool,
    pub state_transition_history: Option<bool>,
    pub extensions: Option<Seq<SpecAgentExtension>>,
}

impl View for AgentCapabilities {
    type V = SpecAgentCapabilities;

    open spec fn view(&self) -> SpecAgentCapabilities {
        SpecAgentCapabilities {
            streaming: self.streaming,
            push_notifications: self.push_notifications,
            state_transition_history: self.state_transition_history.deep_view(),
            extensions: self.extensions.deep_view(),
        }
    }
}

impl DeepView for AgentCapabilities {
    type V = SpecAgentCapabilities;

    open spec fn deep_view(&self) -> SpecAgentCapabilities {
        self.view()
    }
}

/// The encoded entries of an [`AgentCapabilities`], in ascending key
/// order.
pub open spec fn capabilities_entries(v: SpecAgentCapabilities) -> Seq<(Seq<char>, SpecJson)> {
    (match v.extensions {
        Some(xs) => val_entry("extensions"@, SpecJson::Arr(agent_extensions_arr(xs))),
        None => Seq::empty(),
    }) + bool_entry("pushNotifications"@, v.push_notifications) + opt_bool_entry(
        "stateTransitionHistory"@,
        v.state_transition_history,
    ) + bool_entry("streaming"@, v.streaming)
}

pub open spec fn spec_encode_capabilities(v: SpecAgentCapabilities) -> SpecJson {
    SpecJson::Obj(capabilities_entries(v))
}

pub open spec fn spec_decode_capabilities(j: SpecJson) -> Result<
    SpecAgentCapabilities,
    SpecDecodeError,
> {
    match j {
        SpecJson::Obj(es) => match spec_req_bool(es, "streaming"@) {
            Err(e) => Err(e),
            Ok(streaming) => match spec_req_bool(es, "pushNotifications"@) {
                Err(e) => Err(e),
                Ok(push_notifications) => match spec_opt_bool(es, "stateTransitionHistory"@) {
                    Err(e) => Err(e),
                    Ok(state_transition_history) => match spec_get(es, "extensions"@) {
                        None => Ok(
                            SpecAgentCapabilities {
                                streaming,
                                push_notifications,
                                state_transition_history,
                                extensions: None,
                            },
                        ),
                        Some(SpecJson::Null) => Ok(
                            SpecAgentCapabilities {
                                streaming,
                                push_notifications,
                                state_transition_history,
                                extensions: None,
                            },
                        ),
                        Some(SpecJson::Arr(items)) => match spec_parse_agent_extensions(items) {
                            Err(e) => Err(e),
                            Ok(xs) => Ok(
                                SpecAgentCapabilities {
                                    streaming,
                                    push_notifications,
                                    state_transition_history,
                                    extensions: Some(xs),
                                },
                            ),
                        },
                        Some(_) => Err(spec_err(DecodeErrorKind::ExpectedArr, "extensions"@)),
                    },
                },
            },
        },
        _ => Err(spec_err(DecodeErrorKind::ExpectedObject, "capabilities"@)),
    }
}

impl AgentCapabilities {
    /// Encodes these capabilities as a JSON object.
    pub fn to_json(&self) -> (r: JsonValue)
        ensures
            r@ == spec_encode_capabilities(self@),
    {
        let mut b = ObjBuilder::new();
        match &self.extensions {
            Some(xs) => b.push_val("extensions", encode_agent_extensions(xs)),
            None => (),
        }
        b.push_bool("pushNotifications", self.push_notifications);
        b.push_opt_bool("stateTransitionHistory", &self.state_transition_history);
        b.push_bool("streaming", self.streaming);
        proof {
            assert(b@ =~= capabilities_entries(self@));
        }
        b.finish()
    }

    /// Decodes a JSON object into capabilities.
    pub fn from_json(j: &JsonValue) -> (r: Result<AgentCapabilities, DecodeError>)
        ensures
            res_deep_view(r) == spec_decode_capabilities(j@),
    {
        let es = match j {
            JsonValue::Obj(es) => es,
            _ => { return Err(mk_err(DecodeErrorKind::ExpectedObject, "capabilities")) },
        };
        let streaming = match get_bool_req(es, "streaming") {
            Ok(v) => v,
            Err(e) => { return Err(e) },
        };
        let push_notifications = match get_bool_req(es, "pushNotifications") {
            Ok(v) => v,
            Err(e) => { return Err(e) },
        };
        let state_transition_history = match get_bool_opt(es, "stateTransitionHistory") {
            Ok(v) => v,
            Err(e) => { return Err(e) },
        };
        let extensions = match get_entry(es, "extensions") {
            None => None,
            Some(JsonValue::Null) => None,
            Some(JsonValue::Arr(items)) => match parse_agent_extensions(items) {
                Ok(xs) => Some(xs),
                Err(e) => { return Err(e) },
            },
            Some(_) => { return Err(mk_err(DecodeErrorKind::ExpectedArr, "extensions")) },
        };
        Ok(AgentCapabilities { streaming, push_notifications, state_transition_history, extensions })
    }
}

/// Capabilities fit for a lossless round trip: each declared extension
/// is.
pub open spec fn capabilities_wf(v: SpecAgentCapabilities) -> bool {
    match v.extensions {
        Some(xs) => agent_extensions_wf(xs),
        None => true,
    }
}

/// Decoding encoded capabilities yields them back.
pub proof fn lemma_capabilities_round_trip(v: SpecAgentCapabilities)
    requires
        capabilities_wf(v),
    ensures
        spec_decode_capabilities(spec_encode_capabilities(v)) == Ok::<
            SpecAgentCapabilities,
            SpecDecodeError,
        >(v),
{
    broadcast use
        crate::codec::group_entry_lookup,
        lemma_agent_extensions_arr_round_trip;

    reveal_strlit("extensions");
    reveal_strlit("pushNotifications");
    reveal_strlit("stateTransitionHistory");
    reveal_strlit("streaming");
    assert("extensions"@.len() == 10);
    assert("pushNotifications"@.len() == 17);
    assert("stateTransitionHistory"@.len() == 22);
    assert("streaming"@.len() == 9);
    let es = capabilities_entries(v);
    assert(spec_get(es, "streaming"@) == Some(SpecJson::Bool(v.streaming)));
    assert(spec_get(es, "pushNotifications"@) == Some(SpecJson::Bool(v.push_notifications)));
    assert(spec_get(es, "stateTransitionHistory"@) == match v.state_transition_history {
        Some(b) => Some(SpecJson::Bool(b)),
        None => None,
    });
    assert(spec_get(es, "extensions"@) == match v.extensions {
        Some(xs) => Some(SpecJson::Arr(agent_extensions_arr(xs))),
        None => None,
    });
}

// --- Helper array and map codecs for the card's collections. ---

/// The encoded form of a list of interfaces.
pub open spec fn interfaces_arr(vs: Seq<SpecAgentInterface>) -> Seq<SpecJson> {
    Seq::new(vs.len(), |i: int| spec_encode_interface(vs[i]))
}

pub open spec fn spec_parse_interfaces(items: Seq<SpecJson>) -> Result<
    Seq<SpecAgentInterface>,
    SpecDecodeError,
>
    decreases items.len(),
{
    if items.len() == 0 {
        Ok(Seq::empty())
    } else {
        match spec_parse_interfaces(items.drop_last()) {
            Ok(pre) => match spec_decode_interface(items.last()) {
                Ok(x) => Ok(pre.push(x)),
                Err(e) => Err(e),
            },
            Err(e) => Err(e),
        }
    }
}

pub proof fn lemma_parse_interfaces_err(items: Seq<SpecJson>, i: int)
    requires
        0 <= i < items.len(),
        spec_parse_interfaces(items.subrange(0, i)) is Ok,
        spec_decode_interface(items[i]) is Err,
    ensures
        spec_parse_interfaces(items) == Err::<Seq<SpecAgentInterface>, SpecDecodeError>(
            spec_decode_interface(items[i])->Err_0,
        ),
    decreases items.len(),
{
    if i == items.len() - 1 {
        assert(items.subrange(0, i) =~= items.drop_last());
    } else {
        assert(items.drop_last().subrange(0, i) =~= items.subrange(0, i));
        lemma_parse_interfaces_err(items.drop_last(), i);
    }
}

pub broadcast proof fn lemma_interfaces_arr_round_trip(vs: Seq<SpecAgentInterface>)
    ensures
        #[trigger] spec_parse_interfaces(interfaces_arr(vs)) == Ok::<
            Seq<SpecAgentInterface>,
            SpecDecodeError,
        >(vs),
    decreases vs.len(),
{
    reveal_with_fuel(spec_parse_interfaces, 2);
    if vs.len() == 0 {
        assert(interfaces_arr(vs).len() == 0);
        assert(vs =~= Seq::<SpecAgentInterface>::empty());
    } else {
        assert(interfaces_arr(vs).drop_last() =~= interfaces_arr(vs.drop_last()));
        lemma_interfaces_arr_round_trip(vs.drop_last());
        assert(interfaces_arr(vs).last() == spec_encode_interface(vs.last()));
        lemma_interface_round_trip(vs.last());
        assert(vs.drop_last().push(vs.last()) =~= vs);
    }
}

pub fn encode_interfaces(v: &Vec<AgentInterface>) -> (r: JsonValue)
    ensures
        r@ == SpecJson::Arr(interfaces_arr(v.deep_view())),
{
    let mut out: Vec<JsonValue> = Vec::new();
    let mut i: usize = 0;
    while i < v.len()
        invariant
            i <= v.len(),
            out@.len() == i,
            forall|j: int|
                0 <= j < i ==> json_view(out@[j]) == spec_encode_interface(v@[j].deep_view()),
        decreases v.len() - i,
    {
        out.push(v[i].to_json());
        i += 1;
    }
    proof {
        assert(json_seq_view(out@) =~= interfaces_arr(v.deep_view()));
    }
    JsonValue::Arr(out)
}

pub fn parse_interfaces(items: &Vec<JsonValue>) -> (r: Result<Vec<AgentInterface>, DecodeError>)
    ensures
        res_deep_view(r) == spec_parse_interfaces(json_seq_view(items@)),
{
    let ghost g = json_seq_view(items@);
    let mut out: Vec<AgentInterface> = Vec::new();
    let mut i: usize = 0;
    proof {
        assert(g.subrange(0, 0).len() == 0);
        assert(out.deep_view() =~= Seq::<SpecAgentInterface>::empty());
    }
    while i < items.len()
        invariant
            i <= items.len(),
            g == json_seq_view(items@),
            g.len() == items@.len(),
            spec_parse_interfaces(g.subrange(0, i as int)) == Ok::<
                Seq<SpecAgentInterface>,
                SpecDecodeError,
            >(out.deep_view()),
        decreases items.len() - i,
    {
        let ghost pre = g.subrange(0, i as int);
        let ghost cur = g.subrange(0, i + 1);
        proof {
            assert(cur.drop_last() =~= pre);
            assert(cur.last() == g[i as int]);
            assert(g[i as int] == json_view(items@[i as int]));
        }
        match AgentInterface::from_json(&items[i]) {
            Ok(x) => {
                let ghost before = out.deep_view();
                out.push(x);
                proof {
                    assert(out.deep_view() =~= before.push(out@.last().deep_view()));
                }
            },
            Err(e) => {
                proof {
                    lemma_parse_interfaces_err(g, i as int);
                }
                return Err(e);
            },
        }
        i += 1;
    }
    proof {
        assert(g.subrange(0, items@.len() as int) =~= g);
    }
    Ok(out)
}

/// The encoded form of a list of skills.
pub open spec fn skills_arr(vs: Seq<SpecAgentSkill>) -> Seq<SpecJson> {
    Seq::new(vs.len(), |i: int| spec_encode_skill(vs[i]))
}

pub open spec fn spec_parse_skills(items: Seq<SpecJson>) -> Result<
    Seq<SpecAgentSkill>,
    SpecDecodeError,
>
    decreases items.len(),
{
    if items.len() == 0 {
        Ok(Seq::empty())
    } else {
        match spec_parse_skills(items.drop_last()) {
            Ok(pre) => match spec_decode_skill(items.last()) {
                Ok(x) => Ok(pre.push(x)),
                Err(e) => Err(e),
            },
            Err(e) => Err(e),
        }
    }
}

pub proof fn lemma_parse_skills_err(items: Seq<SpecJson>, i: int)
    requires
        0 <= i < items.len(),
        spec_parse_skills(items.subrange(0, i)) is Ok,
        spec_decode_skill(items[i]) is Err,
    ensures
        spec_parse_skills(items) == Err::<Seq<SpecAgentSkill>, SpecDecodeError>(
            spec_decode_skill(items[i])->Err_0,
        ),
    decreases items.len(),
{
    if i == items.len() - 1 {
        assert(items.subrange(0, i) =~= items.drop_last());
    } else {
        assert(items.drop_last().subrange(0, i) =~= items.subrange(0, i));
        lemma_parse_skills_err(items.drop_last(), i);
    }
}

/// Whether every skill of a list is fit for a round trip.
pub open spec fn skills_wf(vs: Seq<SpecAgentSkill>) -> bool {
    forall|i: int| 0 <= i < vs.len() ==> crate::agent_card::skill::skill_wf(#[trigger] vs[i])
}

pub broadcast proof fn lemma_skills_arr_round_trip(vs: Seq<SpecAgentSkill>)
    requires
        skills_wf(vs),
    ensures
        #[trigger] spec_parse_skills(skills_arr(vs)) == Ok::<Seq<SpecAgentSkill>, SpecDecodeError>(
            vs,
        ),
    decreases vs.len(),
{
    reveal_with_fuel(spec_parse_skills, 2);
    if vs.len() == 0 {
        assert(skills_arr(vs).len() == 0);
        assert(vs =~= Seq::<SpecAgentSkill>::empty());
    } else {
        assert(skills_arr(vs).drop_last() =~= skills_arr(vs.drop_last()));
        assert(skills_wf(vs.drop_last())) by {
            assert(forall|i: int|
                0 <= i < vs.drop_last().len() ==> #[trigger] vs.drop_last()[i] == vs[i]);
        }
        lemma_skills_arr_round_trip(vs.drop_last());
        assert(skills_arr(vs).last() == spec_encode_skill(vs.last()));
        lemma_skill_round_trip(vs.last());
        assert(vs.drop_last().push(vs.last()) =~= vs);
    }
}

pub fn encode_skills(v: &Vec<AgentSkill>) -> (r: JsonValue)
    ensures
        r@ == SpecJson::Arr(skills_arr(v.deep_view())),
{
    let mut out: Vec<JsonValue> = Vec::new();
    let mut i: usize = 0;
    while i < v.len()
        invariant
            i <= v.len(),
            out@.len() == i,
            forall|j: int| 0 <= j < i ==> json_view(out@[j]) == spec_encode_skill(v@[j].deep_view()),
        decreases v.len() - i,
    {
        out.push(v[i].to_json());
        i += 1;
    }
    proof {
        assert(json_seq_view(out@) =~= skills_arr(v.deep_view()));
    }
    JsonValue::Arr(out)
}

pub fn parse_skills(items: &Vec<JsonValue>) -> (r: Result<Vec<AgentSkill>, DecodeError>)
    ensures
        res_deep_view(r) == spec_parse_skills(json_seq_view(items@)),
{
    let ghost g = json_seq_view(items@);
    let mut out: Vec<AgentSkill> = Vec::new();
    let mut i: usize = 0;
    proof {
        assert(g.subrange(0, 0).len() == 0);
        assert(out.deep_view() =~= Seq::<SpecAgentSkill>::empty());
    }
    while i < items.len()
        invariant
            i <= items.len(),
            g == json_seq_view(items@),
            g.len() == items@.len(),
            spec_parse_skills(g.subrange(0, i as int)) == Ok::<
                Seq<SpecAgentSkill>,
                SpecDecodeError,
            >(out.deep_view()),
        decreases items.len() - i,
    {
        let ghost pre = g.subrange(0, i as int);
        let ghost cur = g.subrange(0, i + 1);
        proof {
            assert(cur.drop_last() =~= pre);
            assert(cur.last() == g[i as int]);
            assert(g[i as int] == json_view(items@[i as int]));
        }
        match AgentSkill::from_json(&items[i]) {
            Ok(x) => {
                let ghost before = out.deep_view();
                out.push(x);
                proof {
                    assert(out.deep_view() =~= before.push(out@.last().deep_view()));
                }
            },
            Err(e) => {
                proof {
                    lemma_parse_skills_err(g, i as int);
                }
                return Err(e);
            },
        }
        i += 1;
    }
    proof {
        assert(g.subrange(0, items@.len() as int) =~= g);
    }
    Ok(out)
}

/// The encoded form of a list of signatures.
pub open spec fn signatures_arr(vs: Seq<SpecAgentCardSignature>) -> Seq<SpecJson> {
    Seq::new(vs.len(), |i: int| spec_encode_signature(vs[i]))
}

pub open spec fn spec_parse_signatures(items: Seq<SpecJson>) -> Result<
    Seq<SpecAgentCardSignature>,
    SpecDecodeError,
>
    decreases items.len(),
{
    if items.len() == 0 {
        Ok(Seq::empty())
    } else {
        match spec_parse_signatures(items.drop_last()) {
            Ok(pre) => match spec_decode_signature(items.last()) {
                Ok(x) => Ok(pre.push(x)),
                Err(e) => Err(e),
            },
            Err(e) => Err(e),
        }
    }
}

pub proof fn lemma_parse_signatures_err(items: Seq<SpecJson>, i: int)
    requires
        0 <= i < items.len(),
        spec_parse_signatures(items.subrange(0, i)) is Ok,
        spec_decode_signature(items[i]) is Err,
    ensures
        spec_parse_signatures(items) == Err::<Seq<SpecAgentCardSignature>, SpecDecodeError>(
            spec_decode_signature(items[i])->Err_0,
        ),
    decreases items.len(),
{
    if i == items.len() - 1 {
        assert(items.subrange(0, i) =~= items.drop_last());
    } else {
        assert(items.drop_last().subrange(0, i) =~= items.subrange(0, i));
        lemma_parse_signatures_err(items.drop_last(), i);
    }
}

/// Whether every signature of a list is fit for a round trip.
pub open spec fn signatures_wf(vs: Seq<SpecAgentCardSignature>) -> bool {
    forall|i: int|
        0 <= i < vs.len() ==> crate::agent_card::signature::signature_wf(#[trigger] vs[i])
}

pub broadcast proof fn lemma_signatures_arr_round_trip(vs: Seq<SpecAgentCardSignature>)
    requires
        signatures_wf(vs),
    ensures
        #[trigger] spec_parse_signatures(signatures_arr(vs)) == Ok::<
            Seq<SpecAgentCardSignature>,
            SpecDecodeError,
        >(vs),
    decreases vs.len(),
{
    reveal_with_fuel(spec_parse_signatures, 2);
    if vs.len() == 0 {
        assert(signatures_arr(vs).len() == 0);
        assert(vs =~= Seq::<SpecAgentCardSignature>::empty());
    } else {
        assert(signatures_arr(vs).drop_last() =~= signatures_arr(vs.drop_last()));
        assert(signatures_wf(vs.drop_last())) by {
            assert(forall|i: int|
                0 <= i < vs.drop_last().len() ==> #[trigger] vs.drop_last()[i] == vs[i]);
        }
        lemma_signatures_arr_round_trip(vs.drop_last());
        assert(signatures_arr(vs).last() == spec_encode_signature(vs.last()));
        lemma_signature_round_trip(vs.last());
        assert(vs.drop_last().push(vs.last()) =~= vs);
    }
}

pub fn encode_signatures(v: &Vec<AgentCardSignature>) -> (r: JsonValue)
    ensures
        r@ == SpecJson::Arr(signatures_arr(v.deep_view())),
{
    let mut out: Vec<JsonValue> = Vec::new();
    let mut i: usize = 0;
    while i < v.len()
        invariant
            i <= v.len(),
            out@.len() == i,
            forall|j: int|
                0 <= j < i ==> json_view(out@[j]) == spec_encode_signature(v@[j].deep_view()),
        decreases v.len() - i,
    {
        out.push(v[i].to_json());
        i += 1;
    }
    proof {
        assert(json_seq_view(out@) =~= signatures_arr(v.deep_view()));
    }
    JsonValue::Arr(out)
}

pub fn parse_signatures(items: &Vec<JsonValue>) -> (r: Result<
    Vec<AgentCardSignature>,
    DecodeError,
>)
    ensures
        res_deep_view(r) == spec_parse_signatures(json_seq_view(items@)),
{
    let ghost g = json_seq_view(items@);
    let mut out: Vec<AgentCardSignature> = Vec::new();
    let mut i: usize = 0;
    proof {
        assert(g.subrange(0, 0).len() == 0);
        assert(out.deep_view() =~= Seq::<SpecAgentCardSignature>::empty());
    }
    while i < items.len()
        invariant
            i <= items.len(),
            g == json_seq_view(items@),
            g.len() == items@.len(),
            spec_parse_signatures(g.subrange(0, i as int)) == Ok::<
                Seq<SpecAgentCardSignature>,
                SpecDecodeError,
            >(out.deep_view()),
        decreases items.len() - i,
    {
        let ghost pre = g.subrange(0, i as int);
        let ghost cur = g.subrange(0, i + 1);
        proof {
            assert(cur.drop_last() =~= pre);
            assert(cur.last() == g[i as int]);
            assert(g[i as int] == json_view(items@[i as int]));
        }
        match AgentCardSignature::from_json(&items[i]) {
            Ok(x) => {
                let ghost before = out.deep_view();
                out.push(x);
                proof {
                    assert(out.deep_view() =~= before.push(out@.last().deep_view()));
                }
            },
            Err(e) => {
                proof {
                    lemma_parse_signatures_err(g, i as int);
                }
                return Err(e);
            },
        }
        i += 1;
    }
    proof {
        assert(g.subrange(0, items@.len() as int) =~= g);
    }
    Ok(out)
}

/// The encoded form of a name-to-scheme map: an object whose values are
/// encoded security schemes.
pub open spec fn schemes_entries(m: Seq<(Seq<char>, SpecSecurityScheme)>) -> Seq<
    (Seq<char>, SpecJson),
> {
    Seq::new(m.len(), |i: int| (m[i].0, spec_encode_security_scheme(m[i].1)))
}

/// Reads an object whose values must all decode as security schemes,
/// folding the entries into the canonical ascending key order; a
/// repeated scheme name keeps its last scheme.
pub open spec fn spec_parse_schemes(es: Seq<(Seq<char>, SpecJson)>) -> Result<
    Seq<(Seq<char>, SpecSecurityScheme)>,
    SpecDecodeError,
>
    decreases es.len(),
{
    if es.len() == 0 {
        Ok(Seq::empty())
    } else {
        match spec_parse_schemes(es.drop_last()) {
            Ok(pre) => match spec_decode_security_scheme(es.last().1) {
                Ok(s) => Ok(crate::util_types::map_insert(pre, es.last().0, s)),
                Err(e) => Err(e),
            },
            Err(e) => Err(e),
        }
    }
}

pub proof fn lemma_parse_schemes_err(es: Seq<(Seq<char>, SpecJson)>, i: int)
    requires
        0 <= i < es.len(),
        spec_parse_schemes(es.subrange(0, i)) is Ok,
        spec_decode_security_scheme(es[i].1) is Err,
    ensures
        spec_parse_schemes(es) == Err::<Seq<(Seq<char>, SpecSecurityScheme)>, SpecDecodeError>(
            spec_decode_security_scheme(es[i].1)->Err_0,
        ),
    decreases es.len(),
{
    if i == es.len() - 1 {
        assert(es.subrange(0, i) =~= es.drop_last());
    } else {
        assert(es.drop_last().subrange(0, i) =~= es.subrange(0, i));
        lemma_parse_schemes_err(es.drop_last(), i);
    }
}

/// A scheme map fit for a lossless round trip: its names stand in the
/// canonical ascending order and every scheme in it is itself fit.
pub open spec fn schemes_wf(m: Seq<(Seq<char>, SpecSecurityScheme)>) -> bool {
    &&& crate::util_types::keys_ascending(m)
    &&& forall|i: int| 0 <= i < m.len() ==> security_scheme_wf(#[trigger] m[i].1)
}

/// Decoding an encoded scheme map yields it back.
pub proof fn lemma_parse_schemes_round_trip(m: Seq<(Seq<char>, SpecSecurityScheme)>)
    requires
        schemes_wf(m),
    ensures
        spec_parse_schemes(schemes_entries(m)) == Ok::<
            Seq<(Seq<char>, SpecSecurityScheme)>,
            SpecDecodeError,
        >(m),
    decreases m.len(),
{
    reveal_with_fuel(spec_parse_schemes, 2);
    if m.len() == 0 {
        assert(schemes_entries(m).len() == 0);
        assert(m =~= Seq::<(Seq<char>, SpecSecurityScheme)>::empty());
    } else {
        assert(schemes_entries(m).drop_last() =~= schemes_entries(m.drop_last()));
        assert(schemes_wf(m.drop_last())) by {
            assert(forall|i: int|
                0 <= i < m.drop_last().len() ==> #[trigger] m.drop_last()[i] == m[i]);
        }
        lemma_parse_schemes_round_trip(m.drop_last());
        assert(schemes_entries(m).last() == (m.last().0, spec_encode_security_scheme(m.last().1)));
        lemma_security_scheme_round_trip(m.last().1);
        assert forall|i: int| 0 <= i < m.drop_last().len() implies crate::util_types::lex_lt(
            #[trigger] m.drop_last()[i].0,
            m.last().0,
        ) by {
            crate::util_types::lemma_keys_ascending_pairwise(m, i, m.len() - 1);
        }
        crate::util_types::lemma_map_insert_append(m.drop_last(), m.last().0, m.last().1);
        assert(m.drop_last().push((m.last().0, m.last().1)) =~= m);
    }
}

/// An `Ok` of the scheme-map reader always has ascending names.
pub proof fn lemma_parse_schemes_canonical(es: Seq<(Seq<char>, SpecJson)>)
    ensures
        match spec_parse_schemes(es) {
            Ok(m) => crate::util_types::keys_ascending(m),
            Err(_) => true,
        },
    decreases es.len(),
{
    if es.len() > 0 {
        lemma_parse_schemes_canonical(es.drop_last());
        match spec_parse_schemes(es.drop_last()) {
            Ok(pre) => match spec_decode_security_scheme(es.last().1) {
                Ok(sch) => {
                    crate::util_types::lemma_map_insert_ascending(pre, es.last().0, sch);
                },
                Err(_) => (),
            },
            Err(_) => (),
        }
    }
}

/// A well-formed scheme map encodes with its names in strictly
/// ascending lexical order.
pub proof fn lemma_schemes_entries_sorted(m: Seq<(Seq<char>, SpecSecurityScheme)>)
    requires
        crate::util_types::keys_ascending(m),
    ensures
        crate::codec::keys_sorted(schemes_entries(m)),
{
    assert(forall|i: int| 0 <= i < m.len() ==> (#[trigger] schemes_entries(m)[i]).0 == m[i].0);
}

/// A name-to-scheme association list, encoded as a JSON object keyed by
/// scheme name; decoding folds wire entries into the canonical ascending
/// name order, a repeated name keeping its last scheme.
#[derive(Debug, Clone, PartialEq, Eq)]
pub struct SecuritySchemeMap {
    pub entries: Vec<(String, SecurityScheme)>,
}

impl View for SecuritySchemeMap {
    type V = Seq<(Seq<char>, SpecSecurityScheme)>;

    open spec fn view(&self) -> Seq<(Seq<char>, SpecSecurityScheme)> {
        self.entries.deep_view()
    }
}

impl DeepView for SecuritySchemeMap {
    type V = Seq<(Seq<char>, SpecSecurityScheme)>;

    open spec fn deep_view(&self) -> Seq<(Seq<char>, SpecSecurityScheme)> {
        self.view()
    }
}

impl SecuritySchemeMap {
    /// Encodes this map as a JSON object of encoded schemes.
    pub fn to_json(&self) -> (r: JsonValue)
        ensures
            r@ == SpecJson::Obj(schemes_entries(self@)),
    {
        let mut out: Vec<(String, JsonValue)> = Vec::new();
        let mut i: usize = 0;
        while i < self.entries.len()
            invariant
                i <= self.entries.len(),
                out@.len() == i,
                forall|j: int|
                    0 <= j < i ==> out@[j].0@ == self.entries@[j].0@ && json_view(out@[j].1)
                        == spec_encode_security_scheme(self.entries@[j].1.deep_view()),
            decreases self.entries.len() - i,
        {
            out.push((self.entries[i].0.clone(), self.entries[i].1.to_json()));
            i += 1;
        }
        proof {
            assert(json_entries_view(out@) =~= schemes_entries(self@));
        }
        JsonValue::Obj(out)
    }

    /// Decodes a JSON object into this map.
    pub fn from_json(j: &JsonValue) -> (r: Result<SecuritySchemeMap, DecodeError>)
        ensures
            match r {
                Ok(m) => j@ is Obj && spec_parse_schemes(j@->Obj_0) == Ok::<
                    Seq<(Seq<char>, SpecSecurityScheme)>,
                    SpecDecodeError,
                >(m.deep_view()),
                Err(e) => match j@ {
                    SpecJson::Obj(es) => spec_parse_schemes(es) == Err::<
                        Seq<(Seq<char>, SpecSecurityScheme)>,
                        SpecDecodeError,
                    >(e@),
                    _ => e@ == spec_err(DecodeErrorKind::ExpectedObject, "securitySchemes"@),
                },
            },
    {
        let es = match j {
            JsonValue::Obj(es) => es,
            _ => { return Err(mk_err(DecodeErrorKind::ExpectedObject, "securitySchemes")) },
        };
        let ghost g = json_entries_view(es@);
        let mut out: Vec<(String, SecurityScheme)> = Vec::new();
        let mut i: usize = 0;
        proof {
            assert(g.subrange(0, 0).len() == 0);
            assert(out.deep_view() =~= Seq::<(Seq<char>, SpecSecurityScheme)>::empty());
        }
        while i < es.len()
            invariant
                i <= es.len(),
                j@ == SpecJson::Obj(g),
                g == json_entries_view(es@),
                g.len() == es@.len(),
                spec_parse_schemes(g.subrange(0, i as int)) == Ok::<
                    Seq<(Seq<char>, SpecSecurityScheme)>,
                    SpecDecodeError,
                >(out.deep_view()),
            decreases es.len() - i,
        {
            let ghost pre = g.subrange(0, i as int);
            let ghost cur = g.subrange(0, i + 1);
            proof {
                assert(cur.drop_last() =~= pre);
                assert(cur.last() == g[i as int]);
                assert(g[i as int] == (es@[i as int].0@, json_view(es@[i as int].1)));
            }
            match SecurityScheme::from_json(&es[i].1) {
                Ok(s) => {
                    let ghost before = out.deep_view();
                    let ghost kview = es@[i as int].0@;
                    let ghost vview = s.deep_view();
                    let mut p: usize = 0;
                    while p < out.len() && crate::util_types::str_lt(
                        out[p].0.as_str(),
                        es[i].0.as_str(),
                    )
                        invariant
                            i < es.len(),
                            p <= out.len(),
                            before == out.deep_view(),
                            kview == es@[i as int].0@,
                            forall|q: int|
                                0 <= q < p ==> crate::util_types::lex_lt(
                                    #[trigger] before[q].0,
                                    kview,
                                ),
                        decreases out.len() - p,
                    {
                        p += 1;
                    }
                    proof {
                        crate::util_types::lemma_map_insert_at(before, kview, vview, p as int);
                    }
                    if p < out.len() && crate::json::str_eq(out[p].0.as_str(), es[i].0.as_str()) {
                        out.remove(p);
                        out.insert(p, (es[i].0.clone(), s));
                        proof {
                            assert(out.deep_view() =~= before.update(p as int, (kview, vview)));
                        }
                    } else {
                        out.insert(p, (es[i].0.clone(), s));
                        proof {
                            assert(out.deep_view() =~= before.insert(p as int, (kview, vview)));
                        }
                    }
                    proof {
                        assert(out.deep_view() == crate::util_types::map_insert(
                            before,
                            kview,
                            vview,
                        ));
                    }
                },
                Err(e) => {
                    proof {
                        lemma_parse_schemes_err(g, i as int);
                    }
                    return Err(e);
                },
            }
            i += 1;
        }
        proof {
            assert(g.subrange(0, es@.len() as int) =~= g);
        }
        Ok(SecuritySchemeMap { entries: out })
    }
}

/// The agent card: a self-describing manifest for an agent, giving its
/// identity, capabilities, skills, supported transports and security
/// requirements.
#[derive(Debug, Clone, PartialEq, Eq)]
pub struct AgentCard {
    protocol_version: String,
    name: String,
    description: String,
    url: String,
    preferred_transport: Option<TransportProtocol>,
    additional_interfaces: Option<Vec<AgentInterface>>,
    icon_url: Option<String>,
    provider: Option<AgentProvider>,
    version: String,
    documentation_url: Option<String>,
    capabilities: AgentCapabilities,
    security_schemes: Option<SecuritySchemeMap>,
    security: Option<Vec<SecurityRequirement>>,
    default_input_modes: Vec<String>,
    default_output_modes: Vec<String>,
    skills: Vec<AgentSkill>,
    supports_authenticated_extended_card: Option<bool>,
    signatures: Option<Vec<AgentCardSignature>>,
}

/// Mathematical model of an [`AgentCard`].
#[verifier::ext_equal]
pub struct SpecAgentCard {
    pub protocol_version: Seq<char>,
    pub name: Seq<char>,
    pub description: Seq<char>,
    pub url: Seq<char>,
    pub preferred_transport: Option<TransportProtocol>,
    pub additional_interfaces: Option<Seq<SpecAgentInterface>>,
    pub icon_url: Option<Seq<char>>,
    pub provider: Option<SpecAgentProvider>,
    pub version: Seq<char>,
    pub documentation_url: Option<Seq<char>>,
    pub capabilities: SpecAgentCapabilities,
    pub security_schemes: Option<Seq<(Seq<char>, SpecSecurityScheme)>>,
    pub security: Option<Seq<Seq<(Seq<char>, Seq<Seq<char>>)>>>,
    pub default_input_modes: Seq<Seq<char>>,
    pub default_output_modes: Seq<Seq<char>>,
    pub skills: Seq<SpecAgentSkill>,
    pub supports_authenticated_extended_card: Option<bool>,
    pub signatures: Option<Seq<SpecAgentCardSignature>>,
}

impl View for AgentCard {
    type V = SpecAgentCard;

    closed spec fn view(&self) -> SpecAgentCard {
        SpecAgentCard {
            protocol_version: self.protocol_version@,
            name: self.name@,
            description: self.description@,
            url: self.url@,
            preferred_transport: self.preferred_transport.deep_view(),
            additional_interfaces: self.additional_interfaces.deep_view(),
            icon_url: self.icon_url.deep_view(),
            provider: self.provider.deep_view(),
            version: self.version@,
            documentation_url: self.documentation_url.deep_view(),
            capabilities: self.capabilities@,
            security_schemes: self.security_schemes.deep_view(),
            security: self.security.deep_view(),
            default_input_modes: self.default_input_modes.deep_view(),
            default_output_modes: self.default_output_modes.deep_view(),
            skills: self.skills.deep_view(),
            supports_authenticated_extended_card: self.supports_authenticated_extended_card.deep_view(),
            signatures: self.signatures.deep_view(),
        }
    }
}

impl DeepView for AgentCard {
    type V = SpecAgentCard;

    open spec fn deep_view(&self) -> SpecAgentCard {
        self.view()
    }
}

/// The encoded entries of an [`AgentCard`], in ascending key order.
pub open spec fn card_entries(v: SpecAgentCard) -> Seq<(Seq<char>, SpecJson)> {
    opt_val_entry(
        "additionalInterfaces"@,
        match v.additional_interfaces {
            Some(xs) => Some(SpecJson::Arr(interfaces_arr(xs))),
            None => None,
        },
    ) + val_entry("capabilities"@, spec_encode_capabilities(v.capabilities)) + str_arr_entry(
        "defaultInputModes"@,
        v.default_input_modes,
    ) + str_arr_entry("defaultOutputModes"@, v.default_output_modes) + str_entry(
        "description"@,
        v.description,
    ) + opt_str_entry("documentationUrl"@, v.documentation_url) + opt_str_entry(
        "iconUrl"@,
        v.icon_url,
    ) + str_entry("name"@, v.name) + opt_str_entry(
        "preferredTransport"@,
        match v.preferred_transport {
            Some(t) => Some(transport_token(t)),
            None => None,
        },
    ) + str_entry("protocolVersion"@, v.protocol_version) + opt_val_entry(
        "provider"@,
        match v.provider {
            Some(p) => Some(spec_encode_provider(p)),
            None => None,
        },
    ) + opt_val_entry(
        "security"@,
        match v.security {
            Some(reqs) => Some(SpecJson::Arr(secreqs_arr(reqs))),
            None => None,
        },
    ) + opt_val_entry(
        "securitySchemes"@,
        match v.security_schemes {
            Some(m) => Some(SpecJson::Obj(schemes_entries(m))),
            None => None,
        },
    ) + opt_val_entry(
        "signatures"@,
        match v.signatures {
            Some(xs) => Some(SpecJson::Arr(signatures_arr(xs))),
            None => None,
        },
    ) + val_entry("skills"@, SpecJson::Arr(skills_arr(v.skills))) + opt_bool_entry(
        "supportsAuthenticatedExtendedCard"@,
        v.supports_authenticated_extended_card,
    ) + str_entry("url"@, v.url) + str_entry("version"@, v.version)
}

pub open spec fn spec_encode_card(v: SpecAgentCard) -> SpecJson {
    SpecJson::Obj(card_entries(v))
}

/// The identity, endpoint and collection fields of a card, read from an
/// object's entries.  The nested unions and records follow in
/// [`spec_decode_card`].
pub open spec fn spec_decode_card_scalars(es: Seq<(Seq<char>, SpecJson)>) -> Result<
    (
        Seq<char>,
        Seq<char>,
        Seq<char>,
        Seq<char>,
        Seq<char>,
        Option<Seq<char>>,
        Option<Seq<char>>,
        Option<Seq<char>>,
        Option<bool>,
        Option<TransportProtocol>,
    ),
    SpecDecodeError,
> {
    match spec_req_str(es, "protocolVersion"@) {
        Err(e) => Err(e),
        Ok(protocol_version) => match spec_req_str(es, "name"@) {
            Err(e) => Err(e),
            Ok(name) => match spec_req_str(es, "description"@) {
                Err(e) => Err(e),
                Ok(description) => match spec_req_str(es, "url"@) {
                    Err(e) => Err(e),
                    Ok(url) => match spec_req_str(es, "version"@) {
                        Err(e) => Err(e),
                        Ok(version) => match spec_opt_str(es, "iconUrl"@) {
                            Err(e) => Err(e),
                            Ok(icon_url) => match spec_opt_str(es, "documentationUrl"@) {
                                Err(e) => Err(e),
                                Ok(documentation_url) => match spec_opt_str(
                                    es,
                                    "preferredTransport"@
                                ) {
                                    Err(e) => Err(e),
                                    Ok(pt_tok) => match spec_opt_bool(
                                        es,
                                        "supportsAuthenticatedExtendedCard"@
                                    ) {
                                        Err(e) => Err(e),
                                        Ok(saec) => Ok(
                                            (
                                                protocol_version,
                                                name,
                                                description,
                                                url,
                                                version,
                                                icon_url,
                                                documentation_url,
                                                pt_tok,
                                                saec,
                                                match pt_tok {
                                                    Some(t) => Some(
                                                        spec_transport_from_token(t),
                                                    ),
                                                    None => None,
                                                },
                                            ),
                                        ),
                                    },
                                },
                            },
                        },
                    },
                },
            },
        },
    }
}

/// The collection fields of a card: mode lists, interfaces, skills,
/// signatures, schemes and requirements.
pub open spec fn spec_decode_card_collections(es: Seq<(Seq<char>, SpecJson)>) -> Result<
    (
        Seq<Seq<char>>,
        Seq<Seq<char>>,
        Option<Seq<SpecAgentInterface>>,
        Seq<SpecAgentSkill>,
        Option<Seq<SpecAgentCardSignature>>,
        Option<Seq<(Seq<char>, SpecSecurityScheme)>>,
        Option<Seq<Seq<(Seq<char>, Seq<Seq<char>>)>>>,
    ),
    SpecDecodeError,
> {
    match spec_req_str_arr(es, "defaultInputModes"@) {
        Err(e) => Err(e),
        Ok(dim) => match spec_req_str_arr(es, "defaultOutputModes"@) {
            Err(e) => Err(e),
            Ok(dom) => match (
                match spec_get(es, "additionalInterfaces"@) {
                    None => Ok(None),
                    Some(SpecJson::Null) => Ok(None),
                    Some(SpecJson::Arr(items)) => match spec_parse_interfaces(items) {
                        Err(e) => Err(e),
                        Ok(xs) => Ok(Some(xs)),
                    },
                    Some(_) => Err(spec_err(DecodeErrorKind::ExpectedArr, "additionalInterfaces"@)),
                }
            ) {
                Err(e) => Err(e),
                Ok(ifaces) => match (
                    match spec_get(es, "skills"@) {
                        None => Err(spec_err(DecodeErrorKind::MissingField, "skills"@)),
                        Some(SpecJson::Arr(items)) => spec_parse_skills(items),
                        Some(_) => Err(spec_err(DecodeErrorKind::ExpectedArr, "skills"@)),
                    }
                ) {
                    Err(e) => Err(e),
                    Ok(skills) => match (
                        match spec_get(es, "signatures"@) {
                            None => Ok(None),
                            Some(SpecJson::Null) => Ok(None),
                            Some(SpecJson::Arr(items)) => match spec_parse_signatures(items) {
                                Err(e) => Err(e),
                                Ok(xs) => Ok(Some(xs)),
                            },
                            Some(_) => Err(spec_err(DecodeErrorKind::ExpectedArr, "signatures"@)),
                        }
                    ) {
                        Err(e) => Err(e),
                        Ok(signatures) => match (
                            match spec_get(es, "securitySchemes"@) {
                                None => Ok(None),
                                Some(SpecJson::Null) => Ok(None),
                                Some(SpecJson::Obj(me)) => match spec_parse_schemes(me) {
                                    Err(e) => Err(e),
                                    Ok(m) => Ok(Some(m)),
                                },
                                Some(_) => Err(
                                    spec_err(DecodeErrorKind::ExpectedObject, "securitySchemes"@),
                                ),
                            }
                        ) {
                            Err(e) => Err(e),
                            Ok(schemes) => match (
                                match spec_get(es, "security"@) {
                                    None => Ok(None),
                                    Some(SpecJson::Null) => Ok(None),
                                    Some(SpecJson::Arr(items)) => match spec_parse_secreqs(
                                        items,
                                        "security"@
                                    ) {
                                        Err(e) => Err(e),
                                        Ok(reqs) => Ok(Some(reqs)),
                                    },
                                    Some(_) => Err(
                                        spec_err(DecodeErrorKind::ExpectedArr, "security"@),
                                    ),
                                }
                            ) {
                                Err(e) => Err(e),
                                Ok(security) => Ok(
                                    (dim, dom, ifaces, skills, signatures, schemes, security),
                                ),
                            },
                        },
                    },
                },
            },
        },
    }
}

pub open spec fn spec_decode_card(j: SpecJson) -> Result<SpecAgentCard, SpecDecodeError> {
    match j {
        SpecJson::Obj(es) => match spec_decode_card_scalars(es) {
            Err(e) => Err(e),
            Ok(scalars) => match (
                match spec_get(es, "capabilities"@) {
                    None => Err(spec_err(DecodeErrorKind::MissingField, "capabilities"@)),
                    Some(cj) => spec_decode_capabilities(cj),
                }
            ) {
                Err(e) => Err(e),
                Ok(capabilities) => match (
                    match spec_get(es, "provider"@) {
                        None => Ok(None),
                        Some(SpecJson::Null) => Ok(None),
                        Some(pj) => match spec_decode_provider(pj) {
                            Err(e) => Err(e),
                            Ok(p) => Ok(Some(p)),
                        },
                    }
                ) {
                    Err(e) => Err(e),
                    Ok(provider) => match spec_decode_card_collections(es) {
                        Err(e) => Err(e),
                        Ok(colls) => Ok(
                            SpecAgentCard {
                                protocol_version: scalars.0,
                                name: scalars.1,
                                description: scalars.2,
                                url: scalars.3,
                                preferred_transport: scalars.9,
                                additional_interfaces: colls.2,
                                icon_url: scalars.5,
                                provider,
                                version: scalars.4,
                                documentation_url: scalars.6,
                                capabilities,
                                security_schemes: colls.5,
                                security: colls.6,
                                default_input_modes: colls.0,
                                default_output_modes: colls.1,
                                skills: colls.3,
                                supports_authenticated_extended_card: scalars.8,
                                signatures: colls.4,
                            },
                        ),
                    },
                },
            },
        },
        _ => Err(spec_err(DecodeErrorKind::ExpectedObject, "agentCard"@)),
    }
}

/// The model of an empty card: every string empty, every optional field
/// absent, every list empty, both capability flags off.
pub open spec fn spec_empty_card() -> SpecAgentCard {
    SpecAgentCard {
        protocol_version: Seq::empty(),
        name: Seq::empty(),
        description: Seq::empty(),
        url: Seq::empty(),
        preferred_transport: None,
        additional_interfaces: None,
        icon_url: None,
        provider: None,
        version: Seq::empty(),
        documentation_url: None,
        capabilities: SpecAgentCapabilities {
            streaming: false,
            push_notifications: false,
            state_transition_history: None,
            extensions: None,
        },
        security_schemes: None,
        security: None,
        default_input_modes: Seq::empty(),
        default_output_modes: Seq::empty(),
        skills: Seq::empty(),
        supports_authenticated_extended_card: None,
        signatures: None,
    }
}

impl AgentCard {
    /// An empty card.
    pub fn new() -> (r: AgentCard)
        ensures
            r@ == spec_empty_card(),
    {
        let r = AgentCard {
            protocol_version: String::new(),
            name: String::new(),
            description: String::new(),
            url: String::new(),
            preferred_transport: None,
            additional_interfaces: None,
            icon_url: None,
            provider: None,
            version: String::new(),
            documentation_url: None,
            capabilities: AgentCapabilities {
                streaming: false,
                push_notifications: false,
                state_transition_history: None,
                extensions: None,
            },
            security_schemes: None,
            security: None,
            default_input_modes: Vec::new(),
            default_output_modes: Vec::new(),
            skills: Vec::new(),
            supports_authenticated_extended_card: None,
            signatures: None,
        };
        proof {
            assert(r.default_input_modes.deep_view() =~= Seq::<Seq<char>>::empty());
            assert(r.default_output_modes.deep_view() =~= Seq::<Seq<char>>::empty());
            assert(r.skills.deep_view() =~= Seq::<SpecAgentSkill>::empty());
            assert(r@ =~= spec_empty_card());
        }
        r
    }

    /// The protocol version the agent supports.
    pub fn protocol_version(&self) -> (r: &str)
        ensures
            r@ == self@.protocol_version,
    {
        self.protocol_version.as_str()
    }

    /// The agent's human-readable name.
    pub fn name(&self) -> (r: &str)
        ensures
            r@ == self@.name,
    {
        self.name.as_str()
    }

    /// The agent's human-readable description.
    pub fn description(&self) -> (r: &str)
        ensures
            r@ == self@.description,
    {
        self.description.as_str()
    }

    /// The preferred endpoint URL.
    pub fn url(&self) -> (r: &str)
        ensures
            r@ == self@.url,
    {
        self.url.as_str()
    }

    /// The transport of the preferred endpoint, if declared.
    pub fn preferred_transport(&self) -> (r: Option<&TransportProtocol>)
        ensures
            match r {
                Some(t) => self@.preferred_transport == Some(*t),
                None => self@.preferred_transport is None,
            },
    {
        self.preferred_transport.as_ref()
    }

    /// Further supported interfaces, if declared.
    pub fn additional_interfaces(&self) -> (r: Option<&Vec<AgentInterface>>)
        ensures
            match r {
                Some(xs) => self@.additional_interfaces == Some(xs.deep_view()),
                None => self@.additional_interfaces is None,
            },
    {
        self.additional_interfaces.as_ref()
    }

    /// A URL to an icon for the agent, if declared.
    pub fn icon_url(&self) -> (r: Option<&String>)
        ensures
            match r {
                Some(s) => self@.icon_url == Some(s@),
                None => self@.icon_url is None,
            },
    {
        self.icon_url.as_ref()
    }

    /// The agent's service provider, if declared.
    pub fn provider(&self) -> (r: Option<&AgentProvider>)
        ensures
            match r {
                Some(p) => self@.provider == Some(p@),
                None => self@.provider is None,
            },
    {
        self.provider.as_ref()
    }

    /// A URL to the agent's documentation, if declared.
    pub fn documentation_url(&self) -> (r: Option<&String>)
        ensures
            match r {
                Some(s) => self@.documentation_url == Some(s@),
                None => self@.documentation_url is None,
            },
    {
        self.documentation_url.as_ref()
    }

    /// The named security schemes available to authorize requests.
    pub fn security_schemes(&self) -> (r: Option<&SecuritySchemeMap>)
        ensures
            match r {
                Some(m) => self@.security_schemes == Some(m.deep_view()),
                None => self@.security_schemes is None,
            },
    {
        self.security_schemes.as_ref()
    }

    /// The security requirements applying to all interactions: an OR of
    /// ANDs.
    pub fn security(&self) -> (r: Option<&Vec<SecurityRequirement>>)
        ensures
            match r {
                Some(xs) => self@.security == Some(xs.deep_view()),
                None => self@.security is None,
            },
    {
        self.security.as_ref()
    }

    /// The default supported input MIME types.
    pub fn default_input_modes(&self) -> (r: &Vec<String>)
        ensures
            r.deep_view() == self@.default_input_modes,
    {
        &self.default_input_modes
    }

    /// The default supported output MIME types.
    pub fn default_output_modes(&self) -> (r: &Vec<String>)
        ensures
            r.deep_view() == self@.default_output_modes,
    {
        &self.default_output_modes
    }

    /// Whether the agent offers an extended card to authenticated users.
    pub fn supports_authenticated_extended_card(&self) -> (r: Option<bool>)
        ensures
            r == self@.supports_authenticated_extended_card,
    {
        self.supports_authenticated_extended_card
    }

    /// JSON Web Signatures computed for this card, if any.
    pub fn signatures(&self) -> (r: Option<&Vec<AgentCardSignature>>)
        ensures
            match r {
                Some(xs) => self@.signatures == Some(xs.deep_view()),
                None => self@.signatures is None,
            },
    {
        self.signatures.as_ref()
    }

    /// The agent's skills.
    pub fn skills(&self) -> (r: &Vec<AgentSkill>)
        ensures
            r.deep_view() == self@.skills,
    {
        &self.skills
    }

    /// The declared capabilities.
    pub fn capabilities(&self) -> (r: &AgentCapabilities)
        ensures
            r@ == self@.capabilities,
    {
        &self.capabilities
    }

    /// The agent's own version.
    pub fn version(&self) -> (r: &str)
        ensures
            r@ == self@.version,
    {
        self.version.as_str()
    }

    /// Builds a card from its parts; the counterpart of the accessors.
    pub fn from_parts(
        protocol_version: String,
        name: String,
        description: String,
        url: String,
        preferred_transport: Option<TransportProtocol>,
        additional_interfaces: Option<Vec<AgentInterface>>,
        icon_url: Option<String>,
        provider: Option<AgentProvider>,
        version: String,
        documentation_url: Option<String>,
        capabilities: AgentCapabilities,
        security_schemes: Option<SecuritySchemeMap>,
        security: Option<Vec<SecurityRequirement>>,
        default_input_modes: Vec<String>,
        default_output_modes: Vec<String>,
        skills: Vec<AgentSkill>,
        supports_authenticated_extended_card: Option<bool>,
        signatures: Option<Vec<AgentCardSignature>>,
    ) -> (r: AgentCard)
        ensures
            r@ == (SpecAgentCard {
                protocol_version: protocol_version@,
                name: name@,
                description: description@,
                url: url@,
                preferred_transport: preferred_transport.deep_view(),
                additional_interfaces: additional_interfaces.deep_view(),
                icon_url: icon_url.deep_view(),
                provider: provider.deep_view(),
                version: version@,
                documentation_url: documentation_url.deep_view(),
                capabilities: capabilities@,
                security_schemes: security_schemes.deep_view(),
                security: security.deep_view(),
                default_input_modes: default_input_modes.deep_view(),
                default_output_modes: default_output_modes.deep_view(),
                skills: skills.deep_view(),
                supports_authenticated_extended_card:
                    supports_authenticated_extended_card.deep_view(),
                signatures: signatures.deep_view(),
            }),
    {
        AgentCard {
            protocol_version,
            name,
            description,
            url,
            preferred_transport,
            additional_interfaces,
            icon_url,
            provider,
            version,
            documentation_url,
            capabilities,
            security_schemes,
            security,
            default_input_modes,
            default_output_modes,
            skills,
            supports_authenticated_extended_card,
            signatures,
        }
    }

    /// Encodes this card as a JSON object, omitting absent optional
    /// fields entirely.
    pub fn to_json(&self) -> (r: JsonValue)
        ensures
            r@ == spec_encode_card(self@),
    {
        let mut b = ObjBuilder::new();
        match &self.additional_interfaces {
            Some(xs) => b.push_val("additionalInterfaces", encode_interfaces(xs)),
            None => (),
        }
        b.push_val("capabilities", self.capabilities.to_json());
        b.push_str_arr("defaultInputModes", &self.default_input_modes);
        b.push_str_arr("defaultOutputModes", &self.default_output_modes);
        b.push_str("description", self.description.as_str());
        b.push_opt_str("documentationUrl", &self.documentation_url);
        b.push_opt_str("iconUrl", &self.icon_url);
        b.push_str("name", self.name.as_str());
        match &self.preferred_transport {
            Some(t) => b.push_str("preferredTransport", t.as_str()),
            None => (),
        }
        b.push_str("protocolVersion", self.protocol_version.as_str());
        match &self.provider {
            Some(p) => b.push_val("provider", p.to_json()),
            None => (),
        }
        match &self.security {
            Some(reqs) => b.push_val("security", encode_secreqs(reqs)),
            None => (),
        }
        match &self.security_schemes {
            Some(m) => b.push_val("securitySchemes", m.to_json()),
            None => (),
        }
        match &self.signatures {
            Some(xs) => b.push_val("signatures", encode_signatures(xs)),
            None => (),
        }
        b.push_val("skills", encode_skills(&self.skills));
        b.push_opt_bool(
            "supportsAuthenticatedExtendedCard",
            &self.supports_authenticated_extended_card,
        );
        b.push_str("url", self.url.as_str());
        b.push_str("version", self.version.as_str());
        proof {
            assert(b@ =~= card_entries(self@));
        }
        b.finish()
    }

    /// Decodes a JSON object into a card.
    pub fn from_json(j: &JsonValue) -> (r: Result<AgentCard, DecodeError>)
        ensures
            res_deep_view(r) == spec_decode_card(j@),
    {
        let es = match j {
            JsonValue::Obj(es) => es,
            _ => { return Err(mk_err(DecodeErrorKind::ExpectedObject, "agentCard")) },
        };
        let protocol_version = match get_str_req(es, "protocolVersion") {
            Ok(v) => v,
            Err(e) => { return Err(e) },
        };
        let name = match get_str_req(es, "name") {
            Ok(v) => v,
            Err(e) => { return Err(e) },
        };
        let description = match get_str_req(es, "description") {
            Ok(v) => v,
            Err(e) => { return Err(e) },
        };
        let url = match get_str_req(es, "url") {
            Ok(v) => v,
            Err(e) => { return Err(e) },
        };
        let version = match get_str_req(es, "version") {
            Ok(v) => v,
            Err(e) => { return Err(e) },
        };
        let icon_url = match get_str_opt(es, "iconUrl") {
            Ok(v) => v,
            Err(e) => { return Err(e) },
        };
        let documentation_url = match get_str_opt(es, "documentationUrl") {
            Ok(v) => v,
            Err(e) => { return Err(e) },
        };
        let pt_tok = match get_str_opt(es, "preferredTransport") {
            Ok(v) => v,
            Err(e) => { return Err(e) },
        };
        let preferred_transport = match &pt_tok {
            Some(t) => Some(TransportProtocol::from_wire(t.as_str())),
            None => None,
        };
        let supports_authenticated_extended_card = match get_bool_opt(
            es,
            "supportsAuthenticatedExtendedCard",
        ) {
            Ok(v) => v,
            Err(e) => { return Err(e) },
        };
        let capabilities = match get_entry(es, "capabilities") {
            None => { return Err(mk_err(DecodeErrorKind::MissingField, "capabilities")) },
            Some(cj) => match AgentCapabilities::from_json(cj) {
                Ok(v) => v,
                Err(e) => { return Err(e) },
            },
        };
        let provider = match get_entry(es, "provider") {
            None => None,
            Some(JsonValue::Null) => None,
            Some(pj) => match AgentProvider::from_json(pj) {
                Ok(p) => Some(p),
                Err(e) => { return Err(e) },
            },
        };
        let default_input_modes = match get_str_arr_req(es, "defaultInputModes") {
            Ok(v) => v,
            Err(e) => { return Err(e) },
        };
        let default_output_modes = match get_str_arr_req(es, "defaultOutputModes") {
            Ok(v) => v,
            Err(e) => { return Err(e) },
        };
        let additional_interfaces = match get_entry(es, "additionalInterfaces") {
            None => None,
            Some(JsonValue::Null) => None,
            Some(JsonValue::Arr(items)) => match parse_interfaces(items) {
                Ok(xs) => Some(xs),
                Err(e) => { return Err(e) },
            },
            Some(_) => { return Err(mk_err(DecodeErrorKind::ExpectedArr, "additionalInterfaces")) },
        };
        let skills = match get_entry(es, "skills") {
            None => { return Err(mk_err(DecodeErrorKind::MissingField, "skills")) },
            Some(JsonValue::Arr(items)) => match parse_skills(items) {
                Ok(v) => v,
                Err(e) => { return Err(e) },
            },
            Some(_) => { return Err(mk_err(DecodeErrorKind::ExpectedArr, "skills")) },
        };
        let signatures = match get_entry(es, "signatures") {
            None => None,
            Some(JsonValue::Null) => None,
            Some(JsonValue::Arr(items)) => match parse_signatures(items) {
                Ok(xs) => Some(xs),
                Err(e) => { return Err(e) },
            },
            Some(_) => { return Err(mk_err(DecodeErrorKind::ExpectedArr, "signatures")) },
        };
        let security_schemes = match get_entry(es, "securitySchemes") {
            None => None,
            Some(JsonValue::Null) => None,
            Some(mj@JsonValue::Obj(_)) => match SecuritySchemeMap::from_json(mj) {
                Ok(m) => Some(m),
                Err(e) => { return Err(e) },
            },
            Some(_) => { return Err(mk_err(DecodeErrorKind::ExpectedObject, "securitySchemes")) },
        };
        let security = match get_entry(es, "security") {
            None => None,
            Some(JsonValue::Null) => None,
            Some(JsonValue::Arr(items)) => match parse_secreqs(items) {
                Ok(reqs) => Some(reqs),
                Err(e) => { return Err(e) },
            },
            Some(_) => { return Err(mk_err(DecodeErrorKind::ExpectedArr, "security")) },
        };
        Ok(
            AgentCard {
                protocol_version,
                name,
                description,
                url,
                preferred_transport,
                additional_interfaces,
                icon_url,
                provider,
                version,
                documentation_url,
                capabilities,
                security_schemes,
                security,
                default_input_modes,
                default_output_modes,
                skills,
                supports_authenticated_extended_card,
                signatures,
            },
        )
    }
}

/// A card fit for a lossless round trip: every security scheme in its
/// scheme map keeps its extension keys clear of that scheme's static
/// field names, and every string map under the card stands in the
/// canonical ascending key order.
pub open spec fn card_wf(v: SpecAgentCard) -> bool {
    &&& match v.security_schemes {
        Some(m) => schemes_wf(m),
        None => true,
    }
    &&& match v.security {
        Some(reqs) => crate::agent_card::security_scheme::secreqs_wf(reqs),
        None => true,
    }
    &&& capabilities_wf(v.capabilities)
    &&& skills_wf(v.skills)
    &&& match v.signatures {
        Some(xs) => signatures_wf(xs),
        None => true,
    }
}

/// What the scalar-field lookups find in an encoded card.
#[verifier::rlimit(100)]
#[verifier::spinoff_prover]
proof fn lemma_card_gets_scalars(v: SpecAgentCard)
    ensures
        spec_get(card_entries(v), "protocolVersion"@) == Some(SpecJson::Str(v.protocol_version)),
        spec_get(card_entries(v), "name"@) == Some(SpecJson::Str(v.name)),
        spec_get(card_entries(v), "description"@) == Some(SpecJson::Str(v.description)),
        spec_get(card_entries(v), "url"@) == Some(SpecJson::Str(v.url)),
        spec_get(card_entries(v), "version"@) == Some(SpecJson::Str(v.version)),
        spec_get(card_entries(v), "iconUrl"@) == match v.icon_url {
            Some(s) => Some(SpecJson::Str(s)),
            None => None,
        },
        spec_get(card_entries(v), "documentationUrl"@) == match v.documentation_url {
            Some(s) => Some(SpecJson::Str(s)),
            None => None,
        },
        spec_get(card_entries(v), "preferredTransport"@) == match v.preferred_transport {
            Some(t) => Some(SpecJson::Str(transport_token(t))),
            None => None,
        },
        spec_get(card_entries(v), "supportsAuthenticatedExtendedCard"@) == match v.supports_authenticated_extended_card {
            Some(b) => Some(SpecJson::Bool(b)),
            None => None,
        },
{
    broadcast use crate::codec::group_entry_lookup;



    reveal_strlit("additionalInterfaces");
    reveal_strlit("capabilities");
    reveal_strlit("defaultInputModes");
    reveal_strlit("defaultOutputModes");
    reveal_strlit("description");
    reveal_strlit("documentationUrl");
    reveal_strlit("iconUrl");
    reveal_strlit("name");
    reveal_strlit("preferredTransport");
    reveal_strlit("protocolVersion");
    reveal_strlit("provider");
    reveal_strlit("security");
    reveal_strlit("securitySchemes");
    reveal_strlit("signatures");
    reveal_strlit("skills");
    reveal_strlit("supportsAuthenticatedExtendedCard");
    reveal_strlit("url");
    reveal_strlit("version");
    assert("additionalInterfaces"@.len() == 20);
    assert("capabilities"@.len() == 12);
    assert("defaultInputModes"@.len() == 17);
    assert("defaultOutputModes"@.len() == 18);
    assert("description"@.len() == 11);
    assert("documentationUrl"@.len() == 16);
    assert("iconUrl"@.len() == 7);
    assert("name"@.len() == 4);
    assert("preferredTransport"@.len() == 18);
    assert("protocolVersion"@.len() == 15);
    assert("provider"@.len() == 8);
    assert("security"@.len() == 8);
    assert("securitySchemes"@.len() == 15);
    assert("signatures"@.len() == 10);
    assert("skills"@.len() == 6);
    assert("supportsAuthenticatedExtendedCard"@.len() == 33);
    assert("url"@.len() == 3);
    assert("version"@.len() == 7);
    assert("additionalInterfaces"@[0] == 'a');
    assert("capabilities"@[0] == 'c');
    assert("defaultInputModes"@[0] == 'd');
    assert("defaultOutputModes"@[0] == 'd');
    assert("description"@[0] == 'd');
    assert("name"@[0] == 'n');
    assert("signatures"@[0] == 's');
    assert("skills"@[0] == 's');
    assert("supportsAuthenticatedExtendedCard"@[0] == 's');
    assert("url"@[0] == 'u');
    assert("defaultInputModes"@[7] == 'I');
    assert("defaultOutputModes"@[7] == 'O');
    assert("preferredTransport"@[0] == 'p');
    assert("documentationUrl"@[0] == 'd');
    assert("provider"@[0] == 'p');
    assert("security"@[0] == 's');
    assert("protocolVersion"@[0] == 'p');
    assert("securitySchemes"@[0] == 's');
    assert("iconUrl"@[0] == 'i');
    assert("version"@[0] == 'v');
}

/// The scalar field helpers, restated over the lookups above.
proof fn lemma_card_fields_scalars(v: SpecAgentCard)
    ensures
        spec_req_str(card_entries(v), "protocolVersion"@) == Ok::<Seq<char>, SpecDecodeError>(
            v.protocol_version,
        ),
        spec_req_str(card_entries(v), "name"@) == Ok::<Seq<char>, SpecDecodeError>(v.name),
        spec_req_str(card_entries(v), "description"@) == Ok::<Seq<char>, SpecDecodeError>(
            v.description,
        ),
        spec_req_str(card_entries(v), "url"@) == Ok::<Seq<char>, SpecDecodeError>(v.url),
        spec_req_str(card_entries(v), "version"@) == Ok::<Seq<char>, SpecDecodeError>(v.version),
        spec_opt_str(card_entries(v), "iconUrl"@) == Ok::<Option<Seq<char>>, SpecDecodeError>(
            v.icon_url,
        ),
        spec_opt_str(card_entries(v), "documentationUrl"@) == Ok::<
            Option<Seq<char>>,
            SpecDecodeError,
        >(v.documentation_url),
        spec_opt_str(card_entries(v), "preferredTransport"@) == Ok::<
            Option<Seq<char>>,
            SpecDecodeError,
        >(
            match v.preferred_transport {
                Some(t) => Some(transport_token(t)),
                None => None,
            },
        ),
        spec_opt_bool(card_entries(v), "supportsAuthenticatedExtendedCard"@) == Ok::<
            Option<bool>,
            SpecDecodeError,
        >(v.supports_authenticated_extended_card),
        spec_get(card_entries(v), "iconUrl"@) == match v.icon_url {
            Some(s) => Some(SpecJson::Str(s)),
            None => None,
        },
{
    lemma_card_gets_scalars(v);
}

/// What the nested-value lookups read back from an encoded card.
#[verifier::rlimit(100)]
#[verifier::spinoff_prover]
proof fn lemma_card_fields_collections(v: SpecAgentCard)
    ensures
        spec_get(card_entries(v), "capabilities"@) == Some(
            spec_encode_capabilities(v.capabilities),
        ),
        spec_get(card_entries(v), "provider"@) == match v.provider {
            Some(p) => Some(spec_encode_provider(p)),
            None => None,
        },
        spec_req_str_arr(card_entries(v), "defaultInputModes"@) == Ok::<
            Seq<Seq<char>>,
            SpecDecodeError,
        >(v.default_input_modes),
        spec_req_str_arr(card_entries(v), "defaultOutputModes"@) == Ok::<
            Seq<Seq<char>>,
            SpecDecodeError,
        >(v.default_output_modes),
        spec_get(card_entries(v), "additionalInterfaces"@) == match v.additional_interfaces {
            Some(xs) => Some(SpecJson::Arr(interfaces_arr(xs))),
            None => None,
        },
        spec_get(card_entries(v), "skills"@) == Some(SpecJson::Arr(skills_arr(v.skills))),
        spec_get(card_entries(v), "signatures"@) == match v.signatures {
            Some(xs) => Some(SpecJson::Arr(signatures_arr(xs))),
            None => None,
        },
        spec_get(card_entries(v), "securitySchemes"@) == match v.security_schemes {
            Some(m) => Some(SpecJson::Obj(schemes_entries(m))),
            None => None,
        },
        spec_get(card_entries(v), "security"@) == match v.security {
            Some(reqs) => Some(SpecJson::Arr(secreqs_arr(reqs))),
            None => None,
        },
{
    broadcast use
        crate::codec::group_entry_lookup,
        crate::codec::lemma_parse_str_arr_rt;

    reveal_strlit("additionalInterfaces");
    reveal_strlit("capabilities");
    reveal_strlit("defaultInputModes");
    reveal_strlit("defaultOutputModes");
    reveal_strlit("description");
    reveal_strlit("documentationUrl");
    reveal_strlit("iconUrl");
    reveal_strlit("name");
    reveal_strlit("preferredTransport");
    reveal_strlit("protocolVersion");
    reveal_strlit("provider");
    reveal_strlit("security");
    reveal_strlit("securitySchemes");
    reveal_strlit("signatures");
    reveal_strlit("skills");
    reveal_strlit("supportsAuthenticatedExtendedCard");
    reveal_strlit("url");
    reveal_strlit("version");
    assert("additionalInterfaces"@.len() == 20);
    assert("capabilities"@.len() == 12);
    assert("defaultInputModes"@.len() == 17);
    assert("defaultOutputModes"@.len() == 18);
    assert("description"@.len() == 11);
    assert("documentationUrl"@.len() == 16);
    assert("iconUrl"@.len() == 7);
    assert("name"@.len() == 4);
    assert("preferredTransport"@.len() == 18);
    assert("protocolVersion"@.len() == 15);
    assert("provider"@.len() == 8);
    assert("security"@.len() == 8);
    assert("securitySchemes"@.len() == 15);
    assert("signatures"@.len() == 10);
    assert("skills"@.len() == 6);
    assert("supportsAuthenticatedExtendedCard"@.len() == 33);
    assert("url"@.len() == 3);
    assert("version"@.len() == 7);
    assert("additionalInterfaces"@[0] == 'a');
    assert("capabilities"@[0] == 'c');
    assert("defaultInputModes"@[0] == 'd');
    assert("defaultOutputModes"@[0] == 'd');
    assert("description"@[0] == 'd');
    assert("name"@[0] == 'n');
    assert("signatures"@[0] == 's');
    assert("skills"@[0] == 's');
    assert("supportsAuthenticatedExtendedCard"@[0] == 's');
    assert("url"@[0] == 'u');
    assert("defaultInputModes"@[7] == 'I');
    assert("defaultOutputModes"@[7] == 'O');
    assert("preferredTransport"@[0] == 'p');
    assert("documentationUrl"@[0] == 'd');
    assert("provider"@[0] == 'p');
    assert("security"@[0] == 's');
    assert("protocolVersion"@[0] == 'p');
    assert("securitySchemes"@[0] == 's');
    assert("iconUrl"@[0] == 'i');
    assert("version"@[0] == 'v');
}

/// Decoding an encoded card yields the card back.
pub proof fn lemma_card_round_trip(v: SpecAgentCard)
    requires
        card_wf(v),
    ensures
        spec_decode_card(spec_encode_card(v)) == Ok::<SpecAgentCard, SpecDecodeError>(v),
{
    broadcast use
        lemma_interfaces_arr_round_trip,
        lemma_skills_arr_round_trip,
        lemma_signatures_arr_round_trip,
        lemma_parse_secreqs_rt;

    lemma_card_fields_scalars(v);
    lemma_card_fields_collections(v);
    match v.preferred_transport {
        Some(t) => {
            lemma_transport_round_trip(t);
        },
        None => (),
    }
    lemma_capabilities_round_trip(v.capabilities);
    assert(!(spec_encode_capabilities(v.capabilities) is Null));
    match v.provider {
        Some(p) => {
            lemma_provider_round_trip(p);
            assert(!(spec_encode_provider(p) is Null));
        },
        None => (),
    }
    match v.security_schemes {
        Some(m) => {
            lemma_parse_schemes_round_trip(m);
        },
        None => (),
    }
}

/// An absent optional field is omitted from the encoding entirely, and a
/// present one appears, even when its value is empty: here, the icon URL
/// key exists in the encoded card exactly when the field is set.
pub proof fn lemma_card_icon_url_omission(v: SpecAgentCard)
    ensures
        spec_get(card_entries(v), "iconUrl"@) == match v.icon_url {
            Some(s) => Some(SpecJson::Str(s)),
            None => None,
        },
{
    lemma_card_gets_scalars(v);
}

} // verus!
