//! A distinct capability an agent can perform.

use vstd::prelude::*;

use crate::agent_card::security_scheme::SecurityRequirement;
use crate::agent_card::security_scheme::lemma_parse_secreqs_rt;
use crate::agent_card::security_scheme::secreqs_arr;
use crate::agent_card::security_scheme::spec_parse_secreqs;
use crate::codec::DecodeError;
use crate::codec::DecodeErrorKind;
use crate::codec::ObjBuilder;
use crate::codec::SpecDecodeError;
use crate::codec::get_entry;
use crate::codec::get_str_arr_opt;
use crate::codec::get_str_arr_req;
use crate::codec::get_str_req;
use crate::codec::mk_err;
use crate::codec::opt_str_arr_entry;
use crate::codec::res_deep_view;
use crate::codec::spec_err;
use crate::codec::spec_get;
use crate::codec::spec_opt_str_arr;
use crate::codec::spec_req_str;
use crate::codec::spec_req_str_arr;
use crate::codec::str_arr;
use crate::codec::str_arr_entry;
use crate::codec::str_entry;
use crate::codec::val_entry;
use crate::json::JsonValue;
use crate::json::SpecJson;

verus! {

broadcast use {vstd::std_specs::vec::group_vec_axioms, crate::json::group_json_view_lemmas};

/// A distinct capability or function an agent can perform.
#[derive(Debug, Clone, PartialEq, Eq)]
pub struct AgentSkill {
    /// The unique identifier of the skill.
    pub id: String,
    /// A human-readable name.
    pub name: String,
    /// A detailed description.
    pub description: String,
    /// Keywords describing the skill.
    pub tags: Vec<String>,
    /// Example prompts the skill can handle.
    pub examples: Option<Vec<String>>,
    /// Supported input MIME types, overriding the agent's defaults.
    pub input_modes: Option<Vec<String>>,
    /// Supported output MIME types, overriding the agent's defaults.
    pub output_modes: Option<Vec<String>>,
    /// Security requirements for using the skill: an OR of ANDs.
    pub security: Option<Vec<SecurityRequirement>>,
}

/// Mathematical model of an [`AgentSkill`].
#[verifier::ext_equal]
pub struct SpecAgentSkill {
    pub id: Seq<char>,
    pub name: Seq<char>,
    pub description: Seq<char>,
    pub tags: Seq<Seq<char>>,
    pub examples: Option<Seq<Seq<char>>>,
    pub input_modes: Option<Seq<Seq<char>>>,
    pub output_modes: Option<Seq<Seq<char>>>,
    pub security: Option<Seq<Seq<(Seq<char>, Seq<Seq<char>>)>>>,
}

impl View for AgentSkill {
    type V = SpecAgentSkill;

    open spec fn view(&self) -> SpecAgentSkill {
        SpecAgentSkill {
            id: self.id@,
            name: self.name@,
            description: self.description@,
            tags: self.tags.deep_view(),
            examples: self.examples.deep_view(),
            input_modes: self.input_modes.deep_view(),
            output_modes: self.output_modes.deep_view(),
            security: self.security.deep_view(),
        }
    }
}

impl DeepView for AgentSkill {
    type V = SpecAgentSkill;

    open spec fn deep_view(&self) -> SpecAgentSkill {
        self.view()
    }
}

/// The encoded entries of an [`AgentSkill`], in ascending key order.
pub open spec fn skill_entries(v: SpecAgentSkill) -> Seq<(Seq<char>, SpecJson)> {
    str_entry("description"@, v.description) + opt_str_arr_entry("examples"@, v.examples)
        + str_entry("id"@, v.id) + opt_str_arr_entry("inputModes"@, v.input_modes) + str_entry(
        "name"@,
        v.name,
    ) + opt_str_arr_entry("outputModes"@, v.output_modes) + (match v.security {
        Some(reqs) => val_entry("security"@, SpecJson::Arr(secreqs_arr(reqs))),
        None => Seq::empty(),
    }) + str_arr_entry("tags"@, v.tags)
}

pub open spec fn spec_encode_skill(v: SpecAgentSkill) -> SpecJson {
    SpecJson::Obj(skill_entries(v))
}

pub open spec fn spec_decode_skill(j: SpecJson) -> Result<SpecAgentSkill, SpecDecodeError> {
    match j {
        SpecJson::Obj(es) => match spec_req_str(es, "id"@) {
            Err(e) => Err(e),
            Ok(id) => match spec_req_str(es, "name"@) {
                Err(e) => Err(e),
                Ok(name) => match spec_req_str(es, "description"@) {
                    Err(e) => Err(e),
                    Ok(description) => match spec_req_str_arr(es, "tags"@) {
                        Err(e) => Err(e),
                        Ok(tags) => match spec_opt_str_arr(es, "examples"@) {
                            Err(e) => Err(e),
                            Ok(examples) => match spec_opt_str_arr(es, "inputModes"@) {
                                Err(e) => Err(e),
                                Ok(input_modes) => match spec_opt_str_arr(es, "outputModes"@) {
                                    Err(e) => Err(e),
                                    Ok(output_modes) => match spec_get(es, "security"@) {
                                        None => Ok(
                                            SpecAgentSkill {
                                                id,
                                                name,
                                                description,
                                                tags,
                                                examples,
                                                input_modes,
                                                output_modes,
                                                security: None,
                                            },
                                        ),
                                        Some(SpecJson::Null) => Ok(
                                            SpecAgentSkill {
                                                id,
                                                name,
                                                description,
                                                tags,
                                                examples,
                                                input_modes,
                                                output_modes,
                                                security: None,
                                            },
                                        ),
                                        Some(SpecJson::Arr(items)) => match spec_parse_secreqs(
                                            items,
                                            "security"@,
                                        ) {
                                            Err(e) => Err(e),
                                            Ok(reqs) => Ok(
                                                SpecAgentSkill {
                                                    id,
                                                    name,
                                                    description,
                                                    tags,
                                                    examples,
                                                    input_modes,
                                                    output_modes,
                                                    security: Some(reqs),
                                                },
                                            ),
                                        },
                                        Some(_) => Err(
                                            spec_err(DecodeErrorKind::ExpectedArr, "security"@),
                                        ),
                                    },
                                },
                            },
                        },
                    },
                },
            },
        },
        _ => Err(spec_err(DecodeErrorKind::ExpectedObject, "skill"@)),
    }
}

impl AgentSkill {
    /// Encodes this skill as a JSON object, omitting absent optional
    /// fields entirely.
    pub fn to_json(&self) -> (r: JsonValue)
        ensures
            r@ == spec_encode_skill(self@),
    {
        let mut b = ObjBuilder::new();
        b.push_str("description", self.description.as_str());
        b.push_opt_str_arr("examples", &self.examples);
        b.push_str("id", self.id.as_str());
        b.push_opt_str_arr("inputModes", &self.input_modes);
        b.push_str("name", self.name.as_str());
        b.push_opt_str_arr("outputModes", &self.output_modes);
        match &self.security {
            Some(reqs) => b.push_val(
                "security",
                crate::agent_card::security_scheme::encode_secreqs(reqs),
            ),
            None => (),
        }
        b.push_str_arr("tags", &self.tags);
        proof {
            assert(b@ =~= skill_entries(self@));
        }
        b.finish()
    }

    /// Decodes a JSON object into a skill.
    pub fn from_json(j: &JsonValue) -> (r: Result<AgentSkill, DecodeError>)
        ensures
            res_deep_view(r) == spec_decode_skill(j@),
    {
        let es = match j {
            JsonValue::Obj(es) => es,
            _ => { return Err(mk_err(DecodeErrorKind::ExpectedObject, "skill")) },
        };
        let id = match get_str_req(es, "id") {
            Ok(v) => v,
            Err(e) => { return Err(e) },
        };
        let name = match get_str_req(es, "name") {
            Ok(v) => v,
            Err(e) => { return Err(e) },
        };
        let description = match get_str_req(es, "description") {
            Ok(v) => v,
            Err(e) => { return Err(e) },
        };
        let tags = match get_str_arr_req(es, "tags") {
            Ok(v) => v,
            Err(e) => { return Err(e) },
        };
        let examples = match get_str_arr_opt(es, "examples") {
            Ok(v) => v,
            Err(e) => { return Err(e) },
        };
        let input_modes = match get_str_arr_opt(es, "inputModes") {
            Ok(v) => v,
            Err(e) => { return Err(e) },
        };
        let output_modes = match get_str_arr_opt(es, "outputModes") {
            Ok(v) => v,
            Err(e) => { return Err(e) },
        };
        let security = match get_entry(es, "security") {
            None => None,
            Some(JsonValue::Null) => None,
            Some(JsonValue::Arr(items)) => match crate::agent_card::security_scheme::parse_secreqs(
                items,
            ) {
                Ok(reqs) => Some(reqs),
                Err(e) => { return Err(e) },
            },
            Some(_) => { return Err(mk_err(DecodeErrorKind::ExpectedArr, "security")) },
        };
        Ok(AgentSkill { id, name, description, tags, examples, input_modes, output_modes, security })
    }
}

/// A skill fit for a lossless round trip: each of its security
/// requirements is.
pub open spec fn skill_wf(v: SpecAgentSkill) -> bool {
    match v.security {
        Some(reqs) => crate::agent_card::security_scheme::secreqs_wf(reqs),
        None => true,
    }
}

/// Decoding an encoded skill yields it back.
pub proof fn lemma_skill_round_trip(v: SpecAgentSkill)
    requires
        skill_wf(v),
    ensures
        spec_decode_skill(spec_encode_skill(v)) == Ok::<SpecAgentSkill, SpecDecodeError>(v),
{
    broadcast use
        crate::codec::group_entry_lookup,
        crate::codec::lemma_parse_str_arr_rt,
        lemma_parse_secreqs_rt;

    reveal_strlit("description");
    reveal_strlit("examples");
    reveal_strlit("id");
    reveal_strlit("inputModes");
    reveal_strlit("name");
    reveal_strlit("outputModes");
    reveal_strlit("security");
    reveal_strlit("tags");
    assert("description"@.len() == 11);
    assert("examples"@.len() == 8);
    assert("id"@.len() == 2);
    assert("inputModes"@.len() == 10);
    assert("name"@.len() == 4);
    assert("outputModes"@.len() == 11);
    assert("security"@.len() == 8);
    assert("tags"@.len() == 4);
    assert("description"@[0] == 'd');
    assert("outputModes"@[0] == 'o');
    assert("examples"@[0] == 'e');
    assert("security"@[0] == 's');
    assert("name"@[0] == 'n');
    assert("tags"@[0] == 't');
    let es = skill_entries(v);
    assert(spec_get(es, "id"@) == Some(SpecJson::Str(v.id)));
    assert(spec_get(es, "name"@) == Some(SpecJson::Str(v.name)));
    assert(spec_get(es, "description"@) == Some(SpecJson::Str(v.description)));
    assert(spec_get(es, "tags"@) == Some(SpecJson::Arr(str_arr(v.tags))));
    assert(spec_get(es, "examples"@) == match v.examples {
        Some(ss) => Some(SpecJson::Arr(str_arr(ss))),
        None => None,
    });
    assert(spec_get(es, "inputModes"@) == match v.input_modes {
        Some(ss) => Some(SpecJson::Arr(str_arr(ss))),
        None => None,
    });
    assert(spec_get(es, "outputModes"@) == match v.output_modes {
        Some(ss) => Some(SpecJson::Arr(str_arr(ss))),
        None => None,
    });
    assert(spec_get(es, "security"@) == match v.security {
        Some(reqs) => Some(SpecJson::Arr(secreqs_arr(reqs))),
        None => None,
    });
}

} // verus!
