//! An artifact generated by a task: an identified, ordered collection of
//! parts.

use vstd::prelude::*;

use crate::codec::DecodeError;
use crate::codec::DecodeErrorKind;
use crate::codec::ObjBuilder;
use crate::codec::SpecDecodeError;
use crate::codec::get_entry;
use crate::codec::get_str_arr_opt;
use crate::codec::get_str_opt;
use crate::codec::get_str_req;
use crate::codec::get_strmap_opt;
use crate::codec::mk_err;
use crate::codec::opt_str_arr_entry;
use crate::codec::opt_str_entry;
use crate::codec::opt_strmap_entry;
use crate::codec::res_deep_view;
use crate::codec::spec_err;
use crate::codec::spec_get;
use crate::codec::spec_opt_str;
use crate::codec::spec_opt_str_arr;
use crate::codec::spec_opt_strmap;
use crate::codec::spec_req_str;
use crate::codec::str_arr;
use crate::codec::str_entry;
use crate::codec::strmap_entries;
use crate::codec::val_entry;
use crate::json::JsonValue;
use crate::json::SpecJson;
use crate::json::json_seq_view;
use crate::json::json_view;
use crate::protocol_data::message::Part;
use crate::protocol_data::message::SpecPart;
use crate::protocol_data::message::encode_parts;
use crate::protocol_data::message::lemma_parts_arr_round_trip;
use crate::protocol_data::message::parse_parts;
use crate::protocol_data::message::parts_arr;
use crate::protocol_data::message::spec_parse_parts;
use crate::util_types::StrMap;

verus! {

broadcast use {vstd::std_specs::vec::group_vec_axioms, crate::json::group_json_view_lemmas};

/// A new or updated output generated by a task.
#[derive(Debug, Clone, PartialEq, Eq)]
pub struct Artifact {
    /// The unique identifier of the artifact.
    pub artifact_id: String,
    /// An optional human-readable name.
    pub name: Option<String>,
    /// An optional human-readable description.
    pub description: Option<String>,
    /// The content of the artifact.
    pub parts: Vec<Part>,
    /// Optional metadata for extensions.
    pub metadata: Option<StrMap>,
    /// Optional URIs of protocol extensions relevant to the artifact.
    pub extensions: Option<Vec<String>>,
}

/// Mathematical model of an [`Artifact`].
#[verifier::ext_equal]
pub struct SpecArtifact {
    pub artifact_id: Seq<char>,
    pub name: Option<Seq<char>>,
    pub description: Option<Seq<char>>,
    pub parts: Seq<SpecPart>,
    pub metadata: Option<Seq<(Seq<char>, Seq<char>)>>,
    pub extensions: Option<Seq<Seq<char>>>,
}

impl View for Artifact {
    type V = SpecArtifact;

    open spec fn view(&self) -> SpecArtifact {
        SpecArtifact {
            artifact_id: self.artifact_id@,
            name: self.name.deep_view(),
            description: self.description.deep_view(),
            parts: self.parts.deep_view(),
            metadata: self.metadata.deep_view(),
            extensions: self.extensions.deep_view(),
        }
    }
}

impl DeepView for Artifact {
    type V = SpecArtifact;

    open spec fn deep_view(&self) -> SpecArtifact {
        self.view()
    }
}

/// An artifact fit for a lossless round trip: its metadata and its
/// parts' maps stand in the canonical ascending key order.
pub open spec fn artifact_wf(v: SpecArtifact) -> bool {
    crate::codec::opt_strmap_wf(v.metadata) && crate::protocol_data::message::parts_wf(v.parts)
}

/// Whether every artifact of a list is fit for a round trip.
pub open spec fn artifacts_wf(vs: Seq<SpecArtifact>) -> bool {
    forall|i: int| 0 <= i < vs.len() ==> artifact_wf(#[trigger] vs[i])
}

/// The encoded entries of an [`Artifact`], in ascending key order.
pub open spec fn artifact_entries(v: SpecArtifact) -> Seq<(Seq<char>, SpecJson)> {
    str_entry("artifactId"@, v.artifact_id) + opt_str_entry("description"@, v.description)
        + opt_str_arr_entry("extensions"@, v.extensions) + opt_strmap_entry("metadata"@, v.metadata)
        + opt_str_entry("name"@, v.name) + val_entry("parts"@, SpecJson::Arr(parts_arr(v.parts)))
}

pub open spec fn spec_encode_artifact(v: SpecArtifact) -> SpecJson {
    SpecJson::Obj(artifact_entries(v))
}

pub open spec fn spec_decode_artifact(j: SpecJson) -> Result<SpecArtifact, SpecDecodeError> {
    match j {
        SpecJson::Obj(es) => match spec_req_str(es, "artifactId"@) {
            Err(e) => Err(e),
            Ok(artifact_id) => match spec_get(es, "parts"@) {
                None => Err(spec_err(DecodeErrorKind::MissingField, "parts"@)),
                Some(SpecJson::Arr(items)) => match spec_parse_parts(items) {
                    Err(e) => Err(e),
                    Ok(parts) => match spec_opt_str(es, "name"@) {
                        Err(e) => Err(e),
                        Ok(name) => match spec_opt_str(es, "description"@) {
                            Err(e) => Err(e),
                            Ok(description) => match spec_opt_strmap(es, "metadata"@) {
                                Err(e) => Err(e),
                                Ok(metadata) => match spec_opt_str_arr(es, "extensions"@) {
                                    Err(e) => Err(e),
                                    Ok(extensions) => Ok(
                                        SpecArtifact {
                                            artifact_id,
                                            name,
                                            description,
                                            parts,
                                            metadata,
                                            extensions,
                                        },
                                    ),
                                },
                            },
                        },
                    },
                },
                Some(_) => Err(spec_err(DecodeErrorKind::ExpectedArr, "parts"@)),
            },
        },
        _ => Err(spec_err(DecodeErrorKind::ExpectedObject, "artifact"@)),
    }
}

impl Artifact {
    /// Encodes this artifact as a JSON object, omitting absent optional
    /// fields entirely.
    pub fn to_json(&self) -> (r: JsonValue)
        ensures
            r@ == spec_encode_artifact(self@),
    {
        let mut b = ObjBuilder::new();
        b.push_str("artifactId", self.artifact_id.as_str());
        b.push_opt_str("description", &self.description);
        b.push_opt_str_arr("extensions", &self.extensions);
        b.push_opt_str_map("metadata", &self.metadata);
        b.push_opt_str("name", &self.name);
        b.push_val("parts", encode_parts(&self.parts));
        proof {
            assert(b@ =~= artifact_entries(self@));
        }
        b.finish()
    }

    /// Decodes a JSON object into an artifact.
    pub fn from_json(j: &JsonValue) -> (r: Result<Artifact, DecodeError>)
        ensures
            res_deep_view(r) == spec_decode_artifact(j@),
    {
        let es = match j {
            JsonValue::Obj(es) => es,
            _ => { return Err(mk_err(DecodeErrorKind::ExpectedObject, "artifact")) },
        };
        let artifact_id = match get_str_req(es, "artifactId") {
            Ok(v) => v,
            Err(e) => { return Err(e) },
        };
        let parts = match get_entry(es, "parts") {
            None => { return Err(mk_err(DecodeErrorKind::MissingField, "parts")) },
            Some(JsonValue::Arr(items)) => match parse_parts(items) {
                Ok(v) => v,
                Err(e) => { return Err(e) },
            },
            Some(_) => { return Err(mk_err(DecodeErrorKind::ExpectedArr, "parts")) },
        };
        let name = match get_str_opt(es, "name") {
            Ok(v) => v,
            Err(e) => { return Err(e) },
        };
        let description = match get_str_opt(es, "description") {
            Ok(v) => v,
            Err(e) => { return Err(e) },
        };
        let metadata = match get_strmap_opt(es, "metadata") {
            Ok(v) => v,
            Err(e) => { return Err(e) },
        };
        let extensions = match get_str_arr_opt(es, "extensions") {
            Ok(v) => v,
            Err(e) => { return Err(e) },
        };
        Ok(Artifact { artifact_id, name, description, parts, metadata, extensions })
    }
}

/// Decoding an encoded artifact yields the artifact back.
pub proof fn lemma_artifact_round_trip(v: SpecArtifact)
    requires
        artifact_wf(v),
    ensures
        spec_decode_artifact(spec_encode_artifact(v)) == Ok::<SpecArtifact, SpecDecodeError>(v),
{
    broadcast use
        crate::codec::lemma_spec_get_concat,
        crate::codec::lemma_parse_str_map_rt,
        crate::codec::lemma_parse_str_arr_rt,
        lemma_parts_arr_round_trip;

    reveal_with_fuel(spec_get, 3);
    reveal_strlit("artifactId");
    reveal_strlit("description");
    reveal_strlit("extensions");
    reveal_strlit("metadata");
    reveal_strlit("name");
    reveal_strlit("parts");
    assert("artifactId"@.len() == 10);
    assert("description"@.len() == 11);
    assert("extensions"@.len() == 10);
    assert("metadata"@.len() == 8);
    assert("name"@.len() == 4);
    assert("parts"@.len() == 5);
    assert("artifactId"@[0] == 'a');
    assert("extensions"@[0] == 'e');
    let es = artifact_entries(v);
    assert(spec_get(es, "artifactId"@) == Some(SpecJson::Str(v.artifact_id)));
    assert(spec_get(es, "parts"@) == Some(SpecJson::Arr(parts_arr(v.parts))));
    assert(spec_get(es, "name"@) == match v.name {
        Some(s) => Some(SpecJson::Str(s)),
        None => None,
    });
    assert(spec_get(es, "description"@) == match v.description {
        Some(s) => Some(SpecJson::Str(s)),
        None => None,
    });
    assert(spec_get(es, "metadata"@) == match v.metadata {
        Some(m) => Some(SpecJson::Obj(strmap_entries(m))),
        None => None,
    });
    assert(spec_get(es, "extensions"@) == match v.extensions {
        Some(ss) => Some(SpecJson::Arr(str_arr(ss))),
        None => None,
    });
}

/// The encoded form of a list of artifacts.
pub open spec fn artifacts_arr(vs: Seq<SpecArtifact>) -> Seq<SpecJson> {
    Seq::new(vs.len(), |i: int| spec_encode_artifact(vs[i]))
}

/// Reads an array whose items must all decode as artifacts.
pub open spec fn spec_parse_artifacts(items: Seq<SpecJson>) -> Result<
    Seq<SpecArtifact>,
    SpecDecodeError,
>
    decreases items.len(),
{
    if items.len() == 0 {
        Ok(Seq::empty())
    } else {
        match spec_parse_artifacts(items.drop_last()) {
            Ok(pre) => match spec_decode_artifact(items.last()) {
                Ok(a) => Ok(pre.push(a)),
                Err(e) => Err(e),
            },
            Err(e) => Err(e),
        }
    }
}

pub proof fn lemma_parse_artifacts_err(items: Seq<SpecJson>, i: int)
    requires
        0 <= i < items.len(),
        spec_parse_artifacts(items.subrange(0, i)) is Ok,
        spec_decode_artifact(items[i]) is Err,
    ensures
        spec_parse_artifacts(items) == Err::<Seq<SpecArtifact>, SpecDecodeError>(
            spec_decode_artifact(items[i])->Err_0,
        ),
    decreases items.len(),
{
    if i == items.len() - 1 {
        assert(items.subrange(0, i) =~= items.drop_last());
    } else {
        assert(items.drop_last().subrange(0, i) =~= items.subrange(0, i));
        lemma_parse_artifacts_err(items.drop_last(), i);
    }
}

/// Decoding an encoded list of artifacts yields the list back.
pub broadcast proof fn lemma_artifacts_arr_round_trip(vs: Seq<SpecArtifact>)
    requires
        artifacts_wf(vs),
    ensures
        #[trigger] spec_parse_artifacts(artifacts_arr(vs)) == Ok::<
            Seq<SpecArtifact>,
            SpecDecodeError,
        >(vs),
    decreases vs.len(),
{
    reveal_with_fuel(spec_parse_artifacts, 2);
    if vs.len() == 0 {
        assert(artifacts_arr(vs).len() == 0);
        assert(vs =~= Seq::<SpecArtifact>::empty());
    } else {
        assert(artifacts_arr(vs).drop_last() =~= artifacts_arr(vs.drop_last()));
        assert(artifacts_wf(vs.drop_last())) by {
            assert(forall|i: int|
                0 <= i < vs.drop_last().len() ==> #[trigger] vs.drop_last()[i] == vs[i]);
        }
        lemma_artifacts_arr_round_trip(vs.drop_last());
        assert(artifacts_arr(vs).last() == spec_encode_artifact(vs.last()));
        lemma_artifact_round_trip(vs.last());
        assert(vs.drop_last().push(vs.last()) =~= vs);
    }
}

/// Encodes a list of artifacts as a JSON array.
pub fn encode_artifacts(v: &Vec<Artifact>) -> (r: JsonValue)
    ensures
        r@ == SpecJson::Arr(artifacts_arr(v.deep_view())),
{
    let mut out: Vec<JsonValue> = Vec::new();
    let mut i: usize = 0;
    while i < v.len()
        invariant
            i <= v.len(),
            out@.len() == i,
            forall|j: int|
                0 <= j < i ==> json_view(out@[j]) == spec_encode_artifact(v@[j].deep_view()),
        decreases v.len() - i,
    {
        out.push(v[i].to_json());
        i += 1;
    }
    proof {
        assert(json_seq_view(out@) =~= artifacts_arr(v.deep_view()));
    }
    JsonValue::Arr(out)
}

/// Decodes a JSON array whose items must all be artifacts.
pub fn parse_artifacts(items: &Vec<JsonValue>) -> (r: Result<Vec<Artifact>, DecodeError>)
    ensures
        res_deep_view(r) == spec_parse_artifacts(json_seq_view(items@)),
{
    let ghost g = json_seq_view(items@);
    let mut out: Vec<Artifact> = Vec::new();
    let mut i: usize = 0;
    proof {
        assert(g.subrange(0, 0).len() == 0);
        assert(out.deep_view() =~= Seq::<SpecArtifact>::empty());
    }
    while i < items.len()
        invariant
            i <= items.len(),
            g == json_seq_view(items@),
            g.len() == items@.len(),
            spec_parse_artifacts(g.subrange(0, i as int)) == Ok::<
                Seq<SpecArtifact>,
                SpecDecodeError,
            >(out.deep_view()),
        decreases items.len() - i,
    {
        let ghost pre = g.subrange(0, i as int);
        let ghost cur = g.subrange(0, i + 1);
        proof {
            assert(cur.drop_last() =~= pre);
            assert(cur.last() == g[i as int]);
            assert(g[i as int] == json_view(items@[i as int]));
        }
        match Artifact::from_json(&items[i]) {
            Ok(a) => {
                let ghost before = out.deep_view();
                out.push(a);
                proof {
                    assert(out.deep_view() =~= before.push(out@.last().deep_view()));
                }
            },
            Err(e) => {
                proof {
                    lemma_parse_artifacts_err(g, i as int);
                }
                return Err(e);
            },
        }
        i += 1;
    }
    proof {
        assert(g.subrange(0, items@.len() as int) =~= g);
    }
    Ok(out)
}

} // verus!
