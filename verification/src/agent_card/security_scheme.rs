//! Security schemes: a five-way tagged union following the OpenAPI
//! security-scheme object, each variant carrying an open extension map
//! whose entries are spliced into the same JSON object as the static
//! fields; and the OR-of-ANDs security requirement objects.

use vstd::prelude::*;

use crate::codec::DecodeError;
use crate::codec::DecodeErrorKind;
use crate::codec::ObjBuilder;
use crate::codec::SpecDecodeError;
use crate::codec::get_entry;
use crate::codec::get_str_opt;
use crate::codec::get_str_req;
use crate::codec::mk_err;
use crate::codec::get_strmap_opt;
use crate::codec::opt_str_entry;
use crate::codec::opt_strmap_entry;
use crate::codec::spec_opt_strmap;
use crate::codec::res_deep_view;
use crate::codec::spec_err;
use crate::codec::spec_get;
use crate::codec::spec_opt_str;
use crate::codec::spec_req_str;
use crate::codec::str_arr;
use crate::codec::str_entry;
use crate::codec::strmap_entries;
use crate::codec::val_entry;
use crate::json::JsonValue;
use crate::json::SpecJson;
use crate::json::json_entries_view;
use crate::json::json_seq_view;
use crate::json::json_view;
use crate::json::str_eq;
use crate::util_types::StrMap;
use crate::util_types::lex_lt;

verus! {

broadcast use {vstd::std_specs::vec::group_vec_axioms, crate::json::group_json_view_lemmas};

// --- Security requirement objects: scheme name to required scopes. ---

/// One security requirement: every named scheme must be satisfied
/// together, each with the listed scopes.
#[derive(Debug, Clone, PartialEq, Eq)]
pub struct SecurityRequirement {
    pub entries: Vec<(String, Vec<String>)>,
}

impl View for SecurityRequirement {
    type V = Seq<(Seq<char>, Seq<Seq<char>>)>;

    open spec fn view(&self) -> Seq<(Seq<char>, Seq<Seq<char>>)> {
        self.entries.deep_view()
    }
}

impl DeepView for SecurityRequirement {
    type V = Seq<(Seq<char>, Seq<Seq<char>>)>;

    open spec fn deep_view(&self) -> Seq<(Seq<char>, Seq<Seq<char>>)> {
        self.view()
    }
}

/// The encoded form of a [`SecurityRequirement`]: an object whose values
/// are arrays of scope strings.
pub open spec fn secreq_entries(m: Seq<(Seq<char>, Seq<Seq<char>>)>) -> Seq<(Seq<char>, SpecJson)> {
    Seq::new(m.len(), |i: int| (m[i].0, SpecJson::Arr(str_arr(m[i].1))))
}

pub open spec fn spec_encode_secreq(m: Seq<(Seq<char>, Seq<Seq<char>>)>) -> SpecJson {
    SpecJson::Obj(secreq_entries(m))
}

/// A requirement fit for a lossless round trip: its scheme names stand
/// in the canonical ascending order.
pub open spec fn secreq_wf(m: Seq<(Seq<char>, Seq<Seq<char>>)>) -> bool {
    crate::util_types::keys_ascending(m)
}

/// Whether every requirement of a list is fit for a round trip.
pub open spec fn secreqs_wf(vs: Seq<Seq<(Seq<char>, Seq<Seq<char>>)>>) -> bool {
    forall|i: int| 0 <= i < vs.len() ==> secreq_wf(#[trigger] vs[i])
}

/// Reads an object whose values must all be arrays of strings, folding
/// the entries into the canonical ascending key order; a repeated scheme
/// name keeps its last scope list.
pub open spec fn spec_parse_secreq(es: Seq<(Seq<char>, SpecJson)>, ctx: Seq<char>) -> Result<
    Seq<(Seq<char>, Seq<Seq<char>>)>,
    SpecDecodeError,
>
    decreases es.len(),
{
    if es.len() == 0 {
        Ok(Seq::empty())
    } else {
        match spec_parse_secreq(es.drop_last(), ctx) {
            Ok(pre) => match es.last().1 {
                SpecJson::Arr(items) => match crate::codec::spec_parse_str_arr(items, ctx) {
                    Ok(ss) => Ok(crate::util_types::map_insert(pre, es.last().0, ss)),
                    Err(e) => Err(e),
                },
                _ => Err(spec_err(DecodeErrorKind::ExpectedArr, ctx)),
            },
            Err(e) => Err(e),
        }
    }
}

pub proof fn lemma_parse_secreq_err(es: Seq<(Seq<char>, SpecJson)>, ctx: Seq<char>, i: int)
    requires
        0 <= i < es.len(),
        spec_parse_secreq(es.subrange(0, i), ctx) is Ok,
        match es[i].1 {
            SpecJson::Arr(items) => crate::codec::spec_parse_str_arr(items, ctx) is Err,
            _ => true,
        },
    ensures
        spec_parse_secreq(es, ctx) == Err::<Seq<(Seq<char>, Seq<Seq<char>>)>, SpecDecodeError>(
            match es[i].1 {
                SpecJson::Arr(items) => crate::codec::spec_parse_str_arr(items, ctx)->Err_0,
                _ => spec_err(DecodeErrorKind::ExpectedArr, ctx),
            },
        ),
    decreases es.len(),
{
    if i == es.len() - 1 {
        assert(es.subrange(0, i) =~= es.drop_last());
    } else {
        assert(es.drop_last().subrange(0, i) =~= es.subrange(0, i));
        lemma_parse_secreq_err(es.drop_last(), ctx, i);
    }
}

/// Decoding an encoded requirement yields it back.
pub broadcast proof fn lemma_parse_secreq_rt(m: Seq<(Seq<char>, Seq<Seq<char>>)>, ctx: Seq<char>)
    requires
        secreq_wf(m),
    ensures
        #[trigger] spec_parse_secreq(secreq_entries(m), ctx) == Ok::<
            Seq<(Seq<char>, Seq<Seq<char>>)>,
            SpecDecodeError,
        >(m),
    decreases m.len(),
{
    broadcast use crate::codec::lemma_parse_str_arr_rt;

    reveal_with_fuel(spec_parse_secreq, 2);
    if m.len() == 0 {
        assert(secreq_entries(m).len() == 0);
        assert(m =~= Seq::<(Seq<char>, Seq<Seq<char>>)>::empty());
    } else {
        assert(secreq_entries(m).drop_last() =~= secreq_entries(m.drop_last()));
        assert(secreq_wf(m.drop_last())) by {
            assert(forall|i: int|
                0 <= i < m.drop_last().len() ==> #[trigger] m.drop_last()[i] == m[i]);
        }
        lemma_parse_secreq_rt(m.drop_last(), ctx);
        assert(secreq_entries(m).last() == (m.last().0, SpecJson::Arr(str_arr(m.last().1))));
        assert forall|i: int| 0 <= i < m.drop_last().len() implies lex_lt(
            #[trigger] m.drop_last()[i].0,
            m.last().0,
        ) by {
            crate::util_types::lemma_keys_ascending_pairwise(m, i, m.len() - 1);
        }
        crate::util_types::lemma_map_insert_append(m.drop_last(), m.last().0, m.last().1);
        assert(m.drop_last().push((m.last().0, m.last().1)) =~= m);
    }
}

/// An `Ok` of the requirement reader always has ascending scheme names.
pub proof fn lemma_parse_secreq_canonical(es: Seq<(Seq<char>, SpecJson)>, ctx: Seq<char>)
    ensures
        match spec_parse_secreq(es, ctx) {
            Ok(m) => secreq_wf(m),
            Err(_) => true,
        },
    decreases es.len(),
{
    if es.len() > 0 {
        lemma_parse_secreq_canonical(es.drop_last(), ctx);
        match spec_parse_secreq(es.drop_last(), ctx) {
            Ok(pre) => match es.last().1 {
                SpecJson::Arr(items) => match crate::codec::spec_parse_str_arr(items, ctx) {
                    Ok(ss) => {
                        crate::util_types::lemma_map_insert_ascending(pre, es.last().0, ss);
                    },
                    Err(_) => (),
                },
                _ => (),
            },
            Err(_) => (),
        }
    }
}

/// A well-formed requirement encodes with its scheme names in strictly
/// ascending lexical order.
pub proof fn lemma_secreq_entries_sorted(m: Seq<(Seq<char>, Seq<Seq<char>>)>)
    requires
        secreq_wf(m),
    ensures
        crate::codec::keys_sorted(secreq_entries(m)),
{
    assert(forall|i: int| 0 <= i < m.len() ==> (#[trigger] secreq_entries(m)[i]).0 == m[i].0);
}

impl SecurityRequirement {
    /// Encodes this requirement as a JSON object of scope arrays.
    pub fn to_json(&self) -> (r: JsonValue)
        ensures
            r@ == spec_encode_secreq(self@),
    {
        let mut out: Vec<(String, JsonValue)> = Vec::new();
        let mut i: usize = 0;
        while i < self.entries.len()
            invariant
                i <= self.entries.len(),
                out@.len() == i,
                forall|j: int|
                    0 <= j < i ==> out@[j].0@ == self.entries@[j].0@ && json_view(out@[j].1)
                        == SpecJson::Arr(str_arr(self.entries@[j].1.deep_view())),
            decreases self.entries.len() - i,
        {
            out.push((self.entries[i].0.clone(), crate::codec::encode_str_arr(&self.entries[i].1)));
            i += 1;
        }
        proof {
            assert(json_entries_view(out@) =~= secreq_entries(self@));
        }
        JsonValue::Obj(out)
    }

    /// Decodes a JSON object into this requirement.
    pub fn from_json(j: &JsonValue) -> (r: Result<SecurityRequirement, DecodeError>)
        ensures
            match r {
                Ok(m) => j@ is Obj && spec_parse_secreq(j@->Obj_0, "security"@) == Ok::<
                    Seq<(Seq<char>, Seq<Seq<char>>)>,
                    SpecDecodeError,
                >(m.deep_view()),
                Err(e) => match j@ {
                    SpecJson::Obj(es) => spec_parse_secreq(es, "security"@) == Err::<
                        Seq<(Seq<char>, Seq<Seq<char>>)>,
                        SpecDecodeError,
                    >(e@),
                    _ => e@ == spec_err(DecodeErrorKind::ExpectedObject, "security"@),
                },
            },
    {
        let es = match j {
            JsonValue::Obj(es) => es,
            _ => { return Err(mk_err(DecodeErrorKind::ExpectedObject, "security")) },
        };
        let ghost g = json_entries_view(es@);
        let mut out: Vec<(String, Vec<String>)> = Vec::new();
        let mut i: usize = 0;
        proof {
            assert(g.subrange(0, 0).len() == 0);
            assert(out.deep_view() =~= Seq::<(Seq<char>, Seq<Seq<char>>)>::empty());
        }
        while i < es.len()
            invariant
                i <= es.len(),
                j@ == SpecJson::Obj(g),
                g == json_entries_view(es@),
                g.len() == es@.len(),
                spec_parse_secreq(g.subrange(0, i as int), "security"@) == Ok::<
                    Seq<(Seq<char>, Seq<Seq<char>>)>,
                    SpecDecodeError,
                >(out.deep_view()),
            decreases es.len() - i,
        {
            let ghost pre = g.subrange(0, i as int);
            let ghost cur = g.subrange(0, i + 1);
            proof {
                assert(cur.drop_last() =~= pre);
                assert(cur.last() == g[i as int]);
                assert(g[i as int] == (es@[i as int].0@, json_view(es@[i as int].1)));
            }
            match &es[i].1 {
                JsonValue::Arr(items) => {
                    match crate::codec::parse_str_arr(items, "security") {
                        Ok(ss) => {
                            let ghost before = out.deep_view();
                            let ghost kview = es@[i as int].0@;
                            let ghost vview = ss.deep_view();
                            let mut p: usize = 0;
                            while p < out.len() && crate::util_types::str_lt(
                                out[p].0.as_str(),
                                es[i].0.as_str(),
                            )
                                invariant
                                    i < es.len(),
                                    p <= out.len(),
                                    before == out.deep_view(),
                                    kview == es@[i as int].0@,
                                    forall|q: int|
                                        0 <= q < p ==> lex_lt(#[trigger] before[q].0, kview),
                                decreases out.len() - p,
                            {
                                p += 1;
                            }
                            proof {
                                crate::util_types::lemma_map_insert_at(
                                    before,
                                    kview,
                                    vview,
                                    p as int,
                                );
                            }
                            if p < out.len() && str_eq(out[p].0.as_str(), es[i].0.as_str()) {
                                out.remove(p);
                                out.insert(p, (es[i].0.clone(), ss));
                                proof {
                                    assert(out.deep_view() =~= before.update(
                                        p as int,
                                        (kview, vview),
                                    ));
                                }
                            } else {
                                out.insert(p, (es[i].0.clone(), ss));
                                proof {
                                    assert(out.deep_view() =~= before.insert(
                                        p as int,
                                        (kview, vview),
                                    ));
                                }
                            }
                            proof {
                                assert(out.deep_view() == crate::util_types::map_insert(
                                    before,
                                    kview,
                                    vview,
                                ));
                            }
                        },
                        Err(e) => {
                            proof {
                                lemma_parse_secreq_err(g, "security"@, i as int);
                            }
                            return Err(e);
                        },
                    }
                },
                _ => {
                    proof {
                        lemma_parse_secreq_err(g, "security"@, i as int);
                    }
                    return Err(mk_err(DecodeErrorKind::ExpectedArr, "security"));
                },
            }
            i += 1;
        }
        proof {
            assert(g.subrange(0, es@.len() as int) =~= g);
        }
        Ok(SecurityRequirement { entries: out })
    }
}

// --- Lists of security requirements: the OR of ANDs. ---

/// The encoded form of a list of requirements.
pub open spec fn secreqs_arr(vs: Seq<Seq<(Seq<char>, Seq<Seq<char>>)>>) -> Seq<SpecJson> {
    Seq::new(vs.len(), |i: int| spec_encode_secreq(vs[i]))
}

/// Reads an array whose items must all be requirement objects.
pub open spec fn spec_parse_secreqs(items: Seq<SpecJson>, ctx: Seq<char>) -> Result<
    Seq<Seq<(Seq<char>, Seq<Seq<char>>)>>,
    SpecDecodeError,
>
    decreases items.len(),
{
    if items.len() == 0 {
        Ok(Seq::empty())
    } else {
        match spec_parse_secreqs(items.drop_last(), ctx) {
            Ok(pre) => match items.last() {
                SpecJson::Obj(es) => match spec_parse_secreq(es, ctx) {
                    Ok(m) => Ok(pre.push(m)),
                    Err(e) => Err(e),
                },
                _ => Err(spec_err(DecodeErrorKind::ExpectedObject, ctx)),
            },
            Err(e) => Err(e),
        }
    }
}

pub proof fn lemma_parse_secreqs_err(items: Seq<SpecJson>, ctx: Seq<char>, i: int)
    requires
        0 <= i < items.len(),
        spec_parse_secreqs(items.subrange(0, i), ctx) is Ok,
        match items[i] {
            SpecJson::Obj(es) => spec_parse_secreq(es, ctx) is Err,
            _ => true,
        },
    ensures
        spec_parse_secreqs(items, ctx) == Err::<
            Seq<Seq<(Seq<char>, Seq<Seq<char>>)>>,
            SpecDecodeError,
        >(
            match items[i] {
                SpecJson::Obj(es) => spec_parse_secreq(es, ctx)->Err_0,
                _ => spec_err(DecodeErrorKind::ExpectedObject, ctx),
            },
        ),
    decreases items.len(),
{
    if i == items.len() - 1 {
        assert(items.subrange(0, i) =~= items.drop_last());
    } else {
        assert(items.drop_last().subrange(0, i) =~= items.subrange(0, i));
        lemma_parse_secreqs_err(items.drop_last(), ctx, i);
    }
}

/// Decoding an encoded list of requirements yields the list back.
pub broadcast proof fn lemma_parse_secreqs_rt(
    vs: Seq<Seq<(Seq<char>, Seq<Seq<char>>)>>,
    ctx: Seq<char>,
)
    requires
        secreqs_wf(vs),
    ensures
        #[trigger] spec_parse_secreqs(secreqs_arr(vs), ctx) == Ok::<
            Seq<Seq<(Seq<char>, Seq<Seq<char>>)>>,
            SpecDecodeError,
        >(vs),
    decreases vs.len(),
{
    reveal_with_fuel(spec_parse_secreqs, 2);
    if vs.len() == 0 {
        assert(secreqs_arr(vs).len() == 0);
        assert(vs =~= Seq::<Seq<(Seq<char>, Seq<Seq<char>>)>>::empty());
    } else {
        assert(secreqs_arr(vs).drop_last() =~= secreqs_arr(vs.drop_last()));
        assert(secreqs_wf(vs.drop_last())) by {
            assert(forall|i: int|
                0 <= i < vs.drop_last().len() ==> #[trigger] vs.drop_last()[i] == vs[i]);
        }
        lemma_parse_secreqs_rt(vs.drop_last(), ctx);
        assert(secreqs_arr(vs).last() == spec_encode_secreq(vs.last()));
        lemma_parse_secreq_rt(vs.last(), ctx);
        assert(vs.drop_last().push(vs.last()) =~= vs);
    }
}

/// Encodes a list of requirements as a JSON array.
pub fn encode_secreqs(v: &Vec<SecurityRequirement>) -> (r: JsonValue)
    ensures
        r@ == SpecJson::Arr(secreqs_arr(v.deep_view())),
{
    let mut out: Vec<JsonValue> = Vec::new();
    let mut i: usize = 0;
    while i < v.len()
        invariant
            i <= v.len(),
            out@.len() == i,
            forall|j: int|
                0 <= j < i ==> json_view(out@[j]) == spec_encode_secreq(v@[j].deep_view()),
        decreases v.len() - i,
    {
        out.push(v[i].to_json());
        i += 1;
    }
    proof {
        assert(json_seq_view(out@) =~= secreqs_arr(v.deep_view()));
    }
    JsonValue::Arr(out)
}

/// Decodes a JSON array whose items must all be requirement objects.
pub fn parse_secreqs(items: &Vec<JsonValue>) -> (r: Result<
    Vec<SecurityRequirement>,
    DecodeError,
>)
    ensures
        res_deep_view(r) == spec_parse_secreqs(json_seq_view(items@), "security"@),
{
    let ghost ctx_view = "security"@;
    let ghost g = json_seq_view(items@);
    let mut out: Vec<SecurityRequirement> = Vec::new();
    let mut i: usize = 0;
    proof {
        assert(g.subrange(0, 0).len() == 0);
        assert(out.deep_view() =~= Seq::<Seq<(Seq<char>, Seq<Seq<char>>)>>::empty());
    }
    while i < items.len()
        invariant
            i <= items.len(),
            g == json_seq_view(items@),
            g.len() == items@.len(),
            spec_parse_secreqs(g.subrange(0, i as int), "security"@) == Ok::<
                Seq<Seq<(Seq<char>, Seq<Seq<char>>)>>,
                SpecDecodeError,
            >(out.deep_view()),
        decreases items.len() - i,
    {
        let ghost pre = g.subrange(0, i as int);
        let ghost cur = g.subrange(0, i + 1);
        proof {
            assert(cur.drop_last() =~= pre);
            assert(cur.last() == g[i as int]);
            assert(g[i as int] == json_view(items@[i as int]));
        }
        match SecurityRequirement::from_json(&items[i]) {
            Ok(m) => {
                let ghost before = out.deep_view();
                out.push(m);
                proof {
                    assert(out.deep_view() =~= before.push(out@.last().deep_view()));
                }
            },
            Err(e) => {
                proof {
                    lemma_parse_secreqs_err(g, "security"@, i as int);
                }
                return Err(e);
            },
        }
        i += 1;
    }
    proof {
        assert(g.subrange(0, items@.len() as int) =~= g);
    }
    Ok(out)
}

// --- OAuth2 flow configuration. ---

/// One OAuth2 flow.
#[derive(Debug, Clone, PartialEq, Eq)]
pub struct OAuthFlow {
    pub authorization_url: Option<String>,
    pub token_url: Option<String>,
    pub refresh_url: Option<String>,
    pub scopes: Option<StrMap>,
}

/// Mathematical model of an [`OAuthFlow`].
#[verifier::ext_equal]
pub struct SpecOAuthFlow {
    pub authorization_url: Option<Seq<char>>,
    pub token_url: Option<Seq<char>>,
    pub refresh_url: Option<Seq<char>>,
    pub scopes: Option<Seq<(Seq<char>, Seq<char>)>>,
}

impl View for OAuthFlow {
    type V = SpecOAuthFlow;

    open spec fn view(&self) -> SpecOAuthFlow {
        SpecOAuthFlow {
            authorization_url: self.authorization_url.deep_view(),
            token_url: self.token_url.deep_view(),
            refresh_url: self.refresh_url.deep_view(),
            scopes: self.scopes.deep_view(),
        }
    }
}

impl DeepView for OAuthFlow {
    type V = SpecOAuthFlow;

    open spec fn deep_view(&self) -> SpecOAuthFlow {
        self.view()
    }
}

/// The encoded entries of an [`OAuthFlow`], in ascending key order.
pub open spec fn oauth_flow_entries(v: SpecOAuthFlow) -> Seq<(Seq<char>, SpecJson)> {
    opt_str_entry("authorizationUrl"@, v.authorization_url) + opt_str_entry(
        "refreshUrl"@,
        v.refresh_url,
    ) + opt_strmap_entry("scopes"@, v.scopes) + opt_str_entry("tokenUrl"@, v.token_url)
}

pub open spec fn spec_encode_oauth_flow(v: SpecOAuthFlow) -> SpecJson {
    SpecJson::Obj(oauth_flow_entries(v))
}

pub open spec fn spec_decode_oauth_flow(j: SpecJson) -> Result<SpecOAuthFlow, SpecDecodeError> {
    match j {
        SpecJson::Obj(es) => match spec_opt_str(es, "authorizationUrl"@) {
            Err(e) => Err(e),
            Ok(authorization_url) => match spec_opt_str(es, "tokenUrl"@) {
                Err(e) => Err(e),
                Ok(token_url) => match spec_opt_str(es, "refreshUrl"@) {
                    Err(e) => Err(e),
                    Ok(refresh_url) => match spec_opt_strmap(es, "scopes"@) {
                        Err(e) => Err(e),
                        Ok(scopes) => Ok(
                            SpecOAuthFlow { authorization_url, token_url, refresh_url, scopes },
                        ),
                    },
                },
            },
        },
        _ => Err(spec_err(DecodeErrorKind::ExpectedObject, "flow"@)),
    }
}

impl OAuthFlow {
    /// Encodes this flow as a JSON object.
    pub fn to_json(&self) -> (r: JsonValue)
        ensures
            r@ == spec_encode_oauth_flow(self@),
    {
        let mut b = ObjBuilder::new();
        b.push_opt_str("authorizationUrl", &self.authorization_url);
        b.push_opt_str("refreshUrl", &self.refresh_url);
        b.push_opt_str_map("scopes", &self.scopes);
        b.push_opt_str("tokenUrl", &self.token_url);
        proof {
            assert(b@ =~= oauth_flow_entries(self@));
        }
        b.finish()
    }

    /// Decodes a JSON object into this flow.
    pub fn from_json(j: &JsonValue) -> (r: Result<OAuthFlow, DecodeError>)
        ensures
            res_deep_view(r) == spec_decode_oauth_flow(j@),
    {
        let es = match j {
            JsonValue::Obj(es) => es,
            _ => { return Err(mk_err(DecodeErrorKind::ExpectedObject, "flow")) },
        };
        let authorization_url = match get_str_opt(es, "authorizationUrl") {
            Ok(v) => v,
            Err(e) => { return Err(e) },
        };
        let token_url = match get_str_opt(es, "tokenUrl") {
            Ok(v) => v,
            Err(e) => { return Err(e) },
        };
        let refresh_url = match get_str_opt(es, "refreshUrl") {
            Ok(v) => v,
            Err(e) => { return Err(e) },
        };
        let scopes = match crate::codec::get_strmap_opt(es, "scopes") {
            Ok(v) => v,
            Err(e) => { return Err(e) },
        };
        Ok(OAuthFlow { authorization_url, token_url, refresh_url, scopes })
    }
}

/// A flow fit for a lossless round trip: its scopes map stands in the
/// canonical ascending key order.
pub open spec fn oauth_flow_wf(v: SpecOAuthFlow) -> bool {
    crate::codec::opt_strmap_wf(v.scopes)
}

/// Decoding an encoded flow yields it back.
pub proof fn lemma_oauth_flow_round_trip(v: SpecOAuthFlow)
    requires
        oauth_flow_wf(v),
    ensures
        spec_decode_oauth_flow(spec_encode_oauth_flow(v)) == Ok::<SpecOAuthFlow, SpecDecodeError>(
            v,
        ),
{
    broadcast use
        crate::codec::group_entry_lookup,
        crate::codec::lemma_parse_str_map_rt;

    reveal_strlit("authorizationUrl");
    reveal_strlit("refreshUrl");
    reveal_strlit("scopes");
    reveal_strlit("tokenUrl");
    assert("authorizationUrl"@.len() == 16);
    assert("refreshUrl"@.len() == 10);
    assert("scopes"@.len() == 6);
    assert("tokenUrl"@.len() == 8);
    let es = oauth_flow_entries(v);
    assert(spec_get(es, "authorizationUrl"@) == match v.authorization_url {
        Some(s) => Some(SpecJson::Str(s)),
        None => None,
    });
    assert(spec_get(es, "tokenUrl"@) == match v.token_url {
        Some(s) => Some(SpecJson::Str(s)),
        None => None,
    });
    assert(spec_get(es, "refreshUrl"@) == match v.refresh_url {
        Some(s) => Some(SpecJson::Str(s)),
        None => None,
    });
    assert(spec_get(es, "scopes"@) == match v.scopes {
        Some(m) => Some(SpecJson::Obj(strmap_entries(m))),
        None => None,
    });
}

/// The OAuth2 flows object: one optional configuration per flow kind.
#[derive(Debug, Clone, PartialEq, Eq)]
pub struct OAuthFlows {
    pub implicit: Option<OAuthFlow>,
    pub password: Option<OAuthFlow>,
    pub client_credentials: Option<OAuthFlow>,
    pub authorization_code: Option<OAuthFlow>,
    pub device_code: Option<OAuthFlow>,
}

/// Mathematical model of an [`OAuthFlows`].
#[verifier::ext_equal]
pub struct SpecOAuthFlows {
    pub implicit: Option<SpecOAuthFlow>,
    pub password: Option<SpecOAuthFlow>,
    pub client_credentials: Option<SpecOAuthFlow>,
    pub authorization_code: Option<SpecOAuthFlow>,
    pub device_code: Option<SpecOAuthFlow>,
}

impl View for OAuthFlows {
    type V = SpecOAuthFlows;

    open spec fn view(&self) -> SpecOAuthFlows {
        SpecOAuthFlows {
            implicit: self.implicit.deep_view(),
            password: self.password.deep_view(),
            client_credentials: self.client_credentials.deep_view(),
            authorization_code: self.authorization_code.deep_view(),
            device_code: self.device_code.deep_view(),
        }
    }
}

impl DeepView for OAuthFlows {
    type V = SpecOAuthFlows;

    open spec fn deep_view(&self) -> SpecOAuthFlows {
        self.view()
    }
}

pub open spec fn opt_flow_entry(k: Seq<char>, o: Option<SpecOAuthFlow>) -> Seq<
    (Seq<char>, SpecJson),
> {
    match o {
        Some(f) => val_entry(k, spec_encode_oauth_flow(f)),
        None => Seq::empty(),
    }
}

/// The encoded entries of an [`OAuthFlows`], in ascending key order.
pub open spec fn oauth_flows_entries(v: SpecOAuthFlows) -> Seq<(Seq<char>, SpecJson)> {
    opt_flow_entry("authorizationCode"@, v.authorization_code) + opt_flow_entry(
        "clientCredentials"@,
        v.client_credentials,
    ) + opt_flow_entry("deviceCode"@, v.device_code) + opt_flow_entry("implicit"@, v.implicit)
        + opt_flow_entry("password"@, v.password)
}

pub open spec fn spec_encode_oauth_flows(v: SpecOAuthFlows) -> SpecJson {
    SpecJson::Obj(oauth_flows_entries(v))
}

/// One optional flow field: absent or null is no flow; anything else
/// must decode as a flow.
pub open spec fn spec_opt_flow(es: Seq<(Seq<char>, SpecJson)>, k: Seq<char>) -> Result<
    Option<SpecOAuthFlow>,
    SpecDecodeError,
> {
    match spec_get(es, k) {
        None => Ok(None),
        Some(SpecJson::Null) => Ok(None),
        Some(fj) => match spec_decode_oauth_flow(fj) {
            Ok(f) => Ok(Some(f)),
            Err(e) => Err(e),
        },
    }
}

pub open spec fn spec_decode_oauth_flows(j: SpecJson) -> Result<SpecOAuthFlows, SpecDecodeError> {
    match j {
        SpecJson::Obj(es) => match spec_opt_flow(es, "implicit"@) {
            Err(e) => Err(e),
            Ok(implicit) => match spec_opt_flow(es, "password"@) {
                Err(e) => Err(e),
                Ok(password) => match spec_opt_flow(es, "clientCredentials"@) {
                    Err(e) => Err(e),
                    Ok(client_credentials) => match spec_opt_flow(es, "authorizationCode"@) {
                        Err(e) => Err(e),
                        Ok(authorization_code) => match spec_opt_flow(es, "deviceCode"@) {
                            Err(e) => Err(e),
                            Ok(device_code) => Ok(
                                SpecOAuthFlows {
                                    implicit,
                                    password,
                                    client_credentials,
                                    authorization_code,
                                    device_code,
                                },
                            ),
                        },
                    },
                },
            },
        },
        _ => Err(spec_err(DecodeErrorKind::ExpectedObject, "flows"@)),
    }
}

impl OAuthFlows {
    /// Encodes this record as a JSON object.
    pub fn to_json(&self) -> (r: JsonValue)
        ensures
            r@ == spec_encode_oauth_flows(self@),
    {
        let mut b = ObjBuilder::new();
        match &self.authorization_code {
            Some(f) => b.push_val("authorizationCode", f.to_json()),
            None => (),
        }
        match &self.client_credentials {
            Some(f) => b.push_val("clientCredentials", f.to_json()),
            None => (),
        }
        match &self.device_code {
            Some(f) => b.push_val("deviceCode", f.to_json()),
            None => (),
        }
        match &self.implicit {
            Some(f) => b.push_val("implicit", f.to_json()),
            None => (),
        }
        match &self.password {
            Some(f) => b.push_val("password", f.to_json()),
            None => (),
        }
        proof {
            assert(b@ =~= oauth_flows_entries(self@));
        }
        b.finish()
    }

    /// Decodes a JSON object into this record.
    pub fn from_json(j: &JsonValue) -> (r: Result<OAuthFlows, DecodeError>)
        ensures
            res_deep_view(r) == spec_decode_oauth_flows(j@),
    {
        let es = match j {
            JsonValue::Obj(es) => es,
            _ => { return Err(mk_err(DecodeErrorKind::ExpectedObject, "flows")) },
        };
        let implicit = match get_entry(es, "implicit") {
            None => None,
            Some(JsonValue::Null) => None,
            Some(fj) => match OAuthFlow::from_json(fj) {
                Ok(f) => Some(f),
                Err(e) => { return Err(e) },
            },
        };
        let password = match get_entry(es, "password") {
            None => None,
            Some(JsonValue::Null) => None,
            Some(fj) => match OAuthFlow::from_json(fj) {
                Ok(f) => Some(f),
                Err(e) => { return Err(e) },
            },
        };
        let client_credentials = match get_entry(es, "clientCredentials") {
            None => None,
            Some(JsonValue::Null) => None,
            Some(fj) => match OAuthFlow::from_json(fj) {
                Ok(f) => Some(f),
                Err(e) => { return Err(e) },
            },
        };
        let authorization_code = match get_entry(es, "authorizationCode") {
            None => None,
            Some(JsonValue::Null) => None,
            Some(fj) => match OAuthFlow::from_json(fj) {
                Ok(f) => Some(f),
                Err(e) => { return Err(e) },
            },
        };
        let device_code = match get_entry(es, "deviceCode") {
            None => None,
            Some(JsonValue::Null) => None,
            Some(fj) => match OAuthFlow::from_json(fj) {
                Ok(f) => Some(f),
                Err(e) => { return Err(e) },
            },
        };
        Ok(OAuthFlows { implicit, password, client_credentials, authorization_code, device_code })
    }
}

/// A flows object fit for a lossless round trip: each present flow is.
pub open spec fn oauth_flows_wf(v: SpecOAuthFlows) -> bool {
    &&& match v.implicit {
        Some(f) => oauth_flow_wf(f),
        None => true,
    }
    &&& match v.password {
        Some(f) => oauth_flow_wf(f),
        None => true,
    }
    &&& match v.client_credentials {
        Some(f) => oauth_flow_wf(f),
        None => true,
    }
    &&& match v.authorization_code {
        Some(f) => oauth_flow_wf(f),
        None => true,
    }
    &&& match v.device_code {
        Some(f) => oauth_flow_wf(f),
        None => true,
    }
}

/// Decoding an encoded flows object yields it back.
pub proof fn lemma_oauth_flows_round_trip(v: SpecOAuthFlows)
    requires
        oauth_flows_wf(v),
    ensures
        spec_decode_oauth_flows(spec_encode_oauth_flows(v)) == Ok::<
            SpecOAuthFlows,
            SpecDecodeError,
        >(v),
{
    broadcast use crate::codec::group_entry_lookup;

    reveal_strlit("authorizationCode");
    reveal_strlit("clientCredentials");
    reveal_strlit("deviceCode");
    reveal_strlit("implicit");
    reveal_strlit("password");
    assert("authorizationCode"@.len() == 17);
    assert("clientCredentials"@.len() == 17);
    assert("deviceCode"@.len() == 10);
    assert("implicit"@.len() == 8);
    assert("password"@.len() == 8);
    assert("authorizationCode"@[0] == 'a');
    assert("clientCredentials"@[0] == 'c');
    assert("implicit"@[0] == 'i');
    assert("password"@[0] == 'p');
    let es = oauth_flows_entries(v);
    assert(spec_get(es, "implicit"@) == match v.implicit {
        Some(f) => Some(spec_encode_oauth_flow(f)),
        None => None,
    });
    assert(spec_get(es, "password"@) == match v.password {
        Some(f) => Some(spec_encode_oauth_flow(f)),
        None => None,
    });
    assert(spec_get(es, "clientCredentials"@) == match v.client_credentials {
        Some(f) => Some(spec_encode_oauth_flow(f)),
        None => None,
    });
    assert(spec_get(es, "authorizationCode"@) == match v.authorization_code {
        Some(f) => Some(spec_encode_oauth_flow(f)),
        None => None,
    });
    assert(spec_get(es, "deviceCode"@) == match v.device_code {
        Some(f) => Some(spec_encode_oauth_flow(f)),
        None => None,
    });
    match v.implicit {
        Some(f) => {
            lemma_oauth_flow_round_trip(f);
            assert(!(spec_encode_oauth_flow(f) is Null));
        },
        None => (),
    }
    match v.password {
        Some(f) => {
            lemma_oauth_flow_round_trip(f);
            assert(!(spec_encode_oauth_flow(f) is Null));
        },
        None => (),
    }
    match v.client_credentials {
        Some(f) => {
            lemma_oauth_flow_round_trip(f);
            assert(!(spec_encode_oauth_flow(f) is Null));
        },
        None => (),
    }
    match v.authorization_code {
        Some(f) => {
            lemma_oauth_flow_round_trip(f);
            assert(!(spec_encode_oauth_flow(f) is Null));
        },
        None => (),
    }
    match v.device_code {
        Some(f) => {
            lemma_oauth_flow_round_trip(f);
            assert(!(spec_encode_oauth_flow(f) is Null));
        },
        None => (),
    }
}

// --- Open extension capture: the keys of an object that are not among
// --- a variant's static fields become its extension map. ---

/// Collects the entries of an object whose keys are not in `statics`;
/// their values must be strings.  Entries keep their wire order.
pub open spec fn spec_collect_ext(
    es: Seq<(Seq<char>, SpecJson)>,
    statics: Seq<Seq<char>>,
    ctx: Seq<char>,
) -> Result<Seq<(Seq<char>, Seq<char>)>, SpecDecodeError>
    decreases es.len(),
{
    if es.len() == 0 {
        Ok(Seq::empty())
    } else {
        match spec_collect_ext(es.drop_last(), statics, ctx) {
            Err(e) => Err(e),
            Ok(pre) => if statics.contains(es.last().0) {
                Ok(pre)
            } else {
                match es.last().1 {
                    SpecJson::Str(s) => Ok(pre.push((es.last().0, s))),
                    _ => Err(spec_err(DecodeErrorKind::ExpectedString, ctx)),
                }
            },
        }
    }
}

pub broadcast proof fn lemma_collect_ext_concat(
    a: Seq<(Seq<char>, SpecJson)>,
    b: Seq<(Seq<char>, SpecJson)>,
    statics: Seq<Seq<char>>,
    ctx: Seq<char>,
)
    ensures
        #[trigger] spec_collect_ext(a + b, statics, ctx) == match spec_collect_ext(
            a,
            statics,
            ctx,
        ) {
            Err(e) => Err(e),
            Ok(pa) => match spec_collect_ext(b, statics, ctx) {
                Err(e) => Err(e),
                Ok(pb) => Ok(pa + pb),
            },
        },
    decreases b.len(),
{
    reveal_with_fuel(spec_collect_ext, 2);
    if b.len() == 0 {
        assert(a + b =~= a);
        match spec_collect_ext(a, statics, ctx) {
            Ok(pa) => {
                assert(pa + Seq::<(Seq<char>, Seq<char>)>::empty() =~= pa);
            },
            Err(_) => (),
        }
    } else {
        assert((a + b).last() == b.last());
        assert((a + b).drop_last() =~= a + b.drop_last());
        lemma_collect_ext_concat(a, b.drop_last(), statics, ctx);
        match (spec_collect_ext(a, statics, ctx), spec_collect_ext(b.drop_last(), statics, ctx)) {
            (Ok(pa), Ok(pb)) => {
                if !statics.contains(b.last().0) {
                    match b.last().1 {
                        SpecJson::Str(s) => {
                            assert((pa + pb).push((b.last().0, s)) =~= pa + pb.push(
                                (b.last().0, s),
                            ));
                        },
                        _ => (),
                    }
                }
            },
            _ => (),
        }
    }
}

/// Collecting over a string map's own entries returns them unchanged,
/// provided none of their keys is a static field name.
pub proof fn lemma_collect_ext_strmap(
    m: Seq<(Seq<char>, Seq<char>)>,
    statics: Seq<Seq<char>>,
    ctx: Seq<char>,
)
    requires
        forall|i: int| 0 <= i < m.len() ==> !statics.contains(#[trigger] m[i].0),
    ensures
        spec_collect_ext(strmap_entries(m), statics, ctx) == Ok::<
            Seq<(Seq<char>, Seq<char>)>,
            SpecDecodeError,
        >(m),
    decreases m.len(),
{
    reveal_with_fuel(spec_collect_ext, 2);
    if m.len() == 0 {
        assert(strmap_entries(m).len() == 0);
        assert(m =~= Seq::<(Seq<char>, Seq<char>)>::empty());
    } else {
        assert(strmap_entries(m).drop_last() =~= strmap_entries(m.drop_last()));
        lemma_collect_ext_strmap(m.drop_last(), statics, ctx);
        assert(strmap_entries(m).last() == (m.last().0, SpecJson::Str(m.last().1)));
        assert(m.drop_last().push((m.last().0, m.last().1)) =~= m);
    }
}

pub broadcast proof fn lemma_collect_str_entry(
    k2: Seq<char>,
    s: Seq<char>,
    statics: Seq<Seq<char>>,
    ctx: Seq<char>,
)
    ensures
        #[trigger] spec_collect_ext(str_entry(k2, s), statics, ctx) == Ok::<
            Seq<(Seq<char>, Seq<char>)>,
            SpecDecodeError,
        >(
            if statics.contains(k2) {
                Seq::empty()
            } else {
                seq![(k2, s)]
            },
        ),
{
    reveal_with_fuel(spec_collect_ext, 3);
    if !statics.contains(k2) {
        assert(Seq::<(Seq<char>, Seq<char>)>::empty().push((k2, s)) =~= seq![(k2, s)]);
    }
}

pub broadcast proof fn lemma_collect_opt_str_entry(
    k2: Seq<char>,
    o: Option<Seq<char>>,
    statics: Seq<Seq<char>>,
    ctx: Seq<char>,
)
    ensures
        #[trigger] spec_collect_ext(opt_str_entry(k2, o), statics, ctx) == Ok::<
            Seq<(Seq<char>, Seq<char>)>,
            SpecDecodeError,
        >(
            match o {
                Some(s) => if statics.contains(k2) {
                    Seq::empty()
                } else {
                    seq![(k2, s)]
                },
                None => Seq::empty(),
            },
        ),
{
    reveal_with_fuel(spec_collect_ext, 3);
    match o {
        Some(s) => {
            lemma_collect_str_entry(k2, s, statics, ctx);
        },
        None => (),
    }
}

pub broadcast proof fn lemma_collect_val_entry(
    k2: Seq<char>,
    v: SpecJson,
    statics: Seq<Seq<char>>,
    ctx: Seq<char>,
)
    requires
        statics.contains(k2),
    ensures
        #[trigger] spec_collect_ext(val_entry(k2, v), statics, ctx) == Ok::<
            Seq<(Seq<char>, Seq<char>)>,
            SpecDecodeError,
        >(Seq::empty()),
{
    reveal_with_fuel(spec_collect_ext, 3);
}

/// Looking a static key up among a well-formed extension map's encoded
/// entries finds nothing.
pub proof fn lemma_get_strmap_entries_none(
    m: Seq<(Seq<char>, Seq<char>)>,
    statics: Seq<Seq<char>>,
    k: Seq<char>,
)
    requires
        forall|i: int| 0 <= i < m.len() ==> !statics.contains(#[trigger] m[i].0),
        statics.contains(k),
    ensures
        spec_get(strmap_entries(m), k) is None,
    decreases m.len(),
{
    reveal_with_fuel(spec_get, 2);
    if m.len() > 0 {
        assert(strmap_entries(m).last() == (m.last().0, SpecJson::Str(m.last().1)));
        assert(m.last().0 != k);
        assert(strmap_entries(m).drop_last() =~= strmap_entries(m.drop_last()));
        lemma_get_strmap_entries_none(m.drop_last(), statics, k);
    }
}

/// An extension map fit to splice beside a variant's static fields: none
/// of its keys collides with a static field name.
pub open spec fn ext_wf(m: Seq<(Seq<char>, Seq<char>)>, statics: Seq<Seq<char>>) -> bool {
    forall|i: int| 0 <= i < m.len() ==> !statics.contains(#[trigger] m[i].0)
}

// --- The scheme union. ---

/// Defines a security scheme securing an agent's endpoints: a tagged
/// five-way union selected by the `type` discriminator.  Each variant's
/// extension map is spliced into the same object as its static fields;
/// on decode, every key outside the variant's static field set is
/// captured into the extension map and must hold a string.
#[derive(Debug, Clone, PartialEq, Eq)]
pub enum SecurityScheme {
    ApiKey {
        /// The name of the header, query or cookie parameter.
        name: String,
        /// Where the key is carried: `query`, `header` or `cookie`;
        /// encoded under the wire key `in`.
        location: String,
        /// Optional description.
        description: Option<String>,
        /// Specification extensions.
        extensions: StrMap,
    },
    Http {
        /// The HTTP authentication scheme, e.g. `basic` or `bearer`.
        scheme: String,
        /// Optional hint describing the bearer token format.
        bearer_format: Option<String>,
        /// Optional description.
        description: Option<String>,
        /// Specification extensions.
        extensions: StrMap,
    },
    MutualTLS {
        /// Optional description.
        description: Option<String>,
        /// Specification extensions.
        extensions: StrMap,
    },
    OAuth2 {
        /// The flow configurations.
        flows: OAuthFlows,
        /// Optional metadata URL.
        oauth2_metadata_url: Option<String>,
        /// Optional description.
        description: Option<String>,
        /// Specification extensions.
        extensions: StrMap,
    },
    OpenIdConnect {
        /// The OpenID Connect discovery URL.
        open_id_connect_url: String,
        /// Optional description.
        description: Option<String>,
        /// Specification extensions.
        extensions: StrMap,
    },
}

/// Mathematical model of a [`SecurityScheme`].
#[verifier::ext_equal]
pub enum SpecSecurityScheme {
    ApiKey {
        name: Seq<char>,
        location: Seq<char>,
        description: Option<Seq<char>>,
        extensions: Seq<(Seq<char>, Seq<char>)>,
    },
    Http {
        scheme: Seq<char>,
        bearer_format: Option<Seq<char>>,
        description: Option<Seq<char>>,
        extensions: Seq<(Seq<char>, Seq<char>)>,
    },
    MutualTLS { description: Option<Seq<char>>, extensions: Seq<(Seq<char>, Seq<char>)> },
    OAuth2 {
        flows: SpecOAuthFlows,
        oauth2_metadata_url: Option<Seq<char>>,
        description: Option<Seq<char>>,
        extensions: Seq<(Seq<char>, Seq<char>)>,
    },
    OpenIdConnect {
        open_id_connect_url: Seq<char>,
        description: Option<Seq<char>>,
        extensions: Seq<(Seq<char>, Seq<char>)>,
    },
}

impl View for SecurityScheme {
    type V = SpecSecurityScheme;

    open spec fn view(&self) -> SpecSecurityScheme {
        match self {
            SecurityScheme::ApiKey { name, location, description, extensions } =>
                SpecSecurityScheme::ApiKey {
                name: name@,
                location: location@,
                description: description.deep_view(),
                extensions: extensions@,
            },
            SecurityScheme::Http { scheme, bearer_format, description, extensions } =>
                SpecSecurityScheme::Http {
                scheme: scheme@,
                bearer_format: bearer_format.deep_view(),
                description: description.deep_view(),
                extensions: extensions@,
            },
            SecurityScheme::MutualTLS { description, extensions } =>
                SpecSecurityScheme::MutualTLS {
                description: description.deep_view(),
                extensions: extensions@,
            },
            SecurityScheme::OAuth2 { flows, oauth2_metadata_url, description, extensions } =>
                SpecSecurityScheme::OAuth2 {
                flows: flows@,
                oauth2_metadata_url: oauth2_metadata_url.deep_view(),
                description: description.deep_view(),
                extensions: extensions@,
            },
            SecurityScheme::OpenIdConnect { open_id_connect_url, description, extensions } =>
                SpecSecurityScheme::OpenIdConnect {
                open_id_connect_url: open_id_connect_url@,
                description: description.deep_view(),
                extensions: extensions@,
            },
        }
    }
}

impl DeepView for SecurityScheme {
    type V = SpecSecurityScheme;

    open spec fn deep_view(&self) -> SpecSecurityScheme {
        self.view()
    }
}

impl Default for SecurityScheme {
    /// The default scheme is an empty HTTP scheme.
    fn default() -> (r: SecurityScheme)
        ensures
            r@ == (SpecSecurityScheme::Http {
                scheme: ""@,
                bearer_format: None,
                description: None,
                extensions: Seq::empty(),
            }),
    {
        let r = SecurityScheme::Http {
            scheme: String::new(),
            bearer_format: None,
            description: None,
            extensions: StrMap::new(),
        };
        proof {
            reveal_strlit("");
            assert(""@ =~= Seq::<char>::empty());
        }
        r
    }
}

/// The static field names of each variant, discriminator included.
pub open spec fn apikey_statics() -> Seq<Seq<char>> {
    seq!["description"@, "in"@, "name"@, "type"@]
}

pub open spec fn http_statics() -> Seq<Seq<char>> {
    seq!["bearerFormat"@, "description"@, "scheme"@, "type"@]
}

pub open spec fn mutual_tls_statics() -> Seq<Seq<char>> {
    seq!["description"@, "type"@]
}

pub open spec fn oauth2_statics() -> Seq<Seq<char>> {
    seq!["description"@, "flows"@, "oauth2MetadataUrl"@, "type"@]
}

pub open spec fn openid_statics() -> Seq<Seq<char>> {
    seq!["description"@, "openIdConnectUrl"@, "type"@]
}

/// The encoded entries of each variant, in ascending key order, with the
/// extension entries spliced in after the static fields.
pub open spec fn security_scheme_entries(v: SpecSecurityScheme) -> Seq<(Seq<char>, SpecJson)> {
    match v {
        SpecSecurityScheme::ApiKey { name, location, description, extensions } => opt_str_entry(
            "description"@,
            description,
        ) + str_entry("in"@, location) + str_entry("name"@, name) + str_entry("type"@, "apiKey"@)
            + strmap_entries(extensions),
        SpecSecurityScheme::Http { scheme, bearer_format, description, extensions } =>
            opt_str_entry("bearerFormat"@, bearer_format) + opt_str_entry(
            "description"@,
            description,
        ) + str_entry("scheme"@, scheme) + str_entry("type"@, "http"@) + strmap_entries(extensions),
        SpecSecurityScheme::MutualTLS { description, extensions } => opt_str_entry(
            "description"@,
            description,
        ) + str_entry("type"@, "mutualTLS"@) + strmap_entries(extensions),
        SpecSecurityScheme::OAuth2 { flows, oauth2_metadata_url, description, extensions } =>
            opt_str_entry("description"@, description) + val_entry(
            "flows"@,
            spec_encode_oauth_flows(flows),
        ) + opt_str_entry("oauth2MetadataUrl"@, oauth2_metadata_url) + str_entry(
            "type"@,
            "oauth2"@,
        ) + strmap_entries(extensions),
        SpecSecurityScheme::OpenIdConnect { open_id_connect_url, description, extensions } =>
            opt_str_entry("description"@, description) + str_entry(
            "openIdConnectUrl"@,
            open_id_connect_url,
        ) + str_entry("type"@, "openIdConnect"@) + strmap_entries(extensions),
    }
}

pub open spec fn spec_encode_security_scheme(v: SpecSecurityScheme) -> SpecJson {
    SpecJson::Obj(security_scheme_entries(v))
}

/// Tagged decoding: the `type` discriminator selects the variant; an
/// unknown discriminator is a hard failure.  Keys outside the selected
/// variant's static fields are captured into its extension map.
pub open spec fn spec_decode_security_scheme(j: SpecJson) -> Result<
    SpecSecurityScheme,
    SpecDecodeError,
> {
    match j {
        SpecJson::Obj(es) => match spec_req_str(es, "type"@) {
            Err(e) => Err(e),
            Ok(tag) => if tag == "apiKey"@ {
                match spec_req_str(es, "name"@) {
                    Err(e) => Err(e),
                    Ok(name) => match spec_req_str(es, "in"@) {
                        Err(e) => Err(e),
                        Ok(location) => match spec_opt_str(es, "description"@) {
                            Err(e) => Err(e),
                            Ok(description) => match spec_collect_ext(
                                es,
                                apikey_statics(),
                                "extensions"@,
                            ) {
                                Err(e) => Err(e),
                                Ok(extensions) => Ok(
                                    SpecSecurityScheme::ApiKey {
                                        name,
                                        location,
                                        description,
                                        extensions,
                                    },
                                ),
                            },
                        },
                    },
                }
            } else if tag == "http"@ {
                match spec_req_str(es, "scheme"@) {
                    Err(e) => Err(e),
                    Ok(scheme) => match spec_opt_str(es, "bearerFormat"@) {
                        Err(e) => Err(e),
                        Ok(bearer_format) => match spec_opt_str(es, "description"@) {
                            Err(e) => Err(e),
                            Ok(description) => match spec_collect_ext(
                                es,
                                http_statics(),
                                "extensions"@,
                            ) {
                                Err(e) => Err(e),
                                Ok(extensions) => Ok(
                                    SpecSecurityScheme::Http {
                                        scheme,
                                        bearer_format,
                                        description,
                                        extensions,
                                    },
                                ),
                            },
                        },
                    },
                }
            } else if tag == "mutualTLS"@ {
                match spec_opt_str(es, "description"@) {
                    Err(e) => Err(e),
                    Ok(description) => match spec_collect_ext(
                        es,
                        mutual_tls_statics(),
                        "extensions"@,
                    ) {
                        Err(e) => Err(e),
                        Ok(extensions) => Ok(
                            SpecSecurityScheme::MutualTLS { description, extensions },
                        ),
                    },
                }
            } else if tag == "oauth2"@ {
                match spec_get(es, "flows"@) {
                    None => Err(spec_err(DecodeErrorKind::MissingField, "flows"@)),
                    Some(fj) => match spec_decode_oauth_flows(fj) {
                        Err(e) => Err(e),
                        Ok(flows) => match spec_opt_str(es, "oauth2MetadataUrl"@) {
                            Err(e) => Err(e),
                            Ok(oauth2_metadata_url) => match spec_opt_str(es, "description"@) {
                                Err(e) => Err(e),
                                Ok(description) => match spec_collect_ext(
                                    es,
                                    oauth2_statics(),
                                    "extensions"@,
                                ) {
                                    Err(e) => Err(e),
                                    Ok(extensions) => Ok(
                                        SpecSecurityScheme::OAuth2 {
                                            flows,
                                            oauth2_metadata_url,
                                            description,
                                            extensions,
                                        },
                                    ),
                                },
                            },
                        },
                    },
                }
            } else if tag == "openIdConnect"@ {
                match spec_req_str(es, "openIdConnectUrl"@) {
                    Err(e) => Err(e),
                    Ok(open_id_connect_url) => match spec_opt_str(es, "description"@) {
                        Err(e) => Err(e),
                        Ok(description) => match spec_collect_ext(
                            es,
                            openid_statics(),
                            "extensions"@,
                        ) {
                            Err(e) => Err(e),
                            Ok(extensions) => Ok(
                                SpecSecurityScheme::OpenIdConnect {
                                    open_id_connect_url,
                                    description,
                                    extensions,
                                },
                            ),
                        },
                    },
                }
            } else {
                Err(spec_err(DecodeErrorKind::UnknownDiscriminator, "type"@))
            },
        },
        _ => Err(spec_err(DecodeErrorKind::ExpectedObject, "securityScheme"@)),
    }
}

/// Marks which variant's static field set an extension scan uses.
#[derive(Debug, Clone, Copy, PartialEq, Eq, Structural)]
enum SchemeKind {
    ApiKey,
    Http,
    MutualTls,
    OAuth2,
    OpenIdConnect,
}

spec fn scheme_statics(kind: SchemeKind) -> Seq<Seq<char>> {
    match kind {
        SchemeKind::ApiKey => apikey_statics(),
        SchemeKind::Http => http_statics(),
        SchemeKind::MutualTls => mutual_tls_statics(),
        SchemeKind::OAuth2 => oauth2_statics(),
        SchemeKind::OpenIdConnect => openid_statics(),
    }
}

/// Whether `k` names a static field of the given variant.
fn scheme_is_static(kind: SchemeKind, k: &str) -> (r: bool)
    ensures
        r == scheme_statics(kind).contains(k@),
{
    let r = match kind {
        SchemeKind::ApiKey => str_eq(k, "description") || str_eq(k, "in") || str_eq(k, "name")
            || str_eq(k, "type"),
        SchemeKind::Http => str_eq(k, "bearerFormat") || str_eq(k, "description") || str_eq(
            k,
            "scheme",
        ) || str_eq(k, "type"),
        SchemeKind::MutualTls => str_eq(k, "description") || str_eq(k, "type"),
        SchemeKind::OAuth2 => str_eq(k, "description") || str_eq(k, "flows") || str_eq(
            k,
            "oauth2MetadataUrl",
        ) || str_eq(k, "type"),
        SchemeKind::OpenIdConnect => str_eq(k, "description") || str_eq(k, "openIdConnectUrl")
            || str_eq(k, "type"),
    };
    proof {
        let statics = scheme_statics(kind);
        if r {
            assert(statics.contains(k@)) by {
                if statics.len() == 2 {
                    assert(statics[0] == k@ || statics[1] == k@);
                } else if statics.len() == 3 {
                    assert(statics[0] == k@ || statics[1] == k@ || statics[2] == k@);
                } else {
                    assert(statics[0] == k@ || statics[1] == k@ || statics[2] == k@ || statics[3]
                        == k@);
                }
            }
        } else {
            assert(!statics.contains(k@)) by {
                assert(forall|i: int| 0 <= i < statics.len() ==> statics[i] != k@);
            }
        }
    }
    r
}

proof fn lemma_collect_ext_err_shape(
    es: Seq<(Seq<char>, SpecJson)>,
    statics: Seq<Seq<char>>,
    ctx: Seq<char>,
)
    ensures
        spec_collect_ext(es, statics, ctx) is Err ==> spec_collect_ext(es, statics, ctx) == Err::<
            Seq<(Seq<char>, Seq<char>)>,
            SpecDecodeError,
        >(spec_err(DecodeErrorKind::ExpectedString, ctx)),
    decreases es.len(),
{
    if es.len() > 0 {
        lemma_collect_ext_err_shape(es.drop_last(), statics, ctx);
    }
}

proof fn lemma_collect_ext_err(
    es: Seq<(Seq<char>, SpecJson)>,
    statics: Seq<Seq<char>>,
    ctx: Seq<char>,
    i: int,
)
    requires
        0 <= i < es.len(),
        !statics.contains(es[i].0),
        !(es[i].1 is Str),
    ensures
        spec_collect_ext(es, statics, ctx) == Err::<Seq<(Seq<char>, Seq<char>)>, SpecDecodeError>(
            spec_err(DecodeErrorKind::ExpectedString, ctx),
        ),
    decreases es.len(),
{
    if i == es.len() - 1 {
        lemma_collect_ext_err_shape(es.drop_last(), statics, ctx);
    } else {
        lemma_collect_ext_err(es.drop_last(), statics, ctx, i);
    }
}

/// Scans an object's entries, capturing every key outside the variant's
/// static field set; captured values must be strings.
fn collect_ext(kind: SchemeKind, es: &Vec<(String, JsonValue)>) -> (r: Result<StrMap, DecodeError>)
    ensures
        res_deep_view(r) == spec_collect_ext(
            json_entries_view(es@),
            scheme_statics(kind),
            "extensions"@,
        ),
{
    let ghost g = json_entries_view(es@);
    let ghost statics = scheme_statics(kind);
    let mut out = StrMap::new();
    let mut i: usize = 0;
    proof {
        assert(g.subrange(0, 0).len() == 0);
    }
    while i < es.len()
        invariant
            i <= es.len(),
            g == json_entries_view(es@),
            statics == scheme_statics(kind),
            g.len() == es@.len(),
            spec_collect_ext(g.subrange(0, i as int), statics, "extensions"@) == Ok::<
                Seq<(Seq<char>, Seq<char>)>,
                SpecDecodeError,
            >(out@),
        decreases es.len() - i,
    {
        let ghost pre = g.subrange(0, i as int);
        let ghost cur = g.subrange(0, i + 1);
        proof {
            assert(cur.drop_last() =~= pre);
            assert(cur.last() == g[i as int]);
            assert(g[i as int] == (es@[i as int].0@, json_view(es@[i as int].1)));
        }
        if !scheme_is_static(kind, es[i].0.as_str()) {
            match &es[i].1 {
                JsonValue::Str(s) => {
                    out.push(es[i].0.as_str(), s.as_str());
                },
                _ => {
                    proof {
                        lemma_collect_ext_err(g, statics, "extensions"@, i as int);
                    }
                    return Err(mk_err(DecodeErrorKind::ExpectedString, "extensions"));
                },
            }
        }
        i += 1;
    }
    proof {
        assert(g.subrange(0, es@.len() as int) =~= g);
    }
    Ok(out)
}

/// A scheme value fit for a lossless round trip: its extension keys
/// stay clear of the variant's static field names, and an OAuth2
/// scheme's flows carry canonical scope maps.
pub open spec fn security_scheme_wf(v: SpecSecurityScheme) -> bool {
    match v {
        SpecSecurityScheme::ApiKey { extensions, .. } => ext_wf(extensions, apikey_statics()),
        SpecSecurityScheme::Http { extensions, .. } => ext_wf(extensions, http_statics()),
        SpecSecurityScheme::MutualTLS { extensions, .. } => ext_wf(
            extensions,
            mutual_tls_statics(),
        ),
        SpecSecurityScheme::OAuth2 { flows, extensions, .. } => ext_wf(
            extensions,
            oauth2_statics(),
        ) && oauth_flows_wf(flows),
        SpecSecurityScheme::OpenIdConnect { extensions, .. } => ext_wf(
            extensions,
            openid_statics(),
        ),
    }
}

impl SecurityScheme {
    /// Encodes the active variant with its `type` discriminator, the
    /// extension entries spliced in after the static fields; fields of
    /// the other variants never appear.
    pub fn to_json(&self) -> (r: JsonValue)
        ensures
            r@ == spec_encode_security_scheme(self@),
    {
        match self {
            SecurityScheme::ApiKey { name, location, description, extensions } => {
                let mut b = ObjBuilder::new();
                b.push_opt_str("description", description);
                b.push_str("in", location.as_str());
                b.push_str("name", name.as_str());
                b.push_str("type", "apiKey");
                b.push_flat_str_map(extensions);
                proof {
                    assert(b@ =~= security_scheme_entries(self@));
                }
                b.finish()
            },
            SecurityScheme::Http { scheme, bearer_format, description, extensions } => {
                let mut b = ObjBuilder::new();
                b.push_opt_str("bearerFormat", bearer_format);
                b.push_opt_str("description", description);
                b.push_str("scheme", scheme.as_str());
                b.push_str("type", "http");
                b.push_flat_str_map(extensions);
                proof {
                    assert(b@ =~= security_scheme_entries(self@));
                }
                b.finish()
            },
            SecurityScheme::MutualTLS { description, extensions } => {
                let mut b = ObjBuilder::new();
                b.push_opt_str("description", description);
                b.push_str("type", "mutualTLS");
                b.push_flat_str_map(extensions);
                proof {
                    assert(b@ =~= security_scheme_entries(self@));
                }
                b.finish()
            },
            SecurityScheme::OAuth2 { flows, oauth2_metadata_url, description, extensions } => {
                let mut b = ObjBuilder::new();
                b.push_opt_str("description", description);
                b.push_val("flows", flows.to_json());
                b.push_opt_str("oauth2MetadataUrl", oauth2_metadata_url);
                b.push_str("type", "oauth2");
                b.push_flat_str_map(extensions);
                proof {
                    assert(b@ =~= security_scheme_entries(self@));
                }
                b.finish()
            },
            SecurityScheme::OpenIdConnect { open_id_connect_url, description, extensions } => {
                let mut b = ObjBuilder::new();
                b.push_opt_str("description", description);
                b.push_str("openIdConnectUrl", open_id_connect_url.as_str());
                b.push_str("type", "openIdConnect");
                b.push_flat_str_map(extensions);
                proof {
                    assert(b@ =~= security_scheme_entries(self@));
                }
                b.finish()
            },
        }
    }

    /// Decodes a JSON object by its `type` discriminator; an unknown
    /// discriminator is a hard failure.
    pub fn from_json(j: &JsonValue) -> (r: Result<SecurityScheme, DecodeError>)
        ensures
            res_deep_view(r) == spec_decode_security_scheme(j@),
    {
        let es = match j {
            JsonValue::Obj(es) => es,
            _ => { return Err(mk_err(DecodeErrorKind::ExpectedObject, "securityScheme")) },
        };
        let tag = match get_str_req(es, "type") {
            Ok(v) => v,
            Err(e) => { return Err(e) },
        };
        if str_eq(tag.as_str(), "apiKey") {
            let name = match get_str_req(es, "name") {
                Ok(v) => v,
                Err(e) => { return Err(e) },
            };
            let location = match get_str_req(es, "in") {
                Ok(v) => v,
                Err(e) => { return Err(e) },
            };
            let description = match get_str_opt(es, "description") {
                Ok(v) => v,
                Err(e) => { return Err(e) },
            };
            let extensions = match collect_ext(SchemeKind::ApiKey, es) {
                Ok(v) => v,
                Err(e) => { return Err(e) },
            };
            Ok(SecurityScheme::ApiKey { name, location, description, extensions })
        } else if str_eq(tag.as_str(), "http") {
            let scheme = match get_str_req(es, "scheme") {
                Ok(v) => v,
                Err(e) => { return Err(e) },
            };
            let bearer_format = match get_str_opt(es, "bearerFormat") {
                Ok(v) => v,
                Err(e) => { return Err(e) },
            };
            let description = match get_str_opt(es, "description") {
                Ok(v) => v,
                Err(e) => { return Err(e) },
            };
            let extensions = match collect_ext(SchemeKind::Http, es) {
                Ok(v) => v,
                Err(e) => { return Err(e) },
            };
            Ok(SecurityScheme::Http { scheme, bearer_format, description, extensions })
        } else if str_eq(tag.as_str(), "mutualTLS") {
            let description = match get_str_opt(es, "description") {
                Ok(v) => v,
                Err(e) => { return Err(e) },
            };
            let extensions = match collect_ext(SchemeKind::MutualTls, es) {
                Ok(v) => v,
                Err(e) => { return Err(e) },
            };
            Ok(SecurityScheme::MutualTLS { description, extensions })
        } else if str_eq(tag.as_str(), "oauth2") {
            let fj = match get_entry(es, "flows") {
                Some(v) => v,
                None => { return Err(mk_err(DecodeErrorKind::MissingField, "flows")) },
            };
            let flows = match OAuthFlows::from_json(fj) {
                Ok(v) => v,
                Err(e) => { return Err(e) },
            };
            let oauth2_metadata_url = match get_str_opt(es, "oauth2MetadataUrl") {
                Ok(v) => v,
                Err(e) => { return Err(e) },
            };
            let description = match get_str_opt(es, "description") {
                Ok(v) => v,
                Err(e) => { return Err(e) },
            };
            let extensions = match collect_ext(SchemeKind::OAuth2, es) {
                Ok(v) => v,
                Err(e) => { return Err(e) },
            };
            Ok(SecurityScheme::OAuth2 { flows, oauth2_metadata_url, description, extensions })
        } else if str_eq(tag.as_str(), "openIdConnect") {
            let open_id_connect_url = match get_str_req(es, "openIdConnectUrl") {
                Ok(v) => v,
                Err(e) => { return Err(e) },
            };
            let description = match get_str_opt(es, "description") {
                Ok(v) => v,
                Err(e) => { return Err(e) },
            };
            let extensions = match collect_ext(SchemeKind::OpenIdConnect, es) {
                Ok(v) => v,
                Err(e) => { return Err(e) },
            };
            Ok(SecurityScheme::OpenIdConnect { open_id_connect_url, description, extensions })
        } else {
            Err(mk_err(DecodeErrorKind::UnknownDiscriminator, "type"))
        }
    }
}

/// Decoding an encoded API-key scheme yields it back.
proof fn lemma_scheme_rt_api_key(v: SpecSecurityScheme)
    requires
        v is ApiKey,
        security_scheme_wf(v),
    ensures
        spec_decode_security_scheme(spec_encode_security_scheme(v)) == Ok::<
            SpecSecurityScheme,
            SpecDecodeError,
        >(v),
{
    broadcast use crate::codec::group_entry_lookup;

    reveal_strlit("apiKey");
    reveal_strlit("description");
    reveal_strlit("http");
    reveal_strlit("in");
    reveal_strlit("mutualTLS");
    reveal_strlit("name");
    reveal_strlit("oauth2");
    reveal_strlit("openIdConnect");
    reveal_strlit("type");
    assert("apiKey"@.len() == 6);
    assert("description"@.len() == 11);
    assert("http"@.len() == 4);
    assert("in"@.len() == 2);
    assert("mutualTLS"@.len() == 9);
    assert("name"@.len() == 4);
    assert("oauth2"@.len() == 6);
    assert("openIdConnect"@.len() == 13);
    assert("type"@.len() == 4);
    assert("apiKey"@[0] == 'a');
    assert("oauth2"@[0] == 'o');
    assert("type"@[0] == 't');
    assert("name"@[0] == 'n');
    let es = security_scheme_entries(v);
    let name = v->ApiKey_name;
    let location = v->ApiKey_location;
    let description = v->ApiKey_description;
    let extensions = v->ApiKey_extensions;
    let statics = apikey_statics();
    assert(statics[0] == "description"@ && statics[1] == "in"@ && statics[2] == "name"@
        && statics[3] == "type"@);
    assert(statics.contains("description"@) && statics.contains("in"@) && statics.contains(
        "name"@,
    ) && statics.contains("type"@));
    lemma_get_strmap_entries_none(extensions, statics, "type"@);
    lemma_get_strmap_entries_none(extensions, statics, "name"@);
    lemma_get_strmap_entries_none(extensions, statics, "in"@);
    lemma_get_strmap_entries_none(extensions, statics, "description"@);
    assert(spec_get(es, "type"@) == Some(SpecJson::Str("apiKey"@)));
    assert(spec_get(es, "name"@) == Some(SpecJson::Str(name)));
    assert(spec_get(es, "in"@) == Some(SpecJson::Str(location)));
    assert(spec_get(es, "description"@) == match description {
        Some(s) => Some(SpecJson::Str(s)),
        None => None,
    });
    assert(spec_collect_ext(es, statics, "extensions"@) == Ok::<
        Seq<(Seq<char>, Seq<char>)>,
        SpecDecodeError,
    >(extensions)) by {
        broadcast use
            lemma_collect_ext_concat,
            lemma_collect_str_entry,
            lemma_collect_opt_str_entry;

        lemma_collect_ext_strmap(extensions, statics, "extensions"@);
        assert(Seq::<(Seq<char>, Seq<char>)>::empty() + extensions =~= extensions);
    }
}

/// Decoding an encoded HTTP scheme yields it back.
proof fn lemma_scheme_rt_http(v: SpecSecurityScheme)
    requires
        v is Http,
        security_scheme_wf(v),
    ensures
        spec_decode_security_scheme(spec_encode_security_scheme(v)) == Ok::<
            SpecSecurityScheme,
            SpecDecodeError,
        >(v),
{
    broadcast use crate::codec::group_entry_lookup;

    reveal_strlit("apiKey");
    reveal_strlit("bearerFormat");
    reveal_strlit("description");
    reveal_strlit("http");
    reveal_strlit("mutualTLS");
    reveal_strlit("oauth2");
    reveal_strlit("openIdConnect");
    reveal_strlit("scheme");
    reveal_strlit("type");
    assert("apiKey"@.len() == 6);
    assert("bearerFormat"@.len() == 12);
    assert("description"@.len() == 11);
    assert("http"@.len() == 4);
    assert("mutualTLS"@.len() == 9);
    assert("oauth2"@.len() == 6);
    assert("openIdConnect"@.len() == 13);
    assert("scheme"@.len() == 6);
    assert("type"@.len() == 4);
    assert("apiKey"@[0] == 'a');
    assert("oauth2"@[0] == 'o');
    assert("scheme"@[0] == 's');
    assert("http"@[0] == 'h');
    assert("type"@[0] == 't');
    let es = security_scheme_entries(v);
    let scheme = v->Http_scheme;
    let bearer_format = v->Http_bearer_format;
    let description = v->Http_description;
    let extensions = v->Http_extensions;
    let statics = http_statics();
    assert(statics[0] == "bearerFormat"@ && statics[1] == "description"@ && statics[2]
        == "scheme"@ && statics[3] == "type"@);
    assert(statics.contains("bearerFormat"@) && statics.contains("description"@)
        && statics.contains("scheme"@) && statics.contains("type"@));
    lemma_get_strmap_entries_none(extensions, statics, "type"@);
    lemma_get_strmap_entries_none(extensions, statics, "scheme"@);
    lemma_get_strmap_entries_none(extensions, statics, "bearerFormat"@);
    lemma_get_strmap_entries_none(extensions, statics, "description"@);
    assert(spec_get(es, "type"@) == Some(SpecJson::Str("http"@)));
    assert(spec_get(es, "scheme"@) == Some(SpecJson::Str(scheme)));
    assert(spec_get(es, "bearerFormat"@) == match bearer_format {
        Some(s) => Some(SpecJson::Str(s)),
        None => None,
    });
    assert(spec_get(es, "description"@) == match description {
        Some(s) => Some(SpecJson::Str(s)),
        None => None,
    });
    assert(spec_collect_ext(es, statics, "extensions"@) == Ok::<
        Seq<(Seq<char>, Seq<char>)>,
        SpecDecodeError,
    >(extensions)) by {
        broadcast use
            lemma_collect_ext_concat,
            lemma_collect_str_entry,
            lemma_collect_opt_str_entry;

        lemma_collect_ext_strmap(extensions, statics, "extensions"@);
        assert(Seq::<(Seq<char>, Seq<char>)>::empty() + extensions =~= extensions);
    }
}

/// Decoding an encoded mutual-TLS scheme yields it back.
proof fn lemma_scheme_rt_mutual_tls(v: SpecSecurityScheme)
    requires
        v is MutualTLS,
        security_scheme_wf(v),
    ensures
        spec_decode_security_scheme(spec_encode_security_scheme(v)) == Ok::<
            SpecSecurityScheme,
            SpecDecodeError,
        >(v),
{
    broadcast use crate::codec::group_entry_lookup;

    reveal_strlit("apiKey");
    reveal_strlit("description");
    reveal_strlit("http");
    reveal_strlit("mutualTLS");
    reveal_strlit("oauth2");
    reveal_strlit("openIdConnect");
    reveal_strlit("type");
    assert("apiKey"@.len() == 6);
    assert("description"@.len() == 11);
    assert("http"@.len() == 4);
    assert("mutualTLS"@.len() == 9);
    assert("oauth2"@.len() == 6);
    assert("openIdConnect"@.len() == 13);
    assert("type"@.len() == 4);
    assert("apiKey"@[0] == 'a');
    assert("oauth2"@[0] == 'o');
    assert("http"@[0] == 'h');
    assert("type"@[0] == 't');
    let es = security_scheme_entries(v);
    let description = v->MutualTLS_description;
    let extensions = v->MutualTLS_extensions;
    let statics = mutual_tls_statics();
    assert(statics[0] == "description"@ && statics[1] == "type"@);
    assert(statics.contains("description"@) && statics.contains("type"@));
    lemma_get_strmap_entries_none(extensions, statics, "type"@);
    lemma_get_strmap_entries_none(extensions, statics, "description"@);
    assert(spec_get(es, "type"@) == Some(SpecJson::Str("mutualTLS"@)));
    assert(spec_get(es, "description"@) == match description {
        Some(s) => Some(SpecJson::Str(s)),
        None => None,
    });
    assert(spec_collect_ext(es, statics, "extensions"@) == Ok::<
        Seq<(Seq<char>, Seq<char>)>,
        SpecDecodeError,
    >(extensions)) by {
        broadcast use
            lemma_collect_ext_concat,
            lemma_collect_str_entry,
            lemma_collect_opt_str_entry;

        lemma_collect_ext_strmap(extensions, statics, "extensions"@);
        assert(Seq::<(Seq<char>, Seq<char>)>::empty() + extensions =~= extensions);
    }
}

/// Decoding an encoded OAuth2 scheme yields it back.
proof fn lemma_scheme_rt_oauth2(v: SpecSecurityScheme)
    requires
        v is OAuth2,
        security_scheme_wf(v),
    ensures
        spec_decode_security_scheme(spec_encode_security_scheme(v)) == Ok::<
            SpecSecurityScheme,
            SpecDecodeError,
        >(v),
{
    broadcast use crate::codec::group_entry_lookup;

    reveal_strlit("apiKey");
    reveal_strlit("description");
    reveal_strlit("flows");
    reveal_strlit("http");
    reveal_strlit("mutualTLS");
    reveal_strlit("oauth2");
    reveal_strlit("oauth2MetadataUrl");
    reveal_strlit("openIdConnect");
    reveal_strlit("type");
    assert("apiKey"@.len() == 6);
    assert("description"@.len() == 11);
    assert("flows"@.len() == 5);
    assert("http"@.len() == 4);
    assert("mutualTLS"@.len() == 9);
    assert("oauth2"@.len() == 6);
    assert("oauth2MetadataUrl"@.len() == 17);
    assert("openIdConnect"@.len() == 13);
    assert("type"@.len() == 4);
    assert("apiKey"@[0] == 'a');
    assert("oauth2"@[0] == 'o');
    assert("http"@[0] == 'h');
    assert("type"@[0] == 't');
    let es = security_scheme_entries(v);
    let flows = v->OAuth2_flows;
    let oauth2_metadata_url = v->OAuth2_oauth2_metadata_url;
    let description = v->OAuth2_description;
    let extensions = v->OAuth2_extensions;
    let statics = oauth2_statics();
    assert(statics[0] == "description"@ && statics[1] == "flows"@ && statics[2]
        == "oauth2MetadataUrl"@ && statics[3] == "type"@);
    assert(statics.contains("description"@) && statics.contains("flows"@) && statics.contains(
        "oauth2MetadataUrl"@,
    ) && statics.contains("type"@));
    lemma_get_strmap_entries_none(extensions, statics, "type"@);
    lemma_get_strmap_entries_none(extensions, statics, "flows"@);
    lemma_get_strmap_entries_none(extensions, statics, "oauth2MetadataUrl"@);
    lemma_get_strmap_entries_none(extensions, statics, "description"@);
    assert(spec_get(es, "type"@) == Some(SpecJson::Str("oauth2"@)));
    assert(spec_get(es, "flows"@) == Some(spec_encode_oauth_flows(flows)));
    assert(spec_get(es, "oauth2MetadataUrl"@) == match oauth2_metadata_url {
        Some(s) => Some(SpecJson::Str(s)),
        None => None,
    });
    assert(spec_get(es, "description"@) == match description {
        Some(s) => Some(SpecJson::Str(s)),
        None => None,
    });
    lemma_oauth_flows_round_trip(flows);
    assert(!(spec_encode_oauth_flows(flows) is Null));
    assert(spec_collect_ext(es, statics, "extensions"@) == Ok::<
        Seq<(Seq<char>, Seq<char>)>,
        SpecDecodeError,
    >(extensions)) by {
        broadcast use
            lemma_collect_ext_concat,
            lemma_collect_str_entry,
            lemma_collect_opt_str_entry,
            lemma_collect_val_entry;

        lemma_collect_ext_strmap(extensions, statics, "extensions"@);
        assert(Seq::<(Seq<char>, Seq<char>)>::empty() + extensions =~= extensions);
    }
}

/// Decoding an encoded OpenID-Connect scheme yields it back.
proof fn lemma_scheme_rt_openid(v: SpecSecurityScheme)
    requires
        v is OpenIdConnect,
        security_scheme_wf(v),
    ensures
        spec_decode_security_scheme(spec_encode_security_scheme(v)) == Ok::<
            SpecSecurityScheme,
            SpecDecodeError,
        >(v),
{
    broadcast use crate::codec::group_entry_lookup;

    reveal_strlit("apiKey");
    reveal_strlit("description");
    reveal_strlit("http");
    reveal_strlit("mutualTLS");
    reveal_strlit("oauth2");
    reveal_strlit("openIdConnect");
    reveal_strlit("openIdConnectUrl");
    reveal_strlit("type");
    assert("apiKey"@.len() == 6);
    assert("description"@.len() == 11);
    assert("http"@.len() == 4);
    assert("mutualTLS"@.len() == 9);
    assert("oauth2"@.len() == 6);
    assert("openIdConnect"@.len() == 13);
    assert("openIdConnectUrl"@.len() == 16);
    assert("type"@.len() == 4);
    assert("apiKey"@[0] == 'a');
    assert("oauth2"@[0] == 'o');
    assert("http"@[0] == 'h');
    assert("type"@[0] == 't');
    let es = security_scheme_entries(v);
    let open_id_connect_url = v->OpenIdConnect_open_id_connect_url;
    let description = v->OpenIdConnect_description;
    let extensions = v->OpenIdConnect_extensions;
    let statics = openid_statics();
    assert(statics[0] == "description"@ && statics[1] == "openIdConnectUrl"@ && statics[2]
        == "type"@);
    assert(statics.contains("description"@) && statics.contains("openIdConnectUrl"@)
        && statics.contains("type"@));
    lemma_get_strmap_entries_none(extensions, statics, "type"@);
    lemma_get_strmap_entries_none(extensions, statics, "openIdConnectUrl"@);
    lemma_get_strmap_entries_none(extensions, statics, "description"@);
    assert(spec_get(es, "type"@) == Some(SpecJson::Str("openIdConnect"@)));
    assert(spec_get(es, "openIdConnectUrl"@) == Some(SpecJson::Str(open_id_connect_url)));
    assert(spec_get(es, "description"@) == match description {
        Some(s) => Some(SpecJson::Str(s)),
        None => None,
    });
    assert(spec_collect_ext(es, statics, "extensions"@) == Ok::<
        Seq<(Seq<char>, Seq<char>)>,
        SpecDecodeError,
    >(extensions)) by {
        broadcast use
            lemma_collect_ext_concat,
            lemma_collect_str_entry,
            lemma_collect_opt_str_entry;

        lemma_collect_ext_strmap(extensions, statics, "extensions"@);
        assert(Seq::<(Seq<char>, Seq<char>)>::empty() + extensions =~= extensions);
    }
}

/// Decoding an encoded scheme yields the scheme back: the discriminator
/// the encoder writes selects the same variant, the static fields read
/// back unchanged, and the extension scan recovers exactly the spliced
/// extension entries, in order.
pub proof fn lemma_security_scheme_round_trip(v: SpecSecurityScheme)
    requires
        security_scheme_wf(v),
    ensures
        spec_decode_security_scheme(spec_encode_security_scheme(v)) == Ok::<
            SpecSecurityScheme,
            SpecDecodeError,
        >(v),
{
    match v {
        SpecSecurityScheme::ApiKey { .. } => lemma_scheme_rt_api_key(v),
        SpecSecurityScheme::Http { .. } => lemma_scheme_rt_http(v),
        SpecSecurityScheme::MutualTLS { .. } => lemma_scheme_rt_mutual_tls(v),
        SpecSecurityScheme::OAuth2 { .. } => lemma_scheme_rt_oauth2(v),
        SpecSecurityScheme::OpenIdConnect { .. } => lemma_scheme_rt_openid(v),
    }
}

} // verus!
