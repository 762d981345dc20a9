//! Decoding errors, object-field lookup, and the helpers shared by every
//! record codec: last-occurrence key lookup on JSON objects, typed field
//! extraction, and an object builder whose output mirrors the spec-level
//! entry groups used in the encoders' contracts.

use vstd::prelude::*;

use crate::json::JsonValue;
use crate::json::SpecJson;
use crate::json::json_entries_view;
use crate::json::json_seq_view;
use crate::json::json_view;
use crate::json::str_eq;
use crate::util_types::StrMap;
use crate::util_types::lex_lt;
use crate::util_types::map_insert;
use crate::util_types::strmap_wf;

verus! {

broadcast use {vstd::std_specs::vec::group_vec_axioms, crate::json::group_json_view_lemmas};

/// What shape-level failure a decoder found.
#[derive(Debug, Clone, Copy, PartialEq, Eq, Structural)]
pub enum DecodeErrorKind {
    /// The value to decode was not a JSON object.
    ExpectedObject,
    /// A field that must hold a string held something else.
    ExpectedString,
    /// A field that must hold an integer held something else.
    ExpectedInt,
    /// A field that must hold a boolean held something else.
    ExpectedBool,
    /// A field that must hold an array held something else.
    ExpectedArr,
    /// An integer field lay outside the range of its in-memory type.
    OutOfRange,
    /// A required field was absent.
    MissingField,
    /// A tagged union's discriminator named no known variant.
    UnknownDiscriminator,
    /// No alternative of an untagged union had its required fields present.
    NoVariantMatched,
}

/// A typed decode failure: the kind of failure and the field (or
/// discriminator) at which it was found.
#[derive(Debug, Clone, PartialEq, Eq)]
pub struct DecodeError {
    pub kind: DecodeErrorKind,
    pub field: String,
}

/// Mathematical model of a `DecodeError`.
#[verifier::ext_equal]
pub struct SpecDecodeError {
    pub kind: DecodeErrorKind,
    pub field: Seq<char>,
}

impl View for DecodeError {
    type V = SpecDecodeError;

    open spec fn view(&self) -> SpecDecodeError {
        SpecDecodeError { kind: self.kind, field: self.field@ }
    }
}

impl DeepView for DecodeError {
    type V = SpecDecodeError;

    open spec fn deep_view(&self) -> SpecDecodeError {
        self.view()
    }
}

impl DecodeError {
    /// The failure kind, for callers that dispatch on it.
    pub fn kind(&self) -> (k: DecodeErrorKind)
        ensures
            k == self@.kind,
    {
        self.kind
    }

    /// The field or discriminator at which decoding failed.
    pub fn field(&self) -> (f: &str)
        ensures
            f@ == self@.field,
    {
        self.field.as_str()
    }
}

pub open spec fn spec_err(kind: DecodeErrorKind, field: Seq<char>) -> SpecDecodeError {
    SpecDecodeError { kind, field }
}

/// Builds a `DecodeError` naming the given field.
pub fn mk_err(kind: DecodeErrorKind, field: &str) -> (r: DecodeError)
    ensures
        r@ == spec_err(kind, field@),
{
    DecodeError { kind, field: field.to_owned() }
}

/// The view of a decode result.
pub open spec fn res_view<T: View>(r: Result<T, DecodeError>) -> Result<T::V, SpecDecodeError> {
    match r {
        Ok(t) => Ok(t.view()),
        Err(e) => Err(e.view()),
    }
}

/// The view of a decode result, taking views pointwise into collections.
pub open spec fn res_deep_view<T: DeepView>(r: Result<T, DecodeError>) -> Result<
    T::V,
    SpecDecodeError,
> {
    match r {
        Ok(t) => Ok(t.deep_view()),
        Err(e) => Err(e.view()),
    }
}

/// Looks a key up in an object's entry list; the last occurrence wins, as
/// it does when wire objects are folded into a map.
pub open spec fn spec_get(es: Seq<(Seq<char>, SpecJson)>, k: Seq<char>) -> Option<SpecJson>
    decreases es.len(),
{
    if es.len() == 0 {
        None
    } else if es.last().0 == k {
        Some(es.last().1)
    } else {
        spec_get(es.drop_last(), k)
    }
}

pub broadcast proof fn lemma_spec_get_concat(
    a: Seq<(Seq<char>, SpecJson)>,
    b: Seq<(Seq<char>, SpecJson)>,
    k: Seq<char>,
)
    ensures
        #[trigger] spec_get(a + b, k) == match spec_get(b, k) {
            Some(v) => Some(v),
            None => spec_get(a, k),
        },
    decreases b.len(),
{
    if b.len() == 0 {
        assert(a + b =~= a);
    } else {
        assert((a + b).last() == b.last());
        if b.last().0 != k {
            assert((a + b).drop_last() =~= a + b.drop_last());
            lemma_spec_get_concat(a, b.drop_last(), k);
        }
    }
}

/// Fetches the value of `k` from an object's entries; `None` when `j` is
/// not an object or has no such key.
pub open spec fn spec_field(j: SpecJson, k: Seq<char>) -> Option<SpecJson> {
    match j {
        SpecJson::Obj(es) => spec_get(es, k),
        _ => None,
    }
}

impl JsonValue {
    /// Looks up a field of a JSON object by key; the last occurrence wins.
    /// Returns `None` when `self` is not an object or the key is absent.
    pub fn get_field<'a>(&'a self, k: &str) -> (r: Option<&'a JsonValue>)
        ensures
            match r {
                Some(v) => spec_field(self@, k@) == Some(v@),
                None => spec_field(self@, k@) is None,
            },
    {
        match self {
            JsonValue::Obj(es) => get_entry(es, k),
            _ => None,
        }
    }
}

/// Last-match lookup over an entry list.
pub fn get_entry<'a>(es: &'a Vec<(String, JsonValue)>, k: &str) -> (r: Option<&'a JsonValue>)
    ensures
        match r {
            Some(v) => spec_get(json_entries_view(es@), k@) == Some(v@),
            None => spec_get(json_entries_view(es@), k@) is None,
        },
{
    let ghost full = json_entries_view(es@);
    let mut i: usize = es.len();
    proof {
        assert(full.subrange(0, i as int) =~= full);
    }
    while i > 0
        invariant
            i <= es.len(),
            full == json_entries_view(es@),
            full.len() == es@.len(),
            spec_get(full, k@) == spec_get(full.subrange(0, i as int), k@),
        decreases i,
    {
        let ghost pre = full.subrange(0, i as int);
        proof {
            assert(pre.last() == full[i - 1]);
            assert(full[i - 1] == (es@[i - 1].0@, json_view(es@[i - 1].1)));
        }
        if str_eq(es[i - 1].0.as_str(), k) {
            return Some(&es[i - 1].1);
        }
        proof {
            assert(pre.drop_last() =~= full.subrange(0, i - 1));
        }
        i = i - 1;
    }
    proof {
        assert(full.subrange(0, 0).len() == 0);
    }
    None
}

/// A required string field.
pub open spec fn spec_req_str(es: Seq<(Seq<char>, SpecJson)>, k: Seq<char>) -> Result<
    Seq<char>,
    SpecDecodeError,
> {
    match spec_get(es, k) {
        Some(SpecJson::Str(s)) => Ok(s),
        Some(_) => Err(spec_err(DecodeErrorKind::ExpectedString, k)),
        None => Err(spec_err(DecodeErrorKind::MissingField, k)),
    }
}

/// An optional string field: an absent key and an explicit `null` both
/// mean "no value".
pub open spec fn spec_opt_str(es: Seq<(Seq<char>, SpecJson)>, k: Seq<char>) -> Result<
    Option<Seq<char>>,
    SpecDecodeError,
> {
    match spec_get(es, k) {
        None => Ok(None),
        Some(SpecJson::Null) => Ok(None),
        Some(SpecJson::Str(s)) => Ok(Some(s)),
        Some(_) => Err(spec_err(DecodeErrorKind::ExpectedString, k)),
    }
}

pub open spec fn spec_req_i64(es: Seq<(Seq<char>, SpecJson)>, k: Seq<char>) -> Result<
    i64,
    SpecDecodeError,
> {
    match spec_get(es, k) {
        Some(SpecJson::Int(i)) => Ok(i),
        Some(_) => Err(spec_err(DecodeErrorKind::ExpectedInt, k)),
        None => Err(spec_err(DecodeErrorKind::MissingField, k)),
    }
}

pub open spec fn spec_opt_i64(es: Seq<(Seq<char>, SpecJson)>, k: Seq<char>) -> Result<
    Option<i64>,
    SpecDecodeError,
> {
    match spec_get(es, k) {
        None => Ok(None),
        Some(SpecJson::Null) => Ok(None),
        Some(SpecJson::Int(i)) => Ok(Some(i)),
        Some(_) => Err(spec_err(DecodeErrorKind::ExpectedInt, k)),
    }
}

pub open spec fn spec_req_bool(es: Seq<(Seq<char>, SpecJson)>, k: Seq<char>) -> Result<
    bool,
    SpecDecodeError,
> {
    match spec_get(es, k) {
        Some(SpecJson::Bool(b)) => Ok(b),
        Some(_) => Err(spec_err(DecodeErrorKind::ExpectedBool, k)),
        None => Err(spec_err(DecodeErrorKind::MissingField, k)),
    }
}

pub open spec fn spec_opt_bool(es: Seq<(Seq<char>, SpecJson)>, k: Seq<char>) -> Result<
    Option<bool>,
    SpecDecodeError,
> {
    match spec_get(es, k) {
        None => Ok(None),
        Some(SpecJson::Null) => Ok(None),
        Some(SpecJson::Bool(b)) => Ok(Some(b)),
        Some(_) => Err(spec_err(DecodeErrorKind::ExpectedBool, k)),
    }
}

/// An optional field holding any JSON value: absent and `null` both mean
/// "no value"; anything else is taken as it stands.
pub open spec fn spec_opt_val(es: Seq<(Seq<char>, SpecJson)>, k: Seq<char>) -> Option<SpecJson> {
    match spec_get(es, k) {
        None => None,
        Some(SpecJson::Null) => None,
        Some(v) => Some(v),
    }
}

pub fn get_str_req(es: &Vec<(String, JsonValue)>, k: &str) -> (r: Result<String, DecodeError>)
    ensures
        res_view(r) == spec_req_str(json_entries_view(es@), k@),
{
    match get_entry(es, k) {
        Some(JsonValue::Str(s)) => Ok(s.clone()),
        Some(_) => Err(mk_err(DecodeErrorKind::ExpectedString, k)),
        None => Err(mk_err(DecodeErrorKind::MissingField, k)),
    }
}

pub fn get_str_opt(es: &Vec<(String, JsonValue)>, k: &str) -> (r: Result<
    Option<String>,
    DecodeError,
>)
    ensures
        res_deep_view(r) == spec_opt_str(json_entries_view(es@), k@),
{
    match get_entry(es, k) {
        None => Ok(None),
        Some(JsonValue::Null) => Ok(None),
        Some(JsonValue::Str(s)) => Ok(Some(s.clone())),
        Some(_) => Err(mk_err(DecodeErrorKind::ExpectedString, k)),
    }
}

pub fn get_i64_req(es: &Vec<(String, JsonValue)>, k: &str) -> (r: Result<i64, DecodeError>)
    ensures
        res_view(r) == spec_req_i64(json_entries_view(es@), k@),
{
    match get_entry(es, k) {
        Some(JsonValue::Int(i)) => Ok(*i),
        Some(_) => Err(mk_err(DecodeErrorKind::ExpectedInt, k)),
        None => Err(mk_err(DecodeErrorKind::MissingField, k)),
    }
}

pub fn get_i64_opt(es: &Vec<(String, JsonValue)>, k: &str) -> (r: Result<
    Option<i64>,
    DecodeError,
>)
    ensures
        res_deep_view(r) == spec_opt_i64(json_entries_view(es@), k@),
{
    match get_entry(es, k) {
        None => Ok(None),
        Some(JsonValue::Null) => Ok(None),
        Some(JsonValue::Int(i)) => Ok(Some(*i)),
        Some(_) => Err(mk_err(DecodeErrorKind::ExpectedInt, k)),
    }
}

pub fn get_bool_req(es: &Vec<(String, JsonValue)>, k: &str) -> (r: Result<bool, DecodeError>)
    ensures
        res_view(r) == spec_req_bool(json_entries_view(es@), k@),
{
    match get_entry(es, k) {
        Some(JsonValue::Bool(b)) => Ok(*b),
        Some(_) => Err(mk_err(DecodeErrorKind::ExpectedBool, k)),
        None => Err(mk_err(DecodeErrorKind::MissingField, k)),
    }
}

pub fn get_bool_opt(es: &Vec<(String, JsonValue)>, k: &str) -> (r: Result<
    Option<bool>,
    DecodeError,
>)
    ensures
        res_deep_view(r) == spec_opt_bool(json_entries_view(es@), k@),
{
    match get_entry(es, k) {
        None => Ok(None),
        Some(JsonValue::Null) => Ok(None),
        Some(JsonValue::Bool(b)) => Ok(Some(*b)),
        Some(_) => Err(mk_err(DecodeErrorKind::ExpectedBool, k)),
    }
}

/// Whether an object's keys stand in strictly ascending lexical order,
/// the stable order this crate's encoders emit.
pub open spec fn keys_sorted(es: Seq<(Seq<char>, SpecJson)>) -> bool {
    forall|i: int| 0 <= i < es.len() - 1 ==> lex_lt(#[trigger] es[i].0, es[i + 1].0)
}

// --- Entry groups: the spec-level shape of one encoded field. ---

pub open spec fn val_entry(k: Seq<char>, v: SpecJson) -> Seq<(Seq<char>, SpecJson)> {
    seq![(k, v)]
}

pub open spec fn str_entry(k: Seq<char>, s: Seq<char>) -> Seq<(Seq<char>, SpecJson)> {
    seq![(k, SpecJson::Str(s))]
}

pub open spec fn opt_str_entry(k: Seq<char>, o: Option<Seq<char>>) -> Seq<(Seq<char>, SpecJson)> {
    match o {
        Some(s) => str_entry(k, s),
        None => Seq::empty(),
    }
}

pub open spec fn int_entry(k: Seq<char>, i: i64) -> Seq<(Seq<char>, SpecJson)> {
    seq![(k, SpecJson::Int(i))]
}

pub open spec fn opt_int_entry(k: Seq<char>, o: Option<i64>) -> Seq<(Seq<char>, SpecJson)> {
    match o {
        Some(i) => int_entry(k, i),
        None => Seq::empty(),
    }
}

pub open spec fn bool_entry(k: Seq<char>, b: bool) -> Seq<(Seq<char>, SpecJson)> {
    seq![(k, SpecJson::Bool(b))]
}

pub open spec fn opt_bool_entry(k: Seq<char>, o: Option<bool>) -> Seq<(Seq<char>, SpecJson)> {
    match o {
        Some(b) => bool_entry(k, b),
        None => Seq::empty(),
    }
}

pub open spec fn opt_val_entry(k: Seq<char>, o: Option<SpecJson>) -> Seq<(Seq<char>, SpecJson)> {
    match o {
        Some(v) => val_entry(k, v),
        None => Seq::empty(),
    }
}

// --- Arrays of strings. ---

/// The encoded form of a list of strings.
pub open spec fn str_arr(ss: Seq<Seq<char>>) -> Seq<SpecJson> {
    Seq::new(ss.len(), |i: int| SpecJson::Str(ss[i]))
}

pub open spec fn str_arr_entry(k: Seq<char>, ss: Seq<Seq<char>>) -> Seq<(Seq<char>, SpecJson)> {
    seq![(k, SpecJson::Arr(str_arr(ss)))]
}

pub open spec fn opt_str_arr_entry(k: Seq<char>, o: Option<Seq<Seq<char>>>) -> Seq<
    (Seq<char>, SpecJson),
> {
    match o {
        Some(ss) => str_arr_entry(k, ss),
        None => Seq::empty(),
    }
}

/// Reads an array whose items must all be strings; `ctx` names the field
/// being read, for the error.
pub open spec fn spec_parse_str_arr(items: Seq<SpecJson>, ctx: Seq<char>) -> Result<
    Seq<Seq<char>>,
    SpecDecodeError,
>
    decreases items.len(),
{
    if items.len() == 0 {
        Ok(Seq::empty())
    } else {
        match spec_parse_str_arr(items.drop_last(), ctx) {
            Ok(pre) => match items.last() {
                SpecJson::Str(s) => Ok(pre.push(s)),
                _ => Err(spec_err(DecodeErrorKind::ExpectedString, ctx)),
            },
            Err(e) => Err(e),
        }
    }
}

pub proof fn lemma_parse_str_arr_err_shape(items: Seq<SpecJson>, ctx: Seq<char>)
    ensures
        spec_parse_str_arr(items, ctx) is Err ==> spec_parse_str_arr(items, ctx) == Err::<
            Seq<Seq<char>>,
            SpecDecodeError,
        >(spec_err(DecodeErrorKind::ExpectedString, ctx)),
    decreases items.len(),
{
    if items.len() > 0 {
        lemma_parse_str_arr_err_shape(items.drop_last(), ctx);
    }
}

pub proof fn lemma_parse_str_arr_err(items: Seq<SpecJson>, ctx: Seq<char>, i: int)
    requires
        0 <= i < items.len(),
        !(items[i] is Str),
    ensures
        spec_parse_str_arr(items, ctx) == Err::<Seq<Seq<char>>, SpecDecodeError>(
            spec_err(DecodeErrorKind::ExpectedString, ctx),
        ),
    decreases items.len(),
{
    if i == items.len() - 1 {
        lemma_parse_str_arr_err_shape(items.drop_last(), ctx);
    } else {
        lemma_parse_str_arr_err(items.drop_last(), ctx, i);
    }
}

pub broadcast proof fn lemma_parse_str_arr_rt(ss: Seq<Seq<char>>, ctx: Seq<char>)
    ensures
        #[trigger] spec_parse_str_arr(str_arr(ss), ctx) == Ok::<Seq<Seq<char>>, SpecDecodeError>(
            ss,
        ),
    decreases ss.len(),
{
    reveal_with_fuel(spec_parse_str_arr, 2);
    if ss.len() == 0 {
        assert(str_arr(ss).len() == 0);
        assert(ss =~= Seq::<Seq<char>>::empty());
    } else {
        assert(str_arr(ss).drop_last() =~= str_arr(ss.drop_last()));
        lemma_parse_str_arr_rt(ss.drop_last(), ctx);
        assert(spec_parse_str_arr(str_arr(ss).drop_last(), ctx) == Ok::<Seq<Seq<char>>, SpecDecodeError>(ss.drop_last()));
        assert(str_arr(ss).last() == SpecJson::Str(ss.last()));
        assert(ss.drop_last().push(ss.last()) =~= ss);
    }
}

/// Encodes a list of strings as a JSON array of strings.
pub fn encode_str_arr(v: &Vec<String>) -> (r: JsonValue)
    ensures
        r@ == SpecJson::Arr(str_arr(v.deep_view())),
{
    let mut out: Vec<JsonValue> = Vec::new();
    let mut i: usize = 0;
    while i < v.len()
        invariant
            i <= v.len(),
            out@.len() == i,
            forall|j: int| 0 <= j < i ==> json_view(out@[j]) == SpecJson::Str(v@[j]@),
        decreases v.len() - i,
    {
        out.push(JsonValue::Str(v[i].clone()));
        i += 1;
    }
    proof {
        assert(json_seq_view(out@) =~= str_arr(v.deep_view()));
    }
    JsonValue::Arr(out)
}

/// Decodes a JSON array whose items must all be strings.
pub fn parse_str_arr(items: &Vec<JsonValue>, ctx: &str) -> (r: Result<Vec<String>, DecodeError>)
    ensures
        res_deep_view(r) == spec_parse_str_arr(json_seq_view(items@), ctx@),
{
    let ghost g = json_seq_view(items@);
    let mut out: Vec<String> = Vec::new();
    let mut i: usize = 0;
    proof {
        assert(g.subrange(0, 0).len() == 0);
        assert(out.deep_view() =~= Seq::<Seq<char>>::empty());
    }
    while i < items.len()
        invariant
            i <= items.len(),
            g == json_seq_view(items@),
            g.len() == items@.len(),
            spec_parse_str_arr(g.subrange(0, i as int), ctx@) == Ok::<
                Seq<Seq<char>>,
                SpecDecodeError,
            >(out.deep_view()),
        decreases items.len() - i,
    {
        let ghost pre = g.subrange(0, i as int);
        let ghost cur = g.subrange(0, i + 1);
        proof {
            assert(cur.drop_last() =~= pre);
            assert(cur.last() == g[i as int]);
            assert(g[i as int] == json_view(items@[i as int]));
        }
        match &items[i] {
            JsonValue::Str(s) => {
                let ghost before = out.deep_view();
                out.push(s.clone());
                proof {
                    assert(out.deep_view() =~= before.push(s@));
                }
            },
            _ => {
                proof {
                    lemma_parse_str_arr_err(g, ctx@, i as int);
                }
                return Err(mk_err(DecodeErrorKind::ExpectedString, ctx));
            },
        }
        i += 1;
    }
    proof {
        assert(g.subrange(0, items@.len() as int) =~= g);
    }
    Ok(out)
}

/// A required field holding an array of strings.
pub open spec fn spec_req_str_arr(es: Seq<(Seq<char>, SpecJson)>, k: Seq<char>) -> Result<
    Seq<Seq<char>>,
    SpecDecodeError,
> {
    match spec_get(es, k) {
        Some(SpecJson::Arr(items)) => spec_parse_str_arr(items, k),
        Some(_) => Err(spec_err(DecodeErrorKind::ExpectedArr, k)),
        None => Err(spec_err(DecodeErrorKind::MissingField, k)),
    }
}

/// An optional field holding an array of strings.
pub open spec fn spec_opt_str_arr(es: Seq<(Seq<char>, SpecJson)>, k: Seq<char>) -> Result<
    Option<Seq<Seq<char>>>,
    SpecDecodeError,
> {
    match spec_get(es, k) {
        None => Ok(None),
        Some(SpecJson::Null) => Ok(None),
        Some(SpecJson::Arr(items)) => match spec_parse_str_arr(items, k) {
            Ok(ss) => Ok(Some(ss)),
            Err(e) => Err(e),
        },
        Some(_) => Err(spec_err(DecodeErrorKind::ExpectedArr, k)),
    }
}

pub fn get_str_arr_req(es: &Vec<(String, JsonValue)>, k: &str) -> (r: Result<
    Vec<String>,
    DecodeError,
>)
    ensures
        res_deep_view(r) == spec_req_str_arr(json_entries_view(es@), k@),
{
    match get_entry(es, k) {
        Some(JsonValue::Arr(items)) => parse_str_arr(items, k),
        Some(_) => Err(mk_err(DecodeErrorKind::ExpectedArr, k)),
        None => Err(mk_err(DecodeErrorKind::MissingField, k)),
    }
}

pub fn get_str_arr_opt(es: &Vec<(String, JsonValue)>, k: &str) -> (r: Result<
    Option<Vec<String>>,
    DecodeError,
>)
    ensures
        res_deep_view(r) == spec_opt_str_arr(json_entries_view(es@), k@),
{
    match get_entry(es, k) {
        None => Ok(None),
        Some(JsonValue::Null) => Ok(None),
        Some(JsonValue::Arr(items)) => match parse_str_arr(items, k) {
            Ok(ss) => Ok(Some(ss)),
            Err(e) => Err(e),
        },
        Some(_) => Err(mk_err(DecodeErrorKind::ExpectedArr, k)),
    }
}

// --- String-to-string maps. ---

/// The encoded form of a [`StrMap`]: an object whose values are strings.
pub open spec fn strmap_entries(m: Seq<(Seq<char>, Seq<char>)>) -> Seq<(Seq<char>, SpecJson)> {
    Seq::new(m.len(), |i: int| (m[i].0, SpecJson::Str(m[i].1)))
}

pub open spec fn strmap_entry(k: Seq<char>, m: Seq<(Seq<char>, Seq<char>)>) -> Seq<
    (Seq<char>, SpecJson),
> {
    seq![(k, SpecJson::Obj(strmap_entries(m)))]
}

pub open spec fn opt_strmap_entry(k: Seq<char>, o: Option<Seq<(Seq<char>, Seq<char>)>>) -> Seq<
    (Seq<char>, SpecJson),
> {
    match o {
        Some(m) => strmap_entry(k, m),
        None => Seq::empty(),
    }
}

/// Reads an object whose values must all be strings, folding the
/// entries into the canonical ascending key order; a repeated key keeps
/// its last value, as when wire objects are folded into a map.  `ctx`
/// names the field being read, for the error.
pub open spec fn spec_parse_str_map(es: Seq<(Seq<char>, SpecJson)>, ctx: Seq<char>) -> Result<
    Seq<(Seq<char>, Seq<char>)>,
    SpecDecodeError,
>
    decreases es.len(),
{
    if es.len() == 0 {
        Ok(Seq::empty())
    } else {
        match spec_parse_str_map(es.drop_last(), ctx) {
            Ok(pre) => match es.last().1 {
                SpecJson::Str(s) => Ok(map_insert(pre, es.last().0, s)),
                _ => Err(spec_err(DecodeErrorKind::ExpectedString, ctx)),
            },
            Err(e) => Err(e),
        }
    }
}

pub proof fn lemma_parse_str_map_err_shape(es: Seq<(Seq<char>, SpecJson)>, ctx: Seq<char>)
    ensures
        spec_parse_str_map(es, ctx) is Err ==> spec_parse_str_map(es, ctx) == Err::<
            Seq<(Seq<char>, Seq<char>)>,
            SpecDecodeError,
        >(spec_err(DecodeErrorKind::ExpectedString, ctx)),
    decreases es.len(),
{
    if es.len() > 0 {
        lemma_parse_str_map_err_shape(es.drop_last(), ctx);
    }
}

pub proof fn lemma_parse_str_map_err(es: Seq<(Seq<char>, SpecJson)>, ctx: Seq<char>, i: int)
    requires
        0 <= i < es.len(),
        !(es[i].1 is Str),
    ensures
        spec_parse_str_map(es, ctx) == Err::<Seq<(Seq<char>, Seq<char>)>, SpecDecodeError>(
            spec_err(DecodeErrorKind::ExpectedString, ctx),
        ),
    decreases es.len(),
{
    if i == es.len() - 1 {
        lemma_parse_str_map_err_shape(es.drop_last(), ctx);
    } else {
        lemma_parse_str_map_err(es.drop_last(), ctx, i);
    }
}

pub broadcast proof fn lemma_parse_str_map_rt(m: Seq<(Seq<char>, Seq<char>)>, ctx: Seq<char>)
    requires
        strmap_wf(m),
    ensures
        #[trigger] spec_parse_str_map(strmap_entries(m), ctx) == Ok::<
            Seq<(Seq<char>, Seq<char>)>,
            SpecDecodeError,
        >(m),
    decreases m.len(),
{
    reveal_with_fuel(spec_parse_str_map, 2);
    if m.len() == 0 {
        assert(strmap_entries(m).len() == 0);
        assert(m =~= Seq::<(Seq<char>, Seq<char>)>::empty());
    } else {
        assert(strmap_entries(m).drop_last() =~= strmap_entries(m.drop_last()));
        assert(strmap_wf(m.drop_last())) by {
            assert(forall|i: int|
                0 <= i < m.drop_last().len() ==> #[trigger] m.drop_last()[i] == m[i]);
        }
        lemma_parse_str_map_rt(m.drop_last(), ctx);
        assert(spec_parse_str_map(strmap_entries(m).drop_last(), ctx) == Ok::<Seq<(Seq<char>, Seq<char>)>, SpecDecodeError>(m.drop_last()));
        assert(strmap_entries(m).last() == (m.last().0, SpecJson::Str(m.last().1)));
        assert forall|i: int| 0 <= i < m.drop_last().len() implies lex_lt(
            #[trigger] m.drop_last()[i].0,
            m.last().0,
        ) by {
            crate::util_types::lemma_keys_ascending_pairwise(m, i, m.len() - 1);
        }
        crate::util_types::lemma_map_insert_append(m.drop_last(), m.last().0, m.last().1);
        assert(m.drop_last().push((m.last().0, m.last().1)) =~= m);
    }
}

/// Encodes a [`StrMap`] as a JSON object of strings.
pub fn encode_str_map(m: &StrMap) -> (r: JsonValue)
    ensures
        r@ == SpecJson::Obj(strmap_entries(m@)),
{
    let mut out: Vec<(String, JsonValue)> = Vec::new();
    let mut i: usize = 0;
    while i < m.entries.len()
        invariant
            i <= m.entries.len(),
            out@.len() == i,
            forall|j: int|
                0 <= j < i ==> out@[j].0@ == m.entries@[j].0@ && json_view(out@[j].1)
                    == SpecJson::Str(m.entries@[j].1@),
        decreases m.entries.len() - i,
    {
        out.push((m.entries[i].0.clone(), JsonValue::Str(m.entries[i].1.clone())));
        i += 1;
    }
    proof {
        assert(json_entries_view(out@) =~= strmap_entries(m@));
    }
    JsonValue::Obj(out)
}

/// Decodes a JSON object whose values must all be strings.
pub fn parse_str_map(es: &Vec<(String, JsonValue)>, ctx: &str) -> (r: Result<StrMap, DecodeError>)
    ensures
        res_deep_view(r) == spec_parse_str_map(json_entries_view(es@), ctx@),
{
    let ghost g = json_entries_view(es@);
    let mut out = StrMap::new();
    let mut i: usize = 0;
    proof {
        assert(g.subrange(0, 0).len() == 0);
    }
    while i < es.len()
        invariant
            i <= es.len(),
            g == json_entries_view(es@),
            g.len() == es@.len(),
            spec_parse_str_map(g.subrange(0, i as int), ctx@) == Ok::<
                Seq<(Seq<char>, Seq<char>)>,
                SpecDecodeError,
            >(out@),
        decreases es.len() - i,
    {
        let ghost pre = g.subrange(0, i as int);
        let ghost cur = g.subrange(0, i + 1);
        proof {
            assert(cur.drop_last() =~= pre);
            assert(cur.last() == g[i as int]);
            assert(g[i as int] == (es@[i as int].0@, json_view(es@[i as int].1)));
        }
        match &es[i].1 {
            JsonValue::Str(s) => {
                out.insert(es[i].0.as_str(), s.as_str());
            },
            _ => {
                proof {
                    lemma_parse_str_map_err(g, ctx@, i as int);
                }
                return Err(mk_err(DecodeErrorKind::ExpectedString, ctx));
            },
        }
        i += 1;
    }
    proof {
        assert(g.subrange(0, es@.len() as int) =~= g);
    }
    Ok(out)
}

/// Whether an optional string map, if present, stands in the canonical
/// ascending key order.
pub open spec fn opt_strmap_wf(o: Option<Seq<(Seq<char>, Seq<char>)>>) -> bool {
    match o {
        Some(m) => strmap_wf(m),
        None => true,
    }
}

/// Whatever object decoding folds up is itself canonical: an `Ok` of
/// the string-map reader always satisfies [`strmap_wf`].
pub proof fn lemma_parse_str_map_canonical(es: Seq<(Seq<char>, SpecJson)>, ctx: Seq<char>)
    ensures
        match spec_parse_str_map(es, ctx) {
            Ok(m) => strmap_wf(m),
            Err(_) => true,
        },
    decreases es.len(),
{
    if es.len() > 0 {
        lemma_parse_str_map_canonical(es.drop_last(), ctx);
        match spec_parse_str_map(es.drop_last(), ctx) {
            Ok(pre) => match es.last().1 {
                SpecJson::Str(sv) => {
                    crate::util_types::lemma_map_insert_ascending(pre, es.last().0, sv);
                },
                _ => (),
            },
            Err(_) => (),
        }
    }
}

/// A well-formed string map encodes with its keys in strictly ascending
/// lexical order, the stable order reproducible output requires.
pub proof fn lemma_strmap_entries_sorted(m: Seq<(Seq<char>, Seq<char>)>)
    requires
        strmap_wf(m),
    ensures
        keys_sorted(strmap_entries(m)),
{
    assert(forall|i: int|
        0 <= i < m.len() ==> (#[trigger] strmap_entries(m)[i]).0 == m[i].0);
}

/// A required field holding a string-to-string object.
pub open spec fn spec_req_strmap(es: Seq<(Seq<char>, SpecJson)>, k: Seq<char>) -> Result<
    Seq<(Seq<char>, Seq<char>)>,
    SpecDecodeError,
> {
    match spec_get(es, k) {
        Some(SpecJson::Obj(me)) => spec_parse_str_map(me, k),
        Some(_) => Err(spec_err(DecodeErrorKind::ExpectedObject, k)),
        None => Err(spec_err(DecodeErrorKind::MissingField, k)),
    }
}

/// An optional field holding a string-to-string object.
pub open spec fn spec_opt_strmap(es: Seq<(Seq<char>, SpecJson)>, k: Seq<char>) -> Result<
    Option<Seq<(Seq<char>, Seq<char>)>>,
    SpecDecodeError,
> {
    match spec_get(es, k) {
        None => Ok(None),
        Some(SpecJson::Null) => Ok(None),
        Some(SpecJson::Obj(me)) => match spec_parse_str_map(me, k) {
            Ok(m) => Ok(Some(m)),
            Err(e) => Err(e),
        },
        Some(_) => Err(spec_err(DecodeErrorKind::ExpectedObject, k)),
    }
}

pub fn get_strmap_req(es: &Vec<(String, JsonValue)>, k: &str) -> (r: Result<StrMap, DecodeError>)
    ensures
        res_deep_view(r) == spec_req_strmap(json_entries_view(es@), k@),
{
    match get_entry(es, k) {
        Some(JsonValue::Obj(me)) => parse_str_map(me, k),
        Some(_) => Err(mk_err(DecodeErrorKind::ExpectedObject, k)),
        None => Err(mk_err(DecodeErrorKind::MissingField, k)),
    }
}

pub fn get_strmap_opt(es: &Vec<(String, JsonValue)>, k: &str) -> (r: Result<
    Option<StrMap>,
    DecodeError,
>)
    ensures
        res_deep_view(r) == spec_opt_strmap(json_entries_view(es@), k@),
{
    match get_entry(es, k) {
        None => Ok(None),
        Some(JsonValue::Null) => Ok(None),
        Some(JsonValue::Obj(me)) => match parse_str_map(me, k) {
            Ok(m) => Ok(Some(m)),
            Err(e) => Err(e),
        },
        Some(_) => Err(mk_err(DecodeErrorKind::ExpectedObject, k)),
    }
}

// --- Lookup over a single entry group, for the round-trip proofs. ---

pub broadcast proof fn lemma_get_val_entry(k2: Seq<char>, v: SpecJson, k: Seq<char>)
    ensures
        #[trigger] spec_get(val_entry(k2, v), k) == if k2 == k {
            Some(v)
        } else {
            None::<SpecJson>
        },
{
    reveal_with_fuel(spec_get, 3);
}

pub broadcast proof fn lemma_get_opt_val_entry(k2: Seq<char>, o: Option<SpecJson>, k: Seq<char>)
    ensures
        #[trigger] spec_get(opt_val_entry(k2, o), k) == match o {
            Some(v) => if k2 == k {
                Some(v)
            } else {
                None::<SpecJson>
            },
            None => None::<SpecJson>,
        },
{
    reveal_with_fuel(spec_get, 3);
}

pub broadcast proof fn lemma_get_str_entry(k2: Seq<char>, s: Seq<char>, k: Seq<char>)
    ensures
        #[trigger] spec_get(str_entry(k2, s), k) == if k2 == k {
            Some(SpecJson::Str(s))
        } else {
            None::<SpecJson>
        },
{
    reveal_with_fuel(spec_get, 3);
}

pub broadcast proof fn lemma_get_opt_str_entry(k2: Seq<char>, o: Option<Seq<char>>, k: Seq<char>)
    ensures
        #[trigger] spec_get(opt_str_entry(k2, o), k) == match o {
            Some(s) => if k2 == k {
                Some(SpecJson::Str(s))
            } else {
                None::<SpecJson>
            },
            None => None::<SpecJson>,
        },
{
    reveal_with_fuel(spec_get, 3);
}

pub broadcast proof fn lemma_get_int_entry(k2: Seq<char>, i: i64, k: Seq<char>)
    ensures
        #[trigger] spec_get(int_entry(k2, i), k) == if k2 == k {
            Some(SpecJson::Int(i))
        } else {
            None::<SpecJson>
        },
{
    reveal_with_fuel(spec_get, 3);
}

pub broadcast proof fn lemma_get_opt_int_entry(k2: Seq<char>, o: Option<i64>, k: Seq<char>)
    ensures
        #[trigger] spec_get(opt_int_entry(k2, o), k) == match o {
            Some(i) => if k2 == k {
                Some(SpecJson::Int(i))
            } else {
                None::<SpecJson>
            },
            None => None::<SpecJson>,
        },
{
    reveal_with_fuel(spec_get, 3);
}

pub broadcast proof fn lemma_get_bool_entry(k2: Seq<char>, b: bool, k: Seq<char>)
    ensures
        #[trigger] spec_get(bool_entry(k2, b), k) == if k2 == k {
            Some(SpecJson::Bool(b))
        } else {
            None::<SpecJson>
        },
{
    reveal_with_fuel(spec_get, 3);
}

pub broadcast proof fn lemma_get_opt_bool_entry(k2: Seq<char>, o: Option<bool>, k: Seq<char>)
    ensures
        #[trigger] spec_get(opt_bool_entry(k2, o), k) == match o {
            Some(b) => if k2 == k {
                Some(SpecJson::Bool(b))
            } else {
                None::<SpecJson>
            },
            None => None::<SpecJson>,
        },
{
    reveal_with_fuel(spec_get, 3);
}

pub broadcast proof fn lemma_get_str_arr_entry(k2: Seq<char>, ss: Seq<Seq<char>>, k: Seq<char>)
    ensures
        #[trigger] spec_get(str_arr_entry(k2, ss), k) == if k2 == k {
            Some(SpecJson::Arr(str_arr(ss)))
        } else {
            None::<SpecJson>
        },
{
    reveal_with_fuel(spec_get, 3);
}

pub broadcast proof fn lemma_get_opt_str_arr_entry(
    k2: Seq<char>,
    o: Option<Seq<Seq<char>>>,
    k: Seq<char>,
)
    ensures
        #[trigger] spec_get(opt_str_arr_entry(k2, o), k) == match o {
            Some(ss) => if k2 == k {
                Some(SpecJson::Arr(str_arr(ss)))
            } else {
                None::<SpecJson>
            },
            None => None::<SpecJson>,
        },
{
    reveal_with_fuel(spec_get, 3);
}

pub broadcast proof fn lemma_get_strmap_entry(
    k2: Seq<char>,
    m: Seq<(Seq<char>, Seq<char>)>,
    k: Seq<char>,
)
    ensures
        #[trigger] spec_get(strmap_entry(k2, m), k) == if k2 == k {
            Some(SpecJson::Obj(strmap_entries(m)))
        } else {
            None::<SpecJson>
        },
{
    reveal_with_fuel(spec_get, 3);
}

pub broadcast proof fn lemma_get_opt_strmap_entry(
    k2: Seq<char>,
    o: Option<Seq<(Seq<char>, Seq<char>)>>,
    k: Seq<char>,
)
    ensures
        #[trigger] spec_get(opt_strmap_entry(k2, o), k) == match o {
            Some(m) => if k2 == k {
                Some(SpecJson::Obj(strmap_entries(m)))
            } else {
                None::<SpecJson>
            },
            None => None::<SpecJson>,
        },
{
    reveal_with_fuel(spec_get, 3);
}

/// Evaluates `spec_get` over concatenations of the entry groups the
/// encoders emit, without unfolding the lookup's recursion.
pub broadcast group group_entry_lookup {
    lemma_spec_get_concat,
    lemma_get_val_entry,
    lemma_get_opt_val_entry,
    lemma_get_str_entry,
    lemma_get_opt_str_entry,
    lemma_get_int_entry,
    lemma_get_opt_int_entry,
    lemma_get_bool_entry,
    lemma_get_opt_bool_entry,
    lemma_get_str_arr_entry,
    lemma_get_opt_str_arr_entry,
    lemma_get_strmap_entry,
    lemma_get_opt_strmap_entry,
}

/// Builds a JSON object field by field; its view is the entry list built
/// so far, so an encoder's body mirrors its contract group by group.
pub struct ObjBuilder {
    entries: Vec<(String, JsonValue)>,
}

impl View for ObjBuilder {
    type V = Seq<(Seq<char>, SpecJson)>;

    closed spec fn view(&self) -> Seq<(Seq<char>, SpecJson)> {
        json_entries_view(self.entries@)
    }
}

impl ObjBuilder {
    pub fn new() -> (r: ObjBuilder)
        ensures
            r@ == Seq::<(Seq<char>, SpecJson)>::empty(),
    {
        let r = ObjBuilder { entries: Vec::new() };
        proof {
            assert(r@ =~= Seq::<(Seq<char>, SpecJson)>::empty());
        }
        r
    }

    pub fn push_val(&mut self, k: &str, v: JsonValue)
        ensures
            final(self)@ == old(self)@ + val_entry(k@, v@),
    {
        let ghost before = self.entries@;
        self.entries.push((k.to_owned(), v));
        proof {
            assert(self.entries@.drop_last() =~= before);
            assert(self@ =~= old(self)@ + val_entry(k@, json_view(self.entries@.last().1)));
        }
    }

    pub fn push_str(&mut self, k: &str, s: &str)
        ensures
            final(self)@ == old(self)@ + str_entry(k@, s@),
    {
        self.push_val(k, JsonValue::Str(s.to_owned()));
    }

    pub fn push_opt_str(&mut self, k: &str, o: &Option<String>)
        ensures
            final(self)@ == old(self)@ + opt_str_entry(k@, o.deep_view()),
    {
        match o {
            Some(s) => self.push_str(k, s.as_str()),
            None => {
                proof {
                    assert(self@ =~= old(self)@ + opt_str_entry(k@, o.deep_view()));
                }
            },
        }
    }

    pub fn push_int(&mut self, k: &str, i: i64)
        ensures
            final(self)@ == old(self)@ + int_entry(k@, i),
    {
        self.push_val(k, JsonValue::Int(i));
    }

    pub fn push_opt_int(&mut self, k: &str, o: &Option<i64>)
        ensures
            final(self)@ == old(self)@ + opt_int_entry(k@, *o),
    {
        match o {
            Some(i) => self.push_int(k, *i),
            None => {
                proof {
                    assert(self@ =~= old(self)@ + opt_int_entry(k@, *o));
                }
            },
        }
    }

    pub fn push_bool(&mut self, k: &str, b: bool)
        ensures
            final(self)@ == old(self)@ + bool_entry(k@, b),
    {
        self.push_val(k, JsonValue::Bool(b));
    }

    pub fn push_opt_bool(&mut self, k: &str, o: &Option<bool>)
        ensures
            final(self)@ == old(self)@ + opt_bool_entry(k@, *o),
    {
        match o {
            Some(b) => self.push_bool(k, *b),
            None => {
                proof {
                    assert(self@ =~= old(self)@ + opt_bool_entry(k@, *o));
                }
            },
        }
    }

    pub fn push_str_arr(&mut self, k: &str, v: &Vec<String>)
        ensures
            final(self)@ == old(self)@ + str_arr_entry(k@, v.deep_view()),
    {
        self.push_val(k, encode_str_arr(v));
    }

    pub fn push_opt_str_arr(&mut self, k: &str, o: &Option<Vec<String>>)
        ensures
            final(self)@ == old(self)@ + opt_str_arr_entry(k@, o.deep_view()),
    {
        match o {
            Some(v) => self.push_str_arr(k, v),
            None => {
                proof {
                    assert(self@ =~= old(self)@ + opt_str_arr_entry(k@, o.deep_view()));
                }
            },
        }
    }

    pub fn push_str_map(&mut self, k: &str, m: &StrMap)
        ensures
            final(self)@ == old(self)@ + strmap_entry(k@, m@),
    {
        self.push_val(k, encode_str_map(m));
    }

    pub fn push_opt_str_map(&mut self, k: &str, o: &Option<StrMap>)
        ensures
            final(self)@ == old(self)@ + opt_strmap_entry(k@, o.deep_view()),
    {
        match o {
            Some(m) => self.push_str_map(k, m),
            None => {
                proof {
                    assert(self@ =~= old(self)@ + opt_strmap_entry(k@, o.deep_view()));
                }
            },
        }
    }

    /// Splices a string map's entries directly into the object under
    /// construction, as the open extension fields of a record are.
    pub fn push_flat_str_map(&mut self, m: &StrMap)
        ensures
            final(self)@ == old(self)@ + strmap_entries(m@),
    {
        let ghost base = self@;
        let mut i: usize = 0;
        proof {
            assert(self@ =~= base + strmap_entries(m@).subrange(0, 0));
        }
        while i < m.entries.len()
            invariant
                i <= m.entries.len(),
                m@.len() == m.entries@.len(),
                self@ == base + strmap_entries(m@).subrange(0, i as int),
            decreases m.entries.len() - i,
        {
            let ghost before = self@;
            self.push_val(m.entries[i].0.as_str(), JsonValue::Str(m.entries[i].1.clone()));
            proof {
                assert(strmap_entries(m@).subrange(0, i + 1).drop_last() =~= strmap_entries(
                    m@,
                ).subrange(0, i as int));
                assert(strmap_entries(m@).subrange(0, i + 1).last() == (
                    m@[i as int].0,
                    SpecJson::Str(m@[i as int].1),
                ));
                assert(self@ =~= base + strmap_entries(m@).subrange(0, i + 1));
            }
            i += 1;
        }
        proof {
            assert(strmap_entries(m@).subrange(0, m.entries@.len() as int) =~= strmap_entries(m@));
        }
    }

    pub fn finish(self) -> (r: JsonValue)
        ensures
            r@ == SpecJson::Obj(self@),
    {
        JsonValue::Obj(self.entries)
    }
}

} // verus!
