//! The JSON document model that the wire encoding targets.
//!
//! `JsonValue` is the executable tree; `SpecJson` is its mathematical
//! counterpart, reached through `view`.  Objects keep their fields as an
//! ordered list of key/value pairs, so the encoders can commit to a stable,
//! ascending key order.

use vstd::prelude::*;

verus! {

broadcast use vstd::std_specs::vec::group_vec_axioms;

/// Mathematical model of a JSON document: the view of a `JsonValue`.
#[verifier::ext_equal]
pub enum SpecJson {
    Null,
    Bool(bool),
    Int(i64),
    Str(Seq<char>),
    Arr(Seq<SpecJson>),
    Obj(Seq<(Seq<char>, SpecJson)>),
}

/// A JSON document.  Numbers are modelled as signed 64-bit integers, which
/// covers every numeric field of this protocol.  An object is an ordered
/// list of key/value pairs; the encoders in this crate emit keys in
/// ascending lexical order.
#[derive(Debug, PartialEq, Eq)]
pub enum JsonValue {
    Null,
    Bool(bool),
    Int(i64),
    Str(String),
    Arr(Vec<JsonValue>),
    Obj(Vec<(String, JsonValue)>),
}

pub open spec fn json_view(v: JsonValue) -> SpecJson
    decreases v,
{
    match v {
        JsonValue::Null => SpecJson::Null,
        JsonValue::Bool(b) => SpecJson::Bool(b),
        JsonValue::Int(i) => SpecJson::Int(i),
        JsonValue::Str(s) => SpecJson::Str(s@),
        JsonValue::Arr(items) => SpecJson::Arr(json_seq_view(items@)),
        JsonValue::Obj(entries) => SpecJson::Obj(json_entries_view(entries@)),
    }
}

pub open spec fn json_seq_view(s: Seq<JsonValue>) -> Seq<SpecJson>
    decreases s,
{
    if s.len() == 0 {
        Seq::empty()
    } else {
        json_seq_view(s.drop_last()).push(json_view(s.last()))
    }
}

pub open spec fn json_entries_view(s: Seq<(String, JsonValue)>) -> Seq<(Seq<char>, SpecJson)>
    decreases s,
{
    if s.len() == 0 {
        Seq::empty()
    } else {
        json_entries_view(s.drop_last()).push((s.last().0@, json_view(s.last().1)))
    }
}

impl View for JsonValue {
    type V = SpecJson;

    open spec fn view(&self) -> SpecJson {
        json_view(*self)
    }
}

impl DeepView for JsonValue {
    type V = SpecJson;

    open spec fn deep_view(&self) -> SpecJson {
        self.view()
    }
}

pub broadcast proof fn lemma_json_seq_view_len(s: Seq<JsonValue>)
    ensures
        (#[trigger] json_seq_view(s)).len() == s.len(),
    decreases s,
{
    if s.len() > 0 {
        lemma_json_seq_view_len(s.drop_last());
    }
}

pub broadcast proof fn lemma_json_seq_view_index(s: Seq<JsonValue>, i: int)
    requires
        0 <= i < s.len(),
    ensures
        #[trigger] json_seq_view(s)[i] == json_view(s[i]),
    decreases s,
{
    lemma_json_seq_view_len(s);
    if i < s.len() - 1 {
        lemma_json_seq_view_index(s.drop_last(), i);
    }
}

pub broadcast proof fn lemma_json_entries_view_len(s: Seq<(String, JsonValue)>)
    ensures
        (#[trigger] json_entries_view(s)).len() == s.len(),
    decreases s,
{
    if s.len() > 0 {
        lemma_json_entries_view_len(s.drop_last());
    }
}

pub broadcast proof fn lemma_json_entries_view_index(s: Seq<(String, JsonValue)>, i: int)
    requires
        0 <= i < s.len(),
    ensures
        #[trigger] json_entries_view(s)[i] == (s[i].0@, json_view(s[i].1)),
    decreases s,
{
    lemma_json_entries_view_len(s);
    if i < s.len() - 1 {
        lemma_json_entries_view_index(s.drop_last(), i);
    }
}

pub broadcast group group_json_view_lemmas {
    lemma_json_seq_view_len,
    lemma_json_seq_view_index,
    lemma_json_entries_view_len,
    lemma_json_entries_view_index,
}

impl JsonValue {
    /// Structural copy of a JSON document; the copy has the same view.
    pub fn deep_clone(&self) -> (r: JsonValue)
        ensures
            r@ == self@,
        decreases self,
    {
        match self {
            JsonValue::Null => JsonValue::Null,
            JsonValue::Bool(b) => JsonValue::Bool(*b),
            JsonValue::Int(i) => JsonValue::Int(*i),
            JsonValue::Str(s) => JsonValue::Str(s.clone()),
            JsonValue::Arr(items) => {
                let mut out: Vec<JsonValue> = Vec::new();
                let mut idx: usize = 0;
                while idx < items.len()
                    invariant
                        idx <= items.len(),
                        out@.len() == idx,
                        *self == JsonValue::Arr(*items),
                        forall|j: int| 0 <= j < idx ==> json_view(out@[j]) == json_view(items@[j]),
                    decreases items.len() - idx,
                {
                    proof {
                        assert(decreases_to!(*self => (*self)->Arr_0));
                        assert((*self)->Arr_0 == *items);
                        assert(decreases_to!(*items => items@[idx as int]));
                        assert(decreases_to!(*self => items@[idx as int]));
                    }
                    out.push(items[idx].deep_clone());
                    idx += 1;
                }
                proof {
                    broadcast use group_json_view_lemmas;

                    assert(json_seq_view(out@) =~= json_seq_view(items@));
                }
                JsonValue::Arr(out)
            },
            JsonValue::Obj(entries) => {
                let mut out: Vec<(String, JsonValue)> = Vec::new();
                let mut idx: usize = 0;
                while idx < entries.len()
                    invariant
                        idx <= entries.len(),
                        out@.len() == idx,
                        *self == JsonValue::Obj(*entries),
                        forall|j: int|
                            0 <= j < idx ==> out@[j].0@ == entries@[j].0@ && json_view(out@[j].1)
                                == json_view(entries@[j].1),
                    decreases entries.len() - idx,
                {
                    proof {
                        assert(decreases_to!(*self => (*self)->Obj_0));
                        assert((*self)->Obj_0 == *entries);
                        assert(decreases_to!(*entries => entries@[idx as int]));
                        assert(decreases_to!(entries@[idx as int] => entries@[idx as int].1));
                        assert(decreases_to!(*self => entries@[idx as int].1));
                    }
                    out.push((entries[idx].0.clone(), entries[idx].1.deep_clone()));
                    idx += 1;
                }
                proof {
                    broadcast use group_json_view_lemmas;

                    assert(json_entries_view(out@) =~= json_entries_view(entries@));
                }
                JsonValue::Obj(out)
            },
        }
    }
}

/// String equality, specified on the views.
pub fn str_eq(a: &str, b: &str) -> (r: bool)
    ensures
        r == (a@ == b@),
{
    let a_len = a.unicode_len();
    let b_len = b.unicode_len();
    if a_len != b_len {
        return false;
    }
    let mut i: usize = 0;
    while i < a_len
        invariant
            a_len == a@.len(),
            b_len == b@.len(),
            a_len == b_len,
            i <= a_len,
            forall|j: int| 0 <= j < i ==> a@[j] == b@[j],
        decreases a_len - i,
    {
        if a.get_char(i) != b.get_char(i) {
            return false;
        }
        i += 1;
    }
    proof {
        assert(a@ =~= b@);
    }
    true
}

} // verus!
