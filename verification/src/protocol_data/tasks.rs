//! The task record: a long-running unit of work with its status, history
//! and artifacts.

use vstd::prelude::*;

use crate::codec::DecodeError;
use crate::codec::DecodeErrorKind;
use crate::codec::ObjBuilder;
use crate::codec::SpecDecodeError;
use crate::codec::get_entry;
use crate::codec::get_str_req;
use crate::codec::get_strmap_opt;
use crate::codec::mk_err;
use crate::codec::opt_strmap_entry;
use crate::codec::res_deep_view;
use crate::codec::spec_err;
use crate::codec::spec_get;
use crate::codec::spec_opt_strmap;
use crate::codec::spec_req_str;
use crate::codec::str_entry;
use crate::codec::strmap_entries;
use crate::codec::val_entry;
use crate::json::JsonValue;
use crate::json::SpecJson;
use crate::json::json_seq_view;
use crate::json::json_view;
use crate::protocol_data::artifact::Artifact;
use crate::protocol_data::artifact::SpecArtifact;
use crate::protocol_data::artifact::artifacts_arr;
use crate::protocol_data::artifact::encode_artifacts;
use crate::protocol_data::artifact::lemma_artifacts_arr_round_trip;
use crate::protocol_data::artifact::parse_artifacts;
use crate::protocol_data::artifact::spec_parse_artifacts;
use crate::protocol_data::message::Message;
use crate::protocol_data::message::SpecMessage;
use crate::protocol_data::message::lemma_message_round_trip;
use crate::protocol_data::message::spec_decode_message;
use crate::protocol_data::message::spec_encode_message;
use crate::protocol_data::task_status::SpecTaskStatus;
use crate::protocol_data::task_status::TaskStatus;
use crate::protocol_data::task_status::lemma_task_status_round_trip;
use crate::protocol_data::task_status::spec_decode_task_status;
use crate::protocol_data::task_status::spec_encode_task_status;
use crate::util_types::StrMap;

verus! {

broadcast use {vstd::std_specs::vec::group_vec_axioms, crate::json::group_json_view_lemmas};

/// The encoded form of a list of messages.
pub open spec fn messages_arr(vs: Seq<SpecMessage>) -> Seq<SpecJson> {
    Seq::new(vs.len(), |i: int| spec_encode_message(vs[i]))
}

/// Reads an array whose items must all decode as messages.
pub open spec fn spec_parse_messages(items: Seq<SpecJson>) -> Result<
    Seq<SpecMessage>,
    SpecDecodeError,
>
    decreases items.len(),
{
    if items.len() == 0 {
        Ok(Seq::empty())
    } else {
        match spec_parse_messages(items.drop_last()) {
            Ok(pre) => match spec_decode_message(items.last()) {
                Ok(m) => Ok(pre.push(m)),
                Err(e) => Err(e),
            },
            Err(e) => Err(e),
        }
    }
}

pub proof fn lemma_parse_messages_err(items: Seq<SpecJson>, i: int)
    requires
        0 <= i < items.len(),
        spec_parse_messages(items.subrange(0, i)) is Ok,
        spec_decode_message(items[i]) is Err,
    ensures
        spec_parse_messages(items) == Err::<Seq<SpecMessage>, SpecDecodeError>(
            spec_decode_message(items[i])->Err_0,
        ),
    decreases items.len(),
{
    if i == items.len() - 1 {
        assert(items.subrange(0, i) =~= items.drop_last());
    } else {
        assert(items.drop_last().subrange(0, i) =~= items.subrange(0, i));
        lemma_parse_messages_err(items.drop_last(), i);
    }
}

/// Whether every message of a list is fit for a round trip.
pub open spec fn messages_wf(vs: Seq<SpecMessage>) -> bool {
    forall|i: int| 0 <= i < vs.len() ==> crate::protocol_data::message::message_wf(#[trigger] vs[i])
}

/// Decoding an encoded list of messages yields the list back.
pub broadcast proof fn lemma_messages_arr_round_trip(vs: Seq<SpecMessage>)
    requires
        messages_wf(vs),
    ensures
        #[trigger] spec_parse_messages(messages_arr(vs)) == Ok::<
            Seq<SpecMessage>,
            SpecDecodeError,
        >(vs),
    decreases vs.len(),
{
    reveal_with_fuel(spec_parse_messages, 2);
    if vs.len() == 0 {
        assert(messages_arr(vs).len() == 0);
        assert(vs =~= Seq::<SpecMessage>::empty());
    } else {
        assert(messages_arr(vs).drop_last() =~= messages_arr(vs.drop_last()));
        assert(messages_wf(vs.drop_last())) by {
            assert(forall|i: int|
                0 <= i < vs.drop_last().len() ==> #[trigger] vs.drop_last()[i] == vs[i]);
        }
        lemma_messages_arr_round_trip(vs.drop_last());
        assert(messages_arr(vs).last() == spec_encode_message(vs.last()));
        lemma_message_round_trip(vs.last());
        assert(vs.drop_last().push(vs.last()) =~= vs);
    }
}

/// Encodes a list of messages as a JSON array.
pub fn encode_messages(v: &Vec<Message>) -> (r: JsonValue)
    ensures
        r@ == SpecJson::Arr(messages_arr(v.deep_view())),
{
    let mut out: Vec<JsonValue> = Vec::new();
    let mut i: usize = 0;
    while i < v.len()
        invariant
            i <= v.len(),
            out@.len() == i,
            forall|j: int|
                0 <= j < i ==> json_view(out@[j]) == spec_encode_message(v@[j].deep_view()),
        decreases v.len() - i,
    {
        out.push(v[i].to_json());
        i += 1;
    }
    proof {
        assert(json_seq_view(out@) =~= messages_arr(v.deep_view()));
    }
    JsonValue::Arr(out)
}

/// Decodes a JSON array whose items must all be messages.
pub fn parse_messages(items: &Vec<JsonValue>) -> (r: Result<Vec<Message>, DecodeError>)
    ensures
        res_deep_view(r) == spec_parse_messages(json_seq_view(items@)),
{
    let ghost g = json_seq_view(items@);
    let mut out: Vec<Message> = Vec::new();
    let mut i: usize = 0;
    proof {
        assert(g.subrange(0, 0).len() == 0);
        assert(out.deep_view() =~= Seq::<SpecMessage>::empty());
    }
    while i < items.len()
        invariant
            i <= items.len(),
            g == json_seq_view(items@),
            g.len() == items@.len(),
            spec_parse_messages(g.subrange(0, i as int)) == Ok::<Seq<SpecMessage>, SpecDecodeError>(
                out.deep_view(),
            ),
        decreases items.len() - i,
    {
        let ghost pre = g.subrange(0, i as int);
        let ghost cur = g.subrange(0, i + 1);
        proof {
            assert(cur.drop_last() =~= pre);
            assert(cur.last() == g[i as int]);
            assert(g[i as int] == json_view(items@[i as int]));
        }
        match Message::from_json(&items[i]) {
            Ok(m) => {
                let ghost before = out.deep_view();
                out.push(m);
                proof {
                    assert(out.deep_view() =~= before.push(out@.last().deep_view()));
                }
            },
            Err(e) => {
                proof {
                    lemma_parse_messages_err(g, i as int);
                }
                return Err(e);
            },
        }
        i += 1;
    }
    proof {
        assert(g.subrange(0, items@.len() as int) =~= g);
    }
    Ok(out)
}

/// A long-running unit of work.
#[derive(Debug, Clone, PartialEq, Eq)]
pub struct Task {
    /// The unique identifier of the task.
    pub id: String,
    /// The conversation context the task belongs to.
    pub context_id: String,
    /// The current status of the task.
    pub status: TaskStatus,
    /// Recent conversational turns of the task, newest last.
    pub history: Option<Vec<Message>>,
    /// Outputs of the task gathered so far.
    pub artifacts: Option<Vec<Artifact>>,
    /// Optional metadata for extensions.
    pub metadata: Option<StrMap>,
    /// The fixed discriminator of a task object: `"task"`.
    pub kind: String,
}

/// Mathematical model of a [`Task`].
#[verifier::ext_equal]
pub struct SpecTask {
    pub id: Seq<char>,
    pub context_id: Seq<char>,
    pub status: SpecTaskStatus,
    pub history: Option<Seq<SpecMessage>>,
    pub artifacts: Option<Seq<SpecArtifact>>,
    pub metadata: Option<Seq<(Seq<char>, Seq<char>)>>,
    pub kind: Seq<char>,
}

impl View for Task {
    type V = SpecTask;

    open spec fn view(&self) -> SpecTask {
        SpecTask {
            id: self.id@,
            context_id: self.context_id@,
            status: self.status@,
            history: self.history.deep_view(),
            artifacts: self.artifacts.deep_view(),
            metadata: self.metadata.deep_view(),
            kind: self.kind@,
        }
    }
}

impl DeepView for Task {
    type V = SpecTask;

    open spec fn deep_view(&self) -> SpecTask {
        self.view()
    }
}

/// A task fit for a lossless round trip: every string map in it stands
/// in the canonical ascending key order.
pub open spec fn task_wf(v: SpecTask) -> bool {
    &&& crate::codec::opt_strmap_wf(v.metadata)
    &&& crate::protocol_data::task_status::task_status_wf(v.status)
    &&& match v.history {
        Some(h) => messages_wf(h),
        None => true,
    }
    &&& match v.artifacts {
        Some(a) => crate::protocol_data::artifact::artifacts_wf(a),
        None => true,
    }
}

/// Whether every task of a list is fit for a round trip.
pub open spec fn tasks_wf(vs: Seq<SpecTask>) -> bool {
    forall|i: int| 0 <= i < vs.len() ==> task_wf(#[trigger] vs[i])
}

/// The encoded entries of a [`Task`], in ascending key order.
pub open spec fn task_entries(v: SpecTask) -> Seq<(Seq<char>, SpecJson)> {
    (match v.artifacts {
        Some(a) => val_entry("artifacts"@, SpecJson::Arr(artifacts_arr(a))),
        None => Seq::empty(),
    }) + str_entry("contextId"@, v.context_id) + (match v.history {
        Some(h) => val_entry("history"@, SpecJson::Arr(messages_arr(h))),
        None => Seq::empty(),
    }) + str_entry("id"@, v.id) + str_entry("kind"@, v.kind) + opt_strmap_entry(
        "metadata"@,
        v.metadata,
    ) + val_entry("status"@, spec_encode_task_status(v.status))
}

pub open spec fn spec_encode_task(v: SpecTask) -> SpecJson {
    SpecJson::Obj(task_entries(v))
}

pub open spec fn spec_decode_task(j: SpecJson) -> Result<SpecTask, SpecDecodeError> {
    match j {
        SpecJson::Obj(es) => match spec_req_str(es, "id"@) {
            Err(e) => Err(e),
            Ok(id) => match spec_req_str(es, "contextId"@) {
                Err(e) => Err(e),
                Ok(context_id) => match spec_get(es, "status"@) {
                    None => Err(spec_err(DecodeErrorKind::MissingField, "status"@)),
                    Some(sj) => match spec_decode_task_status(sj) {
                        Err(e) => Err(e),
                        Ok(status) => match spec_get(es, "history"@) {
                            Some(SpecJson::Arr(hs)) => match spec_parse_messages(hs) {
                                Err(e) => Err(e),
                                Ok(history) => spec_decode_task_rest(
                                    es,
                                    id,
                                    context_id,
                                    status,
                                    Some(history),
                                ),
                            },
                            None => spec_decode_task_rest(es, id, context_id, status, None),
                            Some(SpecJson::Null) => spec_decode_task_rest(
                                es,
                                id,
                                context_id,
                                status,
                                None,
                            ),
                            Some(_) => Err(spec_err(DecodeErrorKind::ExpectedArr, "history"@)),
                        },
                    },
                },
            },
        },
        _ => Err(spec_err(DecodeErrorKind::ExpectedObject, "task"@)),
    }
}

/// The tail of [`spec_decode_task`]: the artifacts, metadata and `kind`
/// fields.
pub open spec fn spec_decode_task_rest(
    es: Seq<(Seq<char>, SpecJson)>,
    id: Seq<char>,
    context_id: Seq<char>,
    status: SpecTaskStatus,
    history: Option<Seq<SpecMessage>>,
) -> Result<SpecTask, SpecDecodeError> {
    match spec_get(es, "artifacts"@) {
        Some(SpecJson::Arr(ajs)) => match spec_parse_artifacts(ajs) {
            Err(e) => Err(e),
            Ok(artifacts) => match spec_opt_strmap(es, "metadata"@) {
                Err(e) => Err(e),
                Ok(metadata) => match spec_req_str(es, "kind"@) {
                    Err(e) => Err(e),
                    Ok(kind) => Ok(
                        SpecTask {
                            id,
                            context_id,
                            status,
                            history,
                            artifacts: Some(artifacts),
                            metadata,
                            kind,
                        },
                    ),
                },
            },
        },
        None => match spec_opt_strmap(es, "metadata"@) {
            Err(e) => Err(e),
            Ok(metadata) => match spec_req_str(es, "kind"@) {
                Err(e) => Err(e),
                Ok(kind) => Ok(
                    SpecTask { id, context_id, status, history, artifacts: None, metadata, kind },
                ),
            },
        },
        Some(SpecJson::Null) => match spec_opt_strmap(es, "metadata"@) {
            Err(e) => Err(e),
            Ok(metadata) => match spec_req_str(es, "kind"@) {
                Err(e) => Err(e),
                Ok(kind) => Ok(
                    SpecTask { id, context_id, status, history, artifacts: None, metadata, kind },
                ),
            },
        },
        Some(_) => Err(spec_err(DecodeErrorKind::ExpectedArr, "artifacts"@)),
    }
}

impl Task {
    /// Encodes the task as a JSON object, omitting absent optional
    /// fields entirely.
    pub fn to_json(&self) -> (r: JsonValue)
        ensures
            r@ == spec_encode_task(self@),
    {
        let mut b = ObjBuilder::new();
        match &self.artifacts {
            Some(a) => b.push_val("artifacts", encode_artifacts(a)),
            None => (),
        }
        b.push_str("contextId", self.context_id.as_str());
        match &self.history {
            Some(h) => b.push_val("history", encode_messages(h)),
            None => (),
        }
        b.push_str("id", self.id.as_str());
        b.push_str("kind", self.kind.as_str());
        b.push_opt_str_map("metadata", &self.metadata);
        b.push_val("status", self.status.to_json());
        proof {
            assert(b@ =~= task_entries(self@));
        }
        b.finish()
    }

    /// Decodes a JSON object into a task.
    pub fn from_json(j: &JsonValue) -> (r: Result<Task, DecodeError>)
        ensures
            res_deep_view(r) == spec_decode_task(j@),
    {
        let es = match j {
            JsonValue::Obj(es) => es,
            _ => { return Err(mk_err(DecodeErrorKind::ExpectedObject, "task")) },
        };
        let id = match get_str_req(es, "id") {
            Ok(v) => v,
            Err(e) => { return Err(e) },
        };
        let context_id = match get_str_req(es, "contextId") {
            Ok(v) => v,
            Err(e) => { return Err(e) },
        };
        let status = match get_entry(es, "status") {
            None => { return Err(mk_err(DecodeErrorKind::MissingField, "status")) },
            Some(sj) => match TaskStatus::from_json(sj) {
                Ok(v) => v,
                Err(e) => { return Err(e) },
            },
        };
        let history = match get_entry(es, "history") {
            Some(JsonValue::Arr(hs)) => match parse_messages(hs) {
                Ok(v) => Some(v),
                Err(e) => { return Err(e) },
            },
            None => None,
            Some(JsonValue::Null) => None,
            Some(_) => { return Err(mk_err(DecodeErrorKind::ExpectedArr, "history")) },
        };
        let artifacts = match get_entry(es, "artifacts") {
            Some(JsonValue::Arr(ajs)) => match parse_artifacts(ajs) {
                Ok(v) => Some(v),
                Err(e) => { return Err(e) },
            },
            None => None,
            Some(JsonValue::Null) => None,
            Some(_) => { return Err(mk_err(DecodeErrorKind::ExpectedArr, "artifacts")) },
        };
        let metadata = match get_strmap_opt(es, "metadata") {
            Ok(v) => v,
            Err(e) => { return Err(e) },
        };
        let kind = match get_str_req(es, "kind") {
            Ok(v) => v,
            Err(e) => { return Err(e) },
        };
        Ok(Task { id, context_id, status, history, artifacts, metadata, kind })
    }
}

/// The encoded form of a list of tasks.
pub open spec fn tasks_arr(vs: Seq<SpecTask>) -> Seq<SpecJson> {
    Seq::new(vs.len(), |i: int| spec_encode_task(vs[i]))
}

/// Reads an array whose items must all decode as tasks.
pub open spec fn spec_parse_tasks(items: Seq<SpecJson>) -> Result<Seq<SpecTask>, SpecDecodeError>
    decreases items.len(),
{
    if items.len() == 0 {
        Ok(Seq::empty())
    } else {
        match spec_parse_tasks(items.drop_last()) {
            Ok(pre) => match spec_decode_task(items.last()) {
                Ok(t) => Ok(pre.push(t)),
                Err(e) => Err(e),
            },
            Err(e) => Err(e),
        }
    }
}

pub proof fn lemma_parse_tasks_err(items: Seq<SpecJson>, i: int)
    requires
        0 <= i < items.len(),
        spec_parse_tasks(items.subrange(0, i)) is Ok,
        spec_decode_task(items[i]) is Err,
    ensures
        spec_parse_tasks(items) == Err::<Seq<SpecTask>, SpecDecodeError>(
            spec_decode_task(items[i])->Err_0,
        ),
    decreases items.len(),
{
    if i == items.len() - 1 {
        assert(items.subrange(0, i) =~= items.drop_last());
    } else {
        assert(items.drop_last().subrange(0, i) =~= items.subrange(0, i));
        lemma_parse_tasks_err(items.drop_last(), i);
    }
}

/// Decoding an encoded list of tasks yields the list back.
pub broadcast proof fn lemma_tasks_arr_round_trip(vs: Seq<SpecTask>)
    requires
        tasks_wf(vs),
    ensures
        #[trigger] spec_parse_tasks(tasks_arr(vs)) == Ok::<Seq<SpecTask>, SpecDecodeError>(vs),
    decreases vs.len(),
{
    reveal_with_fuel(spec_parse_tasks, 2);
    if vs.len() == 0 {
        assert(tasks_arr(vs).len() == 0);
        assert(vs =~= Seq::<SpecTask>::empty());
    } else {
        assert(tasks_arr(vs).drop_last() =~= tasks_arr(vs.drop_last()));
        assert(tasks_wf(vs.drop_last())) by {
            assert(forall|i: int|
                0 <= i < vs.drop_last().len() ==> #[trigger] vs.drop_last()[i] == vs[i]);
        }
        lemma_tasks_arr_round_trip(vs.drop_last());
        assert(tasks_arr(vs).last() == spec_encode_task(vs.last()));
        lemma_task_round_trip(vs.last());
        assert(vs.drop_last().push(vs.last()) =~= vs);
    }
}

/// Encodes a list of tasks as a JSON array.
pub fn encode_tasks(v: &Vec<Task>) -> (r: JsonValue)
    ensures
        r@ == SpecJson::Arr(tasks_arr(v.deep_view())),
{
    let mut out: Vec<JsonValue> = Vec::new();
    let mut i: usize = 0;
    while i < v.len()
        invariant
            i <= v.len(),
            out@.len() == i,
            forall|j: int| 0 <= j < i ==> json_view(out@[j]) == spec_encode_task(v@[j].deep_view()),
        decreases v.len() - i,
    {
        out.push(v[i].to_json());
        i += 1;
    }
    proof {
        assert(json_seq_view(out@) =~= tasks_arr(v.deep_view()));
    }
    JsonValue::Arr(out)
}

/// Decodes a JSON array whose items must all be tasks.
pub fn parse_tasks(items: &Vec<JsonValue>) -> (r: Result<Vec<Task>, DecodeError>)
    ensures
        res_deep_view(r) == spec_parse_tasks(json_seq_view(items@)),
{
    let ghost g = json_seq_view(items@);
    let mut out: Vec<Task> = Vec::new();
    let mut i: usize = 0;
    proof {
        assert(g.subrange(0, 0).len() == 0);
        assert(out.deep_view() =~= Seq::<SpecTask>::empty());
    }
    while i < items.len()
        invariant
            i <= items.len(),
            g == json_seq_view(items@),
            g.len() == items@.len(),
            spec_parse_tasks(g.subrange(0, i as int)) == Ok::<Seq<SpecTask>, SpecDecodeError>(
                out.deep_view(),
            ),
        decreases items.len() - i,
    {
        let ghost pre = g.subrange(0, i as int);
        let ghost cur = g.subrange(0, i + 1);
        proof {
            assert(cur.drop_last() =~= pre);
            assert(cur.last() == g[i as int]);
            assert(g[i as int] == json_view(items@[i as int]));
        }
        match Task::from_json(&items[i]) {
            Ok(t) => {
                let ghost before = out.deep_view();
                out.push(t);
                proof {
                    assert(out.deep_view() =~= before.push(out@.last().deep_view()));
                }
            },
            Err(e) => {
                proof {
                    lemma_parse_tasks_err(g, i as int);
                }
                return Err(e);
            },
        }
        i += 1;
    }
    proof {
        assert(g.subrange(0, items@.len() as int) =~= g);
    }
    Ok(out)
}

/// Decoding an encoded task yields the task back.
pub proof fn lemma_task_round_trip(v: SpecTask)
    requires
        task_wf(v),
    ensures
        spec_decode_task(spec_encode_task(v)) == Ok::<SpecTask, SpecDecodeError>(v),
{
    broadcast use
        crate::codec::lemma_spec_get_concat,
        crate::codec::lemma_parse_str_map_rt,
        lemma_messages_arr_round_trip,
        lemma_artifacts_arr_round_trip;

    reveal_with_fuel(spec_get, 3);
    reveal_strlit("artifacts");
    reveal_strlit("contextId");
    reveal_strlit("history");
    reveal_strlit("id");
    reveal_strlit("kind");
    reveal_strlit("metadata");
    reveal_strlit("status");
    assert("artifacts"@.len() == 9);
    assert("contextId"@.len() == 9);
    assert("history"@.len() == 7);
    assert("id"@.len() == 2);
    assert("kind"@.len() == 4);
    assert("metadata"@.len() == 8);
    assert("status"@.len() == 6);
    assert("artifacts"@[0] == 'a');
    assert("contextId"@[0] == 'c');
    let es = task_entries(v);
    assert(spec_get(es, "id"@) == Some(SpecJson::Str(v.id)));
    assert(spec_get(es, "contextId"@) == Some(SpecJson::Str(v.context_id)));
    assert(spec_get(es, "status"@) == Some(spec_encode_task_status(v.status)));
    assert(spec_get(es, "history"@) == match v.history {
        Some(h) => Some(SpecJson::Arr(messages_arr(h))),
        None => None,
    });
    assert(spec_get(es, "artifacts"@) == match v.artifacts {
        Some(a) => Some(SpecJson::Arr(artifacts_arr(a))),
        None => None,
    });
    assert(spec_get(es, "metadata"@) == match v.metadata {
        Some(m) => Some(SpecJson::Obj(strmap_entries(m))),
        None => None,
    });
    assert(spec_get(es, "kind"@) == Some(SpecJson::Str(v.kind)));
    lemma_task_status_round_trip(v.status);
    assert(!(spec_encode_task_status(v.status) is Null));
}

} // verus!
