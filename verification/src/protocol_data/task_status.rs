//! The current state of a task, with optional explanatory message and
//! timestamp.

use vstd::prelude::*;

use crate::codec::DecodeError;
use crate::codec::DecodeErrorKind;
use crate::codec::ObjBuilder;
use crate::codec::SpecDecodeError;
use crate::codec::get_entry;
use crate::codec::get_str_opt;
use crate::codec::get_str_req;
use crate::codec::mk_err;
use crate::codec::opt_str_entry;
use crate::codec::res_deep_view;
use crate::codec::spec_err;
use crate::codec::spec_get;
use crate::codec::spec_opt_str;
use crate::codec::spec_req_str;
use crate::codec::str_entry;
use crate::codec::val_entry;
use crate::json::JsonValue;
use crate::json::SpecJson;
use crate::protocol_data::message::Message;
use crate::protocol_data::message::SpecMessage;
use crate::protocol_data::message::lemma_message_round_trip;
use crate::protocol_data::message::spec_decode_message;
use crate::protocol_data::message::spec_encode_message;
use crate::protocol_data::task_state::TaskState;
use crate::protocol_data::task_state::lemma_task_state_round_trip;
use crate::protocol_data::task_state::spec_task_state_from_token;
use crate::protocol_data::task_state::task_state_token;

verus! {

broadcast use {vstd::std_specs::vec::group_vec_axioms, crate::json::group_json_view_lemmas};

/// The current state and associated context of a task.
#[derive(Debug, Clone, PartialEq, Eq)]
pub struct TaskStatus {
    /// The current lifecycle state.
    pub state: TaskState,
    /// An optional human-readable message with more detail.
    pub message: Option<Message>,
    /// An optional ISO-8601 timestamp of when this status was recorded.
    pub timestamp: Option<String>,
}

/// Mathematical model of a [`TaskStatus`].
#[verifier::ext_equal]
pub struct SpecTaskStatus {
    pub state: TaskState,
    pub message: Option<SpecMessage>,
    pub timestamp: Option<Seq<char>>,
}

impl View for TaskStatus {
    type V = SpecTaskStatus;

    open spec fn view(&self) -> SpecTaskStatus {
        SpecTaskStatus {
            state: self.state,
            message: self.message.deep_view(),
            timestamp: self.timestamp.deep_view(),
        }
    }
}

impl DeepView for TaskStatus {
    type V = SpecTaskStatus;

    open spec fn deep_view(&self) -> SpecTaskStatus {
        self.view()
    }
}

/// A status fit for a lossless round trip: its optional message is.
pub open spec fn task_status_wf(v: SpecTaskStatus) -> bool {
    match v.message {
        Some(m) => crate::protocol_data::message::message_wf(m),
        None => true,
    }
}

/// The encoded entries of a [`TaskStatus`], in ascending key order.
pub open spec fn task_status_entries(v: SpecTaskStatus) -> Seq<(Seq<char>, SpecJson)> {
    (match v.message {
        Some(m) => val_entry("message"@, spec_encode_message(m)),
        None => Seq::empty(),
    }) + str_entry("state"@, task_state_token(v.state)) + opt_str_entry("timestamp"@, v.timestamp)
}

pub open spec fn spec_encode_task_status(v: SpecTaskStatus) -> SpecJson {
    SpecJson::Obj(task_status_entries(v))
}

pub open spec fn spec_decode_task_status(j: SpecJson) -> Result<SpecTaskStatus, SpecDecodeError> {
    match j {
        SpecJson::Obj(es) => match spec_req_str(es, "state"@) {
            Err(e) => Err(e),
            Ok(state_tok) => match spec_get(es, "message"@) {
                Some(SpecJson::Null) => match spec_opt_str(es, "timestamp"@) {
                    Err(e) => Err(e),
                    Ok(timestamp) => Ok(
                        SpecTaskStatus {
                            state: spec_task_state_from_token(state_tok),
                            message: None,
                            timestamp,
                        },
                    ),
                },
                Some(mj) => match spec_decode_message(mj) {
                    Err(e) => Err(e),
                    Ok(m) => match spec_opt_str(es, "timestamp"@) {
                        Err(e) => Err(e),
                        Ok(timestamp) => Ok(
                            SpecTaskStatus {
                                state: spec_task_state_from_token(state_tok),
                                message: Some(m),
                                timestamp,
                            },
                        ),
                    },
                },
                None => match spec_opt_str(es, "timestamp"@) {
                    Err(e) => Err(e),
                    Ok(timestamp) => Ok(
                        SpecTaskStatus {
                            state: spec_task_state_from_token(state_tok),
                            message: None,
                            timestamp,
                        },
                    ),
                },
            },
        },
        _ => Err(spec_err(DecodeErrorKind::ExpectedObject, "status"@)),
    }
}

impl TaskStatus {
    /// Encodes this status as a JSON object, omitting absent optional
    /// fields entirely.
    pub fn to_json(&self) -> (r: JsonValue)
        ensures
            r@ == spec_encode_task_status(self@),
    {
        let mut b = ObjBuilder::new();
        match &self.message {
            Some(m) => b.push_val("message", m.to_json()),
            None => (),
        }
        b.push_str("state", self.state.as_str());
        b.push_opt_str("timestamp", &self.timestamp);
        proof {
            assert(b@ =~= task_status_entries(self@));
        }
        b.finish()
    }

    /// Decodes a JSON object into a status.
    pub fn from_json(j: &JsonValue) -> (r: Result<TaskStatus, DecodeError>)
        ensures
            res_deep_view(r) == spec_decode_task_status(j@),
    {
        let es = match j {
            JsonValue::Obj(es) => es,
            _ => { return Err(mk_err(DecodeErrorKind::ExpectedObject, "status")) },
        };
        let state_tok = match get_str_req(es, "state") {
            Ok(v) => v,
            Err(e) => { return Err(e) },
        };
        let message = match get_entry(es, "message") {
            Some(JsonValue::Null) => None,
            Some(mj) => match Message::from_json(mj) {
                Ok(m) => Some(m),
                Err(e) => { return Err(e) },
            },
            None => None,
        };
        let timestamp = match get_str_opt(es, "timestamp") {
            Ok(v) => v,
            Err(e) => { return Err(e) },
        };
        Ok(TaskStatus { state: TaskState::from_wire(state_tok.as_str()), message, timestamp })
    }
}

/// Decoding an encoded status yields the status back; the state token
/// decodes leniently but the encoder only emits registered tokens.
pub proof fn lemma_task_status_round_trip(v: SpecTaskStatus)
    requires
        task_status_wf(v),
    ensures
        spec_decode_task_status(spec_encode_task_status(v)) == Ok::<
            SpecTaskStatus,
            SpecDecodeError,
        >(v),
{
    broadcast use crate::codec::lemma_spec_get_concat;

    reveal_with_fuel(spec_get, 3);
    reveal_strlit("message");
    reveal_strlit("state");
    reveal_strlit("timestamp");
    assert("message"@.len() == 7);
    assert("state"@.len() == 5);
    assert("timestamp"@.len() == 9);
    let es = task_status_entries(v);
    assert(spec_get(es, "state"@) == Some(SpecJson::Str(task_state_token(v.state))));
    assert(spec_get(es, "message"@) == match v.message {
        Some(m) => Some(spec_encode_message(m)),
        None => None,
    });
    assert(spec_get(es, "timestamp"@) == match v.timestamp {
        Some(s) => Some(SpecJson::Str(s)),
        None => None,
    });
    lemma_task_state_round_trip(v.state);
    match v.message {
        Some(m) => {
            lemma_message_round_trip(m);
            assert(!(spec_encode_message(m) is Null));
        },
        None => (),
    }
}

} // verus!
