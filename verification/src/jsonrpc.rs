//! JSON-RPC 2.0 envelopes and the method-specific parameter and result
//! records, including the untagged success-or-error response payload.

use vstd::prelude::*;

use crate::codec::DecodeError;
use crate::codec::DecodeErrorKind;
use crate::codec::ObjBuilder;
use crate::codec::SpecDecodeError;
use crate::codec::bool_entry;
use crate::codec::get_bool_opt;
use crate::codec::get_entry;
use crate::codec::get_i64_opt;
use crate::codec::get_i64_req;
use crate::codec::get_str_opt;
use crate::codec::get_str_req;
use crate::codec::get_strmap_opt;
use crate::codec::int_entry;
use crate::codec::mk_err;
use crate::codec::opt_bool_entry;
use crate::codec::opt_int_entry;
use crate::codec::opt_str_entry;
use crate::codec::opt_strmap_entry;
use crate::codec::opt_val_entry;
use crate::codec::res_deep_view;
use crate::codec::spec_err;
use crate::codec::spec_get;
use crate::codec::spec_opt_bool;
use crate::codec::spec_opt_i64;
use crate::codec::spec_opt_str;
use crate::codec::spec_opt_strmap;
use crate::codec::spec_opt_val;
use crate::codec::spec_req_i64;
use crate::codec::spec_req_str;
use crate::codec::str_entry;
use crate::codec::strmap_entries;
use crate::codec::val_entry;
use crate::json::JsonValue;
use crate::json::SpecJson;
use crate::json::json_seq_view;
use crate::json::json_view;
use crate::codec::get_bool_req;
use crate::codec::spec_req_bool;
use crate::protocol_data::Artifact;
use crate::protocol_data::SpecTask;
use crate::protocol_data::Task;
use crate::protocol_data::encode_tasks;
use crate::protocol_data::parse_tasks;
use crate::protocol_data::spec_decode_task;
use crate::protocol_data::spec_encode_task;
use crate::protocol_data::spec_parse_tasks;
use crate::protocol_data::spec_task_state_from_token;
use crate::protocol_data::task_state_token;
use crate::protocol_data::tasks_arr;
use crate::protocol_data::Message;
use crate::protocol_data::SpecArtifact;
use crate::protocol_data::SpecTaskStatus;
use crate::protocol_data::TaskState;
use crate::protocol_data::TaskStatus;
use crate::protocol_data::spec_decode_artifact;
use crate::protocol_data::spec_decode_task_status;
use crate::protocol_data::spec_encode_artifact;
use crate::protocol_data::spec_encode_task_status;
use crate::protocol_data::PushNotificationConfig;
use crate::protocol_data::SpecMessage;
use crate::protocol_data::SpecPushNotificationConfig;
use crate::protocol_data::lemma_push_config_round_trip;
use crate::protocol_data::spec_decode_message;
use crate::protocol_data::spec_decode_push_config;
use crate::protocol_data::spec_encode_message;
use crate::protocol_data::spec_encode_push_config;
use crate::util_types::StrMap;

verus! {

broadcast use {vstd::std_specs::vec::group_vec_axioms, crate::json::group_json_view_lemmas};

/// A request or response correlation id: a string, a number, or an
/// explicit null.
#[derive(Debug, Clone, PartialEq, Eq)]
pub enum JsonRpcId {
    String(String),
    Number(i64),
    Null,
}

/// Mathematical model of a [`JsonRpcId`].
#[verifier::ext_equal]
pub enum SpecJsonRpcId {
    String(Seq<char>),
    Number(i64),
    Null,
}

impl View for JsonRpcId {
    type V = SpecJsonRpcId;

    open spec fn view(&self) -> SpecJsonRpcId {
        match self {
            JsonRpcId::String(s) => SpecJsonRpcId::String(s@),
            JsonRpcId::Number(n) => SpecJsonRpcId::Number(*n),
            JsonRpcId::Null => SpecJsonRpcId::Null,
        }
    }
}

impl DeepView for JsonRpcId {
    type V = SpecJsonRpcId;

    open spec fn deep_view(&self) -> SpecJsonRpcId {
        self.view()
    }
}

/// The untagged encoding of an id: directly as the JSON scalar.
pub open spec fn spec_encode_id(v: SpecJsonRpcId) -> SpecJson {
    match v {
        SpecJsonRpcId::String(s) => SpecJson::Str(s),
        SpecJsonRpcId::Number(n) => SpecJson::Int(n),
        SpecJsonRpcId::Null => SpecJson::Null,
    }
}

/// Untagged decoding of an id, by the scalar's own shape.
pub open spec fn spec_decode_id(j: SpecJson) -> Result<SpecJsonRpcId, SpecDecodeError> {
    match j {
        SpecJson::Str(s) => Ok(SpecJsonRpcId::String(s)),
        SpecJson::Int(n) => Ok(SpecJsonRpcId::Number(n)),
        SpecJson::Null => Ok(SpecJsonRpcId::Null),
        _ => Err(spec_err(DecodeErrorKind::NoVariantMatched, "id"@)),
    }
}

impl JsonRpcId {
    /// Encodes this id as its JSON scalar.
    pub fn to_json(&self) -> (r: JsonValue)
        ensures
            r@ == spec_encode_id(self@),
    {
        match self {
            JsonRpcId::String(s) => JsonValue::Str(s.clone()),
            JsonRpcId::Number(n) => JsonValue::Int(*n),
            JsonRpcId::Null => JsonValue::Null,
        }
    }

    /// Decodes a JSON scalar into an id.
    pub fn from_json(j: &JsonValue) -> (r: Result<JsonRpcId, DecodeError>)
        ensures
            res_deep_view(r) == spec_decode_id(j@),
    {
        match j {
            JsonValue::Str(s) => Ok(JsonRpcId::String(s.clone())),
            JsonValue::Int(n) => Ok(JsonRpcId::Number(*n)),
            JsonValue::Null => Ok(JsonRpcId::Null),
            _ => Err(mk_err(DecodeErrorKind::NoVariantMatched, "id")),
        }
    }
}

/// Decoding an encoded id yields the id back.
pub proof fn lemma_id_round_trip(v: SpecJsonRpcId)
    ensures
        spec_decode_id(spec_encode_id(v)) == Ok::<SpecJsonRpcId, SpecDecodeError>(v),
{
}

/// A JSON-RPC 2.0 error object with a 32-bit code, carried as data in an
/// error response.
#[derive(Debug, PartialEq, Eq)]
pub struct JsonRpcError {
    /// The code naming the error type.
    pub code: i32,
    /// A short description of the error.
    pub message: String,
    /// Optional structured information about the error.
    pub data: Option<JsonValue>,
}

/// Mathematical model of a [`JsonRpcError`] record.
#[verifier::ext_equal]
pub struct SpecJsonRpcError {
    pub code: i32,
    pub message: Seq<char>,
    pub data: Option<SpecJson>,
}

impl View for JsonRpcError {
    type V = SpecJsonRpcError;

    open spec fn view(&self) -> SpecJsonRpcError {
        SpecJsonRpcError { code: self.code, message: self.message@, data: self.data.deep_view() }
    }
}

impl DeepView for JsonRpcError {
    type V = SpecJsonRpcError;

    open spec fn deep_view(&self) -> SpecJsonRpcError {
        self.view()
    }
}

/// The encoded entries of a [`JsonRpcError`], in ascending key order.
pub open spec fn rpc_error_entries(v: SpecJsonRpcError) -> Seq<(Seq<char>, SpecJson)> {
    int_entry("code"@, v.code as i64) + opt_val_entry("data"@, v.data) + str_entry(
        "message"@,
        v.message,
    )
}

pub open spec fn spec_encode_rpc_error(v: SpecJsonRpcError) -> SpecJson {
    SpecJson::Obj(rpc_error_entries(v))
}

pub open spec fn spec_decode_rpc_error(j: SpecJson) -> Result<SpecJsonRpcError, SpecDecodeError> {
    match j {
        SpecJson::Obj(es) => match spec_req_i64(es, "code"@) {
            Err(e) => Err(e),
            Ok(code) => if code < i32::MIN as i64 || code > i32::MAX as i64 {
                Err(spec_err(DecodeErrorKind::OutOfRange, "code"@))
            } else {
                match spec_req_str(es, "message"@) {
                    Err(e) => Err(e),
                    Ok(message) => Ok(
                        SpecJsonRpcError {
                            code: code as i32,
                            message,
                            data: spec_opt_val(es, "data"@),
                        },
                    ),
                }
            },
        },
        _ => Err(spec_err(DecodeErrorKind::ExpectedObject, "error"@)),
    }
}

impl JsonRpcError {
    /// Encodes this error as a JSON object; an absent `data` field is
    /// omitted entirely.
    pub fn to_json(&self) -> (r: JsonValue)
        ensures
            r@ == spec_encode_rpc_error(self@),
    {
        let mut b = ObjBuilder::new();
        b.push_int("code", self.code as i64);
        match &self.data {
            Some(d) => b.push_val("data", d.deep_clone()),
            None => (),
        }
        b.push_str("message", self.message.as_str());
        proof {
            assert(b@ =~= rpc_error_entries(self@));
        }
        b.finish()
    }

    /// Decodes a JSON object into this record; a `code` outside the
    /// 32-bit range is rejected.
    pub fn from_json(j: &JsonValue) -> (r: Result<JsonRpcError, DecodeError>)
        ensures
            res_deep_view(r) == spec_decode_rpc_error(j@),
    {
        let es = match j {
            JsonValue::Obj(es) => es,
            _ => { return Err(mk_err(DecodeErrorKind::ExpectedObject, "error")) },
        };
        let code64 = match get_i64_req(es, "code") {
            Ok(v) => v,
            Err(e) => { return Err(e) },
        };
        if code64 < i32::MIN as i64 || code64 > i32::MAX as i64 {
            return Err(mk_err(DecodeErrorKind::OutOfRange, "code"));
        }
        let message = match get_str_req(es, "message") {
            Ok(v) => v,
            Err(e) => { return Err(e) },
        };
        let data = match get_entry(es, "data") {
            None => None,
            Some(JsonValue::Null) => None,
            Some(d) => Some(d.deep_clone()),
        };
        Ok(JsonRpcError { code: code64 as i32, message, data })
    }
}

/// Whether an optional raw-JSON field can round-trip: an explicit `null`
/// value cannot be told apart from an absent field on the wire.
pub open spec fn opt_val_wf(o: Option<SpecJson>) -> bool {
    o != Some(SpecJson::Null)
}

/// Decoding an encoded error record yields it back, provided `data` is
/// not the explicit JSON `null`, which encodes as an omitted field.
pub proof fn lemma_rpc_error_round_trip(v: SpecJsonRpcError)
    requires
        opt_val_wf(v.data),
    ensures
        spec_decode_rpc_error(spec_encode_rpc_error(v)) == Ok::<SpecJsonRpcError, SpecDecodeError>(
            v,
        ),
{
    broadcast use crate::codec::lemma_spec_get_concat;

    reveal_with_fuel(spec_get, 3);
    reveal_strlit("code");
    reveal_strlit("data");
    reveal_strlit("message");
    assert("code"@.len() == 4);
    assert("data"@.len() == 4);
    assert("message"@.len() == 7);
    assert("code"@[0] == 'c');
    assert("data"@[0] == 'd');
    let es = rpc_error_entries(v);
    assert(spec_get(es, "code"@) == Some(SpecJson::Int(v.code as i64)));
    assert(spec_get(es, "message"@) == Some(SpecJson::Str(v.message)));
    assert(spec_get(es, "data"@) == v.data);
}

/// The payload of a response: either a result or an error, never both.
/// The encoding is untagged; decoding selects `Success` whenever a
/// `result` key is present, then `Error` on an `error` key.
#[derive(Debug, PartialEq, Eq)]
pub enum JsonRpcPayload {
    Success { result: JsonValue },
    Error { error: JsonRpcError },
}

/// Mathematical model of a [`JsonRpcPayload`].
#[verifier::ext_equal]
pub enum SpecJsonRpcPayload {
    Success { result: SpecJson },
    Error { error: SpecJsonRpcError },
}

impl View for JsonRpcPayload {
    type V = SpecJsonRpcPayload;

    open spec fn view(&self) -> SpecJsonRpcPayload {
        match self {
            JsonRpcPayload::Success { result } => SpecJsonRpcPayload::Success { result: result@ },
            JsonRpcPayload::Error { error } => SpecJsonRpcPayload::Error { error: error@ },
        }
    }
}

impl DeepView for JsonRpcPayload {
    type V = SpecJsonRpcPayload;

    open spec fn deep_view(&self) -> SpecJsonRpcPayload {
        self.view()
    }
}

/// A complete JSON-RPC 2.0 response envelope.
#[derive(Debug, PartialEq, Eq)]
pub struct JsonRpcResponse {
    /// The protocol version; must be exactly `"2.0"`.
    pub jsonrpc: String,
    /// The id of the request this answers; `None` is encoded as an
    /// omitted key, an explicit null id as a `null` key.
    pub id: Option<JsonRpcId>,
    /// The success result or the error.
    pub payload: JsonRpcPayload,
}

/// Mathematical model of a [`JsonRpcResponse`].
#[verifier::ext_equal]
pub struct SpecJsonRpcResponse {
    pub jsonrpc: Seq<char>,
    pub id: Option<SpecJsonRpcId>,
    pub payload: SpecJsonRpcPayload,
}

impl View for JsonRpcResponse {
    type V = SpecJsonRpcResponse;

    open spec fn view(&self) -> SpecJsonRpcResponse {
        SpecJsonRpcResponse {
            jsonrpc: self.jsonrpc@,
            id: self.id.deep_view(),
            payload: self.payload@,
        }
    }
}

impl DeepView for JsonRpcResponse {
    type V = SpecJsonRpcResponse;

    open spec fn deep_view(&self) -> SpecJsonRpcResponse {
        self.view()
    }
}

/// The encoded entries of a [`JsonRpcResponse`], in ascending key order:
/// the payload is flattened into the envelope, contributing exactly one
/// of the keys `error` or `result`.
pub open spec fn rpc_response_entries(v: SpecJsonRpcResponse) -> Seq<(Seq<char>, SpecJson)> {
    (match v.payload {
        SpecJsonRpcPayload::Error { error } => val_entry("error"@, spec_encode_rpc_error(error)),
        SpecJsonRpcPayload::Success { .. } => Seq::empty(),
    }) + (match v.id {
        Some(id) => val_entry("id"@, spec_encode_id(id)),
        None => Seq::empty(),
    }) + str_entry("jsonrpc"@, v.jsonrpc) + (match v.payload {
        SpecJsonRpcPayload::Success { result } => val_entry("result"@, result),
        SpecJsonRpcPayload::Error { .. } => Seq::empty(),
    })
}

pub open spec fn spec_encode_rpc_response(v: SpecJsonRpcResponse) -> SpecJson {
    SpecJson::Obj(rpc_response_entries(v))
}

/// Decodes a response envelope.  The id accepts a missing key and an
/// explicit `null` as "no id"; the payload is selected structurally,
/// `result` being tried before `error`.
pub open spec fn spec_decode_rpc_response(j: SpecJson) -> Result<
    SpecJsonRpcResponse,
    SpecDecodeError,
> {
    match j {
        SpecJson::Obj(es) => match spec_req_str(es, "jsonrpc"@) {
            Err(e) => Err(e),
            Ok(jsonrpc) => {
                let id_res = match spec_get(es, "id"@) {
                    None => Ok(None),
                    Some(SpecJson::Null) => Ok(None),
                    Some(ij) => match spec_decode_id(ij) {
                        Err(e) => Err(e),
                        Ok(id) => Ok(Some(id)),
                    },
                };
                match id_res {
                    Err(e) => Err(e),
                    Ok(id) => if spec_get(es, "result"@) is Some {
                        Ok(
                            SpecJsonRpcResponse {
                                jsonrpc,
                                id,
                                payload: SpecJsonRpcPayload::Success {
                                    result: spec_get(es, "result"@)->Some_0,
                                },
                            },
                        )
                    } else if spec_get(es, "error"@) is Some {
                        match spec_decode_rpc_error(spec_get(es, "error"@)->Some_0) {
                            Err(e) => Err(e),
                            Ok(error) => Ok(
                                SpecJsonRpcResponse {
                                    jsonrpc,
                                    id,
                                    payload: SpecJsonRpcPayload::Error { error },
                                },
                            ),
                        }
                    } else {
                        Err(spec_err(DecodeErrorKind::NoVariantMatched, "response"@))
                    },
                }
            },
        },
        _ => Err(spec_err(DecodeErrorKind::ExpectedObject, "response"@)),
    }
}

impl JsonRpcResponse {
    /// Encodes this response as a JSON object: exactly one of `result`
    /// and `error` appears, and an absent id is omitted entirely.
    pub fn to_json(&self) -> (r: JsonValue)
        ensures
            r@ == spec_encode_rpc_response(self@),
    {
        let mut b = ObjBuilder::new();
        match &self.payload {
            JsonRpcPayload::Error { error } => b.push_val("error", error.to_json()),
            JsonRpcPayload::Success { .. } => (),
        }
        match &self.id {
            Some(id) => b.push_val("id", id.to_json()),
            None => (),
        }
        b.push_str("jsonrpc", self.jsonrpc.as_str());
        match &self.payload {
            JsonRpcPayload::Success { result } => b.push_val("result", result.deep_clone()),
            JsonRpcPayload::Error { .. } => (),
        }
        proof {
            assert(b@ =~= rpc_response_entries(self@));
        }
        b.finish()
    }

    /// Decodes a JSON object into a response.
    pub fn from_json(j: &JsonValue) -> (r: Result<JsonRpcResponse, DecodeError>)
        ensures
            res_deep_view(r) == spec_decode_rpc_response(j@),
    {
        let es = match j {
            JsonValue::Obj(es) => es,
            _ => { return Err(mk_err(DecodeErrorKind::ExpectedObject, "response")) },
        };
        let jsonrpc = match get_str_req(es, "jsonrpc") {
            Ok(v) => v,
            Err(e) => { return Err(e) },
        };
        let id = match get_entry(es, "id") {
            None => None,
            Some(JsonValue::Null) => None,
            Some(ij) => match JsonRpcId::from_json(ij) {
                Ok(id) => Some(id),
                Err(e) => { return Err(e) },
            },
        };
        if let Some(result) = get_entry(es, "result") {
            return Ok(
                JsonRpcResponse {
                    jsonrpc,
                    id,
                    payload: JsonRpcPayload::Success { result: result.deep_clone() },
                },
            );
        }
        if let Some(ej) = get_entry(es, "error") {
            let error = match JsonRpcError::from_json(ej) {
                Ok(v) => v,
                Err(e) => { return Err(e) },
            };
            return Ok(JsonRpcResponse { jsonrpc, id, payload: JsonRpcPayload::Error { error } });
        }
        Err(mk_err(DecodeErrorKind::NoVariantMatched, "response"))
    }
}

/// A response round-trips provided its id is not the explicit null id
/// (which encodes as `"id": null`, read back as an absent id) and an
/// error payload's `data` is not the explicit JSON `null`.
pub open spec fn rpc_response_wf(v: SpecJsonRpcResponse) -> bool {
    &&& v.id != Some(SpecJsonRpcId::Null)
    &&& match v.payload {
        SpecJsonRpcPayload::Error { error } => opt_val_wf(error.data),
        SpecJsonRpcPayload::Success { .. } => true,
    }
}

/// Decoding an encoded response yields the response back: a success
/// payload always carries a `result` key, an error payload never does,
/// so the structural trial order recovers the same payload alternative.
pub proof fn lemma_rpc_response_round_trip(v: SpecJsonRpcResponse)
    requires
        rpc_response_wf(v),
    ensures
        spec_decode_rpc_response(spec_encode_rpc_response(v)) == Ok::<
            SpecJsonRpcResponse,
            SpecDecodeError,
        >(v),
{
    broadcast use crate::codec::lemma_spec_get_concat;

    reveal_with_fuel(spec_get, 3);
    reveal_strlit("error");
    reveal_strlit("id");
    reveal_strlit("jsonrpc");
    reveal_strlit("result");
    assert("error"@.len() == 5);
    assert("id"@.len() == 2);
    assert("jsonrpc"@.len() == 7);
    assert("result"@.len() == 6);
    let es = rpc_response_entries(v);
    assert(spec_get(es, "jsonrpc"@) == Some(SpecJson::Str(v.jsonrpc)));
    assert(spec_get(es, "id"@) == match v.id {
        Some(id) => Some(spec_encode_id(id)),
        None => None,
    });
    match v.payload {
        SpecJsonRpcPayload::Success { result } => {
            assert(spec_get(es, "result"@) == Some(result));
            assert(spec_get(es, "error"@) is None);
        },
        SpecJsonRpcPayload::Error { error } => {
            assert(spec_get(es, "result"@) is None);
            assert(spec_get(es, "error"@) == Some(spec_encode_rpc_error(error)));
            lemma_rpc_error_round_trip(error);
            assert(!(spec_encode_rpc_error(error) is Null));
        },
    }
    match v.id {
        Some(id) => {
            lemma_id_round_trip(id);
            assert(!(spec_encode_id(id) is Null));
        },
        None => (),
    }
}

/// A complete JSON-RPC 2.0 request envelope.
#[derive(Debug, PartialEq, Eq)]
pub struct JsonRpcRequest {
    /// The protocol version; must be exactly `"2.0"`.
    pub jsonrpc: String,
    /// The name of the method to invoke.
    pub method: String,
    /// The method's parameters; omitted from the encoding when absent.
    pub params: Option<JsonValue>,
    /// The correlation id; a request without one is a notification.
    pub id: Option<JsonRpcId>,
}

/// Mathematical model of a [`JsonRpcRequest`].
#[verifier::ext_equal]
pub struct SpecJsonRpcRequest {
    pub jsonrpc: Seq<char>,
    pub method: Seq<char>,
    pub params: Option<SpecJson>,
    pub id: Option<SpecJsonRpcId>,
}

impl View for JsonRpcRequest {
    type V = SpecJsonRpcRequest;

    open spec fn view(&self) -> SpecJsonRpcRequest {
        SpecJsonRpcRequest {
            jsonrpc: self.jsonrpc@,
            method: self.method@,
            params: self.params.deep_view(),
            id: self.id.deep_view(),
        }
    }
}

impl DeepView for JsonRpcRequest {
    type V = SpecJsonRpcRequest;

    open spec fn deep_view(&self) -> SpecJsonRpcRequest {
        self.view()
    }
}

/// The encoded entries of a [`JsonRpcRequest`], in ascending key order.
pub open spec fn rpc_request_entries(v: SpecJsonRpcRequest) -> Seq<(Seq<char>, SpecJson)> {
    (match v.id {
        Some(id) => val_entry("id"@, spec_encode_id(id)),
        None => Seq::empty(),
    }) + str_entry("jsonrpc"@, v.jsonrpc) + str_entry("method"@, v.method) + opt_val_entry(
        "params"@,
        v.params,
    )
}

pub open spec fn spec_encode_rpc_request(v: SpecJsonRpcRequest) -> SpecJson {
    SpecJson::Obj(rpc_request_entries(v))
}

pub open spec fn spec_decode_rpc_request(j: SpecJson) -> Result<
    SpecJsonRpcRequest,
    SpecDecodeError,
> {
    match j {
        SpecJson::Obj(es) => match spec_req_str(es, "jsonrpc"@) {
            Err(e) => Err(e),
            Ok(jsonrpc) => match spec_req_str(es, "method"@) {
                Err(e) => Err(e),
                Ok(method) => match spec_get(es, "id"@) {
                    None => Ok(
                        SpecJsonRpcRequest {
                            jsonrpc,
                            method,
                            params: spec_opt_val(es, "params"@),
                            id: None,
                        },
                    ),
                    Some(SpecJson::Null) => Ok(
                        SpecJsonRpcRequest {
                            jsonrpc,
                            method,
                            params: spec_opt_val(es, "params"@),
                            id: None,
                        },
                    ),
                    Some(ij) => match spec_decode_id(ij) {
                        Err(e) => Err(e),
                        Ok(id) => Ok(
                            SpecJsonRpcRequest {
                                jsonrpc,
                                method,
                                params: spec_opt_val(es, "params"@),
                                id: Some(id),
                            },
                        ),
                    },
                },
            },
        },
        _ => Err(spec_err(DecodeErrorKind::ExpectedObject, "request"@)),
    }
}

impl JsonRpcRequest {
    /// Encodes this request as a JSON object; absent `params` and `id`
    /// are omitted entirely.
    pub fn to_json(&self) -> (r: JsonValue)
        ensures
            r@ == spec_encode_rpc_request(self@),
    {
        let mut b = ObjBuilder::new();
        match &self.id {
            Some(id) => b.push_val("id", id.to_json()),
            None => (),
        }
        b.push_str("jsonrpc", self.jsonrpc.as_str());
        b.push_str("method", self.method.as_str());
        match &self.params {
            Some(p) => b.push_val("params", p.deep_clone()),
            None => (),
        }
        proof {
            assert(b@ =~= rpc_request_entries(self@));
        }
        b.finish()
    }

    /// Decodes a JSON object into a request.
    pub fn from_json(j: &JsonValue) -> (r: Result<JsonRpcRequest, DecodeError>)
        ensures
            res_deep_view(r) == spec_decode_rpc_request(j@),
    {
        let es = match j {
            JsonValue::Obj(es) => es,
            _ => { return Err(mk_err(DecodeErrorKind::ExpectedObject, "request")) },
        };
        let jsonrpc = match get_str_req(es, "jsonrpc") {
            Ok(v) => v,
            Err(e) => { return Err(e) },
        };
        let method = match get_str_req(es, "method") {
            Ok(v) => v,
            Err(e) => { return Err(e) },
        };
        let id = match get_entry(es, "id") {
            None => None,
            Some(JsonValue::Null) => None,
            Some(ij) => match JsonRpcId::from_json(ij) {
                Ok(id) => Some(id),
                Err(e) => { return Err(e) },
            },
        };
        let params = match get_entry(es, "params") {
            None => None,
            Some(JsonValue::Null) => None,
            Some(p) => Some(p.deep_clone()),
        };
        Ok(JsonRpcRequest { jsonrpc, method, params, id })
    }
}

/// A request round-trips provided its id is not the explicit null id and
/// its params are not the explicit JSON `null`: both encode to `null`
/// values, which decode as absent.
pub open spec fn rpc_request_wf(v: SpecJsonRpcRequest) -> bool {
    &&& v.id != Some(SpecJsonRpcId::Null)
    &&& opt_val_wf(v.params)
}

/// Decoding an encoded request yields the request back.
pub proof fn lemma_rpc_request_round_trip(v: SpecJsonRpcRequest)
    requires
        rpc_request_wf(v),
    ensures
        spec_decode_rpc_request(spec_encode_rpc_request(v)) == Ok::<
            SpecJsonRpcRequest,
            SpecDecodeError,
        >(v),
{
    broadcast use crate::codec::lemma_spec_get_concat;

    reveal_with_fuel(spec_get, 3);
    reveal_strlit("id");
    reveal_strlit("jsonrpc");
    reveal_strlit("method");
    reveal_strlit("params");
    assert("id"@.len() == 2);
    assert("jsonrpc"@.len() == 7);
    assert("method"@.len() == 6);
    assert("params"@.len() == 6);
    assert("method"@[0] == 'm');
    assert("params"@[0] == 'p');
    let es = rpc_request_entries(v);
    assert(spec_get(es, "jsonrpc"@) == Some(SpecJson::Str(v.jsonrpc)));
    assert(spec_get(es, "method"@) == Some(SpecJson::Str(v.method)));
    assert(spec_get(es, "id"@) == match v.id {
        Some(id) => Some(spec_encode_id(id)),
        None => None,
    });
    assert(spec_get(es, "params"@) == v.params);
    match v.id {
        Some(id) => {
            lemma_id_round_trip(id);
            assert(!(spec_encode_id(id) is Null));
        },
        None => (),
    }
}

/// A JSON-RPC 2.0 error object with a 64-bit code.
#[derive(Debug, PartialEq, Eq)]
pub struct JSONRPCError {
    /// A number indicating the error type that occurred.
    pub code: i64,
    /// A short description of the error.
    pub message: String,
    /// Optional structured information about the error.
    pub data: Option<JsonValue>,
}

/// Mathematical model of a [`JSONRPCError`].
#[verifier::ext_equal]
pub struct SpecJSONRPCError {
    pub code: i64,
    pub message: Seq<char>,
    pub data: Option<SpecJson>,
}

impl View for JSONRPCError {
    type V = SpecJSONRPCError;

    open spec fn view(&self) -> SpecJSONRPCError {
        SpecJSONRPCError { code: self.code, message: self.message@, data: self.data.deep_view() }
    }
}

impl DeepView for JSONRPCError {
    type V = SpecJSONRPCError;

    open spec fn deep_view(&self) -> SpecJSONRPCError {
        self.view()
    }
}

/// The encoded entries of a [`JSONRPCError`], in ascending key order.
pub open spec fn jsonrpc_error_entries(v: SpecJSONRPCError) -> Seq<(Seq<char>, SpecJson)> {
    int_entry("code"@, v.code) + opt_val_entry("data"@, v.data) + str_entry("message"@, v.message)
}

pub open spec fn spec_encode_jsonrpc_error(v: SpecJSONRPCError) -> SpecJson {
    SpecJson::Obj(jsonrpc_error_entries(v))
}

pub open spec fn spec_decode_jsonrpc_error(j: SpecJson) -> Result<
    SpecJSONRPCError,
    SpecDecodeError,
> {
    match j {
        SpecJson::Obj(es) => match spec_req_i64(es, "code"@) {
            Err(e) => Err(e),
            Ok(code) => match spec_req_str(es, "message"@) {
                Err(e) => Err(e),
                Ok(message) => Ok(
                    SpecJSONRPCError { code, message, data: spec_opt_val(es, "data"@) },
                ),
            },
        },
        _ => Err(spec_err(DecodeErrorKind::ExpectedObject, "error"@)),
    }
}

impl JSONRPCError {
    /// Encodes this error as a JSON object; an absent `data` field is
    /// omitted entirely.
    pub fn to_json(&self) -> (r: JsonValue)
        ensures
            r@ == spec_encode_jsonrpc_error(self@),
    {
        let mut b = ObjBuilder::new();
        b.push_int("code", self.code);
        match &self.data {
            Some(d) => b.push_val("data", d.deep_clone()),
            None => (),
        }
        b.push_str("message", self.message.as_str());
        proof {
            assert(b@ =~= jsonrpc_error_entries(self@));
        }
        b.finish()
    }

    /// Decodes a JSON object into this record.
    pub fn from_json(j: &JsonValue) -> (r: Result<JSONRPCError, DecodeError>)
        ensures
            res_deep_view(r) == spec_decode_jsonrpc_error(j@),
    {
        let es = match j {
            JsonValue::Obj(es) => es,
            _ => { return Err(mk_err(DecodeErrorKind::ExpectedObject, "error")) },
        };
        let code = match get_i64_req(es, "code") {
            Ok(v) => v,
            Err(e) => { return Err(e) },
        };
        let message = match get_str_req(es, "message") {
            Ok(v) => v,
            Err(e) => { return Err(e) },
        };
        let data = match get_entry(es, "data") {
            None => None,
            Some(JsonValue::Null) => None,
            Some(d) => Some(d.deep_clone()),
        };
        Ok(JSONRPCError { code, message, data })
    }
}

/// Decoding an encoded error record yields it back, provided `data` is
/// not the explicit JSON `null`.
pub proof fn lemma_jsonrpc_error_round_trip(v: SpecJSONRPCError)
    requires
        opt_val_wf(v.data),
    ensures
        spec_decode_jsonrpc_error(spec_encode_jsonrpc_error(v)) == Ok::<
            SpecJSONRPCError,
            SpecDecodeError,
        >(v),
{
    broadcast use crate::codec::lemma_spec_get_concat;

    reveal_with_fuel(spec_get, 3);
    reveal_strlit("code");
    reveal_strlit("data");
    reveal_strlit("message");
    assert("code"@.len() == 4);
    assert("data"@.len() == 4);
    assert("message"@.len() == 7);
    assert("code"@[0] == 'c');
    assert("data"@[0] == 'd');
    let es = jsonrpc_error_entries(v);
    assert(spec_get(es, "code"@) == Some(SpecJson::Int(v.code)));
    assert(spec_get(es, "message"@) == Some(SpecJson::Str(v.message)));
    assert(spec_get(es, "data"@) == v.data);
}

/// The defined method names of the protocol; dispatch on them is a host
/// application's concern.
#[derive(Debug, Clone, Copy, PartialEq, Eq, Structural)]
pub enum JsonRpcMethods {
    MessageSend,
    MessageStream,
    TasksGet,
    TasksStream,
    TasksList,
    TasksCancel,
    TasksPushNotificationConfigSet,
    TasksPushNotificationConfigGet,
    TasksPushNotificationConfigList,
    TasksPushNotificationConfigDelete,
    TasksResubscribe,
    AgentGetAuthenticatedExtendedCard,
}

/// The wire name of each method.
pub open spec fn method_token(m: JsonRpcMethods) -> Seq<char> {
    match m {
        JsonRpcMethods::MessageSend => "message/send"@,
        JsonRpcMethods::MessageStream => "message/stream"@,
        JsonRpcMethods::TasksGet => "tasks/get"@,
        JsonRpcMethods::TasksStream => "tasks/stream"@,
        JsonRpcMethods::TasksList => "tasks/list"@,
        JsonRpcMethods::TasksCancel => "tasks/cancel"@,
        JsonRpcMethods::TasksPushNotificationConfigSet => "tasks/pushNotificationConfig/set"@,
        JsonRpcMethods::TasksPushNotificationConfigGet => "tasks/pushNotificationConfig/get"@,
        JsonRpcMethods::TasksPushNotificationConfigList => "tasks/pushNotificationConfig/list"@,
        JsonRpcMethods::TasksPushNotificationConfigDelete => "tasks/pushNotificationConfig/delete"@,
        JsonRpcMethods::TasksResubscribe => "tasks/resubscribe"@,
        JsonRpcMethods::AgentGetAuthenticatedExtendedCard => "agent/getAuthenticatedExtendedCard"@,
    }
}

impl JsonRpcMethods {
    /// The wire name of this method.
    pub fn as_str(&self) -> (r: &str)
        ensures
            r@ == method_token(*self),
    {
        match self {
            JsonRpcMethods::MessageSend => "message/send",
            JsonRpcMethods::MessageStream => "message/stream",
            JsonRpcMethods::TasksGet => "tasks/get",
            JsonRpcMethods::TasksStream => "tasks/stream",
            JsonRpcMethods::TasksList => "tasks/list",
            JsonRpcMethods::TasksCancel => "tasks/cancel",
            JsonRpcMethods::TasksPushNotificationConfigSet => "tasks/pushNotificationConfig/set",
            JsonRpcMethods::TasksPushNotificationConfigGet => "tasks/pushNotificationConfig/get",
            JsonRpcMethods::TasksPushNotificationConfigList => "tasks/pushNotificationConfig/list",
            JsonRpcMethods::TasksPushNotificationConfigDelete => "tasks/pushNotificationConfig/delete",
            JsonRpcMethods::TasksResubscribe => "tasks/resubscribe",
            JsonRpcMethods::AgentGetAuthenticatedExtendedCard => "agent/getAuthenticatedExtendedCard",
        }
    }
}

/// Configuration options for a `message/send` or `message/stream`
/// request.
#[derive(Debug, Clone, PartialEq, Eq)]
pub struct MessageSendConfiguration {
    /// Output MIME types the client is prepared to accept.
    pub accepted_output_modes: Option<String>,
    /// How many recent history messages to return.
    pub history_length: Option<i16>,
    /// Push-notification configuration for later updates.
    pub push_notification_config: Option<PushNotificationConfig>,
    /// Whether the client waits for task completion.
    pub blocking: Option<bool>,
}

/// Mathematical model of a [`MessageSendConfiguration`].
#[verifier::ext_equal]
pub struct SpecMessageSendConfiguration {
    pub accepted_output_modes: Option<Seq<char>>,
    pub history_length: Option<i16>,
    pub push_notification_config: Option<SpecPushNotificationConfig>,
    pub blocking: Option<bool>,
}

impl View for MessageSendConfiguration {
    type V = SpecMessageSendConfiguration;

    open spec fn view(&self) -> SpecMessageSendConfiguration {
        SpecMessageSendConfiguration {
            accepted_output_modes: self.accepted_output_modes.deep_view(),
            history_length: self.history_length.deep_view(),
            push_notification_config: self.push_notification_config.deep_view(),
            blocking: self.blocking.deep_view(),
        }
    }
}

impl DeepView for MessageSendConfiguration {
    type V = SpecMessageSendConfiguration;

    open spec fn deep_view(&self) -> SpecMessageSendConfiguration {
        self.view()
    }
}

/// The encoded entries of a [`MessageSendConfiguration`], in ascending
/// key order.
pub open spec fn send_configuration_entries(v: SpecMessageSendConfiguration) -> Seq<
    (Seq<char>, SpecJson),
> {
    opt_str_entry("acceptedOutputModes"@, v.accepted_output_modes) + opt_bool_entry(
        "blocking"@,
        v.blocking,
    ) + (match v.history_length {
        Some(n) => int_entry("historyLength"@, n as i64),
        None => Seq::empty(),
    }) + (match v.push_notification_config {
        Some(c) => val_entry("pushNotificationConfig"@, spec_encode_push_config(c)),
        None => Seq::empty(),
    })
}

pub open spec fn spec_encode_send_configuration(v: SpecMessageSendConfiguration) -> SpecJson {
    SpecJson::Obj(send_configuration_entries(v))
}

pub open spec fn spec_decode_send_configuration(j: SpecJson) -> Result<
    SpecMessageSendConfiguration,
    SpecDecodeError,
> {
    match j {
        SpecJson::Obj(es) => match spec_opt_str(es, "acceptedOutputModes"@) {
            Err(e) => Err(e),
            Ok(accepted_output_modes) => match spec_opt_i64(es, "historyLength"@) {
                Err(e) => Err(e),
                Ok(hl) => if hl is Some && (hl->0 < i16::MIN as i64 || hl->0 > i16::MAX as i64) {
                    Err(spec_err(DecodeErrorKind::OutOfRange, "historyLength"@))
                } else {
                    match spec_get(es, "pushNotificationConfig"@) {
                        Some(SpecJson::Null) => match spec_opt_bool(es, "blocking"@) {
                            Err(e) => Err(e),
                            Ok(blocking) => Ok(
                                SpecMessageSendConfiguration {
                                    accepted_output_modes,
                                    history_length: match hl {
                                        Some(n) => Some(n as i16),
                                        None => None,
                                    },
                                    push_notification_config: None,
                                    blocking,
                                },
                            ),
                        },
                        Some(cj) => match spec_decode_push_config(cj) {
                            Err(e) => Err(e),
                            Ok(c) => match spec_opt_bool(es, "blocking"@) {
                                Err(e) => Err(e),
                                Ok(blocking) => Ok(
                                    SpecMessageSendConfiguration {
                                        accepted_output_modes,
                                        history_length: match hl {
                                            Some(n) => Some(n as i16),
                                            None => None,
                                        },
                                        push_notification_config: Some(c),
                                        blocking,
                                    },
                                ),
                            },
                        },
                        None => match spec_opt_bool(es, "blocking"@) {
                            Err(e) => Err(e),
                            Ok(blocking) => Ok(
                                SpecMessageSendConfiguration {
                                    accepted_output_modes,
                                    history_length: match hl {
                                        Some(n) => Some(n as i16),
                                        None => None,
                                    },
                                    push_notification_config: None,
                                    blocking,
                                },
                            ),
                        },
                    }
                },
            },
        },
        _ => Err(spec_err(DecodeErrorKind::ExpectedObject, "configuration"@)),
    }
}

impl MessageSendConfiguration {
    /// Encodes this record as a JSON object, omitting absent optional
    /// fields entirely.
    pub fn to_json(&self) -> (r: JsonValue)
        ensures
            r@ == spec_encode_send_configuration(self@),
    {
        let mut b = ObjBuilder::new();
        b.push_opt_str("acceptedOutputModes", &self.accepted_output_modes);
        b.push_opt_bool("blocking", &self.blocking);
        match &self.history_length {
            Some(n) => b.push_int("historyLength", *n as i64),
            None => (),
        }
        match &self.push_notification_config {
            Some(c) => b.push_val("pushNotificationConfig", c.to_json()),
            None => (),
        }
        proof {
            assert(b@ =~= send_configuration_entries(self@));
        }
        b.finish()
    }

    /// Decodes a JSON object into this record; a `historyLength` outside
    /// the 16-bit range is rejected.
    pub fn from_json(j: &JsonValue) -> (r: Result<MessageSendConfiguration, DecodeError>)
        ensures
            res_deep_view(r) == spec_decode_send_configuration(j@),
    {
        let es = match j {
            JsonValue::Obj(es) => es,
            _ => { return Err(mk_err(DecodeErrorKind::ExpectedObject, "configuration")) },
        };
        let accepted_output_modes = match get_str_opt(es, "acceptedOutputModes") {
            Ok(v) => v,
            Err(e) => { return Err(e) },
        };
        let hl = match get_i64_opt(es, "historyLength") {
            Ok(v) => v,
            Err(e) => { return Err(e) },
        };
        let history_length = match hl {
            Some(n) => {
                if n < i16::MIN as i64 || n > i16::MAX as i64 {
                    return Err(mk_err(DecodeErrorKind::OutOfRange, "historyLength"));
                }
                Some(n as i16)
            },
            None => None,
        };
        let push_notification_config = match get_entry(es, "pushNotificationConfig") {
            Some(JsonValue::Null) => None,
            Some(cj) => match PushNotificationConfig::from_json(cj) {
                Ok(c) => Some(c),
                Err(e) => { return Err(e) },
            },
            None => None,
        };
        let blocking = match get_bool_opt(es, "blocking") {
            Ok(v) => v,
            Err(e) => { return Err(e) },
        };
        Ok(
            MessageSendConfiguration {
                accepted_output_modes,
                history_length,
                push_notification_config,
                blocking,
            },
        )
    }
}

/// Decoding an encoded configuration yields it back.
pub proof fn lemma_send_configuration_round_trip(v: SpecMessageSendConfiguration)
    ensures
        spec_decode_send_configuration(spec_encode_send_configuration(v)) == Ok::<
            SpecMessageSendConfiguration,
            SpecDecodeError,
        >(v),
{
    broadcast use crate::codec::lemma_spec_get_concat;

    reveal_with_fuel(spec_get, 3);
    reveal_strlit("acceptedOutputModes");
    reveal_strlit("blocking");
    reveal_strlit("historyLength");
    reveal_strlit("pushNotificationConfig");
    assert("acceptedOutputModes"@.len() == 19);
    assert("blocking"@.len() == 8);
    assert("historyLength"@.len() == 13);
    assert("pushNotificationConfig"@.len() == 22);
    let es = send_configuration_entries(v);
    assert(spec_get(es, "acceptedOutputModes"@) == match v.accepted_output_modes {
        Some(s) => Some(SpecJson::Str(s)),
        None => None,
    });
    assert(spec_get(es, "blocking"@) == match v.blocking {
        Some(b) => Some(SpecJson::Bool(b)),
        None => None,
    });
    assert(spec_get(es, "historyLength"@) == match v.history_length {
        Some(n) => Some(SpecJson::Int(n as i64)),
        None => None,
    });
    assert(spec_get(es, "pushNotificationConfig"@) == match v.push_notification_config {
        Some(c) => Some(spec_encode_push_config(c)),
        None => None,
    });
    match v.push_notification_config {
        Some(c) => {
            lemma_push_config_round_trip(c);
            assert(!(spec_encode_push_config(c) is Null));
        },
        None => (),
    }
}

/// Parameters of a request to send a message to an agent.
#[derive(Debug, Clone, PartialEq, Eq)]
pub struct MessageSendParams {
    /// The message being sent.
    pub message: Message,
    /// Optional configuration for the send request.
    pub configuration: Option<MessageSendConfiguration>,
    /// Optional metadata for extensions.
    pub metadata: Option<StrMap>,
}

/// Mathematical model of a [`MessageSendParams`].
#[verifier::ext_equal]
pub struct SpecMessageSendParams {
    pub message: SpecMessage,
    pub configuration: Option<SpecMessageSendConfiguration>,
    pub metadata: Option<Seq<(Seq<char>, Seq<char>)>>,
}

impl View for MessageSendParams {
    type V = SpecMessageSendParams;

    open spec fn view(&self) -> SpecMessageSendParams {
        SpecMessageSendParams {
            message: self.message@,
            configuration: self.configuration.deep_view(),
            metadata: self.metadata.deep_view(),
        }
    }
}

impl DeepView for MessageSendParams {
    type V = SpecMessageSendParams;

    open spec fn deep_view(&self) -> SpecMessageSendParams {
        self.view()
    }
}

/// The encoded entries of a [`MessageSendParams`], in ascending key
/// order.
pub open spec fn send_params_entries(v: SpecMessageSendParams) -> Seq<(Seq<char>, SpecJson)> {
    (match v.configuration {
        Some(c) => val_entry("configuration"@, spec_encode_send_configuration(c)),
        None => Seq::empty(),
    }) + val_entry("message"@, spec_encode_message(v.message)) + opt_strmap_entry(
        "metadata"@,
        v.metadata,
    )
}

pub open spec fn spec_encode_send_params(v: SpecMessageSendParams) -> SpecJson {
    SpecJson::Obj(send_params_entries(v))
}

pub open spec fn spec_decode_send_params(j: SpecJson) -> Result<
    SpecMessageSendParams,
    SpecDecodeError,
> {
    match j {
        SpecJson::Obj(es) => match spec_get(es, "message"@) {
            None => Err(spec_err(DecodeErrorKind::MissingField, "message"@)),
            Some(mj) => match spec_decode_message(mj) {
                Err(e) => Err(e),
                Ok(message) => match spec_get(es, "configuration"@) {
                    Some(SpecJson::Null) => match spec_opt_strmap(es, "metadata"@) {
                        Err(e) => Err(e),
                        Ok(metadata) => Ok(
                            SpecMessageSendParams { message, configuration: None, metadata },
                        ),
                    },
                    Some(cj) => match spec_decode_send_configuration(cj) {
                        Err(e) => Err(e),
                        Ok(c) => match spec_opt_strmap(es, "metadata"@) {
                            Err(e) => Err(e),
                            Ok(metadata) => Ok(
                                SpecMessageSendParams {
                                    message,
                                    configuration: Some(c),
                                    metadata,
                                },
                            ),
                        },
                    },
                    None => match spec_opt_strmap(es, "metadata"@) {
                        Err(e) => Err(e),
                        Ok(metadata) => Ok(
                            SpecMessageSendParams { message, configuration: None, metadata },
                        ),
                    },
                },
            },
        },
        _ => Err(spec_err(DecodeErrorKind::ExpectedObject, "params"@)),
    }
}

impl MessageSendParams {
    /// Encodes these parameters as a JSON object.
    pub fn to_json(&self) -> (r: JsonValue)
        ensures
            r@ == spec_encode_send_params(self@),
    {
        let mut b = ObjBuilder::new();
        match &self.configuration {
            Some(c) => b.push_val("configuration", c.to_json()),
            None => (),
        }
        b.push_val("message", self.message.to_json());
        b.push_opt_str_map("metadata", &self.metadata);
        proof {
            assert(b@ =~= send_params_entries(self@));
        }
        b.finish()
    }

    /// Decodes a JSON object into these parameters.
    pub fn from_json(j: &JsonValue) -> (r: Result<MessageSendParams, DecodeError>)
        ensures
            res_deep_view(r) == spec_decode_send_params(j@),
    {
        let es = match j {
            JsonValue::Obj(es) => es,
            _ => { return Err(mk_err(DecodeErrorKind::ExpectedObject, "params")) },
        };
        let message = match get_entry(es, "message") {
            None => { return Err(mk_err(DecodeErrorKind::MissingField, "message")) },
            Some(mj) => match Message::from_json(mj) {
                Ok(m) => m,
                Err(e) => { return Err(e) },
            },
        };
        let configuration = match get_entry(es, "configuration") {
            Some(JsonValue::Null) => None,
            Some(cj) => match MessageSendConfiguration::from_json(cj) {
                Ok(c) => Some(c),
                Err(e) => { return Err(e) },
            },
            None => None,
        };
        let metadata = match get_strmap_opt(es, "metadata") {
            Ok(v) => v,
            Err(e) => { return Err(e) },
        };
        Ok(MessageSendParams { message, configuration, metadata })
    }
}

/// Send parameters fit for a lossless round trip: the message and the
/// metadata map are.
pub open spec fn send_params_wf(v: SpecMessageSendParams) -> bool {
    crate::protocol_data::message_wf(v.message) && crate::codec::opt_strmap_wf(v.metadata)
}

/// Decoding encoded send parameters yields them back.
pub proof fn lemma_send_params_round_trip(v: SpecMessageSendParams)
    requires
        send_params_wf(v),
    ensures
        spec_decode_send_params(spec_encode_send_params(v)) == Ok::<
            SpecMessageSendParams,
            SpecDecodeError,
        >(v),
{
    broadcast use
        crate::codec::lemma_spec_get_concat,
        crate::codec::lemma_parse_str_map_rt;

    reveal_with_fuel(spec_get, 3);
    reveal_strlit("configuration");
    reveal_strlit("message");
    reveal_strlit("metadata");
    assert("configuration"@.len() == 13);
    assert("message"@.len() == 7);
    assert("metadata"@.len() == 8);
    let es = send_params_entries(v);
    assert(spec_get(es, "message"@) == Some(spec_encode_message(v.message)));
    assert(spec_get(es, "configuration"@) == match v.configuration {
        Some(c) => Some(spec_encode_send_configuration(c)),
        None => None,
    });
    assert(spec_get(es, "metadata"@) == match v.metadata {
        Some(m) => Some(SpecJson::Obj(strmap_entries(m))),
        None => None,
    });
    crate::protocol_data::lemma_message_round_trip(v.message);
    match v.configuration {
        Some(c) => {
            lemma_send_configuration_round_trip(c);
            assert(!(spec_encode_send_configuration(c) is Null));
        },
        None => (),
    }
}

/// Notifies the client of a change in a task's status during streaming.
#[derive(Debug, Clone, PartialEq, Eq)]
pub struct TaskStatusUpdateEvent {
    /// The id of the task that was updated.
    pub task_id: String,
    /// The context id associated with the task.
    pub context_id: String,
    /// The fixed discriminator of this event: `"status-update"`.
    pub kind: String,
    /// The new status of the task.
    pub status: TaskStatus,
    /// Whether this is the final event of the stream; encoded under the
    /// wire key `final`.
    pub is_final: bool,
    /// Optional metadata for extensions.
    pub metadata: Option<StrMap>,
}

/// Mathematical model of a [`TaskStatusUpdateEvent`].
#[verifier::ext_equal]
pub struct SpecTaskStatusUpdateEvent {
    pub task_id: Seq<char>,
    pub context_id: Seq<char>,
    pub kind: Seq<char>,
    pub status: SpecTaskStatus,
    pub is_final: bool,
    pub metadata: Option<Seq<(Seq<char>, Seq<char>)>>,
}

impl View for TaskStatusUpdateEvent {
    type V = SpecTaskStatusUpdateEvent;

    open spec fn view(&self) -> SpecTaskStatusUpdateEvent {
        SpecTaskStatusUpdateEvent {
            task_id: self.task_id@,
            context_id: self.context_id@,
            kind: self.kind@,
            status: self.status@,
            is_final: self.is_final,
            metadata: self.metadata.deep_view(),
        }
    }
}

impl DeepView for TaskStatusUpdateEvent {
    type V = SpecTaskStatusUpdateEvent;

    open spec fn deep_view(&self) -> SpecTaskStatusUpdateEvent {
        self.view()
    }
}

/// The encoded entries of a [`TaskStatusUpdateEvent`], in ascending key
/// order.
pub open spec fn status_update_entries(v: SpecTaskStatusUpdateEvent) -> Seq<(Seq<char>, SpecJson)> {
    str_entry("contextId"@, v.context_id) + bool_entry("final"@, v.is_final) + str_entry(
        "kind"@,
        v.kind,
    ) + opt_strmap_entry("metadata"@, v.metadata) + val_entry(
        "status"@,
        spec_encode_task_status(v.status),
    ) + str_entry("taskId"@, v.task_id)
}

pub open spec fn spec_encode_status_update(v: SpecTaskStatusUpdateEvent) -> SpecJson {
    SpecJson::Obj(status_update_entries(v))
}

pub open spec fn spec_decode_status_update(j: SpecJson) -> Result<
    SpecTaskStatusUpdateEvent,
    SpecDecodeError,
> {
    match j {
        SpecJson::Obj(es) => match spec_req_str(es, "taskId"@) {
            Err(e) => Err(e),
            Ok(task_id) => match spec_req_str(es, "contextId"@) {
                Err(e) => Err(e),
                Ok(context_id) => match spec_req_str(es, "kind"@) {
                    Err(e) => Err(e),
                    Ok(kind) => match spec_get(es, "status"@) {
                        None => Err(spec_err(DecodeErrorKind::MissingField, "status"@)),
                        Some(sj) => match spec_decode_task_status(sj) {
                            Err(e) => Err(e),
                            Ok(status) => match spec_req_bool(es, "final"@) {
                                Err(e) => Err(e),
                                Ok(is_final) => match spec_opt_strmap(es, "metadata"@) {
                                    Err(e) => Err(e),
                                    Ok(metadata) => Ok(
                                        SpecTaskStatusUpdateEvent {
                                            task_id,
                                            context_id,
                                            kind,
                                            status,
                                            is_final,
                                            metadata,
                                        },
                                    ),
                                },
                            },
                        },
                    },
                },
            },
        },
        _ => Err(spec_err(DecodeErrorKind::ExpectedObject, "statusUpdate"@)),
    }
}

impl TaskStatusUpdateEvent {
    /// An empty event carrying the fixed `"status-update"` discriminator.
    pub fn new() -> (r: TaskStatusUpdateEvent)
        ensures
            r@ == (SpecTaskStatusUpdateEvent {
                task_id: ""@,
                context_id: ""@,
                kind: "status-update"@,
                status: SpecTaskStatus { state: TaskState::Unknown, message: None, timestamp: None },
                is_final: false,
                metadata: None,
            }),
    {
        let r = TaskStatusUpdateEvent {
            task_id: String::new(),
            context_id: String::new(),
            kind: String::from_str("status-update"),
            status: TaskStatus { state: TaskState::Unknown, message: None, timestamp: None },
            is_final: false,
            metadata: None,
        };
        proof {
            reveal_strlit("");
            assert(""@ =~= Seq::<char>::empty());
        }
        r
    }

    /// Encodes this event as a JSON object.
    pub fn to_json(&self) -> (r: JsonValue)
        ensures
            r@ == spec_encode_status_update(self@),
    {
        let mut b = ObjBuilder::new();
        b.push_str("contextId", self.context_id.as_str());
        b.push_bool("final", self.is_final);
        b.push_str("kind", self.kind.as_str());
        b.push_opt_str_map("metadata", &self.metadata);
        b.push_val("status", self.status.to_json());
        b.push_str("taskId", self.task_id.as_str());
        proof {
            assert(b@ =~= status_update_entries(self@));
        }
        b.finish()
    }

    /// Decodes a JSON object into this event.
    pub fn from_json(j: &JsonValue) -> (r: Result<TaskStatusUpdateEvent, DecodeError>)
        ensures
            res_deep_view(r) == spec_decode_status_update(j@),
    {
        let es = match j {
            JsonValue::Obj(es) => es,
            _ => { return Err(mk_err(DecodeErrorKind::ExpectedObject, "statusUpdate")) },
        };
        let task_id = match get_str_req(es, "taskId") {
            Ok(v) => v,
            Err(e) => { return Err(e) },
        };
        let context_id = match get_str_req(es, "contextId") {
            Ok(v) => v,
            Err(e) => { return Err(e) },
        };
        let kind = match get_str_req(es, "kind") {
            Ok(v) => v,
            Err(e) => { return Err(e) },
        };
        let status = match get_entry(es, "status") {
            None => { return Err(mk_err(DecodeErrorKind::MissingField, "status")) },
            Some(sj) => match TaskStatus::from_json(sj) {
                Ok(v) => v,
                Err(e) => { return Err(e) },
            },
        };
        let is_final = match get_bool_req(es, "final") {
            Ok(v) => v,
            Err(e) => { return Err(e) },
        };
        let metadata = match get_strmap_opt(es, "metadata") {
            Ok(v) => v,
            Err(e) => { return Err(e) },
        };
        Ok(TaskStatusUpdateEvent { task_id, context_id, kind, status, is_final, metadata })
    }
}

/// A status-update event fit for a lossless round trip: its metadata
/// map and its status are.
pub open spec fn status_update_wf(v: SpecTaskStatusUpdateEvent) -> bool {
    crate::codec::opt_strmap_wf(v.metadata) && crate::protocol_data::task_status_wf(v.status)
}

/// Decoding an encoded status-update event yields it back.
pub proof fn lemma_status_update_round_trip(v: SpecTaskStatusUpdateEvent)
    requires
        status_update_wf(v),
    ensures
        spec_decode_status_update(spec_encode_status_update(v)) == Ok::<
            SpecTaskStatusUpdateEvent,
            SpecDecodeError,
        >(v),
{
    broadcast use
        crate::codec::lemma_spec_get_concat,
        crate::codec::lemma_parse_str_map_rt;

    reveal_with_fuel(spec_get, 3);
    reveal_strlit("contextId");
    reveal_strlit("final");
    reveal_strlit("kind");
    reveal_strlit("metadata");
    reveal_strlit("status");
    reveal_strlit("taskId");
    assert("contextId"@.len() == 9);
    assert("final"@.len() == 5);
    assert("kind"@.len() == 4);
    assert("metadata"@.len() == 8);
    assert("status"@.len() == 6);
    assert("taskId"@.len() == 6);
    assert("status"@[0] == 's');
    assert("taskId"@[0] == 't');
    let es = status_update_entries(v);
    assert(spec_get(es, "taskId"@) == Some(SpecJson::Str(v.task_id)));
    assert(spec_get(es, "contextId"@) == Some(SpecJson::Str(v.context_id)));
    assert(spec_get(es, "kind"@) == Some(SpecJson::Str(v.kind)));
    assert(spec_get(es, "status"@) == Some(spec_encode_task_status(v.status)));
    assert(spec_get(es, "final"@) == Some(SpecJson::Bool(v.is_final)));
    assert(spec_get(es, "metadata"@) == match v.metadata {
        Some(m) => Some(SpecJson::Obj(strmap_entries(m))),
        None => None,
    });
    crate::protocol_data::lemma_task_status_round_trip(v.status);
    assert(!(spec_encode_task_status(v.status) is Null));
}

/// Notifies the client that an artifact was generated or updated during
/// streaming.
#[derive(Debug, Clone, PartialEq, Eq)]
pub struct TaskArtifactUpdateEvent {
    /// The id of the task the artifact belongs to.
    pub task_id: String,
    /// The context id associated with the task.
    pub context_id: String,
    /// The fixed discriminator of this event: `"artifact-update"`.
    pub kind: String,
    /// The artifact that was generated or updated.
    pub artifact: Artifact,
    /// Whether this content appends to a previously sent artifact.
    pub append: Option<bool>,
    /// Whether this is the final chunk of the artifact.
    pub last_chunk: Option<bool>,
    /// Optional metadata for extensions.
    pub metadata: Option<StrMap>,
}

/// Mathematical model of a [`TaskArtifactUpdateEvent`].
#[verifier::ext_equal]
pub struct SpecTaskArtifactUpdateEvent {
    pub task_id: Seq<char>,
    pub context_id: Seq<char>,
    pub kind: Seq<char>,
    pub artifact: SpecArtifact,
    pub append: Option<bool>,
    pub last_chunk: Option<bool>,
    pub metadata: Option<Seq<(Seq<char>, Seq<char>)>>,
}

impl View for TaskArtifactUpdateEvent {
    type V = SpecTaskArtifactUpdateEvent;

    open spec fn view(&self) -> SpecTaskArtifactUpdateEvent {
        SpecTaskArtifactUpdateEvent {
            task_id: self.task_id@,
            context_id: self.context_id@,
            kind: self.kind@,
            artifact: self.artifact@,
            append: self.append.deep_view(),
            last_chunk: self.last_chunk.deep_view(),
            metadata: self.metadata.deep_view(),
        }
    }
}

impl DeepView for TaskArtifactUpdateEvent {
    type V = SpecTaskArtifactUpdateEvent;

    open spec fn deep_view(&self) -> SpecTaskArtifactUpdateEvent {
        self.view()
    }
}

/// The encoded entries of a [`TaskArtifactUpdateEvent`], in ascending
/// key order.
pub open spec fn artifact_update_entries(v: SpecTaskArtifactUpdateEvent) -> Seq<
    (Seq<char>, SpecJson),
> {
    opt_bool_entry("append"@, v.append) + val_entry("artifact"@, spec_encode_artifact(v.artifact))
        + str_entry("contextId"@, v.context_id) + str_entry("kind"@, v.kind) + opt_bool_entry(
        "lastChunk"@,
        v.last_chunk,
    ) + opt_strmap_entry("metadata"@, v.metadata) + str_entry("taskId"@, v.task_id)
}

pub open spec fn spec_encode_artifact_update(v: SpecTaskArtifactUpdateEvent) -> SpecJson {
    SpecJson::Obj(artifact_update_entries(v))
}

pub open spec fn spec_decode_artifact_update(j: SpecJson) -> Result<
    SpecTaskArtifactUpdateEvent,
    SpecDecodeError,
> {
    match j {
        SpecJson::Obj(es) => match spec_req_str(es, "taskId"@) {
            Err(e) => Err(e),
            Ok(task_id) => match spec_req_str(es, "contextId"@) {
                Err(e) => Err(e),
                Ok(context_id) => match spec_req_str(es, "kind"@) {
                    Err(e) => Err(e),
                    Ok(kind) => match spec_get(es, "artifact"@) {
                        None => Err(spec_err(DecodeErrorKind::MissingField, "artifact"@)),
                        Some(aj) => match spec_decode_artifact(aj) {
                            Err(e) => Err(e),
                            Ok(artifact) => match spec_opt_bool(es, "append"@) {
                                Err(e) => Err(e),
                                Ok(append) => match spec_opt_bool(es, "lastChunk"@) {
                                    Err(e) => Err(e),
                                    Ok(last_chunk) => match spec_opt_strmap(es, "metadata"@) {
                                        Err(e) => Err(e),
                                        Ok(metadata) => Ok(
                                            SpecTaskArtifactUpdateEvent {
                                                task_id,
                                                context_id,
                                                kind,
                                                artifact,
                                                append,
                                                last_chunk,
                                                metadata,
                                            },
                                        ),
                                    },
                                },
                            },
                        },
                    },
                },
            },
        },
        _ => Err(spec_err(DecodeErrorKind::ExpectedObject, "artifactUpdate"@)),
    }
}

impl TaskArtifactUpdateEvent {
    /// An empty event carrying the fixed `"artifact-update"`
    /// discriminator.
    pub fn new() -> (r: TaskArtifactUpdateEvent)
        ensures
            r@ == (SpecTaskArtifactUpdateEvent {
                task_id: ""@,
                context_id: ""@,
                kind: "artifact-update"@,
                artifact: SpecArtifact {
                    artifact_id: ""@,
                    name: None,
                    description: None,
                    parts: Seq::empty(),
                    metadata: None,
                    extensions: None,
                },
                append: None,
                last_chunk: None,
                metadata: None,
            }),
    {
        let r = TaskArtifactUpdateEvent {
            task_id: String::new(),
            context_id: String::new(),
            kind: String::from_str("artifact-update"),
            artifact: Artifact {
                artifact_id: String::new(),
                name: None,
                description: None,
                parts: Vec::new(),
                metadata: None,
                extensions: None,
            },
            append: None,
            last_chunk: None,
            metadata: None,
        };
        proof {
            reveal_strlit("");
            assert(""@ =~= Seq::<char>::empty());
            assert(r.artifact.parts.deep_view() =~= Seq::<crate::protocol_data::SpecPart>::empty());
        }
        r
    }

    /// Encodes this event as a JSON object.
    pub fn to_json(&self) -> (r: JsonValue)
        ensures
            r@ == spec_encode_artifact_update(self@),
    {
        let mut b = ObjBuilder::new();
        b.push_opt_bool("append", &self.append);
        b.push_val("artifact", self.artifact.to_json());
        b.push_str("contextId", self.context_id.as_str());
        b.push_str("kind", self.kind.as_str());
        b.push_opt_bool("lastChunk", &self.last_chunk);
        b.push_opt_str_map("metadata", &self.metadata);
        b.push_str("taskId", self.task_id.as_str());
        proof {
            assert(b@ =~= artifact_update_entries(self@));
        }
        b.finish()
    }

    /// Decodes a JSON object into this event.
    pub fn from_json(j: &JsonValue) -> (r: Result<TaskArtifactUpdateEvent, DecodeError>)
        ensures
            res_deep_view(r) == spec_decode_artifact_update(j@),
    {
        let es = match j {
            JsonValue::Obj(es) => es,
            _ => { return Err(mk_err(DecodeErrorKind::ExpectedObject, "artifactUpdate")) },
        };
        let task_id = match get_str_req(es, "taskId") {
            Ok(v) => v,
            Err(e) => { return Err(e) },
        };
        let context_id = match get_str_req(es, "contextId") {
            Ok(v) => v,
            Err(e) => { return Err(e) },
        };
        let kind = match get_str_req(es, "kind") {
            Ok(v) => v,
            Err(e) => { return Err(e) },
        };
        let artifact = match get_entry(es, "artifact") {
            None => { return Err(mk_err(DecodeErrorKind::MissingField, "artifact")) },
            Some(aj) => match Artifact::from_json(aj) {
                Ok(v) => v,
                Err(e) => { return Err(e) },
            },
        };
        let append = match get_bool_opt(es, "append") {
            Ok(v) => v,
            Err(e) => { return Err(e) },
        };
        let last_chunk = match get_bool_opt(es, "lastChunk") {
            Ok(v) => v,
            Err(e) => { return Err(e) },
        };
        let metadata = match get_strmap_opt(es, "metadata") {
            Ok(v) => v,
            Err(e) => { return Err(e) },
        };
        Ok(
            TaskArtifactUpdateEvent {
                task_id,
                context_id,
                kind,
                artifact,
                append,
                last_chunk,
                metadata,
            },
        )
    }
}

/// An artifact-update event fit for a lossless round trip: its metadata
/// map and its artifact are.
pub open spec fn artifact_update_wf(v: SpecTaskArtifactUpdateEvent) -> bool {
    crate::codec::opt_strmap_wf(v.metadata) && crate::protocol_data::artifact_wf(v.artifact)
}

/// Decoding an encoded artifact-update event yields it back.
pub proof fn lemma_artifact_update_round_trip(v: SpecTaskArtifactUpdateEvent)
    requires
        artifact_update_wf(v),
    ensures
        spec_decode_artifact_update(spec_encode_artifact_update(v)) == Ok::<
            SpecTaskArtifactUpdateEvent,
            SpecDecodeError,
        >(v),
{
    broadcast use
        crate::codec::lemma_spec_get_concat,
        crate::codec::lemma_parse_str_map_rt;

    reveal_with_fuel(spec_get, 3);
    reveal_strlit("append");
    reveal_strlit("artifact");
    reveal_strlit("contextId");
    reveal_strlit("kind");
    reveal_strlit("lastChunk");
    reveal_strlit("metadata");
    reveal_strlit("taskId");
    assert("append"@.len() == 6);
    assert("artifact"@.len() == 8);
    assert("contextId"@.len() == 9);
    assert("kind"@.len() == 4);
    assert("lastChunk"@.len() == 9);
    assert("metadata"@.len() == 8);
    assert("taskId"@.len() == 6);
    assert("append"@[0] == 'a');
    assert("taskId"@[0] == 't');
    assert("artifact"@[0] == 'a');
    assert("metadata"@[0] == 'm');
    assert("contextId"@[0] == 'c');
    assert("lastChunk"@[0] == 'l');
    let es = artifact_update_entries(v);
    assert(spec_get(es, "taskId"@) == Some(SpecJson::Str(v.task_id)));
    assert(spec_get(es, "contextId"@) == Some(SpecJson::Str(v.context_id)));
    assert(spec_get(es, "kind"@) == Some(SpecJson::Str(v.kind)));
    assert(spec_get(es, "artifact"@) == Some(spec_encode_artifact(v.artifact)));
    assert(spec_get(es, "append"@) == match v.append {
        Some(b) => Some(SpecJson::Bool(b)),
        None => None,
    });
    assert(spec_get(es, "lastChunk"@) == match v.last_chunk {
        Some(b) => Some(SpecJson::Bool(b)),
        None => None,
    });
    assert(spec_get(es, "metadata"@) == match v.metadata {
        Some(m) => Some(SpecJson::Obj(strmap_entries(m))),
        None => None,
    });
    crate::protocol_data::lemma_artifact_round_trip(v.artifact);
    assert(!(spec_encode_artifact(v.artifact) is Null));
}

/// One streamed result of `message/stream`: a message, a task, or one of
/// the two update events.  Each alternative carries its own fixed `kind`
/// discriminator, which selects the variant on decode.
#[derive(Debug, Clone, PartialEq, Eq)]
pub enum SendStreamingMessageSuccessResponse {
    Message(Message),
    Task(Task),
    TaskStatusUpdateEvent(TaskStatusUpdateEvent),
    TaskArtifactUpdateEvent(TaskArtifactUpdateEvent),
}

/// Mathematical model of a [`SendStreamingMessageSuccessResponse`].
#[verifier::ext_equal]
pub enum SpecSendStreamingMessageSuccessResponse {
    Message(SpecMessage),
    Task(SpecTask),
    TaskStatusUpdateEvent(SpecTaskStatusUpdateEvent),
    TaskArtifactUpdateEvent(SpecTaskArtifactUpdateEvent),
}

impl View for SendStreamingMessageSuccessResponse {
    type V = SpecSendStreamingMessageSuccessResponse;

    open spec fn view(&self) -> SpecSendStreamingMessageSuccessResponse {
        match self {
            SendStreamingMessageSuccessResponse::Message(m) =>
                SpecSendStreamingMessageSuccessResponse::Message(m@),
            SendStreamingMessageSuccessResponse::Task(t) =>
                SpecSendStreamingMessageSuccessResponse::Task(t@),
            SendStreamingMessageSuccessResponse::TaskStatusUpdateEvent(e) =>
                SpecSendStreamingMessageSuccessResponse::TaskStatusUpdateEvent(e@),
            SendStreamingMessageSuccessResponse::TaskArtifactUpdateEvent(e) =>
                SpecSendStreamingMessageSuccessResponse::TaskArtifactUpdateEvent(e@),
        }
    }
}

impl DeepView for SendStreamingMessageSuccessResponse {
    type V = SpecSendStreamingMessageSuccessResponse;

    open spec fn deep_view(&self) -> SpecSendStreamingMessageSuccessResponse {
        self.view()
    }
}

pub open spec fn spec_encode_streaming_result(
    v: SpecSendStreamingMessageSuccessResponse,
) -> SpecJson {
    match v {
        SpecSendStreamingMessageSuccessResponse::Message(m) => spec_encode_message(m),
        SpecSendStreamingMessageSuccessResponse::Task(t) => spec_encode_task(t),
        SpecSendStreamingMessageSuccessResponse::TaskStatusUpdateEvent(e) =>
            spec_encode_status_update(e),
        SpecSendStreamingMessageSuccessResponse::TaskArtifactUpdateEvent(e) =>
            spec_encode_artifact_update(e),
    }
}

/// Decodes one streamed result by its `kind` discriminator.
pub open spec fn spec_decode_streaming_result(j: SpecJson) -> Result<
    SpecSendStreamingMessageSuccessResponse,
    SpecDecodeError,
> {
    match j {
        SpecJson::Obj(es) => match spec_req_str(es, "kind"@) {
            Err(e) => Err(e),
            Ok(tag) => if tag == "message"@ {
                match spec_decode_message(j) {
                    Err(e) => Err(e),
                    Ok(m) => Ok(SpecSendStreamingMessageSuccessResponse::Message(m)),
                }
            } else if tag == "task"@ {
                match spec_decode_task(j) {
                    Err(e) => Err(e),
                    Ok(t) => Ok(SpecSendStreamingMessageSuccessResponse::Task(t)),
                }
            } else if tag == "status-update"@ {
                match spec_decode_status_update(j) {
                    Err(e) => Err(e),
                    Ok(e2) => Ok(SpecSendStreamingMessageSuccessResponse::TaskStatusUpdateEvent(e2)),
                }
            } else if tag == "artifact-update"@ {
                match spec_decode_artifact_update(j) {
                    Err(e) => Err(e),
                    Ok(e2) => Ok(
                        SpecSendStreamingMessageSuccessResponse::TaskArtifactUpdateEvent(e2),
                    ),
                }
            } else {
                Err(spec_err(DecodeErrorKind::UnknownDiscriminator, "kind"@))
            },
        },
        _ => Err(spec_err(DecodeErrorKind::ExpectedObject, "result"@)),
    }
}

impl SendStreamingMessageSuccessResponse {
    /// Encodes the active alternative; its own `kind` field identifies
    /// it on the wire.
    pub fn to_json(&self) -> (r: JsonValue)
        ensures
            r@ == spec_encode_streaming_result(self@),
    {
        match self {
            SendStreamingMessageSuccessResponse::Message(m) => m.to_json(),
            SendStreamingMessageSuccessResponse::Task(t) => t.to_json(),
            SendStreamingMessageSuccessResponse::TaskStatusUpdateEvent(e) => e.to_json(),
            SendStreamingMessageSuccessResponse::TaskArtifactUpdateEvent(e) => e.to_json(),
        }
    }

    /// Decodes a JSON object by its `kind` discriminator.
    pub fn from_json(j: &JsonValue) -> (r: Result<
        SendStreamingMessageSuccessResponse,
        DecodeError,
    >)
        ensures
            res_deep_view(r) == spec_decode_streaming_result(j@),
    {
        let es = match j {
            JsonValue::Obj(es) => es,
            _ => { return Err(mk_err(DecodeErrorKind::ExpectedObject, "result")) },
        };
        let tag = match get_str_req(es, "kind") {
            Ok(v) => v,
            Err(e) => { return Err(e) },
        };
        if crate::json::str_eq(tag.as_str(), "message") {
            match Message::from_json(j) {
                Ok(m) => Ok(SendStreamingMessageSuccessResponse::Message(m)),
                Err(e) => Err(e),
            }
        } else if crate::json::str_eq(tag.as_str(), "task") {
            match Task::from_json(j) {
                Ok(t) => Ok(SendStreamingMessageSuccessResponse::Task(t)),
                Err(e) => Err(e),
            }
        } else if crate::json::str_eq(tag.as_str(), "status-update") {
            match TaskStatusUpdateEvent::from_json(j) {
                Ok(e2) => Ok(SendStreamingMessageSuccessResponse::TaskStatusUpdateEvent(e2)),
                Err(e) => Err(e),
            }
        } else if crate::json::str_eq(tag.as_str(), "artifact-update") {
            match TaskArtifactUpdateEvent::from_json(j) {
                Ok(e2) => Ok(SendStreamingMessageSuccessResponse::TaskArtifactUpdateEvent(e2)),
                Err(e) => Err(e),
            }
        } else {
            Err(mk_err(DecodeErrorKind::UnknownDiscriminator, "kind"))
        }
    }
}

/// A streamed result fit for a lossless round trip: the wrapped value's
/// own `kind` field carries the canonical discriminator of its shape, as
/// the constructors set it.
pub open spec fn streaming_result_wf(v: SpecSendStreamingMessageSuccessResponse) -> bool {
    match v {
        SpecSendStreamingMessageSuccessResponse::Message(m) => m.kind == "message"@
            && crate::protocol_data::message_wf(m),
        SpecSendStreamingMessageSuccessResponse::Task(t) => t.kind == "task"@
            && crate::protocol_data::task_wf(t),
        SpecSendStreamingMessageSuccessResponse::TaskStatusUpdateEvent(e) => e.kind
            == "status-update"@ && status_update_wf(e),
        SpecSendStreamingMessageSuccessResponse::TaskArtifactUpdateEvent(e) => e.kind
            == "artifact-update"@ && artifact_update_wf(e),
    }
}

/// Decoding an encoded streamed result yields it back: each alternative
/// writes its own `kind` discriminator, which selects the same
/// alternative on decode.
pub proof fn lemma_streaming_result_round_trip(v: SpecSendStreamingMessageSuccessResponse)
    requires
        streaming_result_wf(v),
    ensures
        spec_decode_streaming_result(spec_encode_streaming_result(v)) == Ok::<
            SpecSendStreamingMessageSuccessResponse,
            SpecDecodeError,
        >(v),
{
    broadcast use crate::codec::group_entry_lookup;

    reveal_strlit("kind");
    reveal_strlit("message");
    reveal_strlit("task");
    reveal_strlit("status-update");
    reveal_strlit("artifact-update");
    assert("kind"@.len() == 4);
    assert("message"@.len() == 7);
    assert("task"@.len() == 4);
    assert("status-update"@.len() == 13);
    assert("artifact-update"@.len() == 15);
    assert("kind"@[0] == 'k');
    assert("task"@[0] == 't');
    match v {
        SpecSendStreamingMessageSuccessResponse::Message(m) => {
            reveal_strlit("contextId");
            reveal_strlit("extensions");
            reveal_strlit("messageId");
            reveal_strlit("metadata");
            reveal_strlit("parts");
            reveal_strlit("referenceTaskIds");
            reveal_strlit("role");
            reveal_strlit("taskId");
            assert("contextId"@.len() == 9);
            assert("extensions"@.len() == 10);
            assert("messageId"@.len() == 9);
            assert("metadata"@.len() == 8);
            assert("parts"@.len() == 5);
            assert("referenceTaskIds"@.len() == 16);
            assert("role"@.len() == 4);
            assert("taskId"@.len() == 6);
            assert("role"@[0] == 'r');
            assert(spec_get(crate::protocol_data::message_entries(m), "kind"@) == Some(
                SpecJson::Str(m.kind),
            ));
            crate::protocol_data::lemma_message_round_trip(m);
        },
        SpecSendStreamingMessageSuccessResponse::Task(t) => {
            reveal_strlit("artifacts");
            reveal_strlit("contextId");
            reveal_strlit("history");
            reveal_strlit("id");
            reveal_strlit("metadata");
            reveal_strlit("status");
            assert("artifacts"@.len() == 9);
            assert("contextId"@.len() == 9);
            assert("history"@.len() == 7);
            assert("id"@.len() == 2);
            assert("metadata"@.len() == 8);
            assert("status"@.len() == 6);
            assert(spec_get(crate::protocol_data::task_entries(t), "kind"@) == Some(
                SpecJson::Str(t.kind),
            ));
            crate::protocol_data::lemma_task_round_trip(t);
        },
        SpecSendStreamingMessageSuccessResponse::TaskStatusUpdateEvent(e) => {
            reveal_strlit("contextId");
            reveal_strlit("final");
            reveal_strlit("metadata");
            reveal_strlit("status");
            reveal_strlit("taskId");
            assert("contextId"@.len() == 9);
            assert("final"@.len() == 5);
            assert("metadata"@.len() == 8);
            assert("status"@.len() == 6);
            assert("taskId"@.len() == 6);
            assert("status"@[0] == 's');
            assert("taskId"@[0] == 't');
            assert(spec_get(status_update_entries(e), "kind"@) == Some(SpecJson::Str(e.kind)));
            lemma_status_update_round_trip(e);
        },
        SpecSendStreamingMessageSuccessResponse::TaskArtifactUpdateEvent(e) => {
            reveal_strlit("append");
            reveal_strlit("artifact");
            reveal_strlit("contextId");
            reveal_strlit("lastChunk");
            reveal_strlit("metadata");
            reveal_strlit("taskId");
            assert("append"@.len() == 6);
            assert("artifact"@.len() == 8);
            assert("contextId"@.len() == 9);
            assert("lastChunk"@.len() == 9);
            assert("metadata"@.len() == 8);
            assert("taskId"@.len() == 6);
            assert("append"@[0] == 'a');
            assert("taskId"@[0] == 't');
            assert(spec_get(artifact_update_entries(e), "kind"@) == Some(SpecJson::Str(e.kind)));
            lemma_artifact_update_round_trip(e);
        },
    }
}

/// Parameters for querying a task.
#[derive(Debug, Clone, PartialEq, Eq)]
pub struct TaskQueryParams {
    /// How many recent history messages to return.
    pub history_length: Option<i64>,
}

/// Mathematical model of a [`TaskQueryParams`].
#[verifier::ext_equal]
pub struct SpecTaskQueryParams {
    pub history_length: Option<i64>,
}

impl View for TaskQueryParams {
    type V = SpecTaskQueryParams;

    open spec fn view(&self) -> SpecTaskQueryParams {
        SpecTaskQueryParams { history_length: self.history_length.deep_view() }
    }
}

impl DeepView for TaskQueryParams {
    type V = SpecTaskQueryParams;

    open spec fn deep_view(&self) -> SpecTaskQueryParams {
        self.view()
    }
}

pub open spec fn task_query_params_entries(v: SpecTaskQueryParams) -> Seq<(Seq<char>, SpecJson)> {
    opt_int_entry("historyLength"@, v.history_length)
}

pub open spec fn spec_encode_task_query_params(v: SpecTaskQueryParams) -> SpecJson {
    SpecJson::Obj(task_query_params_entries(v))
}

pub open spec fn spec_decode_task_query_params(j: SpecJson) -> Result<
    SpecTaskQueryParams,
    SpecDecodeError,
> {
    match j {
        SpecJson::Obj(es) => match spec_opt_i64(es, "historyLength"@) {
            Err(e) => Err(e),
            Ok(history_length) => Ok(SpecTaskQueryParams { history_length }),
        },
        _ => Err(spec_err(DecodeErrorKind::ExpectedObject, "params"@)),
    }
}

impl TaskQueryParams {
    /// Encodes these parameters as a JSON object.
    pub fn to_json(&self) -> (r: JsonValue)
        ensures
            r@ == spec_encode_task_query_params(self@),
    {
        let mut b = ObjBuilder::new();
        b.push_opt_int("historyLength", &self.history_length);
        proof {
            assert(b@ =~= task_query_params_entries(self@));
        }
        b.finish()
    }

    /// Decodes a JSON object into these parameters.
    pub fn from_json(j: &JsonValue) -> (r: Result<TaskQueryParams, DecodeError>)
        ensures
            res_deep_view(r) == spec_decode_task_query_params(j@),
    {
        let es = match j {
            JsonValue::Obj(es) => es,
            _ => { return Err(mk_err(DecodeErrorKind::ExpectedObject, "params")) },
        };
        let history_length = match get_i64_opt(es, "historyLength") {
            Ok(v) => v,
            Err(e) => { return Err(e) },
        };
        Ok(TaskQueryParams { history_length })
    }
}

/// Decoding encoded query parameters yields them back.
pub proof fn lemma_task_query_params_round_trip(v: SpecTaskQueryParams)
    ensures
        spec_decode_task_query_params(spec_encode_task_query_params(v)) == Ok::<
            SpecTaskQueryParams,
            SpecDecodeError,
        >(v),
{
    broadcast use crate::codec::lemma_spec_get_concat;

    reveal_with_fuel(spec_get, 3);
    reveal_strlit("historyLength");
    let es = task_query_params_entries(v);
    assert(spec_get(es, "historyLength"@) == match v.history_length {
        Some(n) => Some(SpecJson::Int(n)),
        None => None,
    });
}

/// Parameters for listing tasks with optional filters and pagination.
#[derive(Debug, Clone, PartialEq, Eq)]
pub struct ListTasksParams {
    /// Filter tasks by context id.
    pub context_id: Option<String>,
    /// Filter tasks by their current state.
    pub status: Option<TaskState>,
    /// Maximum number of tasks to return.
    pub page_size: Option<i64>,
    /// The `nextPageToken` of an earlier result.
    pub page_token: Option<String>,
    /// How many recent history messages to include per task.
    pub history_length: Option<i64>,
    /// Only return tasks updated at or after this epoch-millisecond time.
    pub last_updated_after: Option<i64>,
    /// Whether to include artifacts in the returned tasks.
    pub include_artifacts: Option<bool>,
    /// Request-specific metadata.
    pub metadata: Option<StrMap>,
}

/// Mathematical model of a [`ListTasksParams`].
#[verifier::ext_equal]
pub struct SpecListTasksParams {
    pub context_id: Option<Seq<char>>,
    pub status: Option<TaskState>,
    pub page_size: Option<i64>,
    pub page_token: Option<Seq<char>>,
    pub history_length: Option<i64>,
    pub last_updated_after: Option<i64>,
    pub include_artifacts: Option<bool>,
    pub metadata: Option<Seq<(Seq<char>, Seq<char>)>>,
}

impl View for ListTasksParams {
    type V = SpecListTasksParams;

    open spec fn view(&self) -> SpecListTasksParams {
        SpecListTasksParams {
            context_id: self.context_id.deep_view(),
            status: self.status.deep_view(),
            page_size: self.page_size.deep_view(),
            page_token: self.page_token.deep_view(),
            history_length: self.history_length.deep_view(),
            last_updated_after: self.last_updated_after.deep_view(),
            include_artifacts: self.include_artifacts.deep_view(),
            metadata: self.metadata.deep_view(),
        }
    }
}

impl DeepView for ListTasksParams {
    type V = SpecListTasksParams;

    open spec fn deep_view(&self) -> SpecListTasksParams {
        self.view()
    }
}

/// The encoded entries of a [`ListTasksParams`], in ascending key order.
pub open spec fn list_tasks_params_entries(v: SpecListTasksParams) -> Seq<(Seq<char>, SpecJson)> {
    opt_str_entry("contextId"@, v.context_id) + opt_int_entry("historyLength"@, v.history_length)
        + opt_bool_entry("includeArtifacts"@, v.include_artifacts) + opt_int_entry(
        "lastUpdatedAfter"@,
        v.last_updated_after,
    ) + opt_strmap_entry("metadata"@, v.metadata) + opt_int_entry("pageSize"@, v.page_size)
        + opt_str_entry("pageToken"@, v.page_token) + opt_str_entry(
        "status"@,
        match v.status {
            Some(t) => Some(task_state_token(t)),
            None => None,
        },
    )
}

pub open spec fn spec_encode_list_tasks_params(v: SpecListTasksParams) -> SpecJson {
    SpecJson::Obj(list_tasks_params_entries(v))
}

pub open spec fn spec_decode_list_tasks_params(j: SpecJson) -> Result<
    SpecListTasksParams,
    SpecDecodeError,
> {
    match j {
        SpecJson::Obj(es) => match spec_opt_str(es, "contextId"@) {
            Err(e) => Err(e),
            Ok(context_id) => match spec_opt_str(es, "status"@) {
                Err(e) => Err(e),
                Ok(status_tok) => match spec_opt_i64(es, "pageSize"@) {
                    Err(e) => Err(e),
                    Ok(page_size) => match spec_opt_str(es, "pageToken"@) {
                        Err(e) => Err(e),
                        Ok(page_token) => match spec_opt_i64(es, "historyLength"@) {
                            Err(e) => Err(e),
                            Ok(history_length) => match spec_opt_i64(es, "lastUpdatedAfter"@) {
                                Err(e) => Err(e),
                                Ok(last_updated_after) => match spec_opt_bool(
                                    es,
                                    "includeArtifacts"@,
                                ) {
                                    Err(e) => Err(e),
                                    Ok(include_artifacts) => match spec_opt_strmap(
                                        es,
                                        "metadata"@,
                                    ) {
                                        Err(e) => Err(e),
                                        Ok(metadata) => Ok(
                                            SpecListTasksParams {
                                                context_id,
                                                status: match status_tok {
                                                    Some(s) => Some(
                                                        spec_task_state_from_token(s),
                                                    ),
                                                    None => None,
                                                },
                                                page_size,
                                                page_token,
                                                history_length,
                                                last_updated_after,
                                                include_artifacts,
                                                metadata,
                                            },
                                        ),
                                    },
                                },
                            },
                        },
                    },
                },
            },
        },
        _ => Err(spec_err(DecodeErrorKind::ExpectedObject, "params"@)),
    }
}

impl ListTasksParams {
    /// Encodes these parameters as a JSON object, omitting absent
    /// optional fields entirely.
    pub fn to_json(&self) -> (r: JsonValue)
        ensures
            r@ == spec_encode_list_tasks_params(self@),
    {
        let mut b = ObjBuilder::new();
        b.push_opt_str("contextId", &self.context_id);
        b.push_opt_int("historyLength", &self.history_length);
        b.push_opt_bool("includeArtifacts", &self.include_artifacts);
        b.push_opt_int("lastUpdatedAfter", &self.last_updated_after);
        b.push_opt_str_map("metadata", &self.metadata);
        b.push_opt_int("pageSize", &self.page_size);
        b.push_opt_str("pageToken", &self.page_token);
        match &self.status {
            Some(t) => b.push_str("status", t.as_str()),
            None => (),
        }
        proof {
            assert(b@ =~= list_tasks_params_entries(self@));
        }
        b.finish()
    }

    /// Decodes a JSON object into these parameters; the status filter
    /// token decodes leniently.
    pub fn from_json(j: &JsonValue) -> (r: Result<ListTasksParams, DecodeError>)
        ensures
            res_deep_view(r) == spec_decode_list_tasks_params(j@),
    {
        let es = match j {
            JsonValue::Obj(es) => es,
            _ => { return Err(mk_err(DecodeErrorKind::ExpectedObject, "params")) },
        };
        let context_id = match get_str_opt(es, "contextId") {
            Ok(v) => v,
            Err(e) => { return Err(e) },
        };
        let status_tok = match get_str_opt(es, "status") {
            Ok(v) => v,
            Err(e) => { return Err(e) },
        };
        let status = match &status_tok {
            Some(s) => Some(TaskState::from_wire(s.as_str())),
            None => None,
        };
        let page_size = match get_i64_opt(es, "pageSize") {
            Ok(v) => v,
            Err(e) => { return Err(e) },
        };
        let page_token = match get_str_opt(es, "pageToken") {
            Ok(v) => v,
            Err(e) => { return Err(e) },
        };
        let history_length = match get_i64_opt(es, "historyLength") {
            Ok(v) => v,
            Err(e) => { return Err(e) },
        };
        let last_updated_after = match get_i64_opt(es, "lastUpdatedAfter") {
            Ok(v) => v,
            Err(e) => { return Err(e) },
        };
        let include_artifacts = match get_bool_opt(es, "includeArtifacts") {
            Ok(v) => v,
            Err(e) => { return Err(e) },
        };
        let metadata = match get_strmap_opt(es, "metadata") {
            Ok(v) => v,
            Err(e) => { return Err(e) },
        };
        Ok(
            ListTasksParams {
                context_id,
                status,
                page_size,
                page_token,
                history_length,
                last_updated_after,
                include_artifacts,
                metadata,
            },
        )
    }
}

/// The value each field helper reads back from encoded list
/// parameters.
#[verifier::rlimit(100)]
#[verifier::spinoff_prover]
proof fn lemma_list_tasks_params_fields(v: SpecListTasksParams)
    requires
        crate::codec::opt_strmap_wf(v.metadata),
    ensures
        spec_opt_str(list_tasks_params_entries(v), "contextId"@) == Ok::<
            Option<Seq<char>>,
            SpecDecodeError,
        >(v.context_id),
        spec_opt_i64(list_tasks_params_entries(v), "pageSize"@) == Ok::<
            Option<i64>,
            SpecDecodeError,
        >(v.page_size),
        spec_opt_str(list_tasks_params_entries(v), "pageToken"@) == Ok::<
            Option<Seq<char>>,
            SpecDecodeError,
        >(v.page_token),
        spec_opt_i64(list_tasks_params_entries(v), "historyLength"@) == Ok::<
            Option<i64>,
            SpecDecodeError,
        >(v.history_length),
        spec_opt_i64(list_tasks_params_entries(v), "lastUpdatedAfter"@) == Ok::<
            Option<i64>,
            SpecDecodeError,
        >(v.last_updated_after),
        spec_opt_bool(list_tasks_params_entries(v), "includeArtifacts"@) == Ok::<
            Option<bool>,
            SpecDecodeError,
        >(v.include_artifacts),
        spec_opt_strmap(list_tasks_params_entries(v), "metadata"@) == Ok::<
            Option<Seq<(Seq<char>, Seq<char>)>>,
            SpecDecodeError,
        >(v.metadata),
        spec_opt_str(list_tasks_params_entries(v), "status"@) == Ok::<
            Option<Seq<char>>,
            SpecDecodeError,
        >(
            match v.status {
                Some(t) => Some(task_state_token(t)),
                None => None,
            },
        ),
{
    broadcast use crate::codec::group_entry_lookup;

    reveal_strlit("contextId");
    reveal_strlit("historyLength");
    reveal_strlit("includeArtifacts");
    reveal_strlit("lastUpdatedAfter");
    reveal_strlit("metadata");
    reveal_strlit("pageSize");
    reveal_strlit("pageToken");
    reveal_strlit("status");
    assert("contextId"@.len() == 9);
    assert("historyLength"@.len() == 13);
    assert("includeArtifacts"@.len() == 16);
    assert("lastUpdatedAfter"@.len() == 16);
    assert("metadata"@.len() == 8);
    assert("pageSize"@.len() == 8);
    assert("pageToken"@.len() == 9);
    assert("status"@.len() == 6);
    assert("contextId"@[0] == 'c');
    assert("historyLength"@[0] == 'h');
    assert("includeArtifacts"@[0] == 'i');
    assert("lastUpdatedAfter"@[0] == 'l');
    assert("metadata"@[0] == 'm');
    assert("pageSize"@[0] == 'p');
    assert("pageToken"@[0] == 'p');
    assert("status"@[0] == 's');
    assert("pageSize"@[4] == 'S');
    assert("pageToken"@[4] == 'T');
    let es = list_tasks_params_entries(v);
    assert(spec_get(es, "contextId"@) == match v.context_id {
        Some(s) => Some(SpecJson::Str(s)),
        None => None,
    });
    assert(spec_get(es, "status"@) == match v.status {
        Some(t) => Some(SpecJson::Str(task_state_token(t))),
        None => None,
    });
    assert(spec_get(es, "pageSize"@) == match v.page_size {
        Some(n) => Some(SpecJson::Int(n)),
        None => None,
    });
    assert(spec_get(es, "pageToken"@) == match v.page_token {
        Some(s) => Some(SpecJson::Str(s)),
        None => None,
    });
    assert(spec_get(es, "historyLength"@) == match v.history_length {
        Some(n) => Some(SpecJson::Int(n)),
        None => None,
    });
    assert(spec_get(es, "lastUpdatedAfter"@) == match v.last_updated_after {
        Some(n) => Some(SpecJson::Int(n)),
        None => None,
    });
    assert(spec_get(es, "includeArtifacts"@) == match v.include_artifacts {
        Some(b) => Some(SpecJson::Bool(b)),
        None => None,
    });
    assert(spec_get(es, "metadata"@) == match v.metadata {
        Some(m) => Some(SpecJson::Obj(strmap_entries(m))),
        None => None,
    });
    match v.metadata {
        Some(m) => {
            crate::codec::lemma_parse_str_map_rt(m, "metadata"@);
        },
        None => (),
    }
}

/// Decoding encoded list parameters yields them back.
pub proof fn lemma_list_tasks_params_round_trip(v: SpecListTasksParams)
    requires
        crate::codec::opt_strmap_wf(v.metadata),
    ensures
        spec_decode_list_tasks_params(spec_encode_list_tasks_params(v)) == Ok::<
            SpecListTasksParams,
            SpecDecodeError,
        >(v),
{
    lemma_list_tasks_params_fields(v);
    match v.status {
        Some(t) => {
            crate::protocol_data::lemma_task_state_round_trip(t);
        },
        None => (),
    }
}

/// The result of `tasks/list`: the matching tasks and pagination state.
#[derive(Debug, Clone, PartialEq, Eq)]
pub struct ListTasksResult {
    /// Tasks matching the requested filters.
    pub tasks: Vec<Task>,
    /// Total number of tasks available before pagination.
    pub total_size: i64,
    /// Maximum number of tasks returned in this response.
    pub page_size: i64,
    /// Token for retrieving the next page.  Always present: the empty
    /// string, never an omitted or null field, signals the final page.
    pub next_page_token: String,
}

/// Mathematical model of a [`ListTasksResult`].
#[verifier::ext_equal]
pub struct SpecListTasksResult {
    pub tasks: Seq<SpecTask>,
    pub total_size: i64,
    pub page_size: i64,
    pub next_page_token: Seq<char>,
}

impl View for ListTasksResult {
    type V = SpecListTasksResult;

    open spec fn view(&self) -> SpecListTasksResult {
        SpecListTasksResult {
            tasks: self.tasks.deep_view(),
            total_size: self.total_size,
            page_size: self.page_size,
            next_page_token: self.next_page_token@,
        }
    }
}

impl DeepView for ListTasksResult {
    type V = SpecListTasksResult;

    open spec fn deep_view(&self) -> SpecListTasksResult {
        self.view()
    }
}

/// The encoded entries of a [`ListTasksResult`], in ascending key order.
/// `nextPageToken` is a required field: it is emitted whatever its value.
pub open spec fn list_tasks_result_entries(v: SpecListTasksResult) -> Seq<(Seq<char>, SpecJson)> {
    str_entry("nextPageToken"@, v.next_page_token) + int_entry("pageSize"@, v.page_size)
        + val_entry("tasks"@, SpecJson::Arr(tasks_arr(v.tasks))) + int_entry(
        "totalSize"@,
        v.total_size,
    )
}

pub open spec fn spec_encode_list_tasks_result(v: SpecListTasksResult) -> SpecJson {
    SpecJson::Obj(list_tasks_result_entries(v))
}

pub open spec fn spec_decode_list_tasks_result(j: SpecJson) -> Result<
    SpecListTasksResult,
    SpecDecodeError,
> {
    match j {
        SpecJson::Obj(es) => match spec_get(es, "tasks"@) {
            None => Err(spec_err(DecodeErrorKind::MissingField, "tasks"@)),
            Some(SpecJson::Arr(tjs)) => match spec_parse_tasks(tjs) {
                Err(e) => Err(e),
                Ok(tasks) => match spec_req_i64(es, "totalSize"@) {
                    Err(e) => Err(e),
                    Ok(total_size) => match spec_req_i64(es, "pageSize"@) {
                        Err(e) => Err(e),
                        Ok(page_size) => match spec_req_str(es, "nextPageToken"@) {
                            Err(e) => Err(e),
                            Ok(next_page_token) => Ok(
                                SpecListTasksResult {
                                    tasks,
                                    total_size,
                                    page_size,
                                    next_page_token,
                                },
                            ),
                        },
                    },
                },
            },
            Some(_) => Err(spec_err(DecodeErrorKind::ExpectedArr, "tasks"@)),
        },
        _ => Err(spec_err(DecodeErrorKind::ExpectedObject, "result"@)),
    }
}

impl ListTasksResult {
    /// Encodes this result as a JSON object.  `nextPageToken` is always
    /// emitted, as the empty string when there are no further pages.
    pub fn to_json(&self) -> (r: JsonValue)
        ensures
            r@ == spec_encode_list_tasks_result(self@),
    {
        let mut b = ObjBuilder::new();
        b.push_str("nextPageToken", self.next_page_token.as_str());
        b.push_int("pageSize", self.page_size);
        b.push_val("tasks", encode_tasks(&self.tasks));
        b.push_int("totalSize", self.total_size);
        proof {
            assert(b@ =~= list_tasks_result_entries(self@));
        }
        b.finish()
    }

    /// Decodes a JSON object into this result; a missing or null
    /// `nextPageToken` is a hard failure, not a default.
    pub fn from_json(j: &JsonValue) -> (r: Result<ListTasksResult, DecodeError>)
        ensures
            res_deep_view(r) == spec_decode_list_tasks_result(j@),
    {
        let es = match j {
            JsonValue::Obj(es) => es,
            _ => { return Err(mk_err(DecodeErrorKind::ExpectedObject, "result")) },
        };
        let tasks = match get_entry(es, "tasks") {
            None => { return Err(mk_err(DecodeErrorKind::MissingField, "tasks")) },
            Some(JsonValue::Arr(tjs)) => match parse_tasks(tjs) {
                Ok(v) => v,
                Err(e) => { return Err(e) },
            },
            Some(_) => { return Err(mk_err(DecodeErrorKind::ExpectedArr, "tasks")) },
        };
        let total_size = match get_i64_req(es, "totalSize") {
            Ok(v) => v,
            Err(e) => { return Err(e) },
        };
        let page_size = match get_i64_req(es, "pageSize") {
            Ok(v) => v,
            Err(e) => { return Err(e) },
        };
        let next_page_token = match get_str_req(es, "nextPageToken") {
            Ok(v) => v,
            Err(e) => { return Err(e) },
        };
        Ok(ListTasksResult { tasks, total_size, page_size, next_page_token })
    }
}

/// The pagination sentinel: an encoded result always carries the
/// `nextPageToken` key with its exact string value — present and equal
/// to the empty string, never omitted and never null, when there are no
/// further pages.
pub proof fn lemma_next_page_token_always_present(v: SpecListTasksResult)
    ensures
        spec_get(list_tasks_result_entries(v), "nextPageToken"@) == Some(
            SpecJson::Str(v.next_page_token),
        ),
{
    broadcast use crate::codec::lemma_spec_get_concat;

    reveal_with_fuel(spec_get, 3);
    reveal_strlit("nextPageToken");
    reveal_strlit("pageSize");
    reveal_strlit("tasks");
    reveal_strlit("totalSize");
    assert("nextPageToken"@.len() == 13);
    assert("pageSize"@.len() == 8);
    assert("tasks"@.len() == 5);
    assert("totalSize"@.len() == 9);
}

/// The encoder commits to a stable, ascending lexical key order for
/// reproducible output; an encoded listing result shows it.
pub proof fn lemma_list_tasks_result_keys_sorted(v: SpecListTasksResult)
    ensures
        crate::codec::keys_sorted(list_tasks_result_entries(v)),
{
    reveal_with_fuel(crate::util_types::lex_lt, 2);
    reveal_strlit("nextPageToken");
    reveal_strlit("pageSize");
    reveal_strlit("tasks");
    reveal_strlit("totalSize");
    assert("nextPageToken"@.len() == 13);
    assert("pageSize"@.len() == 8);
    assert("tasks"@.len() == 5);
    assert("totalSize"@.len() == 9);
    assert("nextPageToken"@[0] == 'n');
    assert("pageSize"@[0] == 'p');
    assert("tasks"@[0] == 't');
    assert("totalSize"@[0] == 't');
    assert("tasks"@[1] == 'a');
    assert("totalSize"@[1] == 'o');
    let es = list_tasks_result_entries(v);
    assert(es.len() == 4);
    assert(es[0].0 == "nextPageToken"@);
    assert(es[1].0 == "pageSize"@);
    assert(es[2].0 == "tasks"@);
    assert(es[3].0 == "totalSize"@);
    assert(crate::util_types::lex_lt("nextPageToken"@, "pageSize"@));
    assert(crate::util_types::lex_lt("pageSize"@, "tasks"@));
    assert(crate::util_types::lex_lt("tasks"@, "totalSize"@));
}

/// Decoding an encoded listing result yields it back.
pub proof fn lemma_list_tasks_result_round_trip(v: SpecListTasksResult)
    requires
        crate::protocol_data::tasks_wf(v.tasks),
    ensures
        spec_decode_list_tasks_result(spec_encode_list_tasks_result(v)) == Ok::<
            SpecListTasksResult,
            SpecDecodeError,
        >(v),
{
    broadcast use
        crate::codec::lemma_spec_get_concat,
        crate::protocol_data::lemma_tasks_arr_round_trip;

    reveal_with_fuel(spec_get, 3);
    reveal_strlit("nextPageToken");
    reveal_strlit("pageSize");
    reveal_strlit("tasks");
    reveal_strlit("totalSize");
    assert("nextPageToken"@.len() == 13);
    assert("pageSize"@.len() == 8);
    assert("tasks"@.len() == 5);
    assert("totalSize"@.len() == 9);
    let es = list_tasks_result_entries(v);
    assert(spec_get(es, "tasks"@) == Some(SpecJson::Arr(tasks_arr(v.tasks))));
    assert(spec_get(es, "totalSize"@) == Some(SpecJson::Int(v.total_size)));
    assert(spec_get(es, "pageSize"@) == Some(SpecJson::Int(v.page_size)));
    assert(spec_get(es, "nextPageToken"@) == Some(SpecJson::Str(v.next_page_token)));
}

/// Parameters for fetching one push-notification configuration of a
/// task.
#[derive(Debug, Clone, PartialEq, Eq)]
pub struct GetTaskPushNotificationConfigParams {
    /// The id of the configuration to retrieve.
    pub push_notification_config_id: Option<String>,
}

/// Mathematical model of a [`GetTaskPushNotificationConfigParams`].
#[verifier::ext_equal]
pub struct SpecGetTaskPushNotificationConfigParams {
    pub push_notification_config_id: Option<Seq<char>>,
}

impl View for GetTaskPushNotificationConfigParams {
    type V = SpecGetTaskPushNotificationConfigParams;

    open spec fn view(&self) -> SpecGetTaskPushNotificationConfigParams {
        SpecGetTaskPushNotificationConfigParams {
            push_notification_config_id: self.push_notification_config_id.deep_view(),
        }
    }
}

impl DeepView for GetTaskPushNotificationConfigParams {
    type V = SpecGetTaskPushNotificationConfigParams;

    open spec fn deep_view(&self) -> SpecGetTaskPushNotificationConfigParams {
        self.view()
    }
}

pub open spec fn get_push_params_entries(v: SpecGetTaskPushNotificationConfigParams) -> Seq<
    (Seq<char>, SpecJson),
> {
    opt_str_entry("pushNotificationConfigId"@, v.push_notification_config_id)
}

pub open spec fn spec_encode_get_push_params(
    v: SpecGetTaskPushNotificationConfigParams,
) -> SpecJson {
    SpecJson::Obj(get_push_params_entries(v))
}

pub open spec fn spec_decode_get_push_params(j: SpecJson) -> Result<
    SpecGetTaskPushNotificationConfigParams,
    SpecDecodeError,
> {
    match j {
        SpecJson::Obj(es) => match spec_opt_str(es, "pushNotificationConfigId"@) {
            Err(e) => Err(e),
            Ok(push_notification_config_id) => Ok(
                SpecGetTaskPushNotificationConfigParams { push_notification_config_id },
            ),
        },
        _ => Err(spec_err(DecodeErrorKind::ExpectedObject, "params"@)),
    }
}

impl GetTaskPushNotificationConfigParams {
    /// Encodes these parameters as a JSON object.
    pub fn to_json(&self) -> (r: JsonValue)
        ensures
            r@ == spec_encode_get_push_params(self@),
    {
        let mut b = ObjBuilder::new();
        b.push_opt_str("pushNotificationConfigId", &self.push_notification_config_id);
        proof {
            assert(b@ =~= get_push_params_entries(self@));
        }
        b.finish()
    }

    /// Decodes a JSON object into these parameters.
    pub fn from_json(j: &JsonValue) -> (r: Result<
        GetTaskPushNotificationConfigParams,
        DecodeError,
    >)
        ensures
            res_deep_view(r) == spec_decode_get_push_params(j@),
    {
        let es = match j {
            JsonValue::Obj(es) => es,
            _ => { return Err(mk_err(DecodeErrorKind::ExpectedObject, "params")) },
        };
        let push_notification_config_id = match get_str_opt(es, "pushNotificationConfigId") {
            Ok(v) => v,
            Err(e) => { return Err(e) },
        };
        Ok(GetTaskPushNotificationConfigParams { push_notification_config_id })
    }
}

/// Decoding these encoded parameters yields them back.
pub proof fn lemma_get_push_params_round_trip(v: SpecGetTaskPushNotificationConfigParams)
    ensures
        spec_decode_get_push_params(spec_encode_get_push_params(v)) == Ok::<
            SpecGetTaskPushNotificationConfigParams,
            SpecDecodeError,
        >(v),
{
    broadcast use crate::codec::lemma_spec_get_concat;

    reveal_with_fuel(spec_get, 3);
    reveal_strlit("pushNotificationConfigId");
    let es = get_push_params_entries(v);
    assert(spec_get(es, "pushNotificationConfigId"@) == match v.push_notification_config_id {
        Some(s) => Some(SpecJson::Str(s)),
        None => None,
    });
}

/// Parameters for listing the push-notification configurations of a
/// task.  The record carries no fields of its own.
#[derive(Debug, Clone, Copy, PartialEq, Eq, Structural)]
pub struct ListTaskPushNotificationConfigParams {
}

impl View for ListTaskPushNotificationConfigParams {
    type V = ListTaskPushNotificationConfigParams;

    open spec fn view(&self) -> ListTaskPushNotificationConfigParams {
        *self
    }
}

impl DeepView for ListTaskPushNotificationConfigParams {
    type V = ListTaskPushNotificationConfigParams;

    open spec fn deep_view(&self) -> ListTaskPushNotificationConfigParams {
        *self
    }
}

impl ListTaskPushNotificationConfigParams {
    /// Encodes these parameters as the empty JSON object.
    pub fn to_json(&self) -> (r: JsonValue)
        ensures
            r@ == SpecJson::Obj(Seq::empty()),
    {
        let b = ObjBuilder::new();
        b.finish()
    }

    /// Decodes any JSON object into these parameters.
    pub fn from_json(j: &JsonValue) -> (r: Result<
        ListTaskPushNotificationConfigParams,
        DecodeError,
    >)
        ensures
            match r {
                Ok(_) => j@ is Obj,
                Err(e) => !(j@ is Obj) && e@ == spec_err(
                    DecodeErrorKind::ExpectedObject,
                    "params"@,
                ),
            },
    {
        match j {
            JsonValue::Obj(_) => Ok(ListTaskPushNotificationConfigParams {  }),
            _ => Err(mk_err(DecodeErrorKind::ExpectedObject, "params")),
        }
    }
}

/// Parameters for deleting one push-notification configuration of a
/// task.
#[derive(Debug, Clone, PartialEq, Eq)]
pub struct DeleteTaskPushNotificationConfigParams {
    /// The id of the configuration to delete.
    pub push_notification_config_id: String,
}

/// Mathematical model of a [`DeleteTaskPushNotificationConfigParams`].
#[verifier::ext_equal]
pub struct SpecDeleteTaskPushNotificationConfigParams {
    pub push_notification_config_id: Seq<char>,
}

impl View for DeleteTaskPushNotificationConfigParams {
    type V = SpecDeleteTaskPushNotificationConfigParams;

    open spec fn view(&self) -> SpecDeleteTaskPushNotificationConfigParams {
        SpecDeleteTaskPushNotificationConfigParams {
            push_notification_config_id: self.push_notification_config_id@,
        }
    }
}

impl DeepView for DeleteTaskPushNotificationConfigParams {
    type V = SpecDeleteTaskPushNotificationConfigParams;

    open spec fn deep_view(&self) -> SpecDeleteTaskPushNotificationConfigParams {
        self.view()
    }
}

pub open spec fn delete_push_params_entries(v: SpecDeleteTaskPushNotificationConfigParams) -> Seq<
    (Seq<char>, SpecJson),
> {
    str_entry("pushNotificationConfigId"@, v.push_notification_config_id)
}

pub open spec fn spec_encode_delete_push_params(
    v: SpecDeleteTaskPushNotificationConfigParams,
) -> SpecJson {
    SpecJson::Obj(delete_push_params_entries(v))
}

pub open spec fn spec_decode_delete_push_params(j: SpecJson) -> Result<
    SpecDeleteTaskPushNotificationConfigParams,
    SpecDecodeError,
> {
    match j {
        SpecJson::Obj(es) => match spec_req_str(es, "pushNotificationConfigId"@) {
            Err(e) => Err(e),
            Ok(push_notification_config_id) => Ok(
                SpecDeleteTaskPushNotificationConfigParams { push_notification_config_id },
            ),
        },
        _ => Err(spec_err(DecodeErrorKind::ExpectedObject, "params"@)),
    }
}

impl DeleteTaskPushNotificationConfigParams {
    /// Encodes these parameters as a JSON object.
    pub fn to_json(&self) -> (r: JsonValue)
        ensures
            r@ == spec_encode_delete_push_params(self@),
    {
        let mut b = ObjBuilder::new();
        b.push_str("pushNotificationConfigId", self.push_notification_config_id.as_str());
        proof {
            assert(b@ =~= delete_push_params_entries(self@));
        }
        b.finish()
    }

    /// Decodes a JSON object into these parameters.
    pub fn from_json(j: &JsonValue) -> (r: Result<
        DeleteTaskPushNotificationConfigParams,
        DecodeError,
    >)
        ensures
            res_deep_view(r) == spec_decode_delete_push_params(j@),
    {
        let es = match j {
            JsonValue::Obj(es) => es,
            _ => { return Err(mk_err(DecodeErrorKind::ExpectedObject, "params")) },
        };
        let push_notification_config_id = match get_str_req(es, "pushNotificationConfigId") {
            Ok(v) => v,
            Err(e) => { return Err(e) },
        };
        Ok(DeleteTaskPushNotificationConfigParams { push_notification_config_id })
    }
}

/// Decoding these encoded parameters yields them back.
pub proof fn lemma_delete_push_params_round_trip(v: SpecDeleteTaskPushNotificationConfigParams)
    ensures
        spec_decode_delete_push_params(spec_encode_delete_push_params(v)) == Ok::<
            SpecDeleteTaskPushNotificationConfigParams,
            SpecDecodeError,
        >(v),
{
    broadcast use crate::codec::lemma_spec_get_concat;

    reveal_with_fuel(spec_get, 3);
    reveal_strlit("pushNotificationConfigId");
    let es = delete_push_params_entries(v);
    assert(spec_get(es, "pushNotificationConfigId"@) == Some(
        SpecJson::Str(v.push_notification_config_id),
    ));
}

/// A successful response to `agent/getAuthenticatedExtendedCard`: the
/// result is an agent card.
#[derive(Debug, Clone, PartialEq, Eq)]
pub struct GetAuthenticatedExtendedCardSuccessResponse {
    /// The extended agent card.
    pub result: crate::agent_card::AgentCard,
}

impl View for GetAuthenticatedExtendedCardSuccessResponse {
    type V = crate::agent_card::SpecAgentCard;

    open spec fn view(&self) -> crate::agent_card::SpecAgentCard {
        self.result@
    }
}

impl DeepView for GetAuthenticatedExtendedCardSuccessResponse {
    type V = crate::agent_card::SpecAgentCard;

    open spec fn deep_view(&self) -> crate::agent_card::SpecAgentCard {
        self.view()
    }
}

} // verus!
