//! Tests for the record codecs: round trips, the omission rule, the
//! pagination sentinel, and the full response scenario.

use a2a_wire::DecodeErrorKind;
use a2a_wire::JsonValue;
use a2a_wire::Message;
use a2a_wire::MessageRole;
use a2a_wire::Part;
use a2a_wire::PartBase;
use a2a_wire::StrMap;
use a2a_wire::Task;
use a2a_wire::TaskState;
use a2a_wire::TaskStatus;
use a2a_wire::TextPart;
use a2a_wire::jsonrpc::JsonRpcId;
use a2a_wire::jsonrpc::JsonRpcPayload;
use a2a_wire::jsonrpc::JsonRpcRequest;
use a2a_wire::jsonrpc::JsonRpcResponse;
use a2a_wire::jsonrpc::ListTasksParams;
use a2a_wire::jsonrpc::ListTasksResult;
use a2a_wire::jsonrpc::MessageSendConfiguration;
use a2a_wire::jsonrpc::TaskArtifactUpdateEvent;
use a2a_wire::jsonrpc::TaskStatusUpdateEvent;

fn s(v: &str) -> JsonValue {
    JsonValue::Str(v.to_string())
}

fn sample_message() -> Message {
    let mut msg = Message::new();
    msg.role = MessageRole::Agent;
    msg.message_id = "m-1".to_string();
    msg.task_id = Some("t-1".to_string());
    msg.parts = vec![Part::Text(TextPart {
        base: PartBase { metadata: None },
        text: "hello".to_string(),
    })];
    msg
}

fn sample_task() -> Task {
    Task {
        id: "t-1".to_string(),
        context_id: "ctx-1".to_string(),
        status: TaskStatus {
            state: TaskState::Completed,
            message: Some(sample_message()),
            timestamp: Some("2023-10-27T10:00:00Z".to_string()),
        },
        history: Some(vec![sample_message()]),
        artifacts: None,
        metadata: None,
        kind: "task".to_string(),
    }
}

#[test]
fn message_new_carries_its_discriminator() {
    let m = Message::new();
    assert_eq!(m.kind, "message");
    assert_eq!(m.role, MessageRole::User);
    assert!(m.parts.is_empty());
}

#[test]
fn message_round_trips() {
    let m = sample_message();
    let back = Message::from_json(&m.to_json()).unwrap();
    assert_eq!(back, m);
}

#[test]
fn message_omits_absent_optional_fields() {
    let m = sample_message();
    let j = m.to_json();
    // Absent optional fields never appear, not even as null.
    assert!(j.get_field("metadata").is_none());
    assert!(j.get_field("contextId").is_none());
    assert!(j.get_field("extensions").is_none());
    // Present fields appear.
    assert_eq!(j.get_field("taskId"), Some(&s("t-1")));
    assert_eq!(j.get_field("messageId"), Some(&s("m-1")));
}

#[test]
fn message_emits_present_but_empty_values() {
    let mut m = sample_message();
    m.metadata = Some(StrMap::new());
    m.extensions = Some(Vec::new());
    let j = m.to_json();
    // A present-but-empty value still gets its key.
    assert_eq!(j.get_field("metadata"), Some(&JsonValue::Obj(Vec::new())));
    assert_eq!(j.get_field("extensions"), Some(&JsonValue::Arr(Vec::new())));
    let back = Message::from_json(&j).unwrap();
    assert_eq!(back, m);
}

#[test]
fn message_accepts_explicit_null_as_absent() {
    let mut entries = match sample_message().to_json() {
        JsonValue::Obj(es) => es,
        _ => unreachable!(),
    };
    entries.push(("contextId".to_string(), JsonValue::Null));
    let back = Message::from_json(&JsonValue::Obj(entries)).unwrap();
    assert_eq!(back.context_id, None);
}

#[test]
fn message_missing_required_field_fails() {
    let j = JsonValue::Obj(vec![("role".to_string(), s("user"))]);
    let err = Message::from_json(&j).unwrap_err();
    assert_eq!(err.kind(), DecodeErrorKind::MissingField);
    assert_eq!(err.field(), "parts");
}

#[test]
fn task_round_trips() {
    let t = sample_task();
    let back = Task::from_json(&t.to_json()).unwrap();
    assert_eq!(back, t);
}

#[test]
fn task_status_round_trips() {
    let st = TaskStatus { state: TaskState::Working, message: None, timestamp: None };
    let back = TaskStatus::from_json(&st.to_json()).unwrap();
    assert_eq!(back, st);
}

#[test]
fn status_update_event_has_fixed_kind() {
    let e = TaskStatusUpdateEvent::new();
    assert_eq!(e.kind, "status-update");
    assert!(!e.is_final);
    let back = TaskStatusUpdateEvent::from_json(&e.to_json()).unwrap();
    assert_eq!(back, e);
}

#[test]
fn artifact_update_event_has_fixed_kind() {
    let e = TaskArtifactUpdateEvent::new();
    assert_eq!(e.kind, "artifact-update");
    let j = e.to_json();
    // The wire key of the final-event flag of a status update does not
    // appear here; optional flags are omitted.
    assert!(j.get_field("append").is_none());
    assert!(j.get_field("lastChunk").is_none());
    let back = TaskArtifactUpdateEvent::from_json(&j).unwrap();
    assert_eq!(back, e);
}

#[test]
fn pagination_sentinel_is_always_present() {
    let r = ListTasksResult {
        tasks: Vec::new(),
        total_size: 0,
        page_size: 50,
        next_page_token: String::new(),
    };
    let j = r.to_json();
    // The final page encodes nextPageToken as the empty string: the key
    // is present, never omitted, never null.
    assert_eq!(j.get_field("nextPageToken"), Some(&s("")));
    let back = ListTasksResult::from_json(&j).unwrap();
    assert_eq!(back, r);
}

#[test]
fn pagination_result_with_tasks_round_trips() {
    let r = ListTasksResult {
        tasks: vec![sample_task()],
        total_size: 12,
        page_size: 1,
        next_page_token: "page-2".to_string(),
    };
    let back = ListTasksResult::from_json(&r.to_json()).unwrap();
    assert_eq!(back, r);
}

#[test]
fn pagination_result_missing_token_fails() {
    let j = JsonValue::Obj(vec![
        ("tasks".to_string(), JsonValue::Arr(Vec::new())),
        ("totalSize".to_string(), JsonValue::Int(0)),
        ("pageSize".to_string(), JsonValue::Int(50)),
    ]);
    let err = ListTasksResult::from_json(&j).unwrap_err();
    assert_eq!(err.kind(), DecodeErrorKind::MissingField);
    assert_eq!(err.field(), "nextPageToken");
}

#[test]
fn list_tasks_params_round_trips() {
    let p = ListTasksParams {
        context_id: Some("ctx".to_string()),
        status: Some(TaskState::Working),
        page_size: Some(25),
        page_token: None,
        history_length: Some(3),
        last_updated_after: None,
        include_artifacts: Some(true),
        metadata: None,
    };
    let back = ListTasksParams::from_json(&p.to_json()).unwrap();
    assert_eq!(back, p);
}

#[test]
fn response_success_scenario() {
    let task = sample_task();
    let resp = JsonRpcResponse {
        jsonrpc: "2.0".to_string(),
        id: Some(JsonRpcId::Number(7)),
        payload: JsonRpcPayload::Success { result: task.to_json() },
    };
    let j = resp.to_json();
    let entries = match &j {
        JsonValue::Obj(es) => es,
        _ => panic!("expected an object"),
    };
    // Exactly the keys jsonrpc, id and result; no error key.
    let keys: Vec<&str> = entries.iter().map(|(k, _)| k.as_str()).collect();
    assert_eq!(keys, vec!["id", "jsonrpc", "result"]);
    assert_eq!(j.get_field("jsonrpc"), Some(&s("2.0")));
    assert_eq!(j.get_field("id"), Some(&JsonValue::Int(7)));
    // The wrapped task's state encodes as "completed".
    let result = j.get_field("result").unwrap();
    let status = result.get_field("status").unwrap();
    assert_eq!(status.get_field("state"), Some(&s("completed")));
    // And the whole response reads back as it was written.
    let back = JsonRpcResponse::from_json(&j).unwrap();
    assert_eq!(back, resp);
}

#[test]
fn response_error_round_trips() {
    let resp = JsonRpcResponse {
        jsonrpc: "2.0".to_string(),
        id: None,
        payload: JsonRpcPayload::Error {
            error: a2a_wire::jsonrpc::JsonRpcError {
                code: -32601,
                message: "no such method".to_string(),
                data: None,
            },
        },
    };
    let j = resp.to_json();
    assert!(j.get_field("result").is_none());
    assert!(j.get_field("id").is_none());
    assert!(j.get_field("error").is_some());
    let back = JsonRpcResponse::from_json(&j).unwrap();
    assert_eq!(back, resp);
}

#[test]
fn response_result_is_tried_before_error() {
    // A spurious object carrying both keys decodes as a success.
    let j = JsonValue::Obj(vec![
        ("jsonrpc".to_string(), s("2.0")),
        ("result".to_string(), JsonValue::Int(1)),
        (
            "error".to_string(),
            JsonValue::Obj(vec![
                ("code".to_string(), JsonValue::Int(-32700)),
                ("message".to_string(), s("boom")),
            ]),
        ),
    ]);
    let back = JsonRpcResponse::from_json(&j).unwrap();
    assert_eq!(back.payload, JsonRpcPayload::Success { result: JsonValue::Int(1) });
}

#[test]
fn response_with_neither_payload_fails() {
    let j = JsonValue::Obj(vec![("jsonrpc".to_string(), s("2.0"))]);
    let err = JsonRpcResponse::from_json(&j).unwrap_err();
    assert_eq!(err.kind(), DecodeErrorKind::NoVariantMatched);
}

#[test]
fn request_round_trips() {
    let req = JsonRpcRequest {
        jsonrpc: "2.0".to_string(),
        method: "tasks/get".to_string(),
        params: Some(JsonValue::Obj(vec![("id".to_string(), s("t-1"))])),
        id: Some(JsonRpcId::String("r-1".to_string())),
    };
    let back = JsonRpcRequest::from_json(&req.to_json()).unwrap();
    assert_eq!(back, req);
}

#[test]
fn request_null_id_and_params_read_as_absent() {
    let j = JsonValue::Obj(vec![
        ("jsonrpc".to_string(), s("2.0")),
        ("method".to_string(), s("message/send")),
        ("params".to_string(), JsonValue::Null),
        ("id".to_string(), JsonValue::Null),
    ]);
    let back = JsonRpcRequest::from_json(&j).unwrap();
    assert_eq!(back.params, None);
    assert_eq!(back.id, None);
}

#[test]
fn rpc_error_code_out_of_range_is_rejected() {
    let j = JsonValue::Obj(vec![
        ("code".to_string(), JsonValue::Int(1 << 40)),
        ("message".to_string(), s("too big")),
    ]);
    let err = a2a_wire::jsonrpc::JsonRpcError::from_json(&j).unwrap_err();
    assert_eq!(err.kind(), DecodeErrorKind::OutOfRange);
    assert_eq!(err.field(), "code");
}

#[test]
fn send_configuration_history_length_range_check() {
    let j = JsonValue::Obj(vec![("historyLength".to_string(), JsonValue::Int(40000))]);
    let err = MessageSendConfiguration::from_json(&j).unwrap_err();
    assert_eq!(err.kind(), DecodeErrorKind::OutOfRange);
    assert_eq!(err.field(), "historyLength");
    let ok = JsonValue::Obj(vec![("historyLength".to_string(), JsonValue::Int(5))]);
    let cfg = MessageSendConfiguration::from_json(&ok).unwrap();
    assert_eq!(cfg.history_length, Some(5));
}

#[test]
fn wrong_scalar_type_is_reported() {
    let j = JsonValue::Obj(vec![
        ("role".to_string(), JsonValue::Int(3)),
        ("parts".to_string(), JsonValue::Arr(Vec::new())),
    ]);
    let err = Message::from_json(&j).unwrap_err();
    assert_eq!(err.kind(), DecodeErrorKind::ExpectedString);
    assert_eq!(err.field(), "role");
}

#[test]
fn success_payload_may_carry_null_result() {
    // Variant selection goes by key presence, not by the value.
    let j = JsonValue::Obj(vec![
        ("jsonrpc".to_string(), s("2.0")),
        ("result".to_string(), JsonValue::Null),
    ]);
    let back = JsonRpcResponse::from_json(&j).unwrap();
    assert_eq!(back.payload, JsonRpcPayload::Success { result: JsonValue::Null });
}

#[test]
fn task_with_artifacts_round_trips() {
    let mut t = sample_task();
    t.artifacts = Some(vec![a2a_wire::Artifact {
        artifact_id: "a-1".to_string(),
        name: Some("summary".to_string()),
        description: None,
        parts: vec![Part::Text(TextPart {
            base: PartBase { metadata: None },
            text: "done".to_string(),
        })],
        metadata: None,
        extensions: None,
    }]);
    let back = Task::from_json(&t.to_json()).unwrap();
    assert_eq!(back, t);
}

#[test]
fn task_status_null_message_reads_as_absent() {
    let j = JsonValue::Obj(vec![
        ("message".to_string(), JsonValue::Null),
        ("state".to_string(), s("working")),
    ]);
    let st = TaskStatus::from_json(&j).unwrap();
    assert_eq!(st.state, TaskState::Working);
    assert_eq!(st.message, None);
}
