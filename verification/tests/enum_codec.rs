//! Tests for the enum codecs and the error-code registry.

use a2a_wire::JsonRpcError;
use a2a_wire::MessageRole;
use a2a_wire::TaskState;
use a2a_wire::TransportProtocol;

#[test]
fn transport_tokens() {
    assert_eq!(TransportProtocol::JsonRpc.as_str(), "JSONRPC");
    assert_eq!(TransportProtocol::Grpc.as_str(), "GRPC");
    assert_eq!(TransportProtocol::HttpJson.as_str(), "HTTP+JSON");
}

#[test]
fn transport_decode_is_lenient() {
    assert_eq!(TransportProtocol::from_wire("GRPC"), TransportProtocol::Grpc);
    assert_eq!(TransportProtocol::from_wire("HTTP+JSON"), TransportProtocol::HttpJson);
    assert_eq!(TransportProtocol::from_wire("JSONRPC"), TransportProtocol::JsonRpc);
    // An unrecognized token falls back to the default instead of failing.
    assert_eq!(TransportProtocol::from_wire("SOAP"), TransportProtocol::JsonRpc);
    assert_eq!(TransportProtocol::from_wire(""), TransportProtocol::JsonRpc);
}

#[test]
fn transport_round_trip() {
    for t in [TransportProtocol::JsonRpc, TransportProtocol::Grpc, TransportProtocol::HttpJson] {
        assert_eq!(TransportProtocol::from_wire(t.as_str()), t);
    }
}

#[test]
fn task_state_tokens_are_kebab_case() {
    assert_eq!(TaskState::Submitted.as_str(), "submitted");
    assert_eq!(TaskState::Working.as_str(), "working");
    assert_eq!(TaskState::InputRequired.as_str(), "input-required");
    assert_eq!(TaskState::Completed.as_str(), "completed");
    assert_eq!(TaskState::Canceled.as_str(), "canceled");
    assert_eq!(TaskState::Failed.as_str(), "failed");
    assert_eq!(TaskState::Rejected.as_str(), "rejected");
    assert_eq!(TaskState::AuthRequired.as_str(), "auth-required");
    assert_eq!(TaskState::Unknown.as_str(), "unknown");
}

#[test]
fn task_state_decode_is_lenient() {
    assert_eq!(TaskState::from_wire("auth-required"), TaskState::AuthRequired);
    // An unrecognized token falls back to Unknown instead of failing.
    assert_eq!(TaskState::from_wire("frobnicated"), TaskState::Unknown);
}

#[test]
fn task_state_round_trip() {
    let all = [
        TaskState::Submitted,
        TaskState::Working,
        TaskState::InputRequired,
        TaskState::Completed,
        TaskState::Canceled,
        TaskState::Failed,
        TaskState::Rejected,
        TaskState::AuthRequired,
        TaskState::Unknown,
    ];
    for t in all {
        assert_eq!(TaskState::from_wire(t.as_str()), t);
    }
}

#[test]
fn role_tokens_and_leniency() {
    assert_eq!(MessageRole::User.as_str(), "user");
    assert_eq!(MessageRole::Agent.as_str(), "agent");
    assert_eq!(MessageRole::from_wire("agent"), MessageRole::Agent);
    assert_eq!(MessageRole::from_wire("user"), MessageRole::User);
    assert_eq!(MessageRole::from_wire("robot"), MessageRole::User);
}

#[test]
fn error_codes_are_fixed() {
    assert_eq!(JsonRpcError::ParseError.error_code(), -32700);
    assert_eq!(JsonRpcError::InvalidRequest.error_code(), -32600);
    assert_eq!(JsonRpcError::MethodNotFound.error_code(), -32601);
    assert_eq!(JsonRpcError::InvalidParams.error_code(), -32602);
    assert_eq!(JsonRpcError::InternalError.error_code(), -32603);
    assert_eq!(JsonRpcError::TaskNotFoundError.error_code(), -32001);
    assert_eq!(JsonRpcError::TaskNotCancelableError.error_code(), -32002);
    assert_eq!(JsonRpcError::PushNotificationNotSupportedError.error_code(), -32003);
    assert_eq!(JsonRpcError::UnsupportedOperationError.error_code(), -32004);
    assert_eq!(JsonRpcError::ContentTypeNotSupportedError.error_code(), -32005);
    assert_eq!(JsonRpcError::InvalidAgentResponseError.error_code(), -32006);
    assert_eq!(
        JsonRpcError::AuthenticatedExtendedCardNotConfiguredError.error_code(),
        -32007
    );
    assert_eq!(JsonRpcError::UnknownErrorEncountered.error_code(), -32000);
}

#[test]
fn error_code_bijection() {
    let all = [
        JsonRpcError::ParseError,
        JsonRpcError::InvalidRequest,
        JsonRpcError::MethodNotFound,
        JsonRpcError::InvalidParams,
        JsonRpcError::InternalError,
        JsonRpcError::TaskNotFoundError,
        JsonRpcError::TaskNotCancelableError,
        JsonRpcError::PushNotificationNotSupportedError,
        JsonRpcError::UnsupportedOperationError,
        JsonRpcError::ContentTypeNotSupportedError,
        JsonRpcError::InvalidAgentResponseError,
        JsonRpcError::AuthenticatedExtendedCardNotConfiguredError,
        JsonRpcError::UnknownErrorEncountered,
    ];
    for k in all {
        assert_eq!(JsonRpcError::kind_of(k.error_code()), k);
        assert_eq!(JsonRpcError::foo(k.error_code()), k);
    }
}

#[test]
fn unregistered_codes_fall_back() {
    assert_eq!(JsonRpcError::kind_of(-1), JsonRpcError::UnknownErrorEncountered);
    assert_eq!(JsonRpcError::kind_of(0), JsonRpcError::UnknownErrorEncountered);
    assert_eq!(JsonRpcError::kind_of(-32099), JsonRpcError::UnknownErrorEncountered);
    assert_eq!(JsonRpcError::foo(-1), JsonRpcError::UnknownErrorEncountered);
}

#[test]
fn error_descriptions_are_stable() {
    assert_eq!(
        JsonRpcError::ParseError.description(),
        "Server received JSON that was not well-formed."
    );
    assert_eq!(
        JsonRpcError::InternalError.description(),
        "An unexpected error occurred on the server during processing."
    );
    assert!(JsonRpcError::UnknownErrorEncountered.description().contains("unknown error"));
}
