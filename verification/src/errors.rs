//! The closed registry of protocol-level error kinds: each kind has a
//! fixed negative code and a fixed description, and the code-to-kind
//! lookup is total, falling back to `UnknownErrorEncountered` for any
//! unregistered code.

use vstd::prelude::*;

verus! {

/// -32000 to -32099 error codes are reserved for implementation-defined
/// server errors; the protocol-specific kinds use this range, beside the
/// JSON-RPC 2.0 standard codes.
#[derive(Debug, Clone, Copy, PartialEq, Eq, Structural)]
pub enum JsonRpcError {
    ParseError,
    InvalidRequest,
    MethodNotFound,
    InvalidParams,
    InternalError,
    TaskNotFoundError,
    TaskNotCancelableError,
    PushNotificationNotSupportedError,
    UnsupportedOperationError,
    ContentTypeNotSupportedError,
    InvalidAgentResponseError,
    AuthenticatedExtendedCardNotConfiguredError,
    UnknownErrorEncountered,
}

/// The fixed code of each registered kind.
pub open spec fn spec_error_code(k: JsonRpcError) -> int {
    match k {
        JsonRpcError::ParseError => -32700,
        JsonRpcError::InvalidRequest => -32600,
        JsonRpcError::MethodNotFound => -32601,
        JsonRpcError::InvalidParams => -32602,
        JsonRpcError::InternalError => -32603,
        JsonRpcError::TaskNotFoundError => -32001,
        JsonRpcError::TaskNotCancelableError => -32002,
        JsonRpcError::PushNotificationNotSupportedError => -32003,
        JsonRpcError::UnsupportedOperationError => -32004,
        JsonRpcError::ContentTypeNotSupportedError => -32005,
        JsonRpcError::InvalidAgentResponseError => -32006,
        JsonRpcError::AuthenticatedExtendedCardNotConfiguredError => -32007,
        JsonRpcError::UnknownErrorEncountered => -32000,
    }
}

/// The fixed description of each registered kind.
pub open spec fn spec_description(k: JsonRpcError) -> Seq<char> {
    match k {
        JsonRpcError::ParseError => "Server received JSON that was not well-formed."@,
        JsonRpcError::InvalidRequest => "The JSON payload was valid JSON, but not a valid JSON-RPC Request object."@,
        JsonRpcError::MethodNotFound => "The requested A2A RPC method (e.g., `tasks/foo`) does not exist or is not supported."@,
        JsonRpcError::InvalidParams => "The params provided for the method are invalid (e.g., wrong type, missing required field)."@,
        JsonRpcError::InternalError => "An unexpected error occurred on the server during processing."@,
        JsonRpcError::TaskNotFoundError => "The specified task id does not correspond to an existing or active task. It might be invalid, expired, or already completed and purged."@,
        JsonRpcError::TaskNotCancelableError => "An attempt was made to cancel a task that is not in a cancelable state (e.g., it has already reached a terminal state like completed, failed, or canceled)."@,
        JsonRpcError::PushNotificationNotSupportedError => "Client attempted to use push notification features (e.g., tasks/pushNotificationConfig/set) but the server agent does not support them (i.e., AgentCard.capabilities.pushNotifications is false)."@,
        JsonRpcError::UnsupportedOperationError => "The requested operation or a specific aspect of it (perhaps implied by parameters) is not supported by this server agent implementation. Broader than just method not found."@,
        JsonRpcError::ContentTypeNotSupportedError => "A Media Type provided in the request's message.parts (or implied for an artifact) is not supported by the agent or the specific skill being invoked."@,
        JsonRpcError::InvalidAgentResponseError => "Agent generated an invalid response for the requested method"@,
        JsonRpcError::AuthenticatedExtendedCardNotConfiguredError => "The agent does not have an Authenticated Extended Card configured."@,
        JsonRpcError::UnknownErrorEncountered => "An unknown error was parsed. If this error is valid then open an issue on the repository"@,
    }
}

/// Total code-to-kind lookup: every registered code maps to its kind and
/// any other value maps to `UnknownErrorEncountered`.
pub open spec fn spec_kind_of(code: int) -> JsonRpcError {
    if code == -32700 {
        JsonRpcError::ParseError
    } else if code == -32600 {
        JsonRpcError::InvalidRequest
    } else if code == -32601 {
        JsonRpcError::MethodNotFound
    } else if code == -32602 {
        JsonRpcError::InvalidParams
    } else if code == -32603 {
        JsonRpcError::InternalError
    } else if code == -32001 {
        JsonRpcError::TaskNotFoundError
    } else if code == -32002 {
        JsonRpcError::TaskNotCancelableError
    } else if code == -32003 {
        JsonRpcError::PushNotificationNotSupportedError
    } else if code == -32004 {
        JsonRpcError::UnsupportedOperationError
    } else if code == -32005 {
        JsonRpcError::ContentTypeNotSupportedError
    } else if code == -32006 {
        JsonRpcError::InvalidAgentResponseError
    } else if code == -32007 {
        JsonRpcError::AuthenticatedExtendedCardNotConfiguredError
    } else {
        JsonRpcError::UnknownErrorEncountered
    }
}

impl View for JsonRpcError {
    type V = JsonRpcError;

    open spec fn view(&self) -> JsonRpcError {
        *self
    }
}

impl DeepView for JsonRpcError {
    type V = JsonRpcError;

    open spec fn deep_view(&self) -> JsonRpcError {
        *self
    }
}

impl JsonRpcError {
    /// The fixed negative code of this kind.
    pub fn error_code(&self) -> (r: i64)
        ensures
            r as int == spec_error_code(*self),
    {
        match self {
            JsonRpcError::ParseError => -32700,
            JsonRpcError::InvalidRequest => -32600,
            JsonRpcError::MethodNotFound => -32601,
            JsonRpcError::InvalidParams => -32602,
            JsonRpcError::InternalError => -32603,
            JsonRpcError::TaskNotFoundError => -32001,
            JsonRpcError::TaskNotCancelableError => -32002,
            JsonRpcError::PushNotificationNotSupportedError => -32003,
            JsonRpcError::UnsupportedOperationError => -32004,
            JsonRpcError::ContentTypeNotSupportedError => -32005,
            JsonRpcError::InvalidAgentResponseError => -32006,
            JsonRpcError::AuthenticatedExtendedCardNotConfiguredError => -32007,
            JsonRpcError::UnknownErrorEncountered => -32000,
        }
    }

    /// Transitional synonym for the code-to-kind lookup.
    pub fn foo(value: i64) -> (r: JsonRpcError)
        ensures
            r == spec_kind_of(value as int),
    {
        JsonRpcError::kind_of(value)
    }

    /// Looks a code up in the registry; any unregistered code yields
    /// `UnknownErrorEncountered` instead of failing.
    pub fn kind_of(value: i64) -> (r: JsonRpcError)
        ensures
            r == spec_kind_of(value as int),
    {
        if value == -32700 {
            JsonRpcError::ParseError
        } else if value == -32600 {
            JsonRpcError::InvalidRequest
        } else if value == -32601 {
            JsonRpcError::MethodNotFound
        } else if value == -32602 {
            JsonRpcError::InvalidParams
        } else if value == -32603 {
            JsonRpcError::InternalError
        } else if value == -32001 {
            JsonRpcError::TaskNotFoundError
        } else if value == -32002 {
            JsonRpcError::TaskNotCancelableError
        } else if value == -32003 {
            JsonRpcError::PushNotificationNotSupportedError
        } else if value == -32004 {
            JsonRpcError::UnsupportedOperationError
        } else if value == -32005 {
            JsonRpcError::ContentTypeNotSupportedError
        } else if value == -32006 {
            JsonRpcError::InvalidAgentResponseError
        } else if value == -32007 {
            JsonRpcError::AuthenticatedExtendedCardNotConfiguredError
        } else {
            JsonRpcError::UnknownErrorEncountered
        }
    }

    /// A fixed human-readable description of this kind.
    pub fn description(&self) -> (r: &str)
        ensures
            r@ == spec_description(*self),
    {
        match self {
            JsonRpcError::ParseError => "Server received JSON that was not well-formed.",
            JsonRpcError::InvalidRequest => "The JSON payload was valid JSON, but not a valid JSON-RPC Request object.",
            JsonRpcError::MethodNotFound => "The requested A2A RPC method (e.g., `tasks/foo`) does not exist or is not supported.",
            JsonRpcError::InvalidParams => "The params provided for the method are invalid (e.g., wrong type, missing required field).",
            JsonRpcError::InternalError => "An unexpected error occurred on the server during processing.",
            JsonRpcError::TaskNotFoundError => "The specified task id does not correspond to an existing or active task. It might be invalid, expired, or already completed and purged.",
            JsonRpcError::TaskNotCancelableError => "An attempt was made to cancel a task that is not in a cancelable state (e.g., it has already reached a terminal state like completed, failed, or canceled).",
            JsonRpcError::PushNotificationNotSupportedError => "Client attempted to use push notification features (e.g., tasks/pushNotificationConfig/set) but the server agent does not support them (i.e., AgentCard.capabilities.pushNotifications is false).",
            JsonRpcError::UnsupportedOperationError => "The requested operation or a specific aspect of it (perhaps implied by parameters) is not supported by this server agent implementation. Broader than just method not found.",
            JsonRpcError::ContentTypeNotSupportedError => "A Media Type provided in the request's message.parts (or implied for an artifact) is not supported by the agent or the specific skill being invoked.",
            JsonRpcError::InvalidAgentResponseError => "Agent generated an invalid response for the requested method",
            JsonRpcError::AuthenticatedExtendedCardNotConfiguredError => "The agent does not have an Authenticated Extended Card configured.",
            JsonRpcError::UnknownErrorEncountered => "An unknown error was parsed. If this error is valid then open an issue on the repository",
        }
    }
}

/// The registry is a bijection on its registered side: looking up the
/// code of any kind yields that kind back.
pub proof fn lemma_error_code_bijection(k: JsonRpcError)
    ensures
        spec_kind_of(spec_error_code(k)) == k,
{
}

/// Every registered kind has a non-empty description.
pub proof fn lemma_description_nonempty(k: JsonRpcError)
    ensures
        spec_description(k).len() > 0,
{
    reveal_strlit("Server received JSON that was not well-formed.");
    reveal_strlit("The JSON payload was valid JSON, but not a valid JSON-RPC Request object.");
    reveal_strlit("The requested A2A RPC method (e.g., `tasks/foo`) does not exist or is not supported.");
    reveal_strlit("The params provided for the method are invalid (e.g., wrong type, missing required field).");
    reveal_strlit("An unexpected error occurred on the server during processing.");
    reveal_strlit("The specified task id does not correspond to an existing or active task. It might be invalid, expired, or already completed and purged.");
    reveal_strlit("An attempt was made to cancel a task that is not in a cancelable state (e.g., it has already reached a terminal state like completed, failed, or canceled).");
    reveal_strlit("Client attempted to use push notification features (e.g., tasks/pushNotificationConfig/set) but the server agent does not support them (i.e., AgentCard.capabilities.pushNotifications is false).");
    reveal_strlit("The requested operation or a specific aspect of it (perhaps implied by parameters) is not supported by this server agent implementation. Broader than just method not found.");
    reveal_strlit("A Media Type provided in the request's message.parts (or implied for an artifact) is not supported by the agent or the specific skill being invoked.");
    reveal_strlit("Agent generated an invalid response for the requested method");
    reveal_strlit("The agent does not have an Authenticated Extended Card configured.");
    reveal_strlit("An unknown error was parsed. If this error is valid then open an issue on the repository");
}

/// Codes are injective: two kinds with the same code are the same kind.
pub proof fn lemma_error_code_injective(a: JsonRpcError, b: JsonRpcError)
    requires
        spec_error_code(a) == spec_error_code(b),
    ensures
        a == b,
{
}

} // verus!
