//! The task lifecycle state and its wire tokens.

use vstd::prelude::*;

verus! {

/// Defines the lifecycle states of a Task.  Decoding is lenient: an
/// unrecognized token maps to `Unknown` instead of failing, so that newer
/// peers can still be understood.
#[derive(Debug, Clone, Copy, PartialEq, Eq, Structural)]
pub enum TaskState {
    /// The task has been submitted and is awaiting execution.
    Submitted,
    /// The agent is actively working on the task.
    Working,
    /// The task is paused and waiting for input from the user.
    InputRequired,
    /// The task has been successfully completed.
    Completed,
    /// The task has been canceled by the user.
    Canceled,
    /// The task failed due to an error during execution.
    Failed,
    /// The task was rejected by the agent and was not started.
    Rejected,
    /// The task requires authentication to proceed.
    AuthRequired,
    /// The task is in an unknown or indeterminate state.
    Unknown,
}

/// The wire token of each state: kebab-case.
pub open spec fn task_state_token(t: TaskState) -> Seq<char> {
    match t {
        TaskState::Submitted => "submitted"@,
        TaskState::Working => "working"@,
        TaskState::InputRequired => "input-required"@,
        TaskState::Completed => "completed"@,
        TaskState::Canceled => "canceled"@,
        TaskState::Failed => "failed"@,
        TaskState::Rejected => "rejected"@,
        TaskState::AuthRequired => "auth-required"@,
        TaskState::Unknown => "unknown"@,
    }
}

/// Total decoding of a state token: every token maps to some state,
/// unrecognized ones to `Unknown`.
pub open spec fn spec_task_state_from_token(s: Seq<char>) -> TaskState {
    if s == "submitted"@ {
        TaskState::Submitted
    } else if s == "working"@ {
        TaskState::Working
    } else if s == "input-required"@ {
        TaskState::InputRequired
    } else if s == "completed"@ {
        TaskState::Completed
    } else if s == "canceled"@ {
        TaskState::Canceled
    } else if s == "failed"@ {
        TaskState::Failed
    } else if s == "rejected"@ {
        TaskState::Rejected
    } else if s == "auth-required"@ {
        TaskState::AuthRequired
    } else {
        TaskState::Unknown
    }
}

impl View for TaskState {
    type V = TaskState;

    open spec fn view(&self) -> TaskState {
        *self
    }
}

impl DeepView for TaskState {
    type V = TaskState;

    open spec fn deep_view(&self) -> TaskState {
        *self
    }
}

impl Default for TaskState {
    /// The default state is `Unknown`.
    fn default() -> (r: TaskState)
        ensures
            r == TaskState::Unknown,
    {
        TaskState::Unknown
    }
}

impl TaskState {
    /// The canonical wire token of this state.
    pub fn as_str(&self) -> (r: &str)
        ensures
            r@ == task_state_token(*self),
    {
        match self {
            TaskState::Submitted => "submitted",
            TaskState::Working => "working",
            TaskState::InputRequired => "input-required",
            TaskState::Completed => "completed",
            TaskState::Canceled => "canceled",
            TaskState::Failed => "failed",
            TaskState::Rejected => "rejected",
            TaskState::AuthRequired => "auth-required",
            TaskState::Unknown => "unknown",
        }
    }

    /// Decodes a wire token; unrecognized tokens yield `Unknown` rather
    /// than an error.
    pub fn from_wire(s: &str) -> (r: TaskState)
        ensures
            r == spec_task_state_from_token(s@),
    {
        if crate::json::str_eq(s, "submitted") {
            TaskState::Submitted
        } else if crate::json::str_eq(s, "working") {
            TaskState::Working
        } else if crate::json::str_eq(s, "input-required") {
            TaskState::InputRequired
        } else if crate::json::str_eq(s, "completed") {
            TaskState::Completed
        } else if crate::json::str_eq(s, "canceled") {
            TaskState::Canceled
        } else if crate::json::str_eq(s, "failed") {
            TaskState::Failed
        } else if crate::json::str_eq(s, "rejected") {
            TaskState::Rejected
        } else if crate::json::str_eq(s, "auth-required") {
            TaskState::AuthRequired
        } else {
            TaskState::Unknown
        }
    }
}

/// Encoding a state and decoding the token yields the state back: the
/// token map is injective and decoding inverts it.
pub proof fn lemma_task_state_round_trip(t: TaskState)
    ensures
        spec_task_state_from_token(task_state_token(t)) == t,
{
    reveal_strlit("submitted");
    reveal_strlit("working");
    reveal_strlit("input-required");
    reveal_strlit("completed");
    reveal_strlit("canceled");
    reveal_strlit("failed");
    reveal_strlit("rejected");
    reveal_strlit("auth-required");
    reveal_strlit("unknown");
    assert("submitted"@[0] == 's');
    assert("working"@[0] == 'w');
    assert("input-required"@[0] == 'i');
    assert("completed"@[0] == 'c');
    assert("canceled"@[0] == 'c');
    assert("canceled"@[1] == 'a');
    assert("failed"@[0] == 'f');
    assert("rejected"@[0] == 'r');
    assert("auth-required"@[0] == 'a');
    assert("unknown"@[0] == 'u');
}

} // verus!
