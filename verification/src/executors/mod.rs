//! Running tasks: what is sent to a service, what its answer comes to, and when it is tried again.
//! Sending and sleeping is the caller's.

use crate::json::{opt_json, Json, JsonView};
use crate::shared::NodeExecutionStatus;
use crate::text::opt_text;
use vstd::prelude::*;

pub mod http;
pub mod llm;

verus! {

/// What a task came to.
#[derive(Debug)]
pub struct TaskExecutionResult {
    pub status: NodeExecutionStatus,
    pub input: Option<Json>,
    pub output: Option<Json>,
    pub error_message: Option<String>,
}

/// The mathematical value of a [`TaskExecutionResult`].
#[verifier::ext_equal]
pub struct TaskResultView {
    pub status: NodeExecutionStatus,
    pub input: Option<JsonView>,
    pub output: Option<JsonView>,
    pub error_message: Option<Seq<char>>,
}

impl View for TaskExecutionResult {
    type V = TaskResultView;

    open spec fn view(&self) -> TaskResultView {
        TaskResultView {
            status: self.status,
            input: opt_json(self.input),
            output: opt_json(self.output),
            error_message: opt_text(self.error_message),
        }
    }
}

/// The result of a task that went well.
pub open spec fn task_succeeded(input: JsonView, output: JsonView) -> TaskResultView {
    TaskResultView {
        status: NodeExecutionStatus::Success,
        input: Some(input),
        output: Some(output),
        error_message: None,
    }
}

/// The result of a task that failed.
pub open spec fn task_failed(
    input: JsonView,
    output: Option<JsonView>,
    message: Seq<char>,
) -> TaskResultView {
    TaskResultView {
        status: NodeExecutionStatus::Failed,
        input: Some(input),
        output,
        error_message: Some(message),
    }
}

/// What comes after an attempt.
#[derive(Debug)]
pub enum NextStep {
    /// The task is done.
    Done(TaskExecutionResult),
    /// After so many seconds comes the attempt with this number, counted from zero.
    Again { attempt: u32, after_seconds: u64 },
}

/// The mathematical value of a [`NextStep`].
#[verifier::ext_equal]
pub enum NextView {
    Done(TaskResultView),
    Again { attempt: u32, after_seconds: u64 },
}

impl View for NextStep {
    type V = NextView;

    open spec fn view(&self) -> NextView {
        match self {
            NextStep::Done(r) => NextView::Done(r@),
            NextStep::Again { attempt, after_seconds } => NextView::Again {
                attempt: *attempt,
                after_seconds: *after_seconds,
            },
        }
    }
}

/// What comes after a failed attempt: another one while there are any left, else the task has
/// failed as the attempt did.
pub open spec fn after_failure(
    attempt: u32,
    retry_count: u32,
    after_seconds: u64,
    input: JsonView,
    output: Option<JsonView>,
    message: Seq<char>,
) -> NextView {
    if attempt < retry_count {
        NextView::Again { attempt: (attempt + 1) as u32, after_seconds }
    } else {
        NextView::Done(task_failed(input, output, message))
    }
}

/// What comes after a failed attempt.
pub fn attempt_failed(
    attempt: u32,
    retry_count: u32,
    after_seconds: u64,
    input: Json,
    output: Option<Json>,
    message: String,
) -> (r: NextStep)
    ensures
        r@ == after_failure(
            attempt,
            retry_count,
            after_seconds,
            input@,
            opt_json(output),
            message@,
        ),
{
    if attempt < retry_count {
        NextStep::Again { attempt: attempt + 1, after_seconds }
    } else {
        NextStep::Done(
            TaskExecutionResult {
                status: NodeExecutionStatus::Failed,
                input: Some(input),
                output,
                error_message: Some(message),
            },
        )
    }
}

/// A task is tried at most once more than its number of retries says, whatever the attempts come
/// to: the attempts are counted up, and none has a number above it.
pub proof fn law_attempts_are_limited(
    attempt: u32,
    retry_count: u32,
    after_seconds: u64,
    input: JsonView,
    output: Option<JsonView>,
    message: Seq<char>,
)
    ensures
        match after_failure(attempt, retry_count, after_seconds, input, output, message) {
            NextView::Again { attempt: next, .. } => next == attempt + 1 && next <= retry_count,
            NextView::Done(r) => attempt >= retry_count && r.status is Failed && r.error_message
                == Some(message),
        },
{
}

} // verus!
