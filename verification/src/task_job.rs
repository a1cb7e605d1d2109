//! Task jobs: what is written of a task that has run, and what its caller is told.

use crate::entity::TaskInstanceEntity;
use crate::executors::{TaskExecutionResult, TaskResultView};
use crate::json::{clone_opt, opt_json, Json, JsonView};
use crate::shared::{
    EventView, ExecuteTaskJob, ExecuteWorkflowJob, NodeExecutionStatus, TaskInstanceStatus,
    TaskJobView, WorkflowJobView,
};
use crate::task_transition::{
    build_workflow_event_for_task, caller_notice, should_notify_parent_task, task_event,
};
use crate::text::{opt_text, owned};
use vstd::prelude::*;

verus! {

/// The job that tells the caller of a task that it moved from `old` to `new`; none if the move is
/// nobody's business, or nobody called.
pub open spec fn outbound_for_task(
    job: TaskJobView,
    old: TaskInstanceStatus,
    new: TaskInstanceStatus,
    output: Option<JsonView>,
    error_message: Option<Seq<char>>,
    input: Option<JsonView>,
) -> Option<WorkflowJobView> {
    match (caller_notice(old, new), job.caller_context) {
        (Some(kind), Some(caller)) => Some(
            WorkflowJobView {
                workflow_instance_id: caller.workflow_instance_id,
                tenant_id: job.tenant_id,
                event: task_event(kind, caller, job.task_instance_id, output, error_message, input),
            },
        ),
        _ => None,
    }
}

/// The value of an optional job.
pub open spec fn opt_job(j: Option<ExecuteWorkflowJob>) -> Option<WorkflowJobView> {
    match j {
        Some(x) => Some(x@),
        None => None,
    }
}

/// The job that tells the caller of a task of a move.
pub fn build_outbound_for_task(
    job: &ExecuteTaskJob,
    old_status: &TaskInstanceStatus,
    new_status: &TaskInstanceStatus,
    output: Option<Json>,
    error_message: Option<String>,
    input: Option<Json>,
) -> (r: Option<ExecuteWorkflowJob>)
    ensures
        opt_job(r) == outbound_for_task(
            job@,
            *old_status,
            *new_status,
            opt_json(output),
            opt_text(error_message),
            opt_json(input),
        ),
{
    let event_kind = match should_notify_parent_task(old_status, new_status) {
        Some(k) => k,
        None => {
            return None;
        },
    };
    let caller = match &job.caller_context {
        Some(c) => c,
        None => {
            return None;
        },
    };
    let event = build_workflow_event_for_task(
        &event_kind,
        caller,
        job.task_instance_id.as_str(),
        output,
        error_message,
        input,
    );
    Some(
        ExecuteWorkflowJob {
            workflow_instance_id: caller.workflow_instance_id.clone(),
            tenant_id: job.tenant_id.clone(),
            event,
        },
    )
}

/// The status of a task whose run came to `status`.
pub open spec fn task_status_of(status: NodeExecutionStatus) -> TaskInstanceStatus {
    if status is Success {
        TaskInstanceStatus::Completed
    } else {
        TaskInstanceStatus::Failed
    }
}

/// The status of a task whose run came to `status`.
pub fn exec_status_to_task_instance_status(status: &NodeExecutionStatus) -> (r: TaskInstanceStatus)
    ensures
        r == task_status_of(*status),
{
    match status {
        NodeExecutionStatus::Success => TaskInstanceStatus::Completed,
        _ => TaskInstanceStatus::Failed,
    }
}

/// What is written of a task that has run.
#[derive(Debug)]
pub enum TaskRecord {
    /// It is done, with this output and input.
    Complete { output: Option<Json>, input: Option<Json> },
    /// It failed, for this reason.
    Fail { error: String },
}

/// The mathematical value of a [`TaskRecord`].
#[verifier::ext_equal]
pub enum RecordView {
    Complete { output: Option<JsonView>, input: Option<JsonView> },
    Fail { error: Seq<char> },
}

impl View for TaskRecord {
    type V = RecordView;

    open spec fn view(&self) -> RecordView {
        match self {
            TaskRecord::Complete { output, input } => RecordView::Complete {
                output: opt_json(*output),
                input: opt_json(*input),
            },
            TaskRecord::Fail { error } => RecordView::Fail { error: error@ },
        }
    }
}

/// What comes of a task that has run.
#[derive(Debug)]
pub struct TaskJobOutcome {
    pub status: TaskInstanceStatus,
    pub record: TaskRecord,
    pub outbound: Option<ExecuteWorkflowJob>,
}

/// What is written of a task that has run. A task that could not be run at all has failed with the
/// error; one that failed without a message has an empty one.
pub open spec fn task_record(result: Result<TaskResultView, Seq<char>>) -> RecordView {
    match result {
        Ok(r) => if r.status is Success {
            RecordView::Complete { output: r.output, input: r.input }
        } else {
            RecordView::Fail {
                error: match r.error_message {
                    Some(m) => m,
                    None => ""@,
                },
            }
        },
        Err(e) => RecordView::Fail { error: e },
    }
}

/// The status of a task that has run.
pub open spec fn task_status_after(result: Result<TaskResultView, Seq<char>>) -> TaskInstanceStatus {
    match result {
        Ok(r) => task_status_of(r.status),
        Err(_) => TaskInstanceStatus::Failed,
    }
}

/// What the caller of a task that has run is told.
pub open spec fn task_outbound(job: TaskJobView, result: Result<TaskResultView, Seq<char>>) -> Option<
    WorkflowJobView,
> {
    match result {
        Ok(r) => outbound_for_task(
            job,
            TaskInstanceStatus::Running,
            task_status_of(r.status),
            r.output,
            r.error_message,
            r.input,
        ),
        Err(e) => outbound_for_task(
            job,
            TaskInstanceStatus::Running,
            TaskInstanceStatus::Failed,
            None,
            Some(e),
            None,
        ),
    }
}

/// What is to be done with a task job whose task was asked for.
#[derive(Debug)]
pub enum ClaimStep {
    /// Run it.
    Run(TaskInstanceEntity),
    /// The job is done: nothing is run, written or sent.
    Skip,
}

/// Takes what came of moving a job's task from pending to running. A task that was moved is run. One
/// that was not runs elsewhere, has ended, or is not there, so a job that is delivered twice has no
/// effect the second time.
pub fn task_claimed(claim: Result<TaskInstanceEntity, String>) -> (r: ClaimStep)
    ensures
        match (claim, r) {
            (Ok(t), ClaimStep::Run(x)) => x@ == t@,
            (Err(_), ClaimStep::Skip) => true,
            _ => false,
        },
{
    match claim {
        Ok(t) => ClaimStep::Run(t),
        Err(_) => ClaimStep::Skip,
    }
}

/// What comes of a task that has run: what is written of it, and what its caller is told.
pub fn handle_task_job(job: &ExecuteTaskJob, result: Result<TaskExecutionResult, String>) -> (r:
    TaskJobOutcome)
    ensures
        ({
            let run = match result {
                Ok(x) => Ok::<TaskResultView, Seq<char>>(x@),
                Err(e) => Err::<TaskResultView, Seq<char>>(e@),
            };
            &&& r.status == task_status_after(run)
            &&& r.record@ == task_record(run)
            &&& opt_job(r.outbound) == task_outbound(job@, run)
        }),
{
    let running = TaskInstanceStatus::Running;
    match result {
        Err(e) => {
            let failed = TaskInstanceStatus::Failed;
            let outbound = build_outbound_for_task(
                job,
                &running,
                &failed,
                None,
                Some(e.clone()),
                None,
            );
            TaskJobOutcome { status: failed, record: TaskRecord::Fail { error: e }, outbound }
        },
        Ok(x) => {
            let status = exec_status_to_task_instance_status(&x.status);
            let record = match status {
                TaskInstanceStatus::Completed => TaskRecord::Complete {
                    output: clone_opt(&x.output),
                    input: clone_opt(&x.input),
                },
                _ => TaskRecord::Fail {
                    error: match &x.error_message {
                        Some(m) => m.clone(),
                        None => owned(""),
                    },
                },
            };
            let outbound = build_outbound_for_task(
                job,
                &running,
                &status,
                x.output,
                x.error_message,
                x.input,
            );
            TaskJobOutcome { status, record, outbound }
        },
    }
}

/// A caller hears of every task that it had run, however it ended: of a success if the task is
/// written as done, of a failure if not.
pub proof fn law_callers_hear_of_every_end(
    job: TaskJobView,
    result: Result<TaskResultView, Seq<char>>,
)
    requires
        job.caller_context is Some,
    ensures
        match task_outbound(job, result) {
            Some(j) => {
                &&& j.workflow_instance_id == job.caller_context->0.workflow_instance_id
                &&& j.event matches EventView::NodeCallback { node_id, child_task_id, status, .. }
                &&& node_id == job.caller_context->0.node_id
                &&& child_task_id == job.task_instance_id
                &&& (status is Success <==> task_status_after(result) is Completed)
                &&& (status is Failed <==> task_status_after(result) is Failed)
                &&& (status is Success <==> task_record(result) is Complete)
            },
            None => false,
        },
{
}

/// What is written of a task, and what its caller is told, is what its run came to: the output and the
/// input of a success, the error of a failure; a task that could not be run has failed with the
/// reason.
pub proof fn law_a_tasks_result_is_written_and_told(
    job: TaskJobView,
    result: Result<TaskResultView, Seq<char>>,
)
    requires
        job.caller_context is Some,
    ensures
        ({
            let told = task_outbound(job, result);
            &&& told matches Some(sent)
            &&& sent.tenant_id == job.tenant_id
            &&& sent.event matches EventView::NodeCallback { output, error_message, input, .. }
            &&& match result {
                Ok(r) => {
                    &&& output == r.output
                    &&& error_message == r.error_message
                    &&& input == r.input
                    &&& r.status is Success ==> task_status_after(result) is Completed
                        && task_record(result) == (RecordView::Complete {
                        output: r.output,
                        input: r.input,
                    })
                    &&& !(r.status is Success) ==> task_status_after(result) is Failed && (
                    task_record(result) matches RecordView::Fail { error } && match r.error_message {
                        Some(m) => error == m,
                        None => error.len() == 0,
                    })
                },
                Err(why) => {
                    &&& output is None
                    &&& error_message == Some(why)
                    &&& input is None
                    &&& task_status_after(result) is Failed
                    &&& task_record(result) == (RecordView::Fail { error: why })
                },
            }
        }),
{
    reveal_strlit("");
}

/// A task is run exactly if it was claimed, and then the task that was claimed is.
pub proof fn law_only_claimed_tasks_are_run(claim: Result<TaskInstanceEntity, String>, r: ClaimStep)
    requires
        call_ensures(task_claimed, (claim,), r),
    ensures
        r is Run <==> claim is Ok,
        claim matches Ok(task) ==> (r matches ClaimStep::Run(x) && x@ == task@),
{
}

} // verus!
