//! Status transitions of a task instance, and what the workflow that called it hears of them.

use crate::entity::{TaskInstanceEntity, TaskView};
use crate::json::{clone_opt, clone_opt_text, opt_json, Json, JsonView};
use crate::shared::{
    workflow_jobs, CallerView, EventView, ExecuteWorkflowJob, NodeExecutionStatus,
    TaskInstanceStatus, WorkflowCallerContext, WorkflowEvent, WorkflowJobView,
};
use crate::text::{concat2, opt_text, owned};
use crate::time::{now, Timestamp};
use vstd::prelude::*;

verus! {

/// What the calling workflow is told of a task.
#[derive(Clone, Copy, Debug, PartialEq, Eq, Structural)]
pub enum TaskChildEventKind {
    Terminated(TaskTerminalStatus),
    Revived,
}

/// How a task ended.
#[derive(Clone, Copy, Debug, PartialEq, Eq, Structural)]
pub enum TaskTerminalStatus {
    Completed,
    Failed,
}

/// An event that a task's status transition gives rise to.
#[derive(Debug)]
pub struct TaskOutboundEvent {
    pub target_workflow_instance_id: String,
    pub target_tenant_id: String,
    pub event: WorkflowEvent,
}

impl View for TaskOutboundEvent {
    type V = WorkflowJobView;

    open spec fn view(&self) -> WorkflowJobView {
        WorkflowJobView {
            workflow_instance_id: self.target_workflow_instance_id@,
            tenant_id: self.target_tenant_id@,
            event: self.event@,
        }
    }
}

/// The jobs that a list of outbound events stands for.
pub open spec fn task_outbound_jobs(s: Seq<TaskOutboundEvent>) -> Seq<WorkflowJobView> {
    Seq::new(s.len(), |i: int| s[i]@)
}

/// What a successful transition did.
#[derive(Debug)]
pub struct TaskTransitionResult {
    pub old_status: TaskInstanceStatus,
    pub new_status: TaskInstanceStatus,
    pub outbound_events: Vec<TaskOutboundEvent>,
}

impl TaskTransitionResult {
    /// The jobs that send the outbound events, in their order.
    pub fn into_dispatch_jobs(self) -> (r: Vec<ExecuteWorkflowJob>)
        ensures
            workflow_jobs(r@) == task_outbound_jobs(self.outbound_events@),
    {
        let events = self.outbound_events;
        let mut out: Vec<ExecuteWorkflowJob> = Vec::new();
        let mut i: usize = 0;
        while i < events.len()
            invariant
                i <= events@.len(),
                out@.len() == i,
                forall|k: int| 0 <= k < i ==> #[trigger] out@[k]@ == events@[k]@,
            decreases events@.len() - i,
        {
            let e = &events[i];
            out.push(
                ExecuteWorkflowJob {
                    workflow_instance_id: e.target_workflow_instance_id.clone(),
                    tenant_id: e.target_tenant_id.clone(),
                    event: e.event.clone(),
                },
            );
            i = i + 1;
        }
        assert(workflow_jobs(out@) =~= task_outbound_jobs(events@));
        out
    }
}

/// What the calling workflow is told when a task moves from `old` to `new`: that it ended, when
/// it leaves `Running` for `Completed` or `Failed`; that it runs again, when it leaves `Failed`
/// for `Pending`; nothing otherwise.
pub open spec fn caller_notice(
    old: TaskInstanceStatus,
    new: TaskInstanceStatus,
) -> Option<TaskChildEventKind> {
    if old is Running && new is Completed {
        Some(TaskChildEventKind::Terminated(TaskTerminalStatus::Completed))
    } else if old is Running && new is Failed {
        Some(TaskChildEventKind::Terminated(TaskTerminalStatus::Failed))
    } else if old is Failed && new is Pending {
        Some(TaskChildEventKind::Revived)
    } else {
        None
    }
}

/// Whether, and how, the calling workflow is to be told of a status transition.
pub fn should_notify_parent_task(old: &TaskInstanceStatus, new: &TaskInstanceStatus) -> (r: Option<
    TaskChildEventKind,
>)
    ensures
        r == caller_notice(*old, *new),
{
    match (*old, *new) {
        (TaskInstanceStatus::Running, TaskInstanceStatus::Completed) => Some(
            TaskChildEventKind::Terminated(TaskTerminalStatus::Completed),
        ),
        (TaskInstanceStatus::Running, TaskInstanceStatus::Failed) => Some(
            TaskChildEventKind::Terminated(TaskTerminalStatus::Failed),
        ),
        (TaskInstanceStatus::Failed, TaskInstanceStatus::Pending) => Some(
            TaskChildEventKind::Revived,
        ),
        _ => None,
    }
}

/// The event that tells the calling node of a task: a callback with what the task came to when it
/// ended, a revival otherwise.
pub open spec fn task_event(
    kind: TaskChildEventKind,
    caller: CallerView,
    task_instance_id: Seq<char>,
    output: Option<JsonView>,
    error_message: Option<Seq<char>>,
    input: Option<JsonView>,
) -> EventView {
    match kind {
        TaskChildEventKind::Revived => EventView::ChildRevived {
            node_id: caller.node_id,
            child_id: task_instance_id,
        },
        TaskChildEventKind::Terminated(terminal) => EventView::NodeCallback {
            node_id: caller.node_id,
            child_task_id: task_instance_id,
            status: match terminal {
                TaskTerminalStatus::Completed => NodeExecutionStatus::Success,
                TaskTerminalStatus::Failed => NodeExecutionStatus::Failed,
            },
            output,
            error_message,
            input,
        },
    }
}

/// The event that tells the calling node of a task.
pub fn build_workflow_event_for_task(
    kind: &TaskChildEventKind,
    caller: &WorkflowCallerContext,
    task_instance_id: &str,
    output: Option<Json>,
    error_message: Option<String>,
    input: Option<Json>,
) -> (r: WorkflowEvent)
    ensures
        r@ == task_event(
            *kind,
            caller@,
            task_instance_id@,
            opt_json(output),
            opt_text(error_message),
            opt_json(input),
        ),
{
    match *kind {
        TaskChildEventKind::Revived => WorkflowEvent::ChildRevived {
            node_id: caller.node_id.clone(),
            child_id: owned(task_instance_id),
        },
        TaskChildEventKind::Terminated(terminal) => {
            let status = match terminal {
                TaskTerminalStatus::Completed => NodeExecutionStatus::Success,
                TaskTerminalStatus::Failed => NodeExecutionStatus::Failed,
            };
            WorkflowEvent::NodeCallback {
                node_id: caller.node_id.clone(),
                child_task_id: owned(task_instance_id),
                status,
                output,
                error_message,
                input,
            }
        },
    }
}

/// The jobs that a task owes the workflow that called it after it has moved from `old` to `new`:
/// at most one.
pub open spec fn caller_jobs(
    task: TaskView,
    old: TaskInstanceStatus,
    new: TaskInstanceStatus,
) -> Seq<WorkflowJobView> {
    match (caller_notice(old, new), task.caller_context) {
        (Some(kind), Some(caller)) => seq![
            WorkflowJobView {
                workflow_instance_id: caller.workflow_instance_id,
                tenant_id: task.tenant_id,
                event: task_event(
                    kind,
                    caller,
                    task.task_instance_id,
                    task.output,
                    task.error_message,
                    task.input,
                ),
            },
        ],
        _ => seq![],
    }
}

/// The message of a transition that is not allowed.
pub open spec fn invalid_task_transition(
    old: TaskInstanceStatus,
    new: TaskInstanceStatus,
) -> Seq<char> {
    "invalid task instance state transition: "@ + old.label() + " -> "@ + new.label()
}

impl TaskInstanceEntity {
    /// Moves the task to a new status, at a given time. A transition that is not allowed is
    /// refused and changes nothing; one that is allowed sets the status and the time, and gives
    /// the events that the calling workflow is owed. Writing the task and sending the events is
    /// left to the caller.
    pub fn transition_status_at(&mut self, new_status: TaskInstanceStatus, at: Timestamp) -> (r:
        Result<TaskTransitionResult, String>)
        ensures
            match r {
                Ok(t) => {
                    &&& old(self)@.task_status.may_become(new_status)
                    &&& final(self)@ == (TaskView {
                        task_status: new_status,
                        updated_at: at,
                        ..old(self)@
                    })
                    &&& t.old_status == old(self)@.task_status
                    &&& t.new_status == new_status
                    &&& task_outbound_jobs(t.outbound_events@) == caller_jobs(
                        old(self)@,
                        old(self)@.task_status,
                        new_status,
                    )
                },
                Err(e) => {
                    &&& !old(self)@.task_status.may_become(new_status)
                    &&& final(self)@ == old(self)@
                    &&& e@ == invalid_task_transition(old(self)@.task_status, new_status)
                },
            },
    {
        if !self.task_status.can_transition_to(&new_status) {
            let mut message = concat2(
                "invalid task instance state transition: ",
                self.task_status.name(),
            );
            message.append(" -> ");
            message.append(new_status.name());
            return Err(message);
        }
        let old_status = self.task_status;
        self.task_status = new_status;
        self.updated_at = at;

        let mut outbound_events: Vec<TaskOutboundEvent> = Vec::new();
        if let Some(event_kind) = should_notify_parent_task(&old_status, &new_status) {
            if let Some(caller_ctx) = &self.caller_context {
                let event = build_workflow_event_for_task(
                    &event_kind,
                    caller_ctx,
                    self.task_instance_id.as_str(),
                    clone_opt(&self.output),
                    clone_opt_text(&self.error_message),
                    clone_opt(&self.input),
                );
                outbound_events.push(
                    TaskOutboundEvent {
                        target_workflow_instance_id: caller_ctx.workflow_instance_id.clone(),
                        target_tenant_id: self.tenant_id.clone(),
                        event,
                    },
                );
            }
        }
        assert(task_outbound_jobs(outbound_events@) =~= caller_jobs(
            old(self)@,
            old(self)@.task_status,
            new_status,
        ));
        Ok(TaskTransitionResult { old_status, new_status, outbound_events })
    }

    /// Moves the task to a new status, at the clock's time. See
    /// [`TaskInstanceEntity::transition_status_at`].
    pub fn transition_status(&mut self, new_status: TaskInstanceStatus) -> (r: Result<
        TaskTransitionResult,
        String,
    >)
        ensures
            match r {
                Ok(t) => {
                    &&& old(self)@.task_status.may_become(new_status)
                    &&& final(self)@ == (TaskView {
                        task_status: new_status,
                        updated_at: final(self)@.updated_at,
                        ..old(self)@
                    })
                    &&& t.old_status == old(self)@.task_status
                    &&& t.new_status == new_status
                    &&& task_outbound_jobs(t.outbound_events@) == caller_jobs(
                        old(self)@,
                        old(self)@.task_status,
                        new_status,
                    )
                },
                Err(e) => {
                    &&& !old(self)@.task_status.may_become(new_status)
                    &&& final(self)@ == old(self)@
                    &&& e@ == invalid_task_transition(old(self)@.task_status, new_status)
                },
            },
    {
        self.transition_status_at(new_status, now())
    }
}

/// A calling workflow is told of an end only when the task was running, and of a revival only
/// when it had failed; every notice belongs to an allowed move.
pub proof fn law_task_notices_come_from_running_or_failed(
    old: TaskInstanceStatus,
    new: TaskInstanceStatus,
)
    ensures
        caller_notice(old, new) is Some <==> (old is Running && (new is Completed || new is Failed))
            || (old is Failed && new is Pending),
        caller_notice(old, new) is Some ==> old.may_become(new),
{
}

/// A task that no workflow called sends nothing, whatever it does.
pub proof fn law_no_caller_no_jobs(task: TaskView, old: TaskInstanceStatus, new: TaskInstanceStatus)
    requires
        task.caller_context is None,
    ensures
        caller_jobs(task, old, new) == Seq::<WorkflowJobView>::empty(),
{
}

/// What a calling workflow is told of a task that ended: the callback goes to the caller's instance
/// and node, names the task, tells a success exactly if the task completed, and brings what the task
/// left. Of one that is to run again it is told that, with its name.
pub proof fn law_a_caller_is_told_by_name(
    task: TaskView,
    caller: CallerView,
    old: TaskInstanceStatus,
    new: TaskInstanceStatus,
)
    requires
        task.caller_context == Some(caller),
    ensures
        ({
            let jobs = caller_jobs(task, old, new);
            let ended = old is Running && (new is Completed || new is Failed);
            let again = old is Failed && new is Pending;
            &&& jobs.len() == (if ended || again {
                1nat
            } else {
                0nat
            })
            &&& ended || again ==> {
                &&& jobs[0].workflow_instance_id == caller.workflow_instance_id
                &&& jobs[0].tenant_id == task.tenant_id
            }
            &&& ended ==> {
                &&& jobs[0].event matches EventView::NodeCallback {
                    node_id,
                    child_task_id,
                    status,
                    output,
                    error_message,
                    input,
                }
                &&& node_id == caller.node_id
                &&& child_task_id == task.task_instance_id
                &&& status is Success <==> new is Completed
                &&& status is Failed <==> new is Failed
                &&& output == task.output
                &&& error_message == task.error_message
                &&& input == task.input
            }
            &&& again ==> {
                &&& jobs[0].event matches EventView::ChildRevived { node_id, child_id }
                &&& node_id == caller.node_id
                &&& child_id == task.task_instance_id
            }
        }),
{
}

/// A move that is not allowed is told by both statuses, the old one first.
pub proof fn law_a_refused_task_move_is_told(old: TaskInstanceStatus, new: TaskInstanceStatus)
    ensures
        invalid_task_transition(old, new) == "invalid task instance state transition: "@
            + old.label() + " -> "@ + new.label(),
{
}

} // verus!
