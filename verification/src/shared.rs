//! What tasks, nodes and workflow instances share: their kinds and statuses, and the jobs that
//! pass between the queues.

use crate::json::{opt_json, clone_opt, clone_opt_text, Json, JsonView};
use crate::text::{opt_text, same};
use vstd::prelude::*;

verus! {

/// The kind of work that a task does.
#[derive(Clone, Copy, Debug, PartialEq, Eq, Hash, Structural)]
pub enum TaskType {
    Http,
    Grpc,
    Parallel,
    ForkJoin,
    SubWorkflow,
    Approval,
    IfCondition,
    ContextRewrite,
    Pause,
    Llm,
}

impl TaskType {
    /// The variant's name.
    pub open spec fn label(self) -> Seq<char> {
        match self {
            TaskType::Http => "Http"@,
            TaskType::Grpc => "Grpc"@,
            TaskType::Parallel => "Parallel"@,
            TaskType::ForkJoin => "ForkJoin"@,
            TaskType::SubWorkflow => "SubWorkflow"@,
            TaskType::Approval => "Approval"@,
            TaskType::IfCondition => "IfCondition"@,
            TaskType::ContextRewrite => "ContextRewrite"@,
            TaskType::Pause => "Pause"@,
            TaskType::Llm => "Llm"@,
        }
    }

    /// The variant's name.
    pub fn name(self) -> (r: &'static str)
        ensures
            r@ == self.label(),
    {
        match self {
            TaskType::Http => "Http",
            TaskType::Grpc => "Grpc",
            TaskType::Parallel => "Parallel",
            TaskType::ForkJoin => "ForkJoin",
            TaskType::SubWorkflow => "SubWorkflow",
            TaskType::Approval => "Approval",
            TaskType::IfCondition => "IfCondition",
            TaskType::ContextRewrite => "ContextRewrite",
            TaskType::Pause => "Pause",
            TaskType::Llm => "Llm",
        }
    }
}

/// The status of a workflow instance.
#[derive(Clone, Copy, Debug, PartialEq, Eq, Hash, Structural)]
pub enum WorkflowInstanceStatus {
    Pending,
    Running,
    Await,
    Suspended,
    Completed,
    Failed,
    Canceled,
}

impl WorkflowInstanceStatus {
    /// The variant with a given name.
    pub open spec fn named(s: Seq<char>) -> Option<WorkflowInstanceStatus> {
        if s == "Pending"@ {
            Some(WorkflowInstanceStatus::Pending)
        } else if s == "Running"@ {
            Some(WorkflowInstanceStatus::Running)
        } else if s == "Await"@ {
            Some(WorkflowInstanceStatus::Await)
        } else if s == "Suspended"@ {
            Some(WorkflowInstanceStatus::Suspended)
        } else if s == "Completed"@ {
            Some(WorkflowInstanceStatus::Completed)
        } else if s == "Failed"@ {
            Some(WorkflowInstanceStatus::Failed)
        } else if s == "Canceled"@ {
            Some(WorkflowInstanceStatus::Canceled)
        } else {
            None
        }
    }

    /// The variant with a given name.
    pub fn from_name(s: &str) -> (r: Option<WorkflowInstanceStatus>)
        ensures
            r == WorkflowInstanceStatus::named(s@),
    {
        if same(s, "Pending") {
            Some(WorkflowInstanceStatus::Pending)
        } else if same(s, "Running") {
            Some(WorkflowInstanceStatus::Running)
        } else if same(s, "Await") {
            Some(WorkflowInstanceStatus::Await)
        } else if same(s, "Suspended") {
            Some(WorkflowInstanceStatus::Suspended)
        } else if same(s, "Completed") {
            Some(WorkflowInstanceStatus::Completed)
        } else if same(s, "Failed") {
            Some(WorkflowInstanceStatus::Failed)
        } else if same(s, "Canceled") {
            Some(WorkflowInstanceStatus::Canceled)
        } else {
            None
        }
    }

    /// The variant's name.
    pub open spec fn label(self) -> Seq<char> {
        match self {
            WorkflowInstanceStatus::Pending => "Pending"@,
            WorkflowInstanceStatus::Running => "Running"@,
            WorkflowInstanceStatus::Await => "Await"@,
            WorkflowInstanceStatus::Suspended => "Suspended"@,
            WorkflowInstanceStatus::Completed => "Completed"@,
            WorkflowInstanceStatus::Failed => "Failed"@,
            WorkflowInstanceStatus::Canceled => "Canceled"@,
        }
    }

    /// The variant's name.
    pub fn name(self) -> (r: &'static str)
        ensures
            r@ == self.label(),
    {
        match self {
            WorkflowInstanceStatus::Pending => "Pending",
            WorkflowInstanceStatus::Running => "Running",
            WorkflowInstanceStatus::Await => "Await",
            WorkflowInstanceStatus::Suspended => "Suspended",
            WorkflowInstanceStatus::Completed => "Completed",
            WorkflowInstanceStatus::Failed => "Failed",
            WorkflowInstanceStatus::Canceled => "Canceled",
        }
    }

    /// The moves that an instance may make.
    pub open spec fn may_become(self, next: WorkflowInstanceStatus) -> bool {
        match self {
            WorkflowInstanceStatus::Pending => next is Running,
            WorkflowInstanceStatus::Running => next is Completed || next is Failed || next is Await
                || next is Suspended,
            WorkflowInstanceStatus::Await => next is Pending,
            WorkflowInstanceStatus::Suspended => next is Pending || next is Canceled,
            WorkflowInstanceStatus::Failed => next is Pending || next is Canceled,
            WorkflowInstanceStatus::Completed => false,
            WorkflowInstanceStatus::Canceled => false,
        }
    }

    /// Whether an instance in this status may move to `next`.
    pub fn can_transition_to(&self, next: &WorkflowInstanceStatus) -> (r: bool)
        ensures
            r == self.may_become(*next),
    {
        match self {
            WorkflowInstanceStatus::Pending => matches!(next, WorkflowInstanceStatus::Running),
            WorkflowInstanceStatus::Running => matches!(
                next,
                WorkflowInstanceStatus::Completed | WorkflowInstanceStatus::Failed
                    | WorkflowInstanceStatus::Await | WorkflowInstanceStatus::Suspended
            ),
            WorkflowInstanceStatus::Await => matches!(next, WorkflowInstanceStatus::Pending),
            WorkflowInstanceStatus::Suspended => matches!(
                next,
                WorkflowInstanceStatus::Pending | WorkflowInstanceStatus::Canceled
            ),
            WorkflowInstanceStatus::Failed => matches!(
                next,
                WorkflowInstanceStatus::Pending | WorkflowInstanceStatus::Canceled
            ),
            WorkflowInstanceStatus::Completed => false,
            WorkflowInstanceStatus::Canceled => false,
        }
    }
}

/// The status of a task instance.
#[derive(Clone, Copy, Debug, PartialEq, Eq, Hash, Structural)]
pub enum TaskInstanceStatus {
    Pending,
    Running,
    Completed,
    Failed,
    Skipped,
    Canceled,
}

impl TaskInstanceStatus {
    /// The variant with a given name.
    pub open spec fn named(s: Seq<char>) -> Option<TaskInstanceStatus> {
        if s == "Pending"@ {
            Some(TaskInstanceStatus::Pending)
        } else if s == "Running"@ {
            Some(TaskInstanceStatus::Running)
        } else if s == "Completed"@ {
            Some(TaskInstanceStatus::Completed)
        } else if s == "Failed"@ {
            Some(TaskInstanceStatus::Failed)
        } else if s == "Skipped"@ {
            Some(TaskInstanceStatus::Skipped)
        } else if s == "Canceled"@ {
            Some(TaskInstanceStatus::Canceled)
        } else {
            None
        }
    }

    /// The variant with a given name.
    pub fn from_name(s: &str) -> (r: Option<TaskInstanceStatus>)
        ensures
            r == TaskInstanceStatus::named(s@),
    {
        if same(s, "Pending") {
            Some(TaskInstanceStatus::Pending)
        } else if same(s, "Running") {
            Some(TaskInstanceStatus::Running)
        } else if same(s, "Completed") {
            Some(TaskInstanceStatus::Completed)
        } else if same(s, "Failed") {
            Some(TaskInstanceStatus::Failed)
        } else if same(s, "Skipped") {
            Some(TaskInstanceStatus::Skipped)
        } else if same(s, "Canceled") {
            Some(TaskInstanceStatus::Canceled)
        } else {
            None
        }
    }

    /// The variant's name.
    pub open spec fn label(self) -> Seq<char> {
        match self {
            TaskInstanceStatus::Pending => "Pending"@,
            TaskInstanceStatus::Running => "Running"@,
            TaskInstanceStatus::Completed => "Completed"@,
            TaskInstanceStatus::Failed => "Failed"@,
            TaskInstanceStatus::Skipped => "Skipped"@,
            TaskInstanceStatus::Canceled => "Canceled"@,
        }
    }

    /// The variant's name.
    pub fn name(self) -> (r: &'static str)
        ensures
            r@ == self.label(),
    {
        match self {
            TaskInstanceStatus::Pending => "Pending",
            TaskInstanceStatus::Running => "Running",
            TaskInstanceStatus::Completed => "Completed",
            TaskInstanceStatus::Failed => "Failed",
            TaskInstanceStatus::Skipped => "Skipped",
            TaskInstanceStatus::Canceled => "Canceled",
        }
    }

    /// The moves that a task may make.
    pub open spec fn may_become(self, next: TaskInstanceStatus) -> bool {
        match self {
            TaskInstanceStatus::Pending => next is Running,
            TaskInstanceStatus::Running => next is Completed || next is Failed,
            TaskInstanceStatus::Failed => next is Pending || next is Skipped,
            TaskInstanceStatus::Completed => false,
            TaskInstanceStatus::Skipped => false,
            TaskInstanceStatus::Canceled => false,
        }
    }

    /// Whether a task in this status may move to `next`.
    pub fn can_transition_to(&self, next: &TaskInstanceStatus) -> (r: bool)
        ensures
            r == self.may_become(*next),
    {
        match self {
            TaskInstanceStatus::Pending => matches!(next, TaskInstanceStatus::Running),
            TaskInstanceStatus::Running => matches!(
                next,
                TaskInstanceStatus::Completed | TaskInstanceStatus::Failed
            ),
            TaskInstanceStatus::Failed => matches!(
                next,
                TaskInstanceStatus::Pending | TaskInstanceStatus::Skipped
            ),
            TaskInstanceStatus::Completed => false,
            TaskInstanceStatus::Skipped => false,
            TaskInstanceStatus::Canceled => false,
        }
    }

    /// The statuses in which a task has ended.
    pub open spec fn ended(self) -> bool {
        self is Completed || self is Failed || self is Skipped || self is Canceled
    }

    /// Whether the task has ended.
    pub fn is_terminal(&self) -> (r: bool)
        ensures
            r == self.ended(),
    {
        matches!(
            self,
            TaskInstanceStatus::Completed | TaskInstanceStatus::Failed
                | TaskInstanceStatus::Skipped | TaskInstanceStatus::Canceled
        )
    }
}

/// The status of one node of an instance.
#[derive(Clone, Copy, Debug, PartialEq, Eq, Hash, Structural)]
pub enum NodeExecutionStatus {
    Pending,
    Running,
    Success,
    Failed,
    Skipped,
    Suspended,
    Await,
}

impl NodeExecutionStatus {
    /// The variant's name.
    pub open spec fn label(self) -> Seq<char> {
        match self {
            NodeExecutionStatus::Pending => "Pending"@,
            NodeExecutionStatus::Running => "Running"@,
            NodeExecutionStatus::Success => "Success"@,
            NodeExecutionStatus::Failed => "Failed"@,
            NodeExecutionStatus::Skipped => "Skipped"@,
            NodeExecutionStatus::Suspended => "Suspended"@,
            NodeExecutionStatus::Await => "Await"@,
        }
    }

    /// The variant's name.
    pub fn name(self) -> (r: &'static str)
        ensures
            r@ == self.label(),
    {
        match self {
            NodeExecutionStatus::Pending => "Pending",
            NodeExecutionStatus::Running => "Running",
            NodeExecutionStatus::Success => "Success",
            NodeExecutionStatus::Failed => "Failed",
            NodeExecutionStatus::Skipped => "Skipped",
            NodeExecutionStatus::Suspended => "Suspended",
            NodeExecutionStatus::Await => "Await",
        }
    }
}

/// The status of an approval.
#[derive(Clone, Copy, Debug, PartialEq, Eq, Hash, Structural)]
pub enum ApprovalStatus {
    Pending,
    Approved,
    Rejected,
}

impl ApprovalStatus {
    /// The variant's name.
    pub open spec fn label(self) -> Seq<char> {
        match self {
            ApprovalStatus::Pending => "Pending"@,
            ApprovalStatus::Approved => "Approved"@,
            ApprovalStatus::Rejected => "Rejected"@,
        }
    }

    /// The variant's name.
    pub fn name(self) -> (r: &'static str)
        ensures
            r@ == self.label(),
    {
        match self {
            ApprovalStatus::Pending => "Pending",
            ApprovalStatus::Approved => "Approved",
            ApprovalStatus::Rejected => "Rejected",
        }
    }
}

/// Where a child was started from: the instance, its node, and the place among its siblings.
#[derive(Debug, PartialEq, Eq)]
pub struct WorkflowCallerContext {
    pub workflow_instance_id: String,
    pub node_id: String,
    pub parent_task_instance_id: Option<String>,
    pub item_index: Option<usize>,
}

/// The mathematical value of a [`WorkflowCallerContext`].
pub struct CallerView {
    pub workflow_instance_id: Seq<char>,
    pub node_id: Seq<char>,
    pub parent_task_instance_id: Option<Seq<char>>,
    pub item_index: Option<usize>,
}

impl View for WorkflowCallerContext {
    type V = CallerView;

    open spec fn view(&self) -> CallerView {
        CallerView {
            workflow_instance_id: self.workflow_instance_id@,
            node_id: self.node_id@,
            parent_task_instance_id: opt_text(self.parent_task_instance_id),
            item_index: self.item_index,
        }
    }
}

impl Clone for WorkflowCallerContext {
    fn clone(&self) -> (r: Self)
        ensures
            r == *self,
    {
        WorkflowCallerContext {
            workflow_instance_id: self.workflow_instance_id.clone(),
            node_id: self.node_id.clone(),
            parent_task_instance_id: clone_opt_text(&self.parent_task_instance_id),
            item_index: self.item_index,
        }
    }
}

/// The value of an optional caller context.
pub open spec fn opt_caller(c: Option<WorkflowCallerContext>) -> Option<CallerView> {
    match c {
        Some(x) => Some(x@),
        None => None,
    }
}

/// A copy of an optional caller context.
pub fn clone_opt_caller(c: &Option<WorkflowCallerContext>) -> (r: Option<WorkflowCallerContext>)
    ensures
        r == *c,
{
    match c {
        Some(x) => Some(x.clone()),
        None => None,
    }
}

/// A job for the task queue: run one task instance.
#[derive(Debug, PartialEq, Eq)]
pub struct ExecuteTaskJob {
    pub task_instance_id: String,
    pub tenant_id: String,
    pub caller_context: Option<WorkflowCallerContext>,
}

/// The mathematical value of an [`ExecuteTaskJob`].
pub struct TaskJobView {
    pub task_instance_id: Seq<char>,
    pub tenant_id: Seq<char>,
    pub caller_context: Option<CallerView>,
}

impl View for ExecuteTaskJob {
    type V = TaskJobView;

    open spec fn view(&self) -> TaskJobView {
        TaskJobView {
            task_instance_id: self.task_instance_id@,
            tenant_id: self.tenant_id@,
            caller_context: opt_caller(self.caller_context),
        }
    }
}

impl Clone for ExecuteTaskJob {
    fn clone(&self) -> (r: Self)
        ensures
            r == *self,
    {
        ExecuteTaskJob {
            task_instance_id: self.task_instance_id.clone(),
            tenant_id: self.tenant_id.clone(),
            caller_context: clone_opt_caller(&self.caller_context),
        }
    }
}

/// What can happen to a workflow instance from outside.
#[derive(Debug, PartialEq, Eq)]
pub enum WorkflowEvent {
    /// Run the instance.
    Start,
    /// A child of a node reports its outcome.
    NodeCallback {
        node_id: String,
        child_task_id: String,
        status: NodeExecutionStatus,
        output: Option<Json>,
        error_message: Option<String>,
        input: Option<Json>,
    },
    /// A child that had failed runs again.
    ChildRevived { node_id: String, child_id: String },
    /// One child of a container is to be tried again.
    RetryContainerChild { node_id: String, child_task_id: String },
}

/// The mathematical value of a [`WorkflowEvent`].
pub enum EventView {
    Start,
    NodeCallback {
        node_id: Seq<char>,
        child_task_id: Seq<char>,
        status: NodeExecutionStatus,
        output: Option<JsonView>,
        error_message: Option<Seq<char>>,
        input: Option<JsonView>,
    },
    ChildRevived { node_id: Seq<char>, child_id: Seq<char> },
    RetryContainerChild { node_id: Seq<char>, child_task_id: Seq<char> },
}

impl View for WorkflowEvent {
    type V = EventView;

    open spec fn view(&self) -> EventView {
        match self {
            WorkflowEvent::Start => EventView::Start,
            WorkflowEvent::NodeCallback {
                node_id,
                child_task_id,
                status,
                output,
                error_message,
                input,
            } => EventView::NodeCallback {
                node_id: node_id@,
                child_task_id: child_task_id@,
                status: *status,
                output: opt_json(*output),
                error_message: opt_text(*error_message),
                input: opt_json(*input),
            },
            WorkflowEvent::ChildRevived { node_id, child_id } => EventView::ChildRevived {
                node_id: node_id@,
                child_id: child_id@,
            },
            WorkflowEvent::RetryContainerChild { node_id, child_task_id } =>
                EventView::RetryContainerChild {
                node_id: node_id@,
                child_task_id: child_task_id@,
            },
        }
    }
}

impl Clone for WorkflowEvent {
    fn clone(&self) -> (r: Self)
        ensures
            r@ == self@,
    {
        match self {
            WorkflowEvent::Start => WorkflowEvent::Start,
            WorkflowEvent::NodeCallback {
                node_id,
                child_task_id,
                status,
                output,
                error_message,
                input,
            } => WorkflowEvent::NodeCallback {
                node_id: node_id.clone(),
                child_task_id: child_task_id.clone(),
                status: *status,
                output: clone_opt(output),
                error_message: clone_opt_text(error_message),
                input: clone_opt(input),
            },
            WorkflowEvent::ChildRevived { node_id, child_id } => WorkflowEvent::ChildRevived {
                node_id: node_id.clone(),
                child_id: child_id.clone(),
            },
            WorkflowEvent::RetryContainerChild { node_id, child_task_id } =>
                WorkflowEvent::RetryContainerChild {
                node_id: node_id.clone(),
                child_task_id: child_task_id.clone(),
            },
        }
    }
}

/// A job for the workflow queue: one event for one instance.
#[derive(Debug, PartialEq, Eq)]
pub struct ExecuteWorkflowJob {
    pub workflow_instance_id: String,
    pub tenant_id: String,
    pub event: WorkflowEvent,
}

/// The mathematical value of an [`ExecuteWorkflowJob`].
pub struct WorkflowJobView {
    pub workflow_instance_id: Seq<char>,
    pub tenant_id: Seq<char>,
    pub event: EventView,
}

impl View for ExecuteWorkflowJob {
    type V = WorkflowJobView;

    open spec fn view(&self) -> WorkflowJobView {
        WorkflowJobView {
            workflow_instance_id: self.workflow_instance_id@,
            tenant_id: self.tenant_id@,
            event: self.event@,
        }
    }
}

impl Clone for ExecuteWorkflowJob {
    fn clone(&self) -> (r: Self)
        ensures
            r@ == self@,
    {
        ExecuteWorkflowJob {
            workflow_instance_id: self.workflow_instance_id.clone(),
            tenant_id: self.tenant_id.clone(),
            event: self.event.clone(),
        }
    }
}

/// The values of a list of task jobs.
pub open spec fn task_jobs(s: Seq<ExecuteTaskJob>) -> Seq<TaskJobView> {
    Seq::new(s.len(), |i: int| s[i]@)
}

/// The values of a list of workflow jobs.
pub open spec fn workflow_jobs(s: Seq<ExecuteWorkflowJob>) -> Seq<WorkflowJobView> {
    Seq::new(s.len(), |i: int| s[i]@)
}

/// The job that starts an instance.
pub open spec fn start_job(workflow_instance_id: Seq<char>, tenant_id: Seq<char>) -> WorkflowJobView {
    WorkflowJobView { workflow_instance_id, tenant_id, event: EventView::Start }
}

/// The job that starts an instance.
pub fn make_start_job(workflow_instance_id: &str, tenant_id: &str) -> (r: ExecuteWorkflowJob)
    ensures
        r@ == start_job(workflow_instance_id@, tenant_id@),
{
    ExecuteWorkflowJob {
        workflow_instance_id: workflow_instance_id.to_owned(),
        tenant_id: tenant_id.to_owned(),
        event: WorkflowEvent::Start,
    }
}

/// A status of an instance is found again by its name, and no other text names it.
pub proof fn law_instance_statuses_are_named(status: WorkflowInstanceStatus, text: Seq<char>)
    ensures
        WorkflowInstanceStatus::named(status.label()) == Some(status),
        WorkflowInstanceStatus::named(text) matches Some(s) ==> s.label() == text,
{
    reveal_strlit("Pending");
    reveal_strlit("Running");
    reveal_strlit("Await");
    reveal_strlit("Suspended");
    reveal_strlit("Completed");
    reveal_strlit("Failed");
    reveal_strlit("Canceled");
    assert("Pending"@.len() == 7 && "Running"@.len() == 7 && "Await"@.len() == 5
        && "Suspended"@.len() == 9 && "Completed"@.len() == 9 && "Failed"@.len() == 6
        && "Canceled"@.len() == 8);
    assert("Pending"@[0] == 'P' && "Running"@[0] == 'R' && "Suspended"@[0] == 'S'
        && "Completed"@[0] == 'C');
}

/// A status of a task is found again by its name, and no other text names it.
pub proof fn law_task_statuses_are_named(status: TaskInstanceStatus, text: Seq<char>)
    ensures
        TaskInstanceStatus::named(status.label()) == Some(status),
        TaskInstanceStatus::named(text) matches Some(s) ==> s.label() == text,
{
    reveal_strlit("Pending");
    reveal_strlit("Running");
    reveal_strlit("Completed");
    reveal_strlit("Failed");
    reveal_strlit("Skipped");
    reveal_strlit("Canceled");
    assert("Pending"@.len() == 7 && "Running"@.len() == 7 && "Completed"@.len() == 9
        && "Failed"@.len() == 6 && "Skipped"@.len() == 7 && "Canceled"@.len() == 8);
    assert("Pending"@[0] == 'P' && "Running"@[0] == 'R' && "Skipped"@[0] == 'S');
}

/// An instance comes to a status only from where it may: it runs only from pending, it is pending
/// again only from a wait or a failure, it ends or waits only from running, and it is canceled only
/// where it is suspended or has failed.
pub proof fn law_instances_move_along_their_statuses(
    from: WorkflowInstanceStatus,
    to: WorkflowInstanceStatus,
)
    ensures
        from.may_become(to) <==> match to {
            WorkflowInstanceStatus::Running => from is Pending,
            WorkflowInstanceStatus::Pending => from is Await || from is Suspended || from
                is Failed,
            WorkflowInstanceStatus::Canceled => from is Suspended || from is Failed,
            _ => from is Running,
        },
        !from.may_become(from),
{
}

/// A task comes to a status only from where it may: it runs only from pending, completes or fails
/// only from running, and is tried again or skipped only once it has failed. It is never moved to
/// canceled.
pub proof fn law_tasks_move_along_their_statuses(from: TaskInstanceStatus, to: TaskInstanceStatus)
    ensures
        from.may_become(to) <==> match to {
            TaskInstanceStatus::Running => from is Pending,
            TaskInstanceStatus::Completed | TaskInstanceStatus::Failed => from is Running,
            TaskInstanceStatus::Pending | TaskInstanceStatus::Skipped => from is Failed,
            TaskInstanceStatus::Canceled => false,
        },
        from.ended() <==> !(from is Pending || from is Running),
        from is Running && from.may_become(to) ==> to.ended(),
{
}

/// The job that starts an instance names it and its tenant, and is a start.
pub proof fn law_a_start_names_its_instance(instance: Seq<char>, tenant: Seq<char>)
    ensures
        start_job(instance, tenant).workflow_instance_id == instance,
        start_job(instance, tenant).tenant_id == tenant,
        start_job(instance, tenant).event is Start,
{
}

/// The value of a job tells all of it: two jobs for tasks with one value name the same task, tenant
/// and caller, and two for workflows the same instance, tenant and event.
pub proof fn law_a_jobs_value_tells_all_of_it(
    a: ExecuteTaskJob,
    b: ExecuteTaskJob,
    c: ExecuteWorkflowJob,
    d: ExecuteWorkflowJob,
)
    requires
        a@ == b@,
        c@ == d@,
    ensures
        a.task_instance_id@ == b.task_instance_id@,
        a.tenant_id@ == b.tenant_id@,
        a.caller_context is Some <==> b.caller_context is Some,
        a.caller_context is Some ==> {
            &&& a.caller_context->0.workflow_instance_id@
                == b.caller_context->0.workflow_instance_id@
            &&& a.caller_context->0.node_id@ == b.caller_context->0.node_id@
            &&& a.caller_context->0.item_index == b.caller_context->0.item_index
            &&& opt_text(a.caller_context->0.parent_task_instance_id) == opt_text(
                b.caller_context->0.parent_task_instance_id,
            )
        },
        c.workflow_instance_id@ == d.workflow_instance_id@,
        c.tenant_id@ == d.tenant_id@,
        c.event@ == d.event@,
{
    let x = a@;
    let y = b@;
    assert(x.task_instance_id == y.task_instance_id && x.caller_context == y.caller_context);
    let u = c@;
    let v = d@;
    assert(u.event == v.event && u.tenant_id == v.tenant_id && u.workflow_instance_id
        == v.workflow_instance_id);
    if a.caller_context is Some {
        let p = a.caller_context->0@;
        let q = b.caller_context->0@;
        assert(p == q);
        assert(p.node_id == q.node_id && p.workflow_instance_id == q.workflow_instance_id);
    }
}

/// The value of a callback tells all of it: two callbacks with one value go to the same node, name the
/// same child, tell the same end, and bring the same output, error and input.
pub proof fn law_a_callbacks_value_tells_all_of_it(a: WorkflowEvent, b: WorkflowEvent)
    requires
        a@ == b@,
        a is NodeCallback,
    ensures
        b is NodeCallback,
        a->NodeCallback_node_id@ == b->NodeCallback_node_id@,
        a->NodeCallback_child_task_id@ == b->NodeCallback_child_task_id@,
        a->NodeCallback_status == b->NodeCallback_status,
        opt_json(a->NodeCallback_output) == opt_json(b->NodeCallback_output),
        opt_text(a->NodeCallback_error_message) == opt_text(b->NodeCallback_error_message),
        opt_json(a->NodeCallback_input) == opt_json(b->NodeCallback_input),
{
    let x = a@;
    let y = b@;
    assert(x->NodeCallback_output == y->NodeCallback_output);
    assert(x->NodeCallback_input == y->NodeCallback_input);
}

/// Lists of jobs are seen job by job.
pub proof fn law_jobs_are_seen_one_by_one(
    tasks: Seq<ExecuteTaskJob>,
    workflows: Seq<ExecuteWorkflowJob>,
    i: int,
)
    ensures
        task_jobs(tasks).len() == tasks.len(),
        0 <= i < tasks.len() ==> task_jobs(tasks)[i] == tasks[i]@,
        workflow_jobs(workflows).len() == workflows.len(),
        0 <= i < workflows.len() ==> workflow_jobs(workflows)[i] == workflows[i]@,
{
}

/// The states have the names that they are stored under.
pub proof fn law_states_have_their_names()
    ensures
        WorkflowInstanceStatus::Pending.label() == "Pending"@,
        WorkflowInstanceStatus::Running.label() == "Running"@,
        WorkflowInstanceStatus::Await.label() == "Await"@,
        WorkflowInstanceStatus::Suspended.label() == "Suspended"@,
        WorkflowInstanceStatus::Completed.label() == "Completed"@,
        WorkflowInstanceStatus::Failed.label() == "Failed"@,
        WorkflowInstanceStatus::Canceled.label() == "Canceled"@,
        TaskInstanceStatus::Pending.label() == "Pending"@,
        TaskInstanceStatus::Running.label() == "Running"@,
        TaskInstanceStatus::Completed.label() == "Completed"@,
        TaskInstanceStatus::Failed.label() == "Failed"@,
        TaskInstanceStatus::Skipped.label() == "Skipped"@,
        TaskInstanceStatus::Canceled.label() == "Canceled"@,
        NodeExecutionStatus::Success.label() == "Success"@,
        NodeExecutionStatus::Failed.label() == "Failed"@,
        NodeExecutionStatus::Skipped.label() == "Skipped"@,
        NodeExecutionStatus::Await.label() == "Await"@,
        NodeExecutionStatus::Suspended.label() == "Suspended"@,
        NodeExecutionStatus::Running.label() == "Running"@,
        NodeExecutionStatus::Pending.label() == "Pending"@,
{
}

/// The kinds of work have the names that they are stored under.
pub proof fn law_kinds_have_their_names()
    ensures
        TaskType::Http.label() == "Http"@,
        TaskType::Grpc.label() == "Grpc"@,
        TaskType::Parallel.label() == "Parallel"@,
        TaskType::ForkJoin.label() == "ForkJoin"@,
        TaskType::SubWorkflow.label() == "SubWorkflow"@,
        TaskType::Approval.label() == "Approval"@,
        TaskType::IfCondition.label() == "IfCondition"@,
        TaskType::ContextRewrite.label() == "ContextRewrite"@,
        TaskType::Pause.label() == "Pause"@,
        TaskType::Llm.label() == "Llm"@,
        ApprovalStatus::Pending.label() == "Pending"@,
        ApprovalStatus::Approved.label() == "Approved"@,
        ApprovalStatus::Rejected.label() == "Rejected"@,
{
}

} // verus!
