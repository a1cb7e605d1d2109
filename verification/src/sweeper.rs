//! The sweeper: finds instances that lost their worker, approvals that ran out and pauses that are
//! over, and sets them going again. Reading, writing and sending is the caller's.

use crate::approval::{ApprovalInstanceEntity, ApprovalView};
use crate::entity::{
    node_place, InstanceView, NodeView, TaskInstanceEntity, TaskView, WorkflowInstanceEntity,
    WorkflowNodeInstanceEntity,
};
use crate::json::{clone_opt, clone_opt_text, put_str, unsigned_of, Json, JsonView};
use crate::manager::job::{job_step, JobStepView};
use crate::plugin::container::{child_task_job, container_output, PlaceView};
use crate::plugin::http::node_task_job;
use crate::plugin::interface::{child_id, make_child_id, make_single_child_id, single_child_id};
use crate::plugin::pause::resume_time;
use crate::shared::{
    make_start_job, start_job, workflow_jobs, CallerView, EventView, ExecuteTaskJob,
    ExecuteWorkflowJob, NodeExecutionStatus, TaskInstanceStatus, TaskJobView, TaskType,
    WorkflowCallerContext, WorkflowEvent, WorkflowInstanceStatus, WorkflowJobView,
};
use crate::template::{PauseMode, TaskTemplate, TaskTemplateView};
use crate::text::{concat3, owned};
use crate::time::{parse_rfc3339, rfc3339_z, to_rfc3339_z, Timestamp};
use vstd::prelude::*;

verus! {

/// How often the sweeper works, and how much it does at a time.
#[derive(Clone, Copy, Debug, PartialEq, Eq, Structural)]
pub struct SweeperConfig {
    pub interval_secs: u64,
    pub max_recover_per_cycle: u32,
}

impl Default for SweeperConfig {
    fn default() -> (r: Self)
        ensures
            r.interval_secs == 60,
            r.max_recover_per_cycle == 10,
    {
        SweeperConfig { interval_secs: 60, max_recover_per_cycle: 10 }
    }
}

/// The sweeper.
pub struct Sweeper {
    pub config: SweeperConfig,
}

/// What is to be done for an instance that lost its worker, once its lock has been cleared.
#[derive(Clone, Copy, Debug, PartialEq, Eq, Structural)]
pub enum ZombieStep {
    /// Nothing.
    Leave,
    /// Set its status to pending, and send it a start.
    Restart,
    /// Set its status to `Await`, read it anew, and recover it as one that awaits.
    AwaitAndRecover,
    /// Recover it as one that awaits.
    Recover,
}

/// Whether an instance stands at a node that waits for a callback.
pub open spec fn stands_at_a_waiting_node(instance: InstanceView) -> bool {
    match node_place(instance.nodes, instance.current_node) {
        Some(i) => instance.nodes[i].status is Await || instance.nodes[i].status is Suspended,
        None => false,
    }
}

/// What is to be done for an instance that lost its worker: a running one at a node that waits for
/// a callback would stop at once if it were started, so it is recovered as one that awaits; any
/// other running one is started again; one that awaits is recovered.
pub open spec fn zombie_step(instance: InstanceView) -> ZombieStep {
    match instance.status {
        WorkflowInstanceStatus::Running => if stands_at_a_waiting_node(instance) {
            ZombieStep::AwaitAndRecover
        } else {
            ZombieStep::Restart
        },
        WorkflowInstanceStatus::Await => ZombieStep::Recover,
        _ => ZombieStep::Leave,
    }
}

impl ZombieStep {
    /// The status that the instance is set to first, whatever it was.
    pub open spec fn sets(self) -> Option<WorkflowInstanceStatus> {
        match self {
            ZombieStep::Restart => Some(WorkflowInstanceStatus::Pending),
            ZombieStep::AwaitAndRecover => Some(WorkflowInstanceStatus::Await),
            _ => None,
        }
    }

    /// The status that the instance is set to first, whatever it was.
    pub fn status_to_set(&self) -> (r: Option<WorkflowInstanceStatus>)
        ensures
            r == self.sets(),
    {
        match self {
            ZombieStep::Restart => Some(WorkflowInstanceStatus::Pending),
            ZombieStep::AwaitAndRecover => Some(WorkflowInstanceStatus::Await),
            _ => None,
        }
    }
}

/// Which children of an awaiting node are to be looked up.
#[derive(Debug)]
pub enum AwaitedChildren {
    /// The one child of a plain node, by id.
    Single(usize, String),
    /// So many children of a container.
    Container(usize, u64),
}

/// The mathematical value of an [`AwaitedChildren`].
pub enum AwaitedView {
    Single(int, Seq<char>),
    Container(int, u64),
}

impl View for AwaitedChildren {
    type V = AwaitedView;

    open spec fn view(&self) -> AwaitedView {
        match self {
            AwaitedChildren::Single(i, id) => AwaitedView::Single(*i as int, id@),
            AwaitedChildren::Container(i, n) => AwaitedView::Container(*i as int, *n),
        }
    }
}

/// Which children of an awaiting instance are to be looked up: those of its current node.
pub open spec fn awaited(instance: InstanceView) -> Result<AwaitedView, Seq<char>> {
    match node_place(instance.nodes, instance.current_node) {
        None => Err("current node "@ + instance.current_node + " not found"@),
        Some(i) => {
            let node = instance.nodes[i];
            if node.task_instance.task_template is Parallel || node.task_instance.task_template
                is ForkJoin {
                match node.task_instance.output {
                    None => Err("no state in parallel/forkjoin node output"@),
                    Some(state) => Ok(
                        AwaitedView::Container(
                            i,
                            match unsigned_of(state.field("dispatched_count"@)) {
                                Some(n) => n,
                                None => 0,
                            },
                        ),
                    ),
                }
            } else {
                Ok(
                    AwaitedView::Single(
                        i,
                        single_child_id(instance.workflow_instance_id, node.node_id),
                    ),
                )
            }
        },
    }
}

/// Something the sweeper sends.
#[derive(Debug)]
pub enum SweepAction {
    /// A callback that may have got lost.
    Callback(ExecuteWorkflowJob),
    /// A task that may have got lost.
    Redispatch(ExecuteTaskJob),
    /// Set the instance to pending, and send it this start.
    Restart(ExecuteWorkflowJob),
}

/// The mathematical value of a [`SweepAction`].
pub enum SweepView {
    Callback(WorkflowJobView),
    Redispatch(TaskJobView),
    Restart(WorkflowJobView),
}

impl View for SweepAction {
    type V = SweepView;

    open spec fn view(&self) -> SweepView {
        match self {
            SweepAction::Callback(j) => SweepView::Callback(j@),
            SweepAction::Redispatch(j) => SweepView::Redispatch(j@),
            SweepAction::Restart(j) => SweepView::Restart(j@),
        }
    }
}

impl SweepView {
    /// The status that the instance is set to first, whatever it was.
    pub open spec fn sets(self) -> Option<WorkflowInstanceStatus> {
        match self {
            SweepView::Restart(_) => Some(WorkflowInstanceStatus::Pending),
            _ => None,
        }
    }
}

impl SweepAction {
    /// The status that the instance is set to first, whatever it was.
    pub fn status_to_set(&self) -> (r: Option<WorkflowInstanceStatus>)
        ensures
            r == self@.sets(),
    {
        match self {
            SweepAction::Restart(_) => Some(WorkflowInstanceStatus::Pending),
            _ => None,
        }
    }
}

/// The callback of a task that has ended.
pub open spec fn task_callback(
    instance: InstanceView,
    node_id: Seq<char>,
    child: Seq<char>,
    status: NodeExecutionStatus,
    task: TaskView,
) -> SweepView {
    SweepView::Callback(
        WorkflowJobView {
            workflow_instance_id: instance.workflow_instance_id,
            tenant_id: instance.tenant_id,
            event: EventView::NodeCallback {
                node_id,
                child_task_id: child,
                status,
                output: task.output,
                error_message: task.error_message,
                input: task.input,
            },
        },
    )
}

/// The job that runs a child's task again.
pub open spec fn redispatched(
    instance: InstanceView,
    node_id: Seq<char>,
    child: Seq<char>,
) -> SweepView {
    SweepView::Redispatch(
        TaskJobView {
            task_instance_id: child,
            tenant_id: instance.tenant_id,
            caller_context: Some(
                CallerView {
                    workflow_instance_id: instance.workflow_instance_id,
                    node_id,
                    parent_task_instance_id: None,
                    item_index: None,
                },
            ),
        },
    )
}

/// What is sent for the one child of a plain node: its callback if it has ended well or failed, its
/// task again if it has not; where there is no child the instance is started again.
pub open spec fn single_recovery(
    instance: InstanceView,
    node_id: Seq<char>,
    task: Option<TaskView>,
) -> SweepView {
    let child = single_child_id(instance.workflow_instance_id, node_id);
    match task {
        None => SweepView::Restart(start_job(instance.workflow_instance_id, instance.tenant_id)),
        Some(t) => match t.task_status {
            TaskInstanceStatus::Completed => task_callback(
                instance,
                node_id,
                child,
                NodeExecutionStatus::Success,
                t,
            ),
            TaskInstanceStatus::Failed => task_callback(
                instance,
                node_id,
                child,
                NodeExecutionStatus::Failed,
                t,
            ),
            _ => redispatched(instance, node_id, child),
        },
    }
}

/// What is sent for one child of a container: its callback if it has ended well or failed, its task
/// again if it has not ended; nothing for a child that is missing, skipped or canceled.
pub open spec fn container_recovery(
    instance: InstanceView,
    node_id: Seq<char>,
    index: nat,
    task: Option<TaskView>,
) -> Option<SweepView> {
    let child = child_id(instance.workflow_instance_id, node_id, index);
    match task {
        None => None,
        Some(t) => match t.task_status {
            TaskInstanceStatus::Completed => Some(
                task_callback(instance, node_id, child, NodeExecutionStatus::Success, t),
            ),
            TaskInstanceStatus::Failed => Some(
                task_callback(instance, node_id, child, NodeExecutionStatus::Failed, t),
            ),
            TaskInstanceStatus::Pending | TaskInstanceStatus::Running => Some(
                redispatched(instance, node_id, child),
            ),
            _ => None,
        },
    }
}

/// What is sent for the first `n` children of a container, in order. `tasks` are their task
/// instances, as far as they were found.
pub open spec fn container_recoveries(
    instance: InstanceView,
    node_id: Seq<char>,
    tasks: Seq<Option<TaskView>>,
) -> Seq<SweepView>
    decreases tasks.len(),
{
    if tasks.len() == 0 {
        seq![]
    } else {
        let front = container_recoveries(instance, node_id, tasks.drop_last());
        match container_recovery(instance, node_id, (tasks.len() - 1) as nat, tasks.last()) {
            Some(a) => front.push(a),
            None => front,
        }
    }
}

/// The values of a list of actions.
pub open spec fn sweep_actions(s: Seq<SweepAction>) -> Seq<SweepView> {
    Seq::new(s.len(), |i: int| s[i]@)
}

/// The values of a list of tasks that may be missing.
pub open spec fn found_tasks(s: Seq<Option<TaskInstanceEntity>>) -> Seq<Option<TaskView>> {
    Seq::new(
        s.len(),
        |i: int|
            match s[i] {
                Some(t) => Some(t@),
                None => None,
            },
    )
}

/// The output that an expired approval's node gets.
pub open spec fn expiry_output(approval: ApprovalView) -> JsonView {
    JsonView::Object(
        map!["approval_expired"@ => JsonView::Bool(true), "expires_at"@ => match approval.expires_at {
            Some(t) => JsonView::Str(rfc3339_z(t)),
            None => JsonView::Null,
        }],
    )
}

/// The callback of an approval that ran out: its node fails.
pub open spec fn expiry_callback(approval: ApprovalView) -> WorkflowJobView {
    WorkflowJobView {
        workflow_instance_id: approval.workflow_instance_id,
        tenant_id: approval.tenant_id,
        event: EventView::NodeCallback {
            node_id: approval.node_id,
            child_task_id: approval.id,
            status: NodeExecutionStatus::Failed,
            output: Some(expiry_output(approval)),
            error_message: Some("approval expired"@),
            input: None,
        },
    }
}

/// Whether a node's pause is over: it is a suspended pause that ends by itself, and the time that
/// its output gives has come.
pub open spec fn pause_is_over(node: NodeView, at: Timestamp) -> bool {
    &&& node.node_type is Pause
    &&& node.status is Suspended
    &&& node.task_instance.task_template matches TaskTemplateView::Pause(t) && t.mode is Auto
    &&& resume_time(node) matches Some(end) && at.not_before(end)
}

/// The callback of a pause that is over: its node succeeds with the output that it has.
pub open spec fn pause_callback(instance: InstanceView, node: NodeView) -> WorkflowJobView {
    WorkflowJobView {
        workflow_instance_id: instance.workflow_instance_id,
        tenant_id: instance.tenant_id,
        event: EventView::NodeCallback {
            node_id: node.node_id,
            child_task_id: single_child_id(instance.workflow_instance_id, node.node_id),
            status: NodeExecutionStatus::Success,
            output: node.task_instance.output,
            error_message: None,
            input: None,
        },
    }
}

/// The callbacks of the pauses of an instance that are over, in the order of its nodes.
pub open spec fn pause_callbacks(instance: InstanceView, nodes: Seq<NodeView>, at: Timestamp) -> Seq<
    WorkflowJobView,
>
    decreases nodes.len(),
{
    if nodes.len() == 0 {
        seq![]
    } else {
        let front = pause_callbacks(instance, nodes.drop_last(), at);
        if pause_is_over(nodes.last(), at) {
            front.push(pause_callback(instance, nodes.last()))
        } else {
            front
        }
    }
}

/// A pause that only somebody can end is never ended by the sweeper.
pub proof fn law_manual_pauses_are_left(node: NodeView, at: Timestamp)
    requires
        node.task_instance.task_template matches TaskTemplateView::Pause(t) && t.mode is Manual,
    ensures
        !pause_is_over(node, at),
{
}

/// Once a pause is over it stays over.
pub proof fn law_pauses_stay_over(node: NodeView, at: Timestamp, later: Timestamp)
    requires
        pause_is_over(node, at),
        later.not_before(at),
    ensures
        pause_is_over(node, later),
{
}

/// An instance that the sweeper has set a status of.
pub open spec fn set_to(
    instance: InstanceView,
    status: Option<WorkflowInstanceStatus>,
) -> InstanceView {
    match status {
        Some(s) => InstanceView { status: s, ..instance },
        None => instance,
    }
}

/// The sweeper never makes an instance run: only a worker that holds its lock does.
pub proof fn law_the_sweeper_runs_nothing(step: ZombieStep, action: SweepView)
    ensures
        step.sets() != Some(WorkflowInstanceStatus::Running),
        action.sets() != Some(WorkflowInstanceStatus::Running),
{
}

/// An instance that lost its worker is taken up again: one that is restarted runs when its start
/// arrives, and one that is recovered awaits what the sweeper sends for it.
pub proof fn law_lost_instances_are_taken_up(instance: InstanceView, at: Timestamp)
    requires
        instance.status is Running || instance.status is Await,
    ensures
        ({
            let step = zombie_step(instance);
            let after = set_to(instance, step.sets());
            &&& !(step is Leave)
            &&& step is Restart ==> job_step(EventView::Start, after, at) == Ok::<
                (InstanceView, JobStepView),
                Seq<char>,
            >((after, JobStepView::Run))
            &&& !(step is Restart) ==> after.status is Await
        }),
{
}

/// What the sweeper sends for the child of a plain node is taken up: a callback is taken by the
/// node that awaits it, and a start runs the instance.
pub proof fn law_recoveries_are_taken_up(
    instance: InstanceView,
    task: Option<TaskView>,
    at: Timestamp,
)
    requires
        instance.status is Await,
    ensures
        ({
            let action = single_recovery(instance, instance.current_node, task);
            let after = set_to(instance, action.sets());
            match action {
                SweepView::Callback(job) => job_step(job.event, after, at) matches Ok((i, s)) && i
                    == instance && s is Callback,
                SweepView::Restart(job) => job_step(job.event, after, at) matches Ok((i, s))
                    && s is Run,
                SweepView::Redispatch(job) => job.task_instance_id == single_child_id(
                    instance.workflow_instance_id,
                    instance.current_node,
                ),
            }
        }),
{
}

/// A pause that is over is taken up: the callback that the sweeper sends for the current node of a
/// suspended instance is taken by that node.
pub proof fn law_ended_pauses_are_taken_up(
    instance: InstanceView,
    node: NodeView,
    at: Timestamp,
)
    requires
        instance.status is Suspended,
        node.node_id == instance.current_node,
    ensures
        job_step(pause_callback(instance, node).event, instance, at) matches Ok((i, s)) && i
            == instance && s is Callback,
{
}

/// Recovering a container sends at most one thing per child.
pub proof fn law_one_recovery_per_child(
    instance: InstanceView,
    node_id: Seq<char>,
    tasks: Seq<Option<TaskView>>,
)
    ensures
        container_recoveries(instance, node_id, tasks).len() <= tasks.len(),
    decreases tasks.len(),
{
    if tasks.len() > 0 {
        law_one_recovery_per_child(instance, node_id, tasks.drop_last());
    }
}

impl Sweeper {
    pub fn new(config: SweeperConfig) -> (r: Self)
        ensures
            r.config == config,
    {
        Sweeper { config }
    }

    /// What a cycle does for an instance that lost its worker, once it has tried to clear the lock:
    /// one whose lock could not be cleared has moved on meanwhile, and is left.
    pub fn run_cycle(instance: &WorkflowInstanceEntity, cleared: bool) -> (r: ZombieStep)
        ensures
            r == if cleared {
                zombie_step(instance@)
            } else {
                ZombieStep::Leave
            },
    {
        if cleared {
            Sweeper::recover(instance)
        } else {
            ZombieStep::Leave
        }
    }

    /// What is to be done for an instance that lost its worker, once its lock has been cleared.
    pub fn recover(instance: &WorkflowInstanceEntity) -> (r: ZombieStep)
        ensures
            r == zombie_step(instance@),
    {
        match instance.status {
            WorkflowInstanceStatus::Running => Sweeper::recover_running(instance),
            WorkflowInstanceStatus::Await => ZombieStep::Recover,
            _ => ZombieStep::Leave,
        }
    }

    /// What is to be done for a running instance that lost its worker.
    fn recover_running(instance: &WorkflowInstanceEntity) -> (r: ZombieStep)
        requires
            instance@.status is Running,
        ensures
            r == zombie_step(instance@),
    {
        match instance.find_node(instance.current_node.as_str()) {
            Some(i) => if matches!(
                instance.nodes[i].status,
                NodeExecutionStatus::Await | NodeExecutionStatus::Suspended
            ) {
                ZombieStep::AwaitAndRecover
            } else {
                ZombieStep::Restart
            },
            None => ZombieStep::Restart,
        }
    }

    /// The start that sets an instance going again, after its status has been set to pending. The
    /// instance is not moved to running here: only a worker that holds its lock does that.
    pub fn restart_via_start(instance: &WorkflowInstanceEntity) -> (r: ExecuteWorkflowJob)
        ensures
            r@ == start_job(instance@.workflow_instance_id, instance@.tenant_id),
    {
        make_start_job(instance.workflow_instance_id.as_str(), instance.tenant_id.as_str())
    }

    /// Which children of an awaiting instance are to be looked up.
    pub fn recover_await(instance: &WorkflowInstanceEntity) -> (r: Result<AwaitedChildren, String>)
        ensures
            match r {
                Ok(a) => awaited(instance@) == Ok::<AwaitedView, Seq<char>>(a@) && match a {
                    AwaitedChildren::Single(i, _) => i < instance.nodes@.len(),
                    AwaitedChildren::Container(i, _) => i < instance.nodes@.len(),
                },
                Err(e) => awaited(instance@) == Err::<AwaitedView, Seq<char>>(e@),
            },
    {
        let index = match instance.find_node(instance.current_node.as_str()) {
            Some(i) => i,
            None => {
                return Err(concat3("current node ", instance.current_node.as_str(), " not found"));
            },
        };
        let node = &instance.nodes[index];
        match &node.task_instance.task_template {
            TaskTemplate::Parallel(_) | TaskTemplate::ForkJoin(_) => {
                match &node.task_instance.output {
                    None => Err(owned("no state in parallel/forkjoin node output")),
                    Some(state) => {
                        let n: u64 = match state.get_u64("dispatched_count") {
                            Some(n) => n,
                            None => 0,
                        };
                        Ok(AwaitedChildren::Container(index, n))
                    },
                }
            },
            _ => Ok(
                AwaitedChildren::Single(
                    index,
                    make_single_child_id(
                        instance.workflow_instance_id.as_str(),
                        node.node_id.as_str(),
                    ),
                ),
            ),
        }
    }

    fn supplement_callback(
        instance: &WorkflowInstanceEntity,
        node_id: &str,
        child_task_id: String,
        status: NodeExecutionStatus,
        task: &TaskInstanceEntity,
    ) -> (r: SweepAction)
        ensures
            r@ == task_callback(instance@, node_id@, child_task_id@, status, task@),
    {
        SweepAction::Callback(
            ExecuteWorkflowJob {
                workflow_instance_id: instance.workflow_instance_id.clone(),
                tenant_id: instance.tenant_id.clone(),
                event: WorkflowEvent::NodeCallback {
                    node_id: owned(node_id),
                    child_task_id,
                    status,
                    output: clone_opt(&task.output),
                    error_message: clone_opt_text(&task.error_message),
                    input: clone_opt(&task.input),
                },
            },
        )
    }

    fn redispatch_task(
        instance: &WorkflowInstanceEntity,
        task_instance_id: String,
        node_id: &str,
    ) -> (r: SweepAction)
        ensures
            r@ == redispatched(instance@, node_id@, task_instance_id@),
    {
        SweepAction::Redispatch(
            ExecuteTaskJob {
                task_instance_id,
                tenant_id: instance.tenant_id.clone(),
                caller_context: Some(
                    WorkflowCallerContext {
                        workflow_instance_id: instance.workflow_instance_id.clone(),
                        node_id: owned(node_id),
                        parent_task_instance_id: None,
                        item_index: None,
                    },
                ),
            },
        )
    }

    /// What is sent for the one child of a plain node.
    pub fn recover_await_single(
        instance: &WorkflowInstanceEntity,
        node: &WorkflowNodeInstanceEntity,
        task: Option<&TaskInstanceEntity>,
    ) -> (r: SweepAction)
        ensures
            r@ == single_recovery(
                instance@,
                node@.node_id,
                match task {
                    Some(t) => Some(t@),
                    None => None,
                },
            ),
    {
        let child = make_single_child_id(
            instance.workflow_instance_id.as_str(),
            node.node_id.as_str(),
        );
        match task {
            None => SweepAction::Restart(Sweeper::restart_via_start(instance)),
            Some(t) => match t.task_status {
                TaskInstanceStatus::Completed => Sweeper::supplement_callback(
                    instance,
                    node.node_id.as_str(),
                    child,
                    NodeExecutionStatus::Success,
                    t,
                ),
                TaskInstanceStatus::Failed => Sweeper::supplement_callback(
                    instance,
                    node.node_id.as_str(),
                    child,
                    NodeExecutionStatus::Failed,
                    t,
                ),
                _ => Sweeper::redispatch_task(instance, child, node.node_id.as_str()),
            },
        }
    }

    /// What is sent for the children of a container, in order. `tasks` holds the task instance of
    /// every child that was handed out, where it was found.
    pub fn recover_await_container(
        instance: &WorkflowInstanceEntity,
        node: &WorkflowNodeInstanceEntity,
        tasks: &Vec<Option<TaskInstanceEntity>>,
    ) -> (r: Vec<SweepAction>)
        ensures
            sweep_actions(r@) == container_recoveries(
                instance@,
                node@.node_id,
                found_tasks(tasks@),
            ),
    {
        let mut out: Vec<SweepAction> = Vec::new();
        let ghost all = found_tasks(tasks@);
        assert(sweep_actions(out@) =~= seq![]);
        let mut index: usize = 0;
        while index < tasks.len()
            invariant
                index <= tasks@.len(),
                all == found_tasks(tasks@),
                sweep_actions(out@) == container_recoveries(
                    instance@,
                    node@.node_id,
                    all.take(index as int),
                ),
            decreases tasks@.len() - index,
        {
            let ghost done = out@;
            proof {
                assert(all.take(index + 1).drop_last() =~= all.take(index as int));
            }
            if let Some(t) = &tasks[index] {
                let child = make_child_id(
                    instance.workflow_instance_id.as_str(),
                    node.node_id.as_str(),
                    index,
                );
                let action = match t.task_status {
                    TaskInstanceStatus::Completed => Some(
                        Sweeper::supplement_callback(
                            instance,
                            node.node_id.as_str(),
                            child,
                            NodeExecutionStatus::Success,
                            t,
                        ),
                    ),
                    TaskInstanceStatus::Failed => Some(
                        Sweeper::supplement_callback(
                            instance,
                            node.node_id.as_str(),
                            child,
                            NodeExecutionStatus::Failed,
                            t,
                        ),
                    ),
                    TaskInstanceStatus::Pending | TaskInstanceStatus::Running => Some(
                        Sweeper::redispatch_task(instance, child, node.node_id.as_str()),
                    ),
                    _ => None,
                };
                if let Some(a) = action {
                    out.push(a);
                    assert(sweep_actions(out@) =~= sweep_actions(done).push(a@));
                }
            }
            index = index + 1;
        }
        assert(all.take(index as int) =~= all);
        out
    }

    /// The callback of an approval that ran out, once it has been marked so.
    pub fn sweep_expired_approval(approval: &ApprovalInstanceEntity) -> (r: ExecuteWorkflowJob)
        requires
            approval@.expires_at matches Some(t) ==> t.has_date(),
        ensures
            r@ == expiry_callback(approval@),
    {
        let mut e: Vec<(String, Json)> = Vec::new();
        put_str(&mut e, "approval_expired", Json::Bool(true));
        put_str(
            &mut e,
            "expires_at",
            match approval.expires_at {
                Some(t) => Json::Str(to_rfc3339_z(t)),
                None => Json::Null,
            },
        );
        ExecuteWorkflowJob {
            workflow_instance_id: approval.workflow_instance_id.clone(),
            tenant_id: approval.tenant_id.clone(),
            event: WorkflowEvent::NodeCallback {
                node_id: approval.node_id.clone(),
                child_task_id: approval.id.clone(),
                status: NodeExecutionStatus::Failed,
                output: Some(Json::Object(e)),
                error_message: Some(owned("approval expired")),
                input: None,
            },
        }
    }

    /// Whether a node's pause is over.
    fn is_over(node: &WorkflowNodeInstanceEntity, at: Timestamp) -> (r: bool)
        ensures
            r == pause_is_over(node@, at),
    {
        if !matches!(node.node_type, TaskType::Pause) {
            return false;
        }
        if !matches!(node.status, NodeExecutionStatus::Suspended) {
            return false;
        }
        let auto = match &node.task_instance.task_template {
            TaskTemplate::Pause(t) => matches!(t.mode, PauseMode::Auto),
            _ => false,
        };
        if !auto {
            return false;
        }
        let end = match &node.task_instance.output {
            Some(o) => match o.get_str("resume_at") {
                Some(s) => parse_rfc3339(s),
                None => None,
            },
            None => None,
        };
        match end {
            Some(t) => at.at_or_after(&t),
            None => false,
        }
    }

    /// The callbacks of the pauses of a suspended instance that are over at a given time.
    pub fn sweep_expired_pause_nodes(instance: &WorkflowInstanceEntity, at: Timestamp) -> (r: Vec<
        ExecuteWorkflowJob,
    >)
        ensures
            workflow_jobs(r@) == pause_callbacks(instance@, instance@.nodes, at),
    {
        let mut out: Vec<ExecuteWorkflowJob> = Vec::new();
        let ghost nodes = instance@.nodes;
        assert(workflow_jobs(out@) =~= seq![]);
        let mut i: usize = 0;
        while i < instance.nodes.len()
            invariant
                i <= instance.nodes@.len(),
                nodes == instance@.nodes,
                workflow_jobs(out@) == pause_callbacks(instance@, nodes.take(i as int), at),
            decreases instance.nodes@.len() - i,
        {
            let node = &instance.nodes[i];
            let ghost done = out@;
            proof {
                assert(nodes.take(i + 1).drop_last() =~= nodes.take(i as int));
                assert(nodes.take(i + 1).last() == node@);
            }
            if Sweeper::is_over(node, at) {
                let job = ExecuteWorkflowJob {
                    workflow_instance_id: instance.workflow_instance_id.clone(),
                    tenant_id: instance.tenant_id.clone(),
                    event: WorkflowEvent::NodeCallback {
                        node_id: node.node_id.clone(),
                        child_task_id: make_single_child_id(
                            instance.workflow_instance_id.as_str(),
                            node.node_id.as_str(),
                        ),
                        status: NodeExecutionStatus::Success,
                        output: clone_opt(&node.task_instance.output),
                        error_message: None,
                        input: None,
                    },
                };
                out.push(job);
                assert(workflow_jobs(out@) =~= workflow_jobs(done).push(job@));
            }
            i = i + 1;
        }
        assert(nodes.take(i as int) =~= nodes);
        out
    }
}

/// A sweep over approvals that ran out: one after the other is marked so, and then its node is told.
pub struct ApprovalSweep {
    approvals: Vec<ApprovalInstanceEntity>,
    next: usize,
    marked: bool,
    count: usize,
}

/// The mathematical value of an [`ApprovalSweep`]: the approvals, the place of the one that is swept,
/// whether that one has been marked, and how many nodes have been told.
#[verifier::ext_equal]
pub struct ApprovalSweepView {
    pub approvals: Seq<ApprovalView>,
    pub next: nat,
    pub marked: bool,
    pub count: nat,
}

impl View for ApprovalSweep {
    type V = ApprovalSweepView;

    closed spec fn view(&self) -> ApprovalSweepView {
        ApprovalSweepView {
            approvals: Seq::new(self.approvals@.len(), |i: int| self.approvals@[i]@),
            next: self.next as nat,
            marked: self.marked,
            count: self.count as nat,
        }
    }
}

impl ApprovalSweepView {
    /// Goes on to the approval after this one, whose node was told or not.
    pub open spec fn done(self, told: bool) -> ApprovalSweepView {
        ApprovalSweepView {
            next: self.next + 1,
            marked: false,
            count: if told {
                self.count + 1
            } else {
                self.count
            },
            ..self
        }
    }
}

impl ApprovalSweep {
    #[verifier::type_invariant]
    spec fn well_formed(self) -> bool {
        self.count <= self.next <= self.approvals@.len() && (self.marked ==> self.next
            < self.approvals@.len())
    }

    /// A sweep over these approvals.
    pub fn new(approvals: Vec<ApprovalInstanceEntity>) -> (r: Self)
        ensures
            r@.approvals == Seq::new(approvals@.len(), |i: int| approvals@[i]@),
            r@.next == 0,
            !r@.marked,
            r@.count == 0,
    {
        ApprovalSweep { approvals, next: 0, marked: false, count: 0 }
    }

    /// The approval that is to be marked; none once all have been seen to.
    pub fn to_mark(&self) -> (r: Option<&ApprovalInstanceEntity>)
        ensures
            match r {
                Some(a) => self@.next < self@.approvals.len() && a@
                    == self@.approvals[self@.next as int],
                None => self@.next >= self@.approvals.len(),
            },
    {
        if self.next < self.approvals.len() {
            Some(&self.approvals[self.next])
        } else {
            None
        }
    }

    /// Takes what came of marking the approval. Its node is told exactly if the approval was marked;
    /// one that was not is passed over, and the sweep goes on to the others.
    pub fn approval_expired(&mut self, expired: Result<(), String>) -> (r: Option<
        ExecuteWorkflowJob,
    >)
        requires
            old(self)@.next < old(self)@.approvals.len(),
            old(self)@.approvals[old(self)@.next as int].expires_at matches Some(t)
                ==> t.has_date(),
        ensures
            match (expired, r) {
                (Ok(_), Some(job)) => {
                    &&& job@ == expiry_callback(old(self)@.approvals[old(self)@.next as int])
                    &&& final(self)@ == (ApprovalSweepView { marked: true, ..old(self)@ })
                },
                (Err(_), None) => final(self)@ == old(self)@.done(false),
                _ => false,
            },
    {
        proof {
            use_type_invariant(&*self);
        }
        match expired {
            Ok(()) => {
                let job = Sweeper::sweep_expired_approval(&self.approvals[self.next]);
                self.marked = true;
                Some(job)
            },
            Err(_) => {
                self.marked = false;
                if self.next < self.approvals.len() {
                    self.next = self.next + 1;
                }
                None
            },
        }
    }

    /// Takes what came of telling the node of the approval that was marked, and goes on to the next
    /// one. Only a node that was told counts.
    pub fn callback_sent(&mut self, sent: Result<(), String>)
        requires
            old(self)@.marked,
        ensures
            final(self)@ == old(self)@.done(sent is Ok),
    {
        proof {
            use_type_invariant(&*self);
        }
        self.marked = false;
        if self.next < self.approvals.len() {
            self.next = self.next + 1;
        }
        if sent.is_ok() {
            self.count = self.count + 1;
        }
    }

    /// How many nodes have been told.
    pub fn count(&self) -> (r: usize)
        ensures
            r == self@.count,
    {
        self.count
    }
}

/// The identifier of the child that something sent names; a restart names none.
pub open spec fn names_child(sent: SweepView) -> Option<Seq<char>> {
    match sent {
        SweepView::Callback(job) => match job.event {
            EventView::NodeCallback { child_task_id, .. } => Some(child_task_id),
            _ => None,
        },
        SweepView::Redispatch(job) => Some(job.task_instance_id),
        SweepView::Restart(_) => None,
    }
}

/// Whether a child's task may have got lost, or its callback.
pub open spec fn may_be_lost(task: Option<TaskView>) -> bool {
    &&& task is Some
    &&& (task->0.task_status is Pending || task->0.task_status is Running || task->0.task_status
        is Completed || task->0.task_status is Failed)
}

/// What is sent for a container's children, one by one and nothing else.
proof fn lemma_recoveries(
    instance: InstanceView,
    node_id: Seq<char>,
    tasks: Seq<Option<TaskView>>,
)
    ensures
        forall|i: int|
            0 <= i < tasks.len() && (#[trigger] container_recovery(
                instance,
                node_id,
                i as nat,
                tasks[i],
            )) is Some ==> container_recoveries(instance, node_id, tasks).contains(
                container_recovery(instance, node_id, i as nat, tasks[i])->0,
            ),
        forall|k: int|
            0 <= k < container_recoveries(instance, node_id, tasks).len() ==> exists|i: int|
                0 <= i < tasks.len() && #[trigger] container_recovery(
                    instance,
                    node_id,
                    i as nat,
                    tasks[i],
                ) == Some(#[trigger] container_recoveries(instance, node_id, tasks)[k]),
        container_recoveries(instance, node_id, tasks).len() == tasks.filter(
            |t: Option<TaskView>| may_be_lost(t),
        ).len(),
    decreases tasks.len(),
{
    reveal(Seq::filter);
    if tasks.len() > 0 {
        let front = tasks.drop_last();
        lemma_recoveries(instance, node_id, front);
        let before = container_recoveries(instance, node_id, front);
        let sent = container_recoveries(instance, node_id, tasks);
        assert forall|i: int|
            0 <= i < tasks.len() && (#[trigger] container_recovery(
                instance,
                node_id,
                i as nat,
                tasks[i],
            )) is Some implies sent.contains(
            container_recovery(instance, node_id, i as nat, tasks[i])->0,
        ) by {
            let a = container_recovery(instance, node_id, i as nat, tasks[i])->0;
            if i < front.len() {
                assert(front[i] == tasks[i]);
                assert(container_recovery(instance, node_id, i as nat, front[i]) is Some);
                assert(before.contains(a));
                let k = choose|k: int| 0 <= k < before.len() && before[k] == a;
                assert(sent[k] == a);
            } else {
                assert(sent[sent.len() - 1] == a);
            }
        }
        assert forall|k: int| 0 <= k < sent.len() implies exists|i: int|
            0 <= i < tasks.len() && #[trigger] container_recovery(
                instance,
                node_id,
                i as nat,
                tasks[i],
            ) == Some(#[trigger] sent[k]) by {
            if k < before.len() {
                assert(before[k] == sent[k]);
                let i = choose|i: int|
                    0 <= i < front.len() && #[trigger] container_recovery(
                        instance,
                        node_id,
                        i as nat,
                        front[i],
                    ) == Some(before[k]);
                assert(front[i] == tasks[i]);
                assert(container_recovery(instance, node_id, i as nat, tasks[i]) == Some(sent[k]));
            } else {
                let i = tasks.len() - 1;
                assert(container_recovery(instance, node_id, i as nat, tasks[i]) == Some(sent[k]));
            }
        }
    }
}

/// What is sent for a child of a container names the child by the identifier that the container
/// started it with: the task of one that has not ended is sent again under that identifier, and for
/// one that completed or failed its callback comes with that identifier, with its end and with what
/// it left behind.
pub proof fn law_recoveries_name_the_containers_children(
    instance: InstanceView,
    place: PlaceView,
    tasks: Seq<Option<TaskView>>,
    i: usize,
)
    requires
        place.workflow_instance_id == instance.workflow_instance_id,
        i < tasks.len(),
        tasks[i as int] is Some,
    ensures
        ({
            let task = tasks[i as int]->0;
            let sent = container_recoveries(instance, place.node_id, tasks);
            let started_as = child_task_job(place, i).task_instance_id;
            &&& (task.task_status is Pending || task.task_status is Running) ==> exists|k: int|
                {
                    &&& 0 <= k < sent.len()
                    &&& #[trigger] sent[k] matches SweepView::Redispatch(job)
                    &&& job.task_instance_id == started_as
                    &&& job.tenant_id == instance.tenant_id
                    &&& job.caller_context matches Some(caller)
                    &&& caller.workflow_instance_id == instance.workflow_instance_id
                    &&& caller.node_id == place.node_id
                }
            &&& (task.task_status is Completed || task.task_status is Failed) ==> exists|k: int|
                {
                    &&& 0 <= k < sent.len()
                    &&& #[trigger] sent[k] matches SweepView::Callback(job)
                    &&& job.workflow_instance_id == instance.workflow_instance_id
                    &&& job.tenant_id == instance.tenant_id
                    &&& job.event matches EventView::NodeCallback {
                        node_id,
                        child_task_id,
                        status,
                        output,
                        error_message,
                        input,
                    }
                    &&& node_id == place.node_id
                    &&& child_task_id == started_as
                    &&& status is Success <==> task.task_status is Completed
                    &&& status is Failed <==> task.task_status is Failed
                    &&& output == task.output
                    &&& error_message == task.error_message
                    &&& input == task.input
                }
        }),
{
    lemma_recoveries(instance, place.node_id, tasks);
    let sent = container_recoveries(instance, place.node_id, tasks);
    if may_be_lost(tasks[i as int]) {
        let at = i as int;
        let a = container_recovery(instance, place.node_id, at as nat, tasks[at]);
        assert(a is Some);
        assert(sent.contains(a->0));
        let k = choose|k: int| 0 <= k < sent.len() && sent[k] == a->0;
        assert(sent[k] == a->0);
    }
}

/// Nothing is sent for a container but what names one of its children, and one that may be lost; no
/// child is sent for twice.
pub proof fn law_nothing_else_is_sent_for_a_container(
    instance: InstanceView,
    place: PlaceView,
    tasks: Seq<Option<TaskView>>,
)
    requires
        place.workflow_instance_id == instance.workflow_instance_id,
        tasks.len() <= usize::MAX,
    ensures
        ({
            let sent = container_recoveries(instance, place.node_id, tasks);
            &&& forall|k: int|
                0 <= k < sent.len() ==> exists|i: usize|
                    {
                        &&& i < tasks.len()
                        &&& may_be_lost(tasks[i as int])
                        &&& names_child(#[trigger] sent[k]) == Some(
                            (#[trigger] child_task_job(place, i)).task_instance_id,
                        )
                    }
            &&& sent.len() == tasks.filter(|t: Option<TaskView>| may_be_lost(t)).len()
        }),
{
    lemma_recoveries(instance, place.node_id, tasks);
    let sent = container_recoveries(instance, place.node_id, tasks);
    assert forall|k: int| 0 <= k < sent.len() implies exists|i: usize|
        {
            &&& i < tasks.len()
            &&& may_be_lost(tasks[i as int])
            &&& names_child(#[trigger] sent[k]) == Some(
                (#[trigger] child_task_job(place, i)).task_instance_id,
            )
        } by {
        let i = choose|i: int|
            0 <= i < tasks.len() && #[trigger] container_recovery(
                instance,
                place.node_id,
                i as nat,
                tasks[i],
            ) == Some(sent[k]);
        assert(container_recovery(instance, place.node_id, i as nat, tasks[i]) == Some(sent[k]));
        let u = i as usize;
        assert(names_child(sent[k]) == Some(child_task_job(place, u).task_instance_id));
    }
}

/// The child of a plain node is named by the identifier that the node handed out: its task is sent
/// again as the very job that the node started, its callback comes with that identifier, its end and
/// what it left behind, and where there is no task its instance is started.
pub proof fn law_a_single_recovery_names_the_nodes_child(
    instance: InstanceView,
    node: NodeView,
    task: Option<TaskView>,
)
    ensures
        match single_recovery(instance, node.node_id, task) {
            SweepView::Redispatch(job) => {
                &&& job == node_task_job(node, instance)
                &&& task matches Some(t) && !(t.task_status is Completed || t.task_status is Failed)
            },
            SweepView::Callback(job) => {
                &&& task matches Some(t)
                &&& job.workflow_instance_id == instance.workflow_instance_id
                &&& job.tenant_id == instance.tenant_id
                &&& job.event matches EventView::NodeCallback {
                    node_id,
                    child_task_id,
                    status,
                    output,
                    error_message,
                    input,
                }
                &&& node_id == node.node_id
                &&& child_task_id == node_task_job(node, instance).task_instance_id
                &&& status is Success <==> t.task_status is Completed
                &&& status is Failed <==> t.task_status is Failed
                &&& output == t.output
                &&& error_message == t.error_message
                &&& input == t.input
            },
            SweepView::Restart(job) => {
                &&& task is None
                &&& job.workflow_instance_id == instance.workflow_instance_id
                &&& job.tenant_id == instance.tenant_id
                &&& job.event is Start
            },
        },
{
}

/// Where an awaiting instance stands at a container, as many children are looked up as the container
/// wrote that it had started; where it stands at any other node, the one child that the node handed
/// out is.
pub proof fn law_the_awaited_children_are_those_that_were_started(
    instance: InstanceView,
    at: int,
    total_label: Seq<char>,
    total: u64,
    started: u64,
    results: Map<Seq<char>, JsonView>,
)
    requires
        node_place(instance.nodes, instance.current_node) == Some(at),
        0 <= at < instance.nodes.len(),
        total_label == "total_items"@ || total_label == "total_tasks"@,
    ensures
        ({
            let node = instance.nodes[at];
            let container = node.task_instance.task_template is Parallel
                || node.task_instance.task_template is ForkJoin;
            &&& container && node.task_instance.output == Some(
                container_output(total_label, total, started, results),
            ) ==> awaited(instance) == Ok::<AwaitedView, Seq<char>>(
                AwaitedView::Container(at, started),
            )
            &&& !container ==> awaited(instance) == Ok::<AwaitedView, Seq<char>>(
                AwaitedView::Single(at, node_task_job(node, instance).task_instance_id),
            )
        }),
{
    reveal_strlit("total_items");
    reveal_strlit("total_tasks");
    reveal_strlit("dispatched_count");
    reveal_strlit("results");
    assert("total_items"@.len() == 11 && "total_tasks"@.len() == 11 && "results"@.len() == 7);
    assert("dispatched_count"@.len() == 16);
}

/// An instance that lost its worker while it ran is started again unless it stands at a node that
/// waits for a callback; then, and if it waited already, it is recovered. One that neither runs nor
/// waits is left.
pub proof fn law_only_waiting_nodes_keep_from_a_restart(instance: InstanceView, at: int)
    requires
        node_place(instance.nodes, instance.current_node) == Some(at),
    ensures
        ({
            let waits = instance.nodes[at].status is Await || instance.nodes[at].status
                is Suspended;
            &&& zombie_step(instance) is Restart <==> instance.status is Running && !waits
            &&& zombie_step(instance) is AwaitAndRecover <==> instance.status is Running && waits
            &&& zombie_step(instance) is Recover <==> instance.status is Await
        }),
{
}

/// An approval that ran out fails its own node: the callback goes to the approval's instance and
/// node, names the approval, tells a failure, and says when the approval ended.
pub proof fn law_expired_approvals_fail_their_node(approval: ApprovalView)
    ensures
        ({
            let job = expiry_callback(approval);
            &&& job.workflow_instance_id == approval.workflow_instance_id
            &&& job.tenant_id == approval.tenant_id
            &&& job.event matches EventView::NodeCallback {
                node_id,
                child_task_id,
                status,
                output,
                error_message,
                ..
            }
            &&& node_id == approval.node_id
            &&& child_task_id == approval.id
            &&& status is Failed
            &&& error_message is Some
            &&& output matches Some(o)
            &&& o.field("approval_expired"@) == Some(JsonView::Bool(true))
            &&& match approval.expires_at {
                Some(t) => o.field("expires_at"@) == Some(JsonView::Str(rfc3339_z(t))),
                None => o.field("expires_at"@) == Some(JsonView::Null),
            }
        }),
{
    reveal_strlit("approval_expired");
    reveal_strlit("expires_at");
    assert("approval_expired"@.len() == 16 && "expires_at"@.len() == 10);
}

/// The pauses that are over, and no others, get one callback each; it names the node and the child
/// that the node waits for, tells a success, and brings the node the output that it has.
pub proof fn law_every_pause_that_is_over_is_called_back(
    instance: InstanceView,
    nodes: Seq<NodeView>,
    at: Timestamp,
)
    ensures
        ({
            let sent = pause_callbacks(instance, nodes, at);
            &&& sent.len() == nodes.filter(|n: NodeView| pause_is_over(n, at)).len()
            &&& forall|k: int|
                0 <= k < sent.len() ==> {
                    let node = nodes.filter(|n: NodeView| pause_is_over(n, at))[k];
                    let job = #[trigger] sent[k];
                    &&& job.workflow_instance_id == instance.workflow_instance_id
                    &&& job.tenant_id == instance.tenant_id
                    &&& job.event matches EventView::NodeCallback {
                        node_id,
                        child_task_id,
                        status,
                        output,
                        error_message,
                        input,
                    }
                    &&& node_id == node.node_id
                    &&& child_task_id == node_task_job(node, instance).task_instance_id
                    &&& status is Success
                    &&& output == node.task_instance.output
                    &&& error_message is None
                    &&& input is None
                }
        }),
    decreases nodes.len(),
{
    reveal(Seq::filter);
    if nodes.len() > 0 {
        law_every_pause_that_is_over_is_called_back(instance, nodes.drop_last(), at);
    }
}

/// A pause is over exactly from the moment that its output gives, and only while its node is
/// suspended.
pub proof fn law_pauses_end_at_their_time(node: NodeView, at: Timestamp, end: Timestamp)
    requires
        node.node_type is Pause,
        node.task_instance.task_template matches TaskTemplateView::Pause(t) && t.mode is Auto,
        resume_time(node) == Some(end),
    ensures
        pause_is_over(node, at) <==> node.status is Suspended && at.not_before(end),
        node.status is Suspended ==> pause_is_over(node, end),
{
}

/// What the sweeper sends for a container's child names it by the identifier that the container
/// started it with, whatever of the two it sends; and it sends nothing that names another.
pub proof fn law_the_sweeper_names_the_containers_children(
    instance: &WorkflowInstanceEntity,
    node: &WorkflowNodeInstanceEntity,
    tasks: &Vec<Option<TaskInstanceEntity>>,
    sent: Vec<SweepAction>,
    place: PlaceView,
    i: usize,
)
    requires
        call_ensures(Sweeper::recover_await_container, (instance, node, tasks), sent),
        place.workflow_instance_id == instance.workflow_instance_id@,
        place.node_id == node.node_id@,
        i < tasks@.len() <= usize::MAX,
        tasks@[i as int] is Some,
    ensures
        ({
            let task = tasks@[i as int]->0;
            let started_as = child_task_job(place, i).task_instance_id;
            &&& (task.task_status is Pending || task.task_status is Running) ==> exists|k: int|
                {
                    &&& 0 <= k < sent@.len()
                    &&& (#[trigger] sent@[k])@ matches SweepView::Redispatch(job)
                    &&& job.task_instance_id == started_as
                }
            &&& (task.task_status is Completed || task.task_status is Failed) ==> exists|k: int|
                {
                    &&& 0 <= k < sent@.len()
                    &&& names_child((#[trigger] sent@[k])@) == Some(started_as)
                    &&& sent@[k]@ is Callback
                }
            &&& forall|k: int|
                0 <= k < sent@.len() ==> exists|j: usize|
                    j < tasks@.len() && names_child((#[trigger] sent@[k])@) == Some(
                        (#[trigger] child_task_job(place, j)).task_instance_id,
                    )
        }),
{
    let found = found_tasks(tasks@);
    let seen = container_recoveries(instance@, place.node_id, found);
    assert(found[i as int] is Some);
    law_recoveries_name_the_containers_children(instance@, place, found, i);
    law_nothing_else_is_sent_for_a_container(instance@, place, found);
    let task = tasks@[i as int]->0;
    assert(found[i as int]->0 == task@);
    assert(forall|k: int| 0 <= k < sent@.len() ==> (#[trigger] sent@[k])@ == seen[k]);
    if task.task_status is Pending || task.task_status is Running {
        let k = choose|k: int|
            {
                &&& 0 <= k < seen.len()
                &&& #[trigger] seen[k] matches SweepView::Redispatch(job)
                &&& job.task_instance_id == child_task_job(place, i).task_instance_id
            };
        assert(sent@[k]@ == seen[k]);
    }
    if task.task_status is Completed || task.task_status is Failed {
        let k = choose|k: int|
            {
                &&& 0 <= k < seen.len()
                &&& names_child(#[trigger] seen[k]) == Some(
                    child_task_job(place, i).task_instance_id,
                )
                &&& seen[k] is Callback
            };
        assert(sent@[k]@ == seen[k]);
    }
    assert forall|k: int| 0 <= k < sent@.len() implies exists|j: usize|
        j < tasks@.len() && names_child((#[trigger] sent@[k])@) == Some(
            (#[trigger] child_task_job(place, j)).task_instance_id,
        ) by {
        assert(sent@[k]@ == seen[k]);
        let j = choose|j: usize|
            {
                &&& j < found.len()
                &&& may_be_lost(found[j as int])
                &&& names_child(seen[k]) == Some(
                    (#[trigger] child_task_job(place, j)).task_instance_id,
                )
            };
        assert(names_child(sent@[k]@) == Some(child_task_job(place, j).task_instance_id));
    }
}

/// An instance whose lock could not be cleared is left, and one whose lock was is taken up.
pub proof fn law_only_cleared_instances_are_taken_up(
    instance: &WorkflowInstanceEntity,
    cleared: bool,
    step: ZombieStep,
)
    requires
        call_ensures(Sweeper::run_cycle, (instance, cleared), step),
    ensures
        !cleared ==> step is Leave,
        cleared && (instance@.status is Running || instance@.status is Await) ==> !(step is Leave),
        !(instance@.status is Running || instance@.status is Await) ==> step is Leave,
{
}

/// A sweep over approvals goes through all of them one by one: whether an approval was marked and its
/// node told or not, the next one comes after it, and exactly the nodes that were told are counted.
pub proof fn law_a_sweep_goes_through_all_approvals(state: ApprovalSweepView, told: bool)
    ensures
        state.done(told).next == state.next + 1,
        state.done(told).approvals == state.approvals,
        !state.done(told).marked,
        state.done(true).count == state.count + 1,
        state.done(false).count == state.count,
{
}

} // verus!
