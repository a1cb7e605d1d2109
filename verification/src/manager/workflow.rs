//! What an event does to a workflow instance, and the loop over its nodes.
//!
//! - A start runs an instance that is pending.
//! - A callback of a child goes to the current node of an instance that is not at an end, and the
//!   run goes on with what the node makes of it.
//! - A child that was revived, or is to be tried again, is taken back out of its container, and a
//!   parent that had failed is started again.
//! - The loop looks at the instance in storage anew each time, so that it never runs a stale one.

use crate::entity::{
    node_place, nodes_view, with_node, InstanceView, NodeView, TaskInstanceEntity, TaskView,
    WorkflowInstanceEntity, WorkflowNodeInstanceEntity,
};
use crate::json::{clone_opt, clone_opt_text, opt_json, Json, JsonView};
use crate::manager::after_save::{left_to_do, AfterSave};
use crate::manager::apply_exec::{applied, with_node_status, LoopAction};
use crate::manager::executor::PluginManager;
use crate::manager::rollback::node_rolled_back;
use crate::plugin::interface::{just, outcome, ExecutionResult, ExecutionView};
use crate::shared::{
    make_start_job, start_job, workflow_jobs, EventView, ExecuteWorkflowJob,
    NodeExecutionStatus, TaskInstanceStatus, TaskType, WorkflowEvent, WorkflowInstanceStatus,
    WorkflowJobView,
};
use crate::text::{concat2, concat3, opt_text, same};
use crate::time::{now, Timestamp};
use crate::workflow_transition::{invalid_transition, parent_jobs, parent_notice};
use vstd::prelude::*;

verus! {

/// How long a worker holds the lock on an instance, in milliseconds.
pub const LOCK_DURATION_MS: u64 = 10000;

/// What a callback says of a child.
#[derive(Debug)]
pub struct CallbackPayload {
    pub status: NodeExecutionStatus,
    pub output: Option<Json>,
    pub error_message: Option<String>,
    pub input: Option<Json>,
}

/// The mathematical value of a [`CallbackPayload`].
pub struct PayloadView {
    pub status: NodeExecutionStatus,
    pub output: Option<JsonView>,
    pub error_message: Option<Seq<char>>,
    pub input: Option<JsonView>,
}

impl View for CallbackPayload {
    type V = PayloadView;

    open spec fn view(&self) -> PayloadView {
        PayloadView {
            status: self.status,
            output: opt_json(self.output),
            error_message: opt_text(self.error_message),
            input: opt_json(self.input),
        }
    }
}

/// Whether a callback to a node may go on.
#[derive(Debug)]
pub enum CallbackReadiness {
    /// It may not; there is nothing to do.
    Ignored,
    /// It may, once the instance has been moved through these statuses, each written.
    Ready(Vec<WorkflowInstanceStatus>),
}

/// The statuses that an instance is moved through before a callback is taken; nothing if the
/// callback does not go to the current node, or if the instance is at an end.
pub open spec fn callback_path(
    current_node: Seq<char>,
    status: WorkflowInstanceStatus,
    node_id: Seq<char>,
) -> Option<Seq<WorkflowInstanceStatus>> {
    if node_id != current_node {
        None
    } else {
        match status {
            WorkflowInstanceStatus::Await | WorkflowInstanceStatus::Suspended => Some(
                seq![WorkflowInstanceStatus::Pending, WorkflowInstanceStatus::Running],
            ),
            WorkflowInstanceStatus::Pending => Some(seq![WorkflowInstanceStatus::Running]),
            WorkflowInstanceStatus::Running => Some(seq![]),
            _ => None,
        }
    }
}

/// Whether a path of statuses is made of allowed moves and ends in the given status.
pub open spec fn leads_to(
    from: WorkflowInstanceStatus,
    path: Seq<WorkflowInstanceStatus>,
    to: WorkflowInstanceStatus,
) -> bool
    decreases path.len(),
{
    if path.len() == 0 {
        from == to
    } else {
        from.may_become(path[0]) && leads_to(path[0], path.drop_first(), to)
    }
}

/// A callback to a node that is not the current one is ignored, whatever the instance's status.
pub proof fn law_stale_callbacks_are_ignored(
    current_node: Seq<char>,
    status: WorkflowInstanceStatus,
    node_id: Seq<char>,
)
    requires
        node_id != current_node,
    ensures
        callback_path(current_node, status, node_id) is None,
{
}

/// A callback that is taken finds the instance running, after allowed moves only, and none of them
/// is told to the parent.
pub proof fn law_callbacks_find_the_instance_running(
    current_node: Seq<char>,
    status: WorkflowInstanceStatus,
    node_id: Seq<char>,
)
    ensures
        callback_path(current_node, status, node_id) matches Some(path) ==> {
            &&& leads_to(status, path, WorkflowInstanceStatus::Running)
            &&& path.len() > 0 ==> parent_notice(status, path[0]) is None
            &&& path.len() > 1 ==> parent_notice(path[0], path[1]) is None
        },
{
    reveal_with_fuel(leads_to, 3);
    match callback_path(current_node, status, node_id) {
        Some(path) => {
            if path.len() == 2 {
                assert(path.drop_first() =~= seq![WorkflowInstanceStatus::Running]);
                assert(path.drop_first().drop_first() =~= seq![]);
            } else if path.len() == 1 {
                assert(path.drop_first() =~= seq![]);
            }
        },
        None => {},
    }
}

/// A callback's payload with what storage knows of the child. What the callback left out is taken
/// from storage; and unless the child was skipped, storage has the last word on its status.
pub open spec fn enriched(payload: PayloadView, stored: Option<TaskView>) -> PayloadView {
    match stored {
        None => payload,
        Some(task) => PayloadView {
            input: if payload.input is None {
                task.input
            } else {
                payload.input
            },
            output: if payload.output is None {
                task.output
            } else {
                payload.output
            },
            error_message: if payload.error_message is None {
                task.error_message
            } else {
                payload.error_message
            },
            status: if payload.status is Skipped {
                payload.status
            } else {
                match task.task_status {
                    TaskInstanceStatus::Completed => NodeExecutionStatus::Success,
                    TaskInstanceStatus::Failed => NodeExecutionStatus::Failed,
                    TaskInstanceStatus::Running => NodeExecutionStatus::Running,
                    TaskInstanceStatus::Canceled => NodeExecutionStatus::Failed,
                    _ => payload.status,
                }
            },
        },
    }
}

/// Whether a node is a container.
pub open spec fn is_container(node: NodeView) -> bool {
    node.node_type is Parallel || node.node_type is ForkJoin
}

/// What is to be done after a child of an instance was revived or is to be tried again.
#[derive(Debug)]
pub enum ReviveStep {
    /// Nothing.
    Leave,
    /// Write the instance.
    Save,
    /// Write the instance, send these jobs to the parent, and then this one to the instance
    /// itself.
    Restart(Vec<ExecuteWorkflowJob>, ExecuteWorkflowJob),
}

/// The mathematical value of a [`ReviveStep`].
pub enum ReviveView {
    Leave,
    Save,
    Restart(Seq<WorkflowJobView>, WorkflowJobView),
}

impl View for ReviveStep {
    type V = ReviveView;

    open spec fn view(&self) -> ReviveView {
        match self {
            ReviveStep::Leave => ReviveView::Leave,
            ReviveStep::Save => ReviveView::Save,
            ReviveStep::Restart(parent, own) => ReviveView::Restart(workflow_jobs(parent@), own@),
        }
    }
}

/// A failed instance made ready to run a node again: the node is pending without an error, the
/// instance is pending, the parent is told, and the instance is to be started.
pub open spec fn restarted(instance: InstanceView, index: int, node: NodeView, at: Timestamp) -> (
    InstanceView,
    ReviveView,
) {
    (
        InstanceView {
            status: WorkflowInstanceStatus::Pending,
            updated_at: at,
            ..with_node(
                instance,
                index,
                NodeView { status: NodeExecutionStatus::Pending, error_message: None, ..node },
            )
        },
        ReviveView::Restart(
            parent_jobs(instance, instance.status, WorkflowInstanceStatus::Pending),
            start_job(instance.workflow_instance_id, instance.tenant_id),
        ),
    )
}

/// What a revived child does to its parent: a parent that had failed is restarted, and one that
/// awaits only takes the child back out of its container; any other is left alone.
pub open spec fn revived(
    instance: InstanceView,
    node_id: Seq<char>,
    child: Seq<char>,
    at: Timestamp,
) -> Result<(InstanceView, ReviveView), Seq<char>> {
    match instance.status {
        WorkflowInstanceStatus::Failed => match node_place(instance.nodes, node_id) {
            None => Err("revive_from_failed: node not found: "@ + node_id),
            Some(i) => {
                let node = instance.nodes[i];
                Ok(
                    restarted(
                        instance,
                        i,
                        if is_container(node) {
                            node_rolled_back(node, child)
                        } else {
                            node
                        },
                        at,
                    ),
                )
            },
        },
        WorkflowInstanceStatus::Await => match node_place(instance.nodes, node_id) {
            None => Err("revive_from_await: node not found: "@ + node_id),
            Some(i) => {
                let node = instance.nodes[i];
                if is_container(node) {
                    Ok((with_node(instance, i, node_rolled_back(node, child)), ReviveView::Save))
                } else {
                    Ok((instance, ReviveView::Leave))
                }
            },
        },
        _ => Ok((instance, ReviveView::Leave)),
    }
}

/// What the retry of a container's child does to the parent: the child is taken back; a parent
/// that had failed is restarted, one that awaits, is pending or runs is written, and one at an end
/// is not written.
pub open spec fn retried(
    instance: InstanceView,
    node_id: Seq<char>,
    child: Seq<char>,
    at: Timestamp,
) -> Result<(InstanceView, ReviveView), Seq<char>> {
    match node_place(instance.nodes, node_id) {
        None => Err("RetryContainerChild: node "@ + node_id + " not found"@),
        Some(i) => {
            let node = node_rolled_back(instance.nodes[i], child);
            match instance.status {
                WorkflowInstanceStatus::Failed => Ok(restarted(instance, i, node, at)),
                WorkflowInstanceStatus::Await | WorkflowInstanceStatus::Pending
                | WorkflowInstanceStatus::Running => Ok(
                    (with_node(instance, i, node), ReviveView::Save),
                ),
                _ => Ok((with_node(instance, i, node), ReviveView::Leave)),
            }
        },
    }
}

/// The callback that a child's task owes a node that it has already ended for; nothing while it has
/// not ended.
pub open spec fn late_callback(
    instance_id: Seq<char>,
    tenant_id: Seq<char>,
    node_id: Seq<char>,
    child_task_id: Seq<char>,
    child: Option<TaskView>,
) -> Option<WorkflowJobView> {
    match child {
        None => None,
        Some(task) => {
            let status = match task.task_status {
                TaskInstanceStatus::Completed => Some(NodeExecutionStatus::Success),
                TaskInstanceStatus::Failed => Some(NodeExecutionStatus::Failed),
                _ => None,
            };
            match status {
                None => None,
                Some(s) => Some(
                    WorkflowJobView {
                        workflow_instance_id: instance_id,
                        tenant_id,
                        event: EventView::NodeCallback {
                            node_id,
                            child_task_id,
                            status: s,
                            output: task.output,
                            error_message: task.error_message,
                            input: task.input,
                        },
                    },
                ),
            }
        },
    }
}

/// What one look of the loop at an instance comes to.
#[derive(Debug)]
pub enum TickStep {
    /// Write the instance, and look again.
    SaveAndContinue,
    /// Write the instance, send these jobs to the parent, and stop.
    Finish(Vec<ExecuteWorkflowJob>),
    /// Stop.
    Stop,
    /// Write the instance, and run the node.
    SaveAndRun,
}

/// The mathematical value of a [`TickStep`].
pub enum TickView {
    SaveAndContinue,
    Finish(Seq<WorkflowJobView>),
    Stop,
    SaveAndRun,
}

impl View for TickStep {
    type V = TickView;

    open spec fn view(&self) -> TickView {
        match self {
            TickStep::SaveAndContinue => TickView::SaveAndContinue,
            TickStep::Finish(jobs) => TickView::Finish(workflow_jobs(jobs@)),
            TickStep::Stop => TickView::Stop,
            TickStep::SaveAndRun => TickView::SaveAndRun,
        }
    }
}

/// An instance that is moved to an end, and what the parent is told.
pub open spec fn finished(instance: InstanceView, end: WorkflowInstanceStatus, at: Timestamp) -> Result<
    (InstanceView, TickView),
    Seq<char>,
> {
    if instance.status.may_become(end) {
        Ok(
            (
                InstanceView { status: end, updated_at: at, ..instance },
                TickView::Finish(parent_jobs(instance, instance.status, end)),
            ),
        )
    } else {
        Err(invalid_transition(instance.status, end))
    }
}

/// One look of the loop at an instance whose current node is at a place. A node that has ended
/// well sends the run to its next node, or completes the instance; a failed one fails it; one that
/// waits or runs stops the loop; a pending one is run.
pub open spec fn ticked(instance: InstanceView, index: int, at: Timestamp) -> Result<
    (InstanceView, TickView),
    Seq<char>,
> {
    match instance.nodes[index].status {
        NodeExecutionStatus::Success | NodeExecutionStatus::Skipped => match instance.nodes[index].next_node {
            Some(next) => Ok(
                (InstanceView { current_node: next, ..instance }, TickView::SaveAndContinue),
            ),
            None => finished(instance, WorkflowInstanceStatus::Completed, at),
        },
        NodeExecutionStatus::Failed => finished(instance, WorkflowInstanceStatus::Failed, at),
        NodeExecutionStatus::Suspended | NodeExecutionStatus::Await
        | NodeExecutionStatus::Running => Ok((instance, TickView::Stop)),
        NodeExecutionStatus::Pending => Ok(
            (
                with_node_status(instance, index, NodeExecutionStatus::Running),
                TickView::SaveAndRun,
            ),
        ),
    }
}

/// The loop always makes an allowed move: it never refuses to finish a running instance.
pub proof fn law_a_running_instance_can_finish(instance: InstanceView, index: int, at: Timestamp)
    requires
        instance.status is Running,
    ensures
        ticked(instance, index, at) is Ok,
{
}

/// A node is run only if it was pending, and is marked as running before that, so that no other
/// look at the written instance runs it again.
pub proof fn law_a_node_is_run_once(instance: InstanceView, index: int, at: Timestamp)
    requires
        0 <= index < instance.nodes.len(),
    ensures
        ticked(instance, index, at) matches Ok((after, TickView::SaveAndRun)) ==> {
            &&& instance.nodes[index].status is Pending
            &&& ticked(after, index, at) == Ok::<(InstanceView, TickView), Seq<char>>(
                (after, TickView::Stop),
            )
        },
{
}

/// The context that a node is run with, before the results of other nodes are added to it: the
/// variables that were found for it, or its own context if they could not be found; and, if the
/// instance has a creator and the context is an object, the creator under `__initiator__`.
pub open spec fn run_context(
    node_context: JsonView,
    variables: Option<JsonView>,
    created_by: Option<Seq<char>>,
) -> JsonView {
    let base = match variables {
        Some(v) => v,
        None => node_context,
    };
    match created_by {
        Some(uid) => base.with("__initiator__"@, JsonView::Str(uid)),
        None => base,
    }
}

/// The result that a run is applied with: an error counts as a failure.
pub open spec fn run_result(result: Result<ExecutionView, Seq<char>>) -> ExecutionView {
    match result {
        Ok(x) => x,
        Err(_) => just(NodeExecutionStatus::Failed),
    }
}

/// What a node that was run comes to: its result, or a failure with the error on the node.
pub open spec fn ran(
    instance: InstanceView,
    index: int,
    node: NodeView,
    result: Result<ExecutionView, Seq<char>>,
    at: Timestamp,
) -> (InstanceView, LoopAction) {
    match result {
        Ok(x) => applied(with_node(instance, index, node), index, x, at),
        Err(e) => applied(
            with_node(instance, index, NodeView { error_message: Some(e), ..node }),
            index,
            just(NodeExecutionStatus::Failed),
            at,
        ),
    }
}

impl PluginManager {
    /// The error of a job whose instance could not be locked.
    pub fn lock_error(workflow_instance_id: &str, why: &str) -> (r: String)
        ensures
            r@ == "failed to acquire lock for instance "@ + workflow_instance_id@ + ": "@ + why@,
    {
        let mut s = concat3("failed to acquire lock for instance ", workflow_instance_id, ": ");
        s.append(why);
        s
    }

    /// Whether a start runs the instance. Only a pending one is run; a running one that lost its
    /// worker is found by the sweeper.
    pub fn on_workflow_start(instance: &WorkflowInstanceEntity) -> (r: bool)
        ensures
            r == (instance@.status is Pending),
    {
        instance.is_pending()
    }

    /// Whether an instance that is to be run may be run, given its status in storage.
    pub fn execute_workflow(latest: &WorkflowInstanceStatus) -> (r: bool)
        ensures
            r == (*latest is Pending),
    {
        matches!(latest, WorkflowInstanceStatus::Pending)
    }

    /// Whether the loop goes on with an instance that it has read.
    pub fn reload_workflow_if_running(instance: &WorkflowInstanceEntity) -> (r: bool)
        ensures
            r == (instance@.status is Running),
    {
        instance.is_running()
    }

    /// The place of the node with an id.
    pub fn node_index_for_id(instance: &WorkflowInstanceEntity, node_id: &str) -> (r: Result<
        usize,
        String,
    >)
        ensures
            match r {
                Ok(i) => i < instance.nodes@.len() && node_place(instance@.nodes, node_id@) == Some(
                    i as int,
                ),
                Err(e) => node_place(instance@.nodes, node_id@) is None && e@
                    == "node not found: "@ + node_id@,
            },
    {
        match instance.find_node(node_id) {
            Some(i) => Ok(i),
            None => Err(concat2("node not found: ", node_id)),
        }
    }

    /// Whether a callback to a node may go on, and through which statuses the instance is moved
    /// before it is taken.
    pub fn prepare_instance_for_node_callback(
        instance: &WorkflowInstanceEntity,
        expected_node_id: &str,
    ) -> (r: CallbackReadiness)
        ensures
            match r {
                CallbackReadiness::Ignored => callback_path(
                    instance@.current_node,
                    instance@.status,
                    expected_node_id@,
                ) is None,
                CallbackReadiness::Ready(path) => callback_path(
                    instance@.current_node,
                    instance@.status,
                    expected_node_id@,
                ) == Some(path@),
            },
    {
        if !same(expected_node_id, instance.current_node.as_str()) {
            return CallbackReadiness::Ignored;
        }
        let mut path: Vec<WorkflowInstanceStatus> = Vec::new();
        match instance.status {
            WorkflowInstanceStatus::Await | WorkflowInstanceStatus::Suspended => {
                path.push(WorkflowInstanceStatus::Pending);
                path.push(WorkflowInstanceStatus::Running);
                assert(path@ =~= seq![
                    WorkflowInstanceStatus::Pending,
                    WorkflowInstanceStatus::Running,
                ]);
                CallbackReadiness::Ready(path)
            },
            WorkflowInstanceStatus::Pending => {
                path.push(WorkflowInstanceStatus::Running);
                assert(path@ =~= seq![WorkflowInstanceStatus::Running]);
                CallbackReadiness::Ready(path)
            },
            WorkflowInstanceStatus::Running => {
                assert(path@ =~= seq![]);
                CallbackReadiness::Ready(path)
            },
            _ => CallbackReadiness::Ignored,
        }
    }

    /// Adds to a callback's payload what storage knows of the child. `stored` is the child's task,
    /// if there is a storage of tasks and the task is in it.
    pub fn enrich_callback_from_task_store(
        payload: CallbackPayload,
        stored: Option<&TaskInstanceEntity>,
    ) -> (r: CallbackPayload)
        ensures
            r@ == enriched(
                payload@,
                match stored {
                    Some(t) => Some(t@),
                    None => None,
                },
            ),
    {
        let task = match stored {
            Some(t) => t,
            None => {
                return payload;
            },
        };
        let status = match payload.status {
            NodeExecutionStatus::Skipped => payload.status,
            _ => match task.task_status {
                TaskInstanceStatus::Completed => NodeExecutionStatus::Success,
                TaskInstanceStatus::Failed => NodeExecutionStatus::Failed,
                TaskInstanceStatus::Running => NodeExecutionStatus::Running,
                TaskInstanceStatus::Canceled => NodeExecutionStatus::Failed,
                _ => payload.status,
            },
        };
        CallbackPayload {
            status,
            input: match payload.input {
                Some(j) => Some(j),
                None => clone_opt(&task.input),
            },
            output: match payload.output {
                Some(j) => Some(j),
                None => clone_opt(&task.output),
            },
            error_message: match payload.error_message {
                Some(s) => Some(s),
                None => clone_opt_text(&task.error_message),
            },
        }
    }

    /// Takes a child back out of the node at a place, if asked to, and makes the failed instance
    /// ready to run that node again.
    fn restart(instance: &mut WorkflowInstanceEntity, index: usize, at: Timestamp) -> (r: ReviveStep)
        requires
            old(instance)@.status is Failed,
            index < old(instance).nodes@.len(),
        ensures
            (final(instance)@, r@) == restarted(
                old(instance)@,
                index as int,
                old(instance)@.nodes[index as int],
                at,
            ),
    {
        let ghost start = instance@;
        instance.nodes[index].status = NodeExecutionStatus::Pending;
        instance.nodes[index].error_message = None;
        assert(nodes_view(instance.nodes@) =~= start.nodes.update(
            index as int,
            NodeView {
                status: NodeExecutionStatus::Pending,
                error_message: None,
                ..start.nodes[index as int]
            },
        ));
        let own = make_start_job(
            instance.workflow_instance_id.as_str(),
            instance.tenant_id.as_str(),
        );
        match instance.transition_status_at(WorkflowInstanceStatus::Pending, at) {
            Ok(t) => ReviveStep::Restart(t.into_dispatch_jobs(), own),
            Err(_) => {
                assert(false);
                ReviveStep::Leave
            },
        }
    }

    /// Takes a revived child, at a given time.
    pub fn on_child_revived_at(
        instance: &mut WorkflowInstanceEntity,
        node_id: &str,
        child_id: &str,
        at: Timestamp,
    ) -> (r: Result<ReviveStep, String>)
        ensures
            match r {
                Ok(step) => revived(old(instance)@, node_id@, child_id@, at) == Ok::<
                    (InstanceView, ReviveView),
                    Seq<char>,
                >((final(instance)@, step@)),
                Err(e) => revived(old(instance)@, node_id@, child_id@, at) == Err::<
                    (InstanceView, ReviveView),
                    Seq<char>,
                >(e@) && final(instance)@ == old(instance)@,
            },
    {
        match instance.status {
            WorkflowInstanceStatus::Failed => {
                let index = match instance.find_node(node_id) {
                    Some(i) => i,
                    None => {
                        return Err(concat2("revive_from_failed: node not found: ", node_id));
                    },
                };
                PluginManager::take_back(instance, index, child_id, true);
                proof {
                    assert(with_node(
                        instance@,
                        index as int,
                        NodeView {
                            status: NodeExecutionStatus::Pending,
                            error_message: None,
                            ..instance@.nodes[index as int]
                        },
                    ).nodes =~= old(instance)@.nodes.update(
                        index as int,
                        NodeView {
                            status: NodeExecutionStatus::Pending,
                            error_message: None,
                            ..instance@.nodes[index as int]
                        },
                    ));
                }
                Ok(PluginManager::restart(instance, index, at))
            },
            WorkflowInstanceStatus::Await => {
                let index = match instance.find_node(node_id) {
                    Some(i) => i,
                    None => {
                        return Err(concat2("revive_from_await: node not found: ", node_id));
                    },
                };
                if PluginManager::take_back(instance, index, child_id, true) {
                    Ok(ReviveStep::Save)
                } else {
                    proof {
                        assert(instance@.nodes =~= old(instance)@.nodes);
                    }
                    Ok(ReviveStep::Leave)
                }
            },
            _ => Ok(ReviveStep::Leave),
        }
    }

    /// Takes a child back out of the node at a place; if `only_containers`, only where that node is
    /// a container. Says whether it did.
    fn take_back(
        instance: &mut WorkflowInstanceEntity,
        index: usize,
        child_id: &str,
        only_containers: bool,
    ) -> (r: bool)
        requires
            index < old(instance).nodes@.len(),
        ensures
            r == (!only_containers || is_container(old(instance)@.nodes[index as int])),
            final(instance)@ == with_node(
                old(instance)@,
                index as int,
                if r {
                    node_rolled_back(old(instance)@.nodes[index as int], child_id@)
                } else {
                    old(instance)@.nodes[index as int]
                },
            ),
            final(instance).nodes@.len() == old(instance).nodes@.len(),
    {
        let ghost start = instance@;
        let container = matches!(
            instance.nodes[index].node_type,
            TaskType::Parallel | TaskType::ForkJoin
        );
        if only_containers && !container {
            assert(start.nodes.update(index as int, start.nodes[index as int]) =~= start.nodes);
            return false;
        }
        PluginManager::rollback_child_in_container(&mut instance.nodes[index], child_id);
        assert(nodes_view(instance.nodes@) =~= start.nodes.update(
            index as int,
            node_rolled_back(start.nodes[index as int], child_id@),
        ));
        true
    }

    /// Takes a revived child, at the clock's time. See [`PluginManager::on_child_revived_at`].
    pub fn on_child_revived(
        instance: &mut WorkflowInstanceEntity,
        node_id: &str,
        child_id: &str,
    ) -> (r: Result<ReviveStep, String>)
        ensures
            exists|at: Timestamp|
                #![trigger revived(old(instance)@, node_id@, child_id@, at)]
                match r {
                    Ok(step) => revived(old(instance)@, node_id@, child_id@, at) == Ok::<
                        (InstanceView, ReviveView),
                        Seq<char>,
                    >((final(instance)@, step@)),
                    Err(e) => revived(old(instance)@, node_id@, child_id@, at) == Err::<
                        (InstanceView, ReviveView),
                        Seq<char>,
                    >(e@) && final(instance)@ == old(instance)@,
                },
    {
        PluginManager::on_child_revived_at(instance, node_id, child_id, now())
    }

    /// Takes the retry of a container's child, at a given time.
    pub fn on_retry_container_child_at(
        instance: &mut WorkflowInstanceEntity,
        node_id: &str,
        child_task_id: &str,
        at: Timestamp,
    ) -> (r: Result<ReviveStep, String>)
        ensures
            match r {
                Ok(step) => retried(old(instance)@, node_id@, child_task_id@, at) == Ok::<
                    (InstanceView, ReviveView),
                    Seq<char>,
                >((final(instance)@, step@)),
                Err(e) => retried(old(instance)@, node_id@, child_task_id@, at) == Err::<
                    (InstanceView, ReviveView),
                    Seq<char>,
                >(e@) && final(instance)@ == old(instance)@,
            },
    {
        let index = match instance.find_node(node_id) {
            Some(i) => i,
            None => {
                return Err(concat3("RetryContainerChild: node ", node_id, " not found"));
            },
        };
        PluginManager::take_back(instance, index, child_task_id, false);
        match instance.status {
            WorkflowInstanceStatus::Failed => {
                proof {
                    assert(with_node(
                        instance@,
                        index as int,
                        NodeView {
                            status: NodeExecutionStatus::Pending,
                            error_message: None,
                            ..instance@.nodes[index as int]
                        },
                    ).nodes =~= old(instance)@.nodes.update(
                        index as int,
                        NodeView {
                            status: NodeExecutionStatus::Pending,
                            error_message: None,
                            ..instance@.nodes[index as int]
                        },
                    ));
                }
                Ok(PluginManager::restart(instance, index, at))
            },
            WorkflowInstanceStatus::Await | WorkflowInstanceStatus::Pending
            | WorkflowInstanceStatus::Running => Ok(ReviveStep::Save),
            _ => Ok(ReviveStep::Leave),
        }
    }

    /// Takes the retry of a container's child, at the clock's time. See
    /// [`PluginManager::on_retry_container_child_at`].
    pub fn on_retry_container_child(
        instance: &mut WorkflowInstanceEntity,
        node_id: &str,
        child_task_id: &str,
    ) -> (r: Result<ReviveStep, String>)
        ensures
            exists|at: Timestamp|
                #![trigger retried(old(instance)@, node_id@, child_task_id@, at)]
                match r {
                    Ok(step) => retried(old(instance)@, node_id@, child_task_id@, at) == Ok::<
                        (InstanceView, ReviveView),
                        Seq<char>,
                    >((final(instance)@, step@)),
                    Err(e) => retried(old(instance)@, node_id@, child_task_id@, at) == Err::<
                        (InstanceView, ReviveView),
                        Seq<char>,
                    >(e@) && final(instance)@ == old(instance)@,
                },
    {
        PluginManager::on_retry_container_child_at(instance, node_id, child_task_id, now())
    }

    /// The callback that is sent after a retry for a child that has ended already, so that it
    /// cannot get lost.
    pub fn supplement_callback(
        workflow_instance_id: &str,
        tenant_id: &str,
        node_id: &str,
        child_task_id: &str,
        child: Option<&TaskInstanceEntity>,
    ) -> (r: Option<ExecuteWorkflowJob>)
        ensures
            match (
                r,
                late_callback(
                    workflow_instance_id@,
                    tenant_id@,
                    node_id@,
                    child_task_id@,
                    match child {
                        Some(t) => Some(t@),
                        None => None,
                    },
                ),
            ) {
                (Some(job), Some(want)) => job@ == want,
                (None, None) => true,
                _ => false,
            },
    {
        let task = match child {
            Some(t) => t,
            None => {
                return None;
            },
        };
        let status = match task.task_status {
            TaskInstanceStatus::Completed => NodeExecutionStatus::Success,
            TaskInstanceStatus::Failed => NodeExecutionStatus::Failed,
            _ => {
                return None;
            },
        };
        Some(
            ExecuteWorkflowJob {
                workflow_instance_id: workflow_instance_id.to_owned(),
                tenant_id: tenant_id.to_owned(),
                event: WorkflowEvent::NodeCallback {
                    node_id: node_id.to_owned(),
                    child_task_id: child_task_id.to_owned(),
                    status,
                    output: clone_opt(&task.output),
                    error_message: clone_opt_text(&task.error_message),
                    input: clone_opt(&task.input),
                },
            },
        )
    }

    /// One look of the loop at an instance, at a given time. The current node is at `node_index`.
    pub fn workflow_loop_tick_at(
        instance: &mut WorkflowInstanceEntity,
        node_index: usize,
        at: Timestamp,
    ) -> (r: Result<TickStep, String>)
        requires
            node_index < old(instance).nodes@.len(),
        ensures
            match r {
                Ok(step) => ticked(old(instance)@, node_index as int, at) == Ok::<
                    (InstanceView, TickView),
                    Seq<char>,
                >((final(instance)@, step@)),
                Err(e) => ticked(old(instance)@, node_index as int, at) == Err::<
                    (InstanceView, TickView),
                    Seq<char>,
                >(e@) && final(instance)@ == old(instance)@,
            },
            final(instance).nodes@.len() == old(instance).nodes@.len(),
    {
        let end = match instance.nodes[node_index].status {
            NodeExecutionStatus::Success | NodeExecutionStatus::Skipped => {
                let next = clone_opt_text(&instance.nodes[node_index].next_node);
                match next {
                    Some(n) => {
                        instance.current_node = n;
                        return Ok(TickStep::SaveAndContinue);
                    },
                    None => WorkflowInstanceStatus::Completed,
                }
            },
            NodeExecutionStatus::Failed => WorkflowInstanceStatus::Failed,
            NodeExecutionStatus::Suspended | NodeExecutionStatus::Await
            | NodeExecutionStatus::Running => {
                return Ok(TickStep::Stop);
            },
            NodeExecutionStatus::Pending => {
                let ghost start = instance@;
                instance.nodes[node_index].status = NodeExecutionStatus::Running;
                assert(nodes_view(instance.nodes@) =~= start.nodes.update(
                    node_index as int,
                    NodeView {
                        status: NodeExecutionStatus::Running,
                        ..start.nodes[node_index as int]
                    },
                ));
                return Ok(TickStep::SaveAndRun);
            },
        };
        let ghost before = instance@;
        let moved = instance.transition_status_at(end, at);
        proof {
            assert(instance@.nodes == before.nodes);
            assert(instance@.nodes.len() == instance.nodes@.len());
            assert(before.nodes.len() == old(instance).nodes@.len());
        }
        match moved {
            Ok(t) => Ok(TickStep::Finish(t.into_dispatch_jobs())),
            Err(e) => Err(e),
        }
    }

    /// One look of the loop at an instance, at the clock's time. See
    /// [`PluginManager::workflow_loop_tick_at`].
    pub fn workflow_loop_tick(instance: &mut WorkflowInstanceEntity, node_index: usize) -> (r: Result<
        TickStep,
        String,
    >)
        requires
            node_index < old(instance).nodes@.len(),
        ensures
            exists|at: Timestamp|
                #![trigger ticked(old(instance)@, node_index as int, at)]
                match r {
                    Ok(step) => ticked(old(instance)@, node_index as int, at) == Ok::<
                        (InstanceView, TickView),
                        Seq<char>,
                    >((final(instance)@, step@)),
                    Err(e) => ticked(old(instance)@, node_index as int, at) == Err::<
                        (InstanceView, TickView),
                        Seq<char>,
                    >(e@) && final(instance)@ == old(instance)@,
                },
            final(instance).nodes@.len() == old(instance).nodes@.len(),
    {
        PluginManager::workflow_loop_tick_at(instance, node_index, now())
    }

    /// Sets the context that a node is run with. `variables` are those that were found for the
    /// node; `None` if there is no storage of variables, or if they could not be found.
    pub fn set_run_context(
        node: &mut WorkflowNodeInstanceEntity,
        variables: Option<Json>,
        created_by: &Option<String>,
    )
        ensures
            final(node)@ == (NodeView {
                context: run_context(
                    old(node)@.context,
                    opt_json(variables),
                    opt_text(*created_by),
                ),
                ..old(node)@
            }),
    {
        if let Some(v) = variables {
            node.context = v;
        }
        if let Some(uid) = created_by {
            node.context.set("__initiator__", Json::Str(uid.clone()));
        }
    }

    /// Takes what running the node at a place came to, at a given time: puts the node back into
    /// the instance and applies the result; an error fails the node.
    pub fn node_ran_at(
        instance: &mut WorkflowInstanceEntity,
        node_index: usize,
        node: WorkflowNodeInstanceEntity,
        result: Result<ExecutionResult, String>,
        at: Timestamp,
    ) -> (r: AfterSave)
        requires
            node_index < old(instance).nodes@.len(),
        ensures
            (final(instance)@, r.action()) == ran(
                old(instance)@,
                node_index as int,
                node@,
                outcome(result),
                at,
            ),
            left_to_do(old(instance)@, final(instance)@, run_result(outcome(result)), r),
            final(instance).context == old(instance).context,
    {
        let ghost start = instance@;
        let mut node = node;
        let exec_result = match result {
            Ok(x) => x,
            Err(e) => {
                node.error_message = Some(e);
                ExecutionResult::failed()
            },
        };
        let ghost put_back = node@;
        instance.nodes.set(node_index, node);
        proof {
            assert(nodes_view(instance.nodes@) =~= start.nodes.update(node_index as int, put_back));
            assert(instance@ == with_node(start, node_index as int, put_back));
            crate::manager::apply_exec::lemma_parent_jobs_frame(
                instance@,
                start,
                start.status,
                applied(instance@, node_index as int, exec_result@, at).0.status,
            );
        }
        PluginManager::apply_exec_result_at(instance, node_index, exec_result, at)
    }

    /// Whether the loop goes on after a step.
    pub fn goes_on(action: LoopAction) -> (r: bool)
        ensures
            r == (action is Advance || action is Retry),
    {
        match action {
            LoopAction::Advance => true,
            LoopAction::Retry => true,
            LoopAction::Done => false,
        }
    }
}

/// When variables were resolved to an object, the context that a node is run with has exactly those
/// variables, and besides them the creator under `__initiator__` at most: the node's own context
/// counts only where nothing was resolved.
pub proof fn law_resolved_variables_are_the_context(
    node_context: JsonView,
    variables: Map<Seq<char>, JsonView>,
    created_by: Option<Seq<char>>,
    key: Seq<char>,
)
    ensures
        ({
            let context = run_context(node_context, Some(JsonView::Object(variables)), created_by);
            &&& context is Object
            &&& key != "__initiator__"@ ==> {
                &&& variables.contains_key(key) ==> context.field(key) == Some(variables[key])
                &&& !variables.contains_key(key) ==> context.field(key) is None
            }
            &&& match created_by {
                Some(creator) => context.field("__initiator__"@) == Some(JsonView::Str(creator)),
                None => context == JsonView::Object(variables),
            }
        }),
{
}

/// What was resolved for a node does not depend on the node's own context; and where nothing was
/// resolved, its own context is what it is run with, with the creator added if it is an object.
pub proof fn law_own_context_counts_only_without_variables(
    one: JsonView,
    other: JsonView,
    variables: Option<JsonView>,
    created_by: Option<Seq<char>>,
    key: Seq<char>,
)
    ensures
        variables is Some ==> run_context(one, variables, created_by) == run_context(
            other,
            variables,
            created_by,
        ),
        variables is None && key != "__initiator__"@ ==> run_context(
            one,
            variables,
            created_by,
        ).field(key) == one.field(key),
        variables is None && created_by is None ==> run_context(one, variables, created_by) == one,
        variables is None && one is Object && created_by is Some ==> run_context(
            one,
            variables,
            created_by,
        ).field("__initiator__"@) == Some(JsonView::Str(created_by->0)),
        variables is None && !(one is Object) ==> run_context(one, variables, created_by) == one,
{
}

/// A callback keeps what it says itself, and storage fills in what it leaves out; storage has the
/// last word on how the child ended, except for one that was skipped.
pub proof fn law_storage_fills_in_what_a_callback_leaves_out(payload: PayloadView, task: TaskView)
    ensures
        ({
            let known = enriched(payload, Some(task));
            &&& payload.output is Some ==> known.output == payload.output
            &&& payload.output is None ==> known.output == task.output
            &&& payload.input is Some ==> known.input == payload.input
            &&& payload.input is None ==> known.input == task.input
            &&& payload.error_message is Some ==> known.error_message == payload.error_message
            &&& payload.error_message is None ==> known.error_message == task.error_message
            &&& payload.status is Skipped ==> known.status is Skipped
            &&& !(payload.status is Skipped) ==> {
                &&& task.task_status is Completed ==> known.status is Success
                &&& task.task_status is Failed || task.task_status is Canceled ==> known.status
                    is Failed
                &&& task.task_status is Running ==> known.status is Running
                &&& task.task_status is Pending || task.task_status is Skipped ==> known.status
                    == payload.status
            }
        }),
        enriched(payload, None) == payload,
        enriched(enriched(payload, Some(task)), Some(task)) == enriched(payload, Some(task)),
{
}

/// A parent that had failed is set going again by a child that was revived: the child's node is
/// pending without an error, the instance is pending, its parent is told of that, and it is started.
/// Nothing else of it changes.
pub proof fn law_a_revived_child_restarts_a_failed_parent(
    instance: InstanceView,
    node_id: Seq<char>,
    child: Seq<char>,
    at: Timestamp,
    i: int,
)
    requires
        instance.status is Failed,
        node_place(instance.nodes, node_id) == Some(i),
        0 <= i < instance.nodes.len(),
    ensures
        ({
            let revival = revived(instance, node_id, child, at);
            let retry = retried(instance, node_id, child, at);
            &&& revival matches Ok((after, ReviveView::Restart(told, own)))
            &&& is_sent_back(instance, after, i, at)
            &&& own.event is Start
            &&& own.workflow_instance_id == instance.workflow_instance_id
            &&& own.tenant_id == instance.tenant_id
            &&& told == parent_jobs(
                instance,
                WorkflowInstanceStatus::Failed,
                WorkflowInstanceStatus::Pending,
            )
            &&& retry matches Ok((again, ReviveView::Restart(told_again, own_again)))
            &&& is_sent_back(instance, again, i, at)
            &&& told_again == told
            &&& own_again == own
            &&& is_container(instance.nodes[i]) ==> again == after
            &&& !is_container(instance.nodes[i]) ==> after.nodes[i].task_instance
                == instance.nodes[i].task_instance
        }),
{
}

/// Whether an instance is another one with the node at a place pending and without an error, and
/// itself pending.
pub open spec fn is_sent_back(
    before: InstanceView,
    after: InstanceView,
    i: int,
    at: Timestamp,
) -> bool {
    &&& after.status is Pending
    &&& after.updated_at == at
    &&& after.nodes.len() == before.nodes.len()
    &&& after.nodes[i].status is Pending
    &&& after.nodes[i].error_message is None
    &&& after.nodes[i].node_id == before.nodes[i].node_id
    &&& after.nodes[i].next_node == before.nodes[i].next_node
    &&& forall|j: int| 0 <= j < before.nodes.len() && j != i ==> after.nodes[j] == before.nodes[j]
    &&& after == (InstanceView {
        status: after.status,
        updated_at: at,
        nodes: after.nodes,
        ..before
    })
}

/// The callback that a node owes because its child ended before it waited is the child's own: it
/// names the child, tells its end, and brings what it left behind. A child that has not ended, or is
/// unknown, brings none.
pub proof fn law_a_late_callback_is_the_childs(
    instance_id: Seq<char>,
    tenant_id: Seq<char>,
    node_id: Seq<char>,
    child_task_id: Seq<char>,
    task: TaskView,
)
    ensures
        ({
            let sent = late_callback(instance_id, tenant_id, node_id, child_task_id, Some(task));
            &&& sent is Some <==> task.task_status is Completed || task.task_status is Failed
            &&& sent matches Some(job) ==> {
                &&& job.workflow_instance_id == instance_id
                &&& job.tenant_id == tenant_id
                &&& job.event matches EventView::NodeCallback {
                    node_id: node,
                    child_task_id: child,
                    status,
                    output,
                    error_message,
                    input,
                }
                &&& node == node_id
                &&& child == child_task_id
                &&& status is Success <==> task.task_status is Completed
                &&& status is Failed <==> task.task_status is Failed
                &&& output == task.output
                &&& error_message == task.error_message
                &&& input == task.input
            }
        }),
        late_callback(instance_id, tenant_id, node_id, child_task_id, None) is None,
{
}

/// One look of the loop follows the current node: where it ended well the run goes to the node that
/// it names next and nowhere else, and where it names none the instance completes; where it failed
/// the instance fails; nothing but the status, the time and the current node changes meanwhile.
pub proof fn law_the_run_follows_its_nodes(instance: InstanceView, index: int, at: Timestamp)
    requires
        0 <= index < instance.nodes.len(),
        instance.status is Running,
    ensures
        ({
            let node = instance.nodes[index];
            let ended_well = node.status is Success || node.status is Skipped;
            &&& ticked(instance, index, at) matches Ok((after, step))
            &&& (ended_well && node.next_node is Some) ==> {
                &&& step is SaveAndContinue
                &&& after == (InstanceView { current_node: node.next_node->0, ..instance })
            }
            &&& (ended_well && node.next_node is None) ==> {
                &&& step matches TickView::Finish(told)
                &&& told == parent_jobs(
                    instance,
                    WorkflowInstanceStatus::Running,
                    WorkflowInstanceStatus::Completed,
                )
                &&& after.status is Completed
                &&& after == (InstanceView {
                    status: after.status,
                    updated_at: at,
                    ..instance
                })
            }
            &&& node.status is Failed ==> {
                &&& step matches TickView::Finish(told)
                &&& told == parent_jobs(
                    instance,
                    WorkflowInstanceStatus::Running,
                    WorkflowInstanceStatus::Failed,
                )
                &&& after.status is Failed
                &&& after == (InstanceView {
                    status: after.status,
                    updated_at: at,
                    ..instance
                })
            }
            &&& (node.status is Await || node.status is Suspended || node.status is Running)
                ==> step is Stop && after == instance
            &&& node.status is Pending ==> {
                &&& step is SaveAndRun
                &&& after.nodes[index].status is Running
                &&& after.current_node == instance.current_node
                &&& after.status == instance.status
                &&& after.nodes.len() == instance.nodes.len()
                &&& forall|j: int|
                    0 <= j < instance.nodes.len() && j != index ==> after.nodes[j]
                        == instance.nodes[j]
            }
        }),
{
}

/// A node whose run could not be carried out fails, with the reason on it, and everything that it had
/// become before stays.
pub proof fn law_an_error_fails_the_node(
    instance: InstanceView,
    index: int,
    node: NodeView,
    why: Seq<char>,
    at: Timestamp,
)
    requires
        0 <= index < instance.nodes.len(),
    ensures
        ({
            let after = ran(instance, index, node, Err(why), at).0;
            &&& after.nodes[index].status is Failed
            &&& after.nodes[index].error_message == Some(why)
            &&& after.nodes[index].task_instance.output == node.task_instance.output
            &&& run_result(Err(why)).status is Failed
            &&& run_result(Err(why)).dispatch_jobs.len() == 0
            &&& run_result(Err(why)).dispatch_workflow_jobs.len() == 0
        }),
{
}

/// An instance takes a callback exactly if it goes to its current node and the instance has not
/// ended.
pub proof fn law_callbacks_to_the_current_node_are_taken(
    current_node: Seq<char>,
    status: WorkflowInstanceStatus,
)
    ensures
        callback_path(current_node, status, current_node) is Some <==> !(status is Completed
            || status is Failed || status is Canceled),
{
}

/// The context that a node is left with before it is run: where variables were resolved to an object
/// it has each of them as it was resolved, and nothing else but the creator; where none were resolved
/// it has what it had. Nothing else of the node changes.
pub proof fn law_a_node_is_run_with_its_resolved_variables(
    node: &mut WorkflowNodeInstanceEntity,
    variables: Option<Json>,
    created_by: &Option<String>,
    key: Seq<char>,
)
    requires
        call_ensures(PluginManager::set_run_context, (node, variables, created_by), ()),
        key != "__initiator__"@,
    ensures
        (variables matches Some(v) && v@ is Object) ==> final(node)@.context.field(key)
            == variables->0@.field(key),
        variables is None ==> final(node)@.context.field(key) == old(node)@.context.field(key),
        (variables matches Some(v) && v@ is Object) && *created_by is Some
            ==> final(node)@.context.field("__initiator__"@) == Some(
            JsonView::Str((*created_by)->0@),
        ),
        *created_by is None && variables is Some ==> final(node)@.context == variables->0@,
        final(node)@ == (NodeView { context: final(node)@.context, ..old(node)@ }),
{
}

/// The loop goes on exactly where a step has left the instance running: after a result was applied to
/// a running instance, that is where it is running still.
pub proof fn law_the_loop_goes_on_while_the_instance_runs(
    instance: InstanceView,
    index: int,
    result: ExecutionView,
    at: Timestamp,
    on: bool,
)
    requires
        0 <= index < instance.nodes.len(),
        instance.status is Running,
        call_ensures(PluginManager::goes_on, (applied(instance, index, result, at).1,), on),
    ensures
        on <==> applied(instance, index, result, at).0.status is Running,
{
}

/// A revived or retried child leaves a parent that has ended as it was, but for a retry, which is not
/// written; and it touches no other node.
pub proof fn law_an_ended_parent_is_not_revived(
    instance: &mut WorkflowInstanceEntity,
    node_id: &str,
    child_id: &str,
    at: Timestamp,
    r: Result<ReviveStep, String>,
)
    requires
        call_ensures(PluginManager::on_child_revived_at, (instance, node_id, child_id, at), r),
        !(old(instance)@.status is Failed || old(instance)@.status is Await),
    ensures
        final(instance)@ == old(instance)@,
        r matches Ok(step) && step@ is Leave,
{
}

/// A child that comes back to a node that its parent does not have is an error that names the node,
/// and nothing changes.
pub proof fn law_a_missing_node_is_named(
    instance: InstanceView,
    node_id: Seq<char>,
    child: Seq<char>,
    at: Timestamp,
)
    requires
        node_place(instance.nodes, node_id) is None,
    ensures
        retried(instance, node_id, child, at) == Err::<(InstanceView, ReviveView), Seq<char>>(
            "RetryContainerChild: node "@ + node_id + " not found"@,
        ),
        instance.status is Failed ==> revived(instance, node_id, child, at) == Err::<
            (InstanceView, ReviveView),
            Seq<char>,
        >("revive_from_failed: node not found: "@ + node_id),
        instance.status is Await ==> revived(instance, node_id, child, at) == Err::<
            (InstanceView, ReviveView),
            Seq<char>,
        >("revive_from_await: node not found: "@ + node_id),
        !(instance.status is Failed || instance.status is Await) ==> revived(
            instance,
            node_id,
            child,
            at,
        ) == Ok::<(InstanceView, ReviveView), Seq<char>>((instance, ReviveView::Leave)),
{
}

/// A child that comes back is taken out of a container's state, and of no other node's: a plain node
/// of a failed parent keeps what its task left, and one of a waiting parent is left as it is.
pub proof fn law_only_containers_forget_children(
    instance: InstanceView,
    node_id: Seq<char>,
    child: Seq<char>,
    at: Timestamp,
    i: int,
)
    requires
        node_place(instance.nodes, node_id) == Some(i),
        0 <= i < instance.nodes.len(),
        instance.status is Failed || instance.status is Await,
    ensures
        ({
            let node = instance.nodes[i];
            let container = node.node_type is Parallel || node.node_type is ForkJoin;
            &&& revived(instance, node_id, child, at) matches Ok((after, step))
            &&& container ==> after.nodes[i].task_instance == node_rolled_back(
                node,
                child,
            ).task_instance
            &&& !container ==> after.nodes[i].task_instance == node.task_instance
            &&& instance.status is Await ==> {
                &&& container <==> step is Save
                &&& !container <==> step is Leave
                &&& !container ==> after == instance
                &&& after.status is Await
            }
        }),
{
}

} // verus!
