//! What the result of a node does to its instance: the node's status, the instance's status and
//! current node, and what is sent out once the instance has been written.
//!
//! The instance is changed in memory only and written once. A write succeeds only on the epoch
//! that was read, so a second write in between would make it fail.

use crate::entity::{nodes_view, with_node, InstanceView, NodeView, WorkflowInstanceEntity};
use crate::json::clone_opt_text;
use crate::manager::after_save::{left_to_do, AfterSave};
use crate::manager::executor::PluginManager;
use crate::plugin::interface::{ExecutionResult, ExecutionView};
use crate::shared::{
    ExecuteWorkflowJob, NodeExecutionStatus, WorkflowInstanceStatus, WorkflowJobView,
};
use crate::time::{now, Timestamp};
use crate::workflow_transition::{build_event_from_transition, parent_jobs, should_notify_parent};
use vstd::prelude::*;

verus! {

/// What the loop over an instance's nodes does next.
#[derive(Clone, Copy, Debug, PartialEq, Eq, Structural)]
pub enum LoopAction {
    /// Go on at the current node.
    Advance,
    /// Stop: the instance has ended, or waits.
    Done,
    /// Look at the same node again.
    Retry,
}

/// What the result of the node at a place does to the instance and to the loop. A node that
/// succeeded or was skipped sends the run to the node it names, else to its next node, else the
/// instance is completed; a failed node fails the instance; an awaiting node makes it wait; a
/// pending or suspended one suspends it.
pub open spec fn loop_step(instance: InstanceView, index: int, result: ExecutionView) -> (
    InstanceView,
    LoopAction,
) {
    match result.status {
        NodeExecutionStatus::Success | NodeExecutionStatus::Skipped => match result.jump_to_node {
            Some(target) => (
                InstanceView {
                    current_node: target,
                    ..with_node(
                        instance,
                        index,
                        NodeView { next_node: Some(target), ..instance.nodes[index] },
                    )
                },
                LoopAction::Advance,
            ),
            None => match instance.nodes[index].next_node {
                Some(next) => (
                    InstanceView { current_node: next, ..instance },
                    LoopAction::Advance,
                ),
                None => (
                    InstanceView { status: WorkflowInstanceStatus::Completed, ..instance },
                    LoopAction::Done,
                ),
            },
        },
        NodeExecutionStatus::Failed => (
            InstanceView { status: WorkflowInstanceStatus::Failed, ..instance },
            LoopAction::Done,
        ),
        NodeExecutionStatus::Await => (
            InstanceView { status: WorkflowInstanceStatus::Await, ..instance },
            LoopAction::Done,
        ),
        NodeExecutionStatus::Pending | NodeExecutionStatus::Suspended => (
            InstanceView { status: WorkflowInstanceStatus::Suspended, ..instance },
            LoopAction::Done,
        ),
        NodeExecutionStatus::Running => (instance, LoopAction::Retry),
    }
}

/// An instance whose node at a place has a new status.
pub open spec fn with_node_status(
    instance: InstanceView,
    index: int,
    status: NodeExecutionStatus,
) -> InstanceView {
    with_node(instance, index, NodeView { status, ..instance.nodes[index] })
}

/// What the result of the node at a place does: the node takes the result's status, the loop's
/// step is made, and the instance is stamped with the time.
pub open spec fn applied(
    instance: InstanceView,
    index: int,
    result: ExecutionView,
    at: Timestamp,
) -> (InstanceView, LoopAction) {
    let (stepped, action) = loop_step(
        with_node_status(instance, index, result.status),
        index,
        result,
    );
    (InstanceView { updated_at: at, ..stepped }, action)
}

/// The notification that a node's new status is announced with.
pub open spec fn node_notice(status: NodeExecutionStatus) -> Option<Seq<char>> {
    match status {
        NodeExecutionStatus::Success => Some("node.success"@),
        NodeExecutionStatus::Failed => Some("node.failed"@),
        NodeExecutionStatus::Skipped => Some("node.skipped"@),
        _ => None,
    }
}

/// The jobs of an optional parent job.
pub open spec fn one_job(j: Option<ExecuteWorkflowJob>) -> Seq<WorkflowJobView> {
    match j {
        Some(job) => seq![job@],
        None => seq![],
    }
}

/// What the parent is owed depends on the instance only by its parent, its tenant, its id and its
/// context.
pub proof fn lemma_parent_jobs_frame(
    a: InstanceView,
    b: InstanceView,
    old: WorkflowInstanceStatus,
    new: WorkflowInstanceStatus,
)
    requires
        a.parent_context == b.parent_context,
        a.tenant_id == b.tenant_id,
        a.workflow_instance_id == b.workflow_instance_id,
        a.context == b.context,
    ensures
        parent_jobs(a, old, new) == parent_jobs(b, old, new),
{
}

impl PluginManager {
    /// Makes the loop's step for the result of the node at a place.
    pub fn determine_loop_action(
        instance: &mut WorkflowInstanceEntity,
        node_index: usize,
        exec_result: &ExecutionResult,
    ) -> (r: LoopAction)
        requires
            node_index < old(instance).nodes@.len(),
        ensures
            (final(instance)@, r) == loop_step(old(instance)@, node_index as int, exec_result@),
            final(instance).nodes@.len() == old(instance).nodes@.len(),
            final(instance).context == old(instance).context,
    {
        match exec_result.status {
            NodeExecutionStatus::Success | NodeExecutionStatus::Skipped => {
                if let Some(jump_to_node) = &exec_result.jump_to_node {
                    instance.current_node = jump_to_node.clone();
                    instance.nodes[node_index].next_node = Some(jump_to_node.clone());
                    assert(nodes_view(instance.nodes@) =~= old(instance)@.nodes.update(
                        node_index as int,
                        NodeView {
                            next_node: Some(jump_to_node@),
                            ..old(instance)@.nodes[node_index as int]
                        },
                    ));
                    LoopAction::Advance
                } else {
                    let next = clone_opt_text(&instance.nodes[node_index].next_node);
                    match next {
                        Some(n) => {
                            instance.current_node = n;
                            LoopAction::Advance
                        },
                        None => {
                            instance.status = WorkflowInstanceStatus::Completed;
                            LoopAction::Done
                        },
                    }
                }
            },
            NodeExecutionStatus::Failed => {
                instance.status = WorkflowInstanceStatus::Failed;
                LoopAction::Done
            },
            NodeExecutionStatus::Await => {
                instance.status = WorkflowInstanceStatus::Await;
                LoopAction::Done
            },
            NodeExecutionStatus::Pending | NodeExecutionStatus::Suspended => {
                instance.status = WorkflowInstanceStatus::Suspended;
                LoopAction::Done
            },
            NodeExecutionStatus::Running => LoopAction::Retry,
        }
    }

    /// The job that tells the parent of a status transition that has been written, if the parent
    /// is to be told.
    pub fn outbound_for_transition(
        instance: &WorkflowInstanceEntity,
        old_status: &WorkflowInstanceStatus,
    ) -> (r: Option<ExecuteWorkflowJob>)
        ensures
            one_job(r) == parent_jobs(instance@, *old_status, instance@.status),
    {
        let event_kind = match should_notify_parent(old_status, &instance.status) {
            Some(k) => k,
            None => {
                return None;
            },
        };
        let parent_ctx = match &instance.parent_context {
            Some(p) => p,
            None => {
                return None;
            },
        };
        let event = build_event_from_transition(
            &event_kind,
            parent_ctx,
            instance.workflow_instance_id.as_str(),
            &instance.context,
        );
        let job = ExecuteWorkflowJob {
            workflow_instance_id: parent_ctx.workflow_instance_id.clone(),
            tenant_id: instance.tenant_id.clone(),
            event,
        };
        assert(seq![job@] =~= parent_jobs(instance@, *old_status, instance@.status));
        Some(job)
    }

    /// Applies the result of the node at a place to the instance, at a given time, and says what
    /// is to be done once the instance has been written.
    pub fn apply_exec_result_at(
        instance: &mut WorkflowInstanceEntity,
        node_index: usize,
        exec_result: ExecutionResult,
        at: Timestamp,
    ) -> (r: AfterSave)
        requires
            node_index < old(instance).nodes@.len(),
        ensures
            (final(instance)@, r.action()) == applied(
                old(instance)@,
                node_index as int,
                exec_result@,
                at,
            ),
            left_to_do(old(instance)@, final(instance)@, exec_result@, r),
            final(instance).context == old(instance).context,
    {
        let ghost start = instance@;
        let old_status = instance.status;
        instance.nodes[node_index].status = exec_result.status;
        assert(nodes_view(instance.nodes@) =~= start.nodes.update(
            node_index as int,
            NodeView { status: exec_result.status, ..start.nodes[node_index as int] },
        ));
        assert(instance@ == with_node_status(start, node_index as int, exec_result.status));
        let action = PluginManager::determine_loop_action(instance, node_index, &exec_result);
        instance.updated_at = at;
        let notice = match exec_result.status {
            NodeExecutionStatus::Success => Some("node.success"),
            NodeExecutionStatus::Failed => Some("node.failed"),
            NodeExecutionStatus::Skipped => Some("node.skipped"),
            _ => None,
        };
        let parent_job = PluginManager::outbound_for_transition(instance, &old_status);
        proof {
            lemma_parent_jobs_frame(instance@, start, old_status, instance@.status);
        }
        AfterSave::new(
            action,
            notice,
            parent_job,
            exec_result.dispatch_jobs,
            exec_result.dispatch_workflow_jobs,
        )
    }

    /// Applies the result of the node at a place to the instance, at the clock's time. See
    /// [`PluginManager::apply_exec_result_at`].
    pub fn apply_exec_result(
        instance: &mut WorkflowInstanceEntity,
        node_index: usize,
        exec_result: ExecutionResult,
    ) -> (r: AfterSave)
        requires
            node_index < old(instance).nodes@.len(),
        ensures
            (final(instance)@, r.action()) == applied(
                old(instance)@,
                node_index as int,
                exec_result@,
                final(instance)@.updated_at,
            ),
            left_to_do(old(instance)@, final(instance)@, exec_result@, r),
            final(instance).context == old(instance).context,
    {
        PluginManager::apply_exec_result_at(instance, node_index, exec_result, now())
    }
}

/// A step of the loop changes the status only to an end or a wait, and only when the loop stops;
/// while the loop goes on the instance keeps its status.
pub proof fn law_the_loop_stops_exactly_when_the_status_is_set(
    instance: InstanceView,
    index: int,
    result: ExecutionView,
)
    requires
        0 <= index < instance.nodes.len(),
    ensures
        ({
            let (after, action) = loop_step(instance, index, result);
            &&& action is Done ==> after.status is Completed || after.status is Failed
                || after.status is Await || after.status is Suspended
            &&& !(action is Done) ==> after.status == instance.status
            &&& action is Retry ==> after == instance
            &&& after.nodes.len() == instance.nodes.len()
            &&& after.epoch == instance.epoch
        }),
{
}

/// A running instance makes only allowed moves in a step of the loop.
pub proof fn law_the_loop_makes_allowed_moves(
    instance: InstanceView,
    index: int,
    result: ExecutionView,
)
    requires
        instance.status is Running,
    ensures
        loop_step(instance, index, result).1 is Done ==> instance.status.may_become(
            loop_step(instance, index, result).0.status,
        ),
{
}

/// A parent is told of a child's result exactly when the child's loop ends it.
pub proof fn law_a_parent_is_told_when_the_loop_ends_the_child(
    instance: InstanceView,
    index: int,
    result: ExecutionView,
    at: Timestamp,
)
    requires
        instance.status is Running,
        instance.parent_context is Some,
    ensures
        ({
            let after = applied(instance, index, result, at).0;
            parent_jobs(instance, instance.status, after.status).len() == 1 <==> (after.status
                is Completed || after.status is Failed)
        }),
{
}

/// What a node's result does: the node gets the result's status and no other node changes; where it
/// ended well the run goes to the node that the result jumps to, else to the node's next one, else
/// the instance completes; a failure fails the instance, a wait makes it wait, and anything that is
/// neither done nor running suspends it. A jump is remembered as the node's next one.
pub proof fn law_each_result_moves_the_instance(
    instance: InstanceView,
    index: int,
    result: ExecutionView,
    at: Timestamp,
)
    requires
        0 <= index < instance.nodes.len(),
    ensures
        ({
            let (after, action) = applied(instance, index, result, at);
            let next = instance.nodes[index].next_node;
            let ended_well = result.status is Success || result.status is Skipped;
            &&& after.nodes[index].status == result.status
            &&& after.updated_at == at
            &&& forall|j: int|
                0 <= j < instance.nodes.len() && j != index ==> after.nodes[j] == instance.nodes[j]
            &&& (ended_well && result.jump_to_node is Some) ==> {
                &&& action is Advance
                &&& after.current_node == result.jump_to_node->0
                &&& after.nodes[index].next_node == result.jump_to_node
                &&& after.status == instance.status
            }
            &&& !(ended_well && result.jump_to_node is Some) ==> after.nodes[index]
                == (NodeView { status: result.status, ..instance.nodes[index] })
            &&& (ended_well && result.jump_to_node is None && next is Some) ==> {
                &&& action is Advance
                &&& after.current_node == next->0
                &&& after.status == instance.status
            }
            &&& (ended_well && result.jump_to_node is None && next is None) ==> {
                &&& action is Done
                &&& after.status is Completed
            }
            &&& !ended_well || (result.jump_to_node is None && next is None) ==> after.current_node
                == instance.current_node
            &&& result.status is Failed ==> action is Done && after.status is Failed
            &&& result.status is Await ==> action is Done && after.status is Await
            &&& result.status is Pending || result.status is Suspended ==> action is Done
                && after.status is Suspended
            &&& result.status is Running ==> action is Retry && after.status == instance.status
            &&& after == (InstanceView {
                nodes: after.nodes,
                status: after.status,
                current_node: after.current_node,
                updated_at: after.updated_at,
                ..instance
            })
            &&& after.nodes.len() == instance.nodes.len()
        }),
{
}

/// A node's end is announced under the name of that end, and nothing else is announced.
pub proof fn law_ends_are_announced_by_name(status: NodeExecutionStatus)
    ensures
        status is Success ==> node_notice(status) == Some("node.success"@),
        status is Failed ==> node_notice(status) == Some("node.failed"@),
        status is Skipped ==> node_notice(status) == Some("node.skipped"@),
        node_notice(status) is None <==> !(status is Success || status is Failed || status
            is Skipped),
{
}

} // verus!
