//! HTTP nodes: the request is handed to the task queue, and the node awaits it.

use crate::entity::{InstanceView, NodeView, WorkflowInstanceEntity, WorkflowNodeInstanceEntity};
use crate::plugin::interface::{awaiting, make_single_child_id, single_child_id, ExecutionResult};
use crate::shared::{CallerView, ExecuteTaskJob, TaskJobView, TaskType, WorkflowCallerContext};
use vstd::prelude::*;

verus! {

/// The plugin of HTTP nodes.
pub struct HttpPlugin {}

/// The job of the one task of a node.
pub open spec fn node_task_job(node: NodeView, instance: InstanceView) -> TaskJobView {
    TaskJobView {
        task_instance_id: single_child_id(instance.workflow_instance_id, node.node_id),
        tenant_id: instance.tenant_id,
        caller_context: Some(
            CallerView {
                workflow_instance_id: instance.workflow_instance_id,
                node_id: node.node_id,
                parent_task_instance_id: None,
                item_index: None,
            },
        ),
    }
}

/// The job of the one task of a node.
pub fn make_node_task_job(
    node_instance: &WorkflowNodeInstanceEntity,
    workflow_instance: &WorkflowInstanceEntity,
) -> (r: ExecuteTaskJob)
    ensures
        r@ == node_task_job(node_instance@, workflow_instance@),
{
    ExecuteTaskJob {
        task_instance_id: make_single_child_id(
            workflow_instance.workflow_instance_id.as_str(),
            node_instance.node_id.as_str(),
        ),
        tenant_id: workflow_instance.tenant_id.clone(),
        caller_context: Some(
            WorkflowCallerContext {
                workflow_instance_id: workflow_instance.workflow_instance_id.clone(),
                node_id: node_instance.node_id.clone(),
                parent_task_instance_id: None,
                item_index: None,
            },
        ),
    }
}

impl HttpPlugin {
    pub fn new() -> (r: Self) {
        HttpPlugin {  }
    }

    /// The kind of node that this plugin runs.
    pub fn plugin_type(&self) -> (r: TaskType)
        ensures
            r is Http,
    {
        TaskType::Http
    }

    /// Runs an HTTP node: one task is handed out, and awaited.
    pub fn execute(
        &self,
        node_instance: &WorkflowNodeInstanceEntity,
        workflow_instance: &WorkflowInstanceEntity,
    ) -> (r: ExecutionResult)
        ensures
            r@ == awaiting(seq![node_task_job(node_instance@, workflow_instance@)], seq![]),
    {
        ExecutionResult::async_dispatch(make_node_task_job(node_instance, workflow_instance))
    }
}

impl Default for HttpPlugin {
    fn default() -> (r: Self) {
        HttpPlugin::new()
    }
}

/// The job of a node's task is the node's own: it runs under the identifier of the node's only child,
/// for the instance's tenant, and tells which node of which instance called it.
pub proof fn law_a_nodes_task_is_its_own(node: NodeView, instance: InstanceView)
    ensures
        ({
            let job = node_task_job(node, instance);
            &&& job.task_instance_id == single_child_id(instance.workflow_instance_id, node.node_id)
            &&& job.tenant_id == instance.tenant_id
            &&& job.caller_context matches Some(caller)
            &&& caller.workflow_instance_id == instance.workflow_instance_id
            &&& caller.node_id == node.node_id
            &&& caller.parent_task_instance_id is None
            &&& caller.item_index is None
        }),
{
}

} // verus!
