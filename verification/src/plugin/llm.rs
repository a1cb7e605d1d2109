//! Language-model nodes: the request is handed to the task queue, and the node awaits it.

use crate::entity::{WorkflowInstanceEntity, WorkflowNodeInstanceEntity};
use crate::plugin::http::{make_node_task_job, node_task_job};
use crate::plugin::interface::{awaiting, ExecutionResult};
use crate::shared::TaskType;
use vstd::prelude::*;

verus! {

/// The plugin of language-model nodes.
pub struct LlmPlugin {}

impl LlmPlugin {
    pub fn new() -> (r: Self) {
        LlmPlugin {  }
    }

    /// The kind of node that this plugin runs.
    pub fn plugin_type(&self) -> (r: TaskType)
        ensures
            r is Llm,
    {
        TaskType::Llm
    }

    /// Runs a language-model node: one task is handed out, and awaited.
    pub fn execute(
        &self,
        node_instance: &WorkflowNodeInstanceEntity,
        workflow_instance: &WorkflowInstanceEntity,
    ) -> (r: ExecutionResult)
        ensures
            r@ == awaiting(seq![node_task_job(node_instance@, workflow_instance@)], seq![]),
    {
        ExecutionResult::async_dispatch(make_node_task_job(node_instance, workflow_instance))
    }
}

} // verus!
