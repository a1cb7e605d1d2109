//! Task instances, nodes and workflow instances.

use crate::json::{clone_opt, clone_opt_text, opt_json, Json, JsonView};
use crate::shared::{
    clone_opt_caller, opt_caller, CallerView, NodeExecutionStatus, TaskInstanceStatus, TaskType,
    WorkflowCallerContext, WorkflowInstanceStatus,
};
use crate::template::{TaskTemplate, TaskTemplateView};
use crate::text::{opt_text, same};
use crate::time::Timestamp;
use vstd::prelude::*;

verus! {

/// One run of a task.
#[derive(Debug, PartialEq, Eq)]
pub struct TaskInstanceEntity {
    pub id: String,
    pub tenant_id: String,
    pub task_id: String,
    pub task_name: String,
    pub task_type: TaskType,
    pub task_template: TaskTemplate,
    pub task_status: TaskInstanceStatus,
    pub task_instance_id: String,
    pub created_at: Timestamp,
    pub updated_at: Timestamp,
    pub deleted_at: Option<Timestamp>,
    pub input: Option<Json>,
    pub output: Option<Json>,
    pub error_message: Option<String>,
    pub execution_duration: Option<u64>,
    pub caller_context: Option<WorkflowCallerContext>,
}

/// The mathematical value of a [`TaskInstanceEntity`].
#[verifier::ext_equal]
pub struct TaskView {
    pub id: Seq<char>,
    pub tenant_id: Seq<char>,
    pub task_id: Seq<char>,
    pub task_name: Seq<char>,
    pub task_type: TaskType,
    pub task_template: TaskTemplateView,
    pub task_status: TaskInstanceStatus,
    pub task_instance_id: Seq<char>,
    pub created_at: Timestamp,
    pub updated_at: Timestamp,
    pub deleted_at: Option<Timestamp>,
    pub input: Option<JsonView>,
    pub output: Option<JsonView>,
    pub error_message: Option<Seq<char>>,
    pub execution_duration: Option<u64>,
    pub caller_context: Option<CallerView>,
}

impl View for TaskInstanceEntity {
    type V = TaskView;

    open spec fn view(&self) -> TaskView {
        TaskView {
            id: self.id@,
            tenant_id: self.tenant_id@,
            task_id: self.task_id@,
            task_name: self.task_name@,
            task_type: self.task_type,
            task_template: self.task_template@,
            task_status: self.task_status,
            task_instance_id: self.task_instance_id@,
            created_at: self.created_at,
            updated_at: self.updated_at,
            deleted_at: self.deleted_at,
            input: opt_json(self.input),
            output: opt_json(self.output),
            error_message: opt_text(self.error_message),
            execution_duration: self.execution_duration,
            caller_context: opt_caller(self.caller_context),
        }
    }
}

impl Clone for TaskInstanceEntity {
    fn clone(&self) -> (r: Self)
        ensures
            r@ == self@,
    {
        TaskInstanceEntity {
            id: self.id.clone(),
            tenant_id: self.tenant_id.clone(),
            task_id: self.task_id.clone(),
            task_name: self.task_name.clone(),
            task_type: self.task_type,
            task_template: self.task_template.clone(),
            task_status: self.task_status,
            task_instance_id: self.task_instance_id.clone(),
            created_at: self.created_at,
            updated_at: self.updated_at,
            deleted_at: self.deleted_at,
            input: clone_opt(&self.input),
            output: clone_opt(&self.output),
            error_message: clone_opt_text(&self.error_message),
            execution_duration: self.execution_duration,
            caller_context: clone_opt_caller(&self.caller_context),
        }
    }
}

/// One node of a workflow instance, with the task that it runs.
#[derive(Debug, PartialEq, Eq)]
pub struct WorkflowNodeInstanceEntity {
    pub node_id: String,
    pub node_type: TaskType,
    pub task_instance: TaskInstanceEntity,
    pub context: Json,
    pub next_node: Option<String>,
    pub status: NodeExecutionStatus,
    pub error_message: Option<String>,
    pub created_at: Timestamp,
    pub updated_at: Timestamp,
}

/// The mathematical value of a [`WorkflowNodeInstanceEntity`].
#[verifier::ext_equal]
pub struct NodeView {
    pub node_id: Seq<char>,
    pub node_type: TaskType,
    pub task_instance: TaskView,
    pub context: JsonView,
    pub next_node: Option<Seq<char>>,
    pub status: NodeExecutionStatus,
    pub error_message: Option<Seq<char>>,
    pub created_at: Timestamp,
    pub updated_at: Timestamp,
}

impl View for WorkflowNodeInstanceEntity {
    type V = NodeView;

    open spec fn view(&self) -> NodeView {
        NodeView {
            node_id: self.node_id@,
            node_type: self.node_type,
            task_instance: self.task_instance@,
            context: self.context@,
            next_node: opt_text(self.next_node),
            status: self.status,
            error_message: opt_text(self.error_message),
            created_at: self.created_at,
            updated_at: self.updated_at,
        }
    }
}

impl Clone for WorkflowNodeInstanceEntity {
    fn clone(&self) -> (r: Self)
        ensures
            r@ == self@,
    {
        WorkflowNodeInstanceEntity {
            node_id: self.node_id.clone(),
            node_type: self.node_type,
            task_instance: self.task_instance.clone(),
            context: self.context.clone(),
            next_node: clone_opt_text(&self.next_node),
            status: self.status,
            error_message: clone_opt_text(&self.error_message),
            created_at: self.created_at,
            updated_at: self.updated_at,
        }
    }
}

/// The values of a list of nodes.
pub open spec fn nodes_view(s: Seq<WorkflowNodeInstanceEntity>) -> Seq<NodeView> {
    Seq::new(s.len(), |i: int| s[i]@)
}

fn clone_nodes(v: &Vec<WorkflowNodeInstanceEntity>) -> (r: Vec<WorkflowNodeInstanceEntity>)
    ensures
        nodes_view(r@) == nodes_view(v@),
{
    let mut out: Vec<WorkflowNodeInstanceEntity> = Vec::new();
    let mut i: usize = 0;
    while i < v.len()
        invariant
            i <= v@.len(),
            out@.len() == i,
            forall|k: int| 0 <= k < i ==> #[trigger] out@[k]@ == v@[k]@,
        decreases v@.len() - i,
    {
        out.push(v[i].clone());
        i = i + 1;
    }
    assert(nodes_view(out@) =~= nodes_view(v@));
    out
}

/// One run of a workflow. `epoch` counts its writes: a write succeeds only on the epoch that was read.
#[derive(Debug, PartialEq, Eq)]
pub struct WorkflowInstanceEntity {
    pub workflow_instance_id: String,
    pub tenant_id: String,
    pub workflow_meta_id: String,
    pub workflow_version: u32,
    pub status: WorkflowInstanceStatus,
    pub created_at: Timestamp,
    pub updated_at: Timestamp,
    pub deleted_at: Option<Timestamp>,
    pub context: Json,
    pub entry_node: String,
    pub current_node: String,
    pub nodes: Vec<WorkflowNodeInstanceEntity>,
    pub epoch: u64,
    pub locked_by: Option<String>,
    pub locked_duration: Option<u64>,
    pub locked_at: Option<Timestamp>,
    pub parent_context: Option<WorkflowCallerContext>,
    pub depth: u32,
    pub created_by: Option<String>,
}

/// The mathematical value of a [`WorkflowInstanceEntity`].
#[verifier::ext_equal]
pub struct InstanceView {
    pub workflow_instance_id: Seq<char>,
    pub tenant_id: Seq<char>,
    pub workflow_meta_id: Seq<char>,
    pub workflow_version: u32,
    pub status: WorkflowInstanceStatus,
    pub created_at: Timestamp,
    pub updated_at: Timestamp,
    pub deleted_at: Option<Timestamp>,
    pub context: JsonView,
    pub entry_node: Seq<char>,
    pub current_node: Seq<char>,
    pub nodes: Seq<NodeView>,
    pub epoch: u64,
    pub locked_by: Option<Seq<char>>,
    pub locked_duration: Option<u64>,
    pub locked_at: Option<Timestamp>,
    pub parent_context: Option<CallerView>,
    pub depth: u32,
    pub created_by: Option<Seq<char>>,
}

impl View for WorkflowInstanceEntity {
    type V = InstanceView;

    open spec fn view(&self) -> InstanceView {
        InstanceView {
            workflow_instance_id: self.workflow_instance_id@,
            tenant_id: self.tenant_id@,
            workflow_meta_id: self.workflow_meta_id@,
            workflow_version: self.workflow_version,
            status: self.status,
            created_at: self.created_at,
            updated_at: self.updated_at,
            deleted_at: self.deleted_at,
            context: self.context@,
            entry_node: self.entry_node@,
            current_node: self.current_node@,
            nodes: nodes_view(self.nodes@),
            epoch: self.epoch,
            locked_by: opt_text(self.locked_by),
            locked_duration: self.locked_duration,
            locked_at: self.locked_at,
            parent_context: opt_caller(self.parent_context),
            depth: self.depth,
            created_by: opt_text(self.created_by),
        }
    }
}

impl Clone for WorkflowInstanceEntity {
    fn clone(&self) -> (r: Self)
        ensures
            r@ == self@,
    {
        WorkflowInstanceEntity {
            workflow_instance_id: self.workflow_instance_id.clone(),
            tenant_id: self.tenant_id.clone(),
            workflow_meta_id: self.workflow_meta_id.clone(),
            workflow_version: self.workflow_version,
            status: self.status,
            created_at: self.created_at,
            updated_at: self.updated_at,
            deleted_at: self.deleted_at,
            context: self.context.clone(),
            entry_node: self.entry_node.clone(),
            current_node: self.current_node.clone(),
            nodes: clone_nodes(&self.nodes),
            epoch: self.epoch,
            locked_by: clone_opt_text(&self.locked_by),
            locked_duration: self.locked_duration,
            locked_at: self.locked_at,
            parent_context: clone_opt_caller(&self.parent_context),
            depth: self.depth,
            created_by: clone_opt_text(&self.created_by),
        }
    }
}

/// The place of the first node with an id.
pub open spec fn node_place(nodes: Seq<NodeView>, node_id: Seq<char>) -> Option<int>
    decreases nodes.len(),
{
    if nodes.len() == 0 {
        None
    } else {
        match node_place(nodes.drop_last(), node_id) {
            Some(i) => Some(i),
            None => if nodes.last().node_id == node_id {
                Some(nodes.len() - 1)
            } else {
                None
            },
        }
    }
}

/// The place that [`node_place`] gives is the first node with the id; there is none exactly where
/// no node has it.
pub proof fn lemma_node_place(nodes: Seq<NodeView>, node_id: Seq<char>)
    ensures
        match node_place(nodes, node_id) {
            Some(i) => 0 <= i < nodes.len() && nodes[i].node_id == node_id && (forall|j: int|
                0 <= j < i ==> #[trigger] nodes[j].node_id != node_id),
            None => forall|j: int| 0 <= j < nodes.len() ==> #[trigger] nodes[j].node_id != node_id,
        },
    decreases nodes.len(),
{
    if nodes.len() > 0 {
        lemma_node_place(nodes.drop_last(), node_id);
        assert forall|j: int| 0 <= j < nodes.len() - 1 implies nodes.drop_last()[j] == nodes[j] by {}
        match node_place(nodes.drop_last(), node_id) {
            Some(i) => {
                assert forall|j: int| 0 <= j < i implies #[trigger] nodes[j].node_id != node_id by {
                    assert(nodes.drop_last()[j].node_id != node_id);
                }
            },
            None => {
                assert forall|j: int| 0 <= j < nodes.len() - 1 implies #[trigger] nodes[j].node_id
                    != node_id by {
                    assert(nodes.drop_last()[j].node_id != node_id);
                }
            },
        }
    }
}

/// The first place with the properties of [`node_place`] is that place.
pub proof fn lemma_node_place_is(nodes: Seq<NodeView>, node_id: Seq<char>, i: int)
    requires
        0 <= i < nodes.len(),
        nodes[i].node_id == node_id,
        forall|j: int| 0 <= j < i ==> #[trigger] nodes[j].node_id != node_id,
    ensures
        node_place(nodes, node_id) == Some(i),
{
    lemma_node_place(nodes, node_id);
    match node_place(nodes, node_id) {
        Some(k) => {
            if k < i {
                assert(nodes[k].node_id != node_id);
            } else if i < k {
                assert(nodes[i].node_id != node_id);
            }
        },
        None => {
            assert(nodes[i].node_id != node_id);
        },
    }
}

/// An instance with one node replaced.
pub open spec fn with_node(instance: InstanceView, index: int, node: NodeView) -> InstanceView {
    InstanceView { nodes: instance.nodes.update(index, node), ..instance }
}

impl WorkflowInstanceEntity {
    /// The node that the instance stands at.
    pub fn get_current_node(&self) -> (r: String)
        ensures
            r@ == self@.current_node,
    {
        self.current_node.clone()
    }

    /// Whether the instance waits to be run.
    pub fn is_pending(&self) -> (r: bool)
        ensures
            r == (self@.status is Pending),
    {
        matches!(self.status, WorkflowInstanceStatus::Pending)
    }

    /// Whether the instance is being run.
    pub fn is_running(&self) -> (r: bool)
        ensures
            r == (self@.status is Running),
    {
        matches!(self.status, WorkflowInstanceStatus::Running)
    }

    /// The place of the first node with an id.
    pub fn find_node(&self, node_id: &str) -> (r: Option<usize>)
        ensures
            match r {
                Some(i) => i < self.nodes@.len() && node_place(self@.nodes, node_id@) == Some(
                    i as int,
                ),
                None => node_place(self@.nodes, node_id@) is None,
            },
    {
        let mut i: usize = 0;
        while i < self.nodes.len()
            invariant
                i <= self.nodes@.len(),
                forall|j: int| 0 <= j < i ==> #[trigger] self@.nodes[j].node_id != node_id@,
            decreases self.nodes@.len() - i,
        {
            if same(self.nodes[i].node_id.as_str(), node_id) {
                proof {
                    lemma_node_place_is(self@.nodes, node_id@, i as int);
                }
                return Some(i);
            }
            i = i + 1;
        }
        proof {
            lemma_node_place(self@.nodes, node_id@);
        }
        None
    }
}

/// The value of a task tells all of it: two tasks with one value have the same identifiers, the same
/// work, the same state, and the same input, output, error and caller.
pub proof fn law_a_tasks_value_tells_all_of_it(a: TaskInstanceEntity, b: TaskInstanceEntity)
    requires
        a@ == b@,
    ensures
        a.id@ == b.id@,
        a.tenant_id@ == b.tenant_id@,
        a.task_id@ == b.task_id@,
        a.task_name@ == b.task_name@,
        a.task_type == b.task_type,
        a.task_template@ == b.task_template@,
        a.task_status == b.task_status,
        a.task_instance_id@ == b.task_instance_id@,
        a.created_at == b.created_at,
        a.updated_at == b.updated_at,
        a.deleted_at == b.deleted_at,
        opt_json(a.input) == opt_json(b.input),
        opt_json(a.output) == opt_json(b.output),
        opt_text(a.error_message) == opt_text(b.error_message),
        a.execution_duration == b.execution_duration,
        opt_caller(a.caller_context) == opt_caller(b.caller_context),
{
    let x = a@;
    let y = b@;
    assert(x.id == y.id && x.input == y.input && x.output == y.output);
}

/// The value of a node tells all of it: two nodes with one value have the same task, context, state,
/// error and next node.
pub proof fn law_a_nodes_value_tells_all_of_it(
    a: WorkflowNodeInstanceEntity,
    b: WorkflowNodeInstanceEntity,
)
    requires
        a@ == b@,
    ensures
        a.node_id@ == b.node_id@,
        a.node_type == b.node_type,
        a.task_instance@ == b.task_instance@,
        a.context@ == b.context@,
        opt_text(a.next_node) == opt_text(b.next_node),
        a.status == b.status,
        opt_text(a.error_message) == opt_text(b.error_message),
        a.created_at == b.created_at,
        a.updated_at == b.updated_at,
{
    let x = a@;
    let y = b@;
    assert(x.node_id == y.node_id && x.context == y.context);
}

/// The value of an instance tells all of it: two instances with one value have the same nodes in the
/// same places, the same context, state, place, lock, parent and creator.
pub proof fn law_an_instances_value_tells_all_of_it(
    a: WorkflowInstanceEntity,
    b: WorkflowInstanceEntity,
    i: int,
)
    requires
        a@ == b@,
    ensures
        a.workflow_instance_id@ == b.workflow_instance_id@,
        a.tenant_id@ == b.tenant_id@,
        a.workflow_meta_id@ == b.workflow_meta_id@,
        a.workflow_version == b.workflow_version,
        a.status == b.status,
        a.created_at == b.created_at,
        a.updated_at == b.updated_at,
        a.deleted_at == b.deleted_at,
        a.context@ == b.context@,
        a.entry_node@ == b.entry_node@,
        a.current_node@ == b.current_node@,
        a.nodes@.len() == b.nodes@.len(),
        0 <= i < a.nodes@.len() ==> a.nodes@[i]@ == b.nodes@[i]@,
        a.epoch == b.epoch,
        opt_text(a.locked_by) == opt_text(b.locked_by),
        a.locked_duration == b.locked_duration,
        a.locked_at == b.locked_at,
        opt_caller(a.parent_context) == opt_caller(b.parent_context),
        a.depth == b.depth,
        opt_text(a.created_by) == opt_text(b.created_by),
{
    let x = a@;
    let y = b@;
    assert(x.nodes == y.nodes);
    assert(nodes_view(a.nodes@).len() == nodes_view(b.nodes@).len());
    if 0 <= i < a.nodes@.len() {
        assert(nodes_view(a.nodes@)[i] == nodes_view(b.nodes@)[i]);
    }
}

/// Putting a node in a place of an instance changes that node and no other, and nothing else.
pub proof fn law_one_node_is_put_in_its_place(instance: InstanceView, i: int, node: NodeView, j: int)
    requires
        0 <= i < instance.nodes.len(),
        0 <= j < instance.nodes.len(),
    ensures
        with_node(instance, i, node).nodes.len() == instance.nodes.len(),
        with_node(instance, i, node).nodes[i] == node,
        j != i ==> with_node(instance, i, node).nodes[j] == instance.nodes[j],
        with_node(instance, i, node) == (InstanceView {
            nodes: with_node(instance, i, node).nodes,
            ..instance
        }),
{
}

} // verus!
