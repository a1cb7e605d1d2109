//! Running a node of an instance and taking a callback for one, up to what is left to be done once
//! the instance has been written.

use crate::entity::{
    node_place, nodes_view, with_node, InstanceView, NodeView, TaskInstanceEntity,
    WorkflowInstanceEntity, WorkflowNodeInstanceEntity,
};
use crate::json::object_keys;
use crate::manager::after_save::{left_to_do, AfterSave};
use crate::manager::apply_exec::{applied, lemma_parent_jobs_frame, LoopAction};
use crate::manager::executor::{
    called_back, done_of, node_begun, opt_task, NodeStep, NodeStepView, PluginManager,
};
use crate::manager::workflow::{enriched, ran, run_result, CallbackPayload, PayloadView};
use crate::plugin::approval::ApprovalRequest;
use crate::plugin::interface::{ChildTable, ChildView, ExecutionView};
use crate::plugin::rhai_engine::{ctx_binding, flat_bindings, ScriptView};
use crate::plugin::subworkflow::SubWorkflowStep;
use crate::shared::TaskType;
use crate::time::{now, Timestamp};
use vstd::prelude::*;

verus! {

/// What a callback with its full payload comes to: nothing if the instance has no such node, else
/// the node's plugin takes it and its result is applied.
pub open spec fn callback_taken(
    kinds: Set<TaskType>,
    instance: InstanceView,
    node_id: Seq<char>,
    payload: PayloadView,
    scan: Map<Seq<char>, ChildView>,
    recheck: Map<Seq<char>, ChildView>,
    at: Timestamp,
) -> Result<Option<(InstanceView, LoopAction, ExecutionView)>, Seq<char>> {
    match node_place(instance.nodes, node_id) {
        None => Ok(None),
        Some(i) => match called_back(kinds, instance.nodes[i], instance, payload, scan, recheck) {
            Err(e) => Err(e),
            Ok((node, x)) => {
                let (after, action) = applied(with_node(instance, i, node), i, x, at);
                Ok(Some((after, action, x)))
            },
        },
    }
}

/// What running a node has come to so far.
#[derive(Debug)]
pub enum RunStep {
    /// Its result is applied; this is left once the instance has been written.
    Applied(AfterSave),
    /// A sub-workflow is to be seen to for this node, as the step says.
    SubWorkflow(WorkflowNodeInstanceEntity, SubWorkflowStep),
    /// An approval is to be filed for this node.
    Approval(WorkflowNodeInstanceEntity, ApprovalRequest),
}

/// Whether running the node at a place can come to that at a time: the plugin can begin to run it
/// in some way, a result or an error is applied at once, and of a node that needs more the instance
/// is only as the plugin left it. `keys` are the keys of the instance's context afterwards, in their
/// order.
pub open spec fn node_run(
    kinds: Set<TaskType>,
    instance: InstanceView,
    index: int,
    node: NodeView,
    flat: Seq<(Seq<char>, ScriptView)>,
    ctx: Seq<(Seq<char>, ScriptView)>,
    scan: Map<Seq<char>, ChildView>,
    recheck: Map<Seq<char>, ChildView>,
    at: Timestamp,
    keys: Seq<Seq<char>>,
    after: InstanceView,
    r: RunStep,
) -> bool {
    exists|left: NodeView, mid: InstanceView, b: Result<NodeStepView, Seq<char>>|
        {
            &&& #[trigger] node_begun(
                kinds,
                node,
                flat,
                ctx,
                instance,
                scan,
                recheck,
                keys,
                left,
                mid,
                b,
            )
            &&& match (b, r) {
                (Ok(NodeStepView::SubWorkflow(s)), RunStep::SubWorkflow(n, step)) => after == mid
                    && n@ == left && step@ == s,
                (Ok(NodeStepView::Approval(q)), RunStep::Approval(n, request)) => after == mid
                    && n@ == left && request@ == q,
                (_, RunStep::Applied(a)) => done_of(b) matches Some(x) && (after, a.action()) == ran(
                    mid,
                    index,
                    left,
                    x,
                    at,
                ) && left_to_do(mid, after, run_result(x), a),
                _ => false,
            }
        }
}

impl PluginManager {
    /// Takes a callback for a node of an instance that is running, at a given time. `stored` is the
    /// child's task, if there is a storage of tasks and the task is in it; `scan` and `recheck` are
    /// two looks at the node's children. An error leaves the instance as it was.
    pub fn on_node_callback_at(
        &self,
        instance: &mut WorkflowInstanceEntity,
        node_id: &str,
        payload: CallbackPayload,
        stored: Option<&TaskInstanceEntity>,
        scan: &ChildTable,
        recheck: &ChildTable,
        at: Timestamp,
    ) -> (r: Result<Option<AfterSave>, String>)
        ensures
            match (
                callback_taken(
                    self.kinds(),
                    old(instance)@,
                    node_id@,
                    enriched(payload@, opt_task(stored)),
                    scan@,
                    recheck@,
                    at,
                ),
                r,
            ) {
                (Ok(None), Ok(None)) => final(instance)@ == old(instance)@,
                (Ok(Some((after, action, x))), Ok(Some(a))) => final(instance)@ == after && a.action()
                    == action && left_to_do(old(instance)@, after, x, a),
                (Err(want), Err(e)) => e@ == want && final(instance)@ == old(instance)@,
                _ => false,
            },
    {
        let ghost start = instance@;
        let payload = PluginManager::enrich_callback_from_task_store(payload, stored);
        let index = match instance.find_node(node_id) {
            Some(i) => i,
            None => {
                return Ok(None);
            },
        };
        let mut node = instance.nodes[index].clone();
        let result = self.handle_node_callback(
            &mut node,
            instance,
            &payload.status,
            &payload.output,
            &payload.error_message,
            &payload.input,
            scan,
            recheck,
        );
        match result {
            Err(e) => Err(e),
            Ok(x) => {
                let ghost put_back = node@;
                instance.nodes.set(index, node);
                proof {
                    assert(nodes_view(instance.nodes@) =~= start.nodes.update(
                        index as int,
                        put_back,
                    ));
                    assert(instance@ == with_node(start, index as int, put_back));
                    lemma_parent_jobs_frame(
                        instance@,
                        start,
                        start.status,
                        applied(instance@, index as int, x@, at).0.status,
                    );
                }
                Ok(Some(PluginManager::apply_exec_result_at(instance, index, x, at)))
            },
        }
    }

    /// Takes a callback for a node of an instance that is running, at the clock's time. See
    /// [`PluginManager::on_node_callback_at`].
    pub fn on_node_callback(
        &self,
        instance: &mut WorkflowInstanceEntity,
        node_id: &str,
        payload: CallbackPayload,
        stored: Option<&TaskInstanceEntity>,
        scan: &ChildTable,
        recheck: &ChildTable,
    ) -> (r: Result<Option<AfterSave>, String>)
        ensures
            exists|at: Timestamp|
                match (
                    #[trigger] callback_taken(
                        self.kinds(),
                        old(instance)@,
                        node_id@,
                        enriched(payload@, opt_task(stored)),
                        scan@,
                        recheck@,
                        at,
                    ),
                    r,
                ) {
                    (Ok(None), Ok(None)) => final(instance)@ == old(instance)@,
                    (Ok(Some((after, action, x))), Ok(Some(a))) => final(instance)@ == after
                        && a.action() == action && left_to_do(old(instance)@, after, x, a),
                    (Err(want), Err(e)) => e@ == want && final(instance)@ == old(instance)@,
                    _ => false,
                },
    {
        let at = now();
        self.on_node_callback_at(instance, node_id, payload, stored, scan, recheck, at)
    }

    /// Runs the node at a place, at a given time. `node` is a copy of it whose context and input are
    /// ready; `scan` and `recheck` are two looks at its children. What a node that needs more comes
    /// to later goes to [`PluginManager::node_ran_at`].
    pub fn run_node_at(
        &self,
        instance: &mut WorkflowInstanceEntity,
        node_index: usize,
        node: WorkflowNodeInstanceEntity,
        scan: &ChildTable,
        recheck: &ChildTable,
        at: Timestamp,
    ) -> (r: RunStep)
        requires
            node_index < old(instance).nodes@.len(),
        ensures
            node_run(
                self.kinds(),
                old(instance)@,
                node_index as int,
                node@,
                flat_bindings(node.context),
                ctx_binding(node.context),
                scan@,
                recheck@,
                at,
                object_keys(final(instance).context),
                final(instance)@,
                r,
            ),
    {
        let mut node = node;
        let begun = self.execute_node_instance(&mut node, instance, scan, recheck);
        match begun {
            Ok(NodeStep::SubWorkflow(step)) => RunStep::SubWorkflow(node, step),
            Ok(NodeStep::Approval(request)) => RunStep::Approval(node, request),
            Ok(NodeStep::Done(x)) => RunStep::Applied(
                PluginManager::node_ran_at(instance, node_index, node, Ok(x), at),
            ),
            Err(e) => RunStep::Applied(
                PluginManager::node_ran_at(instance, node_index, node, Err(e), at),
            ),
        }
    }

    /// Runs the node at a place, at the clock's time. See [`PluginManager::run_node_at`].
    pub fn run_node(
        &self,
        instance: &mut WorkflowInstanceEntity,
        node_index: usize,
        node: WorkflowNodeInstanceEntity,
        scan: &ChildTable,
        recheck: &ChildTable,
    ) -> (r: RunStep)
        requires
            node_index < old(instance).nodes@.len(),
        ensures
            exists|at: Timestamp| #[trigger]
                node_run(
                    self.kinds(),
                    old(instance)@,
                    node_index as int,
                    node@,
                    flat_bindings(node.context),
                    ctx_binding(node.context),
                    scan@,
                    recheck@,
                    at,
                    object_keys(final(instance).context),
                    final(instance)@,
                    r,
                ),
    {
        let at = now();
        self.run_node_at(instance, node_index, node, scan, recheck, at)
    }
}

/// A callback to a plain node brings the node the child's end and what it left behind: the node takes
/// over output, error and input, has the end that the callback told, and the run goes on from there.
pub proof fn law_a_plain_node_takes_its_childs_end(
    kinds: Set<TaskType>,
    instance: InstanceView,
    node_id: Seq<char>,
    payload: PayloadView,
    scan: Map<Seq<char>, ChildView>,
    recheck: Map<Seq<char>, ChildView>,
    at: Timestamp,
    i: int,
)
    requires
        node_place(instance.nodes, node_id) == Some(i),
        0 <= i < instance.nodes.len(),
        kinds.contains(instance.nodes[i].node_type),
        !(instance.nodes[i].node_type is Parallel || instance.nodes[i].node_type is ForkJoin),
        payload.status is Success || payload.status is Failed || payload.status is Skipped,
    ensures
        ({
            &&& callback_taken(kinds, instance, node_id, payload, scan, recheck, at) matches Ok(
                Some((after, action, x)),
            )
            &&& after.nodes[i].status == payload.status
            &&& after.nodes[i].task_instance.output == payload.output
            &&& after.nodes[i].task_instance.input == payload.input
            &&& after.nodes[i].task_instance.error_message == payload.error_message
            &&& after.nodes[i].error_message == payload.error_message
            &&& x.status == payload.status
            &&& x.dispatch_jobs.len() == 0
            &&& x.dispatch_workflow_jobs.len() == 0
            &&& payload.status is Failed ==> after.status is Failed && action is Done
            &&& !(payload.status is Failed) && instance.nodes[i].next_node is Some ==> {
                &&& after.current_node == instance.nodes[i].next_node->0
                &&& action is Advance
            }
            &&& !(payload.status is Failed) && instance.nodes[i].next_node is None ==> after.status
                is Completed && action is Done
            &&& forall|j: int|
                0 <= j < instance.nodes.len() && j != i ==> after.nodes[j] == instance.nodes[j]
        }),
{
}

/// A callback to a container makes it look at its children again: what the callback itself says of
/// the child does not count, only what storage says.
pub proof fn law_a_container_goes_by_storage(
    kinds: Set<TaskType>,
    instance: InstanceView,
    node_id: Seq<char>,
    one: PayloadView,
    other: PayloadView,
    scan: Map<Seq<char>, ChildView>,
    recheck: Map<Seq<char>, ChildView>,
    at: Timestamp,
    i: int,
)
    requires
        node_place(instance.nodes, node_id) == Some(i),
        instance.nodes[i].node_type is Parallel || instance.nodes[i].node_type is ForkJoin,
    ensures
        callback_taken(kinds, instance, node_id, one, scan, recheck, at) == callback_taken(
            kinds,
            instance,
            node_id,
            other,
            scan,
            recheck,
            at,
        ),
{
}

/// A callback to a node that the instance does not have comes to nothing, and one to a node that
/// nobody can run is an error.
pub proof fn law_unknown_nodes_take_no_callback(
    kinds: Set<TaskType>,
    instance: InstanceView,
    node_id: Seq<char>,
    payload: PayloadView,
    scan: Map<Seq<char>, ChildView>,
    recheck: Map<Seq<char>, ChildView>,
    at: Timestamp,
)
    ensures
        node_place(instance.nodes, node_id) is None ==> callback_taken(
            kinds,
            instance,
            node_id,
            payload,
            scan,
            recheck,
            at,
        ) == Ok::<Option<(InstanceView, LoopAction, ExecutionView)>, Seq<char>>(None),
        (node_place(instance.nodes, node_id) matches Some(i) && !kinds.contains(
            instance.nodes[i].node_type,
        )) ==> callback_taken(kinds, instance, node_id, payload, scan, recheck, at) is Err,
{
}

/// Running a request or a prompt makes its node and its instance wait, with one task handed out under
/// the identifier of the node's child.
pub proof fn law_a_plain_run_waits_for_one_task(
    kinds: Set<TaskType>,
    instance: InstanceView,
    index: int,
    node: NodeView,
    flat: Seq<(Seq<char>, ScriptView)>,
    ctx: Seq<(Seq<char>, ScriptView)>,
    scan: Map<Seq<char>, ChildView>,
    recheck: Map<Seq<char>, ChildView>,
    at: Timestamp,
    keys: Seq<Seq<char>>,
    after: InstanceView,
    r: RunStep,
)
    requires
        node_run(kinds, instance, index, node, flat, ctx, scan, recheck, at, keys, after, r),
        kinds.contains(node.node_type),
        node.node_type is Http || node.node_type is Llm,
        0 <= index < instance.nodes.len(),
    ensures
        ({
            &&& r matches RunStep::Applied(left)
            &&& after.status is Await
            &&& after.nodes[index].status is Await
            &&& after.current_node == instance.current_node
            &&& left.action() is Done
            &&& left.tasks().len() == 1
            &&& left.tasks()[0].task_instance_id == crate::plugin::interface::single_child_id(
                instance.workflow_instance_id,
                node.node_id,
            )
            &&& left.workflows().len() == 0
            &&& left.notice() is None
        }),
{
}

/// A node that nobody can run fails with the reason on it, and so does its instance.
pub proof fn law_a_node_that_nobody_runs_fails(
    kinds: Set<TaskType>,
    instance: InstanceView,
    index: int,
    node: NodeView,
    flat: Seq<(Seq<char>, ScriptView)>,
    ctx: Seq<(Seq<char>, ScriptView)>,
    scan: Map<Seq<char>, ChildView>,
    recheck: Map<Seq<char>, ChildView>,
    at: Timestamp,
    keys: Seq<Seq<char>>,
    after: InstanceView,
    r: RunStep,
)
    requires
        node_run(kinds, instance, index, node, flat, ctx, scan, recheck, at, keys, after, r),
        !kinds.contains(node.node_type),
        0 <= index < instance.nodes.len(),
    ensures
        ({
            &&& r matches RunStep::Applied(left)
            &&& after.status is Failed
            &&& after.nodes[index].status is Failed
            &&& after.nodes[index].error_message is Some
            &&& left.tasks().len() == 0
            &&& left.workflows().len() == 0
        }),
{
}

} // verus!
