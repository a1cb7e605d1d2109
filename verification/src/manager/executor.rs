//! The manager itself: the plugins that it knows, and how a node and a callback find theirs.

use crate::entity::{
    InstanceView, NodeView, TaskInstanceEntity, TaskView, WorkflowInstanceEntity,
    WorkflowNodeInstanceEntity,
};
use crate::json::{clone_opt, clone_opt_text, object_keys, opt_json, Json};
use crate::manager::ensure_task_job::{StoredTask, StoredTaskView};
use crate::manager::workflow::PayloadView;
use crate::notification::{
    opt_texts, payload_tenant, tenant_of_payload, NotificationEvent, NotificationEventView,
};
use crate::plugin::approval::{
    approval_begun, ApprovalPlugin, ApprovalRequest, ApprovalRequestView,
};
use crate::plugin::contextrewrite::{rewrite_ran, ContextRewritePlugin};
use crate::plugin::forkjoin::{fork_step, ForkJoinPlugin};
use crate::plugin::http::{node_task_job, HttpPlugin};
use crate::plugin::ifcondition::{condition_ran, IfConditionPlugin};
use crate::plugin::interface::{
    awaiting, callback_outcome, node_with_callback, outcome, single_child_id, ChildStatus, ChildTable,
    ChildView, ExecutionResult, ExecutionView,
};
use crate::plugin::llm::LlmPlugin;
use crate::plugin::parallel::{parallel_step, ParallelPlugin};
use crate::plugin::pause::{pause_ran, PausePlugin};
use crate::plugin::rhai_engine::{ctx_binding, flat_bindings, ScriptView};
use crate::plugin::subworkflow::{
    begun, SubWorkflowPlugin, SubWorkflowStep, SubWorkflowStepView,
};
use crate::shared::{NodeExecutionStatus, TaskInstanceStatus, TaskType, WorkflowInstanceStatus};
use crate::template::TaskTemplate;
use crate::text::{concat2, opt_slice, opt_text, owned};
use vstd::prelude::*;

verus! {

/// A plugin.
#[derive(Clone, Copy, Debug, PartialEq, Eq, Structural)]
pub enum NodePlugin {
    Http,
    Parallel,
    ForkJoin,
    SubWorkflow,
    Approval,
    IfCondition,
    ContextRewrite,
    Pause,
    Llm,
}

impl NodePlugin {
    /// The kind of node that the plugin runs.
    pub open spec fn kind(self) -> TaskType {
        match self {
            NodePlugin::Http => TaskType::Http,
            NodePlugin::Parallel => TaskType::Parallel,
            NodePlugin::ForkJoin => TaskType::ForkJoin,
            NodePlugin::SubWorkflow => TaskType::SubWorkflow,
            NodePlugin::Approval => TaskType::Approval,
            NodePlugin::IfCondition => TaskType::IfCondition,
            NodePlugin::ContextRewrite => TaskType::ContextRewrite,
            NodePlugin::Pause => TaskType::Pause,
            NodePlugin::Llm => TaskType::Llm,
        }
    }

    /// The kind of node that the plugin runs.
    pub fn plugin_type(&self) -> (r: TaskType)
        ensures
            r == self.kind(),
    {
        match self {
            NodePlugin::Http => TaskType::Http,
            NodePlugin::Parallel => TaskType::Parallel,
            NodePlugin::ForkJoin => TaskType::ForkJoin,
            NodePlugin::SubWorkflow => TaskType::SubWorkflow,
            NodePlugin::Approval => TaskType::Approval,
            NodePlugin::IfCondition => TaskType::IfCondition,
            NodePlugin::ContextRewrite => TaskType::ContextRewrite,
            NodePlugin::Pause => TaskType::Pause,
            NodePlugin::Llm => TaskType::Llm,
        }
    }
}

/// The manager of workflow instances, with the plugins that are registered.
pub struct PluginManager {
    pub plugins: Vec<NodePlugin>,
}

impl PluginManager {
    /// The kinds of nodes that a plugin is registered for.
    pub open spec fn kinds(self) -> Set<TaskType> {
        Set::new(|t: TaskType| exists|i: int| 0 <= i < self.plugins@.len() && #[trigger] self.plugins@[i].kind() == t)
    }
}

/// The error of a node that no plugin runs.
pub open spec fn no_plugin(kind: TaskType) -> Seq<char> {
    "no plugin registered for task type: "@ + kind.label()
}

/// What running a node has come to so far.
#[derive(Debug)]
pub enum NodeStep {
    /// It is done.
    Done(ExecutionResult),
    /// A sub-workflow is to be seen to; go on as the step says.
    SubWorkflow(SubWorkflowStep),
    /// An approval is to be filed; go on with [`ApprovalPlugin::approval_created`].
    Approval(ApprovalRequest),
}

/// The mathematical value of a [`NodeStep`].
pub enum NodeStepView {
    Done(ExecutionView),
    SubWorkflow(SubWorkflowStepView),
    Approval(ApprovalRequestView),
}

impl View for NodeStep {
    type V = NodeStepView;

    open spec fn view(&self) -> NodeStepView {
        match self {
            NodeStep::Done(x) => NodeStepView::Done(x@),
            NodeStep::SubWorkflow(s) => NodeStepView::SubWorkflow(s@),
            NodeStep::Approval(q) => NodeStepView::Approval(q@),
        }
    }
}

/// The value of what beginning to run a node came to.
pub open spec fn begun_view(r: Result<NodeStep, String>) -> Result<NodeStepView, Seq<char>> {
    match r {
        Ok(s) => Ok(s@),
        Err(e) => Err(e@),
    }
}

/// What a node that needs nothing more came to; nothing if it needs more.
pub open spec fn done_of(r: Result<NodeStepView, Seq<char>>) -> Option<
    Result<ExecutionView, Seq<char>>,
> {
    match r {
        Ok(NodeStepView::Done(x)) => Some(Ok(x)),
        Ok(_) => None,
        Err(e) => Some(Err(e)),
    }
}

/// Whether running a container came to what its step says; an error leaves the node as it was.
pub open spec fn container_ran(
    step: Result<(NodeView, ExecutionView), Seq<char>>,
    node: NodeView,
    new_node: NodeView,
    r: Result<NodeStepView, Seq<char>>,
) -> bool {
    match step {
        Ok((n, x)) => new_node == n && r == Ok::<NodeStepView, Seq<char>>(NodeStepView::Done(x)),
        Err(e) => new_node == node && r == Err::<NodeStepView, Seq<char>>(e),
    }
}

/// Whether beginning to run a node can come to that. `flat` and `ctx` are the variables that a
/// condition and a rewrite see; `keys` are the keys of the instance's context afterwards, in their
/// order. Only a rewrite changes the instance. A node that no plugin is registered for is an error.
pub open spec fn node_begun(
    kinds: Set<TaskType>,
    node: NodeView,
    flat: Seq<(Seq<char>, ScriptView)>,
    ctx: Seq<(Seq<char>, ScriptView)>,
    instance: InstanceView,
    scan: Map<Seq<char>, ChildView>,
    recheck: Map<Seq<char>, ChildView>,
    keys: Seq<Seq<char>>,
    new_node: NodeView,
    new_instance: InstanceView,
    r: Result<NodeStepView, Seq<char>>,
) -> bool {
    if !kinds.contains(node.node_type) {
        new_node == node && new_instance == instance && r == Err::<NodeStepView, Seq<char>>(
            no_plugin(node.node_type),
        )
    } else {
        &&& node.node_type is ContextRewrite || new_instance == instance
        &&& match node.node_type {
            TaskType::Http | TaskType::Llm => new_node == node && r == Ok::<
                NodeStepView,
                Seq<char>,
            >(NodeStepView::Done(awaiting(seq![node_task_job(node, instance)], seq![]))),
            TaskType::Parallel => container_ran(
                parallel_step(node, instance, scan, recheck, true),
                node,
                new_node,
                r,
            ),
            TaskType::ForkJoin => container_ran(
                fork_step(node, instance, scan, recheck, true),
                node,
                new_node,
                r,
            ),
            TaskType::SubWorkflow => new_node == node && r == match begun(node, instance) {
                Ok(s) => Ok::<NodeStepView, Seq<char>>(NodeStepView::SubWorkflow(s)),
                Err(e) => Err::<NodeStepView, Seq<char>>(e),
            },
            TaskType::Approval => match r {
                Ok(NodeStepView::Approval(q)) => approval_begun(node, instance, new_node, Ok(q)),
                Ok(_) => false,
                Err(e) => approval_begun(node, instance, new_node, Err(e)),
            },
            TaskType::IfCondition => done_of(r) matches Some(x) && condition_ran(
                node,
                flat,
                new_node,
                x,
            ),
            TaskType::ContextRewrite => done_of(r) matches Some(x) && rewrite_ran(
                node,
                instance,
                ctx,
                keys,
                new_node,
                new_instance,
                x,
            ),
            TaskType::Pause => done_of(r) matches Some(x) && pause_ran(node, new_node, x),
            TaskType::Grpc => false,
        }
    }
}

/// What a callback does to the node that it goes to, and what the node comes to: a container looks
/// at its children again, and any other node takes over what the callback says.
pub open spec fn called_back(
    kinds: Set<TaskType>,
    node: NodeView,
    instance: InstanceView,
    payload: PayloadView,
    scan: Map<Seq<char>, ChildView>,
    recheck: Map<Seq<char>, ChildView>,
) -> Result<(NodeView, ExecutionView), Seq<char>> {
    if !kinds.contains(node.node_type) {
        Err(no_plugin(node.node_type))
    } else {
        match node.node_type {
            TaskType::Parallel => parallel_step(node, instance, scan, recheck, false),
            TaskType::ForkJoin => fork_step(node, instance, scan, recheck, false),
            _ => Ok(
                (
                    node_with_callback(
                        node,
                        payload.output,
                        payload.error_message,
                        payload.input,
                    ),
                    callback_outcome(payload.status),
                ),
            ),
        }
    }
}

/// The status of a child that is a workflow.
pub open spec fn workflow_child(found: Option<InstanceView>) -> ChildView {
    match found {
        None => ChildView::NotFound,
        Some(w) => match w.status {
            WorkflowInstanceStatus::Completed => ChildView::Completed(Some(w.context)),
            WorkflowInstanceStatus::Failed => ChildView::Failed(Some(w.context), None),
            WorkflowInstanceStatus::Canceled => ChildView::Failed(None, Some("Canceled"@)),
            _ => ChildView::Running,
        },
    }
}

/// The status of a child that is a task.
pub open spec fn task_child(found: Option<TaskView>) -> ChildView {
    match found {
        None => ChildView::NotFound,
        Some(t) => match t.task_status {
            TaskInstanceStatus::Completed => ChildView::Completed(t.output),
            TaskInstanceStatus::Failed => ChildView::Failed(t.output, t.error_message),
            TaskInstanceStatus::Skipped => ChildView::Skipped(t.output),
            TaskInstanceStatus::Canceled => ChildView::Failed(t.output, Some("Canceled"@)),
            _ => ChildView::Running,
        },
    }
}

/// The value of an instance that may be missing.
pub open spec fn opt_instance(w: Option<&WorkflowInstanceEntity>) -> Option<InstanceView> {
    match w {
        Some(i) => Some(i@),
        None => None,
    }
}

/// The value of a task that may be missing.
pub open spec fn opt_task(t: Option<&TaskInstanceEntity>) -> Option<TaskView> {
    match t {
        Some(i) => Some(i@),
        None => None,
    }
}

impl PluginManager {
    /// A manager without plugins.
    pub fn new() -> (r: Self)
        ensures
            r.kinds() == Set::<TaskType>::empty(),
    {
        let r = PluginManager { plugins: Vec::new() };
        assert(r.kinds() =~= Set::<TaskType>::empty());
        r
    }

    /// Registers a plugin for the kind of node that it runs.
    pub fn register(&mut self, plugin: NodePlugin)
        ensures
            final(self).kinds() == old(self).kinds().insert(plugin.kind()),
    {
        let ghost was = self.plugins@;
        self.plugins.push(plugin);
        proof {
            assert forall|t: TaskType| self.kinds().contains(t) <==> old(self).kinds().insert(
                plugin.kind(),
            ).contains(t) by {
                if self.kinds().contains(t) {
                    let i = choose|i: int|
                        0 <= i < self.plugins@.len() && #[trigger] self.plugins@[i].kind() == t;
                    if i < was.len() {
                        assert(was[i].kind() == t);
                    }
                }
                if old(self).kinds().contains(t) {
                    let i = choose|i: int| 0 <= i < was.len() && #[trigger] was[i].kind() == t;
                    assert(self.plugins@[i].kind() == t);
                }
                if t == plugin.kind() {
                    assert(self.plugins@[was.len() as int].kind() == t);
                }
            }
            assert(self.kinds() =~= old(self).kinds().insert(plugin.kind()));
        }
    }

    /// The plugin of a kind of node.
    pub fn plugin_for(&self, kind: &TaskType) -> (r: Result<NodePlugin, String>)
        ensures
            match r {
                Ok(p) => self.kinds().contains(*kind) && p.kind() == *kind,
                Err(e) => !self.kinds().contains(*kind) && e@ == no_plugin(*kind),
            },
    {
        let mut i: usize = 0;
        while i < self.plugins.len()
            invariant
                i <= self.plugins@.len(),
                forall|j: int| 0 <= j < i ==> #[trigger] self.plugins@[j].kind() != *kind,
            decreases self.plugins@.len() - i,
        {
            if self.plugins[i].plugin_type() == *kind {
                assert(self.plugins@[i as int].kind() == *kind);
                return Ok(self.plugins[i]);
            }
            i = i + 1;
        }
        Err(concat2("no plugin registered for task type: ", kind.name()))
    }

    /// Begins to run a node with the plugin of its kind. `scan` and `recheck` are two looks at the
    /// node's children; only containers use them.
    pub fn execute_node_instance(
        &self,
        node_instance: &mut WorkflowNodeInstanceEntity,
        workflow_instance: &mut WorkflowInstanceEntity,
        scan: &ChildTable,
        recheck: &ChildTable,
    ) -> (r: Result<NodeStep, String>)
        ensures
            node_begun(
                self.kinds(),
                old(node_instance)@,
                flat_bindings(old(node_instance).context),
                ctx_binding(old(node_instance).context),
                old(workflow_instance)@,
                scan@,
                recheck@,
                object_keys(final(workflow_instance).context),
                final(node_instance)@,
                final(workflow_instance)@,
                begun_view(r),
            ),
            final(workflow_instance).nodes@.len() == old(workflow_instance).nodes@.len(),
    {
        let plugin = match self.plugin_for(&node_instance.node_type) {
            Ok(p) => p,
            Err(e) => {
                return Err(e);
            },
        };
        match plugin {
            NodePlugin::Http => Ok(
                NodeStep::Done(HttpPlugin::new().execute(node_instance, workflow_instance)),
            ),
            NodePlugin::Llm => Ok(
                NodeStep::Done(LlmPlugin::new().execute(node_instance, workflow_instance)),
            ),
            NodePlugin::Parallel => match ParallelPlugin::new().execute(
                node_instance,
                workflow_instance,
                scan,
                recheck,
            ) {
                Ok(x) => Ok(NodeStep::Done(x)),
                Err(e) => Err(e),
            },
            NodePlugin::ForkJoin => match ForkJoinPlugin::new().execute(
                node_instance,
                workflow_instance,
                scan,
                recheck,
            ) {
                Ok(x) => Ok(NodeStep::Done(x)),
                Err(e) => Err(e),
            },
            NodePlugin::SubWorkflow => match SubWorkflowPlugin::new().execute(
                node_instance,
                workflow_instance,
            ) {
                Ok(s) => Ok(NodeStep::SubWorkflow(s)),
                Err(e) => Err(e),
            },
            NodePlugin::Approval => match ApprovalPlugin::new().execute(
                node_instance,
                workflow_instance,
            ) {
                Ok(q) => Ok(NodeStep::Approval(q)),
                Err(e) => Err(e),
            },
            NodePlugin::IfCondition => match IfConditionPlugin::new().execute(node_instance) {
                Ok(x) => Ok(NodeStep::Done(x)),
                Err(e) => Err(e),
            },
            NodePlugin::ContextRewrite => {
                let result = ContextRewritePlugin::new().execute(node_instance, workflow_instance);
                assert(workflow_instance@.nodes == old(workflow_instance)@.nodes);
                match result {
                    Ok(x) => Ok(NodeStep::Done(x)),
                    Err(e) => Err(e),
                }
            },
            NodePlugin::Pause => match PausePlugin::new().execute(node_instance) {
                Ok(x) => Ok(NodeStep::Done(x)),
                Err(e) => Err(e),
            },
        }
    }

    /// Hands a callback to the plugin of the node's kind. A container looks at its children again;
    /// any other node takes over what the callback says.
    pub fn handle_node_callback(
        &self,
        node_instance: &mut WorkflowNodeInstanceEntity,
        workflow_instance: &WorkflowInstanceEntity,
        status: &NodeExecutionStatus,
        output: &Option<Json>,
        error_message: &Option<String>,
        input: &Option<Json>,
        scan: &ChildTable,
        recheck: &ChildTable,
    ) -> (r: Result<ExecutionResult, String>)
        ensures
            match called_back(
                self.kinds(),
                old(node_instance)@,
                workflow_instance@,
                PayloadView {
                    status: *status,
                    output: opt_json(*output),
                    error_message: opt_text(*error_message),
                    input: opt_json(*input),
                },
                scan@,
                recheck@,
            ) {
                Ok((n, x)) => final(node_instance)@ == n && outcome(r) == Ok::<
                    ExecutionView,
                    Seq<char>,
                >(x),
                Err(e) => final(node_instance)@ == old(node_instance)@ && outcome(r) == Err::<
                    ExecutionView,
                    Seq<char>,
                >(e),
            },
    {
        let plugin = match self.plugin_for(&node_instance.node_type) {
            Ok(p) => p,
            Err(e) => {
                return Err(e);
            },
        };
        match plugin {
            NodePlugin::Parallel => ParallelPlugin::new().handle_callback(
                node_instance,
                workflow_instance,
                scan,
                recheck,
            ),
            NodePlugin::ForkJoin => ForkJoinPlugin::new().handle_callback(
                node_instance,
                workflow_instance,
                scan,
                recheck,
            ),
            NodePlugin::Approval => Ok(
                ApprovalPlugin::new().handle_callback(
                    node_instance,
                    status,
                    output,
                    error_message,
                    input,
                ),
            ),
            _ => Ok(
                crate::plugin::interface::handle_callback(
                    node_instance,
                    status,
                    output,
                    error_message,
                    input,
                ),
            ),
        }
    }

    /// Whether a task is still failed: not one that was tried again or completed since, nor one that
    /// storage does not have. Without a storage of tasks nothing is known, and the task counts as
    /// failed.
    pub fn is_task_still_failed(stored: &StoredTask) -> (r: bool)
        ensures
            r == match stored@ {
                StoredTaskView::NoStore => true,
                StoredTaskView::Missing => false,
                StoredTaskView::Found(t) => t.task_status is Failed,
            },
    {
        match stored {
            StoredTask::NoStore => true,
            StoredTask::Missing => false,
            StoredTask::Found(t) => matches!(t.task_status, TaskInstanceStatus::Failed),
        }
    }

    /// The status of a container's child. A child that is a sub-workflow is looked for among the
    /// workflow instances, any other among the task instances; without a storage of task instances
    /// none of those is found.
    pub fn resolve_child_status(
        task_template: &TaskTemplate,
        workflow: Option<&WorkflowInstanceEntity>,
        task: Option<&TaskInstanceEntity>,
    ) -> (r: ChildStatus)
        ensures
            r@ == if task_template@ is SubWorkflow {
                workflow_child(opt_instance(workflow))
            } else {
                task_child(opt_task(task))
            },
    {
        match task_template {
            TaskTemplate::SubWorkflow(_) => match workflow {
                None => ChildStatus::NotFound,
                Some(w) => match w.status {
                    WorkflowInstanceStatus::Completed => ChildStatus::Completed(
                        Some(w.context.clone()),
                    ),
                    WorkflowInstanceStatus::Failed => ChildStatus::Failed(
                        Some(w.context.clone()),
                        None,
                    ),
                    WorkflowInstanceStatus::Canceled => ChildStatus::Failed(
                        None,
                        Some(owned("Canceled")),
                    ),
                    WorkflowInstanceStatus::Pending | WorkflowInstanceStatus::Running
                    | WorkflowInstanceStatus::Await | WorkflowInstanceStatus::Suspended =>
                        ChildStatus::Running,
                },
            },
            _ => match task {
                None => ChildStatus::NotFound,
                Some(t) => match t.task_status {
                    TaskInstanceStatus::Completed => ChildStatus::Completed(clone_opt(&t.output)),
                    TaskInstanceStatus::Failed => ChildStatus::Failed(
                        clone_opt(&t.output),
                        clone_opt_text(&t.error_message),
                    ),
                    TaskInstanceStatus::Skipped => ChildStatus::Skipped(clone_opt(&t.output)),
                    TaskInstanceStatus::Canceled => ChildStatus::Failed(
                        clone_opt(&t.output),
                        Some(owned("Canceled")),
                    ),
                    TaskInstanceStatus::Pending | TaskInstanceStatus::Running =>
                        ChildStatus::Running,
                },
            },
        }
    }

    /// The notification that an event is announced with: it belongs to the tenant that the payload
    /// names.
    pub fn emit_notification(
        event_type: &str,
        workflow_meta_id: Option<&str>,
        target_user_ids: Option<Vec<String>>,
        payload: Json,
    ) -> (r: NotificationEvent)
        ensures
            r@ == (NotificationEventView {
                tenant_id: payload_tenant(payload@),
                event_type: event_type@,
                workflow_meta_id: opt_slice(workflow_meta_id),
                target_user_ids: opt_texts(target_user_ids),
                payload: payload@,
            }),
    {
        NotificationEvent {
            tenant_id: tenant_of_payload(&payload),
            event_type: owned(event_type),
            workflow_meta_id: match workflow_meta_id {
                Some(s) => Some(owned(s)),
                None => None,
            },
            target_user_ids,
            payload,
        }
    }
}

impl Default for PluginManager {
    fn default() -> (r: Self)
        ensures
            r.kinds() == Set::<TaskType>::empty(),
    {
        PluginManager::new()
    }
}

/// The manager with all plugins, which an engine runs with.
pub fn create_plugin_manager() -> (r: PluginManager)
    ensures
        forall|t: TaskType| #[trigger] r.kinds().contains(t) <==> !(t is Grpc),
{
    let mut m = PluginManager::new();
    m.register(NodePlugin::Http);
    m.register(NodePlugin::Parallel);
    m.register(NodePlugin::ForkJoin);
    m.register(NodePlugin::IfCondition);
    m.register(NodePlugin::ContextRewrite);
    m.register(NodePlugin::SubWorkflow);
    m.register(NodePlugin::Approval);
    m.register(NodePlugin::Pause);
    m.register(NodePlugin::Llm);
    m
}

/// Every kind of child has a status: it is found unless storage does not have it, and it counts as
/// running exactly while it has not ended.
pub proof fn law_children_run_until_they_end(task: TaskView)
    ensures
        task_child(Some(task)) is Running <==> !task.task_status.ended(),
        !(task_child(Some(task)) is NotFound),
{
}

/// What a container learns of a child task is what the task left: the output of one that completed
/// or was skipped, the output and the error of one that failed; one that was canceled counts as
/// failed, with that as its error.
pub proof fn law_a_child_task_tells_what_it_left(task: TaskView)
    ensures
        task.task_status is Completed ==> task_child(Some(task)) == ChildView::Completed(
            task.output,
        ),
        task.task_status is Failed ==> task_child(Some(task)) == ChildView::Failed(
            task.output,
            task.error_message,
        ),
        task.task_status is Skipped ==> task_child(Some(task)) == ChildView::Skipped(task.output),
        task.task_status is Canceled ==> (task_child(Some(task)) matches ChildView::Failed(
            output,
            Some(why),
        ) && output == task.output && why == "Canceled"@),
        task_child(None) is NotFound,
{
}

/// What a container learns of a child workflow: the context that a completed one ended with, and
/// that of a failed one, which has no error of its own; one that was canceled counts as failed, with
/// that as its error and without an output; any other runs still.
pub proof fn law_a_child_workflow_tells_its_context(child: InstanceView)
    ensures
        child.status is Completed ==> workflow_child(Some(child)) == ChildView::Completed(
            Some(child.context),
        ),
        child.status is Failed ==> workflow_child(Some(child)) == ChildView::Failed(
            Some(child.context),
            None,
        ),
        child.status is Canceled ==> workflow_child(Some(child)) == ChildView::Failed(
            None,
            Some("Canceled"@),
        ),
        workflow_child(Some(child)) is Running <==> !(child.status is Completed || child.status
            is Failed || child.status is Canceled),
        workflow_child(None) is NotFound,
{
}

/// Beginning to run a request or a prompt hands out one task, under the identifier of the node's
/// only child and for the node's tenant, and the node waits for it; neither the node nor the instance
/// changes.
pub proof fn law_a_plain_node_hands_out_one_task(
    kinds: Set<TaskType>,
    node: NodeView,
    flat: Seq<(Seq<char>, ScriptView)>,
    ctx: Seq<(Seq<char>, ScriptView)>,
    instance: InstanceView,
    scan: Map<Seq<char>, ChildView>,
    recheck: Map<Seq<char>, ChildView>,
    keys: Seq<Seq<char>>,
    new_node: NodeView,
    new_instance: InstanceView,
    r: Result<NodeStepView, Seq<char>>,
)
    requires
        kinds.contains(node.node_type),
        node.node_type is Http || node.node_type is Llm,
        node_begun(
            kinds,
            node,
            flat,
            ctx,
            instance,
            scan,
            recheck,
            keys,
            new_node,
            new_instance,
            r,
        ),
    ensures
        new_node == node,
        new_instance == instance,
        ({
            &&& r matches Ok(NodeStepView::Done(x))
            &&& x.status is Await
            &&& x.dispatch_jobs.len() == 1
            &&& x.dispatch_workflow_jobs.len() == 0
            &&& x.jump_to_node is None
            &&& x.dispatch_jobs[0].task_instance_id == single_child_id(
                instance.workflow_instance_id,
                node.node_id,
            )
            &&& x.dispatch_jobs[0].tenant_id == instance.tenant_id
            &&& x.dispatch_jobs[0].caller_context matches Some(caller)
            &&& caller.workflow_instance_id == instance.workflow_instance_id
            &&& caller.node_id == node.node_id
            &&& caller.item_index is None
        }),
{
}

/// A node is run by the plugin of its own kind: a request by that of requests, and so on for every
/// kind that has one.
pub proof fn law_plugins_are_named_by_their_kind(plugin: NodePlugin)
    ensures
        plugin is Http <==> plugin.kind() is Http,
        plugin is Parallel <==> plugin.kind() is Parallel,
        plugin is ForkJoin <==> plugin.kind() is ForkJoin,
        plugin is SubWorkflow <==> plugin.kind() is SubWorkflow,
        plugin is Approval <==> plugin.kind() is Approval,
        plugin is IfCondition <==> plugin.kind() is IfCondition,
        plugin is ContextRewrite <==> plugin.kind() is ContextRewrite,
        plugin is Pause <==> plugin.kind() is Pause,
        plugin is Llm <==> plugin.kind() is Llm,
{
}

/// Only a rewrite changes the instance that its node belongs to; and a node that no plugin is
/// registered for is an error that changes nothing.
pub proof fn law_only_rewrites_touch_the_instance(
    kinds: Set<TaskType>,
    node: NodeView,
    flat: Seq<(Seq<char>, ScriptView)>,
    ctx: Seq<(Seq<char>, ScriptView)>,
    instance: InstanceView,
    scan: Map<Seq<char>, ChildView>,
    recheck: Map<Seq<char>, ChildView>,
    keys: Seq<Seq<char>>,
    new_node: NodeView,
    new_instance: InstanceView,
    r: Result<NodeStepView, Seq<char>>,
)
    requires
        node_begun(
            kinds,
            node,
            flat,
            ctx,
            instance,
            scan,
            recheck,
            keys,
            new_node,
            new_instance,
            r,
        ),
    ensures
        !(node.node_type is ContextRewrite) ==> new_instance == instance,
        !kinds.contains(node.node_type) ==> r is Err && new_node == node && new_instance
            == instance,
{
}

/// A task is retried only where storage has it as failed still, or where there is no storage to ask.
pub proof fn law_only_failed_tasks_are_retried(stored: &StoredTask, r: bool)
    requires
        call_ensures(PluginManager::is_task_still_failed, (stored,), r),
    ensures
        stored is NoStore ==> r,
        stored is Missing ==> !r,
        stored matches StoredTask::Found(t) ==> (r <==> t.task_status is Failed),
{
}

/// A kind of work that nobody is registered for is named.
pub proof fn law_a_kind_that_nobody_runs_is_named(kind: TaskType)
    ensures
        no_plugin(kind) == "no plugin registered for task type: "@ + kind.label(),
{
}

/// A container that starts children when it is run tells in its input how it was set up; when it is
/// called back it leaves its input as it is.
pub proof fn law_only_a_run_writes_a_containers_input(
    kinds: Set<TaskType>,
    node: NodeView,
    flat: Seq<(Seq<char>, ScriptView)>,
    ctx: Seq<(Seq<char>, ScriptView)>,
    instance: InstanceView,
    scan: Map<Seq<char>, ChildView>,
    recheck: Map<Seq<char>, ChildView>,
    keys: Seq<Seq<char>>,
    new_node: NodeView,
    new_instance: InstanceView,
    r: Result<NodeStepView, Seq<char>>,
    payload: PayloadView,
)
    requires
        kinds.contains(node.node_type),
        node.node_type is Parallel || node.node_type is ForkJoin,
        node_begun(
            kinds,
            node,
            flat,
            ctx,
            instance,
            scan,
            recheck,
            keys,
            new_node,
            new_instance,
            r,
        ),
    ensures
        (r matches Ok(NodeStepView::Done(x)) && x.dispatch_jobs.len()
            + x.dispatch_workflow_jobs.len() > 0) ==> {
            &&& node.node_type is Parallel ==> new_node.task_instance.input == Some(
                crate::plugin::parallel::parallel_input(
                    node.task_instance.task_template->Parallel_0,
                ),
            )
            &&& node.node_type is ForkJoin ==> new_node.task_instance.input == Some(
                crate::plugin::forkjoin::fork_input(node.task_instance.task_template->ForkJoin_0),
            )
        },
        called_back(kinds, node, instance, payload, scan, recheck) matches Ok((after, _))
            ==> after.task_instance.input == node.task_instance.input,
{
}

} // verus!
