//! Fork-join nodes: several different tasks side by side, each under its own key.

use crate::entity::{InstanceView, NodeView, WorkflowInstanceEntity, WorkflowNodeInstanceEntity};
use crate::json::{
    items_model, json_number, json_text, lemma_items_model, number, put_str, Json, JsonView,
};
use crate::plugin::container::{
    build_child_jobs, child_task_job, child_task_jobs, child_workflow_jobs, container_step,
    flags_of, place_of, run_container, ContainerPlan, PlanView,
};
use crate::plugin::interface::{
    child_id, just, status_in, tells, ChildTable, ChildView, ExecutionResult, ExecutionView,
};
use crate::plugin::parallel::{json_limit, limit_json};
use crate::shared::{
    task_jobs, workflow_jobs, ExecuteTaskJob, ExecuteWorkflowJob, NodeExecutionStatus, TaskType,
};
use crate::template::{
    fork_items, lemma_fork_items, ForkJoinItemView, ForkJoinTemplate, ForkJoinTemplateView,
    TaskTemplate, TaskTemplateView,
};
use crate::text::owned;
use vstd::prelude::*;

verus! {

/// The plugin of fork-join nodes.
pub struct ForkJoinPlugin {}

/// Which tasks of a fork are workflows.
pub open spec fn fork_flags(tasks: Seq<ForkJoinItemView>) -> Seq<bool> {
    Seq::new(tasks.len(), |i: int| tasks[i].task_template is SubWorkflow)
}

/// The plan of a fork: each child is recorded under its task key.
pub open spec fn fork_plan(template: ForkJoinTemplateView) -> PlanView {
    PlanView {
        keys: Seq::new(template.tasks.len(), |i: int| template.tasks[i].task_key),
        workflows: fork_flags(template.tasks),
        concurrency: template.concurrency,
        mode: template.mode,
        max_failures: template.max_failures,
        total_label: "total_tasks"@,
        abort_prefix: "ForkJoin aborted: "@,
        abort_suffix: " tasks"@,
    }
}

/// What a fork writes as its input when it starts children.
pub open spec fn fork_input(template: ForkJoinTemplateView) -> JsonView {
    JsonView::Object(
        map!["task_keys"@ => JsonView::Array(Seq::new(template.tasks.len(), |i: int| JsonView::Str(template.tasks[i].task_key))), "concurrency"@ => number(template.concurrency as u64), "mode"@ => JsonView::Str(template.mode.label()), "max_failures"@ => limit_json(template.max_failures)],
    )
}

/// What running a fork, or a callback to it, comes to: an error if the node holds no fork-join
/// template; success at once without tasks; else a step of the container over the tasks. Only a
/// run writes the node's input.
pub open spec fn fork_step(
    node: NodeView,
    instance: InstanceView,
    scan: Map<Seq<char>, ChildView>,
    recheck: Map<Seq<char>, ChildView>,
    writes_input: bool,
) -> Result<(NodeView, ExecutionView), Seq<char>> {
    match node.task_instance.task_template {
        TaskTemplateView::ForkJoin(template) => if template.tasks.len() == 0 {
            Ok((node, just(NodeExecutionStatus::Success)))
        } else {
            Ok(
                container_step(
                    fork_plan(template),
                    place_of(instance.workflow_instance_id, instance.tenant_id, node),
                    node,
                    scan,
                    recheck,
                    if writes_input {
                        Some(fork_input(template))
                    } else {
                        None
                    },
                ),
            )
        },
        _ => Err("Invalid task template for ForkJoinPlugin"@),
    }
}

/// The template as mathematics sees it.
pub open spec fn fork_view(t: ForkJoinTemplate) -> ForkJoinTemplateView {
    ForkJoinTemplateView {
        tasks: fork_items(t.tasks@),
        concurrency: t.concurrency,
        mode: t.mode,
        max_failures: t.max_failures,
    }
}

impl ForkJoinPlugin {
    pub fn new() -> (r: Self) {
        ForkJoinPlugin {  }
    }

    /// The kind of node that this plugin runs.
    pub fn plugin_type(&self) -> (r: TaskType)
        ensures
            r is ForkJoin,
    {
        TaskType::ForkJoin
    }

    /// The jobs that start the tasks at the given places.
    pub fn build_dispatch_jobs(
        template: &ForkJoinTemplate,
        workflow_instance: &WorkflowInstanceEntity,
        node_instance: &WorkflowNodeInstanceEntity,
        indices: &Vec<usize>,
    ) -> (r: (Vec<ExecuteTaskJob>, Vec<ExecuteWorkflowJob>))
        requires
            forall|k: int| 0 <= k < indices@.len() ==> #[trigger] indices@[k] < template.tasks@.len(),
        ensures
            task_jobs(r.0@) == child_task_jobs(
                place_of(
                    workflow_instance@.workflow_instance_id,
                    workflow_instance@.tenant_id,
                    node_instance@,
                ),
                flags_of(fork_flags(fork_view(*template).tasks), indices@),
                indices@,
            ),
            workflow_jobs(r.1@) == child_workflow_jobs(
                place_of(
                    workflow_instance@.workflow_instance_id,
                    workflow_instance@.tenant_id,
                    node_instance@,
                ),
                flags_of(fork_flags(fork_view(*template).tasks), indices@),
                indices@,
            ),
    {
        let mut flags: Vec<bool> = Vec::new();
        let mut i: usize = 0;
        proof {
            lemma_fork_items(template.tasks@);
        }
        let ghost tasks = fork_items(template.tasks@);
        while i < indices.len()
            invariant
                i <= indices@.len(),
                flags@.len() == i,
                tasks == fork_items(template.tasks@),
                tasks.len() == template.tasks@.len(),
                forall|k: int| 0 <= k < tasks.len() ==> #[trigger] tasks[k] == template.tasks@[k]@,
                forall|k: int|
                    0 <= k < indices@.len() ==> #[trigger] indices@[k] < template.tasks@.len(),
                forall|k: int|
                    0 <= k < i ==> #[trigger] flags@[k]
                        == tasks[indices@[k] as int].task_template is SubWorkflow,
            decreases indices@.len() - i,
        {
            assert(tasks[indices@[i as int] as int] == template.tasks@[indices@[i as int] as int]@);
            let is_workflow = matches!(
                &template.tasks[indices[i]].task_template,
                TaskTemplate::SubWorkflow(_)
            );
            flags.push(is_workflow);
            i = i + 1;
        }
        assert(flags@ =~= flags_of(fork_flags(fork_view(*template).tasks), indices@));
        build_child_jobs(&flags, workflow_instance, node_instance, indices)
    }

    fn plan_for(template: &ForkJoinTemplate) -> (r: ContainerPlan)
        ensures
            r@ == fork_plan(fork_view(*template)),
            r.keys@.len() == template.tasks@.len(),
            r.workflows@.len() == template.tasks@.len(),
    {
        let mut keys: Vec<String> = Vec::new();
        let mut workflows: Vec<bool> = Vec::new();
        let mut i: usize = 0;
        proof {
            lemma_fork_items(template.tasks@);
        }
        let ghost tasks = fork_items(template.tasks@);
        while i < template.tasks.len()
            invariant
                i <= template.tasks@.len(),
                keys@.len() == i,
                workflows@.len() == i,
                tasks.len() == template.tasks@.len(),
                forall|k: int| 0 <= k < tasks.len() ==> #[trigger] tasks[k] == template.tasks@[k]@,
                forall|k: int| 0 <= k < i ==> #[trigger] keys@[k]@ == tasks[k].task_key,
                forall|k: int|
                    0 <= k < i ==> #[trigger] workflows@[k]
                        == tasks[k].task_template is SubWorkflow,
            decreases template.tasks@.len() - i,
        {
            assert(tasks[i as int] == template.tasks@[i as int]@);
            keys.push(template.tasks[i].task_key.clone());
            workflows.push(matches!(&template.tasks[i].task_template, TaskTemplate::SubWorkflow(_)));
            i = i + 1;
        }
        let r = ContainerPlan {
            keys,
            workflows,
            concurrency: template.concurrency,
            mode: template.mode,
            max_failures: template.max_failures,
            total_label: "total_tasks",
            abort_prefix: "ForkJoin aborted: ",
            abort_suffix: " tasks",
        };
        proof {
            let want = Seq::new(tasks.len(), |i: int| tasks[i].task_key);
            assert(r@.keys =~= want);
            assert(r@.workflows =~= fork_flags(tasks));
        }
        r
    }

    fn input_for(template: &ForkJoinTemplate) -> (r: Json)
        ensures
            r@ == fork_input(fork_view(*template)),
    {
        let mut keys: Vec<Json> = Vec::new();
        let mut i: usize = 0;
        proof {
            lemma_fork_items(template.tasks@);
        }
        let ghost tasks = fork_items(template.tasks@);
        while i < template.tasks.len()
            invariant
                i <= template.tasks@.len(),
                keys@.len() == i,
                tasks.len() == template.tasks@.len(),
                forall|k: int| 0 <= k < tasks.len() ==> #[trigger] tasks[k] == template.tasks@[k]@,
                forall|k: int|
                    0 <= k < i ==> #[trigger] keys@[k]@ == JsonView::Str(tasks[k].task_key),
            decreases template.tasks@.len() - i,
        {
            assert(tasks[i as int] == template.tasks@[i as int]@);
            keys.push(Json::Str(template.tasks[i].task_key.clone()));
            i = i + 1;
        }
        proof {
            lemma_items_model(keys@);
            let want = Seq::new(tasks.len(), |i: int| JsonView::Str(tasks[i].task_key));
            assert forall|k: int| 0 <= k < tasks.len() implies items_model(keys@)[k] == want[k] by {
                assert(keys@[k]@ == JsonView::Str(tasks[k].task_key));
            }
            assert(items_model(keys@) =~= want);
        }
        let mut e: Vec<(String, Json)> = Vec::new();
        put_str(&mut e, "task_keys", Json::Array(keys));
        put_str(&mut e, "concurrency", json_number(template.concurrency as u64));
        put_str(&mut e, "mode", json_text(template.mode.name()));
        put_str(&mut e, "max_failures", json_limit(template.max_failures));
        Json::Object(e)
    }

    fn step(
        node_instance: &mut WorkflowNodeInstanceEntity,
        workflow_instance: &WorkflowInstanceEntity,
        scan: &ChildTable,
        recheck: &ChildTable,
        writes_input: bool,
    ) -> (r: Result<ExecutionResult, String>)
        ensures
            match r {
                Ok(x) => fork_step(
                    old(node_instance)@,
                    workflow_instance@,
                    scan@,
                    recheck@,
                    writes_input,
                ) == Ok::<(NodeView, ExecutionView), Seq<char>>((final(node_instance)@, x@)),
                Err(e) => fork_step(
                    old(node_instance)@,
                    workflow_instance@,
                    scan@,
                    recheck@,
                    writes_input,
                ) == Err::<(NodeView, ExecutionView), Seq<char>>(e@) && final(node_instance)@
                    == old(node_instance)@,
            },
    {
        let template = match &node_instance.task_instance.task_template {
            TaskTemplate::ForkJoin(t) => t,
            _ => {
                return Err(owned("Invalid task template for ForkJoinPlugin"));
            },
        };
        proof {
            lemma_fork_items(template.tasks@);
        }
        if template.tasks.len() == 0 {
            return Ok(ExecutionResult::success(None));
        }
        let plan = ForkJoinPlugin::plan_for(template);
        let input = if writes_input {
            Some(ForkJoinPlugin::input_for(template))
        } else {
            None
        };
        Ok(run_container(&plan, node_instance, workflow_instance, scan, recheck, input))
    }

    /// Runs a fork. `scan` is a look at all its children, `recheck` a second look that is taken
    /// before children are started.
    pub fn execute(
        &self,
        node_instance: &mut WorkflowNodeInstanceEntity,
        workflow_instance: &WorkflowInstanceEntity,
        scan: &ChildTable,
        recheck: &ChildTable,
    ) -> (r: Result<ExecutionResult, String>)
        ensures
            match r {
                Ok(x) => fork_step(
                    old(node_instance)@,
                    workflow_instance@,
                    scan@,
                    recheck@,
                    true,
                ) == Ok::<(NodeView, ExecutionView), Seq<char>>((final(node_instance)@, x@)),
                Err(e) => fork_step(
                    old(node_instance)@,
                    workflow_instance@,
                    scan@,
                    recheck@,
                    true,
                ) == Err::<(NodeView, ExecutionView), Seq<char>>(e@) && final(node_instance)@
                    == old(node_instance)@,
            },
    {
        ForkJoinPlugin::step(node_instance, workflow_instance, scan, recheck, true)
    }

    /// Takes a callback of a child. The callback only wakes the node up: what it does depends on
    /// the children's statuses alone.
    pub fn handle_callback(
        &self,
        node_instance: &mut WorkflowNodeInstanceEntity,
        workflow_instance: &WorkflowInstanceEntity,
        scan: &ChildTable,
        recheck: &ChildTable,
    ) -> (r: Result<ExecutionResult, String>)
        ensures
            match r {
                Ok(x) => fork_step(
                    old(node_instance)@,
                    workflow_instance@,
                    scan@,
                    recheck@,
                    false,
                ) == Ok::<(NodeView, ExecutionView), Seq<char>>((final(node_instance)@, x@)),
                Err(e) => fork_step(
                    old(node_instance)@,
                    workflow_instance@,
                    scan@,
                    recheck@,
                    false,
                ) == Err::<(NodeView, ExecutionView), Seq<char>>(e@) && final(node_instance)@
                    == old(node_instance)@,
            },
    {
        ForkJoinPlugin::step(node_instance, workflow_instance, scan, recheck, false)
    }
}

/// A fork hands on what every task came to: whatever a step decides, the node's output has, under the
/// key of each task, what storage has of the child for it.
pub proof fn law_a_fork_tells_every_task(
    node: NodeView,
    instance: InstanceView,
    scan: Map<Seq<char>, ChildView>,
    recheck: Map<Seq<char>, ChildView>,
    writes_input: bool,
    i: usize,
)
    requires
        node.task_instance.task_template is ForkJoin,
        i < node.task_instance.task_template->ForkJoin_0.tasks.len() <= usize::MAX,
        forall|a: int, b: int|
            0 <= a < b < node.task_instance.task_template->ForkJoin_0.tasks.len() ==> (
            #[trigger] node.task_instance.task_template->ForkJoin_0.tasks[a]).task_key != (
            #[trigger] node.task_instance.task_template->ForkJoin_0.tasks[b]).task_key,
    ensures
        ({
            let tasks = node.task_instance.task_template->ForkJoin_0.tasks;
            let place = place_of(instance.workflow_instance_id, instance.tenant_id, node);
            let id = child_task_job(place, i).task_instance_id;
            &&& fork_step(node, instance, scan, recheck, writes_input) matches Ok((after, _))
            &&& after.task_instance.output matches Some(output)
            &&& output.field("total_tasks"@) == Some(number(tasks.len() as u64))
            &&& output.field("results"@) matches Some(results)
            &&& results.field(tasks[i as int].task_key) matches Some(of_child)
            &&& scan.contains_key(id) ==> tells(of_child, scan[id])
            &&& !scan.contains_key(id) ==> of_child == JsonView::Null
        }),
{
    let template = node.task_instance.task_template->ForkJoin_0;
    let place = place_of(instance.workflow_instance_id, instance.tenant_id, node);
    let plan = fork_plan(template);
    assert forall|a: int, b: int| 0 <= a < b < plan.keys.len() implies #[trigger] plan.keys[a]
        != #[trigger] plan.keys[b] by {
        assert(template.tasks[a].task_key != template.tasks[b].task_key);
    }
    crate::plugin::container::law_a_step_writes_what_the_children_came_to(
        plan,
        place,
        node,
        scan,
        recheck,
        if writes_input {
            Some(fork_input(template))
        } else {
            None
        },
        i,
    );
}

/// A fork without tasks succeeds at once; any other succeeds exactly when the child for each task has
/// completed or was skipped.
pub proof fn law_a_fork_ends_with_its_tasks(
    node: NodeView,
    instance: InstanceView,
    scan: Map<Seq<char>, ChildView>,
    recheck: Map<Seq<char>, ChildView>,
    writes_input: bool,
)
    requires
        node.task_instance.task_template is ForkJoin,
        node.task_instance.task_template->ForkJoin_0.tasks.len() <= usize::MAX,
    ensures
        ({
            let tasks = node.task_instance.task_template->ForkJoin_0.tasks;
            &&& fork_step(node, instance, scan, recheck, writes_input) matches Ok((_, outcome))
            &&& outcome.status is Success <==> forall|i: int|
                0 <= i < tasks.len() ==> ({
                    let s = status_in(
                        scan,
                        #[trigger] child_id(instance.workflow_instance_id, node.node_id, i as nat),
                    );
                    s is Completed || s is Skipped
                })
        }),
{
    let template = node.task_instance.task_template->ForkJoin_0;
    let tasks = template.tasks;
    let place = place_of(instance.workflow_instance_id, instance.tenant_id, node);
    let plan = fork_plan(template);
    let children = crate::plugin::container::children_of(place, plan.keys, scan);
    crate::plugin::container::law_a_step_ends_as_its_children_did(
        plan,
        place,
        node,
        scan,
        recheck,
        if writes_input {
            Some(fork_input(template))
        } else {
            None
        },
    );
    if forall|i: int|
        0 <= i < tasks.len() ==> ({
            let s = status_in(
                scan,
                #[trigger] child_id(instance.workflow_instance_id, node.node_id, i as nat),
            );
            s is Completed || s is Skipped
        }) {
        assert forall|i: int| 0 <= i < children.len() implies ((#[trigger] children[i]).1
            is Completed || children[i].1 is Skipped) by {
            let id = child_id(instance.workflow_instance_id, node.node_id, i as nat);
            assert(children[i].1 == status_in(scan, id));
        }
    }
    if forall|i: int|
        0 <= i < children.len() ==> ((#[trigger] children[i]).1 is Completed || children[i].1
            is Skipped) {
        assert forall|i: int| 0 <= i < tasks.len() implies ({
            let s = status_in(
                scan,
                #[trigger] child_id(instance.workflow_instance_id, node.node_id, i as nat),
            );
            s is Completed || s is Skipped
        }) by {
            assert(children[i].1 is Completed || children[i].1 is Skipped);
        }
    }
}

/// A task of a fork is started as a workflow exactly if its own template is one.
pub proof fn law_branches_start_as_what_they_are(template: ForkJoinTemplateView, i: int)
    requires
        0 <= i < template.tasks.len(),
    ensures
        fork_plan(template).workflows[i] <==> template.tasks[i].task_template is SubWorkflow,
        fork_plan(template).keys[i] == template.tasks[i].task_key,
        fork_plan(template).keys.len() == template.tasks.len(),
        fork_plan(template).workflows.len() == template.tasks.len(),
        fork_plan(template).concurrency == template.concurrency,
        fork_plan(template).mode == template.mode,
        fork_plan(template).max_failures == template.max_failures,
{
}

/// When a fork starts children on a run, its input tells the keys of its tasks in their order, and
/// how it was set up.
pub proof fn law_a_fork_input_tells_the_set_up(template: ForkJoinTemplateView, i: int)
    requires
        0 <= i < template.tasks.len(),
    ensures
        ({
            let input = fork_input(template);
            &&& input.field("task_keys"@) matches Some(JsonView::Array(keys))
            &&& keys.len() == template.tasks.len()
            &&& keys[i] == JsonView::Str(template.tasks[i].task_key)
            &&& input.field("concurrency"@) == Some(number(template.concurrency as u64))
            &&& input.field("mode"@) == Some(JsonView::Str(template.mode.label()))
            &&& match template.max_failures {
                Some(n) => input.field("max_failures"@) == Some(number(n as u64)),
                None => input.field("max_failures"@) == Some(JsonView::Null),
            }
        }),
{
    reveal_strlit("task_keys");
    reveal_strlit("concurrency");
    reveal_strlit("mode");
    reveal_strlit("max_failures");
    assert("task_keys"@.len() == 9 && "concurrency"@.len() == 11);
    assert("mode"@.len() == 4 && "max_failures"@.len() == 12);
}

/// A fork that fails says how many of its tasks did.
pub proof fn law_a_failed_fork_counts_its_failures(
    node: NodeView,
    instance: InstanceView,
    scan: Map<Seq<char>, ChildView>,
    recheck: Map<Seq<char>, ChildView>,
    writes_input: bool,
)
    requires
        node.task_instance.task_template is ForkJoin,
        0 < node.task_instance.task_template->ForkJoin_0.tasks.len() <= usize::MAX,
    ensures
        ({
            let tasks = node.task_instance.task_template->ForkJoin_0.tasks;
            let failed = Seq::new(
                tasks.len(),
                |i: int|
                    (
                        tasks[i].task_key,
                        status_in(
                            scan,
                            child_id(instance.workflow_instance_id, node.node_id, i as nat),
                        ),
                    ),
            ).filter(|c: (Seq<char>, ChildView)| c.1 is Failed).len();
            &&& fork_step(node, instance, scan, recheck, writes_input) matches Ok((after, outcome))
            &&& outcome.status is Failed ==> after.error_message == Some(
                "ForkJoin aborted: "@ + crate::text::decimal(failed) + " failures out of "@
                    + crate::text::decimal(tasks.len()) + " tasks"@,
            )
        }),
{
    let template = node.task_instance.task_template->ForkJoin_0;
    let tasks = template.tasks;
    let place = place_of(instance.workflow_instance_id, instance.tenant_id, node);
    let plan = fork_plan(template);
    let children = crate::plugin::container::children_of(place, plan.keys, scan);
    crate::plugin::interface::law_counts_count_the_children(children);
    assert(children =~= Seq::new(
        tasks.len(),
        |i: int|
            (
                tasks[i].task_key,
                status_in(scan, child_id(instance.workflow_instance_id, node.node_id, i as nat)),
            ),
    ));
}

} // verus!
