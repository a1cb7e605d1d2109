//! Parallel nodes: one child per item of a list that the context holds.

use crate::codec::json_at;
use crate::entity::{InstanceView, NodeView, WorkflowInstanceEntity, WorkflowNodeInstanceEntity};
use crate::json::{
    items_model, json_number, json_text, lemma_items_model, number, put_str, Json, JsonView,
};
use crate::plugin::container::{
    build_child_jobs, child_task_job, child_task_jobs, child_workflow_jobs, container_step, place_of,
    run_container, ContainerPlan, PlaceView, PlanView,
};
use crate::plugin::interface::{
    child_id, just, make_child_id, status_in, tells, ChildTable, ChildView, ExecutionResult,
    ExecutionView,
};
use crate::shared::{
    task_jobs, workflow_jobs, ExecuteTaskJob, ExecuteWorkflowJob, NodeExecutionStatus, TaskType,
};
use crate::template::{ParallelTemplate, ParallelTemplateView, TaskTemplate, TaskTemplateView};
use crate::text::{concat2, concat3, owned, replace_char, replaced, strip_prefix, stripped};
use vstd::prelude::*;

verus! {

/// The plugin of parallel nodes.
pub struct ParallelPlugin {}

/// The JSON pointer of a path to a list: a path with a leading slash is one, in any other the dots
/// are the separators.
pub open spec fn items_pointer(items_path: Seq<char>) -> Seq<char> {
    if stripped(items_path, "/"@) is Some {
        items_path
    } else {
        "/"@ + replaced(items_path, '.', "/"@)
    }
}

/// What a path leads to: in the context of the instance, else in that of the node.
pub open spec fn items_value(
    items_path: Seq<char>,
    instance_context: JsonView,
    node_context: JsonView,
) -> Option<JsonView> {
    match json_at(instance_context, items_pointer(items_path)) {
        Some(v) => Some(v),
        None => json_at(node_context, items_pointer(items_path)),
    }
}

/// The list that was found, or the error that there was none.
pub open spec fn items_or_error(found: Option<JsonView>, items_path: Seq<char>) -> Result<
    Seq<JsonView>,
    Seq<char>,
> {
    match found {
        Some(JsonView::Array(items)) => Ok(items),
        _ => Err("Items path '"@ + items_path + "' did not resolve to a JSON array"@),
    }
}

/// The plan of a parallel node over so many items: each child is recorded under its own id.
pub open spec fn parallel_plan(template: ParallelTemplateView, place: PlaceView, total: nat) -> PlanView {
    PlanView {
        keys: Seq::new(
            total,
            |i: int| child_id(place.workflow_instance_id, place.node_id, i as nat),
        ),
        workflows: Seq::new(total, |i: int| *template.task_template is SubWorkflow),
        concurrency: template.concurrency,
        mode: template.mode,
        max_failures: template.max_failures,
        total_label: "total_items"@,
        abort_prefix: "Parallel aborted: "@,
        abort_suffix: " items"@,
    }
}

/// The limit on failures as JSON has it.
pub open spec fn limit_json(max_failures: Option<u32>) -> JsonView {
    match max_failures {
        Some(n) => number(n as u64),
        None => JsonView::Null,
    }
}

/// The limit on failures as JSON has it.
pub(crate) fn json_limit(max_failures: Option<u32>) -> (r: Json)
    ensures
        r@ == limit_json(max_failures),
{
    match max_failures {
        Some(n) => json_number(n as u64),
        None => Json::Null,
    }
}

/// What a parallel node writes as its input when it starts children.
pub open spec fn parallel_input(template: ParallelTemplateView) -> JsonView {
    JsonView::Object(
        map!["items_path"@ => JsonView::Str(template.items_path), "item_alias"@ => JsonView::Str(template.item_alias), "concurrency"@ => number(template.concurrency as u64), "mode"@ => JsonView::Str(template.mode.label()), "max_failures"@ => limit_json(template.max_failures)],
    )
}

/// What running a parallel node, or a callback to it, comes to: an error if the node holds no
/// parallel template or its path leads to no list; success at once for an empty list; else a step
/// of the container over the list. Only a run writes the node's input.
pub open spec fn parallel_step(
    node: NodeView,
    instance: InstanceView,
    scan: Map<Seq<char>, ChildView>,
    recheck: Map<Seq<char>, ChildView>,
    writes_input: bool,
) -> Result<(NodeView, ExecutionView), Seq<char>> {
    match node.task_instance.task_template {
        TaskTemplateView::Parallel(template) => match items_or_error(
            items_value(template.items_path, instance.context, node.context),
            template.items_path,
        ) {
            Err(e) => Err(e),
            Ok(items) => if items.len() == 0 {
                Ok((node, just(NodeExecutionStatus::Success)))
            } else {
                let place = place_of(instance.workflow_instance_id, instance.tenant_id, node);
                Ok(
                    container_step(
                        parallel_plan(template, place, items.len()),
                        place,
                        node,
                        scan,
                        recheck,
                        if writes_input {
                            Some(parallel_input(template))
                        } else {
                            None
                        },
                    ),
                )
            },
        },
        _ => Err("Invalid task template for ParallelPlugin"@),
    }
}

/// The list that was found, or the error that there was none.
pub fn items_from(found: Option<Json>, items_path: &str) -> (r: Result<Vec<Json>, String>)
    ensures
        match r {
            Ok(v) => items_or_error(crate::json::opt_json(found), items_path@) == Ok::<
                Seq<JsonView>,
                Seq<char>,
            >(items_model(v@)),
            Err(e) => items_or_error(crate::json::opt_json(found), items_path@) == Err::<
                Seq<JsonView>,
                Seq<char>,
            >(e@),
        },
{
    match found {
        Some(Json::Array(items)) => Ok(items),
        _ => Err(concat3("Items path '", items_path, "' did not resolve to a JSON array")),
    }
}

impl ParallelPlugin {
    pub fn new() -> (r: Self) {
        ParallelPlugin {  }
    }

    /// The kind of node that this plugin runs.
    pub fn plugin_type(&self) -> (r: TaskType)
        ensures
            r is Parallel,
    {
        TaskType::Parallel
    }

    /// The list that the template's path leads to.
    pub fn resolve_items(
        template: &ParallelTemplate,
        node_instance: &WorkflowNodeInstanceEntity,
        workflow_instance: &WorkflowInstanceEntity,
    ) -> (r: Result<Vec<Json>, String>)
        ensures
            match r {
                Ok(v) => items_or_error(
                    items_value(
                        template.items_path@,
                        workflow_instance@.context,
                        node_instance@.context,
                    ),
                    template.items_path@,
                ) == Ok::<Seq<JsonView>, Seq<char>>(items_model(v@)),
                Err(e) => items_or_error(
                    items_value(
                        template.items_path@,
                        workflow_instance@.context,
                        node_instance@.context,
                    ),
                    template.items_path@,
                ) == Err::<Seq<JsonView>, Seq<char>>(e@),
            },
    {
        let path = match strip_prefix(template.items_path.as_str(), "/") {
            Some(_) => template.items_path.clone(),
            None => concat2("/", replace_char(template.items_path.as_str(), '.', "/").as_str()),
        };
        let found = match workflow_instance.context.at(path.as_str()) {
            Some(v) => Some(v),
            None => node_instance.context.at(path.as_str()),
        };
        items_from(found, template.items_path.as_str())
    }

    /// The jobs that start the children at the given places.
    pub fn build_dispatch_jobs(
        inner_template: &TaskTemplate,
        workflow_instance: &WorkflowInstanceEntity,
        node_instance: &WorkflowNodeInstanceEntity,
        indices: &Vec<usize>,
    ) -> (r: (Vec<ExecuteTaskJob>, Vec<ExecuteWorkflowJob>))
        ensures
            task_jobs(r.0@) == child_task_jobs(
                place_of(
                    workflow_instance@.workflow_instance_id,
                    workflow_instance@.tenant_id,
                    node_instance@,
                ),
                Seq::new(indices@.len(), |k: int| inner_template@ is SubWorkflow),
                indices@,
            ),
            workflow_jobs(r.1@) == child_workflow_jobs(
                place_of(
                    workflow_instance@.workflow_instance_id,
                    workflow_instance@.tenant_id,
                    node_instance@,
                ),
                Seq::new(indices@.len(), |k: int| inner_template@ is SubWorkflow),
                indices@,
            ),
    {
        let is_workflow = matches!(inner_template, TaskTemplate::SubWorkflow(_));
        let flags = repeat_flag(is_workflow, indices.len());
        assert(flags@ =~= Seq::new(indices@.len(), |k: int| inner_template@ is SubWorkflow));
        build_child_jobs(&flags, workflow_instance, node_instance, indices)
    }

    fn plan_for(
        template: &ParallelTemplate,
        node_instance: &WorkflowNodeInstanceEntity,
        workflow_instance: &WorkflowInstanceEntity,
        total: usize,
    ) -> (r: ContainerPlan)
        ensures
            r@ == parallel_plan(
                ParallelTemplateView {
                    items_path: template.items_path@,
                    item_alias: template.item_alias@,
                    task_template: Box::new(template.task_template@),
                    concurrency: template.concurrency,
                    mode: template.mode,
                    max_failures: template.max_failures,
                },
                place_of(
                    workflow_instance@.workflow_instance_id,
                    workflow_instance@.tenant_id,
                    node_instance@,
                ),
                total as nat,
            ),
            r.keys@.len() == total,
            r.workflows@.len() == total,
    {
        let mut keys: Vec<String> = Vec::new();
        let mut i: usize = 0;
        while i < total
            invariant
                i <= total,
                keys@.len() == i,
                forall|k: int|
                    0 <= k < i ==> #[trigger] keys@[k]@ == child_id(
                        workflow_instance@.workflow_instance_id,
                        node_instance@.node_id,
                        k as nat,
                    ),
            decreases total - i,
        {
            keys.push(
                make_child_id(
                    workflow_instance.workflow_instance_id.as_str(),
                    node_instance.node_id.as_str(),
                    i,
                ),
            );
            i = i + 1;
        }
        let is_workflow = matches!(&*template.task_template, TaskTemplate::SubWorkflow(_));
        let r = ContainerPlan {
            keys,
            workflows: repeat_flag(is_workflow, total),
            concurrency: template.concurrency,
            mode: template.mode,
            max_failures: template.max_failures,
            total_label: "total_items",
            abort_prefix: "Parallel aborted: ",
            abort_suffix: " items",
        };
        proof {
            let want = Seq::new(
                total as nat,
                |i: int|
                    child_id(
                        workflow_instance@.workflow_instance_id,
                        node_instance@.node_id,
                        i as nat,
                    ),
            );
            assert(r@.keys =~= want);
            assert(r@.workflows =~= Seq::new(
                total as nat,
                |i: int| template.task_template@ is SubWorkflow,
            ));
        }
        r
    }

    fn step(
        node_instance: &mut WorkflowNodeInstanceEntity,
        workflow_instance: &WorkflowInstanceEntity,
        scan: &ChildTable,
        recheck: &ChildTable,
        writes_input: bool,
    ) -> (r: Result<ExecutionResult, String>)
        ensures
            match r {
                Ok(x) => parallel_step(
                    old(node_instance)@,
                    workflow_instance@,
                    scan@,
                    recheck@,
                    writes_input,
                ) == Ok::<(NodeView, ExecutionView), Seq<char>>((final(node_instance)@, x@)),
                Err(e) => parallel_step(
                    old(node_instance)@,
                    workflow_instance@,
                    scan@,
                    recheck@,
                    writes_input,
                ) == Err::<(NodeView, ExecutionView), Seq<char>>(e@) && final(node_instance)@
                    == old(node_instance)@,
            },
    {
        let template = match &node_instance.task_instance.task_template {
            TaskTemplate::Parallel(t) => t,
            _ => {
                return Err(owned("Invalid task template for ParallelPlugin"));
            },
        };
        let items = match ParallelPlugin::resolve_items(template, node_instance, workflow_instance) {
            Ok(v) => v,
            Err(e) => {
                return Err(e);
            },
        };
        proof {
            lemma_items_model(items@);
        }
        if items.len() == 0 {
            return Ok(ExecutionResult::success(None));
        }
        let plan = ParallelPlugin::plan_for(
            template,
            node_instance,
            workflow_instance,
            items.len(),
        );
        let input = if writes_input {
            let mut e: Vec<(String, Json)> = Vec::new();
            put_str(&mut e, "items_path", Json::Str(template.items_path.clone()));
            put_str(&mut e, "item_alias", Json::Str(template.item_alias.clone()));
            put_str(&mut e, "concurrency", json_number(template.concurrency as u64));
            put_str(&mut e, "mode", json_text(template.mode.name()));
            put_str(&mut e, "max_failures", json_limit(template.max_failures));
            Some(Json::Object(e))
        } else {
            None
        };
        Ok(run_container(&plan, node_instance, workflow_instance, scan, recheck, input))
    }

    /// Runs a parallel node. `scan` is a look at all its children, `recheck` a second look that is
    /// taken before children are started.
    pub fn execute(
        &self,
        node_instance: &mut WorkflowNodeInstanceEntity,
        workflow_instance: &WorkflowInstanceEntity,
        scan: &ChildTable,
        recheck: &ChildTable,
    ) -> (r: Result<ExecutionResult, String>)
        ensures
            match r {
                Ok(x) => parallel_step(
                    old(node_instance)@,
                    workflow_instance@,
                    scan@,
                    recheck@,
                    true,
                ) == Ok::<(NodeView, ExecutionView), Seq<char>>((final(node_instance)@, x@)),
                Err(e) => parallel_step(
                    old(node_instance)@,
                    workflow_instance@,
                    scan@,
                    recheck@,
                    true,
                ) == Err::<(NodeView, ExecutionView), Seq<char>>(e@) && final(node_instance)@
                    == old(node_instance)@,
            },
    {
        ParallelPlugin::step(node_instance, workflow_instance, scan, recheck, true)
    }

    /// Takes a callback of a child. The callback only wakes the node up: what it does depends on
    /// the children's statuses alone.
    pub fn handle_callback(
        &self,
        node_instance: &mut WorkflowNodeInstanceEntity,
        workflow_instance: &WorkflowInstanceEntity,
        scan: &ChildTable,
        recheck: &ChildTable,
    ) -> (r: Result<ExecutionResult, String>)
        ensures
            match r {
                Ok(x) => parallel_step(
                    old(node_instance)@,
                    workflow_instance@,
                    scan@,
                    recheck@,
                    false,
                ) == Ok::<(NodeView, ExecutionView), Seq<char>>((final(node_instance)@, x@)),
                Err(e) => parallel_step(
                    old(node_instance)@,
                    workflow_instance@,
                    scan@,
                    recheck@,
                    false,
                ) == Err::<(NodeView, ExecutionView), Seq<char>>(e@) && final(node_instance)@
                    == old(node_instance)@,
            },
    {
        ParallelPlugin::step(node_instance, workflow_instance, scan, recheck, false)
    }
}

impl Default for ParallelPlugin {
    fn default() -> (r: Self) {
        ParallelPlugin::new()
    }
}

/// A list of `n` equal flags.
fn repeat_flag(flag: bool, n: usize) -> (r: Vec<bool>)
    ensures
        r@ == Seq::new(n as nat, |i: int| flag),
{
    let mut out: Vec<bool> = Vec::new();
    let mut i: usize = 0;
    while i < n
        invariant
            i <= n,
            out@.len() == i,
            forall|k: int| 0 <= k < i ==> #[trigger] out@[k] == flag,
        decreases n - i,
    {
        out.push(flag);
        i = i + 1;
    }
    assert(out@ =~= Seq::new(n as nat, |i: int| flag));
    out
}

/// A parallel node hands on what every item came to: whatever a step decides, the node's output has,
/// under the identifier of the child for each item, what storage has of that child.
pub proof fn law_a_parallel_node_tells_every_item(
    node: NodeView,
    instance: InstanceView,
    scan: Map<Seq<char>, ChildView>,
    recheck: Map<Seq<char>, ChildView>,
    writes_input: bool,
    items: Seq<JsonView>,
    i: usize,
)
    requires
        node.task_instance.task_template is Parallel,
        items_value(
            node.task_instance.task_template->Parallel_0.items_path,
            instance.context,
            node.context,
        ) == Some(JsonView::Array(items)),
        i < items.len() <= usize::MAX,
    ensures
        ({
            let place = place_of(instance.workflow_instance_id, instance.tenant_id, node);
            let id = child_task_job(place, i).task_instance_id;
            &&& parallel_step(node, instance, scan, recheck, writes_input) matches Ok((after, _))
            &&& after.task_instance.output matches Some(output)
            &&& output.field("total_items"@) == Some(number(items.len() as u64))
            &&& output.field("results"@) matches Some(results)
            &&& results.field(id) matches Some(of_child)
            &&& scan.contains_key(id) ==> tells(of_child, scan[id])
            &&& !scan.contains_key(id) ==> of_child == JsonView::Null
        }),
{
    let template = node.task_instance.task_template->Parallel_0;
    let place = place_of(instance.workflow_instance_id, instance.tenant_id, node);
    let plan = parallel_plan(template, place, items.len());
    assert forall|a: int, b: int| 0 <= a < b < plan.keys.len() implies #[trigger] plan.keys[a]
        != #[trigger] plan.keys[b] by {
        crate::plugin::interface::law_child_ids_tell_children_apart(
            place.workflow_instance_id,
            place.node_id,
            a as nat,
            b as nat,
        );
    }
    crate::plugin::container::law_a_step_writes_what_the_children_came_to(
        plan,
        place,
        node,
        scan,
        recheck,
        if writes_input {
            Some(parallel_input(template))
        } else {
            None
        },
        i,
    );
}

/// A parallel node succeeds at once over an empty list; over any other it succeeds exactly when each
/// item's child has completed or was skipped. Where its path leads to no list it is refused.
pub proof fn law_a_parallel_node_ends_with_its_items(
    node: NodeView,
    instance: InstanceView,
    scan: Map<Seq<char>, ChildView>,
    recheck: Map<Seq<char>, ChildView>,
    writes_input: bool,
    found: Option<JsonView>,
)
    requires
        node.task_instance.task_template is Parallel,
        items_value(
            node.task_instance.task_template->Parallel_0.items_path,
            instance.context,
            node.context,
        ) == found,
        found matches Some(JsonView::Array(items)) ==> items.len() <= usize::MAX,
    ensures
        parallel_step(node, instance, scan, recheck, writes_input) is Err <==> !(found matches Some(
            JsonView::Array(_),
        )),
        found matches Some(JsonView::Array(items)) ==> {
            let place = place_of(instance.workflow_instance_id, instance.tenant_id, node);
            &&& parallel_step(node, instance, scan, recheck, writes_input) matches Ok(
                (_, outcome),
            )
            &&& outcome.status is Success <==> forall|i: int|
                0 <= i < items.len() ==> ({
                    let s = status_in(
                        scan,
                        #[trigger] child_id(instance.workflow_instance_id, node.node_id, i as nat),
                    );
                    s is Completed || s is Skipped
                })
        },
{
    if let Some(JsonView::Array(items)) = found {
        let template = node.task_instance.task_template->Parallel_0;
        let place = place_of(instance.workflow_instance_id, instance.tenant_id, node);
        let plan = parallel_plan(template, place, items.len());
        let children = crate::plugin::container::children_of(place, plan.keys, scan);
        crate::plugin::container::law_a_step_ends_as_its_children_did(
            plan,
            place,
            node,
            scan,
            recheck,
            if writes_input {
                Some(parallel_input(template))
            } else {
                None
            },
        );
        assert forall|i: int| 0 <= i < items.len() implies (#[trigger] children[i]).1 == status_in(
            scan,
            child_id(instance.workflow_instance_id, node.node_id, i as nat),
        ) by {}
        if forall|i: int|
            0 <= i < items.len() ==> ({
                let s = status_in(
                    scan,
                    #[trigger] child_id(instance.workflow_instance_id, node.node_id, i as nat),
                );
                s is Completed || s is Skipped
            }) {
            assert forall|i: int| 0 <= i < children.len() implies ((#[trigger] children[i]).1
                is Completed || children[i].1 is Skipped) by {
                let id = child_id(instance.workflow_instance_id, node.node_id, i as nat);
                assert(children[i].1 == status_in(scan, id));
            }
        }
        if forall|i: int|
            0 <= i < children.len() ==> ((#[trigger] children[i]).1 is Completed || children[i].1
                is Skipped) {
            assert forall|i: int| 0 <= i < items.len() implies ({
                let s = status_in(
                    scan,
                    #[trigger] child_id(instance.workflow_instance_id, node.node_id, i as nat),
                );
                s is Completed || s is Skipped
            }) by {
                assert(children[i].1 is Completed || children[i].1 is Skipped);
            }
        }
    }
}

/// A path with dots is the pointer that has a slash for every dot and one in front; a path that
/// starts with a slash is the pointer itself.
pub proof fn law_dotted_paths_are_pointers(path: Seq<char>)
    ensures
        path.len() > 0 && path[0] == '/' ==> items_pointer(path) == path,
        !(path.len() > 0 && path[0] == '/') ==> {
            let pointer = items_pointer(path);
            &&& pointer.len() == path.len() + 1
            &&& pointer[0] == '/'
            &&& forall|i: int|
                0 <= i < path.len() ==> #[trigger] pointer[i + 1] == (if path[i] == '.' {
                    '/'
                } else {
                    path[i]
                })
        },
{
    reveal_strlit("/");
    assert("/"@ =~= seq!['/']);
    crate::text::law_replacing_a_character(path, '.', '/');
    if path.len() > 0 && path[0] == '/' {
        assert("/"@.is_prefix_of(path));
    }
    if !(path.len() > 0 && path[0] == '/') {
        let pointer = items_pointer(path);
        let inner = replaced(path, '.', "/"@);
        assert(!"/"@.is_prefix_of(path)) by {
            if "/"@.is_prefix_of(path) {
                assert(path[0] == "/"@[0]);
            }
        }
        assert(pointer == "/"@ + inner);
        assert forall|i: int| 0 <= i < path.len() implies #[trigger] pointer[i + 1] == (if path[i]
            == '.' {
            '/'
        } else {
            path[i]
        }) by {
            assert(pointer[i + 1] == inner[i]);
        }
    }
}

/// A list in the instance's context counts before one in the node's.
pub proof fn law_the_instances_list_comes_first(
    path: Seq<char>,
    instance_context: JsonView,
    node_context: JsonView,
)
    ensures
        json_at(instance_context, items_pointer(path)) is Some ==> items_value(
            path,
            instance_context,
            node_context,
        ) == json_at(instance_context, items_pointer(path)),
        json_at(instance_context, items_pointer(path)) is None ==> items_value(
            path,
            instance_context,
            node_context,
        ) == json_at(node_context, items_pointer(path)),
{
}

/// When a parallel node starts children on a run, its input tells how it was set up; a callback
/// leaves the input as it is.
pub proof fn law_a_parallel_input_tells_the_set_up(template: ParallelTemplateView)
    ensures
        ({
            let input = parallel_input(template);
            &&& input.field("items_path"@) == Some(JsonView::Str(template.items_path))
            &&& input.field("item_alias"@) == Some(JsonView::Str(template.item_alias))
            &&& input.field("concurrency"@) == Some(number(template.concurrency as u64))
            &&& input.field("mode"@) == Some(JsonView::Str(template.mode.label()))
            &&& match template.max_failures {
                Some(n) => input.field("max_failures"@) == Some(number(n as u64)),
                None => input.field("max_failures"@) == Some(JsonView::Null),
            }
        }),
{
    reveal_strlit("items_path");
    reveal_strlit("item_alias");
    reveal_strlit("concurrency");
    reveal_strlit("mode");
    reveal_strlit("max_failures");
    assert("items_path"@.len() == 10 && "item_alias"@.len() == 10);
    assert("items_path"@[4] == 's' && "item_alias"@[4] == '_');
    assert("concurrency"@.len() == 11 && "mode"@.len() == 4 && "max_failures"@.len() == 12);
}

/// Every item of a parallel node gets a child of its own, which is a workflow exactly if the inner
/// template is one; the node's own limits hold.
pub proof fn law_a_parallel_plan_has_a_child_per_item(
    template: ParallelTemplateView,
    place: PlaceView,
    total: nat,
    i: usize,
)
    requires
        i < total,
    ensures
        ({
            let plan = parallel_plan(template, place, total);
            &&& plan.keys.len() == total
            &&& plan.workflows.len() == total
            &&& plan.keys[i as int] == child_task_job(place, i).task_instance_id
            &&& plan.workflows[i as int] <==> *template.task_template is SubWorkflow
            &&& plan.concurrency == template.concurrency
            &&& plan.mode == template.mode
            &&& plan.max_failures == template.max_failures
        }),
{
}

/// A parallel node that fails says how many of its items did.
pub proof fn law_a_failed_parallel_node_counts_its_failures(
    node: NodeView,
    instance: InstanceView,
    scan: Map<Seq<char>, ChildView>,
    recheck: Map<Seq<char>, ChildView>,
    writes_input: bool,
    items: Seq<JsonView>,
)
    requires
        node.task_instance.task_template is Parallel,
        items_value(
            node.task_instance.task_template->Parallel_0.items_path,
            instance.context,
            node.context,
        ) == Some(JsonView::Array(items)),
        0 < items.len() <= usize::MAX,
    ensures
        ({
            let place = place_of(instance.workflow_instance_id, instance.tenant_id, node);
            let failed = Seq::new(
                items.len(),
                |i: int|
                    (
                        child_id(instance.workflow_instance_id, node.node_id, i as nat),
                        status_in(
                            scan,
                            child_id(instance.workflow_instance_id, node.node_id, i as nat),
                        ),
                    ),
            ).filter(|c: (Seq<char>, ChildView)| c.1 is Failed).len();
            &&& parallel_step(node, instance, scan, recheck, writes_input) matches Ok(
                (after, outcome),
            )
            &&& outcome.status is Failed ==> after.error_message == Some(
                "Parallel aborted: "@ + crate::text::decimal(failed) + " failures out of "@
                    + crate::text::decimal(items.len()) + " items"@,
            )
        }),
{
    let template = node.task_instance.task_template->Parallel_0;
    let place = place_of(instance.workflow_instance_id, instance.tenant_id, node);
    let plan = parallel_plan(template, place, items.len());
    let children = crate::plugin::container::children_of(place, plan.keys, scan);
    crate::plugin::interface::law_counts_count_the_children(children);
    assert(children =~= Seq::new(
        items.len(),
        |i: int|
            (
                child_id(instance.workflow_instance_id, node.node_id, i as nat),
                status_in(scan, child_id(instance.workflow_instance_id, node.node_id, i as nat)),
            ),
    ));
}

/// A path that leads to no list is told.
pub proof fn law_a_path_without_a_list_is_told(found: Option<JsonView>, path: Seq<char>)
    ensures
        match found {
            Some(JsonView::Array(items)) => items_or_error(found, path) == Ok::<
                Seq<JsonView>,
                Seq<char>,
            >(items),
            _ => items_or_error(found, path) == Err::<Seq<JsonView>, Seq<char>>(
                "Items path '"@ + path + "' did not resolve to a JSON array"@,
            ),
        },
{
}

} // verus!
