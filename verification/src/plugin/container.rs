//! Containers: nodes that run several children and end when the children have ended. Every step
//! looks at all the children anew; a callback only wakes the container up.

use crate::entity::{NodeView, TaskView, WorkflowInstanceEntity, WorkflowNodeInstanceEntity};
use crate::json::{
    entries_model, field_of, json_number, number, opt_json, put_str, unsigned_of, Json, JsonView,
};
use crate::plugin::interface::{
    awaiting, child_id, decision, diagnose, gathered, just, law_every_child_is_counted_once,
    looked_at, make_child_id, status_in, tells, ChildStatus, ChildTable, ChildView,
    ContainerDecision, ContainerGatherResult, ContainerOutcome, ExecutionResult, ExecutionView,
};
use crate::shared::{
    start_job, task_jobs, workflow_jobs, CallerView, ExecuteTaskJob, ExecuteWorkflowJob,
    NodeExecutionStatus, TaskJobView, WorkflowCallerContext, WorkflowEvent, WorkflowJobView,
};
use crate::template::ParallelMode;
use crate::text::{decimal, decimal_text, owned, texts};
use vstd::prelude::*;

verus! {

/// What a container is to do with its children: one key per child, under which its result is
/// recorded, and whether the child is a workflow rather than a task.
pub struct ContainerPlan {
    pub keys: Vec<String>,
    pub workflows: Vec<bool>,
    pub concurrency: u32,
    pub mode: ParallelMode,
    pub max_failures: Option<u32>,
    /// The entry of the output that holds the number of children.
    pub total_label: &'static str,
    /// What stands before the number of failures in the error message.
    pub abort_prefix: &'static str,
    /// What stands after the number of children in the error message.
    pub abort_suffix: &'static str,
}

/// The mathematical value of a [`ContainerPlan`].
pub struct PlanView {
    pub keys: Seq<Seq<char>>,
    pub workflows: Seq<bool>,
    pub concurrency: u32,
    pub mode: ParallelMode,
    pub max_failures: Option<u32>,
    pub total_label: Seq<char>,
    pub abort_prefix: Seq<char>,
    pub abort_suffix: Seq<char>,
}

impl View for ContainerPlan {
    type V = PlanView;

    open spec fn view(&self) -> PlanView {
        PlanView {
            keys: texts(self.keys@),
            workflows: self.workflows@,
            concurrency: self.concurrency,
            mode: self.mode,
            max_failures: self.max_failures,
            total_label: self.total_label@,
            abort_prefix: self.abort_prefix@,
            abort_suffix: self.abort_suffix@,
        }
    }
}

/// Where a container stands: its instance, its tenant and its node.
pub struct PlaceView {
    pub workflow_instance_id: Seq<char>,
    pub tenant_id: Seq<char>,
    pub node_id: Seq<char>,
    pub task_id: Seq<char>,
}

/// Where a node stands.
pub open spec fn place_of(instance_id: Seq<char>, tenant_id: Seq<char>, node: NodeView) -> PlaceView {
    PlaceView {
        workflow_instance_id: instance_id,
        tenant_id,
        node_id: node.node_id,
        task_id: node.task_instance.id,
    }
}

/// The children of a container, each with its key and the status that a look at storage gave.
pub open spec fn children_of(
    place: PlaceView,
    keys: Seq<Seq<char>>,
    table: Map<Seq<char>, ChildView>,
) -> Seq<(Seq<char>, ChildView)> {
    Seq::new(
        keys.len(),
        |i: int|
            (
                keys[i],
                status_in(table, child_id(place.workflow_instance_id, place.node_id, i as nat)),
            ),
    )
}

/// Which children a look at storage did not find.
pub open spec fn missing_children(
    place: PlaceView,
    total: nat,
    table: Map<Seq<char>, ChildView>,
) -> Seq<bool> {
    Seq::new(
        total,
        |i: int|
            status_in(
                table,
                child_id(place.workflow_instance_id, place.node_id, i as nat),
            ) is NotFound,
    )
}

/// How many children may be started now: the free slots, but none while a batch is running.
pub open spec fn room(mode: ParallelMode, concurrency: u32, running: nat) -> nat {
    if mode is Batch && running > 0 {
        0
    } else if concurrency > running {
        (concurrency - running) as nat
    } else {
        0
    }
}

/// The first `room` missing children at or after a place.
pub open spec fn picked(missing: Seq<bool>, from: nat, room: nat) -> Seq<usize>
    decreases missing.len() - from,
{
    if from >= missing.len() || room == 0 {
        seq![]
    } else if missing[from as int] {
        seq![from as usize] + picked(missing, from + 1, (room - 1) as nat)
    } else {
        picked(missing, from + 1, room)
    }
}

/// The children that are picked lie at or after the place, inside the container, in ascending
/// order and without repetition; every one was missing, and there are no more than there is room
/// for.
pub proof fn law_picked_children(missing: Seq<bool>, from: nat, room: nat)
    requires
        missing.len() <= usize::MAX,
    ensures
        picked(missing, from, room).len() <= room,
        forall|k: int|
            0 <= k < picked(missing, from, room).len() ==> from <= #[trigger] picked(
                missing,
                from,
                room,
            )[k] < missing.len() && missing[picked(missing, from, room)[k] as int],
        forall|j: int, k: int|
            0 <= j < k < picked(missing, from, room).len() ==> #[trigger] picked(
                missing,
                from,
                room,
            )[j] < #[trigger] picked(missing, from, room)[k],
    decreases missing.len() - from,
{
    if from >= missing.len() || room == 0 {
    } else if missing[from as int] {
        law_picked_children(missing, from + 1, (room - 1) as nat);
        let rest = picked(missing, from + 1, (room - 1) as nat);
        let all = picked(missing, from, room);
        assert(all =~= seq![from as usize] + rest);
        assert forall|k: int| 0 <= k < all.len() implies from <= #[trigger] all[k] < missing.len()
            && missing[all[k] as int] by {
            if k > 0 {
                assert(all[k] == rest[k - 1]);
            }
        }
        assert forall|j: int, k: int| 0 <= j < k < all.len() implies #[trigger] all[j]
            < #[trigger] all[k] by {
            assert(all[k] == rest[k - 1]);
            if j > 0 {
                assert(all[j] == rest[j - 1]);
            }
        }
    } else {
        law_picked_children(missing, from + 1, room);
    }
}

/// Nothing is left out: if fewer children are picked than there is room for, every missing child
/// at or after the place is among them.
pub proof fn law_picking_is_complete(missing: Seq<bool>, from: nat, room: nat, i: nat)
    requires
        missing.len() <= usize::MAX,
        from <= i < missing.len(),
        missing[i as int],
        picked(missing, from, room).len() < room,
    ensures
        picked(missing, from, room).contains(i as usize),
    decreases missing.len() - from,
{
    if missing[from as int] {
        let rest = picked(missing, from + 1, (room - 1) as nat);
        let all = picked(missing, from, room);
        assert(all =~= seq![from as usize] + rest);
        if i == from {
            assert(all[0] == i as usize);
        } else {
            law_picking_is_complete(missing, from + 1, (room - 1) as nat, i);
            let k = choose|k: int| 0 <= k < rest.len() && rest[k] == i as usize;
            assert(all[k + 1] == i as usize);
        }
    } else {
        law_picking_is_complete(missing, from + 1, room, i);
    }
}

/// Children are started only into free slots: those that run and those that are picked are
/// together no more than the concurrency, unless more were running already.
pub proof fn law_concurrency_is_kept(
    missing: Seq<bool>,
    from: nat,
    mode: ParallelMode,
    concurrency: u32,
    running: nat,
)
    requires
        missing.len() <= usize::MAX,
    ensures
        picked(missing, from, room(mode, concurrency, running)).len() > 0 ==> running + picked(
            missing,
            from,
            room(mode, concurrency, running),
        ).len() <= concurrency,
        mode is Batch && running > 0 ==> picked(
            missing,
            from,
            room(mode, concurrency, running),
        ).len() == 0,
{
    law_picked_children(missing, from, room(mode, concurrency, running));
}

/// The task job of a child.
pub open spec fn child_task_job(place: PlaceView, index: usize) -> TaskJobView {
    TaskJobView {
        task_instance_id: child_id(place.workflow_instance_id, place.node_id, index as nat),
        tenant_id: place.tenant_id,
        caller_context: Some(
            CallerView {
                workflow_instance_id: place.workflow_instance_id,
                node_id: place.node_id,
                parent_task_instance_id: Some(place.task_id),
                item_index: Some(index),
            },
        ),
    }
}

/// The task jobs of the picked children that are tasks, in their order. The flags tell, for each
/// picked child, whether it is a workflow.
pub open spec fn child_task_jobs(
    place: PlaceView,
    flags: Seq<bool>,
    indices: Seq<usize>,
) -> Seq<TaskJobView>
    decreases indices.len(),
{
    if indices.len() == 0 {
        seq![]
    } else {
        let front = child_task_jobs(place, flags, indices.drop_last());
        if flags[indices.len() - 1] {
            front
        } else {
            front.push(child_task_job(place, indices.last()))
        }
    }
}

/// The start jobs of the picked children that are workflows, in their order.
pub open spec fn child_workflow_jobs(
    place: PlaceView,
    flags: Seq<bool>,
    indices: Seq<usize>,
) -> Seq<WorkflowJobView>
    decreases indices.len(),
{
    if indices.len() == 0 {
        seq![]
    } else {
        let front = child_workflow_jobs(place, flags, indices.drop_last());
        if flags[indices.len() - 1] {
            front.push(
                start_job(
                    child_id(
                        place.workflow_instance_id,
                        place.node_id,
                        indices.last() as nat,
                    ),
                    place.tenant_id,
                ),
            )
        } else {
            front
        }
    }
}

/// Every picked child gets exactly one job.
pub proof fn law_one_job_per_picked_child(place: PlaceView, flags: Seq<bool>, indices: Seq<usize>)
    ensures
        child_task_jobs(place, flags, indices).len() + child_workflow_jobs(
            place,
            flags,
            indices,
        ).len() == indices.len(),
    decreases indices.len(),
{
    if indices.len() > 0 {
        law_one_job_per_picked_child(place, flags, indices.drop_last());
    }
}

/// The flags of the picked children, from those of all children.
pub open spec fn flags_of(workflows: Seq<bool>, indices: Seq<usize>) -> Seq<bool> {
    Seq::new(indices.len(), |k: int| workflows[indices[k] as int])
}

/// The output that a container writes.
pub open spec fn container_output(
    total_label: Seq<char>,
    total: u64,
    dispatched: u64,
    results: Map<Seq<char>, JsonView>,
) -> JsonView {
    JsonView::Object(
        map![total_label => number(total), "dispatched_count"@ => number(dispatched), "results"@ => JsonView::Object(results)],
    )
}

/// The message of a container that gives up.
pub open spec fn abort_message(plan: PlanView, failed: nat, total: nat) -> Seq<char> {
    plan.abort_prefix + decimal(failed) + " failures out of "@ + decimal(total) + plan.abort_suffix
}

/// How many children a container has handed out so far, by its output.
pub open spec fn dispatched_so_far(node: NodeView) -> u64 {
    match unsigned_of(field_of(node.task_instance.output, "dispatched_count"@)) {
        Some(n) => n,
        None => 0,
    }
}

/// How many children a container has handed out after it has handed out these.
pub open spec fn dispatched_after(so_far: u64, indices: Seq<usize>) -> u64 {
    if indices.len() > 0 && indices.last() + 1 > so_far {
        (indices.last() + 1) as u64
    } else {
        so_far
    }
}

/// A node with a new output.
pub open spec fn with_output(node: NodeView, output: JsonView) -> NodeView {
    NodeView {
        task_instance: TaskView { output: Some(output), ..node.task_instance },
        ..node
    }
}

/// A node with a new input, if there is one to write.
pub open spec fn with_input(node: NodeView, input: Option<JsonView>) -> NodeView {
    match input {
        Some(j) => NodeView {
            task_instance: TaskView { input: Some(j), ..node.task_instance },
            ..node
        },
        None => node,
    }
}

/// The children that a container starts in a step.
pub open spec fn started_children(
    plan: PlanView,
    place: PlaceView,
    node: NodeView,
    scan: Map<Seq<char>, ChildView>,
    recheck: Map<Seq<char>, ChildView>,
) -> Seq<usize> {
    picked(
        missing_children(place, plan.keys.len(), recheck),
        dispatched_so_far(node) as nat,
        room(
            plan.mode,
            plan.concurrency,
            gathered(children_of(place, plan.keys, scan)).running_count,
        ),
    )
}

/// One step of a container: the node as it is left, and what the step came to. `scan` is a look
/// at all children; `recheck` is a second look, taken before children are started. `input` is
/// written onto the node when children are started.
pub open spec fn container_step(
    plan: PlanView,
    place: PlaceView,
    node: NodeView,
    scan: Map<Seq<char>, ChildView>,
    recheck: Map<Seq<char>, ChildView>,
    input: Option<JsonView>,
) -> (NodeView, ExecutionView) {
    let total = plan.keys.len();
    let g = gathered(children_of(place, plan.keys, scan));
    let all_out = container_output(plan.total_label, total as u64, total as u64, g.results);
    match decision(total, plan.max_failures, g) {
        ContainerDecision::AllDone(ContainerOutcome::Success) => (
            with_output(node, all_out),
            just(NodeExecutionStatus::Success),
        ),
        ContainerDecision::AllDispatched => (with_output(node, all_out), awaiting(seq![], seq![])),
        ContainerDecision::NeedDispatch => {
            let indices = started_children(plan, place, node, scan, recheck);
            (
                with_output(
                    with_input(node, input),
                    container_output(
                        plan.total_label,
                        total as u64,
                        dispatched_after(dispatched_so_far(node), indices),
                        g.results,
                    ),
                ),
                awaiting(
                    child_task_jobs(place, flags_of(plan.workflows, indices), indices),
                    child_workflow_jobs(place, flags_of(plan.workflows, indices), indices),
                ),
            )
        },
        _ => (
            NodeView {
                error_message: Some(abort_message(plan, g.failed_count, total)),
                ..with_output(node, all_out)
            },
            just(NodeExecutionStatus::Failed),
        ),
    }
}

/// What a container has handed out never shrinks, and grows to the last child it started.
pub proof fn law_dispatched_never_shrinks(so_far: u64, indices: Seq<usize>)
    requires
        forall|k: int| 0 <= k < indices.len() ==> #[trigger] indices[k] < u64::MAX,
    ensures
        dispatched_after(so_far, indices) >= so_far,
        indices.len() > 0 ==> dispatched_after(so_far, indices) > indices.last(),
{
}

/// A step starts a child only if the second look did not find it, and starts no child twice.
pub proof fn law_only_missing_children_are_started(
    plan: PlanView,
    place: PlaceView,
    node: NodeView,
    scan: Map<Seq<char>, ChildView>,
    recheck: Map<Seq<char>, ChildView>,
)
    requires
        plan.keys.len() <= usize::MAX,
    ensures
        ({
            let started = started_children(plan, place, node, scan, recheck);
            &&& forall|k: int|
                0 <= k < started.len() ==> #[trigger] started[k] < plan.keys.len() && status_in(
                    recheck,
                    child_id(place.workflow_instance_id, place.node_id, started[k] as nat),
                ) is NotFound
            &&& forall|j: int, k: int|
                0 <= j < k < started.len() ==> #[trigger] started[j] != #[trigger] started[k]
        }),
{
    law_picked_children(
        missing_children(place, plan.keys.len(), recheck),
        dispatched_so_far(node) as nat,
        room(
            plan.mode,
            plan.concurrency,
            gathered(children_of(place, plan.keys, scan)).running_count,
        ),
    );
}

/// Looks at every child and takes it into a gathering.
fn gather_children(keys: &Vec<String>, workflow_instance_id: &str, node_id: &str, scan: &ChildTable) -> (r:
    ContainerGatherResult)
    ensures
        forall|place: PlaceView|
            place.workflow_instance_id == workflow_instance_id@ && place.node_id == node_id@
                ==> r@ == gathered(#[trigger] children_of(place, texts(keys@), scan@)),
        looked_at(r@) == keys@.len(),
{
    let ghost place = PlaceView {
        workflow_instance_id: workflow_instance_id@,
        tenant_id: seq![],
        node_id: node_id@,
        task_id: seq![],
    };
    let ghost children = children_of(place, texts(keys@), scan@);
    let mut result = ContainerGatherResult::default();
    let mut index: usize = 0;
    while index < keys.len()
        invariant
            index <= keys@.len(),
            place.workflow_instance_id == workflow_instance_id@,
            place.node_id == node_id@,
            children == children_of(place, texts(keys@), scan@),
            result@ == gathered(children.take(index as int)),
        decreases keys@.len() - index,
    {
        let id = make_child_id(workflow_instance_id, node_id, index);
        let status = scan.resolve(id.as_str());
        proof {
            law_every_child_is_counted_once(children.take(index as int));
            assert(children.take(index + 1).drop_last() =~= children.take(index as int));
            assert(children.take(index + 1).last() == (keys@[index as int]@, status@));
        }
        result.record(keys[index].clone(), status);
        index = index + 1;
    }
    proof {
        assert(children.take(index as int) =~= children);
        law_every_child_is_counted_once(children);
        assert forall|p: PlaceView|
            p.workflow_instance_id == workflow_instance_id@ && p.node_id == node_id@ implies result@
            == gathered(#[trigger] children_of(p, texts(keys@), scan@)) by {
            assert(children_of(p, texts(keys@), scan@) =~= children);
        }
    }
    result
}

/// The children that are to be started now.
fn calc_dispatch_indices(
    plan: &ContainerPlan,
    workflow_instance_id: &str,
    node_id: &str,
    recheck: &ChildTable,
    dispatched_count: u64,
    running_count: u64,
) -> (r: Vec<usize>)
    ensures
        forall|place: PlaceView|
            place.workflow_instance_id == workflow_instance_id@ && place.node_id == node_id@
                ==> r@ == picked(
                #[trigger] missing_children(place, plan.keys@.len(), recheck@),
                dispatched_count as nat,
                room(plan.mode, plan.concurrency, running_count as nat),
            ),
{
    let total = plan.keys.len();
    let ghost place = PlaceView {
        workflow_instance_id: workflow_instance_id@,
        tenant_id: seq![],
        node_id: node_id@,
        task_id: seq![],
    };
    let ghost missing = missing_children(place, total as nat, recheck@);
    let ghost free = room(plan.mode, plan.concurrency, running_count as nat);
    let mut indices: Vec<usize> = Vec::new();
    let batch_waits = matches!(plan.mode, ParallelMode::Batch) && running_count > 0;
    if plan.concurrency as u64 > running_count && !batch_waits && dispatched_count < total as u64 {
        let slots: u64 = plan.concurrency as u64 - running_count;
        let mut index: usize = dispatched_count as usize;
        assert(indices@ + picked(missing, index as nat, free) =~= picked(
            missing,
            dispatched_count as nat,
            free,
        ));
        while index < total && (indices.len() as u64) < slots
            invariant
                index <= total,
                total == plan.keys@.len(),
                slots == free,
                indices@.len() <= free,
                missing == missing_children(place, total as nat, recheck@),
                place.workflow_instance_id == workflow_instance_id@,
                place.node_id == node_id@,
                indices@ + picked(missing, index as nat, (free - indices@.len()) as nat) == picked(
                    missing,
                    dispatched_count as nat,
                    free,
                ),
            decreases total - index,
        {
            let id = make_child_id(workflow_instance_id, node_id, index);
            let status = recheck.resolve(id.as_str());
            let ghost before = indices@;
            let ghost left = (free - indices@.len()) as nat;
            if matches!(status, ChildStatus::NotFound) {
                indices.push(index);
                proof {
                    assert(missing[index as int]);
                    assert(before + picked(missing, index as nat, left) =~= indices@ + picked(
                        missing,
                        (index + 1) as nat,
                        (left - 1) as nat,
                    ));
                }
            } else {
                assert(!missing[index as int]);
            }
            index = index + 1;
        }
        assert(indices@ + picked(missing, index as nat, (free - indices@.len()) as nat)
            =~= indices@);
    }
    proof {
        assert(indices@ =~= picked(missing, dispatched_count as nat, free));
        assert forall|p: PlaceView|
            p.workflow_instance_id == workflow_instance_id@ && p.node_id == node_id@ implies indices@
            == picked(
            #[trigger] missing_children(p, plan.keys@.len(), recheck@),
            dispatched_count as nat,
            free,
        ) by {
            assert(missing_children(p, plan.keys@.len(), recheck@) =~= missing);
        }
    }
    indices
}

/// The jobs that start the picked children: task jobs for tasks, start jobs for workflows.
pub fn build_child_jobs(
    flags: &Vec<bool>,
    workflow_instance: &WorkflowInstanceEntity,
    node_instance: &WorkflowNodeInstanceEntity,
    indices: &Vec<usize>,
) -> (r: (Vec<ExecuteTaskJob>, Vec<ExecuteWorkflowJob>))
    requires
        flags@.len() == indices@.len(),
    ensures
        task_jobs(r.0@) == child_task_jobs(
            place_of(
                workflow_instance@.workflow_instance_id,
                workflow_instance@.tenant_id,
                node_instance@,
            ),
            flags@,
            indices@,
        ),
        workflow_jobs(r.1@) == child_workflow_jobs(
            place_of(
                workflow_instance@.workflow_instance_id,
                workflow_instance@.tenant_id,
                node_instance@,
            ),
            flags@,
            indices@,
        ),
{
    let ghost place = place_of(
        workflow_instance@.workflow_instance_id,
        workflow_instance@.tenant_id,
        node_instance@,
    );
    let mut tasks: Vec<ExecuteTaskJob> = Vec::new();
    let mut flows: Vec<ExecuteWorkflowJob> = Vec::new();
    let mut i: usize = 0;
    assert(task_jobs(tasks@) =~= seq![]);
    assert(workflow_jobs(flows@) =~= seq![]);
    while i < indices.len()
        invariant
            i <= indices@.len(),
            flags@.len() == indices@.len(),
            place == place_of(
                workflow_instance@.workflow_instance_id,
                workflow_instance@.tenant_id,
                node_instance@,
            ),
            task_jobs(tasks@) == child_task_jobs(place, flags@, indices@.take(i as int)),
            workflow_jobs(flows@) == child_workflow_jobs(
                place,
                flags@,
                indices@.take(i as int),
            ),
        decreases indices@.len() - i,
    {
        let index = indices[i];
        let id = make_child_id(
            workflow_instance.workflow_instance_id.as_str(),
            node_instance.node_id.as_str(),
            index,
        );
        let ghost tasks_before = tasks@;
        let ghost flows_before = flows@;
        if flags[i] {
            flows.push(
                ExecuteWorkflowJob {
                    workflow_instance_id: id,
                    tenant_id: workflow_instance.tenant_id.clone(),
                    event: WorkflowEvent::Start,
                },
            );
            assert(workflow_jobs(flows@) =~= workflow_jobs(flows_before).push(flows@.last()@));
        } else {
            tasks.push(
                ExecuteTaskJob {
                    task_instance_id: id,
                    tenant_id: workflow_instance.tenant_id.clone(),
                    caller_context: Some(
                        WorkflowCallerContext {
                            workflow_instance_id: workflow_instance.workflow_instance_id.clone(),
                            node_id: node_instance.node_id.clone(),
                            parent_task_instance_id: Some(node_instance.task_instance.id.clone()),
                            item_index: Some(index),
                        },
                    ),
                },
            );
            assert(task_jobs(tasks@) =~= task_jobs(tasks_before).push(tasks@.last()@));
        }
        proof {
            assert(indices@.take(i + 1).drop_last() =~= indices@.take(i as int));
            assert(indices@.take(i + 1).last() == index);
        }
        i = i + 1;
    }
    assert(indices@.take(i as int) =~= indices@);
    (tasks, flows)
}

/// Writes a container's output onto its node.
fn write_output(
    node_instance: &mut WorkflowNodeInstanceEntity,
    total_label: &str,
    total: u64,
    dispatched_count: u64,
    results_map: Vec<(String, Json)>,
)
    ensures
        final(node_instance)@ == with_output(
            old(node_instance)@,
            container_output(
                total_label@,
                total,
                dispatched_count,
                entries_model(results_map@),
            ),
        ),
{
    let mut e: Vec<(String, Json)> = Vec::new();
    put_str(&mut e, total_label, json_number(total));
    put_str(&mut e, "dispatched_count", json_number(dispatched_count));
    put_str(&mut e, "results", Json::Object(results_map));
    node_instance.task_instance.output = Some(Json::Object(e));
}

/// How many children a container has handed out so far, by its output.
fn read_dispatched(node_instance: &WorkflowNodeInstanceEntity) -> (r: u64)
    ensures
        r == dispatched_so_far(node_instance@),
{
    match &node_instance.task_instance.output {
        Some(state) => match state.get_u64("dispatched_count") {
            Some(n) => n,
            None => 0,
        },
        None => 0,
    }
}

/// One step of a container: looks at all its children, and ends, waits, gives up, or starts more
/// of them.
pub fn run_container(
    plan: &ContainerPlan,
    node_instance: &mut WorkflowNodeInstanceEntity,
    workflow_instance: &WorkflowInstanceEntity,
    scan: &ChildTable,
    recheck: &ChildTable,
    input: Option<Json>,
) -> (r: ExecutionResult)
    requires
        plan.workflows@.len() == plan.keys@.len(),
    ensures
        (final(node_instance)@, r@) == container_step(
            plan@,
            place_of(
                workflow_instance@.workflow_instance_id,
                workflow_instance@.tenant_id,
                old(node_instance)@,
            ),
            old(node_instance)@,
            scan@,
            recheck@,
            opt_json(input),
        ),
{
    let ghost before = node_instance@;
    let ghost place = place_of(
        workflow_instance@.workflow_instance_id,
        workflow_instance@.tenant_id,
        before,
    );
    let total: u64 = plan.keys.len() as u64;
    let gather = gather_children(
        &plan.keys,
        workflow_instance.workflow_instance_id.as_str(),
        node_instance.node_id.as_str(),
        scan,
    );
    assert(gather@ == gathered(children_of(place, plan@.keys, scan@)));
    match diagnose(total, plan.max_failures, &gather) {
        ContainerDecision::AllDone(ContainerOutcome::Success) => {
            write_output(node_instance, plan.total_label, total, total, gather.results_map);
            ExecutionResult::success(None)
        },
        ContainerDecision::AllDone(ContainerOutcome::Failed) | ContainerDecision::EarlyAbort => {
            let mut message = owned(plan.abort_prefix);
            message.append(decimal_text(gather.failed_count).as_str());
            message.append(" failures out of ");
            message.append(decimal_text(total).as_str());
            message.append(plan.abort_suffix);
            node_instance.error_message = Some(message);
            write_output(node_instance, plan.total_label, total, total, gather.results_map);
            ExecutionResult::failed()
        },
        ContainerDecision::AllDispatched => {
            write_output(node_instance, plan.total_label, total, total, gather.results_map);
            let r = ExecutionResult::await_jobs(Vec::new(), Vec::new());
            assert(r@ =~= awaiting(seq![], seq![]));
            r
        },
        ContainerDecision::NeedDispatch => {
            let dispatched_count = read_dispatched(node_instance);
            let indices = calc_dispatch_indices(
                plan,
                workflow_instance.workflow_instance_id.as_str(),
                node_instance.node_id.as_str(),
                recheck,
                dispatched_count,
                gather.running_count,
            );
            let ghost missing = missing_children(place, plan@.keys.len(), recheck@);
            proof {
                assert(indices@ == started_children(plan@, place, before, scan@, recheck@));
                law_picked_children(
                    missing,
                    dispatched_count as nat,
                    room(plan.mode, plan.concurrency, gather.running_count as nat),
                );
            }
            if let Some(j) = input {
                node_instance.task_instance.input = Some(j);
            }
            let mut flags: Vec<bool> = Vec::new();
            let mut k: usize = 0;
            while k < indices.len()
                invariant
                    k <= indices@.len(),
                    flags@.len() == k,
                    plan.workflows@.len() == plan.keys@.len(),
                    forall|j: int|
                        0 <= j < indices@.len() ==> #[trigger] indices@[j] < plan.keys@.len(),
                    forall|j: int|
                        0 <= j < k ==> #[trigger] flags@[j] == plan.workflows@[indices@[j] as int],
                decreases indices@.len() - k,
            {
                flags.push(plan.workflows[indices[k]]);
                k = k + 1;
            }
            assert(flags@ =~= flags_of(plan@.workflows, indices@));
            let (tasks, flows) = build_child_jobs(
                &flags,
                workflow_instance,
                node_instance,
                &indices,
            );
            let mut new_dispatched = dispatched_count;
            if indices.len() > 0 {
                let last = indices[indices.len() - 1];
                assert(last < missing.len());
                if last as u64 + 1 > new_dispatched {
                    new_dispatched = last as u64 + 1;
                }
            }
            write_output(node_instance, plan.total_label, total, new_dispatched, gather.results_map);
            ExecutionResult::await_jobs(tasks, flows)
        },
    }
}

/// The children that are picked are the earliest: none that is missing is passed over for a later
/// one.
pub proof fn law_the_earliest_children_are_picked(
    missing: Seq<bool>,
    from: nat,
    room: nat,
    k: int,
    i: nat,
)
    requires
        missing.len() <= usize::MAX,
        0 <= k < picked(missing, from, room).len(),
        from <= i <= picked(missing, from, room)[k],
        i < missing.len(),
        missing[i as int],
    ensures
        picked(missing, from, room).contains(i as usize),
    decreases missing.len() - from,
{
    law_picked_children(missing, from, room);
    let all = picked(missing, from, room);
    if missing[from as int] {
        let rest = picked(missing, from + 1, (room - 1) as nat);
        assert(all =~= seq![from as usize] + rest);
        if i == from {
            assert(all[0] == i as usize);
        } else {
            assert(all[k] == rest[k - 1]);
            law_the_earliest_children_are_picked(
                missing,
                from + 1,
                (room - 1) as nat,
                k - 1,
                i,
            );
            let j = choose|j: int| 0 <= j < rest.len() && rest[j] == i as usize;
            assert(all[j + 1] == i as usize);
        }
    } else {
        law_the_earliest_children_are_picked(missing, from + 1, room, k, i);
    }
}

/// There is room exactly for what is missing to the concurrency; in batches there is none until the
/// whole batch has ended.
pub proof fn law_room_fills_the_free_slots(mode: ParallelMode, concurrency: u32, running: nat)
    ensures
        room(mode, concurrency, running) > 0 ==> running + room(mode, concurrency, running)
            == concurrency,
        room(mode, concurrency, running) > 0 <==> running < concurrency && (mode is Batch
            ==> running == 0),
{
}

/// A container looks for a child where it started it: the status that storage has under the
/// identifier of the job for a place is the status of the child at that place, and no other.
pub proof fn law_a_started_child_is_found_at_its_place(
    place: PlaceView,
    keys: Seq<Seq<char>>,
    table: Map<Seq<char>, ChildView>,
    i: usize,
)
    requires
        i < keys.len(),
    ensures
        ({
            let job = child_task_job(place, i);
            let child = children_of(place, keys, table)[i as int];
            &&& child.0 == keys[i as int]
            &&& table.contains_key(job.task_instance_id) ==> child.1 == table[job.task_instance_id]
            &&& !table.contains_key(job.task_instance_id) ==> child.1 is NotFound
            &&& missing_children(place, keys.len(), table)[i as int] <==> child.1 is NotFound
            &&& children_of(place, keys, table).len() == keys.len()
        }),
{
}

/// Every child that is picked gets a job of its own: a task is sent under an identifier that no other
/// child has, and tells its place and its node; a workflow is started under that identifier. Nobody
/// else gets one.
pub proof fn law_each_picked_child_gets_its_own_job(
    place: PlaceView,
    workflows: Seq<bool>,
    indices: Seq<usize>,
    k: int,
)
    requires
        0 <= k < indices.len(),
    ensures
        ({
            let flags = flags_of(workflows, indices);
            let tasks = child_task_jobs(place, flags, indices);
            let starts = child_workflow_jobs(place, flags, indices);
            let id = child_id(place.workflow_instance_id, place.node_id, indices[k] as nat);
            &&& !workflows[indices[k] as int] ==> exists|j: int|
                {
                    &&& 0 <= j < tasks.len()
                    &&& (#[trigger] tasks[j]).task_instance_id == id
                    &&& tasks[j].tenant_id == place.tenant_id
                    &&& tasks[j].caller_context matches Some(caller)
                    &&& caller.item_index == Some(indices[k])
                    &&& caller.node_id == place.node_id
                    &&& caller.workflow_instance_id == place.workflow_instance_id
                    &&& caller.parent_task_instance_id == Some(place.task_id)
                }
            &&& workflows[indices[k] as int] ==> exists|j: int|
                {
                    &&& 0 <= j < starts.len()
                    &&& (#[trigger] starts[j]).workflow_instance_id == id
                    &&& starts[j].tenant_id == place.tenant_id
                    &&& starts[j].event is Start
                }
            &&& tasks.len() + starts.len() == indices.len()
        }),
{
    let flags = flags_of(workflows, indices);
    lemma_job_of_a_picked_child(place, flags, indices, k);
    law_one_job_per_picked_child(place, flags, indices);
    if flags[k] {
        let starts = child_workflow_jobs(place, flags, indices);
        let job = start_job(
            child_id(place.workflow_instance_id, place.node_id, indices[k] as nat),
            place.tenant_id,
        );
        let j = choose|j: int| 0 <= j < starts.len() && starts[j] == job;
        assert(starts[j] == job);
    } else {
        let tasks = child_task_jobs(place, flags, indices);
        let job = child_task_job(place, indices[k]);
        let j = choose|j: int| 0 <= j < tasks.len() && tasks[j] == job;
        assert(tasks[j] == job);
    }
}

proof fn lemma_job_of_a_picked_child(
    place: PlaceView,
    flags: Seq<bool>,
    indices: Seq<usize>,
    k: int,
)
    requires
        0 <= k < indices.len() <= flags.len(),
    ensures
        !flags[k] ==> child_task_jobs(place, flags, indices).contains(
            child_task_job(place, indices[k]),
        ),
        flags[k] ==> child_workflow_jobs(place, flags, indices).contains(
            start_job(
                child_id(place.workflow_instance_id, place.node_id, indices[k] as nat),
                place.tenant_id,
            ),
        ),
    decreases indices.len(),
{
    let front = indices.drop_last();
    let tasks = child_task_jobs(place, flags, indices);
    let starts = child_workflow_jobs(place, flags, indices);
    if k < front.len() {
        lemma_job_of_a_picked_child(place, flags, front, k);
        assert(front[k] == indices[k]);
        if flags[k] {
            let before = child_workflow_jobs(place, flags, front);
            let job = start_job(
                child_id(place.workflow_instance_id, place.node_id, indices[k] as nat),
                place.tenant_id,
            );
            let j = choose|j: int| 0 <= j < before.len() && before[j] == job;
            assert(starts[j] == job);
        } else {
            let before = child_task_jobs(place, flags, front);
            let job = child_task_job(place, indices[k]);
            let j = choose|j: int| 0 <= j < before.len() && before[j] == job;
            assert(tasks[j] == job);
        }
    } else {
        if flags[k] {
            assert(starts[starts.len() - 1] == start_job(
                child_id(place.workflow_instance_id, place.node_id, indices[k] as nat),
                place.tenant_id,
            ));
        } else {
            assert(tasks[tasks.len() - 1] == child_task_job(place, indices[k]));
        }
    }
}

/// What a container has handed out is told by the last child that it started, or stays as it was.
pub proof fn law_dispatched_ends_at_the_last_child(so_far: u64, indices: Seq<usize>)
    requires
        forall|k: int| 0 <= k < indices.len() ==> #[trigger] indices[k] < u64::MAX,
    ensures
        indices.len() == 0 ==> dispatched_after(so_far, indices) == so_far,
        indices.len() > 0 ==> dispatched_after(so_far, indices) == so_far || dispatched_after(
            so_far,
            indices,
        ) == indices.last() + 1,
        indices.len() > 0 && indices.last() >= so_far ==> dispatched_after(so_far, indices)
            == indices.last() + 1,
{
}

/// A step of a container writes down what every child came to: whatever the step decides, the node's
/// output has the number of the children, and under the key of each child what storage has of that
/// child under the identifier that the child was started with.
pub proof fn law_a_step_writes_what_the_children_came_to(
    plan: PlanView,
    place: PlaceView,
    node: NodeView,
    scan: Map<Seq<char>, ChildView>,
    recheck: Map<Seq<char>, ChildView>,
    input: Option<JsonView>,
    i: usize,
)
    requires
        i < plan.keys.len() <= usize::MAX,
        forall|a: int, b: int|
            0 <= a < b < plan.keys.len() ==> #[trigger] plan.keys[a] != #[trigger] plan.keys[b],
        plan.total_label == "total_items"@ || plan.total_label == "total_tasks"@,
    ensures
        ({
            let after = container_step(plan, place, node, scan, recheck, input).0;
            let id = child_task_job(place, i).task_instance_id;
            &&& after.task_instance.output matches Some(output)
            &&& output.field(plan.total_label) == Some(number(plan.keys.len() as u64))
            &&& output.field("results"@) matches Some(results)
            &&& results.field(plan.keys[i as int]) matches Some(of_child)
            &&& scan.contains_key(id) ==> tells(of_child, scan[id])
            &&& !scan.contains_key(id) ==> of_child == JsonView::Null
        }),
{
    lemma_output_labels();
    let children = children_of(place, plan.keys, scan);
    assert forall|a: int, b: int| 0 <= a < b < children.len() implies #[trigger] children[a].0
        != #[trigger] children[b].0 by {
        assert(plan.keys[a] != plan.keys[b]);
    }
    crate::plugin::interface::law_results_hold_what_the_children_came_to(children, i as int);
}

/// The entries of a container's output have different names.
proof fn lemma_output_labels()
    ensures
        "total_items"@ != "results"@,
        "total_items"@ != "dispatched_count"@,
        "total_tasks"@ != "results"@,
        "total_tasks"@ != "dispatched_count"@,
        "results"@ != "dispatched_count"@,
{
    reveal_strlit("total_items");
    reveal_strlit("total_tasks");
    reveal_strlit("dispatched_count");
    reveal_strlit("results");
    assert("total_items"@.len() == 11 && "total_tasks"@.len() == 11 && "results"@.len() == 7);
    assert("dispatched_count"@.len() == 16);
}

/// How a step of a container ends follows from its children alone: it succeeds exactly when all of
/// them completed or were skipped; it fails exactly when too many failed, or when one failed and none
/// runs or is missing; else it waits. Only while it waits are children started.
pub proof fn law_a_step_ends_as_its_children_did(
    plan: PlanView,
    place: PlaceView,
    node: NodeView,
    scan: Map<Seq<char>, ChildView>,
    recheck: Map<Seq<char>, ChildView>,
    input: Option<JsonView>,
)
    requires
        plan.keys.len() <= usize::MAX,
    ensures
        ({
            let children = children_of(place, plan.keys, scan);
            let (after, outcome) = container_step(plan, place, node, scan, recheck, input);
            let failed = children.filter(|c: (Seq<char>, ChildView)| c.1 is Failed).len();
            let running = children.filter(|c: (Seq<char>, ChildView)| c.1 is Running).len();
            let missing = children.filter(|c: (Seq<char>, ChildView)| c.1 is NotFound).len();
            let too_many = plan.max_failures is Some && failed > 0 && failed
                >= plan.max_failures->0;
            &&& outcome.status is Success <==> forall|i: int|
                0 <= i < children.len() ==> ((#[trigger] children[i]).1 is Completed
                    || children[i].1 is Skipped)
            &&& outcome.status is Failed <==> too_many || (failed > 0 && running == 0 && missing
                == 0)
            &&& outcome.status is Success || outcome.status is Failed || outcome.status is Await
            &&& !(outcome.status is Await) || missing == 0 ==> outcome.dispatch_jobs.len() == 0
                && outcome.dispatch_workflow_jobs.len() == 0
            &&& outcome.jump_to_node is None
            &&& outcome.status is Failed ==> after.error_message is Some
            &&& !(outcome.status is Failed) ==> after.error_message == node.error_message
            &&& after.node_id == node.node_id
            &&& after.task_instance.task_template == node.task_instance.task_template
            &&& after.task_instance.id == node.task_instance.id
        }),
{
    let children = children_of(place, plan.keys, scan);
    crate::plugin::interface::law_success_means_every_child_completed(children, plan.max_failures);
    crate::plugin::interface::law_decisions_follow_the_children(children, plan.max_failures);
    crate::plugin::interface::law_dispatch_only_if_a_child_is_missing(children, plan.max_failures);
    crate::plugin::interface::law_counts_count_the_children(children);
    crate::plugin::interface::law_every_child_is_counted_once(children);
}

/// While a container has children to start, it waits; it starts those that it picked, and what it
/// writes down as handed out is what the next step, and the sweeper, read.
pub proof fn law_what_is_handed_out_is_read_back(
    plan: PlanView,
    place: PlaceView,
    node: NodeView,
    scan: Map<Seq<char>, ChildView>,
    recheck: Map<Seq<char>, ChildView>,
    input: Option<JsonView>,
)
    requires
        plan.keys.len() <= usize::MAX,
        plan.total_label == "total_items"@ || plan.total_label == "total_tasks"@,
        decision(
            plan.keys.len(),
            plan.max_failures,
            gathered(children_of(place, plan.keys, scan)),
        ) is NeedDispatch,
    ensures
        ({
            let started = started_children(plan, place, node, scan, recheck);
            let (after, outcome) = container_step(plan, place, node, scan, recheck, input);
            &&& dispatched_so_far(after) == dispatched_after(dispatched_so_far(node), started)
            &&& outcome.status is Await
            &&& outcome.dispatch_jobs.len() + outcome.dispatch_workflow_jobs.len() == started.len()
            &&& input is Some ==> after.task_instance.input == input
            &&& input is None ==> after.task_instance.input == node.task_instance.input
        }),
{
    lemma_output_labels();
    let started = started_children(plan, place, node, scan, recheck);
    law_one_job_per_picked_child(place, flags_of(plan.workflows, started), started);
}

} // verus!
