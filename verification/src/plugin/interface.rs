//! What plugins share: the result of running a node, and the bookkeeping of containers.

use crate::entity::{NodeView, TaskView, WorkflowNodeInstanceEntity};
use crate::json::{
    clone_opt, clone_opt_text, entries_model, json_opt_text, json_or_null, json_text, opt_json,
    or_null, put_str, put, text_or_null, Json, JsonView,
};
use crate::shared::{
    task_jobs, workflow_jobs, ExecuteTaskJob, ExecuteWorkflowJob, NodeExecutionStatus, TaskJobView,
    WorkflowJobView,
};
use crate::text::{decimal, decimal_text, opt_text, same};
use vstd::prelude::*;

verus! {

/// What running a node, or a callback to it, came to.
#[derive(Debug)]
pub struct ExecutionResult {
    pub status: NodeExecutionStatus,
    pub dispatch_jobs: Vec<ExecuteTaskJob>,
    pub dispatch_workflow_jobs: Vec<ExecuteWorkflowJob>,
    pub jump_to_node: Option<String>,
}

/// The mathematical value of an [`ExecutionResult`].
#[verifier::ext_equal]
pub struct ExecutionView {
    pub status: NodeExecutionStatus,
    pub dispatch_jobs: Seq<TaskJobView>,
    pub dispatch_workflow_jobs: Seq<WorkflowJobView>,
    pub jump_to_node: Option<Seq<char>>,
}

impl View for ExecutionResult {
    type V = ExecutionView;

    open spec fn view(&self) -> ExecutionView {
        ExecutionView {
            status: self.status,
            dispatch_jobs: task_jobs(self.dispatch_jobs@),
            dispatch_workflow_jobs: workflow_jobs(self.dispatch_workflow_jobs@),
            jump_to_node: opt_text(self.jump_to_node),
        }
    }
}

/// The value of what running a node came to: a result, or an error.
pub open spec fn outcome(r: Result<ExecutionResult, String>) -> Result<ExecutionView, Seq<char>> {
    match r {
        Ok(x) => Ok(x@),
        Err(e) => Err(e@),
    }
}

/// The result of a status alone: no jobs, no jump.
pub open spec fn just(status: NodeExecutionStatus) -> ExecutionView {
    ExecutionView {
        status,
        dispatch_jobs: seq![],
        dispatch_workflow_jobs: seq![],
        jump_to_node: None,
    }
}

/// The result of a node that awaits the jobs it hands out.
pub open spec fn awaiting(tasks: Seq<TaskJobView>, workflows: Seq<WorkflowJobView>) -> ExecutionView {
    ExecutionView {
        status: NodeExecutionStatus::Await,
        dispatch_jobs: tasks,
        dispatch_workflow_jobs: workflows,
        jump_to_node: None,
    }
}

impl ExecutionResult {
    /// The node succeeded; the run goes on at the given node, if one is given.
    pub fn success(jump_to_node: Option<String>) -> (r: Self)
        ensures
            r@ == (ExecutionView {
                jump_to_node: opt_text(jump_to_node),
                ..just(NodeExecutionStatus::Success)
            }),
    {
        ExecutionResult {
            status: NodeExecutionStatus::Success,
            dispatch_jobs: Vec::new(),
            dispatch_workflow_jobs: Vec::new(),
            jump_to_node,
        }
    }

    /// The node failed.
    pub fn failed() -> (r: Self)
        ensures
            r@ == just(NodeExecutionStatus::Failed),
    {
        ExecutionResult {
            status: NodeExecutionStatus::Failed,
            dispatch_jobs: Vec::new(),
            dispatch_workflow_jobs: Vec::new(),
            jump_to_node: None,
        }
    }

    /// The node waits for something outside the engine.
    pub fn suspended() -> (r: Self)
        ensures
            r@ == just(NodeExecutionStatus::Suspended),
    {
        ExecutionResult {
            status: NodeExecutionStatus::Suspended,
            dispatch_jobs: Vec::new(),
            dispatch_workflow_jobs: Vec::new(),
            jump_to_node: None,
        }
    }

    /// The node has not come to anything yet.
    pub fn pending() -> (r: Self)
        ensures
            r@ == just(NodeExecutionStatus::Pending),
    {
        ExecutionResult {
            status: NodeExecutionStatus::Pending,
            dispatch_jobs: Vec::new(),
            dispatch_workflow_jobs: Vec::new(),
            jump_to_node: None,
        }
    }

    /// The node was skipped; the run goes on at the given node, if one is given.
    pub fn skipped(jump_to_node: Option<String>) -> (r: Self)
        ensures
            r@ == (ExecutionView {
                jump_to_node: opt_text(jump_to_node),
                ..just(NodeExecutionStatus::Skipped)
            }),
    {
        ExecutionResult {
            status: NodeExecutionStatus::Skipped,
            dispatch_jobs: Vec::new(),
            dispatch_workflow_jobs: Vec::new(),
            jump_to_node,
        }
    }

    /// The node awaits one task.
    pub fn async_dispatch(job: ExecuteTaskJob) -> (r: Self)
        ensures
            r@ == awaiting(seq![job@], seq![]),
    {
        let mut jobs: Vec<ExecuteTaskJob> = Vec::new();
        jobs.push(job);
        let r = ExecutionResult {
            status: NodeExecutionStatus::Await,
            dispatch_jobs: jobs,
            dispatch_workflow_jobs: Vec::new(),
            jump_to_node: None,
        };
        assert(r@ =~= awaiting(seq![job@], seq![]));
        r
    }

    /// The node awaits several tasks.
    pub fn async_dispatch_multiple(jobs: Vec<ExecuteTaskJob>) -> (r: Self)
        ensures
            r@ == awaiting(task_jobs(jobs@), seq![]),
    {
        ExecutionResult {
            status: NodeExecutionStatus::Await,
            dispatch_jobs: jobs,
            dispatch_workflow_jobs: Vec::new(),
            jump_to_node: None,
        }
    }

    /// The node awaits one workflow.
    pub fn async_dispatch_workflow(job: ExecuteWorkflowJob) -> (r: Self)
        ensures
            r@ == awaiting(seq![], seq![job@]),
    {
        let mut jobs: Vec<ExecuteWorkflowJob> = Vec::new();
        jobs.push(job);
        let r = ExecutionResult {
            status: NodeExecutionStatus::Await,
            dispatch_jobs: Vec::new(),
            dispatch_workflow_jobs: jobs,
            jump_to_node: None,
        };
        assert(r@ =~= awaiting(seq![], seq![job@]));
        r
    }

    /// The node awaits tasks and workflows.
    pub fn await_jobs(tasks: Vec<ExecuteTaskJob>, workflows: Vec<ExecuteWorkflowJob>) -> (r: Self)
        ensures
            r@ == awaiting(task_jobs(tasks@), workflow_jobs(workflows@)),
    {
        ExecutionResult {
            status: NodeExecutionStatus::Await,
            dispatch_jobs: tasks,
            dispatch_workflow_jobs: workflows,
            jump_to_node: None,
        }
    }
}

/// What a callback status means for a plain node.
pub open spec fn callback_outcome(status: NodeExecutionStatus) -> ExecutionView {
    match status {
        NodeExecutionStatus::Success => just(NodeExecutionStatus::Success),
        NodeExecutionStatus::Skipped => just(NodeExecutionStatus::Skipped),
        NodeExecutionStatus::Failed => just(NodeExecutionStatus::Failed),
        _ => just(NodeExecutionStatus::Pending),
    }
}

/// A node with the outcome of its child written onto it.
pub open spec fn node_with_callback(
    node: NodeView,
    output: Option<JsonView>,
    error_message: Option<Seq<char>>,
    input: Option<JsonView>,
) -> NodeView {
    NodeView {
        error_message,
        task_instance: TaskView { input, output, error_message, ..node.task_instance },
        ..node
    }
}

/// How a plain node takes the callback of its one child: it takes over the child's input, output
/// and error, and the child's end is its own.
pub fn handle_callback(
    node_instance: &mut WorkflowNodeInstanceEntity,
    status: &NodeExecutionStatus,
    output: &Option<Json>,
    error_message: &Option<String>,
    input: &Option<Json>,
) -> (r: ExecutionResult)
    ensures
        r@ == callback_outcome(*status),
        final(node_instance)@ == node_with_callback(
            old(node_instance)@,
            opt_json(*output),
            opt_text(*error_message),
            opt_json(*input),
        ),
{
    node_instance.error_message = clone_opt_text(error_message);
    node_instance.task_instance.input = clone_opt(input);
    node_instance.task_instance.output = clone_opt(output);
    node_instance.task_instance.error_message = clone_opt_text(error_message);
    match status {
        NodeExecutionStatus::Success => ExecutionResult::success(None),
        NodeExecutionStatus::Skipped => ExecutionResult::skipped(None),
        NodeExecutionStatus::Failed => ExecutionResult::failed(),
        _ => ExecutionResult::pending(),
    }
}

/// The status of a child, as storage has it.
#[derive(Debug)]
pub enum ChildStatus {
    /// The child succeeded, with its output.
    Completed(Option<Json>),
    /// The child failed, with its output and its error.
    Failed(Option<Json>, Option<String>),
    /// The child was skipped, with its output.
    Skipped(Option<Json>),
    /// The child has started and not ended.
    Running,
    /// There is no such child yet.
    NotFound,
}

/// The mathematical value of a [`ChildStatus`].
pub enum ChildView {
    Completed(Option<JsonView>),
    Failed(Option<JsonView>, Option<Seq<char>>),
    Skipped(Option<JsonView>),
    Running,
    NotFound,
}

impl View for ChildStatus {
    type V = ChildView;

    open spec fn view(&self) -> ChildView {
        match self {
            ChildStatus::Completed(o) => ChildView::Completed(opt_json(*o)),
            ChildStatus::Failed(o, e) => ChildView::Failed(opt_json(*o), opt_text(*e)),
            ChildStatus::Skipped(o) => ChildView::Skipped(opt_json(*o)),
            ChildStatus::Running => ChildView::Running,
            ChildStatus::NotFound => ChildView::NotFound,
        }
    }
}

impl Clone for ChildStatus {
    fn clone(&self) -> (r: Self)
        ensures
            r@ == self@,
    {
        match self {
            ChildStatus::Completed(o) => ChildStatus::Completed(clone_opt(o)),
            ChildStatus::Failed(o, e) => ChildStatus::Failed(clone_opt(o), clone_opt_text(e)),
            ChildStatus::Skipped(o) => ChildStatus::Skipped(clone_opt(o)),
            ChildStatus::Running => ChildStatus::Running,
            ChildStatus::NotFound => ChildStatus::NotFound,
        }
    }
}

/// The statuses of a container's children, by child id, as one look at storage gave them. A child
/// that is not listed was not found.
#[derive(Debug)]
pub struct ChildTable {
    pub entries: Vec<(String, ChildStatus)>,
}

/// The statuses that a list of entries gives: the first entry of an id counts.
pub open spec fn child_map(s: Seq<(String, ChildStatus)>) -> Map<Seq<char>, ChildView>
    decreases s.len(),
{
    if s.len() == 0 {
        Map::empty()
    } else {
        let front = child_map(s.drop_last());
        let id = s.last().0@;
        if front.contains_key(id) {
            front
        } else {
            front.insert(id, s.last().1@)
        }
    }
}

impl View for ChildTable {
    type V = Map<Seq<char>, ChildView>;

    open spec fn view(&self) -> Map<Seq<char>, ChildView> {
        child_map(self.entries@)
    }
}

/// The status of one child.
pub open spec fn status_in(table: Map<Seq<char>, ChildView>, id: Seq<char>) -> ChildView {
    if table.contains_key(id) {
        table[id]
    } else {
        ChildView::NotFound
    }
}

proof fn lemma_child_first(s: Seq<(String, ChildStatus)>, i: int)
    requires
        0 <= i < s.len(),
        forall|j: int| 0 <= j < i ==> #[trigger] s[j].0@ != s[i].0@,
    ensures
        child_map(s).contains_key(s[i].0@),
        child_map(s)[s[i].0@] == s[i].1@,
    decreases s.len(),
{
    let front = s.drop_last();
    if i < s.len() - 1 {
        assert forall|j: int| 0 <= j < i implies #[trigger] front[j].0@ != front[i].0@ by {
            assert(front[j] == s[j]);
        }
        lemma_child_first(front, i);
    } else {
        assert forall|j: int| 0 <= j < front.len() implies #[trigger] front[j].0@ != s[i].0@ by {
            assert(front[j] == s[j]);
        }
        lemma_child_absent(front, s[i].0@);
    }
}

proof fn lemma_child_absent(s: Seq<(String, ChildStatus)>, id: Seq<char>)
    requires
        forall|j: int| 0 <= j < s.len() ==> #[trigger] s[j].0@ != id,
    ensures
        !child_map(s).contains_key(id),
    decreases s.len(),
{
    if s.len() > 0 {
        let front = s.drop_last();
        assert forall|j: int| 0 <= j < front.len() implies #[trigger] front[j].0@ != id by {
            assert(front[j] == s[j]);
        }
        lemma_child_absent(front, id);
    }
}

impl ChildTable {
    /// The status of one child: `NotFound` if it is not listed.
    pub fn resolve(&self, id: &str) -> (r: ChildStatus)
        ensures
            r@ == status_in(self@, id@),
    {
        let mut i: usize = 0;
        while i < self.entries.len()
            invariant
                i <= self.entries@.len(),
                forall|j: int| 0 <= j < i ==> #[trigger] self.entries@[j].0@ != id@,
            decreases self.entries@.len() - i,
        {
            if same(self.entries[i].0.as_str(), id) {
                proof {
                    lemma_child_first(self.entries@, i as int);
                }
                return self.entries[i].1.clone();
            }
            i = i + 1;
        }
        proof {
            lemma_child_absent(self.entries@, id@);
        }
        ChildStatus::NotFound
    }
}

/// The id of a container's child: the instance, the node and the place, joined by dashes.
pub open spec fn child_id(workflow_instance_id: Seq<char>, node_id: Seq<char>, index: nat) -> Seq<char> {
    workflow_instance_id + "-"@ + node_id + "-"@ + decimal(index)
}

/// The id of a container's child.
pub fn make_child_id(workflow_instance_id: &str, node_id: &str, index: usize) -> (r: String)
    ensures
        r@ == child_id(workflow_instance_id@, node_id@, index as nat),
{
    let mut s = workflow_instance_id.to_owned();
    s.append("-");
    s.append(node_id);
    s.append("-");
    s.append(decimal_text(index as u64).as_str());
    s
}

/// The id of the one child of a plain node: the instance and the node, joined by a dash.
pub open spec fn single_child_id(workflow_instance_id: Seq<char>, node_id: Seq<char>) -> Seq<char> {
    workflow_instance_id + "-"@ + node_id
}

/// The id of the one child of a plain node.
pub fn make_single_child_id(workflow_instance_id: &str, node_id: &str) -> (r: String)
    ensures
        r@ == single_child_id(workflow_instance_id@, node_id@),
{
    let mut s = workflow_instance_id.to_owned();
    s.append("-");
    s.append(node_id);
    s
}

/// What a container knows of its children after looking at all of them.
#[derive(Debug)]
pub struct ContainerGatherResult {
    pub completed_count: u64,
    pub failed_count: u64,
    pub skipped_count: u64,
    pub running_count: u64,
    pub not_found_count: u64,
    pub results_map: Vec<(String, Json)>,
}

/// The mathematical value of a [`ContainerGatherResult`].
#[verifier::ext_equal]
pub struct GatherView {
    pub completed_count: nat,
    pub failed_count: nat,
    pub skipped_count: nat,
    pub running_count: nat,
    pub not_found_count: nat,
    pub results: Map<Seq<char>, JsonView>,
}

impl View for ContainerGatherResult {
    type V = GatherView;

    open spec fn view(&self) -> GatherView {
        GatherView {
            completed_count: self.completed_count as nat,
            failed_count: self.failed_count as nat,
            skipped_count: self.skipped_count as nat,
            running_count: self.running_count as nat,
            not_found_count: self.not_found_count as nat,
            results: entries_model(self.results_map@),
        }
    }
}

/// The record of a child in a container's output.
pub open spec fn child_record(status: ChildView) -> JsonView {
    match status {
        ChildView::Completed(output) => JsonView::Object(
            map!["status"@ => JsonView::Str("Success"@), "output"@ => or_null(output)],
        ),
        ChildView::Failed(output, error) => JsonView::Object(
            map!["status"@ => JsonView::Str("Failed"@), "output"@ => or_null(output), "error"@ => text_or_null(error)],
        ),
        ChildView::Skipped(output) => JsonView::Object(
            map!["status"@ => JsonView::Str("Skipped"@), "output"@ => or_null(output)],
        ),
        ChildView::Running => JsonView::Null,
        ChildView::NotFound => JsonView::Null,
    }
}

/// A gathering with one more child in it. A skipped child counts as completed too.
pub open spec fn recorded(g: GatherView, key: Seq<char>, status: ChildView) -> GatherView {
    let results = g.results.insert(key, child_record(status));
    match status {
        ChildView::Completed(_) => GatherView {
            completed_count: g.completed_count + 1,
            results,
            ..g
        },
        ChildView::Failed(_, _) => GatherView { failed_count: g.failed_count + 1, results, ..g },
        ChildView::Skipped(_) => GatherView {
            skipped_count: g.skipped_count + 1,
            completed_count: g.completed_count + 1,
            results,
            ..g
        },
        ChildView::Running => GatherView { running_count: g.running_count + 1, results, ..g },
        ChildView::NotFound => GatherView { not_found_count: g.not_found_count + 1, results, ..g },
    }
}

/// The gathering of no children.
pub open spec fn gathered_none() -> GatherView {
    GatherView {
        completed_count: 0,
        failed_count: 0,
        skipped_count: 0,
        running_count: 0,
        not_found_count: 0,
        results: Map::empty(),
    }
}

/// The gathering of a list of children, each under its key.
pub open spec fn gathered(children: Seq<(Seq<char>, ChildView)>) -> GatherView
    decreases children.len(),
{
    if children.len() == 0 {
        gathered_none()
    } else {
        recorded(gathered(children.drop_last()), children.last().0, children.last().1)
    }
}

/// How many children a gathering has looked at.
pub open spec fn looked_at(g: GatherView) -> nat {
    g.completed_count + g.failed_count + g.running_count + g.not_found_count
}

/// Every child is counted once: completed, failed, running or not found; the skipped ones are
/// among the completed.
pub proof fn law_every_child_is_counted_once(children: Seq<(Seq<char>, ChildView)>)
    ensures
        looked_at(gathered(children)) == children.len(),
        gathered(children).skipped_count <= gathered(children).completed_count,
    decreases children.len(),
{
    if children.len() > 0 {
        law_every_child_is_counted_once(children.drop_last());
    }
}

/// A gathering's results hold exactly the keys of the children.
pub proof fn law_results_have_the_children_as_keys(children: Seq<(Seq<char>, ChildView)>)
    ensures
        forall|key: Seq<char>| #[trigger]
            gathered(children).results.contains_key(key) <==> exists|i: int|
                0 <= i < children.len() && #[trigger] children[i].0 == key,
    decreases children.len(),
{
    if children.len() > 0 {
        let front = children.drop_last();
        law_results_have_the_children_as_keys(front);
        assert forall|key: Seq<char>| #[trigger]
            gathered(children).results.contains_key(key) <==> exists|i: int|
                0 <= i < children.len() && #[trigger] children[i].0 == key by {
            if gathered(front).results.contains_key(key) {
                let i = choose|i: int| 0 <= i < front.len() && #[trigger] front[i].0 == key;
                assert(children[i].0 == key);
            }
            if key == children.last().0 {
                assert(children[children.len() - 1].0 == key);
            }
            if exists|i: int| 0 <= i < children.len() && #[trigger] children[i].0 == key {
                let i = choose|i: int| 0 <= i < children.len() && #[trigger] children[i].0 == key;
                if i < front.len() {
                    assert(front[i].0 == key);
                }
            }
        }
    }
}

impl Default for ContainerGatherResult {
    fn default() -> (r: Self)
        ensures
            r@ == gathered_none(),
    {
        ContainerGatherResult {
            completed_count: 0,
            failed_count: 0,
            skipped_count: 0,
            running_count: 0,
            not_found_count: 0,
            results_map: Vec::new(),
        }
    }
}

impl ContainerGatherResult {
    /// How many children have ended.
    pub fn terminal_count(&self) -> (r: u64)
        requires
            self.completed_count + self.failed_count <= u64::MAX,
        ensures
            r == self@.completed_count + self@.failed_count,
    {
        self.completed_count + self.failed_count
    }

    /// Takes one child into the gathering, under a key.
    pub fn record(&mut self, key: String, status: ChildStatus)
        requires
            old(self).completed_count < u64::MAX,
            old(self).failed_count < u64::MAX,
            old(self).skipped_count < u64::MAX,
            old(self).running_count < u64::MAX,
            old(self).not_found_count < u64::MAX,
        ensures
            final(self)@ == recorded(old(self)@, key@, status@),
    {
        match status {
            ChildStatus::Completed(output) => {
                self.completed_count = self.completed_count + 1;
                let mut e: Vec<(String, Json)> = Vec::new();
                put_str(&mut e, "status", json_text("Success"));
                put_str(&mut e, "output", json_or_null(output));
                put(&mut self.results_map, key, Json::Object(e));
            },
            ChildStatus::Failed(output, error) => {
                self.failed_count = self.failed_count + 1;
                let mut e: Vec<(String, Json)> = Vec::new();
                put_str(&mut e, "status", json_text("Failed"));
                put_str(&mut e, "output", json_or_null(output));
                put_str(&mut e, "error", json_opt_text(&error));
                put(&mut self.results_map, key, Json::Object(e));
            },
            ChildStatus::Skipped(output) => {
                self.skipped_count = self.skipped_count + 1;
                self.completed_count = self.completed_count + 1;
                let mut e: Vec<(String, Json)> = Vec::new();
                put_str(&mut e, "status", json_text("Skipped"));
                put_str(&mut e, "output", json_or_null(output));
                put(&mut self.results_map, key, Json::Object(e));
            },
            ChildStatus::Running => {
                self.running_count = self.running_count + 1;
                put(&mut self.results_map, key, Json::Null);
            },
            ChildStatus::NotFound => {
                self.not_found_count = self.not_found_count + 1;
                put(&mut self.results_map, key, Json::Null);
            },
        }
    }
}

/// What a container is to do next.
#[derive(Clone, Copy, Debug, PartialEq, Eq, Structural)]
pub enum ContainerDecision {
    /// Every child has ended.
    AllDone(ContainerOutcome),
    /// Every child has been started; some have not ended.
    AllDispatched,
    /// Some child has not been started.
    NeedDispatch,
    /// Too many children have failed.
    EarlyAbort,
}

/// How a container ended.
#[derive(Clone, Copy, Debug, PartialEq, Eq, Structural)]
pub enum ContainerOutcome {
    Success,
    Failed,
}

/// Whether a container gives up: at the first failure if none is allowed, else as soon as the
/// number of failures reaches the limit; never without a limit.
pub open spec fn gives_up(max_failures: Option<u32>, failed_count: nat) -> bool {
    match max_failures {
        Some(max) => if max == 0 {
            failed_count > 0
        } else {
            failed_count >= max
        },
        None => false,
    }
}

/// Whether a container is to give up early because of its failures.
pub fn should_abort(max_failures: Option<u32>, failed_count: u64) -> (r: bool)
    ensures
        r == gives_up(max_failures, failed_count as nat),
{
    match max_failures {
        Some(max) => if max == 0 {
            failed_count > 0
        } else {
            failed_count >= max as u64
        },
        None => false,
    }
}

/// A container that gives up would give up with more failures too, and none gives up without a
/// failure.
pub proof fn law_giving_up_is_monotone(max_failures: Option<u32>, fewer: nat, more: nat)
    requires
        fewer <= more,
    ensures
        gives_up(max_failures, fewer) ==> gives_up(max_failures, more),
        !gives_up(max_failures, 0),
{
}

/// What a container does next, from the number of its children and what it knows of them.
pub open spec fn decision(total: nat, max_failures: Option<u32>, g: GatherView) -> ContainerDecision {
    let terminal = g.completed_count + g.failed_count;
    if gives_up(max_failures, g.failed_count) {
        ContainerDecision::EarlyAbort
    } else if terminal == total {
        ContainerDecision::AllDone(
            if g.failed_count > 0 {
                ContainerOutcome::Failed
            } else {
                ContainerOutcome::Success
            },
        )
    } else if g.not_found_count == 0 && terminal + g.running_count == total {
        ContainerDecision::AllDispatched
    } else {
        ContainerDecision::NeedDispatch
    }
}

/// A container that has looked at all its children asks for more to be started exactly when one
/// of them was not found, unless it gives up.
pub proof fn law_dispatch_only_if_a_child_is_missing(
    children: Seq<(Seq<char>, ChildView)>,
    max_failures: Option<u32>,
)
    ensures
        decision(children.len(), max_failures, gathered(children)) is NeedDispatch <==> (!gives_up(
            max_failures,
            gathered(children).failed_count,
        ) && gathered(children).not_found_count > 0),
{
    law_every_child_is_counted_once(children);
}

/// A container succeeds exactly when every child has completed or was skipped.
pub proof fn law_success_means_every_child_completed(
    children: Seq<(Seq<char>, ChildView)>,
    max_failures: Option<u32>,
)
    ensures
        decision(children.len(), max_failures, gathered(children)) == ContainerDecision::AllDone(
            ContainerOutcome::Success,
        ) <==> forall|i: int|
            0 <= i < children.len() ==> (#[trigger] children[i].1 is Completed
                || children[i].1 is Skipped),
{
    law_every_child_is_counted_once(children);
    lemma_completed_count(children);
    law_giving_up_is_monotone(max_failures, 0, gathered(children).failed_count);
}

/// The completed count reaches the number of children exactly when every one is completed or
/// skipped.
proof fn lemma_completed_count(children: Seq<(Seq<char>, ChildView)>)
    ensures
        gathered(children).completed_count <= children.len(),
        gathered(children).completed_count == children.len() <==> forall|i: int|
            0 <= i < children.len() ==> (#[trigger] children[i].1 is Completed
                || children[i].1 is Skipped),
    decreases children.len(),
{
    if children.len() > 0 {
        let front = children.drop_last();
        lemma_completed_count(front);
        assert forall|i: int| 0 <= i < front.len() implies front[i] == children[i] by {}
        if gathered(children).completed_count == children.len() {
            assert forall|i: int| 0 <= i < children.len() implies (#[trigger] children[i].1
                is Completed || children[i].1 is Skipped) by {
                if i < front.len() {
                    assert(front[i].1 is Completed || front[i].1 is Skipped);
                }
            }
        }
        if forall|i: int|
            0 <= i < children.len() ==> (#[trigger] children[i].1 is Completed
                || children[i].1 is Skipped) {
            assert forall|i: int| 0 <= i < front.len() implies (#[trigger] front[i].1 is Completed
                || front[i].1 is Skipped) by {
                assert(children[i].1 is Completed || children[i].1 is Skipped);
            }
            assert(children[children.len() - 1].1 is Completed || children[children.len() - 1].1
                is Skipped);
        }
    }
}

/// What a container does next. Here the counts are those of a gathering over `total` children.
pub fn diagnose(total: u64, max_failures: Option<u32>, gather: &ContainerGatherResult) -> (r:
    ContainerDecision)
    requires
        looked_at(gather@) <= u64::MAX,
    ensures
        r == decision(total as nat, max_failures, gather@),
{
    if should_abort(max_failures, gather.failed_count) {
        return ContainerDecision::EarlyAbort;
    }
    let terminal = gather.terminal_count();
    if terminal == total {
        let outcome = if gather.failed_count > 0 {
            ContainerOutcome::Failed
        } else {
            ContainerOutcome::Success
        };
        return ContainerDecision::AllDone(outcome);
    }
    if gather.not_found_count == 0 && terminal + gather.running_count == total {
        return ContainerDecision::AllDispatched;
    }
    ContainerDecision::NeedDispatch
}

/// What a gathering holds of a child is what the child came to: under its key stands an object with
/// its state, its output (null only if it has none) and, if it failed, its error. A child that runs
/// still, or that nobody knows, stands there as null.
pub proof fn law_results_hold_what_the_children_came_to(
    children: Seq<(Seq<char>, ChildView)>,
    i: int,
)
    requires
        0 <= i < children.len(),
        forall|a: int, b: int|
            0 <= a < b < children.len() ==> #[trigger] children[a].0 != #[trigger] children[b].0,
    ensures
        gathered(children).results.contains_key(children[i].0),
        ({
            let of_child = gathered(children).results[children[i].0];
            match children[i].1 {
                ChildView::Completed(output) => {
                    &&& of_child.field("status"@) == Some(JsonView::Str("Success"@))
                    &&& output is Some ==> of_child.field("output"@) == output
                    &&& output is None ==> of_child.field("output"@) == Some(JsonView::Null)
                    &&& of_child.field("error"@) is None
                },
                ChildView::Skipped(output) => {
                    &&& of_child.field("status"@) == Some(JsonView::Str("Skipped"@))
                    &&& output is Some ==> of_child.field("output"@) == output
                    &&& output is None ==> of_child.field("output"@) == Some(JsonView::Null)
                    &&& of_child.field("error"@) is None
                },
                ChildView::Failed(output, error) => {
                    &&& of_child.field("status"@) == Some(JsonView::Str("Failed"@))
                    &&& output is Some ==> of_child.field("output"@) == output
                    &&& output is None ==> of_child.field("output"@) == Some(JsonView::Null)
                    &&& match error {
                        Some(text) => of_child.field("error"@) == Some(JsonView::Str(text)),
                        None => of_child.field("error"@) == Some(JsonView::Null),
                    }
                },
                ChildView::Running | ChildView::NotFound => of_child == JsonView::Null,
            }
        }),
    decreases children.len(),
{
    let front = children.drop_last();
    if i < front.len() {
        assert(front[i] == children[i]);
        assert forall|a: int, b: int| 0 <= a < b < front.len() implies #[trigger] front[a].0
            != #[trigger] front[b].0 by {
            assert(children[a].0 != children[b].0);
        }
        law_results_hold_what_the_children_came_to(front, i);
        assert(children[i].0 != children[children.len() - 1].0);
    } else {
        reveal_strlit("status");
        reveal_strlit("output");
        reveal_strlit("error");
        assert("status"@.len() == 6 && "output"@.len() == 6 && "error"@.len() == 5);
        assert("status"@[0] == 's' && "output"@[0] == 'o');
    }
}

/// Two gatherings of the same children differ as soon as one child's state, output or error does.
pub proof fn law_gatherings_tell_outputs_apart(
    left: Seq<(Seq<char>, ChildView)>,
    right: Seq<(Seq<char>, ChildView)>,
    i: int,
    a: JsonView,
    b: JsonView,
)
    requires
        0 <= i < left.len() == right.len(),
        forall|k: int| 0 <= k < left.len() ==> #[trigger] left[k].0 == #[trigger] right[k].0,
        forall|x: int, y: int|
            0 <= x < y < left.len() ==> #[trigger] left[x].0 != #[trigger] left[y].0,
        ({
            ||| (left[i].1 == ChildView::Completed(Some(a)) && right[i].1 == ChildView::Completed(
                Some(b),
            ))
            ||| (left[i].1 == ChildView::Skipped(Some(a)) && right[i].1 == ChildView::Skipped(
                Some(b),
            ))
        }),
        a != b,
    ensures
        gathered(left).results != gathered(right).results,
{
    assert forall|x: int, y: int| 0 <= x < y < right.len() implies #[trigger] right[x].0
        != #[trigger] right[y].0 by {
        assert(left[x].0 == right[x].0);
        assert(left[y].0 == right[y].0);
    }
    law_results_hold_what_the_children_came_to(left, i);
    law_results_hold_what_the_children_came_to(right, i);
    assert(left[i].0 == right[i].0);
}

/// The counts of a gathering count the children by what they came to; one that was skipped counts
/// as completed too.
pub proof fn law_counts_count_the_children(children: Seq<(Seq<char>, ChildView)>)
    ensures
        gathered(children).completed_count == children.filter(
            |c: (Seq<char>, ChildView)| c.1 is Completed || c.1 is Skipped,
        ).len(),
        gathered(children).failed_count == children.filter(
            |c: (Seq<char>, ChildView)| c.1 is Failed,
        ).len(),
        gathered(children).skipped_count == children.filter(
            |c: (Seq<char>, ChildView)| c.1 is Skipped,
        ).len(),
        gathered(children).running_count == children.filter(
            |c: (Seq<char>, ChildView)| c.1 is Running,
        ).len(),
        gathered(children).not_found_count == children.filter(
            |c: (Seq<char>, ChildView)| c.1 is NotFound,
        ).len(),
    decreases children.len(),
{
    reveal(Seq::filter);
    if children.len() > 0 {
        law_counts_count_the_children(children.drop_last());
    }
}

/// A container gives up exactly when at least one child failed and no more failures than that are
/// tolerated; without a limit it never does.
pub proof fn law_giving_up_needs_a_limit_and_a_failure(max_failures: Option<u32>, failed: nat)
    ensures
        gives_up(max_failures, failed) <==> match max_failures {
            Some(max) => failed > 0 && failed >= max,
            None => false,
        },
{
}

/// What a container does next, in terms of its children: it aborts when it gives up; else it is done
/// when none of them runs or is missing, and has failed then if one of them did; else it waits when
/// none is missing.
pub proof fn law_decisions_follow_the_children(
    children: Seq<(Seq<char>, ChildView)>,
    max_failures: Option<u32>,
)
    ensures
        ({
            let failed = children.filter(|c: (Seq<char>, ChildView)| c.1 is Failed).len();
            let running = children.filter(|c: (Seq<char>, ChildView)| c.1 is Running).len();
            let missing = children.filter(|c: (Seq<char>, ChildView)| c.1 is NotFound).len();
            let next = decision(children.len(), max_failures, gathered(children));
            &&& next is EarlyAbort <==> (max_failures is Some && failed > 0 && failed
                >= max_failures->0)
            &&& (next is AllDone || next is EarlyAbort) <==> (next is EarlyAbort || (running == 0
                && missing == 0))
            &&& next == ContainerDecision::AllDone(ContainerOutcome::Failed) ==> failed > 0
            &&& next == ContainerDecision::AllDone(ContainerOutcome::Success) ==> failed == 0
            &&& next is AllDispatched ==> missing == 0 && running > 0
            &&& next is NeedDispatch ==> missing > 0
        }),
{
    law_counts_count_the_children(children);
    law_every_child_is_counted_once(children);
}

/// The children of one node have different identifiers, and all of them start with the identifier
/// of the instance and of the node.
pub proof fn law_child_ids_tell_children_apart(
    workflow_instance_id: Seq<char>,
    node_id: Seq<char>,
    i: nat,
    j: nat,
)
    ensures
        child_id(workflow_instance_id, node_id, i) == child_id(workflow_instance_id, node_id, j)
            <==> i == j,
        single_child_id(workflow_instance_id, node_id).is_prefix_of(
            child_id(workflow_instance_id, node_id, i),
        ),
        workflow_instance_id.is_prefix_of(single_child_id(workflow_instance_id, node_id)),
        single_child_id(workflow_instance_id, node_id).subrange(
            workflow_instance_id.len() as int + 1,
            single_child_id(workflow_instance_id, node_id).len() as int,
        ) == node_id,
        child_id(workflow_instance_id, node_id, i).subrange(
            (workflow_instance_id.len() + node_id.len() + 2) as int,
            child_id(workflow_instance_id, node_id, i).len() as int,
        ) == decimal(i),
{
    reveal_strlit("-");
    assert("-"@.len() == 1);
    let prefix = workflow_instance_id + "-"@ + node_id + "-"@;
    crate::text::lemma_same_prefix(prefix, decimal(i), decimal(j));
    crate::text::law_decimals_tell_numbers_apart(i, j);
    assert(child_id(workflow_instance_id, node_id, i).subrange(
        (workflow_instance_id.len() + node_id.len() + 2) as int,
        child_id(workflow_instance_id, node_id, i).len() as int,
    ) =~= decimal(i));
    assert(single_child_id(workflow_instance_id, node_id).subrange(
        workflow_instance_id.len() as int + 1,
        single_child_id(workflow_instance_id, node_id).len() as int,
    ) =~= node_id);
}

/// A node that takes a callback has from then on the output, the error and the input that the
/// callback brought, and keeps everything else.
pub proof fn law_a_callback_is_taken_over(
    node: NodeView,
    output: Option<JsonView>,
    error_message: Option<Seq<char>>,
    input: Option<JsonView>,
)
    ensures
        ({
            let after = node_with_callback(node, output, error_message, input);
            &&& after.task_instance.output == output
            &&& after.task_instance.error_message == error_message
            &&& after.error_message == error_message
            &&& after.task_instance.input == input
            &&& after == (NodeView {
                error_message: after.error_message,
                task_instance: after.task_instance,
                ..node
            })
            &&& after.task_instance == (TaskView {
                input: after.task_instance.input,
                output: after.task_instance.output,
                error_message: after.task_instance.error_message,
                ..node.task_instance
            })
        }),
{
}

/// A callback that tells an end brings the node to that end; any other leaves it pending. Nothing is
/// sent and no other node is jumped to.
pub proof fn law_a_callback_brings_its_end(status: NodeExecutionStatus)
    ensures
        (status == NodeExecutionStatus::Success || status == NodeExecutionStatus::Failed || status
            == NodeExecutionStatus::Skipped) ==> callback_outcome(status).status == status,
        !(status == NodeExecutionStatus::Success || status == NodeExecutionStatus::Failed || status
            == NodeExecutionStatus::Skipped) ==> callback_outcome(status).status
            == NodeExecutionStatus::Pending,
        callback_outcome(status).dispatch_jobs.len() == 0,
        callback_outcome(status).dispatch_workflow_jobs.len() == 0,
        callback_outcome(status).jump_to_node is None,
{
}

/// A child that was looked up is told by the first entry with its identifier; one without an entry is
/// not found.
pub proof fn law_the_first_entry_tells(entries: Seq<(String, ChildStatus)>, id: Seq<char>)
    ensures
        (forall|i: int| 0 <= i < entries.len() ==> #[trigger] entries[i].0@ != id) ==> status_in(
            child_map(entries),
            id,
        ) == ChildView::NotFound,
        forall|i: int|
            0 <= i < entries.len() && #[trigger] entries[i].0@ == id && (forall|j: int|
                0 <= j < i ==> #[trigger] entries[j].0@ != id) ==> status_in(child_map(entries), id)
                == entries[i].1@,
    decreases entries.len(),
{
    if entries.len() > 0 {
        let front = entries.drop_last();
        law_the_first_entry_tells(front, id);
        assert forall|i: int| 0 <= i < front.len() implies front[i] == entries[i] by {}
        lemma_known_ids(front, id);
        assert forall|i: int|
            0 <= i < entries.len() && #[trigger] entries[i].0@ == id && (forall|j: int|
                0 <= j < i ==> #[trigger] entries[j].0@ != id) implies status_in(
            child_map(entries),
            id,
        ) == entries[i].1@ by {
            if i < front.len() {
                assert(front[i].0@ == id);
                assert forall|j: int| 0 <= j < i implies #[trigger] front[j].0@ != id by {
                    assert(entries[j].0@ != id);
                }
            } else {
                assert forall|j: int| 0 <= j < front.len() implies #[trigger] front[j].0@ != id by {
                    assert(entries[j].0@ != id);
                }
            }
        }
        if forall|i: int| 0 <= i < entries.len() ==> #[trigger] entries[i].0@ != id {
            assert forall|j: int| 0 <= j < front.len() implies #[trigger] front[j].0@ != id by {
                assert(entries[j].0@ != id);
            }
            assert(entries[entries.len() - 1].0@ != id);
        }
    }
}

/// A table knows the identifiers of its entries and no others.
proof fn lemma_known_ids(entries: Seq<(String, ChildStatus)>, id: Seq<char>)
    ensures
        child_map(entries).contains_key(id) <==> exists|i: int|
            0 <= i < entries.len() && #[trigger] entries[i].0@ == id,
    decreases entries.len(),
{
    if entries.len() > 0 {
        let front = entries.drop_last();
        lemma_known_ids(front, id);
        if child_map(front).contains_key(id) {
            let i = choose|i: int| 0 <= i < front.len() && #[trigger] front[i].0@ == id;
            assert(entries[i].0@ == id);
        }
        if entries.last().0@ == id {
            assert(entries[entries.len() - 1].0@ == id);
        }
        if exists|i: int| 0 <= i < entries.len() && #[trigger] entries[i].0@ == id {
            let i = choose|i: int| 0 <= i < entries.len() && #[trigger] entries[i].0@ == id;
            if i < front.len() {
                assert(front[i].0@ == id);
            }
        }
    }
}

/// Whether an entry of a container's results says what a child came to.
pub open spec fn tells(of_child: JsonView, status: ChildView) -> bool {
    match status {
        ChildView::Completed(output) => {
            &&& of_child.field("status"@) == Some(JsonView::Str("Success"@))
            &&& output is Some ==> of_child.field("output"@) == output
            &&& output is None ==> of_child.field("output"@) == Some(JsonView::Null)
        },
        ChildView::Skipped(output) => {
            &&& of_child.field("status"@) == Some(JsonView::Str("Skipped"@))
            &&& output is Some ==> of_child.field("output"@) == output
            &&& output is None ==> of_child.field("output"@) == Some(JsonView::Null)
        },
        ChildView::Failed(output, error) => {
            &&& of_child.field("status"@) == Some(JsonView::Str("Failed"@))
            &&& output is Some ==> of_child.field("output"@) == output
            &&& output is None ==> of_child.field("output"@) == Some(JsonView::Null)
            &&& error is Some ==> of_child.field("error"@) == Some(JsonView::Str(error->0))
            &&& error is None ==> of_child.field("error"@) == Some(JsonView::Null)
        },
        _ => of_child == JsonView::Null,
    }
}

/// Recording a child keeps what it left: its entry has its output, null only if it has none, and its
/// error if it failed; the entries of other children stay, and the child is counted once, as what it
/// came to.
pub proof fn law_recording_keeps_what_a_child_left(
    gathering: &mut ContainerGatherResult,
    key: String,
    status: ChildStatus,
    other: Seq<char>,
)
    requires
        call_ensures(ContainerGatherResult::record, (gathering, key, status), ()),
    ensures
        ({
            let before = old(gathering)@;
            let after = final(gathering)@;
            &&& after.results.contains_key(key@)
            &&& tells(after.results[key@], status@)
            &&& other != key@ ==> after.results.contains_key(other) == before.results.contains_key(
                other,
            )
            &&& other != key@ && before.results.contains_key(other) ==> after.results[other]
                == before.results[other]
            &&& looked_at(after) == looked_at(before) + 1
            &&& after.completed_count == before.completed_count + (if status@ is Completed
                || status@ is Skipped {
                1int
            } else {
                0int
            })
            &&& after.failed_count == before.failed_count + (if status@ is Failed {
                1int
            } else {
                0int
            })
            &&& after.skipped_count == before.skipped_count + (if status@ is Skipped {
                1int
            } else {
                0int
            })
            &&& after.running_count == before.running_count + (if status@ is Running {
                1int
            } else {
                0int
            })
        }),
{
    reveal_strlit("status");
    reveal_strlit("output");
    reveal_strlit("error");
    assert("status"@.len() == 6 && "output"@.len() == 6 && "error"@.len() == 5);
    assert("status"@[0] == 's' && "output"@[0] == 'o');
}

/// A node that handles a callback has from then on what the callback brought, and ends as it told.
pub proof fn law_handling_a_callback_takes_it_over(
    node: &mut WorkflowNodeInstanceEntity,
    status: &NodeExecutionStatus,
    output: &Option<Json>,
    error_message: &Option<String>,
    input: &Option<Json>,
    r: ExecutionResult,
)
    requires
        call_ensures(handle_callback, (node, status, output, error_message, input), r),
        *status is Success || *status is Failed || *status is Skipped,
    ensures
        r@.status == *status,
        final(node)@.task_instance.output == opt_json(*output),
        final(node)@.task_instance.input == opt_json(*input),
        final(node)@.task_instance.error_message == opt_text(*error_message),
        final(node)@.error_message == opt_text(*error_message),
        final(node)@.node_id == old(node)@.node_id,
        final(node)@.next_node == old(node)@.next_node,
        final(node)@.context == old(node)@.context,
{
}

} // verus!
