use workflow::entity::{TaskInstanceEntity, WorkflowInstanceEntity, WorkflowNodeInstanceEntity};
use workflow::json::Json;
use workflow::plugin::forkjoin::ForkJoinPlugin;
use workflow::plugin::interface::{
    diagnose, should_abort, ChildStatus, ChildTable, ContainerDecision, ContainerGatherResult,
    ContainerOutcome, ExecutionResult,
};
use workflow::plugin::parallel::{items_from, ParallelPlugin};
use workflow::shared::{
    NodeExecutionStatus, TaskInstanceStatus, TaskType, WorkflowInstanceStatus,
};
use workflow::template::{
    ForkJoinTaskItem, ForkJoinTemplate, HttpMethod, ParallelMode, ParallelTemplate,
    SubWorkflowTemplate, TaskHttpTemplate, TaskTemplate,
};
use workflow::time::Timestamp;

fn at(secs: i64) -> Timestamp {
    Timestamp { secs, nanos: 0 }
}

fn json(text: &str) -> Json {
    Json::parse(text).unwrap()
}

fn http_template() -> TaskHttpTemplate {
    TaskHttpTemplate {
        url: "/test".into(),
        method: HttpMethod::Get,
        headers: vec![],
        body: vec![],
        form: vec![],
        retry_count: 0,
        retry_delay: 0,
        timeout: 0,
        success_condition: None,
    }
}

fn parallel_template(
    concurrency: u32,
    mode: ParallelMode,
    max_failures: Option<u32>,
) -> TaskTemplate {
    TaskTemplate::Parallel(ParallelTemplate {
        items_path: "items".into(),
        item_alias: "item".into(),
        task_template: Box::new(TaskTemplate::Http(http_template())),
        concurrency,
        mode,
        max_failures,
    })
}

fn forkjoin_template(keys: &[&str]) -> TaskTemplate {
    TaskTemplate::ForkJoin(ForkJoinTemplate {
        tasks: keys
            .iter()
            .map(|k| ForkJoinTaskItem {
                task_key: k.to_string(),
                task_id: None,
                name: k.to_string(),
                task_template: TaskTemplate::Http(http_template()),
            })
            .collect(),
        concurrency: keys.len() as u32,
        mode: ParallelMode::Rolling,
        max_failures: None,
    })
}

fn node(
    node_id: &str,
    kind: TaskType,
    template: TaskTemplate,
    status: NodeExecutionStatus,
    output: Option<Json>,
) -> WorkflowNodeInstanceEntity {
    WorkflowNodeInstanceEntity {
        node_id: node_id.into(),
        node_type: kind,
        task_instance: TaskInstanceEntity {
            id: format!("ti-{}", node_id),
            tenant_id: "t1".into(),
            task_id: "".into(),
            task_name: "container".into(),
            task_type: kind,
            task_template: template,
            task_status: TaskInstanceStatus::Running,
            task_instance_id: format!("ti-{}", node_id),
            created_at: at(1),
            updated_at: at(1),
            deleted_at: None,
            input: None,
            output,
            error_message: None,
            execution_duration: None,
            caller_context: None,
        },
        context: Json::empty_object(),
        next_node: None,
        status,
        error_message: None,
        created_at: at(1),
        updated_at: at(1),
    }
}

fn instance(node_id: &str, status: WorkflowInstanceStatus, context: Json) -> WorkflowInstanceEntity {
    WorkflowInstanceEntity {
        workflow_instance_id: "wf1".into(),
        tenant_id: "t1".into(),
        workflow_meta_id: "m1".into(),
        workflow_version: 1,
        status,
        created_at: at(1),
        updated_at: at(1),
        deleted_at: None,
        context,
        entry_node: node_id.into(),
        current_node: node_id.into(),
        nodes: vec![],
        epoch: 0,
        locked_by: None,
        locked_duration: None,
        locked_at: None,
        parent_context: None,
        depth: 0,
        created_by: None,
    }
}

fn parallel_node(template: TaskTemplate, output: Option<&str>) -> WorkflowNodeInstanceEntity {
    node("p", TaskType::Parallel, template, NodeExecutionStatus::Await, output.map(json))
}

fn items(text: &str) -> WorkflowInstanceEntity {
    instance("p", WorkflowInstanceStatus::Await, json(text))
}

fn three_items() -> WorkflowInstanceEntity {
    items(r#"{"items": [1, 2, 3]}"#)
}

fn forkjoin_node(keys: &[&str], output: Option<&str>) -> WorkflowNodeInstanceEntity {
    node(
        "fj",
        TaskType::ForkJoin,
        forkjoin_template(keys),
        NodeExecutionStatus::Pending,
        output.map(json),
    )
}

fn fork_instance() -> WorkflowInstanceEntity {
    instance("fj", WorkflowInstanceStatus::Running, Json::empty_object())
}

fn limited(n: WorkflowNodeInstanceEntity, f: impl Fn(&mut ForkJoinTemplate)) -> WorkflowNodeInstanceEntity {
    let mut n = n;
    if let TaskTemplate::ForkJoin(t) = &mut n.task_instance.task_template {
        f(t);
    }
    n
}

fn table(entries: Vec<(&str, ChildStatus)>) -> ChildTable {
    ChildTable { entries: entries.into_iter().map(|(k, s)| (k.to_string(), s)).collect() }
}

fn failed() -> ChildStatus {
    ChildStatus::Failed(None, Some("err".into()))
}

fn done() -> ChildStatus {
    ChildStatus::Completed(None)
}

fn run_parallel(
    n: &mut WorkflowNodeInstanceEntity,
    wf: &WorkflowInstanceEntity,
    t: ChildTable,
) -> ExecutionResult {
    ParallelPlugin::new().execute(n, wf, &t, &t).unwrap()
}

fn call_parallel(
    n: &mut WorkflowNodeInstanceEntity,
    wf: &WorkflowInstanceEntity,
    t: ChildTable,
) -> ExecutionResult {
    ParallelPlugin::new().handle_callback(n, wf, &t, &t).unwrap()
}

fn run_fork(
    n: &mut WorkflowNodeInstanceEntity,
    wf: &WorkflowInstanceEntity,
    t: ChildTable,
) -> ExecutionResult {
    ForkJoinPlugin::new().execute(n, wf, &t, &t).unwrap()
}

fn call_fork(
    n: &mut WorkflowNodeInstanceEntity,
    wf: &WorkflowInstanceEntity,
    t: ChildTable,
) -> ExecutionResult {
    ForkJoinPlugin::new().handle_callback(n, wf, &t, &t).unwrap()
}

#[test]
fn all_not_found_dispatches_initial_batch() {
    let mut n = parallel_node(parallel_template(3, ParallelMode::Rolling, None), None);
    let result = run_parallel(&mut n, &three_items(), table(vec![]));
    assert_eq!(result.status, NodeExecutionStatus::Await);
    assert_eq!(result.dispatch_jobs.len(), 3);
    let output = n.task_instance.output.unwrap();
    assert_eq!(output.get_u64("dispatched_count"), Some(3));
}

#[test]
fn all_completed_returns_success() {
    let mut n = parallel_node(parallel_template(3, ParallelMode::Rolling, None), None);
    let result = run_parallel(
        &mut n,
        &three_items(),
        table(vec![
            ("wf1-p-0", ChildStatus::Completed(Some(json("1")))),
            ("wf1-p-1", ChildStatus::Completed(Some(json("2")))),
            ("wf1-p-2", ChildStatus::Completed(Some(json("3")))),
        ]),
    );
    assert_eq!(result.status, NodeExecutionStatus::Success);
}

#[test]
fn parallel_one_failure_with_max_failures_zero_returns_failed() {
    let mut n = parallel_node(parallel_template(3, ParallelMode::Rolling, Some(0)), None);
    let result = run_parallel(
        &mut n,
        &three_items(),
        table(vec![("wf1-p-0", done()), ("wf1-p-1", failed()), ("wf1-p-2", done())]),
    );
    assert_eq!(result.status, NodeExecutionStatus::Failed);
}

#[test]
fn all_running_returns_await() {
    let mut n = parallel_node(parallel_template(3, ParallelMode::Rolling, None), None);
    let result = run_parallel(
        &mut n,
        &three_items(),
        table(vec![
            ("wf1-p-0", ChildStatus::Running),
            ("wf1-p-1", ChildStatus::Running),
            ("wf1-p-2", ChildStatus::Running),
        ]),
    );
    assert_eq!(result.status, NodeExecutionStatus::Await);
    assert!(result.dispatch_jobs.is_empty());
    assert!(result.dispatch_workflow_jobs.is_empty());
}

#[test]
fn parallel_skipped_counts_as_completed() {
    let mut n = parallel_node(parallel_template(2, ParallelMode::Rolling, None), None);
    let result = run_parallel(
        &mut n,
        &items(r#"{"items": [1, 2]}"#),
        table(vec![("wf1-p-0", done()), ("wf1-p-1", ChildStatus::Skipped(None))]),
    );
    assert_eq!(result.status, NodeExecutionStatus::Success);
}

#[test]
fn parallel_all_failed_no_max_failures_returns_failed() {
    let mut n = parallel_node(parallel_template(2, ParallelMode::Rolling, None), None);
    let result = run_parallel(
        &mut n,
        &items(r#"{"items": [1, 2]}"#),
        table(vec![("wf1-p-0", failed()), ("wf1-p-1", failed())]),
    );
    assert_eq!(result.status, NodeExecutionStatus::Failed);
}

#[test]
fn parallel_handle_callback_mixed_running_dispatches_more() {
    let mut n = parallel_node(
        parallel_template(2, ParallelMode::Rolling, None),
        Some(r#"{"total_items": 3, "dispatched_count": 2, "results": {}}"#),
    );
    let result = call_parallel(
        &mut n,
        &three_items(),
        table(vec![
            ("wf1-p-0", done()),
            ("wf1-p-1", ChildStatus::NotFound),
            ("wf1-p-2", ChildStatus::NotFound),
        ]),
    );
    assert_eq!(result.status, NodeExecutionStatus::Await);
    assert!(result.dispatch_jobs.len() >= 1 || result.dispatch_workflow_jobs.len() >= 1);
}

#[test]
fn parallel_handle_callback_all_terminal_returns_failed() {
    let mut n = parallel_node(parallel_template(2, ParallelMode::Rolling, None), None);
    let result = call_parallel(
        &mut n,
        &items(r#"{"items": [1, 2]}"#),
        table(vec![("wf1-p-0", done()), ("wf1-p-1", failed())]),
    );
    assert_eq!(result.status, NodeExecutionStatus::Failed);
}

#[test]
fn parallel_batch_mode_waits_for_current_batch() {
    let mut n = parallel_node(
        parallel_template(2, ParallelMode::Batch, None),
        Some(r#"{"total_items": 5, "dispatched_count": 2, "results": {}}"#),
    );
    let result = call_parallel(
        &mut n,
        &items(r#"{"items": [1, 2, 3, 4, 5]}"#),
        table(vec![
            ("wf1-p-0", ChildStatus::Running),
            ("wf1-p-1", ChildStatus::Running),
            ("wf1-p-2", ChildStatus::NotFound),
            ("wf1-p-3", ChildStatus::NotFound),
            ("wf1-p-4", ChildStatus::NotFound),
        ]),
    );
    assert_eq!(result.status, NodeExecutionStatus::Await);
    assert!(result.dispatch_jobs.is_empty());
    assert!(result.dispatch_workflow_jobs.is_empty());
}

#[test]
fn parallel_batch_mode_dispatches_next_batch_when_current_completes() {
    let mut n = parallel_node(
        parallel_template(2, ParallelMode::Batch, None),
        Some(r#"{"total_items": 5, "dispatched_count": 2, "results": {}}"#),
    );
    let result = call_parallel(
        &mut n,
        &items(r#"{"items": [1, 2, 3, 4, 5]}"#),
        table(vec![
            ("wf1-p-0", done()),
            ("wf1-p-1", done()),
            ("wf1-p-2", ChildStatus::NotFound),
            ("wf1-p-3", ChildStatus::NotFound),
            ("wf1-p-4", ChildStatus::NotFound),
        ]),
    );
    assert_eq!(result.status, NodeExecutionStatus::Await);
    assert!(result.dispatch_jobs.len() >= 2 || result.dispatch_workflow_jobs.len() >= 2);
}

#[test]
fn empty_items_completes_immediately() {
    let mut n = parallel_node(parallel_template(3, ParallelMode::Rolling, None), None);
    let result = run_parallel(&mut n, &items(r#"{"items": []}"#), table(vec![]));
    assert_eq!(result.status, NodeExecutionStatus::Success);
}

#[test]
fn failures_exceeding_max_triggers_early_abort() {
    let mut n = parallel_node(
        parallel_template(5, ParallelMode::Rolling, Some(1)),
        Some(r#"{"total_items": 5, "dispatched_count": 5, "results": {}}"#),
    );
    let result = call_parallel(
        &mut n,
        &items(r#"{"items": [1, 2, 3, 4, 5]}"#),
        table(vec![
            ("wf1-p-0", done()),
            ("wf1-p-1", failed()),
            ("wf1-p-2", failed()),
            ("wf1-p-3", ChildStatus::Running),
            ("wf1-p-4", ChildStatus::Running),
        ]),
    );
    assert_eq!(result.status, NodeExecutionStatus::Failed);
}

#[test]
fn all_tasks_not_found_dispatches_initial_batch() {
    let mut n = forkjoin_node(&["a", "b", "c"], None);
    let result = run_fork(&mut n, &fork_instance(), table(vec![]));
    assert_eq!(result.status, NodeExecutionStatus::Await);
    assert_eq!(result.dispatch_jobs.len(), 3);
}

#[test]
fn all_tasks_completed_returns_success() {
    let mut n = forkjoin_node(&["a", "b"], None);
    let result = run_fork(
        &mut n,
        &fork_instance(),
        table(vec![
            ("wf1-fj-0", ChildStatus::Completed(Some(json(r#"{"result": 1}"#)))),
            ("wf1-fj-1", ChildStatus::Completed(Some(json(r#"{"result": 2}"#)))),
        ]),
    );
    assert_eq!(result.status, NodeExecutionStatus::Success);
}

#[test]
fn forkjoin_one_failure_with_max_failures_zero_returns_failed() {
    let mut n = limited(forkjoin_node(&["a", "b"], None), |t| t.max_failures = Some(0));
    let result = run_fork(
        &mut n,
        &fork_instance(),
        table(vec![("wf1-fj-0", done()), ("wf1-fj-1", failed())]),
    );
    assert_eq!(result.status, NodeExecutionStatus::Failed);
}

#[test]
fn mixed_running_and_not_found_dispatches_new_tasks() {
    let mut n = forkjoin_node(
        &["a", "b", "c"],
        Some(r#"{"total_tasks": 3, "dispatched_count": 1, "results": {"a": null}}"#),
    );
    let result = run_fork(
        &mut n,
        &fork_instance(),
        table(vec![
            ("wf1-fj-0", ChildStatus::Running),
            ("wf1-fj-1", ChildStatus::NotFound),
            ("wf1-fj-2", ChildStatus::NotFound),
        ]),
    );
    assert_eq!(result.status, NodeExecutionStatus::Await);
    assert!(result.dispatch_jobs.len() >= 1 || result.dispatch_workflow_jobs.len() >= 1);
}

#[test]
fn all_running_pure_await() {
    let mut n = forkjoin_node(&["a", "b"], None);
    let result = run_fork(
        &mut n,
        &fork_instance(),
        table(vec![("wf1-fj-0", ChildStatus::Running), ("wf1-fj-1", ChildStatus::Running)]),
    );
    assert_eq!(result.status, NodeExecutionStatus::Await);
    assert!(result.dispatch_jobs.is_empty());
    assert!(result.dispatch_workflow_jobs.is_empty());
}

#[test]
fn forkjoin_skipped_counts_as_completed() {
    let mut n = forkjoin_node(&["a", "b"], None);
    let result = run_fork(
        &mut n,
        &fork_instance(),
        table(vec![("wf1-fj-0", done()), ("wf1-fj-1", ChildStatus::Skipped(None))]),
    );
    assert_eq!(result.status, NodeExecutionStatus::Success);
}

#[test]
fn forkjoin_all_failed_no_max_failures_returns_failed() {
    let mut n = limited(forkjoin_node(&["a", "b"], None), |t| t.max_failures = None);
    let result = run_fork(
        &mut n,
        &fork_instance(),
        table(vec![("wf1-fj-0", failed()), ("wf1-fj-1", failed())]),
    );
    assert_eq!(result.status, NodeExecutionStatus::Failed);
}

#[test]
fn forkjoin_handle_callback_mixed_running_dispatches_more() {
    let mut n = forkjoin_node(
        &["a", "b", "c"],
        Some(r#"{"total_tasks": 3, "dispatched_count": 2, "results": {}}"#),
    );
    let result = call_fork(
        &mut n,
        &fork_instance(),
        table(vec![
            ("wf1-fj-0", done()),
            ("wf1-fj-1", ChildStatus::NotFound),
            ("wf1-fj-2", ChildStatus::NotFound),
        ]),
    );
    assert_eq!(result.status, NodeExecutionStatus::Await);
}

#[test]
fn forkjoin_handle_callback_all_terminal_returns_failed() {
    let mut n = forkjoin_node(&["a", "b"], None);
    let result = call_fork(
        &mut n,
        &fork_instance(),
        table(vec![("wf1-fj-0", done()), ("wf1-fj-1", failed())]),
    );
    assert_eq!(result.status, NodeExecutionStatus::Failed);
}

fn five_in_twos() -> WorkflowNodeInstanceEntity {
    limited(
        forkjoin_node(
            &["a", "b", "c", "d", "e"],
            Some(r#"{"total_tasks": 5, "dispatched_count": 2, "results": {}}"#),
        ),
        |t| {
            t.concurrency = 2;
            t.mode = ParallelMode::Batch;
        },
    )
}

#[test]
fn forkjoin_batch_mode_waits_for_current_batch() {
    let mut n = five_in_twos();
    let result = call_fork(
        &mut n,
        &fork_instance(),
        table(vec![
            ("wf1-fj-0", ChildStatus::Running),
            ("wf1-fj-1", ChildStatus::Running),
            ("wf1-fj-2", ChildStatus::NotFound),
            ("wf1-fj-3", ChildStatus::NotFound),
            ("wf1-fj-4", ChildStatus::NotFound),
        ]),
    );
    assert_eq!(result.status, NodeExecutionStatus::Await);
    assert!(result.dispatch_jobs.is_empty());
    assert!(result.dispatch_workflow_jobs.is_empty());
}

#[test]
fn forkjoin_batch_mode_dispatches_next_batch_when_current_completes() {
    let mut n = five_in_twos();
    let result = call_fork(
        &mut n,
        &fork_instance(),
        table(vec![
            ("wf1-fj-0", done()),
            ("wf1-fj-1", done()),
            ("wf1-fj-2", ChildStatus::NotFound),
            ("wf1-fj-3", ChildStatus::NotFound),
            ("wf1-fj-4", ChildStatus::NotFound),
        ]),
    );
    assert_eq!(result.status, NodeExecutionStatus::Await);
    assert!(result.dispatch_jobs.len() >= 2 || result.dispatch_workflow_jobs.len() >= 2);
}

#[test]
fn jobs_name_their_child_and_its_place() {
    let mut n = parallel_node(parallel_template(1, ParallelMode::Rolling, None), None);
    let result = run_parallel(&mut n, &three_items(), table(vec![("wf1-p-0", done())]));
    assert_eq!(result.dispatch_jobs.len(), 1);
    let job = &result.dispatch_jobs[0];
    assert_eq!(job.task_instance_id, "wf1-p-1");
    assert_eq!(job.tenant_id, "t1");
    let caller = job.caller_context.as_ref().unwrap();
    assert_eq!(caller.workflow_instance_id, "wf1");
    assert_eq!(caller.node_id, "p");
    assert_eq!(caller.item_index, Some(1));
}

#[test]
fn children_that_are_workflows_get_workflow_jobs() {
    let mut n = limited(forkjoin_node(&["a", "b"], None), |t| {
        t.tasks[1].task_template = TaskTemplate::SubWorkflow(SubWorkflowTemplate {
            workflow_meta_id: "m".into(),
            workflow_version: 1,
            form: vec![],
            timeout: None,
        });
    });
    let result = run_fork(&mut n, &fork_instance(), table(vec![]));
    assert_eq!(result.dispatch_jobs.len(), 1);
    assert_eq!(result.dispatch_workflow_jobs.len(), 1);
    assert_eq!(result.dispatch_workflow_jobs[0].workflow_instance_id, "wf1-fj-1");
}

#[test]
fn no_more_run_at_once_than_allowed() {
    let mut n = parallel_node(
        parallel_template(2, ParallelMode::Rolling, None),
        Some(r#"{"total_items": 3, "dispatched_count": 1, "results": {}}"#),
    );
    let result =
        run_parallel(&mut n, &three_items(), table(vec![("wf1-p-0", ChildStatus::Running)]));
    assert_eq!(result.dispatch_jobs.len(), 1);
}

#[test]
fn a_child_that_turns_up_meanwhile_is_not_started_again() {
    let mut n = parallel_node(parallel_template(3, ParallelMode::Rolling, None), None);
    let result = ParallelPlugin::new()
        .execute(
            &mut n,
            &three_items(),
            &table(vec![]),
            &table(vec![("wf1-p-1", ChildStatus::Running)]),
        )
        .unwrap();
    let ids: Vec<&str> = result.dispatch_jobs.iter().map(|j| j.task_instance_id.as_str()).collect();
    assert_eq!(ids, vec!["wf1-p-0", "wf1-p-2"]);
}

#[test]
fn items_are_found_by_their_path() {
    let path = |p: &str| match parallel_template(1, ParallelMode::Rolling, None) {
        TaskTemplate::Parallel(t) => ParallelTemplate { items_path: p.into(), ..t },
        _ => unreachable!(),
    };
    let n = parallel_node(parallel_template(1, ParallelMode::Rolling, None), None);
    let wf = items(r#"{"a": {"b": [7]}, "c": 1}"#);
    let found = |p: &str| ParallelPlugin::resolve_items(&path(p), &n, &wf);
    assert_eq!(found("a.b"), Ok(vec![json("7")]));
    assert_eq!(found("/a/b"), Ok(vec![json("7")]));
    assert!(found("c").is_err());
    assert!(found("a.x").is_err());
    assert_eq!(items_from(Some(json("[1]")), "p"), Ok(vec![json("1")]));
}

#[test]
fn failures_are_counted_against_their_limit() {
    assert!(!should_abort(None, 100));
    assert!(!should_abort(Some(2), 1));
    assert!(should_abort(Some(2), 2));
    assert!(!should_abort(Some(0), 0));
    assert!(should_abort(Some(0), 1));
    let mut g = ContainerGatherResult {
        completed_count: 0,
        failed_count: 0,
        skipped_count: 0,
        running_count: 0,
        not_found_count: 0,
        results_map: vec![],
    };
    g.record("a".into(), done());
    g.record("b".into(), ChildStatus::Running);
    assert_eq!(g.terminal_count(), 1);
    assert_eq!(diagnose(2, None, &g), ContainerDecision::AllDispatched);
    g.record("c".into(), failed());
    assert_eq!(diagnose(3, Some(0), &g), ContainerDecision::EarlyAbort);
    assert_eq!(diagnose(3, None, &g), ContainerDecision::AllDispatched);
    g.record("d".into(), ChildStatus::NotFound);
    assert_eq!(diagnose(4, None, &g), ContainerDecision::NeedDispatch);
    let mut all = ContainerGatherResult {
        completed_count: 0,
        failed_count: 0,
        skipped_count: 0,
        running_count: 0,
        not_found_count: 0,
        results_map: vec![],
    };
    all.record("a".into(), done());
    assert_eq!(diagnose(1, None, &all), ContainerDecision::AllDone(ContainerOutcome::Success));
}

#[test]
fn containers_need_their_own_template() {
    let t = table(vec![]);
    let mut n = parallel_node(TaskTemplate::Grpc, None);
    assert!(ParallelPlugin::new().execute(&mut n, &three_items(), &t, &t).is_err());
    assert!(ForkJoinPlugin::new().execute(&mut n, &fork_instance(), &t, &t).is_err());
    assert_eq!(ParallelPlugin::new().plugin_type(), TaskType::Parallel);
    assert_eq!(ForkJoinPlugin::new().plugin_type(), TaskType::ForkJoin);
}
