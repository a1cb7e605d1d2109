use workflow::entity::{TaskInstanceEntity, WorkflowInstanceEntity, WorkflowNodeInstanceEntity};
use workflow::json::Json;
use workflow::manager::after_save::Chore;
use workflow::manager::apply_exec::LoopAction;
use workflow::manager::ensure_task_job::{ChildInput, StoredTask, TaskJobStep};
use workflow::manager::executor::{create_plugin_manager, NodePlugin, NodeStep, PluginManager};
use workflow::manager::job::JobStep;
use workflow::manager::llm_request::{
    effective_llm_context, llm_form_layer, resolved_llm_request_snapshot, ResolvedPrompts,
};
use workflow::manager::node::RunStep;
use workflow::manager::workflow::{CallbackPayload, CallbackReadiness, ReviveStep, TickStep};
use workflow::plugin::interface::{ChildStatus, ChildTable, ExecutionResult};
use workflow::shared::{
    ExecuteTaskJob, ExecuteWorkflowJob, NodeExecutionStatus, TaskInstanceStatus, TaskType,
    WorkflowCallerContext, WorkflowEvent, WorkflowInstanceStatus,
};
use workflow::template::{
    ForkJoinTaskItem, ForkJoinTemplate, FormField, HttpMethod, LlmTemplate, ParallelMode,
    ParallelTemplate, SubWorkflowTemplate, TaskHttpTemplate, TaskTemplate,
};
use workflow::time::Timestamp;

fn at(secs: i64) -> Timestamp {
    Timestamp { secs, nanos: 0 }
}

fn json(text: &str) -> Json {
    Json::parse(text).unwrap()
}

fn make_exec_result(status: NodeExecutionStatus, jump_to_node: Option<String>) -> ExecutionResult {
    ExecutionResult { status, dispatch_jobs: vec![], dispatch_workflow_jobs: vec![], jump_to_node }
}

fn make_node_instance(
    node_id: &str,
    node_type: TaskType,
    status: NodeExecutionStatus,
    next_node: Option<&str>,
) -> WorkflowNodeInstanceEntity {
    WorkflowNodeInstanceEntity {
        node_id: node_id.into(),
        node_type,
        task_instance: TaskInstanceEntity {
            id: format!("ti-{}", node_id),
            tenant_id: "t1".into(),
            task_id: "td-1".into(),
            task_name: "test".into(),
            task_type: node_type,
            task_template: TaskTemplate::Grpc,
            task_status: TaskInstanceStatus::Pending,
            task_instance_id: format!("tii-{}", node_id),
            created_at: at(1),
            updated_at: at(1),
            deleted_at: None,
            input: None,
            output: None,
            error_message: None,
            execution_duration: None,
            caller_context: None,
        },
        context: Json::empty_object(),
        next_node: next_node.map(String::from),
        status,
        error_message: None,
        created_at: at(1),
        updated_at: at(1),
    }
}

fn make_node(node_id: &str, next_node: Option<&str>) -> WorkflowNodeInstanceEntity {
    make_node_instance(node_id, TaskType::Http, NodeExecutionStatus::Pending, next_node)
}

fn make_instance(
    status: WorkflowInstanceStatus,
    nodes: Vec<WorkflowNodeInstanceEntity>,
) -> WorkflowInstanceEntity {
    WorkflowInstanceEntity {
        workflow_instance_id: "wf-1".into(),
        tenant_id: "t1".into(),
        workflow_meta_id: "m1".into(),
        workflow_version: 1,
        status,
        created_at: at(1),
        updated_at: at(1),
        deleted_at: None,
        context: Json::empty_object(),
        entry_node: "node0".into(),
        current_node: "node0".into(),
        nodes,
        epoch: 0,
        locked_by: None,
        locked_duration: None,
        locked_at: None,
        parent_context: None,
        depth: 1,
        created_by: None,
    }
}

fn make_instance_with_node(
    status: WorkflowInstanceStatus,
    node: WorkflowNodeInstanceEntity,
) -> WorkflowInstanceEntity {
    let mut instance = make_instance(status, vec![node]);
    instance.current_node = "n1".into();
    instance
}

fn parent_ctx() -> WorkflowCallerContext {
    WorkflowCallerContext {
        workflow_instance_id: "parent-wf".into(),
        node_id: "parent-node".into(),
        parent_task_instance_id: None,
        item_index: None,
    }
}

fn running() -> WorkflowInstanceEntity {
    make_instance(WorkflowInstanceStatus::Running, vec![make_node("node0", None)])
}

#[test]
fn test_determine_loop_action_success_jump_to() {
    let mut instance = running();
    let result = make_exec_result(NodeExecutionStatus::Success, Some("node3".into()));
    let action = PluginManager::determine_loop_action(&mut instance, 0, &result);
    assert_eq!(action, LoopAction::Advance);
    assert_eq!(instance.current_node, "node3");
    assert_eq!(instance.nodes[0].next_node.as_deref(), Some("node3"));
}

#[test]
fn test_determine_loop_action_success_next_node() {
    let node = make_node("node0", Some("node1"));
    let mut instance = make_instance(WorkflowInstanceStatus::Running, vec![node]);
    let result = make_exec_result(NodeExecutionStatus::Success, None);
    let action = PluginManager::determine_loop_action(&mut instance, 0, &result);
    assert_eq!(action, LoopAction::Advance);
    assert_eq!(instance.current_node, "node1");
}

#[test]
fn test_determine_loop_action_success_no_next() {
    let mut instance = running();
    let result = make_exec_result(NodeExecutionStatus::Success, None);
    let action = PluginManager::determine_loop_action(&mut instance, 0, &result);
    assert_eq!(action, LoopAction::Done);
    assert_eq!(instance.status, WorkflowInstanceStatus::Completed);
}

#[test]
fn test_determine_loop_action_failed() {
    let mut instance = running();
    let result = make_exec_result(NodeExecutionStatus::Failed, None);
    let action = PluginManager::determine_loop_action(&mut instance, 0, &result);
    assert_eq!(action, LoopAction::Done);
    assert_eq!(instance.status, WorkflowInstanceStatus::Failed);
}

#[test]
fn test_determine_loop_action_await() {
    let mut instance = running();
    let result = make_exec_result(NodeExecutionStatus::Await, None);
    let action = PluginManager::determine_loop_action(&mut instance, 0, &result);
    assert_eq!(action, LoopAction::Done);
    assert_eq!(instance.status, WorkflowInstanceStatus::Await);
}

#[test]
fn test_determine_loop_action_pending_and_suspended() {
    for s in [NodeExecutionStatus::Pending, NodeExecutionStatus::Suspended] {
        let mut instance = running();
        let result = make_exec_result(s, None);
        let action = PluginManager::determine_loop_action(&mut instance, 0, &result);
        assert_eq!(action, LoopAction::Done);
        assert_eq!(instance.status, WorkflowInstanceStatus::Suspended);
    }
}

#[test]
fn test_determine_loop_action_retry() {
    let mut instance = running();
    let result = make_exec_result(NodeExecutionStatus::Running, None);
    let action = PluginManager::determine_loop_action(&mut instance, 0, &result);
    assert_eq!(action, LoopAction::Retry);
}

#[test]
fn test_determine_loop_action_skipped_jump_to() {
    let mut instance = running();
    let result = make_exec_result(NodeExecutionStatus::Skipped, Some("node5".into()));
    let action = PluginManager::determine_loop_action(&mut instance, 0, &result);
    assert_eq!(action, LoopAction::Advance);
    assert_eq!(instance.current_node, "node5");
}

#[test]
fn results_are_saved_with_a_new_epoch() {
    let mut instance = running();
    instance.parent_context = Some(parent_ctx());
    let after = PluginManager::apply_exec_result_at(
        &mut instance,
        0,
        make_exec_result(NodeExecutionStatus::Failed, None),
        at(9),
    );
    assert_eq!(instance.status, WorkflowInstanceStatus::Failed);
    assert_eq!(instance.updated_at, at(9));
    let next = PluginManager::instance_written(&mut instance, after, Ok(()), at(10)).unwrap();
    assert_eq!(next.action, LoopAction::Done);
    assert_eq!(instance.epoch, 1);
    assert_eq!(instance.updated_at, at(10));
    assert_eq!(instance.nodes[0].status, NodeExecutionStatus::Failed);
    assert_eq!(next.chores.len(), 2);
    assert!(matches!(&next.chores[0], Chore::Announce("node.failed")));
    match &next.chores[1] {
        Chore::TellParent(job) => {
            assert_eq!(job.workflow_instance_id, "parent-wf");
            assert!(matches!(
                job.event,
                WorkflowEvent::NodeCallback { status: NodeExecutionStatus::Failed, .. }
            ));
        }
        _ => unreachable!(),
    }
}

#[test]
fn nothing_leaves_when_the_write_fails() {
    let mut instance = running();
    instance.parent_context = Some(parent_ctx());
    let after = PluginManager::apply_exec_result_at(
        &mut instance,
        0,
        make_exec_result(NodeExecutionStatus::Failed, None),
        at(9),
    );
    let next = PluginManager::instance_written(&mut instance, after, Err("conflict".into()), at(10));
    assert_eq!(next.err().unwrap(), "conflict");
    assert_eq!(instance.epoch, 0);
    assert_eq!(instance.updated_at, at(9));
    let saved = PluginManager::save_instance_and_bump_epoch(&mut instance, Err("gone".into()), at(11));
    assert_eq!(saved, Err("gone".to_string()));
    assert_eq!(instance.epoch, 0);
    assert_eq!(PluginManager::save_instance_and_bump_epoch(&mut instance, Ok(()), at(12)), Ok(()));
    assert_eq!(instance.epoch, 1);
    assert_eq!(instance.updated_at, at(12));
}

fn make_parent(task_template: TaskTemplate, input: Option<Json>) -> TaskInstanceEntity {
    TaskInstanceEntity {
        id: "parent-1".into(),
        tenant_id: "t1".into(),
        task_id: "task-def".into(),
        task_name: "test".into(),
        task_type: TaskType::Http,
        task_template,
        task_status: TaskInstanceStatus::Pending,
        task_instance_id: "parent-inst-1".into(),
        created_at: at(1),
        updated_at: at(1),
        deleted_at: None,
        input,
        output: None,
        error_message: None,
        execution_duration: None,
        caller_context: None,
    }
}

fn make_job(item_index: Option<usize>) -> ExecuteTaskJob {
    ExecuteTaskJob {
        task_instance_id: "child-1".into(),
        tenant_id: "t1".into(),
        caller_context: Some(WorkflowCallerContext {
            workflow_instance_id: "wf-1".into(),
            node_id: "node1".into(),
            parent_task_instance_id: None,
            item_index,
        }),
    }
}

fn dummy_http_template() -> TaskHttpTemplate {
    TaskHttpTemplate {
        url: "https://example.com/api".into(),
        method: HttpMethod::Post,
        headers: vec![],
        body: vec![],
        form: vec![],
        retry_count: 0,
        retry_delay: 0,
        timeout: 10,
        success_condition: None,
    }
}

fn dummy_llm_template() -> LlmTemplate {
    LlmTemplate {
        base_url: "https://api.llm.com".into(),
        model: "gpt-4".into(),
        api_key_ref: "key-1".into(),
        system_prompt: None,
        user_prompt: "hello".into(),
        temperature: None,
        max_tokens: None,
        timeout: 30,
        retry_count: 0,
        retry_delay: 0,
        response_format: None,
        form: vec![],
    }
}

fn parallel_of(inner: TaskTemplate) -> TaskTemplate {
    TaskTemplate::Parallel(ParallelTemplate {
        task_template: Box::new(inner),
        items_path: "items".into(),
        item_alias: "item".into(),
        concurrency: 1,
        mode: ParallelMode::Rolling,
        max_failures: Some(0),
    })
}

#[test]
fn test_resolve_http_child_input_simple_parent() {
    let parent = make_parent(TaskTemplate::Http(dummy_http_template()), None);
    let result = PluginManager::resolve_http_child_input(&parent, &make_job(None));
    assert!(matches!(result, ChildInput::FromNodeContext));
}

#[test]
fn test_resolve_http_child_input_parent_has_resolved_url() {
    let parent = make_parent(
        TaskTemplate::Http(dummy_http_template()),
        Some(json(r#"{"url": "https://resolved.example.com", "body": "ok"}"#)),
    );
    match PluginManager::resolve_http_child_input(&parent, &make_job(None)) {
        ChildInput::Ready(Some(output)) => {
            assert_eq!(output.get_str("url"), Some("https://resolved.example.com"));
        }
        _ => unreachable!(),
    }
}

#[test]
fn test_resolve_http_child_input_parallel_parent() {
    let parent = make_parent(parallel_of(TaskTemplate::Http(dummy_http_template())), None);
    match PluginManager::resolve_http_child_input(&parent, &make_job(Some(0))) {
        ChildInput::FromItem { items_path, item_alias, index } => {
            assert_eq!(items_path, "items");
            assert_eq!(item_alias, "item");
            assert_eq!(index, 0);
        }
        _ => unreachable!(),
    }
}

#[test]
fn test_resolve_llm_child_input_simple_parent() {
    let parent = make_parent(TaskTemplate::Http(dummy_http_template()), None);
    let result = PluginManager::resolve_llm_child_input(&parent, &make_job(None));
    assert!(matches!(result, ChildInput::FromNodeContext));
}

#[test]
fn test_resolve_llm_child_input_parent_has_resolved() {
    let input = r#"{"system_prompt": "sys", "user_prompt": "hi"}"#;
    let parent = make_parent(TaskTemplate::Llm(dummy_llm_template()), Some(json(input)));
    match PluginManager::resolve_llm_child_input(&parent, &make_job(None)) {
        ChildInput::Ready(r) => assert_eq!(r, Some(json(input))),
        _ => unreachable!(),
    }
}

#[test]
fn test_resolve_llm_child_input_parallel_parent() {
    let parent = make_parent(parallel_of(TaskTemplate::Llm(dummy_llm_template())), None);
    let result = PluginManager::resolve_llm_child_input(&parent, &make_job(Some(0)));
    assert!(matches!(result, ChildInput::FromItem { index: 0, .. }));
}

#[test]
fn test_derive_child_template_parallel() {
    let parent = make_parent(parallel_of(TaskTemplate::Http(dummy_http_template())), None);
    let (template, tt, override_id) =
        PluginManager::derive_child_template(&parent, &make_job(Some(0))).unwrap();
    assert!(matches!(template, TaskTemplate::Http(_)));
    assert_eq!(tt, TaskType::Http);
    assert_eq!(override_id, None);
}

#[test]
fn test_derive_child_template_simple() {
    let parent = make_parent(TaskTemplate::Http(dummy_http_template()), None);
    let (template, tt, override_id) =
        PluginManager::derive_child_template(&parent, &make_job(None)).unwrap();
    assert!(matches!(template, TaskTemplate::Http(_)));
    assert_eq!(tt, TaskType::Http);
    assert_eq!(override_id, None);
}

fn fork_of_one() -> TaskTemplate {
    TaskTemplate::ForkJoin(ForkJoinTemplate {
        tasks: vec![ForkJoinTaskItem {
            task_key: "key1".into(),
            task_id: Some("fj-task-1".into()),
            name: "task1".into(),
            task_template: TaskTemplate::Http(dummy_http_template()),
        }],
        concurrency: 1,
        mode: ParallelMode::Batch,
        max_failures: Some(0),
    })
}

#[test]
fn test_derive_child_template_forkjoin() {
    let parent = make_parent(fork_of_one(), None);
    let (template, tt, override_id) =
        PluginManager::derive_child_template(&parent, &make_job(Some(0))).unwrap();
    assert!(matches!(template, TaskTemplate::Http(_)));
    assert_eq!(tt, TaskType::Http);
    assert_eq!(override_id, Some("fj-task-1".into()));
}

#[test]
fn children_of_a_fork_need_a_place_in_it() {
    let parent = make_parent(fork_of_one(), None);
    assert!(PluginManager::derive_child_template(&parent, &make_job(None)).is_err());
    assert!(PluginManager::derive_child_template(&parent, &make_job(Some(1))).is_err());
}

#[test]
fn tasks_are_created_once() {
    let parent = make_parent(TaskTemplate::Http(dummy_http_template()), None);
    let job = make_job(None);
    let created = match PluginManager::ensure_task_instance_for_job_at(
        &parent,
        &job,
        StoredTask::Missing,
        at(5),
    ) {
        Ok(TaskJobStep::Create(t, _)) => t,
        _ => unreachable!(),
    };
    assert_eq!(created.task_instance_id, "child-1");
    assert_eq!(created.created_at, at(5));
    assert_eq!(created.task_status, TaskInstanceStatus::Pending);
    let again = PluginManager::ensure_task_instance_for_job_at(
        &parent,
        &job,
        StoredTask::Found(created),
        at(6),
    );
    assert!(matches!(again, Ok(TaskJobStep::Leave)));
    let none = PluginManager::ensure_task_instance_for_job_at(
        &parent,
        &job,
        StoredTask::NoStore,
        at(6),
    );
    assert!(matches!(none, Ok(TaskJobStep::Leave)));
}

fn container(failed: u64, succeeded: u64, processed: &str, results: &str) -> WorkflowNodeInstanceEntity {
    let mut node =
        make_node_instance("node_6", TaskType::Parallel, NodeExecutionStatus::Failed, None);
    node.task_instance.task_template = parallel_of(TaskTemplate::Http(dummy_http_template()));
    node.error_message = Some("Parallel aborted".into());
    node.task_instance.output = Some(json(&format!(
        r#"{{"total_items": 2, "dispatched_count": 2, "success_count": {}, "failed_count": {},
            "skipped_count": 0, "processed_callbacks": {}, "results": {}}}"#,
        succeeded, failed, processed, results
    )));
    node
}

const BOTH: &str = r#"["wf-node_6-0", "wf-node_6-1"]"#;
const BOTH_FAILED: &str = r#"{"wf-node_6-0": {"status": "Failed", "output": null, "error": "err0"},
    "wf-node_6-1": {"status": "Failed", "output": null, "error": "err1"}}"#;

fn processed(node: &WorkflowNodeInstanceEntity) -> Vec<String> {
    match node.task_instance.output.as_ref().unwrap().get("processed_callbacks") {
        Some(Json::Array(a)) => a.iter().map(|v| v.as_str().unwrap().to_string()).collect(),
        _ => unreachable!(),
    }
}

#[test]
fn test_rollback_child_in_container_decrements_failed_count() {
    let mut node = container(2, 0, BOTH, BOTH_FAILED);
    PluginManager::rollback_child_in_container(&mut node, "wf-node_6-0");
    let state = node.task_instance.output.as_ref().unwrap();
    assert_eq!(state.get_u64("failed_count"), Some(1));
    assert_eq!(state.get("results").unwrap().get("wf-node_6-0"), Some(&Json::Null));
    let processed = processed(&node);
    assert!(!processed.contains(&"wf-node_6-0".to_string()));
    assert!(processed.contains(&"wf-node_6-1".to_string()));
}

#[test]
fn test_rollback_child_in_container_idempotent() {
    let mut node = container(2, 0, BOTH, BOTH_FAILED);
    PluginManager::rollback_child_in_container(&mut node, "wf-node_6-0");
    PluginManager::rollback_child_in_container(&mut node, "wf-node_6-0");
    let state = node.task_instance.output.as_ref().unwrap();
    assert_eq!(state.get_u64("failed_count"), Some(1));
}

#[test]
fn test_rollback_child_not_in_processed_is_noop() {
    let mut node = container(
        1,
        1,
        r#"["wf-node_6-1"]"#,
        r#"{"wf-node_6-0": {"status": "Success", "output": {"ok": true}},
            "wf-node_6-1": {"status": "Failed", "output": null, "error": "err"}}"#,
    );
    PluginManager::rollback_child_in_container(&mut node, "wf-node_6-99");
    let state = node.task_instance.output.as_ref().unwrap();
    assert_eq!(state.get_u64("failed_count"), Some(1));
    assert_eq!(state.get_u64("success_count"), Some(1));
}

#[test]
fn test_rollback_two_children_sequentially() {
    let mut node = container(2, 0, BOTH, BOTH_FAILED);
    PluginManager::rollback_child_in_container(&mut node, "wf-node_6-0");
    PluginManager::rollback_child_in_container(&mut node, "wf-node_6-1");
    let state = node.task_instance.output.as_ref().unwrap();
    assert_eq!(state.get_u64("failed_count"), Some(0));
    assert!(processed(&node).is_empty());
}

fn awaiting_at(current: &str) -> WorkflowInstanceEntity {
    let mut instance = make_instance(WorkflowInstanceStatus::Await, vec![]);
    instance.entry_node = "node_1".into();
    instance.current_node = current.into();
    instance.epoch = 10;
    instance.created_by = Some("user".into());
    instance
}

#[test]
fn test_stale_callback_guard_rejects_mismatched_node() {
    let instance = awaiting_at("node_9");
    assert_ne!("node_6", instance.get_current_node());
    assert_eq!("node_9", instance.get_current_node());
    assert!(matches!(
        PluginManager::prepare_instance_for_node_callback(&instance, "node_6"),
        CallbackReadiness::Ignored
    ));
}

#[test]
fn test_stale_callback_guard_accepts_matching_node() {
    let instance = awaiting_at("node_6");
    assert_eq!("node_6", instance.get_current_node());
    match PluginManager::prepare_instance_for_node_callback(&instance, "node_6") {
        CallbackReadiness::Ready(path) => assert_eq!(
            path,
            vec![WorkflowInstanceStatus::Pending, WorkflowInstanceStatus::Running]
        ),
        CallbackReadiness::Ignored => unreachable!(),
    }
}

fn job(event: WorkflowEvent) -> ExecuteWorkflowJob {
    ExecuteWorkflowJob { workflow_instance_id: "wf-1".into(), tenant_id: "t1".into(), event }
}

#[test]
fn process_workflow_job_start_event_with_empty_nodes() {
    let mut instance = make_instance(WorkflowInstanceStatus::Pending, vec![]);
    let result = PluginManager::process_workflow_job(job(WorkflowEvent::Start), &mut instance);
    assert!(result.is_ok());
    assert!(matches!(result, Ok(JobStep::Run)));
}

#[test]
fn process_workflow_job_missing_instance_returns_err() {
    let result = PluginManager::lock_answered("wf-1", Err("not found".into()));
    assert!(result.is_err());
    assert_eq!(result.err().unwrap(), "failed to acquire lock for instance wf-1: not found");
    assert_eq!(
        PluginManager::lock_error("wf-1", "not found"),
        "failed to acquire lock for instance wf-1: not found"
    );
}

#[test]
fn a_lock_is_given_back_whatever_came_of_the_job() {
    let locked = make_instance(WorkflowInstanceStatus::Pending, vec![]);
    assert_eq!(PluginManager::lock_answered("wf-1", Ok(locked)).unwrap().workflow_instance_id, "wf-1");
    for handled in [Ok(()), Err("no such node".to_string())] {
        for released in [Ok(()), Err("not held".to_string())] {
            let (plan, job) = PluginManager::job_handled("wf-1", "w-1", handled.clone(), at(5));
            assert_eq!(plan.filter.get_str("workflow_instance_id"), Some("wf-1"));
            assert_eq!(plan.filter.get_str("locked_by"), Some("w-1"));
            assert_eq!(PluginManager::job_done(job, released), handled);
        }
    }
}

#[test]
fn child_revived_failed_instance_dispatches_events() {
    let node = make_node_instance("n1", TaskType::Http, NodeExecutionStatus::Failed, None);
    let mut instance = make_instance_with_node(WorkflowInstanceStatus::Failed, node);
    instance.parent_context = Some(parent_ctx());
    let event = WorkflowEvent::ChildRevived { node_id: "n1".into(), child_id: "child-1".into() };
    match PluginManager::process_workflow_job(job(event), &mut instance) {
        Ok(JobStep::Revive(ReviveStep::Restart(parents, start))) => {
            assert_eq!(parents.len(), 1);
            assert_eq!(parents[0].workflow_instance_id, "parent-wf");
            assert!(matches!(parents[0].event, WorkflowEvent::ChildRevived { .. }));
            assert_eq!(start, job(WorkflowEvent::Start));
        }
        _ => unreachable!(),
    }
    assert_eq!(instance.status, WorkflowInstanceStatus::Pending);
    assert_eq!(instance.nodes[0].status, NodeExecutionStatus::Pending);
}

#[test]
fn retry_container_child_failed_instance_dispatches_events() {
    let node = make_node_instance("n1", TaskType::Http, NodeExecutionStatus::Failed, None);
    let mut instance = make_instance_with_node(WorkflowInstanceStatus::Failed, node);
    let event = WorkflowEvent::RetryContainerChild {
        node_id: "n1".into(),
        child_task_id: "child-1".into(),
    };
    match PluginManager::process_workflow_job(job(event), &mut instance) {
        Ok(JobStep::Retry { step: ReviveStep::Restart(_, start), child_task_id, .. }) => {
            assert_eq!(start, job(WorkflowEvent::Start));
            assert_eq!(child_task_id, "child-1");
        }
        _ => unreachable!(),
    }
}

#[test]
fn child_revived_await_instance_returns_ok() {
    let node = make_node_instance("n1", TaskType::Http, NodeExecutionStatus::Await, None);
    let mut instance = make_instance_with_node(WorkflowInstanceStatus::Await, node);
    let event = WorkflowEvent::ChildRevived { node_id: "n1".into(), child_id: "child-1".into() };
    let result = PluginManager::process_workflow_job(job(event), &mut instance);
    assert!(result.is_ok());
    assert!(matches!(result, Ok(JobStep::Revive(ReviveStep::Leave))));
}

#[test]
fn ended_instances_are_left_alone() {
    for status in [WorkflowInstanceStatus::Completed, WorkflowInstanceStatus::Canceled] {
        let node = make_node_instance("n1", TaskType::Http, NodeExecutionStatus::Success, None);
        let mut instance = make_instance_with_node(status, node);
        let event = WorkflowEvent::ChildRevived { node_id: "n1".into(), child_id: "c".into() };
        let r = PluginManager::process_workflow_job(job(event), &mut instance);
        assert!(matches!(r, Ok(JobStep::Revive(ReviveStep::Leave))));
        let r = PluginManager::process_workflow_job(job(WorkflowEvent::Start), &mut instance);
        assert!(matches!(r, Ok(JobStep::Ignore)));
    }
}

#[test]
fn revived_children_need_their_node() {
    let node = make_node_instance("n1", TaskType::Http, NodeExecutionStatus::Failed, None);
    let mut instance = make_instance_with_node(WorkflowInstanceStatus::Failed, node);
    assert_eq!(
        PluginManager::on_child_revived_at(&mut instance, "x", "c", at(2)).unwrap_err(),
        "revive_from_failed: node not found: x"
    );
    assert_eq!(
        PluginManager::on_retry_container_child_at(&mut instance, "x", "c", at(2)).unwrap_err(),
        "RetryContainerChild: node x not found"
    );
    instance.status = WorkflowInstanceStatus::Await;
    assert_eq!(
        PluginManager::on_child_revived_at(&mut instance, "x", "c", at(2)).unwrap_err(),
        "revive_from_await: node not found: x"
    );
}

fn payload(status: NodeExecutionStatus) -> CallbackPayload {
    CallbackPayload { status, output: None, error_message: None, input: None }
}

#[test]
fn callbacks_are_filled_in_from_the_task() {
    let mut task = make_parent(TaskTemplate::Grpc, Some(json("1")));
    task.task_status = TaskInstanceStatus::Failed;
    task.output = Some(json("2"));
    task.error_message = Some("e".into());
    let p = PluginManager::enrich_callback_from_task_store(
        payload(NodeExecutionStatus::Success),
        Some(&task),
    );
    assert_eq!(p.status, NodeExecutionStatus::Failed);
    assert_eq!(p.input, Some(json("1")));
    assert_eq!(p.output, Some(json("2")));
    assert_eq!(p.error_message, Some("e".to_string()));
    let p = PluginManager::enrich_callback_from_task_store(
        payload(NodeExecutionStatus::Skipped),
        Some(&task),
    );
    assert_eq!(p.status, NodeExecutionStatus::Skipped);
    let p = PluginManager::enrich_callback_from_task_store(
        payload(NodeExecutionStatus::Success),
        None,
    );
    assert_eq!(p.status, NodeExecutionStatus::Success);
    assert_eq!(p.output, None);
}

#[test]
fn lost_callbacks_are_sent_again() {
    let mut task = make_parent(TaskTemplate::Grpc, None);
    let sent = |t: Option<&TaskInstanceEntity>| {
        PluginManager::supplement_callback("wf-1", "t1", "n1", "c", t)
    };
    assert!(sent(None).is_none());
    assert!(sent(Some(&task)).is_none());
    task.task_status = TaskInstanceStatus::Completed;
    match sent(Some(&task)).unwrap().event {
        WorkflowEvent::NodeCallback { status, child_task_id, .. } => {
            assert_eq!(status, NodeExecutionStatus::Success);
            assert_eq!(child_task_id, "c");
        }
        _ => unreachable!(),
    }
}

#[test]
fn the_loop_walks_from_node_to_node() {
    let mut node = make_node("node0", Some("node1"));
    node.status = NodeExecutionStatus::Success;
    let mut instance =
        make_instance(WorkflowInstanceStatus::Running, vec![node, make_node("node1", None)]);
    let step = PluginManager::workflow_loop_tick_at(&mut instance, 0, at(4)).unwrap();
    assert!(matches!(step, TickStep::SaveAndContinue));
    assert_eq!(instance.current_node, "node1");
    assert_eq!(PluginManager::node_index_for_id(&instance, "node1"), Ok(1));
    assert_eq!(
        PluginManager::node_index_for_id(&instance, "x"),
        Err("node not found: x".to_string())
    );
    let step = PluginManager::workflow_loop_tick_at(&mut instance, 1, at(5)).unwrap();
    assert!(matches!(step, TickStep::SaveAndRun));
    assert_eq!(instance.nodes[1].status, NodeExecutionStatus::Running);
    let after = PluginManager::node_ran_at(
        &mut instance,
        1,
        make_node("node1", None),
        Ok(make_exec_result(NodeExecutionStatus::Success, None)),
        at(6),
    );
    let next = PluginManager::instance_written(&mut instance, after, Ok(()), at(6)).unwrap();
    assert_eq!(next.action, LoopAction::Done);
    assert_eq!(instance.status, WorkflowInstanceStatus::Completed);
    assert!(!PluginManager::goes_on(next.action));
}

#[test]
fn a_node_that_cannot_be_run_fails_the_instance() {
    let mut instance = running();
    let after = PluginManager::node_ran_at(
        &mut instance,
        0,
        make_node("node0", None),
        Err("no plugin".into()),
        at(6),
    );
    let next = PluginManager::instance_written(&mut instance, after, Ok(()), at(6)).unwrap();
    assert_eq!(next.action, LoopAction::Done);
    assert_eq!(instance.status, WorkflowInstanceStatus::Failed);
    assert_eq!(instance.nodes[0].error_message, Some("no plugin".to_string()));
}

#[test]
fn only_what_is_waiting_is_started() {
    let mut instance = make_instance(WorkflowInstanceStatus::Pending, vec![]);
    assert!(PluginManager::on_workflow_start(&instance));
    instance.status = WorkflowInstanceStatus::Running;
    assert!(!PluginManager::on_workflow_start(&instance));
    assert!(PluginManager::reload_workflow_if_running(&instance));
    assert!(PluginManager::execute_workflow(&WorkflowInstanceStatus::Pending));
    assert!(!PluginManager::execute_workflow(&WorkflowInstanceStatus::Running));
}

#[test]
fn every_kind_but_one_has_its_plugin() {
    let manager = create_plugin_manager();
    for (kind, plugin) in [
        (TaskType::Http, NodePlugin::Http),
        (TaskType::Parallel, NodePlugin::Parallel),
        (TaskType::ForkJoin, NodePlugin::ForkJoin),
        (TaskType::SubWorkflow, NodePlugin::SubWorkflow),
        (TaskType::Approval, NodePlugin::Approval),
        (TaskType::IfCondition, NodePlugin::IfCondition),
        (TaskType::ContextRewrite, NodePlugin::ContextRewrite),
        (TaskType::Pause, NodePlugin::Pause),
        (TaskType::Llm, NodePlugin::Llm),
    ] {
        assert_eq!(manager.plugin_for(&kind), Ok(plugin));
        assert_eq!(plugin.plugin_type(), kind);
    }
    assert!(manager.plugin_for(&TaskType::Grpc).is_err());
    assert!(PluginManager::new().plugin_for(&TaskType::Http).is_err());
}

#[test]
fn nodes_run_with_the_plugin_of_their_kind() {
    let manager = create_plugin_manager();
    let none = ChildTable { entries: vec![] };
    let mut instance = running();
    let mut node = make_node("node0", None);
    match manager.execute_node_instance(&mut node, &mut instance, &none, &none) {
        Ok(NodeStep::Done(r)) => {
            assert_eq!(r.status, NodeExecutionStatus::Await);
            assert_eq!(r.dispatch_jobs[0].task_instance_id, "wf-1-node0");
        }
        _ => unreachable!(),
    }
    let r = manager
        .handle_node_callback(
            &mut node,
            &instance,
            &NodeExecutionStatus::Success,
            &Some(json("3")),
            &None,
            &None,
            &none,
            &none,
        )
        .unwrap();
    assert_eq!(r.status, NodeExecutionStatus::Success);
    assert_eq!(node.task_instance.output, Some(json("3")));
}

#[test]
fn children_are_known_by_their_task_or_workflow() {
    let http = TaskTemplate::Http(dummy_http_template());
    let mut task = make_parent(TaskTemplate::Grpc, None);
    task.output = Some(json("1"));
    task.task_status = TaskInstanceStatus::Completed;
    match PluginManager::resolve_child_status(&http, None, Some(&task)) {
        ChildStatus::Completed(o) => assert_eq!(o, Some(json("1"))),
        _ => unreachable!(),
    }
    assert!(matches!(
        PluginManager::resolve_child_status(&http, None, None),
        ChildStatus::NotFound
    ));
    let sub = TaskTemplate::SubWorkflow(SubWorkflowTemplate {
        workflow_meta_id: "m".into(),
        workflow_version: 1,
        form: vec![],
        timeout: None,
    });
    let child = make_instance(WorkflowInstanceStatus::Failed, vec![]);
    assert!(matches!(
        PluginManager::resolve_child_status(&sub, Some(&child), None),
        ChildStatus::Failed(_, _)
    ));
    task.task_status = TaskInstanceStatus::Failed;
    assert!(PluginManager::is_task_still_failed(&StoredTask::NoStore));
    assert!(!PluginManager::is_task_still_failed(&StoredTask::Missing));
    assert!(PluginManager::is_task_still_failed(&StoredTask::Found(task.clone())));
    task.task_status = TaskInstanceStatus::Running;
    assert!(!PluginManager::is_task_still_failed(&StoredTask::Found(task)));
}

#[test]
fn notices_name_their_tenant() {
    let event = PluginManager::emit_notification(
        "workflow.failed",
        Some("m1"),
        None,
        json(r#"{"data": {"tenant_id": "t9"}}"#),
    );
    assert_eq!(event.tenant_id, "t9");
    assert_eq!(event.event_type, "workflow.failed");
    assert_eq!(event.workflow_meta_id, Some("m1".to_string()));
}

#[test]
fn prompts_see_the_context_before_the_form() {
    let field = |k: &str| FormField { key: k.into(), value: Json::Null };
    let layer = llm_form_layer(&vec![field("a"), field("  "), field("b")], &vec![
        json("1"),
        json("2"),
        json("3"),
    ]);
    assert_eq!(Json::Object(layer.clone()), json(r#"{"a": 1, "b": 3}"#));
    let ctx = effective_llm_context(&json(r#"{"a": 7}"#), &layer);
    assert_eq!(ctx.get_u64("a"), Some(7));
    assert_eq!(ctx.get_u64("b"), Some(3));
    let shot = resolved_llm_request_snapshot(&dummy_llm_template(), &layer, &ResolvedPrompts {
        base_url: "u".into(),
        model: "m".into(),
        system_prompt: "s".into(),
        user_prompt: "p".into(),
        api_key: None,
    });
    assert_eq!(shot.get_str("model"), Some("m"));
    assert_eq!(shot.get_str("user_prompt"), Some("p"));
}

#[test]
fn a_node_is_run_and_its_jobs_are_handed_out_in_order() {
    let manager = create_plugin_manager();
    let none = ChildTable { entries: vec![] };
    let mut instance = running();
    let node = make_node("node0", None);
    let after = match manager.run_node(&mut instance, 0, node, &none, &none) {
        RunStep::Applied(after) => after,
        _ => unreachable!(),
    };
    assert_eq!(instance.status, WorkflowInstanceStatus::Await);
    assert_eq!(instance.nodes[0].status, NodeExecutionStatus::Await);
    let next = PluginManager::instance_written(&mut instance, after, Ok(()), at(6)).unwrap();
    assert_eq!(next.action, LoopAction::Done);
    let chores = next.chores;
    assert_eq!(chores.len(), 2);
    match (&chores[0], &chores[1]) {
        (Chore::EnsureTask(a), Chore::SendTask(b)) => {
            assert_eq!(a.task_instance_id, "wf-1-node0");
            assert_eq!(b.task_instance_id, "wf-1-node0");
        }
        _ => unreachable!(),
    }
}

#[test]
fn a_node_without_a_plugin_fails_its_instance() {
    let none = ChildTable { entries: vec![] };
    let mut instance = running();
    instance.parent_context = Some(parent_ctx());
    let node = make_node("node0", None);
    let after = match PluginManager::new().run_node_at(&mut instance, 0, node, &none, &none, at(7)) {
        RunStep::Applied(after) => after,
        _ => unreachable!(),
    };
    assert_eq!(instance.status, WorkflowInstanceStatus::Failed);
    assert_eq!(instance.updated_at, at(7));
    assert_eq!(
        instance.nodes[0].error_message.as_deref(),
        Some("no plugin registered for task type: Http")
    );
    let next = PluginManager::instance_written(&mut instance, after, Ok(()), at(8)).unwrap();
    let chores = next.chores;
    assert!(matches!(&chores[0], Chore::Announce("node.failed")));
    match &chores[1] {
        Chore::TellParent(job) => assert_eq!(job.workflow_instance_id, "parent-wf"),
        _ => unreachable!(),
    }
    assert_eq!(chores.len(), 2);
}

#[test]
fn a_callback_ends_its_node() {
    let manager = create_plugin_manager();
    let none = ChildTable { entries: vec![] };
    let payload = || CallbackPayload {
        status: NodeExecutionStatus::Running,
        output: None,
        error_message: None,
        input: None,
    };
    let mut task = make_parent(TaskTemplate::Grpc, None);
    task.task_status = TaskInstanceStatus::Completed;
    task.output = Some(json("5"));

    let mut instance = running();
    let r = manager.on_node_callback(&mut instance, "nowhere", payload(), Some(&task), &none, &none);
    assert!(r.unwrap().is_none());
    assert_eq!(instance.status, WorkflowInstanceStatus::Running);

    let after = manager
        .on_node_callback_at(&mut instance, "node0", payload(), Some(&task), &none, &none, at(8))
        .unwrap()
        .unwrap();
    assert_eq!(instance.status, WorkflowInstanceStatus::Completed);
    assert_eq!(instance.nodes[0].task_instance.output, Some(json("5")));
    assert_eq!(instance.updated_at, at(8));
    let next = PluginManager::instance_written(&mut instance, after, Ok(()), at(9)).unwrap();
    assert_eq!(next.action, LoopAction::Done);

    let mut instance = running();
    let r = PluginManager::new().on_node_callback(&mut instance, "node0", payload(), None, &none, &none);
    assert_eq!(r.err().as_deref(), Some("no plugin registered for task type: Http"));
    assert_eq!(instance.status, WorkflowInstanceStatus::Running);
}
