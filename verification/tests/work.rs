use workflow::approval::ApprovalInstanceEntity;
use workflow::auth::{AuthContext, AuthService, TokenService};
use workflow::entity::{TaskInstanceEntity, WorkflowInstanceEntity, WorkflowNodeInstanceEntity};
use workflow::executors::http::{EffectiveRequest, HttpResponse, HttpTaskExecutor};
use workflow::executors::llm::LlmTaskExecutor;
use workflow::executors::NextStep;
use workflow::json::{Json, JsonNumber};
use workflow::manager::executor::PluginManager;
use workflow::manager::job::JobStep;
use workflow::plugin::pause::PausePlugin;
use workflow::shared::{
    ApprovalStatus, NodeExecutionStatus, TaskInstanceStatus, TaskType, WorkflowEvent,
    WorkflowInstanceStatus,
};
use workflow::sweeper::{ApprovalSweep, AwaitedChildren, SweepAction, Sweeper, SweeperConfig, ZombieStep};
use workflow::template::{
    ApprovalMode, ForkJoinTemplate, HttpMethod, LlmResponseFormat, LlmTemplate, ParallelMode,
    PauseMode, PauseTemplate, TaskHttpTemplate, TaskTemplate,
};
use workflow::time::Timestamp;
use workflow::usecase::{TaskEntity, TaskUsecase, WorkflowUsecase};
use workflow::user::TenantRole;
use workflow::variable::VariableService;

fn at(secs: i64) -> Timestamp {
    Timestamp { secs, nanos: 0 }
}

fn json(text: &str) -> Json {
    Json::parse(text).unwrap()
}

fn http(url: &str) -> TaskTemplate {
    TaskTemplate::Http(TaskHttpTemplate {
        url: url.into(),
        method: HttpMethod::Get,
        headers: vec![],
        body: vec![],
        form: vec![],
        retry_count: 0,
        retry_delay: 0,
        timeout: 30,
        success_condition: None,
    })
}

fn task(id: &str, status: TaskInstanceStatus) -> TaskInstanceEntity {
    TaskInstanceEntity {
        id: "ti".into(),
        tenant_id: "t1".into(),
        task_id: "".into(),
        task_name: "test".into(),
        task_type: TaskType::Http,
        task_template: TaskTemplate::Grpc,
        task_status: status,
        task_instance_id: id.into(),
        created_at: at(1),
        updated_at: at(1),
        deleted_at: None,
        input: None,
        output: None,
        error_message: None,
        execution_duration: None,
        caller_context: None,
    }
}

fn make_node(
    node_id: &str,
    status: NodeExecutionStatus,
    node_type: TaskType,
    template: TaskTemplate,
) -> WorkflowNodeInstanceEntity {
    let mut t = task(node_id, TaskInstanceStatus::Pending);
    t.task_template = template;
    WorkflowNodeInstanceEntity {
        node_id: node_id.into(),
        node_type,
        task_instance: t,
        context: Json::empty_object(),
        next_node: None,
        status,
        error_message: None,
        created_at: at(1),
        updated_at: at(1),
    }
}

fn make_instance(
    id: &str,
    status: WorkflowInstanceStatus,
    current: &str,
    nodes: Vec<WorkflowNodeInstanceEntity>,
) -> WorkflowInstanceEntity {
    WorkflowInstanceEntity {
        workflow_instance_id: id.into(),
        tenant_id: "t1".into(),
        workflow_meta_id: "m1".into(),
        workflow_version: 1,
        status,
        created_at: at(1),
        updated_at: at(1),
        deleted_at: None,
        context: Json::empty_object(),
        entry_node: current.into(),
        current_node: current.into(),
        nodes,
        epoch: 0,
        locked_by: None,
        locked_duration: None,
        locked_at: None,
        parent_context: None,
        depth: 0,
        created_by: None,
    }
}

fn at_http_node(
    id: &str,
    status: WorkflowInstanceStatus,
    node_id: &str,
    node_status: NodeExecutionStatus,
) -> WorkflowInstanceEntity {
    let node = make_node(node_id, node_status, TaskType::Http, http("/cb"));
    make_instance(id, status, node_id, vec![node])
}

fn only_child(instance: &WorkflowInstanceEntity) -> String {
    match Sweeper::recover_await(instance) {
        Ok(AwaitedChildren::Single(0, id)) => id,
        _ => unreachable!(),
    }
}

#[test]
fn run_cycle_cas_failure_skips_instance() {
    let instance =
        at_http_node("wf1", WorkflowInstanceStatus::Running, "n1", NodeExecutionStatus::Pending);
    assert_eq!(Sweeper::run_cycle(&instance, false), ZombieStep::Leave);
    assert_eq!(Sweeper::run_cycle(&instance, true), ZombieStep::Restart);
}

#[test]
fn recover_running_instance_with_pending_node_restarts_via_start() {
    let instance =
        at_http_node("wf1", WorkflowInstanceStatus::Running, "n1", NodeExecutionStatus::Pending);
    assert_eq!(Sweeper::recover(&instance), ZombieStep::Restart);
    let job = Sweeper::restart_via_start(&instance);
    assert_eq!(job.workflow_instance_id, "wf1");
    assert!(matches!(job.event, WorkflowEvent::Start));
}

#[test]
fn recover_running_instance_with_await_node_delegates_to_recover_await() {
    let instance =
        at_http_node("wf1", WorkflowInstanceStatus::Running, "a1", NodeExecutionStatus::Await);
    assert_eq!(Sweeper::recover(&instance), ZombieStep::AwaitAndRecover);
    assert_eq!(only_child(&instance), "wf1-a1");
    let mut done = task("wf1-a1", TaskInstanceStatus::Completed);
    done.output = Some(json(r#"{"result": "ok"}"#));
    match Sweeper::recover_await_single(&instance, &instance.nodes[0], Some(&done)) {
        SweepAction::Callback(job) => match job.event {
            WorkflowEvent::NodeCallback { node_id, child_task_id, status, .. } => {
                assert_eq!(node_id, "a1");
                assert_eq!(child_task_id, "wf1-a1");
                assert_eq!(status, NodeExecutionStatus::Success);
            }
            _ => panic!("expected NodeCallback"),
        },
        _ => unreachable!(),
    }
}

#[test]
fn recover_running_instance_with_suspended_node_delegates_to_recover_await() {
    let template = TaskTemplate::Pause(PauseTemplate { wait_seconds: 60, mode: PauseMode::Auto });
    let node = make_node("p1", NodeExecutionStatus::Suspended, TaskType::Pause, template);
    let instance = make_instance("wf1", WorkflowInstanceStatus::Running, "p1", vec![node]);
    assert_eq!(Sweeper::recover(&instance), ZombieStep::AwaitAndRecover);
    match Sweeper::recover_await_single(&instance, &instance.nodes[0], None) {
        SweepAction::Restart(job) => assert!(matches!(job.event, WorkflowEvent::Start)),
        _ => unreachable!(),
    }
}

#[test]
fn recover_await_single_completed_task_supplements_callback() {
    let instance =
        at_http_node("wf1", WorkflowInstanceStatus::Await, "h1", NodeExecutionStatus::Await);
    assert_eq!(Sweeper::recover(&instance), ZombieStep::Recover);
    let mut done = task("wf1-h1", TaskInstanceStatus::Completed);
    done.output = Some(json(r#"{"result": "done"}"#));
    match Sweeper::recover_await_single(&instance, &instance.nodes[0], Some(&done)) {
        SweepAction::Callback(job) => match job.event {
            WorkflowEvent::NodeCallback { node_id, child_task_id, status, output, .. } => {
                assert_eq!(node_id, "h1");
                assert_eq!(child_task_id, "wf1-h1");
                assert_eq!(status, NodeExecutionStatus::Success);
                assert_eq!(output.unwrap().get_str("result"), Some("done"));
            }
            _ => panic!("expected NodeCallback"),
        },
        _ => unreachable!(),
    }
}

#[test]
fn recover_await_single_failed_task_supplements_callback() {
    let instance =
        at_http_node("wf2", WorkflowInstanceStatus::Await, "h2", NodeExecutionStatus::Await);
    let mut failed = task("wf2-h2", TaskInstanceStatus::Failed);
    failed.error_message = Some("timeout".into());
    match Sweeper::recover_await_single(&instance, &instance.nodes[0], Some(&failed)) {
        SweepAction::Callback(job) => match job.event {
            WorkflowEvent::NodeCallback { status, error_message, .. } => {
                assert_eq!(status, NodeExecutionStatus::Failed);
                assert_eq!(error_message.as_deref(), Some("timeout"));
            }
            _ => panic!("expected NodeCallback"),
        },
        _ => unreachable!(),
    }
}

#[test]
fn recover_await_single_stale_task_redispatches() {
    let instance =
        at_http_node("wf3", WorkflowInstanceStatus::Await, "h3", NodeExecutionStatus::Await);
    let stale = task("wf3-h3", TaskInstanceStatus::Pending);
    match Sweeper::recover_await_single(&instance, &instance.nodes[0], Some(&stale)) {
        SweepAction::Redispatch(job) => assert_eq!(job.task_instance_id, "wf3-h3"),
        _ => unreachable!(),
    }
}

#[test]
fn recover_await_single_no_task_restarts_via_start() {
    let instance =
        at_http_node("wf4", WorkflowInstanceStatus::Await, "h4", NodeExecutionStatus::Await);
    match Sweeper::recover_await_single(&instance, &instance.nodes[0], None) {
        SweepAction::Restart(job) => assert!(matches!(job.event, WorkflowEvent::Start)),
        _ => unreachable!(),
    }
}

#[test]
fn recover_await_container_mixed_states() {
    let template = TaskTemplate::ForkJoin(ForkJoinTemplate {
        tasks: vec![],
        concurrency: 2,
        mode: ParallelMode::Batch,
        max_failures: None,
    });
    let mut node = make_node("fj1", NodeExecutionStatus::Await, TaskType::ForkJoin, template);
    node.task_instance.output = Some(json(
        r#"{"total_items": 3, "dispatched_count": 3, "success_count": 1, "failed_count": 0}"#,
    ));
    let instance = make_instance("wf5", WorkflowInstanceStatus::Await, "fj1", vec![node]);
    assert!(matches!(Sweeper::recover_await(&instance), Ok(AwaitedChildren::Container(0, 3))));
    let mut completed = task("wf5-fj1-0", TaskInstanceStatus::Completed);
    completed.output = Some(json(r#"{"idx": 0}"#));
    let mut failed = task("wf5-fj1-1", TaskInstanceStatus::Failed);
    failed.error_message = Some("fail".into());
    let stale = task("wf5-fj1-2", TaskInstanceStatus::Running);
    let actions = Sweeper::recover_await_container(
        &instance,
        &instance.nodes[0],
        &vec![Some(completed), Some(failed), Some(stale)],
    );
    let callbacks = actions.iter().filter(|a| matches!(a, SweepAction::Callback(_))).count();
    assert_eq!(callbacks, 2);
    let tasks = actions.iter().filter(|a| matches!(a, SweepAction::Redispatch(_))).count();
    assert_eq!(tasks, 1);
}

#[test]
fn recovery_needs_a_node_and_its_state() {
    let none = make_instance("wf", WorkflowInstanceStatus::Await, "x", vec![]);
    assert_eq!(Sweeper::recover_await(&none).unwrap_err(), "current node x not found");
    assert_eq!(Sweeper::recover(&none), ZombieStep::Recover);
    let template = TaskTemplate::ForkJoin(ForkJoinTemplate {
        tasks: vec![],
        concurrency: 2,
        mode: ParallelMode::Batch,
        max_failures: None,
    });
    let node = make_node("fj", NodeExecutionStatus::Await, TaskType::ForkJoin, template);
    let blank = make_instance("wf", WorkflowInstanceStatus::Await, "fj", vec![node]);
    assert_eq!(
        Sweeper::recover_await(&blank).unwrap_err(),
        "no state in parallel/forkjoin node output"
    );
    let ended = make_instance("wf", WorkflowInstanceStatus::Completed, "x", vec![]);
    assert_eq!(Sweeper::recover(&ended), ZombieStep::Leave);
}

fn approval(id: &str, node_id: &str) -> ApprovalInstanceEntity {
    ApprovalInstanceEntity {
        id: id.into(),
        tenant_id: "t1".into(),
        workflow_instance_id: "wf1".into(),
        node_id: node_id.into(),
        title: "test".into(),
        description: None,
        approval_mode: ApprovalMode::Any,
        approvers: vec!["u1".into()],
        status: ApprovalStatus::Pending,
        created_at: at(1),
        updated_at: at(1),
        expires_at: Some(at(2)),
        applicant_id: None,
    }
}

#[test]
fn only_approvals_that_were_marked_are_told_of() {
    let all = vec![approval("x", "a1"), approval("y", "a2"), approval("z", "a3")];
    let mut sweep = ApprovalSweep::new(all);
    assert_eq!(sweep.to_mark().unwrap().id, "x");
    assert!(sweep.approval_expired(Err("not pending".into())).is_none());
    assert_eq!(sweep.to_mark().unwrap().id, "y");
    let job = sweep.approval_expired(Ok(())).unwrap();
    assert!(matches!(&job.event, WorkflowEvent::NodeCallback { node_id, .. } if node_id == "a2"));
    sweep.callback_sent(Err("queue is down".into()));
    assert_eq!(sweep.to_mark().unwrap().id, "z");
    assert!(sweep.approval_expired(Ok(())).is_some());
    sweep.callback_sent(Ok(()));
    assert!(sweep.to_mark().is_none());
    assert_eq!(sweep.count(), 1);
}

#[test]
fn sweep_expired_approvals_rejects_and_dispatches_callback() {
    let mut sweep = ApprovalSweep::new(vec![approval("ap1", "a1")]);
    let job = sweep.approval_expired(Ok(())).unwrap();
    sweep.callback_sent(Ok(()));
    assert_eq!(sweep.count(), 1);
    assert_eq!(job.workflow_instance_id, "wf1");
    match job.event {
        WorkflowEvent::NodeCallback { node_id, status, error_message, output, .. } => {
            assert_eq!(node_id, "a1");
            assert_eq!(status, NodeExecutionStatus::Failed);
            assert_eq!(error_message.as_deref(), Some("approval expired"));
            assert_eq!(
                output.unwrap().to_text(),
                r#"{"approval_expired":true,"expires_at":"1970-01-01T00:00:02Z"}"#
            );
        }
        _ => panic!("expected NodeCallback"),
    }
}

fn paused(mode: PauseMode, output: &str) -> WorkflowInstanceEntity {
    let template = TaskTemplate::Pause(PauseTemplate { wait_seconds: 5, mode });
    let mut node = make_node("p1", NodeExecutionStatus::Suspended, TaskType::Pause, template);
    node.task_instance.output = Some(json(output));
    make_instance("wf1", WorkflowInstanceStatus::Suspended, "p1", vec![node])
}

#[test]
fn sweep_expired_pause_auto_nodes_awaken() {
    let past = chrono::Utc::now() - chrono::Duration::seconds(10);
    let output = format!(
        r#"{{"resume_at": "{}", "mode": "Auto", "wait_seconds": 5}}"#,
        past.to_rfc3339()
    );
    let now = Timestamp { secs: chrono::Utc::now().timestamp(), nanos: 0 };
    let jobs = Sweeper::sweep_expired_pause_nodes(&paused(PauseMode::Auto, &output), now);
    assert_eq!(jobs.len(), 1);
    match &jobs[0].event {
        WorkflowEvent::NodeCallback { node_id, status, .. } => {
            assert_eq!(node_id, "p1");
            assert_eq!(*status, NodeExecutionStatus::Success);
        }
        _ => panic!("expected NodeCallback"),
    }
}

#[test]
fn sweep_expired_pause_manual_nodes_ignored() {
    let past = chrono::Utc::now() - chrono::Duration::seconds(10);
    let template =
        TaskTemplate::Pause(PauseTemplate { wait_seconds: 0, mode: PauseMode::Manual });
    let mut node = make_node("p2", NodeExecutionStatus::Suspended, TaskType::Pause, template);
    let output = format!(r#"{{"resume_at": "{}", "mode": "Manual"}}"#, past.to_rfc3339());
    node.task_instance.output = Some(json(&output));
    let instance = make_instance("wf2", WorkflowInstanceStatus::Suspended, "p2", vec![node]);
    let now = Timestamp { secs: chrono::Utc::now().timestamp(), nanos: 0 };
    let jobs = Sweeper::sweep_expired_pause_nodes(&instance, now);
    assert_eq!(jobs.len(), 0, "manual pause nodes should not be auto-resumed");
}

#[test]
fn a_pause_is_over_when_its_time_has_come() {
    let template = TaskTemplate::Pause(PauseTemplate { wait_seconds: 60, mode: PauseMode::Auto });
    let mut node = make_node("p1", NodeExecutionStatus::Suspended, TaskType::Pause, template);
    PausePlugin::new().execute_at(&mut node, at(1000)).unwrap();
    let instance = make_instance("wf1", WorkflowInstanceStatus::Suspended, "p1", vec![node]);
    assert!(Sweeper::sweep_expired_pause_nodes(&instance, at(1059)).is_empty());
    assert_eq!(Sweeper::sweep_expired_pause_nodes(&instance, at(1060)).len(), 1);
    let bad = paused(PauseMode::Auto, r#"{"resume_at": "soon"}"#);
    assert!(Sweeper::sweep_expired_pause_nodes(&bad, at(1060)).is_empty());
}

#[test]
fn sweeping_has_its_defaults() {
    let config = SweeperConfig::default();
    assert_eq!(config.interval_secs, 60);
    assert_eq!(config.max_recover_per_cycle, 10);
    assert_eq!(Sweeper::new(config).config.interval_secs, 60);
}

#[test]
fn evaluate_condition_true() {
    let body = json(r#"{"status": "ok"}"#);
    assert!(HttpTaskExecutor::evaluate_condition(&body, "status == \"ok\"").unwrap());
}

#[test]
fn evaluate_condition_false() {
    let body = json(r#"{"status": "err"}"#);
    assert!(!HttpTaskExecutor::evaluate_condition(&body, "status == \"ok\"").unwrap());
}

#[test]
fn evaluate_condition_error() {
    assert!(HttpTaskExecutor::evaluate_condition(&json("{}"), "unknown_var > 0").is_err());
}

#[test]
fn build_request_methods_and_url() {
    let get =
        HttpTaskExecutor::build_request("http://example.com", HttpMethod::Get, &vec![], &None, 0);
    assert_eq!(get.method, HttpMethod::Get);
    assert_eq!(get.url, "http://example.com");
    assert_eq!(get.timeout_secs, None);
    let post =
        HttpTaskExecutor::build_request("http://example.com", HttpMethod::Post, &vec![], &None, 10);
    assert_eq!(post.method, HttpMethod::Post);
    assert_eq!(post.timeout_secs, Some(10));
}

#[test]
fn headers_are_texts_in_their_order() {
    let headers = vec![
        ("z".to_string(), Json::Str("1".into())),
        ("a".to_string(), json(r#"{"y": 1, "b": [true]}"#)),
        ("n".to_string(), Json::Null),
        ("z".to_string(), Json::Str("2".into())),
    ];
    let r = HttpTaskExecutor::build_request("u", HttpMethod::Put, &headers, &Some(json("{}")), 0);
    assert_eq!(r.headers, vec![
        ("z".to_string(), "1".to_string()),
        ("a".to_string(), r#"{"y":1,"b":[true]}"#.to_string()),
    ]);
    assert_eq!(r.body, None);
    let r = HttpTaskExecutor::build_request("u", HttpMethod::Put, &vec![], &Some(json("[]")), 0);
    assert_eq!(r.body, Some(json("[]")));
}

fn answer(status_code: u16, body: &str) -> HttpResponse {
    HttpResponse { status_code, body: body.into(), duration_ms: 12 }
}

#[test]
fn answers_meet_their_condition_or_fail() {
    let executor = HttpTaskExecutor::new();
    let input = json(r#"{"url": "u"}"#);
    let run = |r: &HttpResponse, c: Option<&str>| {
        executor.evaluate_http_attempt(r, &c.map(String::from), 0, &input)
    };
    let ok = run(&answer(200, r#"{"code": 0}"#), Some("code == 0")).unwrap();
    assert_eq!(ok.status, NodeExecutionStatus::Success);
    assert_eq!(
        ok.output.unwrap(),
        json(
            r#"{"status_code": 200, "body": {"code": 0}, "duration_ms": 12, "attempt": 1,
                "condition_result": true, "condition_expression": "code == 0"}"#
        )
    );
    let (e, output) = run(&answer(200, r#"{"code": 1}"#), Some("code == 0")).unwrap_err();
    assert_eq!(e, "success_condition `code == 0` not met");
    assert_eq!(output.unwrap().get("condition_result"), Some(&Json::Bool(false)));
    assert!(run(&answer(200, "plain"), Some("true")).is_err());
    let plain = run(&answer(204, "plain"), None).unwrap();
    assert_eq!(plain.output.unwrap().get_str("body"), Some("plain"));
    let (e, output) = run(&answer(500, "down"), None).unwrap_err();
    assert_eq!(e, "HTTP 500: down");
    assert_eq!(output, None);
    assert!(!HttpTaskExecutor::condition_met(Err("x".into())));
}

#[test]
fn attempts_go_on_until_they_run_out() {
    let input = json("{}");
    match HttpTaskExecutor::attempt_finished(0, 2, 5, &input, Err(("e".into(), None))) {
        NextStep::Again { attempt, after_seconds } => {
            assert_eq!(attempt, 1);
            assert_eq!(after_seconds, 5);
        }
        _ => unreachable!(),
    }
    match HttpTaskExecutor::attempt_finished(2, 2, 5, &input, Err(("e".into(), None))) {
        NextStep::Done(r) => {
            assert_eq!(r.status, NodeExecutionStatus::Failed);
            assert_eq!(r.error_message.as_deref(), Some("e"));
        }
        _ => unreachable!(),
    }
    assert!(HttpTaskExecutor::should_retry(0, 1));
    assert!(!HttpTaskExecutor::should_retry(1, 1));
}

#[test]
fn http_tasks_need_an_address() {
    let executor = HttpTaskExecutor::new();
    let mut t = task("t", TaskInstanceStatus::Running);
    let effective = |url: &str| EffectiveRequest {
        input_snapshot: json("{}"),
        url: url.into(),
        method: HttpMethod::Get,
        headers: vec![],
        body: None,
    };
    assert_eq!(
        executor.execute_task(&t, &effective("u")).unwrap_err(),
        "Expected Http config but got other"
    );
    t.task_template = http("/x");
    assert_eq!(
        executor.execute_task(&t, &effective("")).unwrap_err(),
        "HTTP task has empty url after resolution"
    );
    let r = executor.execute_task(&t, &effective("u")).unwrap();
    assert_eq!(r.timeout_secs, Some(30));
    assert_eq!(executor.task_type(), TaskType::Http);
}

fn messages(body: &Json) -> Vec<Json> {
    match body.get("messages") {
        Some(Json::Array(a)) => a.clone(),
        _ => unreachable!(),
    }
}

#[test]
fn test_build_request_body_basic() {
    let body =
        LlmTaskExecutor::build_request_body("gpt-4", "You are helpful", "Hello", None, None, &None);
    assert_eq!(body.get_str("model"), Some("gpt-4"));
    let messages = messages(&body);
    assert_eq!(messages.len(), 2);
    assert_eq!(messages[0].get_str("role"), Some("system"));
    assert_eq!(messages[0].get_str("content"), Some("You are helpful"));
    assert_eq!(messages[1].get_str("role"), Some("user"));
    assert_eq!(messages[1].get_str("content"), Some("Hello"));
}

#[test]
fn test_build_request_body_no_system_prompt() {
    let body = LlmTaskExecutor::build_request_body("gpt-4", "", "Hi", None, None, &None);
    let messages = messages(&body);
    assert_eq!(messages.len(), 1);
    assert_eq!(messages[0].get_str("role"), Some("user"));
}

#[test]
fn test_build_request_body_with_options() {
    let body = LlmTaskExecutor::build_request_body(
        "gpt-4",
        "sys",
        "user",
        Some(JsonNumber::Decimal("0.7".into())),
        Some(256),
        &Some(LlmResponseFormat::JsonObject),
    );
    assert_eq!(body.get("temperature"), Some(&json("0.7")));
    assert_eq!(body.get_u64("max_tokens"), Some(256));
    assert_eq!(body.get("response_format").unwrap().get_str("type"), Some("json_object"));
}

fn llm_config() -> LlmTemplate {
    LlmTemplate {
        api_key_ref: "key-1".into(),
        base_url: "https://api.example.com".into(),
        model: "gpt-4".into(),
        system_prompt: None,
        user_prompt: "hello".into(),
        temperature: Some(JsonNumber::Decimal("0.5".into())),
        max_tokens: Some(100),
        timeout: 30,
        retry_count: 1,
        retry_delay: 2,
        response_format: Some(LlmResponseFormat::JsonObject),
        form: vec![],
    }
}

#[test]
fn test_build_input_snapshot() {
    let snap = LlmTaskExecutor::build_input_snapshot(
        "https://api.example.com",
        "gpt-4",
        "sys-prompt",
        "user-prompt",
        &llm_config(),
    );
    assert_eq!(snap.get_str("base_url"), Some("https://api.example.com"));
    assert_eq!(snap.get_str("model"), Some("gpt-4"));
    assert_eq!(snap.get_str("system_prompt"), Some("sys-prompt"));
    assert_eq!(snap.get_str("user_prompt"), Some("user-prompt"));
    assert_eq!(snap.get_str("api_key_ref"), Some("key-1"));
    assert_eq!(snap.get("temperature"), Some(&json("0.5")));
    assert_eq!(snap.get_u64("max_tokens"), Some(100));
}

#[test]
fn test_try_build_success_output_text_format() {
    let resp = json(
        r#"{"choices": [{"message": {"content": "Hello world"}, "finish_reason": "stop"}],
            "usage": {"total_tokens": 10}, "model": "gpt-4"}"#,
    );
    let output = LlmTaskExecutor::try_build_success_output(&resp, "gpt-4", &None, 0).unwrap();
    assert_eq!(output.get_str("content"), Some("Hello world"));
    assert_eq!(output.get_str("finish_reason"), Some("stop"));
    assert_eq!(output.get_str("model"), Some("gpt-4"));
    assert_eq!(output.get_u64("attempt"), Some(1));
}

#[test]
fn test_try_build_success_output_json_object_valid() {
    let resp = json(
        r#"{"choices": [{"message": {"content": "{\"key\":\"val\"}"}, "finish_reason": "stop"}],
            "usage": {"total_tokens": 5}, "model": "gpt-4"}"#,
    );
    let output = LlmTaskExecutor::try_build_success_output(
        &resp,
        "gpt-4",
        &Some(LlmResponseFormat::JsonObject),
        0,
    )
    .unwrap();
    assert_eq!(output.get_str("content"), Some("{\"key\":\"val\"}"));
    assert_eq!(output.get("parsed").unwrap().get_str("key"), Some("val"));
}

#[test]
fn test_try_build_success_output_json_object_invalid() {
    let resp = json(
        r#"{"choices": [{"message": {"content": "not json"}, "finish_reason": "stop"}],
            "usage": {"total_tokens": 2}, "model": "gpt-4"}"#,
    );
    let err = LlmTaskExecutor::try_build_success_output(
        &resp,
        "gpt-4",
        &Some(LlmResponseFormat::JsonObject),
        0,
    );
    assert!(err.is_err());
    assert!(err.unwrap_err().contains("not valid JSON"));
}

#[test]
fn test_try_build_success_output_missing_usage() {
    let resp = json(
        r#"{"choices": [{"message": {"content": "ok"}, "finish_reason": "stop"}],
            "model": "gpt-4"}"#,
    );
    let output = LlmTaskExecutor::try_build_success_output(&resp, "gpt-4", &None, 1).unwrap();
    assert_eq!(output.get_u64("attempt"), Some(2));
    assert!(output.get("usage").map_or(true, |u| u.is_null()));
}

#[test]
fn should_sleep_true() {
    assert!(LlmTaskExecutor::should_sleep_before_retry(0, 2, 5));
}

#[test]
fn should_sleep_false_at_limit() {
    assert!(!LlmTaskExecutor::should_sleep_before_retry(2, 2, 5));
}

#[test]
fn should_sleep_false_zero_delay() {
    assert!(!LlmTaskExecutor::should_sleep_before_retry(0, 2, 0));
}

#[test]
fn process_llm_success() {
    let result = LlmTaskExecutor::process_llm_response(
        200,
        r#"{"choices":[{"message":{"content":"hi"},"finish_reason":"stop"}]}"#,
        "gpt-4",
        &None,
        0,
    );
    assert!(result.is_ok());
    assert_eq!(result.unwrap().status, NodeExecutionStatus::Success);
}

#[test]
fn process_llm_rate_limited() {
    let result = LlmTaskExecutor::process_llm_response(429, "rate limited", "gpt-4", &None, 0);
    assert!(result.is_err());
}

#[test]
fn process_llm_client_error_fails() {
    let result = LlmTaskExecutor::process_llm_response(400, "bad request", "gpt-4", &None, 0);
    assert!(result.is_ok());
    assert_eq!(result.unwrap().status, NodeExecutionStatus::Failed);
}

#[test]
fn process_llm_invalid_json() {
    let result = LlmTaskExecutor::process_llm_response(200, "not json", "gpt-4", &None, 0);
    assert!(result.is_err());
}

#[test]
fn the_key_goes_into_a_header_alone() {
    let mut t = task("t", TaskInstanceStatus::Running);
    t.task_template = TaskTemplate::Llm(llm_config());
    t.input = Some(json(
        r#"{"system_prompt": "s", "user_prompt": "p", "_api_key": "top-secret",
            "base_url": "https://x/", "model": "m"}"#,
    ));
    let r = LlmTaskExecutor::new().execute_task(&t).unwrap();
    assert_eq!(r.url, "https://x/chat/completions");
    assert_eq!(r.headers, vec![
        ("Content-Type".to_string(), "application/json".to_string()),
        ("Authorization".to_string(), "Bearer top-secret".to_string()),
    ]);
    assert!(!r.body.to_text().contains("top-secret"));
    assert!(!r.input_snapshot.to_text().contains("top-secret"));
    t.task_template = TaskTemplate::Grpc;
    assert_eq!(
        LlmTaskExecutor::new().execute_task(&t).unwrap_err(),
        "Expected Llm config but got other"
    );
}

fn auth(role: TenantRole) -> AuthContext {
    AuthContext {
        user_id: "u1".into(),
        username: "dev".into(),
        is_super_admin: false,
        tenant_id: "t1".into(),
        role: Some(role),
    }
}

fn auth_service() -> AuthService {
    AuthService::new(TokenService::new("test_secret".into()))
}

fn usecase() -> TaskUsecase {
    TaskUsecase::new(
        VariableService::new("enc_key_32_bytes_long_enough!!".into()),
        auth_service(),
    )
}

fn make_test_task(name: &str) -> TaskEntity {
    TaskEntity {
        id: format!("task-{}", name),
        tenant_id: "t1".into(),
        name: name.into(),
        task_type: TaskType::Http,
        task_template: TaskTemplate::Grpc,
    }
}

#[test]
fn execute_task_by_name_success() {
    let result = usecase().execute_task_by_name(
        &auth(TenantRole::Developer),
        Ok(vec![make_test_task("myhttp")]),
        "myhttp",
        None,
        &None,
    );
    assert!(result.is_ok(), "expected Ok, got {:?}", result.err());
    let (instance, job) = result.unwrap();
    assert_eq!(instance.task_name, "myhttp");
    assert_eq!(instance.task_status, TaskInstanceStatus::Pending);
    assert_eq!(job.task_instance_id, instance.task_instance_id);
    assert_eq!(job.tenant_id, "t1");
}

#[test]
fn execute_task_by_name_permission_denied() {
    let result = usecase().execute_task_by_name(
        &auth(TenantRole::Viewer),
        Ok(vec![]),
        "myhttp",
        None,
        &None,
    );
    assert!(result.is_err());
    assert!(result.unwrap_err().contains("insufficient permissions"));
}

#[test]
fn execute_task_by_name_not_found() {
    let result = usecase().execute_task_by_name(
        &auth(TenantRole::Developer),
        Ok(vec![]),
        "nonexistent",
        None,
        &None,
    );
    assert!(result.is_err());
    assert!(result.unwrap_err().contains("task not found"));
}

#[test]
fn viewers_start_nothing() {
    let u = WorkflowUsecase::new(auth_service());
    let instance =
        at_http_node("wf1", WorkflowInstanceStatus::Pending, "n", NodeExecutionStatus::Failed);
    assert!(u.execute_instance(&auth(TenantRole::Viewer), Ok(&instance)).is_err());
    assert!(u.cancel_instance(&auth(TenantRole::Viewer)).is_err());
    assert_eq!(u.list_instances(&auth(TenantRole::Viewer)), Ok("t1".to_string()));
    let job = u.execute_instance(&auth(TenantRole::Operator), Ok(&instance)).unwrap();
    assert_eq!(job.workflow_instance_id, "wf1");
    assert!(matches!(job.event, WorkflowEvent::Start));
    let skipped = u
        .skip_node(
            &auth(TenantRole::Operator),
            Ok(&instance),
            "n",
            "wf1-n".into(),
            json(r#"{"a": 1}"#),
        )
        .unwrap();
    match skipped.event {
        WorkflowEvent::NodeCallback { status, output, .. } => {
            assert_eq!(status, NodeExecutionStatus::Skipped);
            assert_eq!(output, Some(json(r#"{"a": 1}"#)));
        }
        _ => panic!("expected NodeCallback"),
    }
}

#[test]
fn what_the_sweeper_sends_is_taken_up() {
    let mut lost =
        at_http_node("wf1", WorkflowInstanceStatus::Running, "n1", NodeExecutionStatus::Running);
    let step = Sweeper::run_cycle(&lost, true);
    assert_eq!(step.status_to_set(), Some(WorkflowInstanceStatus::Pending));
    lost.status = WorkflowInstanceStatus::Pending;
    let start = Sweeper::restart_via_start(&lost);
    assert!(matches!(PluginManager::process_workflow_job(start, &mut lost), Ok(JobStep::Run)));

    let mut lost =
        at_http_node("wf2", WorkflowInstanceStatus::Running, "n1", NodeExecutionStatus::Await);
    let step = Sweeper::run_cycle(&lost, true);
    assert_eq!(step.status_to_set(), Some(WorkflowInstanceStatus::Await));
    lost.status = WorkflowInstanceStatus::Await;
    let done = task("wf2-n1", TaskInstanceStatus::Completed);
    let action = Sweeper::recover_await_single(&lost, &lost.nodes[0], Some(&done));
    assert_eq!(action.status_to_set(), None);
    let callback = match action {
        SweepAction::Callback(job) => job,
        _ => unreachable!(),
    };
    match PluginManager::process_workflow_job(callback, &mut lost) {
        Ok(JobStep::Callback { path, node_id, .. }) => {
            assert_eq!(path, vec![WorkflowInstanceStatus::Pending, WorkflowInstanceStatus::Running]);
            assert_eq!(node_id, "n1");
        }
        _ => unreachable!(),
    }
    assert_eq!(Sweeper::run_cycle(&lost, true).status_to_set(), None);
    let action = Sweeper::recover_await_single(&lost, &lost.nodes[0], None);
    assert_eq!(action.status_to_set(), Some(WorkflowInstanceStatus::Pending));
}
