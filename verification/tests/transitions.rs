use workflow::entity::{TaskInstanceEntity, WorkflowInstanceEntity};
use workflow::json::Json;
use workflow::shared::{
    ExecuteTaskJob, NodeExecutionStatus, TaskInstanceStatus, TaskType, WorkflowCallerContext,
    WorkflowEvent, WorkflowInstanceStatus,
};
use workflow::executors::TaskExecutionResult;
use workflow::task_job::{handle_task_job, task_claimed, ClaimStep, TaskRecord};
use workflow::task_transition::{
    should_notify_parent_task, TaskChildEventKind, TaskTerminalStatus,
};
use workflow::template::TaskTemplate;
use workflow::time::Timestamp;
use workflow::workflow_transition::{should_notify_parent, ChildEventKind, TerminalStatus};

fn at(secs: i64) -> Timestamp {
    Timestamp { secs, nanos: 0 }
}

fn make_task_instance(
    status: TaskInstanceStatus,
    caller_context: Option<WorkflowCallerContext>,
) -> TaskInstanceEntity {
    TaskInstanceEntity {
        id: "1".into(),
        tenant_id: "t1".into(),
        task_id: "task-1".into(),
        task_name: "task".into(),
        task_type: TaskType::Http,
        task_template: TaskTemplate::Grpc,
        task_status: status,
        task_instance_id: "task-inst-1".into(),
        created_at: at(1),
        updated_at: at(1),
        deleted_at: None,
        input: None,
        output: Some(Json::parse(r#"{"result": "ok"}"#).unwrap()),
        error_message: None,
        execution_duration: None,
        caller_context,
    }
}

fn caller_ctx() -> WorkflowCallerContext {
    WorkflowCallerContext {
        workflow_instance_id: "parent-wf-1".into(),
        node_id: "http_node".into(),
        parent_task_instance_id: None,
        item_index: None,
    }
}

fn make_instance(
    status: WorkflowInstanceStatus,
    parent_context: Option<WorkflowCallerContext>,
) -> WorkflowInstanceEntity {
    WorkflowInstanceEntity {
        workflow_instance_id: "child-wf-1".into(),
        tenant_id: "t1".into(),
        workflow_meta_id: "m1".into(),
        workflow_version: 1,
        status,
        created_at: at(1),
        updated_at: at(1),
        deleted_at: None,
        context: Json::empty_object(),
        entry_node: "start".into(),
        current_node: "node1".into(),
        nodes: vec![],
        epoch: 0,
        locked_by: None,
        locked_duration: None,
        locked_at: None,
        parent_context,
        depth: 1,
        created_by: None,
    }
}

fn parent_ctx() -> WorkflowCallerContext {
    WorkflowCallerContext {
        workflow_instance_id: "parent-wf-1".into(),
        node_id: "subwf_node".into(),
        parent_task_instance_id: None,
        item_index: None,
    }
}

#[test]
fn test_should_notify_parent_task_terminated_completed() {
    assert_eq!(
        should_notify_parent_task(
            &TaskInstanceStatus::Running,
            &TaskInstanceStatus::Completed
        ),
        Some(TaskChildEventKind::Terminated(TaskTerminalStatus::Completed))
    );
}

#[test]
fn test_should_notify_parent_task_terminated_failed() {
    assert_eq!(
        should_notify_parent_task(
            &TaskInstanceStatus::Running,
            &TaskInstanceStatus::Failed
        ),
        Some(TaskChildEventKind::Terminated(TaskTerminalStatus::Failed))
    );
}

#[test]
fn test_should_notify_parent_task_revived() {
    assert_eq!(
        should_notify_parent_task(
            &TaskInstanceStatus::Failed,
            &TaskInstanceStatus::Pending
        ),
        Some(TaskChildEventKind::Revived)
    );
}

#[test]
fn test_should_notify_parent_task_no_event_normal() {
    assert_eq!(
        should_notify_parent_task(
            &TaskInstanceStatus::Pending,
            &TaskInstanceStatus::Running
        ),
        None
    );
}

#[test]
fn test_task_transition_status_with_caller_completed() {
    let mut task = make_task_instance(TaskInstanceStatus::Running, Some(caller_ctx()));

    let result = task
        .transition_status(TaskInstanceStatus::Completed)
        .unwrap();

    assert_eq!(result.old_status, TaskInstanceStatus::Running);
    assert_eq!(result.new_status, TaskInstanceStatus::Completed);
    assert_eq!(result.outbound_events.len(), 1);

    let event = &result.outbound_events[0];
    assert_eq!(event.target_workflow_instance_id, "parent-wf-1");
    assert!(matches!(
        event.event,
        WorkflowEvent::NodeCallback {
            ref node_id,
            ref child_task_id,
            ref status,
            ..
        } if node_id == "http_node"
            && child_task_id == "task-inst-1"
            && *status == NodeExecutionStatus::Success
    ));
}

#[test]
fn test_task_transition_status_with_caller_failed() {
    let mut task = make_task_instance(TaskInstanceStatus::Running, Some(caller_ctx()));
    task.error_message = Some("timeout".into());

    let result = task
        .transition_status(TaskInstanceStatus::Failed)
        .unwrap();

    assert_eq!(result.outbound_events.len(), 1);
    let event = &result.outbound_events[0];
    assert!(matches!(
        event.event,
        WorkflowEvent::NodeCallback {
            ref status,
            ref error_message,
            ..
        } if *status == NodeExecutionStatus::Failed
            && *error_message == Some("timeout".into())
    ));
}

#[test]
fn test_task_transition_status_without_caller_no_event() {
    let mut task = make_task_instance(TaskInstanceStatus::Running, None);

    let result = task
        .transition_status(TaskInstanceStatus::Completed)
        .unwrap();

    assert_eq!(result.outbound_events.len(), 0);
    assert_eq!(task.task_status, TaskInstanceStatus::Completed);
}

#[test]
fn test_task_transition_status_revived_with_caller() {
    let mut task = make_task_instance(TaskInstanceStatus::Failed, Some(caller_ctx()));

    let result = task
        .transition_status(TaskInstanceStatus::Pending)
        .unwrap();

    assert_eq!(result.outbound_events.len(), 1);
    let event = &result.outbound_events[0];
    assert!(matches!(
        event.event,
        WorkflowEvent::ChildRevived {
            ref node_id,
            ref child_id,
        } if node_id == "http_node" && child_id == "task-inst-1"
    ));
}

#[test]
fn test_task_transition_status_invalid() {
    let mut task = make_task_instance(TaskInstanceStatus::Completed, None);

    let result = task.transition_status(TaskInstanceStatus::Running);
    assert!(result.is_err());
    assert_eq!(task.task_status, TaskInstanceStatus::Completed);
}

#[test]
fn test_task_transition_dispatch_jobs() {
    let mut task = make_task_instance(TaskInstanceStatus::Running, Some(caller_ctx()));

    let result = task
        .transition_status(TaskInstanceStatus::Completed)
        .unwrap();

    let jobs = result.into_dispatch_jobs();
    assert_eq!(jobs.len(), 1);
    assert_eq!(jobs[0].workflow_instance_id, "parent-wf-1");
    assert_eq!(jobs[0].tenant_id, "t1");
}

#[test]
fn test_should_notify_parent_revived() {
    assert_eq!(
        should_notify_parent(
            &WorkflowInstanceStatus::Failed,
            &WorkflowInstanceStatus::Pending
        ),
        Some(ChildEventKind::Revived)
    );
}

#[test]
fn test_should_notify_parent_terminated_completed() {
    assert_eq!(
        should_notify_parent(
            &WorkflowInstanceStatus::Running,
            &WorkflowInstanceStatus::Completed
        ),
        Some(ChildEventKind::Terminated(TerminalStatus::Completed))
    );
}

#[test]
fn test_should_notify_parent_terminated_failed() {
    assert_eq!(
        should_notify_parent(
            &WorkflowInstanceStatus::Running,
            &WorkflowInstanceStatus::Failed
        ),
        Some(ChildEventKind::Terminated(TerminalStatus::Failed))
    );
}

#[test]
fn test_should_notify_parent_no_event_for_normal_transitions() {
    assert_eq!(
        should_notify_parent(
            &WorkflowInstanceStatus::Pending,
            &WorkflowInstanceStatus::Running
        ),
        None
    );
    assert_eq!(
        should_notify_parent(
            &WorkflowInstanceStatus::Running,
            &WorkflowInstanceStatus::Await
        ),
        None
    );
    assert_eq!(
        should_notify_parent(
            &WorkflowInstanceStatus::Await,
            &WorkflowInstanceStatus::Pending
        ),
        None
    );
    assert_eq!(
        should_notify_parent(
            &WorkflowInstanceStatus::Running,
            &WorkflowInstanceStatus::Suspended
        ),
        None
    );
    assert_eq!(
        should_notify_parent(
            &WorkflowInstanceStatus::Suspended,
            &WorkflowInstanceStatus::Pending
        ),
        None
    );
}

#[test]
fn test_transition_status_with_parent_context_revived() {
    let mut instance =
        make_instance(WorkflowInstanceStatus::Failed, Some(parent_ctx()));

    let result = instance
        .transition_status(WorkflowInstanceStatus::Pending)
        .unwrap();

    assert_eq!(result.old_status, WorkflowInstanceStatus::Failed);
    assert_eq!(result.new_status, WorkflowInstanceStatus::Pending);
    assert_eq!(result.outbound_events.len(), 1);

    let event = &result.outbound_events[0];
    assert_eq!(event.target_workflow_instance_id, "parent-wf-1");
    assert_eq!(event.target_tenant_id, "t1");
    assert!(matches!(
        event.event,
        WorkflowEvent::ChildRevived {
            ref node_id,
            ref child_id
        } if node_id == "subwf_node" && child_id == "child-wf-1"
    ));

    assert_eq!(instance.status, WorkflowInstanceStatus::Pending);
}

#[test]
fn test_transition_status_without_parent_context_no_event() {
    let mut instance = make_instance(WorkflowInstanceStatus::Failed, None);

    let result = instance
        .transition_status(WorkflowInstanceStatus::Pending)
        .unwrap();

    assert_eq!(result.outbound_events.len(), 0);
    assert_eq!(instance.status, WorkflowInstanceStatus::Pending);
}

#[test]
fn test_transition_status_invalid_transition() {
    let mut instance = make_instance(WorkflowInstanceStatus::Completed, None);

    let result = instance.transition_status(WorkflowInstanceStatus::Running);
    assert!(result.is_err());
    // Status should not change on error
    assert_eq!(instance.status, WorkflowInstanceStatus::Completed);
}

#[test]
fn test_transition_status_pending_to_running_no_event() {
    let mut instance =
        make_instance(WorkflowInstanceStatus::Pending, Some(parent_ctx()));

    let result = instance
        .transition_status(WorkflowInstanceStatus::Running)
        .unwrap();

    assert_eq!(result.outbound_events.len(), 0);
    assert_eq!(instance.status, WorkflowInstanceStatus::Running);
}

#[test]
fn test_transition_status_running_to_completed_emits_terminated() {
    let mut instance =
        make_instance(WorkflowInstanceStatus::Running, Some(parent_ctx()));

    let result = instance
        .transition_status(WorkflowInstanceStatus::Completed)
        .unwrap();

    assert_eq!(result.outbound_events.len(), 1);
    let event = &result.outbound_events[0];
    assert_eq!(event.target_workflow_instance_id, "parent-wf-1");
    assert!(matches!(
        event.event,
        WorkflowEvent::NodeCallback { ref node_id, ref status, .. }
        if node_id == "subwf_node" && *status == NodeExecutionStatus::Success
    ));
    assert_eq!(instance.status, WorkflowInstanceStatus::Completed);
}

#[test]
fn test_transition_status_running_to_failed_emits_terminated() {
    let mut instance =
        make_instance(WorkflowInstanceStatus::Running, Some(parent_ctx()));

    let result = instance
        .transition_status(WorkflowInstanceStatus::Failed)
        .unwrap();

    assert_eq!(result.outbound_events.len(), 1);
    let event = &result.outbound_events[0];
    assert_eq!(event.target_workflow_instance_id, "parent-wf-1");
    assert!(matches!(
        event.event,
        WorkflowEvent::NodeCallback { ref node_id, ref status, .. }
        if node_id == "subwf_node" && *status == NodeExecutionStatus::Failed
    ));
    assert_eq!(instance.status, WorkflowInstanceStatus::Failed);
}

#[test]
fn test_transition_status_running_to_completed_no_parent_no_event() {
    let mut instance =
        make_instance(WorkflowInstanceStatus::Running, None);

    let result = instance
        .transition_status(WorkflowInstanceStatus::Completed)
        .unwrap();

    assert_eq!(result.outbound_events.len(), 0);
    assert_eq!(instance.status, WorkflowInstanceStatus::Completed);
}

#[test]
fn test_transition_dispatch_jobs() {
    let mut instance =
        make_instance(WorkflowInstanceStatus::Failed, Some(parent_ctx()));

    let result = instance
        .transition_status(WorkflowInstanceStatus::Pending)
        .unwrap();

    let jobs = result.into_dispatch_jobs();
    assert_eq!(jobs.len(), 1);
    assert_eq!(jobs[0].workflow_instance_id, "parent-wf-1");
    assert_eq!(jobs[0].tenant_id, "t1");
    assert!(matches!(
        jobs[0].event,
        WorkflowEvent::ChildRevived { .. }
    ));
}

#[test]
fn a_refused_move_names_both_states() {
    let mut instance = make_instance(WorkflowInstanceStatus::Completed, None);
    let e = instance.transition_status_at(WorkflowInstanceStatus::Running, at(5)).unwrap_err();
    assert_eq!(e, "invalid workflow instance state transition: Completed -> Running");
    assert_eq!(instance.updated_at, at(1));

    let mut task = make_task_instance(TaskInstanceStatus::Completed, None);
    let e = task.transition_status_at(TaskInstanceStatus::Running, at(5)).unwrap_err();
    assert_eq!(e, "invalid task instance state transition: Completed -> Running");
    assert_eq!(task.updated_at, at(1));
}

#[test]
fn an_allowed_move_sets_the_time() {
    let mut instance = make_instance(WorkflowInstanceStatus::Pending, None);
    instance.transition_status_at(WorkflowInstanceStatus::Running, at(7)).unwrap();
    assert_eq!(instance.updated_at, at(7));
    instance.transition_status(WorkflowInstanceStatus::Completed).unwrap();
    assert!(instance.updated_at.secs > 7);
}

#[test]
fn ended_instances_stay_as_they_are() {
    for end in [WorkflowInstanceStatus::Completed, WorkflowInstanceStatus::Canceled] {
        for next in [
            WorkflowInstanceStatus::Pending,
            WorkflowInstanceStatus::Running,
            WorkflowInstanceStatus::Await,
            WorkflowInstanceStatus::Suspended,
            WorkflowInstanceStatus::Failed,
        ] {
            assert!(!end.can_transition_to(&next));
        }
    }
}

fn task_job(caller_context: Option<WorkflowCallerContext>) -> ExecuteTaskJob {
    ExecuteTaskJob {
        task_instance_id: "task-inst-1".into(),
        tenant_id: "t1".into(),
        caller_context,
    }
}

#[test]
fn a_task_that_was_not_got_is_not_run() {
    let task = make_task_instance(TaskInstanceStatus::Running, None);
    match task_claimed(Ok(task.clone())) {
        ClaimStep::Run(t) => assert_eq!(t, task),
        ClaimStep::Skip => unreachable!(),
    }
    assert!(matches!(task_claimed(Err("already running".into())), ClaimStep::Skip));
}

#[test]
fn a_task_that_ran_is_written_and_told() {
    let done = TaskExecutionResult {
        status: NodeExecutionStatus::Success,
        input: Some(Json::Bool(true)),
        output: Some(Json::Str("out".into())),
        error_message: None,
    };
    let r = handle_task_job(&task_job(Some(caller_ctx())), Ok(done));
    assert_eq!(r.status, TaskInstanceStatus::Completed);
    assert!(matches!(
        r.record,
        TaskRecord::Complete { output: Some(Json::Str(ref s)), input: Some(Json::Bool(true)) }
            if s == "out"
    ));
    let job = r.outbound.unwrap();
    assert_eq!(job.workflow_instance_id, "parent-wf-1");
    assert!(matches!(
        job.event,
        WorkflowEvent::NodeCallback { status: NodeExecutionStatus::Success, ref child_task_id, .. }
            if child_task_id == "task-inst-1"
    ));
}

#[test]
fn a_task_that_could_not_run_has_failed() {
    let r = handle_task_job(&task_job(Some(caller_ctx())), Err("no executor".into()));
    assert_eq!(r.status, TaskInstanceStatus::Failed);
    assert!(matches!(r.record, TaskRecord::Fail { ref error } if error == "no executor"));
    assert!(matches!(
        r.outbound.unwrap().event,
        WorkflowEvent::NodeCallback {
            status: NodeExecutionStatus::Failed,
            output: None,
            error_message: Some(ref m),
            ..
        } if m == "no executor"
    ));

    let silent = TaskExecutionResult {
        status: NodeExecutionStatus::Failed,
        input: None,
        output: None,
        error_message: None,
    };
    let r = handle_task_job(&task_job(None), Ok(silent));
    assert!(matches!(r.record, TaskRecord::Fail { ref error } if error.is_empty()));
    assert!(r.outbound.is_none());
}
