use workflow::approval::ApprovalInstanceEntity;
use workflow::entity::{TaskInstanceEntity, WorkflowInstanceEntity, WorkflowNodeInstanceEntity};
use workflow::json::{Json, JsonNumber};
use workflow::plugin::approval::{approval_status_to_node_status, ApprovalPlugin};
use workflow::plugin::contextrewrite::ContextRewritePlugin;
use workflow::plugin::http::HttpPlugin;
use workflow::plugin::ifcondition::IfConditionPlugin;
use workflow::plugin::interface::handle_callback;
use workflow::plugin::llm::LlmPlugin;
use workflow::plugin::pause::PausePlugin;
use workflow::plugin::rhai_engine::{
    compile_script, create_engine, dynamic_to_json, inject_context, inject_context_flat,
    json_to_dynamic, rhai_map_to_json, ScriptValue,
};
use workflow::plugin::subworkflow::{SubWorkflowPlugin, SubWorkflowStep};
use workflow::shared::{
    ApprovalStatus, NodeExecutionStatus, TaskInstanceStatus, TaskType, WorkflowEvent,
    WorkflowInstanceStatus,
};
use workflow::template::{
    ApprovalMode, ApprovalTemplate, ApproverRule, ContextRewriteTemplate, HttpMethod,
    IfConditionTemplate, LlmTemplate, MergeMode, PauseMode, PauseTemplate, SelfApprovalPolicy,
    SubWorkflowTemplate, TaskHttpTemplate, TaskTemplate,
};
use workflow::time::Timestamp;

fn at(secs: i64) -> Timestamp {
    Timestamp { secs, nanos: 0 }
}

fn json(text: &str) -> Json {
    Json::parse(text).unwrap()
}

fn text(s: &str) -> Json {
    Json::Str(s.into())
}

fn http_template() -> TaskTemplate {
    TaskTemplate::Http(TaskHttpTemplate {
        url: "/test".into(),
        method: HttpMethod::Get,
        headers: vec![],
        body: vec![],
        form: vec![],
        retry_count: 0,
        retry_delay: 0,
        timeout: 30,
        success_condition: None,
    })
}

fn node_with(
    node_id: &str,
    kind: TaskType,
    template: TaskTemplate,
    context: &str,
) -> WorkflowNodeInstanceEntity {
    WorkflowNodeInstanceEntity {
        node_id: node_id.into(),
        node_type: kind,
        task_instance: TaskInstanceEntity {
            id: format!("ti-{}", node_id),
            tenant_id: "t1".into(),
            task_id: "".into(),
            task_name: "task".into(),
            task_type: kind,
            task_template: template,
            task_status: TaskInstanceStatus::Pending,
            task_instance_id: format!("wf1-{}", node_id),
            created_at: at(1),
            updated_at: at(1),
            deleted_at: None,
            input: None,
            output: None,
            error_message: None,
            execution_duration: None,
            caller_context: None,
        },
        context: json(context),
        next_node: None,
        status: NodeExecutionStatus::Pending,
        error_message: None,
        created_at: at(1),
        updated_at: at(1),
    }
}

fn instance_with(id: &str, context: &str) -> WorkflowInstanceEntity {
    WorkflowInstanceEntity {
        workflow_instance_id: id.into(),
        tenant_id: "t1".into(),
        workflow_meta_id: "m1".into(),
        workflow_version: 1,
        status: WorkflowInstanceStatus::Running,
        created_at: at(1),
        updated_at: at(1),
        deleted_at: None,
        context: json(context),
        entry_node: "n1".into(),
        current_node: "n1".into(),
        nodes: vec![],
        epoch: 0,
        locked_by: None,
        locked_duration: None,
        locked_at: None,
        parent_context: None,
        depth: 0,
        created_by: None,
    }
}

fn http_node() -> WorkflowNodeInstanceEntity {
    node_with("h1", TaskType::Http, http_template(), "{}")
}

#[test]
fn http_execute_dispatches_async_job() {
    let result = HttpPlugin::new().execute(&http_node(), &instance_with("wf1", "{}"));
    assert_eq!(result.status, NodeExecutionStatus::Await);
    assert_eq!(result.dispatch_jobs.len(), 1);
    let job = &result.dispatch_jobs[0];
    assert_eq!(job.tenant_id, "t1");
    assert_eq!(job.task_instance_id, "wf1-h1");
    assert!(job.caller_context.is_some());
    let ctx = job.caller_context.as_ref().unwrap();
    assert_eq!(ctx.workflow_instance_id, "wf1");
    assert_eq!(ctx.node_id, "h1");
}

#[test]
fn http_handle_callback_success_copies_output() {
    let mut node = http_node();
    let input = json(r#"{"url": "http://example.com"}"#);
    let output = json(r#"{"status": 200, "body": "ok"}"#);
    let result = handle_callback(
        &mut node,
        &NodeExecutionStatus::Success,
        &Some(output.clone()),
        &None,
        &Some(input.clone()),
    );
    assert_eq!(result.status, NodeExecutionStatus::Success);
    assert_eq!(node.task_instance.input, Some(input));
    assert_eq!(node.task_instance.output, Some(output));
}

#[test]
fn http_handle_callback_failed_sets_error() {
    let mut node = http_node();
    let err = "connection timeout".to_string();
    let result = handle_callback(
        &mut node,
        &NodeExecutionStatus::Failed,
        &None,
        &Some(err.clone()),
        &None,
    );
    assert_eq!(result.status, NodeExecutionStatus::Failed);
    assert_eq!(node.error_message, Some(err.clone()));
    assert_eq!(node.task_instance.error_message, Some(err));
}

#[test]
fn plugin_type_is_http() {
    assert_eq!(HttpPlugin::new().plugin_type(), TaskType::Http);
}

fn llm_node() -> WorkflowNodeInstanceEntity {
    let template = TaskTemplate::Llm(LlmTemplate {
        base_url: "http://llm".into(),
        model: "m".into(),
        api_key_ref: "key".into(),
        system_prompt: None,
        user_prompt: "classify".into(),
        temperature: None,
        max_tokens: None,
        timeout: 30,
        retry_count: 0,
        retry_delay: 0,
        response_format: None,
        form: vec![],
    });
    node_with("llm1", TaskType::Llm, template, "{}")
}

#[test]
fn llm_execute_dispatches_async_job() {
    let result = LlmPlugin::new().execute(&llm_node(), &instance_with("wf1", "{}"));
    assert_eq!(result.status, NodeExecutionStatus::Await);
    assert_eq!(result.dispatch_jobs.len(), 1);
    assert_eq!(result.dispatch_jobs[0].task_instance_id, "wf1-llm1");
}

#[test]
fn llm_handle_callback_success_copies_output() {
    let mut node = llm_node();
    let output = json(r#"{"content": "classified", "usage": {"total_tokens": 50}}"#);
    let result = handle_callback(
        &mut node,
        &NodeExecutionStatus::Success,
        &Some(output.clone()),
        &None,
        &None,
    );
    assert_eq!(result.status, NodeExecutionStatus::Success);
    assert_eq!(node.task_instance.output, Some(output));
}

#[test]
fn llm_handle_callback_failed_sets_error() {
    let mut node = llm_node();
    let result = handle_callback(
        &mut node,
        &NodeExecutionStatus::Failed,
        &None,
        &Some("rate limit".into()),
        &None,
    );
    assert_eq!(result.status, NodeExecutionStatus::Failed);
    assert_eq!(node.error_message, Some("rate limit".to_string()));
}

#[test]
fn plugin_type_is_llm() {
    assert_eq!(LlmPlugin::new().plugin_type(), TaskType::Llm);
}

fn pause_node(node_id: &str, wait_seconds: u32, mode: PauseMode) -> WorkflowNodeInstanceEntity {
    let template = TaskTemplate::Pause(PauseTemplate { wait_seconds, mode });
    node_with(node_id, TaskType::Pause, template, "{}")
}

#[test]
fn execute_auto_mode_sets_suspended_with_resume_at() {
    let mut node = pause_node("p1", 60, PauseMode::Auto);
    let before = chrono::Utc::now();
    let result = PausePlugin::new().execute(&mut node).unwrap();
    let after = chrono::Utc::now();
    assert_eq!(result.status, NodeExecutionStatus::Suspended);
    let output = node.task_instance.output.unwrap();
    assert_eq!(output.get_str("mode"), Some("Auto"));
    assert_eq!(output.get_u64("wait_seconds"), Some(60));
    let resume_at: chrono::DateTime<chrono::Utc> =
        output.get_str("resume_at").unwrap().parse().unwrap();
    assert!(resume_at >= before + chrono::Duration::seconds(59));
    assert!(resume_at <= after + chrono::Duration::seconds(61));
}

#[test]
fn execute_manual_mode_sets_suspended() {
    let mut node = pause_node("p2", 120, PauseMode::Manual);
    let result = PausePlugin::new().execute(&mut node).unwrap();
    assert_eq!(result.status, NodeExecutionStatus::Suspended);
    let output = node.task_instance.output.unwrap();
    assert_eq!(output.get_str("mode"), Some("Manual"));
    assert_eq!(output.get_u64("wait_seconds"), Some(120));
}

#[test]
fn pauses_end_so_many_seconds_later() {
    let mut node = pause_node("p1", 60, PauseMode::Auto);
    let result = PausePlugin::new().execute_at(&mut node, at(1_000)).unwrap();
    assert_eq!(result.status, NodeExecutionStatus::Suspended);
    let output = node.task_instance.output.unwrap();
    assert_eq!(output.get_str("resume_at"), Some("1970-01-01T00:17:40+00:00"));
}

#[test]
fn pause_invalid_template_returns_error() {
    let mut node = node_with("p_bad", TaskType::Pause, http_template(), "{}");
    assert!(PausePlugin::new().execute(&mut node).is_err());
}

#[test]
fn plugin_type_is_pause() {
    assert_eq!(PausePlugin::new().plugin_type(), TaskType::Pause);
}

fn condition_node(node_id: &str, condition: &str, then: &str, other: &str) -> WorkflowNodeInstanceEntity {
    let template = TaskTemplate::IfCondition(IfConditionTemplate {
        name: "check".into(),
        condition: condition.into(),
        then_task: Some(then.into()),
        else_task: Some(other.into()),
    });
    node_with(node_id, TaskType::IfCondition, template, r#"{"score": 80}"#)
}

#[test]
fn true_condition_jumps_to_then_task() {
    let mut node = condition_node("c1", "score > 75", "approved", "rejected");
    let result = IfConditionPlugin::new().execute(&mut node).unwrap();
    assert_eq!(result.status, NodeExecutionStatus::Success);
    assert_eq!(result.jump_to_node, Some("approved".to_string()));
    let output = node.task_instance.output.as_ref().unwrap();
    assert_eq!(output.get("if_condition_result"), Some(&Json::Bool(true)));
    assert_eq!(output.get_str("next_node"), Some("approved"));
}

#[test]
fn false_condition_jumps_to_else_task() {
    let mut node = condition_node("c2", "score > 90", "approved", "rejected");
    let result = IfConditionPlugin::new().execute(&mut node).unwrap();
    assert_eq!(result.status, NodeExecutionStatus::Success);
    assert_eq!(result.jump_to_node, Some("rejected".to_string()));
    let output = node.task_instance.output.as_ref().unwrap();
    assert_eq!(output.get("if_condition_result"), Some(&Json::Bool(false)));
}

#[test]
fn missing_variable_evaluates_to_false() {
    let mut node = condition_node("c3", "nonexistent > 0", "t", "e");
    let result = IfConditionPlugin::new().execute(&mut node);
    assert!(result.is_err(), "expected error for missing variable");
}

#[test]
fn ifcondition_invalid_template_returns_error() {
    let mut node = node_with("bad", TaskType::IfCondition, http_template(), "{}");
    assert!(IfConditionPlugin::new().execute(&mut node).is_err());
}

#[test]
fn plugin_type_is_ifcondition() {
    assert_eq!(IfConditionPlugin::new().plugin_type(), TaskType::IfCondition);
}

#[test]
fn scripts_return_whatever_they_ask_for() {
    for script in [
        "sleep(1e30); score == 80",
        "sleep(9223372036854775807); score == 80",
        "sleep(5.5); call(Fn(\"sle\" + \"ep\"), 1e300); score == 80",
        "let t = \"a\"; t.pad(10, \"\"); t == \"a\"",
        "let t = \"hello\"; t.pad(10, \"(!)\"); t == \"hello(!)(!\"",
        "let t = \"hello\"; t.pad(8, \"\u{e9}\u{e8}\"); t == \"hello\u{e9}\u{e8}\u{e9}\"",
        "let t = \"hello\"; t.pad(3, \"x\"); t.pad(-1, \"x\"); t == \"hello\"",
        "let a = [1]; a.pad(3, 7); a.pad(2, 9); a.pad(-4, 9); a == [1, 7, 7]",
        "let a = [3, 1, 2]; a.sort(); a == [1, 2, 3]",
        "let a = [3, 1, 2]; a.sort_desc(); a == [3, 2, 1]",
        "let a = [2.5, -1.0, 0.0]; a.sort(); a == [-1.0, 0.0, 2.5]",
        "let a = ['c', 'a']; a.order() == ['a', 'c'] && a == ['c', 'a']",
        "let a = [\"b\", \"a\", \"ab\"]; a.order_desc() == [\"b\", \"ab\", \"a\"]",
        "let a = [true, false]; a.sort(); a == [false, true]",
        "let a = [(), ()]; a.sort(); a.len() == 2",
        "let a = [#{}]; a.sort(); a.len() == 1",
        "let a = []; for i in 0..3000 { a.push((i * 7919) % 3001); } a.sort(); let b = a.order_desc(); \
            a[0] == 0 && a[2999] == 3000 && b[0] == 3000 && a.len() == 3000",
        "let a = []; for i in 0..3000 { a.push(if i % 3 == 0 { 0.0 / 0.0 } else { (i * 37 % 101) / 7.0 }); } \
            a.sort(); a.sort_desc(); a.order().len() == 3000 && a.order_desc().len() == 3000",
        "let a = [2, 1]; a.sort(|x, y| x - y); a == [1, 2]",
    ] {
        let mut node = condition_node("c", script, "t", "e");
        let result = IfConditionPlugin::new().execute(&mut node).unwrap();
        assert_eq!(result.jump_to_node, Some("t".to_string()), "{}", script);
    }
    let mut node = condition_node("c", "let a = []; a.pad(9223372036854775807, 0); true", "t", "e");
    let refused = IfConditionPlugin::new().execute(&mut node).unwrap_err();
    assert!(refused.contains("Size of array too large"), "{}", refused);
    for (script, why) in [
        ("let a = [1, 'x']; a.sort(); true", "elements of different types cannot be sorted"),
        ("let a = [1, 2.0]; a.order(); true", "elements of different types cannot be sorted"),
        ("let a = [[], []]; a.sort_desc(); true", "elements of array cannot be sorted"),
        ("let a = [#{}, #{}]; a.order_desc(); true", "elements of map cannot be sorted"),
    ] {
        let mut node = condition_node("c", script, "t", "e");
        let refused = IfConditionPlugin::new().execute(&mut node).unwrap_err();
        assert!(refused.contains(&format!("Function not found: {}", why)), "{}", refused);
    }
}

#[test]
fn conditions_take_either_way() {
    let plugin = IfConditionPlugin::new();
    let mut node = condition_node("c", "anything", "t", "e");
    let taken = plugin.condition_evaluated(&mut node, Ok(true)).unwrap();
    assert_eq!(taken.jump_to_node, Some("t".to_string()));
    let taken = plugin.condition_evaluated(&mut node, Ok(false)).unwrap();
    assert_eq!(taken.jump_to_node, Some("e".to_string()));
    assert!(plugin.condition_evaluated(&mut node, Err("why".into())).is_err());
}

fn rewrite_node(node_id: &str, script: &str, merge_mode: MergeMode) -> WorkflowNodeInstanceEntity {
    let template = TaskTemplate::ContextRewrite(ContextRewriteTemplate {
        name: "rewrite".into(),
        script: script.into(),
        merge_mode,
    });
    node_with(node_id, TaskType::ContextRewrite, template, "{}")
}

#[test]
fn merge_mode_merges_new_keys() {
    let mut wf = instance_with("wf1", r#"{"existing_key": "old_value"}"#);
    let mut node = rewrite_node("r1", "#{new_key: \"new_value\"}", MergeMode::Merge);
    let result = ContextRewritePlugin::new().execute(&mut node, &mut wf).unwrap();
    assert_eq!(result.status, NodeExecutionStatus::Success);
    assert_eq!(wf.context.get_str("existing_key"), Some("old_value"));
    assert_eq!(wf.context.get_str("new_key"), Some("new_value"));
}

#[test]
fn merge_mode_existing_keys_overwritten() {
    let mut wf = instance_with("wf1", r#"{"key": "old_value"}"#);
    let mut node = rewrite_node("r2", "#{key: \"new_value\"}", MergeMode::Merge);
    let result = ContextRewritePlugin::new().execute(&mut node, &mut wf).unwrap();
    assert_eq!(result.status, NodeExecutionStatus::Success);
    assert_eq!(wf.context.get_str("key"), Some("new_value"));
}

#[test]
fn replace_mode_replaces_all_keys() {
    let mut wf = instance_with("wf1", r#"{"existing_key": "old_value"}"#);
    let mut node = rewrite_node("r3", "#{only_new: 42}", MergeMode::Replace);
    let result = ContextRewritePlugin::new().execute(&mut node, &mut wf).unwrap();
    assert_eq!(result.status, NodeExecutionStatus::Success);
    assert_eq!(wf.context.get("existing_key"), None);
    assert_eq!(wf.context.get_u64("only_new"), Some(42));
}

#[test]
fn empty_script_returns_empty_map() {
    let mut wf = instance_with("wf1", r#"{"existing": "value"}"#);
    let mut node = rewrite_node("r5", "#{}", MergeMode::Merge);
    let result = ContextRewritePlugin::new().execute(&mut node, &mut wf).unwrap();
    assert_eq!(result.status, NodeExecutionStatus::Success);
    assert_eq!(wf.context.get_str("existing"), Some("value"));
}

#[test]
fn contextrewrite_invalid_template_returns_error() {
    let mut wf = instance_with("wf1", "{}");
    let mut node = node_with("bad", TaskType::ContextRewrite, http_template(), "{}");
    assert!(ContextRewritePlugin::new().execute(&mut node, &mut wf).is_err());
}

#[test]
fn non_map_script_returns_error() {
    let mut wf = instance_with("wf1", "{}");
    let mut node = rewrite_node("r5", "42", MergeMode::Merge);
    assert!(ContextRewritePlugin::new().execute(&mut node, &mut wf).is_err());
}

#[test]
fn plugin_type_is_context_rewrite() {
    assert_eq!(ContextRewritePlugin::new().plugin_type(), TaskType::ContextRewrite);
}

#[test]
fn merge_mode_with_non_object_context_replaces() {
    let mut wf = instance_with("wf1", r#""not_an_object""#);
    let mut node = rewrite_node("r6", r#"#{"key": "from_script"}"#, MergeMode::Merge);
    assert!(ContextRewritePlugin::new().execute(&mut node, &mut wf).is_ok());
    assert!(wf.context.is_object());
    assert_eq!(wf.context.get_str("key"), Some("from_script"));
}

#[test]
fn compile_error_returns_err() {
    let mut wf = instance_with("wf1", "{}");
    let mut node = rewrite_node("r7", "{{broken syntax", MergeMode::Merge);
    assert!(ContextRewritePlugin::new().execute(&mut node, &mut wf).is_err());
}

#[test]
fn a_rewrite_lists_the_keys_as_they_stand() {
    let mut wf = instance_with("wf1", r#"{"z": 1, "b": 2}"#);
    let mut node = rewrite_node("r8", "#{c: 3, b: 4, a: 5}", MergeMode::Merge);
    ContextRewritePlugin::new().execute(&mut node, &mut wf).unwrap();
    assert_eq!(wf.context.to_text(), r#"{"z":1,"b":4,"a":5,"c":3}"#);
    assert_eq!(
        node.task_instance.output.unwrap().to_text(),
        r#"{"rewritten_keys":["z","b","a","c"]}"#
    );
    assert_eq!(node.task_instance.input.unwrap().get_str("merge_mode"), Some("Merge"));
}

#[test]
fn scripts_see_the_context_of_their_node() {
    let mut wf = instance_with("wf1", "{}");
    let mut node = rewrite_node("r9", "#{sum: ctx.a + ctx.b}", MergeMode::Replace);
    node.context = json(r#"{"a": 2, "b": 40}"#);
    ContextRewritePlugin::new().execute(&mut node, &mut wf).unwrap();
    assert_eq!(wf.context.get_u64("sum"), Some(42));
}

#[test]
fn a_failing_script_changes_nothing() {
    let plugin = ContextRewritePlugin::new();
    let mut wf = instance_with("wf1", r#"{"a": 1}"#);
    let mut node = rewrite_node("r", "#{}", MergeMode::Replace);
    let e = plugin.script_evaluated(&mut node, &mut wf, Err("boom".into())).unwrap_err();
    assert_eq!(e, "ContextRewrite script error: boom");
    assert_eq!(wf, instance_with("wf1", r#"{"a": 1}"#));
    let r = plugin.script_evaluated(
        &mut node,
        &mut wf,
        Ok(ScriptValue::Object(vec![("x".into(), ScriptValue::Int(1))])),
    );
    assert!(r.is_ok());
    assert_eq!(wf.context.to_text(), r#"{"x":1}"#);
}

#[test]
fn test_dynamic_to_json_null() {
    assert_eq!(dynamic_to_json(&ScriptValue::Unit), Json::Null);
}

#[test]
fn test_dynamic_to_json_bool() {
    assert_eq!(dynamic_to_json(&ScriptValue::Bool(true)), Json::Bool(true));
}

#[test]
fn test_dynamic_to_json_int() {
    assert_eq!(dynamic_to_json(&ScriptValue::Int(42)), json("42"));
    assert_eq!(dynamic_to_json(&ScriptValue::Int(-1)), Json::Number(JsonNumber::Negative(-1)));
}

#[test]
fn test_dynamic_to_json_float() {
    assert_eq!(dynamic_to_json(&ScriptValue::Float(Some("3.14".into()))), json("3.14"));
    assert_eq!(dynamic_to_json(&ScriptValue::Float(None)), Json::Null);
}

#[test]
fn test_dynamic_to_json_string() {
    assert_eq!(dynamic_to_json(&ScriptValue::Str("hello".into())), text("hello"));
}

#[test]
fn test_dynamic_to_json_array() {
    let val = ScriptValue::Array(vec![ScriptValue::Int(1), ScriptValue::Str("two".into())]);
    assert_eq!(dynamic_to_json(&val), json(r#"[1, "two"]"#));
}

#[test]
fn test_dynamic_to_json_map() {
    let val = ScriptValue::Object(vec![
        ("a".into(), ScriptValue::Int(1)),
        ("b".into(), ScriptValue::Str("x".into())),
    ]);
    let json_val = dynamic_to_json(&val);
    assert_eq!(json_val.get("a"), Some(&json("1")));
    assert_eq!(json_val.get("b"), Some(&text("x")));
}

#[test]
fn values_come_back_from_scripts() {
    let v = json(r#"{"a": [null, true, -3, "x"], "b": {"c": 2.5}}"#);
    assert_eq!(dynamic_to_json(&json_to_dynamic(&v)), v);
    let entries = rhai_map_to_json(&json_to_dynamic(&v)).unwrap();
    assert_eq!(Json::Object(entries), v);
    assert_eq!(
        rhai_map_to_json(&ScriptValue::Int(1)).unwrap_err(),
        "script must return a Map (#{ ... })"
    );
}

#[test]
fn scopes_hold_the_context_whole_or_by_key() {
    let v = json(r#"{"a": 1, "b": "x"}"#);
    let mut scope = vec![];
    inject_context(&mut scope, &v);
    assert_eq!(scope.len(), 1);
    assert_eq!(scope[0].0, "ctx");
    let mut flat = vec![];
    inject_context_flat(&mut flat, &v);
    let names: Vec<&str> = flat.iter().map(|(k, _)| k.as_str()).collect();
    assert_eq!(names, vec!["a", "b"]);
    inject_context_flat(&mut flat, &Json::Null);
    assert_eq!(flat.len(), 2);
}

#[test]
fn scripts_compile_or_say_why_not() {
    let engine = create_engine();
    assert!(compile_script(&engine, "1 + 1").is_ok());
    let e = compile_script(&engine, "{{broken syntax").unwrap_err();
    assert!(e.starts_with("Rhai compile error: "));
}

fn approval_node(node_id: &str) -> WorkflowNodeInstanceEntity {
    let template = TaskTemplate::Approval(ApprovalTemplate {
        name: "approve".into(),
        title: "Approve this".into(),
        description: Some("Please approve".into()),
        approvers: vec![ApproverRule::User("approver1".into())],
        approval_mode: ApprovalMode::Any,
        timeout: Some(3600),
        self_approval: SelfApprovalPolicy::Skip,
    });
    node_with(node_id, TaskType::Approval, template, r#"{"assignee": "user_from_context"}"#)
}

#[test]
fn execute_creates_approval_and_returns_suspended() {
    let plugin = ApprovalPlugin::new();
    let mut wf = instance_with("wf1", "{}");
    wf.created_by = Some("applicant1".into());
    let mut node = approval_node("a1");
    let request = plugin.execute(&mut node, &wf).unwrap();
    assert_eq!(request.tenant_id, "t1");
    assert_eq!(request.workflow_instance_id, "wf1");
    assert_eq!(request.node_id, "a1");
    assert_eq!(request.applicant_id, Some("applicant1".to_string()));
    assert_eq!(request.template.timeout, Some(3600));
    assert_eq!(request.context, json(r#"{"assignee": "user_from_context"}"#));
    let created = ApprovalInstanceEntity {
        id: "approval-1".into(),
        tenant_id: request.tenant_id,
        workflow_instance_id: request.workflow_instance_id,
        node_id: request.node_id,
        title: request.template.title,
        description: request.template.description,
        approval_mode: request.template.approval_mode,
        approvers: vec!["approver1".into()],
        status: ApprovalStatus::Pending,
        created_at: at(1),
        updated_at: at(1),
        expires_at: Some(at(3601)),
        applicant_id: request.applicant_id,
    };
    let result = plugin.approval_created(&mut node, Ok(created)).unwrap();
    assert_eq!(result.status, NodeExecutionStatus::Suspended);
    let output = node.task_instance.output.as_ref().unwrap();
    assert_eq!(output.get_str("approval_id"), Some("approval-1"));
    assert_eq!(output.get("approvers"), Some(&json(r#"["approver1"]"#)));
}

#[test]
fn approvals_that_cannot_be_filed_are_errors() {
    let plugin = ApprovalPlugin::new();
    let mut node = approval_node("a1");
    assert_eq!(
        plugin.approval_created(&mut node, Err("no approvers".into())).unwrap_err(),
        "Failed to create approval instance: no approvers"
    );
    let mut other = http_node();
    assert_eq!(
        plugin.execute(&mut other, &instance_with("wf1", "{}")).unwrap_err(),
        "Invalid task template for ApprovalPlugin"
    );
}

#[test]
fn handle_callback_success_returns_success() {
    let mut node = approval_node("a3");
    let result = ApprovalPlugin::new().handle_callback(
        &mut node,
        &NodeExecutionStatus::Success,
        &None,
        &None,
        &None,
    );
    assert_eq!(result.status, NodeExecutionStatus::Success);
}

#[test]
fn handle_callback_failed_returns_failed() {
    let mut node = approval_node("a4");
    let result = ApprovalPlugin::new().handle_callback(
        &mut node,
        &NodeExecutionStatus::Failed,
        &None,
        &Some("rejected".into()),
        &None,
    );
    assert_eq!(result.status, NodeExecutionStatus::Failed);
    assert_eq!(node.error_message, Some("rejected".into()));
}

#[test]
fn handle_callback_skipped_returns_skipped() {
    let mut node = approval_node("a5");
    let result = ApprovalPlugin::new().handle_callback(
        &mut node,
        &NodeExecutionStatus::Skipped,
        &None,
        &None,
        &None,
    );
    assert_eq!(result.status, NodeExecutionStatus::Skipped);
}

#[test]
fn plugin_type_is_approval() {
    assert_eq!(ApprovalPlugin::new().plugin_type(), TaskType::Approval);
}

#[test]
fn approval_status_conversion() {
    assert_eq!(
        approval_status_to_node_status(&ApprovalStatus::Approved),
        NodeExecutionStatus::Success
    );
    assert_eq!(
        approval_status_to_node_status(&ApprovalStatus::Rejected),
        NodeExecutionStatus::Failed
    );
    assert_eq!(
        approval_status_to_node_status(&ApprovalStatus::Pending),
        NodeExecutionStatus::Suspended
    );
}

fn sub_node(node_id: &str, child: Option<&str>) -> WorkflowNodeInstanceEntity {
    let template = TaskTemplate::SubWorkflow(SubWorkflowTemplate {
        workflow_meta_id: "child-meta".into(),
        workflow_version: 1,
        form: vec![],
        timeout: None,
    });
    let mut node = node_with(node_id, TaskType::SubWorkflow, template, "{}");
    node.task_instance.output =
        child.map(|c| json(&format!(r#"{{"child_workflow_instance_id": "{}"}}"#, c)));
    node
}

fn parent(depth: u32) -> WorkflowInstanceEntity {
    let mut wf = instance_with("wf-parent", "{}");
    wf.depth = depth;
    wf.created_by = Some("user1".into());
    wf
}

#[test]
fn execute_creates_child_workflow() {
    let plugin = SubWorkflowPlugin::new();
    let wf = parent(0);
    let mut node = sub_node("s1", None);
    match plugin.execute(&node, &wf).unwrap() {
        SubWorkflowStep::LoadTemplate(meta, version) => {
            assert_eq!(meta, "child-meta");
            assert_eq!(version, 1);
        }
        _ => unreachable!(),
    }
    let request = plugin.template_loaded(&node, &wf, Ok(())).unwrap();
    assert_eq!(request.tenant_id, "t1");
    assert_eq!(request.workflow_meta_id, "child-meta");
    assert_eq!(request.depth, 1);
    assert_eq!(request.parent_context.workflow_instance_id, "wf-parent");
    assert_eq!(request.parent_context.node_id, "s1");
    assert_eq!(request.created_by, Some("user1".to_string()));
    let result = plugin.child_created(&mut node, &wf, Ok("child-1".into())).unwrap();
    assert_eq!(result.status, NodeExecutionStatus::Await);
    assert_eq!(result.dispatch_workflow_jobs.len(), 1);
    let job = &result.dispatch_workflow_jobs[0];
    assert_eq!(job.tenant_id, "t1");
    assert_eq!(job.workflow_instance_id, "child-1");
    assert!(matches!(job.event, WorkflowEvent::Start));
    let output = node.task_instance.output.as_ref().unwrap();
    assert_eq!(output.get_str("child_workflow_instance_id"), Some("child-1"));
}

#[test]
fn execute_depth_exceeded_returns_error() {
    let result = SubWorkflowPlugin::new().execute(&sub_node("s_deep", None), &parent(10));
    assert!(result.is_err());
    assert!(result.unwrap_err().contains("depth exceeded"));
}

fn looked_up(
    node: &mut WorkflowNodeInstanceEntity,
    found: Option<WorkflowInstanceStatus>,
) -> SubWorkflowStep {
    let plugin = SubWorkflowPlugin::new();
    let wf = parent(0);
    match plugin.execute(node, &wf).unwrap() {
        SubWorkflowStep::LookUpChild(id) => assert_eq!(id, "child-wf"),
        _ => unreachable!(),
    }
    plugin.child_looked_up(node, &wf, found).unwrap()
}

#[test]
fn reevaluation_child_completed_returns_success() {
    let mut node = sub_node("s2", Some("child-wf"));
    match looked_up(&mut node, Some(WorkflowInstanceStatus::Completed)) {
        SubWorkflowStep::Done(r) => assert_eq!(r.status, NodeExecutionStatus::Success),
        _ => unreachable!(),
    }
}

#[test]
fn reevaluation_child_failed_returns_failed() {
    let mut node = sub_node("s3", Some("child-wf"));
    match looked_up(&mut node, Some(WorkflowInstanceStatus::Failed)) {
        SubWorkflowStep::Done(r) => assert_eq!(r.status, NodeExecutionStatus::Failed),
        _ => unreachable!(),
    }
}

#[test]
fn reevaluation_child_running_returns_await() {
    let mut node = sub_node("s4", Some("child-wf"));
    match looked_up(&mut node, Some(WorkflowInstanceStatus::Running)) {
        SubWorkflowStep::Done(r) => assert_eq!(r.status, NodeExecutionStatus::Await),
        _ => unreachable!(),
    }
}

#[test]
fn reevaluation_child_not_found_creates_new() {
    let plugin = SubWorkflowPlugin::new();
    let mut node = sub_node("s5", Some("child-wf"));
    assert!(matches!(looked_up(&mut node, None), SubWorkflowStep::LoadTemplate(_, _)));
    let request = plugin.template_loaded(&node, &parent(0), Ok(())).unwrap();
    assert_eq!(request.depth, 1);
    let result = plugin.child_created(&mut node, &parent(0), Ok("new-child".into())).unwrap();
    assert_eq!(result.status, NodeExecutionStatus::Await);
}

#[test]
fn plugin_type_is_subworkflow() {
    assert_eq!(SubWorkflowPlugin::new().plugin_type(), TaskType::SubWorkflow);
}

#[test]
fn children_that_cannot_be_made_are_errors() {
    let plugin = SubWorkflowPlugin::new();
    let wf = parent(0);
    let mut node = sub_node("s1", None);
    assert!(plugin.template_loaded(&node, &wf, Err("gone".into())).unwrap_err().contains("gone"));
    assert!(plugin.child_created(&mut node, &wf, Err("full".into())).unwrap_err().contains("full"));
    assert!(plugin.execute(&http_node(), &wf).is_err());
}
