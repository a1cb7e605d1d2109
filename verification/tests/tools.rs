use workflow::approval::Decision;
use workflow::auth::{AuthService, Claims, TokenService};
use workflow::json::Json;
use workflow::mcp::{
    dispatch_tool_call, find_tool, list_tools, parse_decision, resolve_auth, skip_output,
    tool_schema, tool_table, ListInstancesParams, ListTaskInstancesParams, McpTool,
};
use workflow::shared::{TaskInstanceStatus, WorkflowInstanceStatus};

fn all_tool_names() -> &'static [&'static str] {
    &[
        "cancel_workflow_instance",
        "decide_approval",
        "execute_task",
        "execute_workflow_instance",
        "get_task_instance",
        "get_workflow_definition",
        "get_workflow_instance",
        "list_approvals",
        "list_task_instances",
        "list_workflow_definitions",
        "list_workflow_instances",
        "retry_task_instance",
        "retry_workflow_instance",
        "skip_workflow_node",
    ]
}

fn json(text: &str) -> serde_json::Value {
    serde_json::from_str(text).unwrap()
}

#[test]
fn test_tools_table_sorted() {
    let table = tool_table();
    for i in 1..table.len() {
        assert!(
            table[i - 1].name() < table[i].name(),
            "table[{}]={} >= table[{}]={}",
            i - 1,
            table[i - 1].name(),
            i,
            table[i].name()
        );
    }
}

#[test]
fn test_all_tool_names_found() {
    for name in all_tool_names() {
        assert!(find_tool(name).is_some(), "tool not found: {}", name);
    }
}

#[test]
fn test_unknown_tool_not_found() {
    assert!(find_tool("nonexistent_tool").is_none());
}

#[test]
fn test_tools_count_matches_tool_list() {
    assert_eq!(tool_table().len(), 14);
    assert_eq!(all_tool_names().len(), 14);
}

#[test]
fn every_tool_is_found_by_its_own_name() {
    for tool in tool_table() {
        assert_eq!(find_tool(tool.name()), Some(tool));
        assert_eq!(dispatch_tool_call(tool.name()), Ok(tool));
    }
    assert_eq!(dispatch_tool_call("a"), Err("unknown tool: a".to_string()));
    assert_eq!(dispatch_tool_call("zzz"), Err("unknown tool: zzz".to_string()));
    assert_eq!(dispatch_tool_call(""), Err("unknown tool: ".to_string()));
}

#[test]
fn every_tool_is_listed_once() {
    let listed = list_tools();
    assert_eq!(listed.len(), 14);
    assert_eq!(listed[0].name, "list_workflow_instances");
    assert_eq!(listed[13].name, "execute_task");
    for tool in tool_table() {
        assert_eq!(listed.iter().filter(|t| t.name == tool.name()).count(), 1);
    }
}

#[test]
fn schemas_say_what_is_required() {
    let listed = list_tools();
    let schema = |name: &str| {
        listed.iter().find(|t| t.name == name).map(|t| json(&t.schema.to_text())).unwrap()
    };
    assert_eq!(
        schema("get_workflow_instance"),
        json(r#"{"properties":{"instance_id":{"type":"string"}},"required":["instance_id"],"type":"object"}"#)
    );
    assert_eq!(schema("list_approvals"), json(r#"{"properties":{},"type":"object"}"#));
    assert_eq!(
        schema("decide_approval"),
        json(r#"{"properties":{"approval_id":{"type":"string"},"comment":{"type":"string"},"decision":{"description":"Approve or Reject","type":"string"}},"required":["approval_id","decision"],"type":"object"}"#)
    );
    assert_eq!(
        schema("list_task_instances"),
        json(r#"{"properties":{"page":{"default":1,"type":"integer"},"page_size":{"default":10,"type":"integer"},"status":{"type":"string"}},"type":"object"}"#)
    );
}

#[test]
fn test_tool_schema_creates_arc() {
    let schema = tool_schema(Json::parse(r#"{"type": "object"}"#).unwrap());
    assert_eq!(Json::Object(schema).get_str("type"), Some("object"));
    assert!(tool_schema(Json::Bool(true)).is_empty());
}

#[test]
fn test_parse_list_instances_params_defaults() {
    let params = ListInstancesParams::default();
    assert_eq!(params.page, 1);
    assert_eq!(params.page_size, 10);
    assert!(params.status.is_none());
}

#[test]
fn test_parse_decision_approve() {
    assert_eq!(parse_decision("Approve").unwrap(), Decision::Approve);
    assert_eq!(parse_decision("approve").unwrap(), Decision::Approve);
}

#[test]
fn test_parse_decision_reject() {
    assert_eq!(parse_decision("Reject").unwrap(), Decision::Reject);
}

#[test]
fn test_parse_decision_invalid() {
    assert!(parse_decision("invalid").is_err());
}

#[test]
fn the_error_of_a_decision_says_what_there_is() {
    assert_eq!(parse_decision("").unwrap_err(), "decision must be Approve or Reject");
}

#[test]
fn a_call_becomes_a_query() {
    let params = ListInstancesParams {
        status: Some("Failed".into()),
        workflow_meta_id: Some("m".into()),
        version: Some(3),
        page: 2,
        page_size: 20,
    };
    let q = params.into_query("t1");
    assert_eq!(q.tenant_id, "t1");
    assert_eq!(q.status, Some(WorkflowInstanceStatus::Failed));
    assert_eq!(q.version, Some(3));
    assert_eq!((q.pagination.page, q.pagination.page_size), (2, 20));
    assert_eq!((q.sort.sort_by.as_str(), q.sort.sort_order.as_str()), ("created_at", "desc"));

    let mut params = ListInstancesParams::default();
    params.status = Some("failed".into());
    assert_eq!(params.into_query("t1").status, None);
    let mut params = ListInstancesParams::default();
    params.status = Some("\\u0046ailed".into());
    assert_eq!(params.into_query("t1").status, Some(WorkflowInstanceStatus::Failed));

    let tasks = ListTaskInstancesParams { status: Some("Skipped".into()), page: 1, page_size: 5 };
    let q = tasks.into_query("t2");
    assert_eq!(q.status, Some(TaskInstanceStatus::Skipped));
    assert_eq!(q.task_id, None);
}

#[test]
fn a_call_is_made_by_the_bearer_of_its_token() {
    let tokens = TokenService::new("k".into());
    let claims = Claims {
        sub: "u".into(),
        username: "n".into(),
        is_super_admin: false,
        tenant_id: "t".into(),
        role: "Viewer".into(),
        exp: 9999999999,
    };
    let token = tokens.create_token(&claims).unwrap();
    let svc = AuthService::new(tokens);
    let bearer = format!("Bearer {}", token);
    assert_eq!(resolve_auth(&svc, Some(&bearer), None).unwrap().user_id, "u");
    assert_eq!(resolve_auth(&svc, Some(&token), None).unwrap().user_id, "u");
    let meta = Json::Str(bearer);
    assert_eq!(resolve_auth(&svc, None, Some(&meta)).unwrap().user_id, "u");
    let number = Json::Bool(true);
    assert_eq!(
        resolve_auth(&svc, None, Some(&number)).unwrap_err(),
        "invalid authorization metadata"
    );
    assert_eq!(resolve_auth(&svc, None, None).unwrap_err(), "missing authorization");
    assert!(resolve_auth(&svc, Some("x"), None)
        .unwrap_err()
        .starts_with("auth failed: invalid token: "));
}

#[test]
fn a_skipped_node_gets_an_object() {
    assert_eq!(skip_output(Json::Null).to_text(), "{}");
    assert_eq!(skip_output(Json::Bool(true)), Json::Bool(true));
    assert_eq!(McpTool::SkipWorkflowNode.name(), "skip_workflow_node");
}
