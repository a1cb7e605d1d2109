//! The tools that language models call: their names and schemas, who calls them, and what their
//! arguments ask for.

use crate::approval::Decision;
use crate::auth::{checked_token, AuthContext, AuthService};
use crate::codec::parsed_json;
use crate::json::{
    entries_model, items_model, json_number, json_single, json_text, lemma_items_model, number,
    put_str, Json, JsonView,
};
use crate::query::{Pagination, SortParams, TaskInstanceQuery, WorkflowInstanceQuery};
use crate::shared::{TaskInstanceStatus, WorkflowInstanceStatus};
use crate::text::{
    ascending, ascends_at, before, concat2, concat3, lemma_ascending_by_steps, lemma_before_at,
    lemma_before_irreflexive, lemma_before_transitive, lowercase, opt_slice, opt_text, owned, same,
    strip_prefix, stripped, text_before, to_lowercase,
};
use crate::usecase::{ApprovalUsecase, TaskUsecase, WorkflowUsecase};
use vstd::prelude::*;

verus! {

/// A tool.
#[derive(Clone, Copy, Debug, PartialEq, Eq, Structural)]
pub enum McpTool {
    CancelWorkflowInstance,
    DecideApproval,
    ExecuteTask,
    ExecuteWorkflowInstance,
    GetTaskInstance,
    GetWorkflowDefinition,
    GetWorkflowInstance,
    ListApprovals,
    ListTaskInstances,
    ListWorkflowDefinitions,
    ListWorkflowInstances,
    RetryTaskInstance,
    RetryWorkflowInstance,
    SkipWorkflowNode,
}

impl McpTool {
    /// The name that the tool is called by.
    pub open spec fn label(self) -> Seq<char> {
        match self {
            McpTool::CancelWorkflowInstance => "cancel_workflow_instance"@,
            McpTool::DecideApproval => "decide_approval"@,
            McpTool::ExecuteTask => "execute_task"@,
            McpTool::ExecuteWorkflowInstance => "execute_workflow_instance"@,
            McpTool::GetTaskInstance => "get_task_instance"@,
            McpTool::GetWorkflowDefinition => "get_workflow_definition"@,
            McpTool::GetWorkflowInstance => "get_workflow_instance"@,
            McpTool::ListApprovals => "list_approvals"@,
            McpTool::ListTaskInstances => "list_task_instances"@,
            McpTool::ListWorkflowDefinitions => "list_workflow_definitions"@,
            McpTool::ListWorkflowInstances => "list_workflow_instances"@,
            McpTool::RetryTaskInstance => "retry_task_instance"@,
            McpTool::RetryWorkflowInstance => "retry_workflow_instance"@,
            McpTool::SkipWorkflowNode => "skip_workflow_node"@,
        }
    }

    /// The name that the tool is called by.
    pub fn name(&self) -> (r: &'static str)
        ensures
            r@ == self.label(),
    {
        match self {
            McpTool::CancelWorkflowInstance => "cancel_workflow_instance",
            McpTool::DecideApproval => "decide_approval",
            McpTool::ExecuteTask => "execute_task",
            McpTool::ExecuteWorkflowInstance => "execute_workflow_instance",
            McpTool::GetTaskInstance => "get_task_instance",
            McpTool::GetWorkflowDefinition => "get_workflow_definition",
            McpTool::GetWorkflowInstance => "get_workflow_instance",
            McpTool::ListApprovals => "list_approvals",
            McpTool::ListTaskInstances => "list_task_instances",
            McpTool::ListWorkflowDefinitions => "list_workflow_definitions",
            McpTool::ListWorkflowInstances => "list_workflow_instances",
            McpTool::RetryTaskInstance => "retry_task_instance",
            McpTool::RetryWorkflowInstance => "retry_workflow_instance",
            McpTool::SkipWorkflowNode => "skip_workflow_node",
        }
    }

    /// What the tool does, in words.
    pub open spec fn words(self) -> Seq<char> {
        match self {
            McpTool::CancelWorkflowInstance => "Cancel a workflow instance (must be in Failed or Suspended status)"@,
            McpTool::DecideApproval => "Approve or reject an approval request"@,
            McpTool::ExecuteTask => "Create and execute a task instance by task name"@,
            McpTool::ExecuteWorkflowInstance => "Execute a workflow instance (must be in Pending status)"@,
            McpTool::GetTaskInstance => "Get detailed information about a task instance"@,
            McpTool::GetWorkflowDefinition => "Get a workflow definition by meta ID"@,
            McpTool::GetWorkflowInstance => "Get detailed information about a specific workflow instance"@,
            McpTool::ListApprovals => "List all approvals in the current tenant"@,
            McpTool::ListTaskInstances => "List task instances with optional status filtering"@,
            McpTool::ListWorkflowDefinitions => "List all workflow definitions (meta)"@,
            McpTool::ListWorkflowInstances => "List workflow instances with optional filtering by status"@,
            McpTool::RetryTaskInstance => "Retry a failed task instance (sets to Pending)"@,
            McpTool::RetryWorkflowInstance => "Retry a failed workflow instance (sets to Pending)"@,
            McpTool::SkipWorkflowNode => "Skip a failed node in a workflow instance"@,
        }
    }

    /// What the tool does, in words.
    pub fn description(&self) -> (r: &'static str)
        ensures
            r@ == self.words(),
    {
        match self {
            McpTool::CancelWorkflowInstance => "Cancel a workflow instance (must be in Failed or Suspended status)",
            McpTool::DecideApproval => "Approve or reject an approval request",
            McpTool::ExecuteTask => "Create and execute a task instance by task name",
            McpTool::ExecuteWorkflowInstance => "Execute a workflow instance (must be in Pending status)",
            McpTool::GetTaskInstance => "Get detailed information about a task instance",
            McpTool::GetWorkflowDefinition => "Get a workflow definition by meta ID",
            McpTool::GetWorkflowInstance => "Get detailed information about a specific workflow instance",
            McpTool::ListApprovals => "List all approvals in the current tenant",
            McpTool::ListTaskInstances => "List task instances with optional status filtering",
            McpTool::ListWorkflowDefinitions => "List all workflow definitions (meta)",
            McpTool::ListWorkflowInstances => "List workflow instances with optional filtering by status",
            McpTool::RetryTaskInstance => "Retry a failed task instance (sets to Pending)",
            McpTool::RetryWorkflowInstance => "Retry a failed workflow instance (sets to Pending)",
            McpTool::SkipWorkflowNode => "Skip a failed node in a workflow instance",
        }
    }
}

/// All tools, in the order of their names.
pub open spec fn tools() -> Seq<McpTool> {
    seq![
        McpTool::CancelWorkflowInstance,
        McpTool::DecideApproval,
        McpTool::ExecuteTask,
        McpTool::ExecuteWorkflowInstance,
        McpTool::GetTaskInstance,
        McpTool::GetWorkflowDefinition,
        McpTool::GetWorkflowInstance,
        McpTool::ListApprovals,
        McpTool::ListTaskInstances,
        McpTool::ListWorkflowDefinitions,
        McpTool::ListWorkflowInstances,
        McpTool::RetryTaskInstance,
        McpTool::RetryWorkflowInstance,
        McpTool::SkipWorkflowNode,
    ]
}

/// The names of all tools.
pub open spec fn tool_names() -> Seq<Seq<char>> {
    Seq::new(tools().len(), |i: int| tools()[i].label())
}

/// Where a tool stands among all tools.
pub open spec fn place_of(tool: McpTool) -> int {
    match tool {
        McpTool::CancelWorkflowInstance => 0,
        McpTool::DecideApproval => 1,
        McpTool::ExecuteTask => 2,
        McpTool::ExecuteWorkflowInstance => 3,
        McpTool::GetTaskInstance => 4,
        McpTool::GetWorkflowDefinition => 5,
        McpTool::GetWorkflowInstance => 6,
        McpTool::ListApprovals => 7,
        McpTool::ListTaskInstances => 8,
        McpTool::ListWorkflowDefinitions => 9,
        McpTool::ListWorkflowInstances => 10,
        McpTool::RetryTaskInstance => 11,
        McpTool::RetryWorkflowInstance => 12,
        McpTool::SkipWorkflowNode => 13,
    }
}

/// The tools stand in the order of their names, and each stands among them; so no two have one
/// name.
pub proof fn law_tools_are_sorted()
    ensures
        ascending(tool_names()),
        forall|t: McpTool| 0 <= #[trigger] place_of(t) < tools().len() && tools()[place_of(t)] == t,
        forall|a: McpTool, b: McpTool| #[trigger] a.label() == #[trigger] b.label() ==> a == b,
{
    reveal_strlit("cancel_workflow_instance");
    reveal_strlit("decide_approval");
    reveal_strlit("execute_task");
    reveal_strlit("execute_workflow_instance");
    reveal_strlit("get_task_instance");
    reveal_strlit("get_workflow_definition");
    reveal_strlit("get_workflow_instance");
    reveal_strlit("list_approvals");
    reveal_strlit("list_task_instances");
    reveal_strlit("list_workflow_definitions");
    reveal_strlit("list_workflow_instances");
    reveal_strlit("retry_task_instance");
    reveal_strlit("retry_workflow_instance");
    reveal_strlit("skip_workflow_node");
    let names = tool_names();
    lemma_before_at("cancel_workflow_instance"@, "decide_approval"@, 0);
    lemma_before_at("decide_approval"@, "execute_task"@, 0);
    lemma_before_at("execute_task"@, "execute_workflow_instance"@, 8);
    lemma_before_at("execute_workflow_instance"@, "get_task_instance"@, 0);
    lemma_before_at("get_task_instance"@, "get_workflow_definition"@, 4);
    lemma_before_at("get_workflow_definition"@, "get_workflow_instance"@, 13);
    lemma_before_at("get_workflow_instance"@, "list_approvals"@, 0);
    lemma_before_at("list_approvals"@, "list_task_instances"@, 5);
    lemma_before_at("list_task_instances"@, "list_workflow_definitions"@, 5);
    lemma_before_at("list_workflow_definitions"@, "list_workflow_instances"@, 14);
    lemma_before_at("list_workflow_instances"@, "retry_task_instance"@, 0);
    lemma_before_at("retry_task_instance"@, "retry_workflow_instance"@, 6);
    lemma_before_at("retry_workflow_instance"@, "skip_workflow_node"@, 0);
    assert forall|i: int| 0 <= i < names.len() - 1 implies #[trigger] ascends_at(names, i) by {
        assert(names[i] == tools()[i].label() && names[i + 1] == tools()[i + 1].label());
    }
    lemma_ascending_by_steps(names);
    assert forall|t: McpTool| 0 <= #[trigger] place_of(t) < tools().len() && tools()[place_of(t)]
        == t by {}
    assert forall|a: McpTool, b: McpTool| #[trigger] a.label() == #[trigger] b.label() implies a
        == b by {
        let i = place_of(a);
        let j = place_of(b);
        assert(names[i] == a.label() && names[j] == b.label());
        lemma_before_irreflexive(a.label());
        if i < j {
            assert(before(names[i], names[j]));
        }
        if j < i {
            assert(before(names[j], names[i]));
        }
    }
}

/// All tools, in the order of their names.
pub fn tool_table() -> (r: Vec<McpTool>)
    ensures
        r@ == tools(),
{
    let r = vec![
        McpTool::CancelWorkflowInstance,
        McpTool::DecideApproval,
        McpTool::ExecuteTask,
        McpTool::ExecuteWorkflowInstance,
        McpTool::GetTaskInstance,
        McpTool::GetWorkflowDefinition,
        McpTool::GetWorkflowInstance,
        McpTool::ListApprovals,
        McpTool::ListTaskInstances,
        McpTool::ListWorkflowDefinitions,
        McpTool::ListWorkflowInstances,
        McpTool::RetryTaskInstance,
        McpTool::RetryWorkflowInstance,
        McpTool::SkipWorkflowNode,
    ];
    assert(r@ =~= tools());
    r
}

/// The tool with a given name, if there is one.
pub fn find_tool(name: &str) -> (r: Option<McpTool>)
    ensures
        match r {
            Some(t) => t.label() == name@,
            None => forall|t: McpTool| #[trigger] t.label() != name@,
        },
{
    let table = tool_table();
    let ghost names = tool_names();
    proof {
        law_tools_are_sorted();
    }
    let mut low: usize = 0;
    let mut high: usize = table.len();
    while low < high
        invariant
            low <= high <= table@.len(),
            table@ == tools(),
            names == tool_names(),
            ascending(names),
            forall|i: int| 0 <= i < low ==> before(#[trigger] names[i], name@),
            forall|i: int| high <= i < names.len() ==> before(name@, #[trigger] names[i]),
        decreases high - low,
    {
        let mid: usize = low + (high - low) / 2;
        let tool = table[mid];
        assert(names[mid as int] == tool.label());
        if same(tool.name(), name) {
            return Some(tool);
        }
        if text_before(tool.name(), name) {
            assert forall|i: int| 0 <= i < mid + 1 implies before(#[trigger] names[i], name@) by {
                if i < mid {
                    lemma_before_transitive(names[i], names[mid as int], name@);
                }
            }
            low = mid + 1;
        } else {
            proof {
                crate::text::lemma_before_total(tool.label(), name@);
                assert forall|i: int| mid <= i < names.len() implies before(
                    name@,
                    #[trigger] names[i],
                ) by {
                    if i > mid {
                        lemma_before_transitive(name@, names[mid as int], names[i]);
                    }
                }
            }
            high = mid;
        }
    }
    assert forall|t: McpTool| #[trigger] t.label() != name@ by {
        let i = place_of(t);
        assert(names[i] == t.label());
        lemma_before_irreflexive(name@);
    }
    None
}

/// Which tool a call is for; a name that no tool has is an error.
pub fn dispatch_tool_call(name: &str) -> (r: Result<McpTool, String>)
    ensures
        match r {
            Ok(t) => t.label() == name@,
            Err(e) => (forall|t: McpTool| #[trigger] t.label() != name@) && e@ == "unknown tool: "@
                + name@,
        },
{
    match find_tool(name) {
        Some(t) => Ok(t),
        None => Err(concat2("unknown tool: ", name)),
    }
}

/// The schema of a value of a type.
pub open spec fn typed(kind: Seq<char>) -> JsonView {
    JsonView::Object(map!["type"@ => JsonView::Str(kind)])
}

/// The schema of a value of a type, with a description.
pub open spec fn typed_as(kind: Seq<char>, description: Seq<char>) -> JsonView {
    JsonView::Object(
        map!["type"@ => JsonView::Str(kind), "description"@ => JsonView::Str(description)],
    )
}

/// The schema of an integer that can be left out.
pub open spec fn integer_or(default: u64) -> JsonView {
    JsonView::Object(map!["type"@ => JsonView::Str("integer"@), "default"@ => number(default)])
}

/// The schema of an object.
pub open spec fn object_schema(properties: Map<Seq<char>, JsonView>) -> JsonView {
    JsonView::Object(
        map!["type"@ => JsonView::Str("object"@), "properties"@ => JsonView::Object(properties)],
    )
}

/// The schema of an object with entries that must be there.
pub open spec fn object_requiring(
    properties: Map<Seq<char>, JsonView>,
    required: Seq<JsonView>,
) -> JsonView {
    JsonView::Object(
        map!["type"@ => JsonView::Str("object"@), "properties"@ => JsonView::Object(properties), "required"@ => JsonView::Array(required)],
    )
}

/// The schema of the arguments of a tool that works on one thing.
pub open spec fn one_text(key: Seq<char>) -> JsonView {
    object_requiring(map![key => typed("string"@)], seq![JsonView::Str(key)])
}

/// The schema of a tool's arguments.
pub open spec fn schema(tool: McpTool) -> JsonView {
    match tool {
        McpTool::ListWorkflowInstances => object_schema(
            map!["status"@ => typed("string"@), "workflow_meta_id"@ => typed("string"@), "version"@ => typed("integer"@), "page"@ => integer_or(1), "page_size"@ => integer_or(10)],
        ),
        McpTool::ListTaskInstances => object_schema(
            map!["status"@ => typed("string"@), "page"@ => integer_or(1), "page_size"@ => integer_or(10)],
        ),
        McpTool::ListWorkflowDefinitions | McpTool::ListApprovals => object_schema(Map::empty()),
        McpTool::GetWorkflowDefinition => one_text("meta_id"@),
        McpTool::SkipWorkflowNode => object_requiring(
            map!["instance_id"@ => typed("string"@), "node_id"@ => typed("string"@), "output"@ => typed_as("object"@, "Output to set on the skipped node"@)],
            seq![JsonView::Str("instance_id"@), JsonView::Str("node_id"@)],
        ),
        McpTool::DecideApproval => object_requiring(
            map!["approval_id"@ => typed("string"@), "decision"@ => typed_as("string"@, "Approve or Reject"@), "comment"@ => typed("string"@)],
            seq![JsonView::Str("approval_id"@), JsonView::Str("decision"@)],
        ),
        McpTool::ExecuteTask => object_requiring(
            map!["task_name"@ => typed_as("string"@, "Name of the task template to execute"@), "context"@ => typed_as("object"@, "Optional input context for the task"@)],
            seq![JsonView::Str("task_name"@)],
        ),
        _ => one_text("instance_id"@),
    }
}

fn make_typed(kind: &str) -> (r: Json)
    ensures
        r@ == typed(kind@),
{
    json_single("type", json_text(kind))
}

fn make_typed_as(kind: &str, description: &str) -> (r: Json)
    ensures
        r@ == typed_as(kind@, description@),
{
    let mut e: Vec<(String, Json)> = Vec::new();
    put_str(&mut e, "type", json_text(kind));
    put_str(&mut e, "description", json_text(description));
    Json::Object(e)
}

fn make_integer_or(default: u64) -> (r: Json)
    ensures
        r@ == integer_or(default),
{
    let mut e: Vec<(String, Json)> = Vec::new();
    put_str(&mut e, "type", json_text("integer"));
    put_str(&mut e, "default", json_number(default));
    Json::Object(e)
}

fn make_object(properties: Vec<(String, Json)>) -> (r: Json)
    ensures
        r@ == object_schema(entries_model(properties@)),
{
    let mut e: Vec<(String, Json)> = Vec::new();
    put_str(&mut e, "type", json_text("object"));
    put_str(&mut e, "properties", Json::Object(properties));
    Json::Object(e)
}

fn make_requiring(properties: Vec<(String, Json)>, required: Vec<Json>) -> (r: Json)
    ensures
        r@ == object_requiring(entries_model(properties@), items_model(required@)),
{
    let mut e: Vec<(String, Json)> = Vec::new();
    put_str(&mut e, "type", json_text("object"));
    put_str(&mut e, "properties", Json::Object(properties));
    put_str(&mut e, "required", Json::Array(required));
    Json::Object(e)
}

fn make_one_text(key: &str) -> (r: Json)
    ensures
        r@ == one_text(key@),
{
    let mut p: Vec<(String, Json)> = Vec::new();
    put_str(&mut p, key, make_typed("string"));
    let required = vec![json_text(key)];
    proof {
        lemma_items_model(required@);
        assert(items_model(required@) =~= seq![JsonView::Str(key@)]);
    }
    make_requiring(p, required)
}

/// The schema of a tool's arguments.
pub fn tool_arguments(tool: McpTool) -> (r: Json)
    ensures
        r@ == schema(tool),
{
    let mut p: Vec<(String, Json)> = Vec::new();
    match tool {
        McpTool::ListWorkflowInstances => {
            put_str(&mut p, "status", make_typed("string"));
            put_str(&mut p, "workflow_meta_id", make_typed("string"));
            put_str(&mut p, "version", make_typed("integer"));
            put_str(&mut p, "page", make_integer_or(1));
            put_str(&mut p, "page_size", make_integer_or(10));
            make_object(p)
        },
        McpTool::ListTaskInstances => {
            put_str(&mut p, "status", make_typed("string"));
            put_str(&mut p, "page", make_integer_or(1));
            put_str(&mut p, "page_size", make_integer_or(10));
            make_object(p)
        },
        McpTool::ListWorkflowDefinitions | McpTool::ListApprovals => make_object(p),
        McpTool::GetWorkflowDefinition => make_one_text("meta_id"),
        McpTool::SkipWorkflowNode => {
            put_str(&mut p, "instance_id", make_typed("string"));
            put_str(&mut p, "node_id", make_typed("string"));
            put_str(
                &mut p,
                "output",
                make_typed_as("object", "Output to set on the skipped node"),
            );
            let required = vec![json_text("instance_id"), json_text("node_id")];
            proof {
                lemma_items_model(required@);
                assert(items_model(required@) =~= seq![
                    JsonView::Str("instance_id"@),
                    JsonView::Str("node_id"@),
                ]);
            }
            make_requiring(p, required)
        },
        McpTool::DecideApproval => {
            put_str(&mut p, "approval_id", make_typed("string"));
            put_str(&mut p, "decision", make_typed_as("string", "Approve or Reject"));
            put_str(&mut p, "comment", make_typed("string"));
            let required = vec![json_text("approval_id"), json_text("decision")];
            proof {
                lemma_items_model(required@);
                assert(items_model(required@) =~= seq![
                    JsonView::Str("approval_id"@),
                    JsonView::Str("decision"@),
                ]);
            }
            make_requiring(p, required)
        },
        McpTool::ExecuteTask => {
            put_str(
                &mut p,
                "task_name",
                make_typed_as("string", "Name of the task template to execute"),
            );
            put_str(
                &mut p,
                "context",
                make_typed_as("object", "Optional input context for the task"),
            );
            let required = vec![json_text("task_name")];
            proof {
                lemma_items_model(required@);
                assert(items_model(required@) =~= seq![JsonView::Str("task_name"@)]);
            }
            make_requiring(p, required)
        },
        _ => make_one_text("instance_id"),
    }
}

/// The tools in the order in which they are listed.
pub open spec fn listing() -> Seq<McpTool> {
    seq![
        McpTool::ListWorkflowInstances,
        McpTool::GetWorkflowInstance,
        McpTool::ExecuteWorkflowInstance,
        McpTool::CancelWorkflowInstance,
        McpTool::RetryWorkflowInstance,
        McpTool::SkipWorkflowNode,
        McpTool::ListWorkflowDefinitions,
        McpTool::GetWorkflowDefinition,
        McpTool::ListTaskInstances,
        McpTool::GetTaskInstance,
        McpTool::RetryTaskInstance,
        McpTool::ListApprovals,
        McpTool::DecideApproval,
        McpTool::ExecuteTask,
    ]
}

/// Where a tool stands in the listing.
pub open spec fn listed_at(tool: McpTool) -> int {
    match tool {
        McpTool::CancelWorkflowInstance => 3,
        McpTool::DecideApproval => 12,
        McpTool::ExecuteTask => 13,
        McpTool::ExecuteWorkflowInstance => 2,
        McpTool::GetTaskInstance => 9,
        McpTool::GetWorkflowDefinition => 7,
        McpTool::GetWorkflowInstance => 1,
        McpTool::ListApprovals => 11,
        McpTool::ListTaskInstances => 8,
        McpTool::ListWorkflowDefinitions => 6,
        McpTool::ListWorkflowInstances => 0,
        McpTool::RetryTaskInstance => 10,
        McpTool::RetryWorkflowInstance => 4,
        McpTool::SkipWorkflowNode => 5,
    }
}

/// Every tool is listed, and only once.
pub proof fn law_every_tool_is_listed_once(tool: McpTool)
    ensures
        listing().len() == tools().len(),
        0 <= listed_at(tool) < listing().len(),
        forall|i: int| 0 <= i < listing().len() ==> (#[trigger] listing()[i] == tool <==> i == listed_at(tool)),
{
}

/// What is told of a tool.
#[derive(Debug)]
pub struct ToolInfo {
    pub name: &'static str,
    pub description: &'static str,
    pub schema: Json,
}

/// What is told of the tools, in the order of the listing.
pub fn list_tools() -> (r: Vec<ToolInfo>)
    ensures
        r@.len() == listing().len(),
        forall|i: int|
            0 <= i < r@.len() ==> (#[trigger] r@[i]).name@ == listing()[i].label()
                && r@[i].description@ == listing()[i].words() && r@[i].schema@ == schema(
                listing()[i],
            ),
{
    let order = vec![
        McpTool::ListWorkflowInstances,
        McpTool::GetWorkflowInstance,
        McpTool::ExecuteWorkflowInstance,
        McpTool::CancelWorkflowInstance,
        McpTool::RetryWorkflowInstance,
        McpTool::SkipWorkflowNode,
        McpTool::ListWorkflowDefinitions,
        McpTool::GetWorkflowDefinition,
        McpTool::ListTaskInstances,
        McpTool::GetTaskInstance,
        McpTool::RetryTaskInstance,
        McpTool::ListApprovals,
        McpTool::DecideApproval,
        McpTool::ExecuteTask,
    ];
    assert(order@ =~= listing());
    let mut out: Vec<ToolInfo> = Vec::new();
    let mut i: usize = 0;
    while i < order.len()
        invariant
            i <= order@.len(),
            order@ == listing(),
            out@.len() == i,
            forall|k: int|
                0 <= k < i ==> (#[trigger] out@[k]).name@ == listing()[k].label()
                    && out@[k].description@ == listing()[k].words() && out@[k].schema@ == schema(
                    listing()[k],
                ),
        decreases order@.len() - i,
    {
        let tool = order[i];
        out.push(
            ToolInfo {
                name: tool.name(),
                description: tool.description(),
                schema: tool_arguments(tool),
            },
        );
        i = i + 1;
    }
    out
}

/// The entries of a schema, which are none if it is no object.
pub fn tool_schema(props: Json) -> (r: Vec<(String, Json)>)
    ensures
        entries_model(r@) == crate::variable::entries_or_none(props@),
{
    match props {
        Json::Object(entries) => entries,
        _ => {
            let none: Vec<(String, Json)> = Vec::new();
            none
        },
    }
}

/// The decision that a word in small letters names.
pub open spec fn decision_of(lower: Seq<char>) -> Result<Decision, Seq<char>> {
    if lower == "approve"@ {
        Ok(Decision::Approve)
    } else if lower == "reject"@ {
        Ok(Decision::Reject)
    } else {
        Err("decision must be Approve or Reject"@)
    }
}

/// The mathematical value of a decision that was read.
pub open spec fn decision_result(r: Result<Decision, String>) -> Result<Decision, Seq<char>> {
    match r {
        Ok(d) => Ok(d),
        Err(e) => Err(e@),
    }
}

/// The decision that a word in small letters names.
pub fn decision_named(lower: &str) -> (r: Result<Decision, String>)
    ensures
        decision_result(r) == decision_of(lower@),
{
    if same(lower, "approve") {
        Ok(Decision::Approve)
    } else if same(lower, "reject") {
        Ok(Decision::Reject)
    } else {
        Err(owned("decision must be Approve or Reject"))
    }
}

/// The decision that a word names, in letters of any size.
pub fn parse_decision(s: &str) -> (r: Result<Decision, String>)
    ensures
        decision_result(r) == decision_of(lowercase(s@)),
{
    let lower = to_lowercase(s);
    decision_named(lower.as_str())
}

/// A token, with or without the word for bearers before it.
pub open spec fn bare_token(text: Seq<char>) -> Seq<char> {
    match stripped(text, "Bearer "@) {
        Some(t) => t,
        None => text,
    }
}

/// A token, with or without the word for bearers before it.
pub fn strip_bearer(text: &str) -> (r: &str)
    ensures
        r@ == bare_token(text@),
{
    match strip_prefix(text, "Bearer ") {
        Some(t) => t,
        None => text,
    }
}

/// The token of a call: that of its header, or else that of its metadata.
pub open spec fn call_token(header: Option<Seq<char>>, meta: Option<JsonView>) -> Result<
    Seq<char>,
    Seq<char>,
> {
    match (header, meta) {
        (Some(h), _) => Ok(bare_token(h)),
        (None, Some(JsonView::Str(m))) => Ok(bare_token(m)),
        (None, Some(_)) => Err("invalid authorization metadata"@),
        (None, None) => Err("missing authorization"@),
    }
}

/// The token of a call.
pub fn token_of_call<'a>(header: Option<&'a str>, meta: Option<&'a Json>) -> (r: Result<
    &'a str,
    String,
>)
    ensures
        match r {
            Ok(t) => Ok::<Seq<char>, Seq<char>>(t@),
            Err(e) => Err::<Seq<char>, Seq<char>>(e@),
        } == call_token(
            opt_slice(header),
            match meta {
                Some(m) => Some(m@),
                None => None,
            },
        ),
{
    if let Some(h) = header {
        return Ok(strip_bearer(h));
    }
    match meta {
        Some(m) => match m.as_str() {
            Some(t) => Ok(strip_bearer(t)),
            None => Err(owned("invalid authorization metadata")),
        },
        None => Err(owned("missing authorization")),
    }
}

/// Who makes a call, by the header and the metadata of the call, or why nobody does.
pub fn resolve_auth(
    auth_service: &AuthService,
    header: Option<&str>,
    meta: Option<&Json>,
) -> (r: Result<AuthContext, String>)
    ensures
        match call_token(
            opt_slice(header),
            match meta {
                Some(m) => Some(m@),
                None => None,
            },
        ) {
            Err(why) => r matches Err(e) && e@ == why,
            Ok(t) => match r {
                Ok(ctx) => checked_token(t, auth_service.tokens().key(), None, Ok(ctx)),
                Err(e) => exists|why: String|
                    e@ == #[trigger] ("auth failed: "@ + why@) && checked_token(
                        t,
                        auth_service.tokens().key(),
                        None,
                        Err(why),
                    ),
            },
        },
{
    let token = match token_of_call(header, meta) {
        Ok(t) => t,
        Err(e) => {
            return Err(e);
        },
    };
    match auth_service.verify_token(token) {
        Ok(ctx) => Ok(ctx),
        Err(why) => {
            let e = concat2("auth failed: ", why.as_str());
            assert(e@ == "auth failed: "@ + why@);
            Err(e)
        },
    }
}

/// Which workflow instances a call asks for.
#[derive(Debug)]
pub struct ListInstancesParams {
    pub status: Option<String>,
    pub workflow_meta_id: Option<String>,
    pub version: Option<u32>,
    pub page: u64,
    pub page_size: u64,
}

/// The instance that a call asks for.
#[derive(Debug)]
pub struct GetInstanceParams {
    pub instance_id: String,
}

/// The page that is meant where a call names none.
pub fn default_page() -> (r: u64)
    ensures
        r == 1,
{
    1
}

/// The size of a page that is meant where a call names none.
pub fn default_page_size() -> (r: u64)
    ensures
        r == 10,
{
    10
}

impl Default for ListInstancesParams {
    fn default() -> (r: Self)
        ensures
            r.status is None,
            r.workflow_meta_id is None,
            r.version is None,
            r.page == 1,
            r.page_size == 10,
    {
        ListInstancesParams {
            status: None,
            workflow_meta_id: None,
            version: None,
            page: default_page(),
            page_size: default_page_size(),
        }
    }
}

/// A text between double quotes.
pub open spec fn quoted(s: Seq<char>) -> Seq<char> {
    "\""@ + s + "\""@
}

/// The text that a value is, if it was read at all.
pub open spec fn read_text(read: Result<JsonView, Seq<char>>) -> Option<Seq<char>> {
    match read {
        Ok(JsonView::Str(t)) => Some(t),
        _ => None,
    }
}

/// The text that a JSON string between double quotes holds, if it is one.
pub fn unquoted(s: &str) -> (r: Option<String>)
    ensures
        opt_text(r) == read_text(parsed_json(quoted(s@))),
{
    let text = concat3("\"", s, "\"");
    match Json::parse(text.as_str()) {
        Ok(Json::Str(t)) => Some(t),
        _ => None,
    }
}

/// The status of workflow instances that a call names; what names none counts as not said.
pub open spec fn asked_status(text: Option<Seq<char>>) -> Option<WorkflowInstanceStatus> {
    match text {
        Some(t) => WorkflowInstanceStatus::named(t),
        None => None,
    }
}

/// The status of task instances that a call names; what names none counts as not said.
pub open spec fn asked_task_status(text: Option<Seq<char>>) -> Option<TaskInstanceStatus> {
    match text {
        Some(t) => TaskInstanceStatus::named(t),
        None => None,
    }
}

/// The text of the status that a call names.
pub open spec fn status_text(status: Option<String>) -> Option<Seq<char>> {
    match status {
        Some(s) => read_text(parsed_json(quoted(s@))),
        None => None,
    }
}

/// The newest first.
fn newest_first() -> (r: SortParams)
    ensures
        r.sort_by@ == "created_at"@,
        r.sort_order@ == "desc"@,
{
    SortParams { sort_by: owned("created_at"), sort_order: owned("desc") }
}

impl ListInstancesParams {
    /// The query for the instances that a call asks for, in a tenant: the newest first.
    pub fn into_query(self, tenant_id: &str) -> (r: WorkflowInstanceQuery)
        ensures
            r.tenant_id@ == tenant_id@,
            r.workflow_meta_id == self.workflow_meta_id,
            r.version == self.version,
            r.status == asked_status(status_text(self.status)),
            r.sort.sort_by@ == "created_at"@,
            r.sort.sort_order@ == "desc"@,
            r.pagination == (Pagination { page: self.page, page_size: self.page_size }),
    {
        let status = match &self.status {
            Some(s) => match unquoted(s.as_str()) {
                Some(t) => WorkflowInstanceStatus::from_name(t.as_str()),
                None => None,
            },
            None => None,
        };
        WorkflowInstanceQuery {
            tenant_id: owned(tenant_id),
            workflow_meta_id: self.workflow_meta_id,
            version: self.version,
            status,
            sort: newest_first(),
            pagination: Pagination { page: self.page, page_size: self.page_size },
        }
    }
}

/// Which task instances a call asks for.
#[derive(Debug)]
pub struct ListTaskInstancesParams {
    pub status: Option<String>,
    pub page: u64,
    pub page_size: u64,
}

impl ListTaskInstancesParams {
    /// The query for the task instances that a call asks for, in a tenant: the newest first.
    pub fn into_query(self, tenant_id: &str) -> (r: TaskInstanceQuery)
        ensures
            r.tenant_id@ == tenant_id@,
            r.task_id is None,
            r.status == asked_task_status(status_text(self.status)),
            r.sort.sort_by@ == "created_at"@,
            r.sort.sort_order@ == "desc"@,
            r.pagination == (Pagination { page: self.page, page_size: self.page_size }),
    {
        let status = match &self.status {
            Some(s) => match unquoted(s.as_str()) {
                Some(t) => TaskInstanceStatus::from_name(t.as_str()),
                None => None,
            },
            None => None,
        };
        TaskInstanceQuery {
            tenant_id: owned(tenant_id),
            task_id: None,
            status,
            sort: newest_first(),
            pagination: Pagination { page: self.page, page_size: self.page_size },
        }
    }
}

/// The output that a skipped node gets: an empty object where the call gives none.
pub fn skip_output(output: Json) -> (r: Json)
    ensures
        r@ == if output@ is Null {
            JsonView::Object(Map::empty())
        } else {
            output@
        },
{
    if output.is_null() {
        Json::empty_object()
    } else {
        output
    }
}

/// What the tools are called on.
pub struct McpServer {
    pub auth_service: AuthService,
    pub workflow_usecase: WorkflowUsecase,
    pub task_usecase: TaskUsecase,
    pub approval_usecase: ApprovalUsecase,
}

impl McpServer {
    pub fn new(
        auth_service: AuthService,
        workflow_usecase: WorkflowUsecase,
        task_usecase: TaskUsecase,
        approval_usecase: ApprovalUsecase,
    ) -> (r: Self)
        ensures
            r.auth_service == auth_service,
            r.workflow_usecase == workflow_usecase,
            r.task_usecase == task_usecase,
            r.approval_usecase == approval_usecase,
    {
        McpServer { auth_service, workflow_usecase, task_usecase, approval_usecase }
    }
}

/// The token of a call is that of its header where there is one, with or without the word for
/// bearers, and else that of its metadata; a call with neither, or with metadata that are no text, is
/// refused.
pub proof fn law_a_call_brings_its_token(token: Seq<char>, meta: Option<JsonView>)
    requires
        stripped(token, "Bearer "@) is None,
    ensures
        call_token(Some("Bearer "@ + token), meta) == Ok::<Seq<char>, Seq<char>>(token),
        call_token(Some(token), meta) == Ok::<Seq<char>, Seq<char>>(token),
        call_token(None, Some(JsonView::Str("Bearer "@ + token))) == Ok::<Seq<char>, Seq<char>>(
            token,
        ),
        call_token(None, Some(JsonView::Str(token))) == Ok::<Seq<char>, Seq<char>>(token),
        call_token(None, meta) is Err <==> !(meta matches Some(JsonView::Str(_))),
{
    crate::text::law_prefixes_come_off("Bearer "@, token, token);
}

/// A decision is one of two words; everything else is refused.
pub proof fn law_decisions_are_two_words(word: Seq<char>)
    ensures
        decision_of(word) == Ok::<Decision, Seq<char>>(Decision::Approve) <==> word == "approve"@,
        decision_of(word) == Ok::<Decision, Seq<char>>(Decision::Reject) <==> word == "reject"@,
{
    reveal_strlit("approve");
    reveal_strlit("reject");
    assert("approve"@.len() == 7 && "reject"@.len() == 6);
}

/// A call that names a status asks for that status, and one that names none asks for all.
pub proof fn law_a_named_status_is_asked_for(
    status: WorkflowInstanceStatus,
    task_status: TaskInstanceStatus,
)
    ensures
        asked_status(Some(status.label())) == Some(status),
        asked_status(None) is None,
        asked_task_status(Some(task_status.label())) == Some(task_status),
        asked_task_status(None) is None,
{
    crate::shared::law_instance_statuses_are_named(status, status.label());
    crate::shared::law_task_statuses_are_named(task_status, task_status.label());
}

/// What a tool works on has to be named: every tool for one instance asks for its id, that for one
/// definition for the definition's, and those that skip, decide and run for what they need; a tool
/// that lists asks for nothing.
pub proof fn law_tools_ask_for_what_they_work_on(tool: McpTool)
    ensures
        schema(tool).field("type"@) == Some(JsonView::Str("object"@)),
        (tool is CancelWorkflowInstance || tool is ExecuteWorkflowInstance || tool is GetTaskInstance
            || tool is GetWorkflowInstance || tool is RetryTaskInstance || tool
            is RetryWorkflowInstance) ==> schema(tool).field("required"@) == Some(
            JsonView::Array(seq![JsonView::Str("instance_id"@)]),
        ),
        tool is GetWorkflowDefinition ==> schema(tool).field("required"@) == Some(
            JsonView::Array(seq![JsonView::Str("meta_id"@)]),
        ),
        tool is SkipWorkflowNode ==> schema(tool).field("required"@) == Some(
            JsonView::Array(seq![JsonView::Str("instance_id"@), JsonView::Str("node_id"@)]),
        ),
        tool is DecideApproval ==> schema(tool).field("required"@) == Some(
            JsonView::Array(seq![JsonView::Str("approval_id"@), JsonView::Str("decision"@)]),
        ),
        tool is ExecuteTask ==> schema(tool).field("required"@) == Some(
            JsonView::Array(seq![JsonView::Str("task_name"@)]),
        ),
        (tool is ListApprovals || tool is ListTaskInstances || tool is ListWorkflowDefinitions
            || tool is ListWorkflowInstances) ==> schema(tool).field("required"@) is None,
{
    reveal_strlit("type");
    reveal_strlit("properties");
    reveal_strlit("required");
    assert("type"@.len() == 4 && "properties"@.len() == 10 && "required"@.len() == 8);
}

/// Whatever a tool requires is described among its properties.
pub proof fn law_what_is_required_is_described(tool: McpTool, i: int)
    ensures
        (schema(tool).field("required"@) matches Some(JsonView::Array(required)) && 0 <= i
            < required.len()) ==> {
            let required = schema(tool).field("required"@)->0->Array_0;
            &&& required[i] matches JsonView::Str(name)
            &&& schema(tool).field("properties"@) matches Some(properties)
            &&& properties.field(name) matches Some(p)
            &&& p.field("type"@) == Some(JsonView::Str("string"@))
        },
{
    reveal_strlit("type");
    reveal_strlit("properties");
    reveal_strlit("required");
    reveal_strlit("description");
    reveal_strlit("instance_id");
    reveal_strlit("node_id");
    reveal_strlit("output");
    reveal_strlit("approval_id");
    reveal_strlit("decision");
    reveal_strlit("comment");
    reveal_strlit("task_name");
    reveal_strlit("context");
    assert("type"@.len() == 4 && "properties"@.len() == 10 && "required"@.len() == 8
        && "description"@.len() == 11);
    assert("instance_id"@.len() == 11 && "node_id"@.len() == 7 && "output"@.len() == 6);
    assert("approval_id"@.len() == 11 && "decision"@.len() == 8 && "comment"@.len() == 7);
    assert("task_name"@.len() == 9 && "context"@.len() == 7);
}

/// A node that is skipped gets the output that was given, and an empty object for none.
pub proof fn law_a_skipped_node_gets_what_was_given(output: Json, r: Json)
    requires
        call_ensures(skip_output, (output,), r),
    ensures
        !(output@ is Null) ==> r@ == output@,
        output@ is Null ==> r@ is Object && forall|key: Seq<char>| r@.field(key) is None,
{
}

/// The status that a call names is what its text is, once it stands between quotes as JSON.
pub proof fn law_a_status_is_read_as_a_word(status: Option<String>, word: Seq<char>)
    ensures
        status is None ==> status_text(status) is None,
        (status matches Some(s) && parsed_json("\""@ + s@ + "\""@) == Ok::<JsonView, Seq<char>>(
            JsonView::Str(word),
        )) ==> status_text(status) == Some(word),
        (status matches Some(s) && parsed_json("\""@ + s@ + "\""@) is Err) ==> status_text(status)
            is None,
{
}

} // verus!
