//! Condition nodes: a node that sends the run one way or the other.

use crate::entity::{NodeView, TaskView, WorkflowNodeInstanceEntity};
use crate::json::{
    clone_opt_text, json_opt_text, put_str, text_or_null, Json, JsonView,
};
use crate::plugin::interface::{just, outcome, ExecutionResult, ExecutionView};
use crate::plugin::rhai_engine::{
    condition_gives, eval_condition, flat_bindings, truth_view, ScriptView, MAX_OPERATIONS,
};
use crate::shared::{NodeExecutionStatus, TaskType};
use crate::template::{IfConditionTemplateView, TaskTemplate, TaskTemplateView};
use crate::text::{concat2, owned};
use vstd::prelude::*;

verus! {

/// The plugin of condition nodes.
pub struct IfConditionPlugin {}

/// The node that a condition's value leads to.
pub open spec fn branch(template: IfConditionTemplateView, holds: bool) -> Option<Seq<char>> {
    if holds {
        template.then_task
    } else {
        template.else_task
    }
}

/// What a condition node comes to once its condition has a value: it succeeds, the run goes on at
/// the node of the branch, and input and output say what was asked and answered.
pub open spec fn branched(
    template: IfConditionTemplateView,
    node: NodeView,
    holds: bool,
) -> (NodeView, ExecutionView) {
    (
        NodeView {
            task_instance: TaskView {
                input: Some(
                    JsonView::Object(
                        map!["condition"@ => JsonView::Str(template.condition), "name"@ => JsonView::Str(template.name)],
                    ),
                ),
                output: Some(
                    JsonView::Object(
                        map!["if_condition_result"@ => JsonView::Bool(holds), "next_node"@ => text_or_null(branch(template, holds)), "then_task"@ => text_or_null(template.then_task), "else_task"@ => text_or_null(template.else_task), "condition"@ => JsonView::Str(template.condition)],
                    ),
                ),
                ..node.task_instance
            },
            ..node
        },
        ExecutionView {
            jump_to_node: branch(template, holds),
            ..just(NodeExecutionStatus::Success)
        },
    )
}

/// What a condition node comes to by what its condition came to: the branch of its value, or the
/// error that it has none, which changes nothing.
pub open spec fn condition_taken(
    template: IfConditionTemplateView,
    before: NodeView,
    value: Result<bool, Seq<char>>,
) -> (NodeView, Result<ExecutionView, Seq<char>>) {
    match value {
        Ok(holds) => {
            let (node, x) = branched(template, before, holds);
            (node, Ok(x))
        },
        Err(why) => (before, Err("Failed to evaluate IfCondition: "@ + why)),
    }
}

/// Whether running a condition node can come to that, where the condition sees those variables:
/// some value that the condition can have leads to it. A node without a condition template is an
/// error.
pub open spec fn condition_ran(
    before: NodeView,
    scope: Seq<(Seq<char>, ScriptView)>,
    after: NodeView,
    r: Result<ExecutionView, Seq<char>>,
) -> bool {
    match before.task_instance.task_template {
        TaskTemplateView::IfCondition(t) => exists|value: Result<bool, Seq<char>>| #[trigger]
            condition_gives(MAX_OPERATIONS, scope, t.condition, value) && (after, r)
                == condition_taken(t, before, value),
        _ => after == before && r == Err::<ExecutionView, Seq<char>>(
            "Invalid task template for IfConditionPlugin"@,
        ),
    }
}

impl IfConditionPlugin {
    pub fn new() -> (r: Self) {
        IfConditionPlugin {  }
    }

    /// The kind of node that this plugin runs.
    pub fn plugin_type(&self) -> (r: TaskType)
        ensures
            r is IfCondition,
    {
        TaskType::IfCondition
    }

    /// Takes the value of the condition, or why it has none.
    pub fn condition_evaluated(
        &self,
        node_instance: &mut WorkflowNodeInstanceEntity,
        value: Result<bool, String>,
    ) -> (r: Result<ExecutionResult, String>)
        ensures
            match old(node_instance)@.task_instance.task_template {
                TaskTemplateView::IfCondition(t) => (final(node_instance)@, outcome(r))
                    == condition_taken(t, old(node_instance)@, truth_view(value)),
                _ => final(node_instance)@ == old(node_instance)@ && outcome(r) == Err::<
                    ExecutionView,
                    Seq<char>,
                >("Invalid task template for IfConditionPlugin"@),
            },
    {
        let template = match &node_instance.task_instance.task_template {
            TaskTemplate::IfCondition(t) => t.clone(),
            _ => {
                return Err(owned("Invalid task template for IfConditionPlugin"));
            },
        };
        let holds = match value {
            Ok(b) => b,
            Err(why) => {
                return Err(concat2("Failed to evaluate IfCondition: ", why.as_str()));
            },
        };
        let next_node = if holds {
            clone_opt_text(&template.then_task)
        } else {
            clone_opt_text(&template.else_task)
        };
        let mut output: Vec<(String, Json)> = Vec::new();
        put_str(&mut output, "if_condition_result", Json::Bool(holds));
        put_str(&mut output, "next_node", json_opt_text(&next_node));
        put_str(&mut output, "then_task", json_opt_text(&template.then_task));
        put_str(&mut output, "else_task", json_opt_text(&template.else_task));
        put_str(&mut output, "condition", Json::Str(template.condition.clone()));
        let mut input: Vec<(String, Json)> = Vec::new();
        put_str(&mut input, "condition", Json::Str(template.condition.clone()));
        put_str(&mut input, "name", Json::Str(template.name.clone()));
        node_instance.task_instance.input = Some(Json::Object(input));
        node_instance.task_instance.output = Some(Json::Object(output));
        Ok(ExecutionResult::success(next_node))
    }

    /// Runs a condition node: evaluates its condition, with the entries of the node's context as
    /// variables, and takes the branch that the value leads to.
    pub fn execute(&self, node_instance: &mut WorkflowNodeInstanceEntity) -> (r: Result<
        ExecutionResult,
        String,
    >)
        ensures
            condition_ran(
                old(node_instance)@,
                flat_bindings(old(node_instance).context),
                final(node_instance)@,
                outcome(r),
            ),
    {
        let value = match &node_instance.task_instance.task_template {
            TaskTemplate::IfCondition(t) => eval_condition(
                &node_instance.context,
                t.condition.as_str(),
            ),
            _ => {
                return Err(owned("Invalid task template for IfConditionPlugin"));
            },
        };
        self.condition_evaluated(node_instance, value)
    }
}

/// The value of a condition picks the branch: where it holds the run goes to the node of the one
/// branch, else to that of the other, and the node's output says what was asked, what was answered
/// and where the run goes.
pub proof fn law_the_value_picks_the_branch(
    template: IfConditionTemplateView,
    node: NodeView,
    holds: bool,
)
    ensures
        ({
            let (after, outcome) = branched(template, node, holds);
            &&& outcome.status is Success
            &&& holds ==> outcome.jump_to_node == template.then_task
            &&& !holds ==> outcome.jump_to_node == template.else_task
            &&& outcome.dispatch_jobs.len() == 0
            &&& outcome.dispatch_workflow_jobs.len() == 0
            &&& after.task_instance.output matches Some(output)
            &&& output.field("if_condition_result"@) == Some(JsonView::Bool(holds))
            &&& output.field("next_node"@) == Some(text_or_null(outcome.jump_to_node))
            &&& output.field("then_task"@) == Some(text_or_null(template.then_task))
            &&& output.field("else_task"@) == Some(text_or_null(template.else_task))
            &&& output.field("condition"@) == Some(JsonView::Str(template.condition))
            &&& after.task_instance.input matches Some(input)
            &&& input.field("condition"@) == Some(JsonView::Str(template.condition))
            &&& input.field("name"@) == Some(JsonView::Str(template.name))
            &&& after == (NodeView { task_instance: after.task_instance, ..node })
            &&& after.task_instance == (TaskView {
                input: after.task_instance.input,
                output: after.task_instance.output,
                ..node.task_instance
            })
        }),
        match template.then_task {
            Some(target) => text_or_null(template.then_task) == JsonView::Str(target),
            None => text_or_null(template.then_task) == JsonView::Null,
        },
{
    reveal_strlit("if_condition_result");
    reveal_strlit("next_node");
    reveal_strlit("then_task");
    reveal_strlit("else_task");
    reveal_strlit("condition");
    reveal_strlit("name");
    assert("if_condition_result"@.len() == 19 && "name"@.len() == 4);
    assert("next_node"@[0] == 'n' && "then_task"@[0] == 't' && "else_task"@[0] == 'e'
        && "condition"@[0] == 'c' && "name"@[0] == 'n' && "next_node"@.len() == 9);
}

/// A condition without a value changes nothing and is an error.
pub proof fn law_a_condition_without_a_value_changes_nothing(
    template: IfConditionTemplateView,
    before: NodeView,
    value: Result<bool, Seq<char>>,
)
    ensures
        value is Err <==> condition_taken(template, before, value).1 is Err,
        value is Err ==> condition_taken(template, before, value).0 == before,
        value matches Ok(holds) ==> {
            let target = if holds {
                template.then_task
            } else {
                template.else_task
            };
            condition_taken(template, before, value).1 matches Ok(x) && x.jump_to_node == target
        },
{
}

/// A condition node that was run goes where a value that its condition can have leads: to the one
/// branch only if the condition can hold, to the other only if it can fail to. An error changes
/// nothing.
pub proof fn law_a_run_goes_where_its_condition_leads(
    before: NodeView,
    scope: Seq<(Seq<char>, ScriptView)>,
    after: NodeView,
    r: Result<ExecutionView, Seq<char>>,
)
    requires
        condition_ran(before, scope, after, r),
        before.task_instance.task_template is IfCondition,
    ensures
        ({
            let template = before.task_instance.task_template->IfCondition_0;
            &&& r matches Ok(x) ==> {
                ||| x.jump_to_node == template.then_task && condition_gives(
                    MAX_OPERATIONS,
                    scope,
                    template.condition,
                    Ok(true),
                )
                ||| x.jump_to_node == template.else_task && condition_gives(
                    MAX_OPERATIONS,
                    scope,
                    template.condition,
                    Ok(false),
                )
            }
            &&& r matches Ok(x) ==> x.status is Success
            &&& r is Err ==> after == before
        }),
{
}

} // verus!
