//! Rewrite nodes: a node whose script gives the run a new context, or adds to it.

use crate::entity::{
    InstanceView, NodeView, TaskView, WorkflowInstanceEntity, WorkflowNodeInstanceEntity,
};
use crate::json::{
    entries_model, items_model, json_text, law_later_keys_come_last, lemma_items_model, list_keys,
    merge_entries, object_keys, put_str, Json, JsonView,
};
use crate::plugin::interface::{just, outcome, ExecutionResult, ExecutionView};
use crate::plugin::rhai_engine::{
    refused_script, compile_script, create_engine, ctx_binding, eval_script, map_or_error,
    rhai_map_to_json, script_gives, value_view, ScriptValue, ScriptView, MAX_OPERATIONS,
};
use crate::shared::{NodeExecutionStatus, TaskType};
use crate::template::{
    ContextRewriteTemplateView, MergeMode, TaskTemplate, TaskTemplateView,
};
use crate::text::{concat2, owned, texts};
use vstd::prelude::*;

verus! {

/// The plugin of rewrite nodes.
pub struct ContextRewritePlugin {}

/// A context after a rewrite: merging sets the script's entries in it, or takes their place if it
/// is no object; replacing takes its place.
pub open spec fn rewritten(
    mode: MergeMode,
    context: JsonView,
    result: Map<Seq<char>, JsonView>,
) -> Map<Seq<char>, JsonView> {
    match (mode, context) {
        (MergeMode::Merge, JsonView::Object(m)) => m.union_prefer_right(result),
        _ => result,
    }
}

/// The node of a rewrite, once the context has the given keys.
pub open spec fn rewrite_node(
    template: ContextRewriteTemplateView,
    node: NodeView,
    keys: Seq<Seq<char>>,
) -> NodeView {
    NodeView {
        task_instance: TaskView {
            input: Some(
                JsonView::Object(
                    map!["name"@ => JsonView::Str(template.name), "script"@ => JsonView::Str(template.script), "merge_mode"@ => JsonView::Str(template.merge_mode.label())],
                ),
            ),
            output: Some(
                JsonView::Object(
                    map!["rewritten_keys"@ => JsonView::Array(Seq::new(keys.len(), |i: int| JsonView::Str(keys[i])))],
                ),
            ),
            ..node.task_instance
        },
        ..node
    }
}

/// Whether a node and an instance are what a rewrite leaves: the instance has the rewritten
/// context and nothing else changed; the node lists the keys of that context.
pub open spec fn is_rewrite(
    template: ContextRewriteTemplateView,
    node: NodeView,
    instance: InstanceView,
    result: Map<Seq<char>, JsonView>,
    keys: Seq<Seq<char>>,
    new_node: NodeView,
    new_instance: InstanceView,
) -> bool {
    let context = rewritten(template.merge_mode, instance.context, result);
    &&& new_instance == (InstanceView { context: JsonView::Object(context), ..instance })
    &&& new_node == rewrite_node(template, node, keys)
}

/// Merging keeps every entry that the script does not name; replacing keeps none of them. Every
/// entry of the script is in the new context either way.
pub proof fn law_merge_keeps_other_keys(
    context: Map<Seq<char>, JsonView>,
    result: Map<Seq<char>, JsonView>,
    key: Seq<char>,
)
    ensures
        result.contains_key(key) ==> rewritten(
            MergeMode::Merge,
            JsonView::Object(context),
            result,
        ).contains_key(key) && rewritten(MergeMode::Merge, JsonView::Object(context), result)[key]
            == result[key],
        !result.contains_key(key) && context.contains_key(key) ==> rewritten(
            MergeMode::Merge,
            JsonView::Object(context),
            result,
        ).contains_key(key) && rewritten(MergeMode::Merge, JsonView::Object(context), result)[key]
            == context[key],
        rewritten(MergeMode::Replace, JsonView::Object(context), result) == result,
{
}

/// What a rewrite node comes to by what its script came to: a rewrite by the map that it gave, or
/// an error, which changes nothing. The keys are those of the context that the instance is left
/// with.
pub open spec fn rewrite_taken(
    template: ContextRewriteTemplateView,
    node: NodeView,
    instance: InstanceView,
    value: Result<ScriptView, Seq<char>>,
    keys: Seq<Seq<char>>,
    new_node: NodeView,
    new_instance: InstanceView,
    r: Result<ExecutionView, Seq<char>>,
) -> bool {
    match value {
        Err(why) => new_node == node && new_instance == instance && r == Err::<
            ExecutionView,
            Seq<char>,
        >("ContextRewrite script error: "@ + why),
        Ok(v) => match map_or_error(v) {
            Err(e) => new_node == node && new_instance == instance && r == Err::<
                ExecutionView,
                Seq<char>,
            >(e),
            Ok(result) => is_rewrite(
                template,
                node,
                instance,
                result,
                keys,
                new_node,
                new_instance,
            ) && r == Ok::<ExecutionView, Seq<char>>(just(NodeExecutionStatus::Success)),
        },
    }
}

/// Whether running a rewrite node can come to that, where its script sees those variables: the
/// script does not compile, which changes nothing, or something that it can give leads to it. A
/// node without a rewrite template is an error.
pub open spec fn rewrite_ran(
    node: NodeView,
    instance: InstanceView,
    scope: Seq<(Seq<char>, ScriptView)>,
    keys: Seq<Seq<char>>,
    new_node: NodeView,
    new_instance: InstanceView,
    r: Result<ExecutionView, Seq<char>>,
) -> bool {
    match node.task_instance.task_template {
        TaskTemplateView::ContextRewrite(t) => {
            ||| new_node == node && new_instance == instance && (r matches Err(e) && refused_script(
                t.script,
                e,
            ))
            ||| exists|value: Result<ScriptView, Seq<char>>| #[trigger]
                script_gives(MAX_OPERATIONS, scope, t.script, value) && rewrite_taken(
                    t,
                    node,
                    instance,
                    value,
                    keys,
                    new_node,
                    new_instance,
                    r,
                )
        },
        _ => new_node == node && new_instance == instance && r == Err::<ExecutionView, Seq<char>>(
            "Invalid task template for ContextRewritePlugin"@,
        ),
    }
}

impl ContextRewritePlugin {
    pub fn new() -> (r: Self) {
        ContextRewritePlugin {  }
    }

    /// The kind of node that this plugin runs.
    pub fn plugin_type(&self) -> (r: TaskType)
        ensures
            r is ContextRewrite,
    {
        TaskType::ContextRewrite
    }

    /// Takes what the script came to, or why it came to nothing: rewrites the context of the
    /// instance, and writes the node's input and output.
    pub fn script_evaluated(
        &self,
        node_instance: &mut WorkflowNodeInstanceEntity,
        workflow_instance: &mut WorkflowInstanceEntity,
        value: Result<ScriptValue, String>,
    ) -> (r: Result<ExecutionResult, String>)
        ensures
            match old(node_instance)@.task_instance.task_template {
                TaskTemplateView::ContextRewrite(t) => rewrite_taken(
                    t,
                    old(node_instance)@,
                    old(workflow_instance)@,
                    value_view(value),
                    object_keys(final(workflow_instance).context),
                    final(node_instance)@,
                    final(workflow_instance)@,
                    outcome(r),
                ),
                _ => outcome(r) == Err::<ExecutionView, Seq<char>>(
                    "Invalid task template for ContextRewritePlugin"@,
                ),
            },
            match (old(node_instance)@.task_instance.task_template, r) {
                (TaskTemplateView::ContextRewrite(t), Ok(_)) => t.merge_mode is Merge
                    ==> object_keys(old(workflow_instance).context).is_prefix_of(
                    object_keys(final(workflow_instance).context),
                ),
                _ => final(node_instance)@ == old(node_instance)@ && final(workflow_instance)@
                    == old(workflow_instance)@,
            },
    {
        let template = match &node_instance.task_instance.task_template {
            TaskTemplate::ContextRewrite(t) => t.clone(),
            _ => {
                return Err(owned("Invalid task template for ContextRewritePlugin"));
            },
        };
        let value = match value {
            Ok(v) => v,
            Err(why) => {
                return Err(concat2("ContextRewrite script error: ", why.as_str()));
            },
        };
        let result = match rhai_map_to_json(&value) {
            Ok(m) => m,
            Err(e) => {
                return Err(e);
            },
        };
        let ghost result_map = entries_model(result@);
        let ghost before = workflow_instance.context@;
        let context = match template.merge_mode {
            MergeMode::Merge => match &workflow_instance.context {
                Json::Object(entries) => {
                    proof {
                        law_later_keys_come_last(entries@, result@);
                    }
                    merge_entries(entries, &result)
                },
                _ => result,
            },
            MergeMode::Replace => result,
        };
        assert(entries_model(context@) == rewritten(template.merge_mode, before, result_map));
        let keys = list_keys(&context);
        let mut listed: Vec<Json> = Vec::new();
        let mut i: usize = 0;
        while i < keys.len()
            invariant
                i <= keys@.len(),
                listed@.len() == i,
                forall|k: int|
                    0 <= k < i ==> #[trigger] listed@[k]@ == JsonView::Str(keys@[k]@),
            decreases keys@.len() - i,
        {
            listed.push(Json::Str(keys[i].clone()));
            i = i + 1;
        }
        proof {
            lemma_items_model(listed@);
            let names = texts(keys@);
            let want = Seq::new(names.len(), |i: int| JsonView::Str(names[i]));
            assert forall|k: int| 0 <= k < names.len() implies items_model(listed@)[k]
                == want[k] by {
                assert(listed@[k]@ == JsonView::Str(keys@[k]@));
            }
            assert(items_model(listed@) =~= want);
        }
        workflow_instance.context = Json::Object(context);
        let mut input: Vec<(String, Json)> = Vec::new();
        put_str(&mut input, "name", Json::Str(template.name.clone()));
        put_str(&mut input, "script", Json::Str(template.script.clone()));
        put_str(&mut input, "merge_mode", json_text(template.merge_mode.name()));
        let mut output: Vec<(String, Json)> = Vec::new();
        put_str(&mut output, "rewritten_keys", Json::Array(listed));
        node_instance.task_instance.input = Some(Json::Object(input));
        node_instance.task_instance.output = Some(Json::Object(output));
        assert(node_instance@ == rewrite_node(template@, old(node_instance)@, texts(keys@)));
        Ok(ExecutionResult::success(None))
    }

    /// Runs a rewrite node: compiles its script, runs it with the node's context as `ctx`, and
    /// takes what it came to. A script that does not compile, fails, or gives no map changes
    /// nothing.
    pub fn execute(
        &self,
        node_instance: &mut WorkflowNodeInstanceEntity,
        workflow_instance: &mut WorkflowInstanceEntity,
    ) -> (r: Result<ExecutionResult, String>)
        ensures
            rewrite_ran(
                old(node_instance)@,
                old(workflow_instance)@,
                ctx_binding(old(node_instance).context),
                object_keys(final(workflow_instance).context),
                final(node_instance)@,
                final(workflow_instance)@,
                outcome(r),
            ),
    {
        let value = match &node_instance.task_instance.task_template {
            TaskTemplate::ContextRewrite(t) => {
                let engine = create_engine();
                match compile_script(&engine, t.script.as_str()) {
                    Err(e) => {
                        return Err(e);
                    },
                    Ok(ast) => eval_script(&engine, &ast, &node_instance.context),
                }
            },
            _ => {
                return Err(owned("Invalid task template for ContextRewritePlugin"));
            },
        };
        self.script_evaluated(node_instance, workflow_instance, value)
    }
}

/// After a rewrite the instance has exactly the entries that it should: with merging those of the
/// script and, where the script names none, those it had; with replacing those of the script alone.
/// Nothing else of the instance changes.
pub proof fn law_a_rewrite_sets_the_scripts_entries(
    template: ContextRewriteTemplateView,
    node: NodeView,
    instance: InstanceView,
    result: Map<Seq<char>, JsonView>,
    keys: Seq<Seq<char>>,
    new_node: NodeView,
    new_instance: InstanceView,
    key: Seq<char>,
)
    requires
        is_rewrite(template, node, instance, result, keys, new_node, new_instance),
    ensures
        result.contains_key(key) ==> new_instance.context.field(key) == Some(result[key]),
        !result.contains_key(key) && template.merge_mode is Merge ==> new_instance.context.field(
            key,
        ) == instance.context.field(key),
        !result.contains_key(key) && template.merge_mode is Replace
            ==> new_instance.context.field(key) is None,
        new_instance == (InstanceView { context: new_instance.context, ..instance }),
{
}

/// The node of a rewrite tells the script that it ran and how its entries were taken, and lists the
/// keys that the context has then.
pub proof fn law_a_rewrite_tells_its_script(
    template: ContextRewriteTemplateView,
    node: NodeView,
    keys: Seq<Seq<char>>,
    i: int,
)
    requires
        0 <= i < keys.len(),
    ensures
        ({
            let after = rewrite_node(template, node, keys);
            &&& after.task_instance.input matches Some(input)
            &&& input.field("name"@) == Some(JsonView::Str(template.name))
            &&& input.field("script"@) == Some(JsonView::Str(template.script))
            &&& input.field("merge_mode"@) == Some(JsonView::Str(template.merge_mode.label()))
            &&& after.task_instance.output matches Some(output)
            &&& output.field("rewritten_keys"@) matches Some(JsonView::Array(listed))
            &&& listed.len() == keys.len()
            &&& listed[i] == JsonView::Str(keys[i])
            &&& after == (NodeView { task_instance: after.task_instance, ..node })
            &&& after.task_instance == (TaskView {
                input: after.task_instance.input,
                output: after.task_instance.output,
                ..node.task_instance
            })
        }),
{
    reveal_strlit("name");
    reveal_strlit("script");
    reveal_strlit("merge_mode");
    assert("name"@.len() == 4 && "script"@.len() == 6 && "merge_mode"@.len() == 10);
}

/// A script that fails, or that gives no map, changes neither the node nor the instance; one that
/// gives a map succeeds.
pub proof fn law_only_a_map_rewrites(
    template: ContextRewriteTemplateView,
    node: NodeView,
    instance: InstanceView,
    value: Result<ScriptView, Seq<char>>,
    keys: Seq<Seq<char>>,
    new_node: NodeView,
    new_instance: InstanceView,
    r: Result<ExecutionView, Seq<char>>,
)
    requires
        rewrite_taken(template, node, instance, value, keys, new_node, new_instance, r),
    ensures
        r is Err ==> new_node == node && new_instance == instance,
        r is Ok <==> (value matches Ok(v) && map_or_error(v) is Ok),
        r matches Ok(x) ==> x.status is Success && x.dispatch_jobs.len() == 0
            && x.dispatch_workflow_jobs.len() == 0 && x.jump_to_node is None,
{
}

/// A rewrite node that was run took a map that its script can give, or changed nothing.
pub proof fn law_a_rewrite_takes_what_its_script_gives(
    node: NodeView,
    instance: InstanceView,
    scope: Seq<(Seq<char>, ScriptView)>,
    keys: Seq<Seq<char>>,
    new_node: NodeView,
    new_instance: InstanceView,
    r: Result<ExecutionView, Seq<char>>,
)
    requires
        rewrite_ran(node, instance, scope, keys, new_node, new_instance, r),
    ensures
        r is Err ==> new_node == node && new_instance == instance,
        r is Ok ==> node.task_instance.task_template is ContextRewrite && exists|v: ScriptView|
            {
                &&& #[trigger] script_gives(
                    MAX_OPERATIONS,
                    scope,
                    node.task_instance.task_template->ContextRewrite_0.script,
                    Ok(v),
                )
                &&& map_or_error(v) is Ok
                &&& new_instance.context == JsonView::Object(
                    rewritten(
                        node.task_instance.task_template->ContextRewrite_0.merge_mode,
                        instance.context,
                        map_or_error(v)->Ok_0,
                    ),
                )
            },
        new_instance == (InstanceView { context: new_instance.context, ..instance }),
{
    if r is Ok {
        let script = node.task_instance.task_template->ContextRewrite_0.script;
        let value = choose|value: Result<ScriptView, Seq<char>>| #[trigger]
            script_gives(MAX_OPERATIONS, scope, script, value) && rewrite_taken(
                node.task_instance.task_template->ContextRewrite_0,
                node,
                instance,
                value,
                keys,
                new_node,
                new_instance,
                r,
            );
        assert(value is Ok);
        let v = value->Ok_0;
        assert(script_gives(MAX_OPERATIONS, scope, script, Ok(v)));
    }
}

} // verus!
