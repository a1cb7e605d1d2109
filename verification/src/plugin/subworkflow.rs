//! Sub-workflow nodes: a node that runs another workflow. Looking up instances, loading the
//! definition and creating the child is done by the caller; the plugin says what is to be done
//! next and takes the answer.

use crate::entity::{
    InstanceView, NodeView, TaskView, WorkflowInstanceEntity, WorkflowNodeInstanceEntity,
};
use crate::json::{clone_opt_text, field_of, json_number, number, put_str, text_of, Json, JsonView};
use crate::plugin::container::with_output;
use crate::plugin::interface::{awaiting, just, ExecutionResult, ExecutionView};
use crate::shared::{
    make_start_job, start_job, CallerView, NodeExecutionStatus, TaskType, WorkflowCallerContext,
    WorkflowInstanceStatus,
};
use crate::template::{
    forms, FormView, SubWorkflowTemplate, SubWorkflowTemplateView, TaskTemplate, TaskTemplateView,
};
use crate::text::{concat2, opt_text, owned};
use vstd::prelude::*;

verus! {

/// How deep workflows may be nested.
pub const MAX_SUB_WORKFLOW_DEPTH: u32 = 10;

/// The plugin of sub-workflow nodes.
pub struct SubWorkflowPlugin {}

/// What a child instance is created from.
#[derive(Debug)]
pub struct ChildRequest {
    pub tenant_id: String,
    pub workflow_meta_id: String,
    pub workflow_version: u32,
    pub context: Json,
    pub parent_context: WorkflowCallerContext,
    pub depth: u32,
    pub created_by: Option<String>,
}

/// The mathematical value of a [`ChildRequest`].
pub struct ChildRequestView {
    pub tenant_id: Seq<char>,
    pub workflow_meta_id: Seq<char>,
    pub workflow_version: u32,
    pub context: JsonView,
    pub parent_context: CallerView,
    pub depth: u32,
    pub created_by: Option<Seq<char>>,
}

impl View for ChildRequest {
    type V = ChildRequestView;

    open spec fn view(&self) -> ChildRequestView {
        ChildRequestView {
            tenant_id: self.tenant_id@,
            workflow_meta_id: self.workflow_meta_id@,
            workflow_version: self.workflow_version,
            context: self.context@,
            parent_context: self.parent_context@,
            depth: self.depth,
            created_by: opt_text(self.created_by),
        }
    }
}

/// What is to be done next for a sub-workflow node.
#[derive(Debug)]
pub enum SubWorkflowStep {
    /// Look for the instance with this id, and go on with
    /// [`SubWorkflowPlugin::child_looked_up`].
    LookUpChild(String),
    /// Load this version of this definition, and go on with
    /// [`SubWorkflowPlugin::template_loaded`].
    LoadTemplate(String, u32),
    /// The node has come to this.
    Done(ExecutionResult),
}

/// The mathematical value of a [`SubWorkflowStep`].
pub enum SubWorkflowStepView {
    LookUpChild(Seq<char>),
    LoadTemplate(Seq<char>, u32),
    Done(ExecutionView),
}

impl View for SubWorkflowStep {
    type V = SubWorkflowStepView;

    open spec fn view(&self) -> SubWorkflowStepView {
        match self {
            SubWorkflowStep::LookUpChild(id) => SubWorkflowStepView::LookUpChild(id@),
            SubWorkflowStep::LoadTemplate(id, version) => SubWorkflowStepView::LoadTemplate(
                id@,
                *version,
            ),
            SubWorkflowStep::Done(r) => SubWorkflowStepView::Done(r@),
        }
    }
}

/// The id of the child that the node started before, by its output.
pub open spec fn known_child(node: NodeView) -> Option<Seq<char>> {
    text_of(field_of(node.task_instance.output, "child_workflow_instance_id"@))
}

/// The output of a node with a child.
pub open spec fn child_output(child: Seq<char>) -> JsonView {
    JsonView::Object(map!["child_workflow_instance_id"@ => JsonView::Str(child)])
}

/// The message of a nesting that is too deep.
pub open spec fn too_deep() -> Seq<char> {
    "Sub-workflow nesting depth exceeded maximum (10), possible circular reference"@
}

/// What comes first: the template of the child, unless the nesting would be too deep.
pub open spec fn first_step(template: SubWorkflowTemplateView, depth: u32) -> Result<
    SubWorkflowStepView,
    Seq<char>,
> {
    if depth >= MAX_SUB_WORKFLOW_DEPTH {
        Err(too_deep())
    } else {
        Ok(
            SubWorkflowStepView::LoadTemplate(
                template.workflow_meta_id,
                template.workflow_version,
            ),
        )
    }
}

/// What running a sub-workflow node begins with: a child that was started before is looked up;
/// without one a new child is prepared.
pub open spec fn begun(node: NodeView, instance: InstanceView) -> Result<
    SubWorkflowStepView,
    Seq<char>,
> {
    match node.task_instance.task_template {
        TaskTemplateView::SubWorkflow(template) => match known_child(node) {
            Some(id) => Ok(SubWorkflowStepView::LookUpChild(id)),
            None => first_step(template, instance.depth),
        },
        _ => Err("Invalid task template for SubWorkflowPlugin"@),
    }
}

/// What a child that was started before means for its node: its end is the node's end; while it
/// has not ended the node awaits it; where it is gone a new child is prepared.
pub open spec fn after_lookup(
    node: NodeView,
    instance: InstanceView,
    found: Option<WorkflowInstanceStatus>,
) -> Result<(NodeView, SubWorkflowStepView), Seq<char>> {
    match node.task_instance.task_template {
        TaskTemplateView::SubWorkflow(template) => match (known_child(node), found) {
            (Some(id), Some(status)) => match status {
                WorkflowInstanceStatus::Completed => Ok(
                    (
                        with_output(node, child_output(id)),
                        SubWorkflowStepView::Done(just(NodeExecutionStatus::Success)),
                    ),
                ),
                WorkflowInstanceStatus::Failed => Ok(
                    (node, SubWorkflowStepView::Done(just(NodeExecutionStatus::Failed))),
                ),
                _ => Ok((node, SubWorkflowStepView::Done(awaiting(seq![], seq![])))),
            },
            _ => match first_step(template, instance.depth) {
                Ok(step) => Ok((node, step)),
                Err(e) => Err(e),
            },
        },
        _ => Err("Invalid task template for SubWorkflowPlugin"@),
    }
}

/// A context with the fields of a form set in it, in order; one that is no object stays as it is.
pub open spec fn with_form(context: JsonView, form: Seq<FormView>) -> JsonView
    decreases form.len(),
{
    if form.len() == 0 {
        context
    } else {
        with_form(context, form.drop_last()).with(form.last().key, form.last().value)
    }
}

/// What the child of a node is created from.
pub open spec fn child_request(
    template: SubWorkflowTemplateView,
    node: NodeView,
    instance: InstanceView,
) -> ChildRequestView {
    ChildRequestView {
        tenant_id: instance.tenant_id,
        workflow_meta_id: template.workflow_meta_id,
        workflow_version: template.workflow_version,
        context: with_form(instance.context, template.form),
        parent_context: CallerView {
            workflow_instance_id: instance.workflow_instance_id,
            node_id: node.node_id,
            parent_task_instance_id: None,
            item_index: None,
        },
        depth: (instance.depth + 1) as u32,
        created_by: instance.created_by,
    }
}

/// A node whose child has just been created, and the start job of the child.
pub open spec fn after_creation(
    template: SubWorkflowTemplateView,
    node: NodeView,
    instance: InstanceView,
    child: Seq<char>,
) -> (NodeView, ExecutionView) {
    (
        NodeView {
            task_instance: TaskView {
                input: Some(
                    JsonView::Object(
                        map!["workflow_meta_id"@ => JsonView::Str(template.workflow_meta_id), "workflow_version"@ => number(template.workflow_version as u64), "child_context"@ => with_form(instance.context, template.form)],
                    ),
                ),
                output: Some(child_output(child)),
                ..node.task_instance
            },
            ..node
        },
        awaiting(seq![], seq![start_job(child, instance.tenant_id)]),
    )
}

/// A child is one level deeper than its parent, and no child is deeper than the maximum.
pub proof fn law_nesting_is_bounded(
    template: SubWorkflowTemplateView,
    node: NodeView,
    instance: InstanceView,
)
    requires
        first_step(template, instance.depth) is Ok,
    ensures
        child_request(template, node, instance).depth == instance.depth + 1,
        child_request(template, node, instance).depth <= MAX_SUB_WORKFLOW_DEPTH,
{
}

/// A node that has started a child starts no other as long as that child is found.
pub proof fn law_a_found_child_is_not_replaced(
    template: SubWorkflowTemplateView,
    node: NodeView,
    instance: InstanceView,
    child: Seq<char>,
    found: WorkflowInstanceStatus,
)
    requires
        node.task_instance.task_template == TaskTemplateView::SubWorkflow(template),
    ensures
        ({
            let started = after_creation(template, node, instance, child).0;
            &&& begun(started, instance) == Ok::<SubWorkflowStepView, Seq<char>>(
                SubWorkflowStepView::LookUpChild(child),
            )
            &&& after_lookup(started, instance, Some(found)) matches Ok((_, step)) && step is Done
        }),
{
    let started = after_creation(template, node, instance, child).0;
    assert(known_child(started) == Some(child));
}

impl SubWorkflowPlugin {
    pub fn new() -> (r: Self) {
        SubWorkflowPlugin {  }
    }

    /// The kind of node that this plugin runs.
    pub fn plugin_type(&self) -> (r: TaskType)
        ensures
            r is SubWorkflow,
    {
        TaskType::SubWorkflow
    }

    fn prepare(template: &SubWorkflowTemplate, depth: u32) -> (r: Result<SubWorkflowStep, String>)
        ensures
            match r {
                Ok(step) => first_step(template@, depth) == Ok::<SubWorkflowStepView, Seq<char>>(
                    step@,
                ),
                Err(e) => first_step(template@, depth) == Err::<SubWorkflowStepView, Seq<char>>(e@),
            },
    {
        if depth >= MAX_SUB_WORKFLOW_DEPTH {
            Err(
                owned(
                    "Sub-workflow nesting depth exceeded maximum (10), possible circular reference",
                ),
            )
        } else {
            Ok(
                SubWorkflowStep::LoadTemplate(
                    template.workflow_meta_id.clone(),
                    template.workflow_version,
                ),
            )
        }
    }

    /// Begins to run a sub-workflow node.
    pub fn execute(
        &self,
        node_instance: &WorkflowNodeInstanceEntity,
        workflow_instance: &WorkflowInstanceEntity,
    ) -> (r: Result<SubWorkflowStep, String>)
        ensures
            match r {
                Ok(step) => begun(node_instance@, workflow_instance@) == Ok::<
                    SubWorkflowStepView,
                    Seq<char>,
                >(step@),
                Err(e) => begun(node_instance@, workflow_instance@) == Err::<
                    SubWorkflowStepView,
                    Seq<char>,
                >(e@),
            },
    {
        let template = match &node_instance.task_instance.task_template {
            TaskTemplate::SubWorkflow(t) => t,
            _ => {
                return Err(owned("Invalid task template for SubWorkflowPlugin"));
            },
        };
        if let Some(output) = &node_instance.task_instance.output {
            if let Some(id) = output.get_str("child_workflow_instance_id") {
                return Ok(SubWorkflowStep::LookUpChild(owned(id)));
            }
        }
        SubWorkflowPlugin::prepare(template, workflow_instance.depth)
    }

    /// Takes the status of the child that was looked up, or that there is none.
    pub fn child_looked_up(
        &self,
        node_instance: &mut WorkflowNodeInstanceEntity,
        workflow_instance: &WorkflowInstanceEntity,
        found: Option<WorkflowInstanceStatus>,
    ) -> (r: Result<SubWorkflowStep, String>)
        ensures
            match r {
                Ok(step) => after_lookup(old(node_instance)@, workflow_instance@, found) == Ok::<
                    (NodeView, SubWorkflowStepView),
                    Seq<char>,
                >((final(node_instance)@, step@)),
                Err(e) => after_lookup(old(node_instance)@, workflow_instance@, found) == Err::<
                    (NodeView, SubWorkflowStepView),
                    Seq<char>,
                >(e@) && final(node_instance)@ == old(node_instance)@,
            },
    {
        let template = match &node_instance.task_instance.task_template {
            TaskTemplate::SubWorkflow(t) => t,
            _ => {
                return Err(owned("Invalid task template for SubWorkflowPlugin"));
            },
        };
        let known = match &node_instance.task_instance.output {
            Some(output) => match output.get_str("child_workflow_instance_id") {
                Some(id) => Some(owned(id)),
                None => None,
            },
            None => None,
        };
        match (known, found) {
            (Some(id), Some(status)) => match status {
                WorkflowInstanceStatus::Completed => {
                    let mut e: Vec<(String, Json)> = Vec::new();
                    put_str(&mut e, "child_workflow_instance_id", Json::Str(id));
                    node_instance.task_instance.output = Some(Json::Object(e));
                    Ok(SubWorkflowStep::Done(ExecutionResult::success(None)))
                },
                WorkflowInstanceStatus::Failed => Ok(
                    SubWorkflowStep::Done(ExecutionResult::failed()),
                ),
                _ => {
                    let r = ExecutionResult::await_jobs(Vec::new(), Vec::new());
                    assert(r@ =~= awaiting(seq![], seq![]));
                    Ok(SubWorkflowStep::Done(r))
                },
            },
            _ => SubWorkflowPlugin::prepare(template, workflow_instance.depth),
        }
    }

    fn context_for(template: &SubWorkflowTemplate, context: &Json) -> (r: Json)
        ensures
            r@ == with_form(context@, forms(template.form@)),
    {
        let mut child_context = context.clone();
        let mut i: usize = 0;
        while i < template.form.len()
            invariant
                i <= template.form@.len(),
                child_context@ == with_form(context@, forms(template.form@).take(i as int)),
            decreases template.form@.len() - i,
        {
            let field = &template.form[i];
            child_context.set(field.key.as_str(), field.value.clone());
            i = i + 1;
            proof {
                let all = forms(template.form@);
                assert(all.take(i as int).drop_last() =~= all.take(i - 1));
            }
        }
        assert(forms(template.form@).take(i as int) =~= forms(template.form@));
        child_context
    }

    /// Takes the answer to the loading of the definition: what the child is to be created from, or
    /// the error that the definition could not be loaded.
    pub fn template_loaded(
        &self,
        node_instance: &WorkflowNodeInstanceEntity,
        workflow_instance: &WorkflowInstanceEntity,
        loaded: Result<(), String>,
    ) -> (r: Result<ChildRequest, String>)
        ensures
            match (node_instance@.task_instance.task_template, loaded, r) {
                (TaskTemplateView::SubWorkflow(t), Ok(_), Ok(q)) => first_step(
                    t,
                    workflow_instance@.depth,
                ) is Ok && q@ == child_request(t, node_instance@, workflow_instance@),
                (TaskTemplateView::SubWorkflow(t), Ok(_), Err(e)) => first_step(
                    t,
                    workflow_instance@.depth,
                ) == Err::<SubWorkflowStepView, Seq<char>>(e@),
                (TaskTemplateView::SubWorkflow(_), Err(why), Err(e)) => e@
                    == "Failed to load sub-workflow template: "@ + why@,
                (TaskTemplateView::SubWorkflow(_), _, _) => false,
                (_, _, Err(e)) => e@ == "Invalid task template for SubWorkflowPlugin"@,
                _ => false,
            },
    {
        let template = match &node_instance.task_instance.task_template {
            TaskTemplate::SubWorkflow(t) => t,
            _ => {
                return Err(owned("Invalid task template for SubWorkflowPlugin"));
            },
        };
        match loaded {
            Err(why) => Err(concat2("Failed to load sub-workflow template: ", why.as_str())),
            Ok(_) => if workflow_instance.depth >= MAX_SUB_WORKFLOW_DEPTH {
                Err(
                    owned(
                        "Sub-workflow nesting depth exceeded maximum (10), possible circular reference",
                    ),
                )
            } else {
                Ok(
                ChildRequest {
                    tenant_id: workflow_instance.tenant_id.clone(),
                    workflow_meta_id: template.workflow_meta_id.clone(),
                    workflow_version: template.workflow_version,
                    context: SubWorkflowPlugin::context_for(template, &workflow_instance.context),
                    parent_context: WorkflowCallerContext {
                        workflow_instance_id: workflow_instance.workflow_instance_id.clone(),
                        node_id: node_instance.node_id.clone(),
                        parent_task_instance_id: None,
                        item_index: None,
                    },
                    depth: workflow_instance.depth + 1,
                    created_by: clone_opt_text(&workflow_instance.created_by),
                },
                )
            },
        }
    }

    /// Takes the answer to the creation of the child: its id, or why it could not be created. The
    /// node awaits the child, which is to be started.
    pub fn child_created(
        &self,
        node_instance: &mut WorkflowNodeInstanceEntity,
        workflow_instance: &WorkflowInstanceEntity,
        created: Result<String, String>,
    ) -> (r: Result<ExecutionResult, String>)
        ensures
            match (old(node_instance)@.task_instance.task_template, created, r) {
                (TaskTemplateView::SubWorkflow(t), Ok(child), Ok(x)) => (final(node_instance)@, x@)
                    == after_creation(t, old(node_instance)@, workflow_instance@, child@),
                (TaskTemplateView::SubWorkflow(_), Err(why), Err(e)) => e@
                    == "Failed to create sub-workflow instance: "@ + why@ && final(node_instance)@ == old(node_instance)@,
                (TaskTemplateView::SubWorkflow(_), _, _) => false,
                (_, _, Err(e)) => e@ == "Invalid task template for SubWorkflowPlugin"@ && final(node_instance)@ == old(node_instance)@,
                _ => false,
            },
    {
        let template = match &node_instance.task_instance.task_template {
            TaskTemplate::SubWorkflow(t) => t,
            _ => {
                return Err(owned("Invalid task template for SubWorkflowPlugin"));
            },
        };
        let child = match created {
            Err(why) => {
                return Err(concat2("Failed to create sub-workflow instance: ", why.as_str()));
            },
            Ok(id) => id,
        };
        let mut input: Vec<(String, Json)> = Vec::new();
        put_str(&mut input, "workflow_meta_id", Json::Str(template.workflow_meta_id.clone()));
        put_str(&mut input, "workflow_version", json_number(template.workflow_version as u64));
        put_str(
            &mut input,
            "child_context",
            SubWorkflowPlugin::context_for(template, &workflow_instance.context),
        );
        let mut output: Vec<(String, Json)> = Vec::new();
        put_str(&mut output, "child_workflow_instance_id", Json::Str(child.clone()));
        node_instance.task_instance.input = Some(Json::Object(input));
        node_instance.task_instance.output = Some(Json::Object(output));
        Ok(
            ExecutionResult::async_dispatch_workflow(
                make_start_job(child.as_str(), workflow_instance.tenant_id.as_str()),
            ),
        )
    }
}

/// Whether the field at a place is the last of a form with a key.
pub open spec fn last_with_key(form: Seq<FormView>, key: Seq<char>, i: int) -> bool {
    &&& 0 <= i < form.len()
    &&& form[i].key == key
    &&& forall|j: int| i < j < form.len() ==> #[trigger] form[j].key != key
}

/// A child's context has, for every key of the form, the value of the last field with that key, and
/// for every other key exactly what the parent's context has. A context that is no object is handed
/// on as it is.
pub proof fn law_a_form_overrides_and_keeps_the_rest(
    context: JsonView,
    form: Seq<FormView>,
    key: Seq<char>,
)
    ensures
        context is Object ==> {
            &&& with_form(context, form) is Object
            &&& (exists|i: int| 0 <= i < form.len() && #[trigger] form[i].key == key) ==> exists|
                i: int|
                #[trigger] last_with_key(form, key, i) && with_form(context, form).field(key)
                    == Some(form[i].value)
            &&& forall|i: int| #[trigger]
                last_with_key(form, key, i) ==> with_form(context, form).field(key) == Some(
                    form[i].value,
                )
            &&& (forall|i: int| 0 <= i < form.len() ==> #[trigger] form[i].key != key)
                ==> with_form(context, form).field(key) == context.field(key)
        },
        !(context is Object) ==> with_form(context, form) == context,
    decreases form.len(),
{
    if form.len() > 0 {
        let front = form.drop_last();
        law_a_form_overrides_and_keeps_the_rest(context, front, key);
        let n = form.len() - 1;
        if context is Object {
            if form[n].key == key {
                assert(last_with_key(form, key, n));
                assert forall|i: int| #[trigger] last_with_key(form, key, i) implies i == n by {
                    if i < n {
                        assert(form[n].key != key);
                    }
                }
            } else {
                assert forall|i: int| #[trigger] last_with_key(form, key, i) implies last_with_key(
                    front,
                    key,
                    i,
                ) by {
                    assert(form[i].key == key);
                    assert forall|j: int| i < j < front.len() implies #[trigger] front[j].key
                        != key by {
                        assert(form[j].key != key);
                    }
                }
                assert forall|i: int| #[trigger] last_with_key(front, key, i) implies last_with_key(
                    form,
                    key,
                    i,
                ) by {
                    assert forall|j: int| i < j < form.len() implies #[trigger] form[j].key
                        != key by {
                        if j < n {
                            assert(front[j].key != key);
                        }
                    }
                }
                if exists|i: int| 0 <= i < form.len() && #[trigger] form[i].key == key {
                    let i = choose|i: int| 0 <= i < form.len() && #[trigger] form[i].key == key;
                    assert(front[i].key == key);
                    let last = choose|i: int|
                        #[trigger] last_with_key(front, key, i) && with_form(context, front).field(
                            key,
                        ) == Some(front[i].value);
                    assert(last_with_key(form, key, last));
                }
                if forall|i: int| 0 <= i < form.len() ==> #[trigger] form[i].key != key {
                    assert forall|i: int| 0 <= i < front.len() implies #[trigger] front[i].key
                        != key by {
                        assert(form[i].key != key);
                    }
                }
            }
        }
    }
}

/// The child that is asked for runs the definition that the template names, for the parent's tenant
/// and creator, knows its parent by the node that asked, and gets a context in which the form's
/// fields stand over the parent's.
pub proof fn law_the_child_is_the_templates(
    template: SubWorkflowTemplateView,
    node: NodeView,
    instance: InstanceView,
    key: Seq<char>,
    i: int,
)
    requires
        instance.context is Object,
    ensures
        ({
            let asked = child_request(template, node, instance);
            &&& asked.workflow_meta_id == template.workflow_meta_id
            &&& asked.workflow_version == template.workflow_version
            &&& asked.tenant_id == instance.tenant_id
            &&& asked.created_by == instance.created_by
            &&& asked.parent_context.workflow_instance_id == instance.workflow_instance_id
            &&& asked.parent_context.node_id == node.node_id
            &&& asked.parent_context.item_index is None
            &&& asked.parent_context.parent_task_instance_id is None
            &&& last_with_key(template.form, key, i) ==> asked.context.field(key) == Some(
                template.form[i].value,
            )
            &&& (forall|j: int| 0 <= j < template.form.len() ==> #[trigger] template.form[j].key
                != key) ==> asked.context.field(key) == instance.context.field(key)
        }),
{
    law_a_form_overrides_and_keeps_the_rest(instance.context, template.form, key);
}

/// A node whose child was created tells what the child was created from, and the child's identifier;
/// it awaits the child, and starts it and nothing else.
pub proof fn law_a_created_child_is_started(
    template: SubWorkflowTemplateView,
    node: NodeView,
    instance: InstanceView,
    child: Seq<char>,
)
    ensures
        ({
            let asked = child_request(template, node, instance);
            let (after, outcome) = after_creation(template, node, instance, child);
            &&& after.task_instance.input matches Some(input)
            &&& input.field("workflow_meta_id"@) == Some(JsonView::Str(asked.workflow_meta_id))
            &&& input.field("workflow_version"@) == Some(number(asked.workflow_version as u64))
            &&& input.field("child_context"@) == Some(asked.context)
            &&& after.task_instance.output matches Some(output)
            &&& output.field("child_workflow_instance_id"@) == Some(JsonView::Str(child))
            &&& known_child(after) == Some(child)
            &&& after == (NodeView { task_instance: after.task_instance, ..node })
            &&& after.task_instance == (TaskView {
                input: after.task_instance.input,
                output: after.task_instance.output,
                ..node.task_instance
            })
            &&& outcome.status == NodeExecutionStatus::Await
            &&& outcome.dispatch_jobs.len() == 0
            &&& outcome.dispatch_workflow_jobs.len() == 1
            &&& outcome.dispatch_workflow_jobs[0].workflow_instance_id == child
            &&& outcome.dispatch_workflow_jobs[0].tenant_id == instance.tenant_id
            &&& outcome.dispatch_workflow_jobs[0].event is Start
            &&& outcome.jump_to_node is None
        }),
{
    reveal_strlit("workflow_meta_id");
    reveal_strlit("workflow_version");
    reveal_strlit("child_context");
    reveal_strlit("child_workflow_instance_id");
    assert("workflow_meta_id"@.len() == 16 && "workflow_version"@.len() == 16);
    assert("workflow_meta_id"@[9] == 'm' && "workflow_version"@[9] == 'v');
    assert("child_context"@.len() == 13);
}

/// A child that was found decides its node: its completion is the node's success, its failure the
/// node's failure, and while it has not ended the node waits and nothing is sent. A child that is
/// gone, or that was never started, is made anew, unless that would be too deep.
pub proof fn law_a_found_child_decides_its_node(
    node: NodeView,
    instance: InstanceView,
    child: Seq<char>,
    found: Option<WorkflowInstanceStatus>,
)
    requires
        node.task_instance.task_template is SubWorkflow,
        node.task_instance.output is Some,
        node.task_instance.output->0.field("child_workflow_instance_id"@) == Some(
            JsonView::Str(child),
        ),
    ensures
        ({
            let template = node.task_instance.task_template->SubWorkflow_0;
            let r = after_lookup(node, instance, found);
            &&& begun(node, instance) == Ok::<SubWorkflowStepView, Seq<char>>(
                SubWorkflowStepView::LookUpChild(child),
            )
            &&& found matches Some(status) ==> {
                &&& r matches Ok((after, SubWorkflowStepView::Done(outcome)))
                &&& outcome.status is Success <==> status is Completed
                &&& outcome.status is Failed <==> status is Failed
                &&& outcome.status is Await <==> !(status is Completed || status is Failed)
                &&& outcome.dispatch_jobs.len() == 0
                &&& outcome.dispatch_workflow_jobs.len() == 0
                &&& outcome.jump_to_node is None
                &&& known_child(after) == Some(child)
            }
            &&& found is None && instance.depth < 10 ==> r == Ok::<
                (NodeView, SubWorkflowStepView),
                Seq<char>,
            >(
                (
                    node,
                    SubWorkflowStepView::LoadTemplate(
                        template.workflow_meta_id,
                        template.workflow_version,
                    ),
                ),
            )
            &&& found is None && instance.depth >= 10 ==> r is Err
        }),
{
    assert(known_child(node) == Some(child));
    assert(known_child(with_output(node, child_output(child))) == Some(child));
}

/// A node that has not started a child begins with loading the definition that its template names,
/// unless its instance is as deep already as instances may be.
pub proof fn law_a_first_child_is_the_templates(node: NodeView, instance: InstanceView)
    requires
        node.task_instance.task_template is SubWorkflow,
        node.task_instance.output is None,
    ensures
        ({
            let template = node.task_instance.task_template->SubWorkflow_0;
            begun(node, instance) matches Ok(step) ==> instance.depth < 10 && step
                == SubWorkflowStepView::LoadTemplate(
                template.workflow_meta_id,
                template.workflow_version,
            )
        }),
        begun(node, instance) is Err <==> instance.depth >= 10,
{
}

/// The child that a node asks for once its template was loaded: the one that the template names, with
/// a context in which each field of the form stands over what the parent's context has, and everything
/// else is the parent's.
pub proof fn law_a_child_gets_its_form(
    plugin: &SubWorkflowPlugin,
    node: &WorkflowNodeInstanceEntity,
    instance: &WorkflowInstanceEntity,
    r: Result<ChildRequest, String>,
    key: Seq<char>,
    i: int,
)
    requires
        call_ensures(SubWorkflowPlugin::template_loaded, (plugin, node, instance, Ok(())), r),
        node.task_instance.task_template is SubWorkflow,
        instance@.context is Object,
        instance@.depth < 10,
    ensures
        ({
            let form = node.task_instance.task_template->SubWorkflow_0.form@;
            &&& r matches Ok(asked)
            &&& (0 <= i < form.len() && form[i].key@ == key && (forall|j: int|
                i < j < form.len() ==> (#[trigger] form[j]).key@ != key))
                ==> asked.context@.field(key) == Some(form[i].value@)
            &&& (forall|j: int| 0 <= j < form.len() ==> (#[trigger] form[j]).key@ != key)
                ==> asked.context@.field(key) == instance@.context.field(key)
            &&& asked.workflow_meta_id@
                == node.task_instance.task_template->SubWorkflow_0.workflow_meta_id@
            &&& asked.workflow_version
                == node.task_instance.task_template->SubWorkflow_0.workflow_version
            &&& asked.tenant_id@ == instance.tenant_id@
            &&& asked.depth == instance.depth + 1
        }),
{
    let raw = node.task_instance.task_template->SubWorkflow_0.form@;
    let template = node@.task_instance.task_template->SubWorkflow_0;
    let form = template.form;
    assert(form == forms(raw));
    assert(forall|j: int| 0 <= j < raw.len() ==> (#[trigger] form[j]).key == raw[j].key@);
    law_a_form_overrides_and_keeps_the_rest(instance@.context, form, key);
    if 0 <= i < raw.len() && raw[i].key@ == key && (forall|j: int|
        i < j < raw.len() ==> (#[trigger] raw[j]).key@ != key) {
        assert(form[i].key == key);
        assert forall|j: int| i < j < form.len() implies #[trigger] form[j].key != key by {
            assert(raw[j].key@ != key);
        }
        assert(last_with_key(form, key, i));
    }
    if forall|j: int| 0 <= j < raw.len() ==> (#[trigger] raw[j]).key@ != key {
        assert forall|j: int| 0 <= j < form.len() implies #[trigger] form[j].key != key by {
            assert(raw[j].key@ != key);
        }
    }
}

/// A workflow that would be nested too deep is refused with that reason, and a node without the right
/// template with that one.
pub proof fn law_a_refused_child_is_told_why(
    template: SubWorkflowTemplateView,
    node: NodeView,
    instance: InstanceView,
)
    ensures
        instance.depth >= 10 ==> first_step(template, instance.depth) == Err::<
            SubWorkflowStepView,
            Seq<char>,
        >("Sub-workflow nesting depth exceeded maximum (10), possible circular reference"@),
        instance.depth < 10 ==> first_step(template, instance.depth) is Ok,
        !(node.task_instance.task_template is SubWorkflow) ==> begun(node, instance) == Err::<
            SubWorkflowStepView,
            Seq<char>,
        >("Invalid task template for SubWorkflowPlugin"@),
{
}

} // verus!
