//! Approval nodes: a node that waits until people have decided. Filing the approval is done by the
//! caller; the plugin says what is to be filed and takes the answer.

use crate::approval::{ApprovalInstanceEntity, ApprovalView};
use crate::entity::{
    InstanceView, NodeView, TaskView, WorkflowInstanceEntity, WorkflowNodeInstanceEntity,
};
use crate::json::{
    clone_opt_text, items_model, json_opt_text, json_text, lemma_items_model, opt_json, put_str,
    text_or_null, Json, JsonView,
};
use crate::plugin::container::{with_input, with_output};
use crate::plugin::interface::{callback_outcome, just, node_with_callback, ExecutionResult};
use crate::shared::{ApprovalStatus, NodeExecutionStatus, TaskType};
use crate::template::{ApprovalTemplate, ApprovalTemplateView, TaskTemplate, TaskTemplateView};
use crate::text::{concat2, opt_text, owned};
use vstd::prelude::*;

verus! {

/// The plugin of approval nodes.
pub struct ApprovalPlugin {}

/// An approval that is to be filed.
#[derive(Debug)]
pub struct ApprovalRequest {
    pub tenant_id: String,
    pub workflow_instance_id: String,
    pub node_id: String,
    pub template: ApprovalTemplate,
    pub context: Json,
    pub applicant_id: Option<String>,
}

/// The mathematical value of an [`ApprovalRequest`].
pub struct ApprovalRequestView {
    pub tenant_id: Seq<char>,
    pub workflow_instance_id: Seq<char>,
    pub node_id: Seq<char>,
    pub template: ApprovalTemplateView,
    pub context: JsonView,
    pub applicant_id: Option<Seq<char>>,
}

impl View for ApprovalRequest {
    type V = ApprovalRequestView;

    open spec fn view(&self) -> ApprovalRequestView {
        ApprovalRequestView {
            tenant_id: self.tenant_id@,
            workflow_instance_id: self.workflow_instance_id@,
            node_id: self.node_id@,
            template: self.template@,
            context: self.context@,
            applicant_id: opt_text(self.applicant_id),
        }
    }
}

/// What an approval node writes as its input.
pub open spec fn approval_input(template: ApprovalTemplateView) -> JsonView {
    JsonView::Object(
        map!["title"@ => JsonView::Str(template.title), "name"@ => JsonView::Str(template.name), "description"@ => text_or_null(template.description)],
    )
}

/// What an approval node writes as its output once the approval has been filed.
pub open spec fn approval_output(approval: ApprovalView) -> JsonView {
    JsonView::Object(
        map!["approval_id"@ => JsonView::Str(approval.id), "approvers"@ => JsonView::Array(Seq::new(approval.approvers.len(), |i: int| JsonView::Str(approval.approvers[i]))), "approval_mode"@ => JsonView::Str(approval.approval_mode.label())],
    )
}

/// The approval that a node asks for.
pub open spec fn requested(
    template: ApprovalTemplateView,
    node: NodeView,
    instance: InstanceView,
) -> ApprovalRequestView {
    ApprovalRequestView {
        tenant_id: instance.tenant_id,
        workflow_instance_id: instance.workflow_instance_id,
        node_id: node.node_id,
        template,
        context: node.context,
        applicant_id: instance.created_by,
    }
}

/// What beginning to run an approval node comes to: the approval that is to be filed, with the
/// node's input written; or an error, which changes nothing, if the node holds no approval
/// template.
pub open spec fn approval_begun(
    before: NodeView,
    instance: InstanceView,
    after: NodeView,
    r: Result<ApprovalRequestView, Seq<char>>,
) -> bool {
    match (before.task_instance.task_template, r) {
        (TaskTemplateView::Approval(t), Ok(q)) => q == requested(t, before, instance) && after
            == with_input(before, Some(approval_input(t))),
        (TaskTemplateView::Approval(_), Err(_)) => false,
        (_, Ok(_)) => false,
        (_, Err(e)) => e == "Invalid task template for ApprovalPlugin"@ && after == before,
    }
}

impl ApprovalPlugin {
    pub fn new() -> (r: Self) {
        ApprovalPlugin {  }
    }

    /// The kind of node that this plugin runs.
    pub fn plugin_type(&self) -> (r: TaskType)
        ensures
            r is Approval,
    {
        TaskType::Approval
    }

    /// Begins to run an approval node: writes its input, and says which approval is to be filed.
    /// The answer goes to [`ApprovalPlugin::approval_created`].
    pub fn execute(
        &self,
        node_instance: &mut WorkflowNodeInstanceEntity,
        workflow_instance: &WorkflowInstanceEntity,
    ) -> (r: Result<ApprovalRequest, String>)
        ensures
            approval_begun(
                old(node_instance)@,
                workflow_instance@,
                final(node_instance)@,
                match r {
                    Ok(q) => Ok(q@),
                    Err(e) => Err(e@),
                },
            ),
    {
        let template = match &node_instance.task_instance.task_template {
            TaskTemplate::Approval(t) => t.clone(),
            _ => {
                return Err(owned("Invalid task template for ApprovalPlugin"));
            },
        };
        let mut e: Vec<(String, Json)> = Vec::new();
        put_str(&mut e, "title", Json::Str(template.title.clone()));
        put_str(&mut e, "name", Json::Str(template.name.clone()));
        put_str(&mut e, "description", json_opt_text(&template.description));
        node_instance.task_instance.input = Some(Json::Object(e));
        Ok(
            ApprovalRequest {
                tenant_id: workflow_instance.tenant_id.clone(),
                workflow_instance_id: workflow_instance.workflow_instance_id.clone(),
                node_id: node_instance.node_id.clone(),
                template,
                context: node_instance.context.clone(),
                applicant_id: clone_opt_text(&workflow_instance.created_by),
            },
        )
    }

    /// Takes the approval that was filed, or why it could not be: the node is suspended until a
    /// decision comes.
    pub fn approval_created(
        &self,
        node_instance: &mut WorkflowNodeInstanceEntity,
        created: Result<ApprovalInstanceEntity, String>,
    ) -> (r: Result<ExecutionResult, String>)
        ensures
            match (created, r) {
                (Ok(approval), Ok(x)) => x@ == just(NodeExecutionStatus::Suspended) && final(
                    node_instance)@ == with_output(
                    old(node_instance)@,
                    approval_output(approval@),
                ),
                (Err(why), Err(e)) => e@ == "Failed to create approval instance: "@ + why@ && final(
                    node_instance)@ == old(node_instance)@,
                _ => false,
            },
    {
        let approval = match created {
            Err(why) => {
                return Err(concat2("Failed to create approval instance: ", why.as_str()));
            },
            Ok(a) => a,
        };
        let mut approvers: Vec<Json> = Vec::new();
        let mut i: usize = 0;
        while i < approval.approvers.len()
            invariant
                i <= approval.approvers@.len(),
                approvers@.len() == i,
                forall|k: int|
                    0 <= k < i ==> #[trigger] approvers@[k]@ == JsonView::Str(
                        approval.approvers@[k]@,
                    ),
            decreases approval.approvers@.len() - i,
        {
            approvers.push(Json::Str(approval.approvers[i].clone()));
            i = i + 1;
        }
        proof {
            lemma_items_model(approvers@);
            let view = approval@.approvers;
            let want = Seq::new(view.len(), |i: int| JsonView::Str(view[i]));
            assert forall|k: int| 0 <= k < view.len() implies items_model(approvers@)[k]
                == want[k] by {
                assert(approvers@[k]@ == JsonView::Str(approval.approvers@[k]@));
            }
            assert(items_model(approvers@) =~= want);
        }
        let mut e: Vec<(String, Json)> = Vec::new();
        put_str(&mut e, "approval_id", Json::Str(approval.id.clone()));
        put_str(&mut e, "approvers", Json::Array(approvers));
        put_str(&mut e, "approval_mode", json_text(approval.approval_mode.name()));
        node_instance.task_instance.output = Some(Json::Object(e));
        Ok(ExecutionResult::suspended())
    }

    /// Takes the decision: the node takes over its output and error, and ends as it says.
    pub fn handle_callback(
        &self,
        node_instance: &mut WorkflowNodeInstanceEntity,
        status: &NodeExecutionStatus,
        output: &Option<Json>,
        error_message: &Option<String>,
        input: &Option<Json>,
    ) -> (r: ExecutionResult)
        ensures
            r@ == callback_outcome(*status),
            final(node_instance)@ == node_with_callback(
                old(node_instance)@,
                opt_json(*output),
                opt_text(*error_message),
                opt_json(*input),
            ),
    {
        crate::plugin::interface::handle_callback(node_instance, status, output, error_message, input)
    }
}

/// What the status of an approval means for its node.
pub open spec fn node_status_of(status: ApprovalStatus) -> NodeExecutionStatus {
    match status {
        ApprovalStatus::Approved => NodeExecutionStatus::Success,
        ApprovalStatus::Rejected => NodeExecutionStatus::Failed,
        ApprovalStatus::Pending => NodeExecutionStatus::Suspended,
    }
}

/// What the status of an approval means for its node.
pub fn approval_status_to_node_status(status: &ApprovalStatus) -> (r: NodeExecutionStatus)
    ensures
        r == node_status_of(*status),
{
    match status {
        ApprovalStatus::Approved => NodeExecutionStatus::Success,
        ApprovalStatus::Rejected => NodeExecutionStatus::Failed,
        ApprovalStatus::Pending => NodeExecutionStatus::Suspended,
    }
}

/// The approval that a node asks for is the node's own: it is filed for the node's tenant, instance
/// and node by the node's template and context, and whoever created the instance applies for it.
pub proof fn law_an_approval_is_asked_for_by_its_node(
    before: NodeView,
    instance: InstanceView,
    after: NodeView,
    r: Result<ApprovalRequestView, Seq<char>>,
)
    requires
        approval_begun(before, instance, after, r),
    ensures
        r is Ok <==> before.task_instance.task_template is Approval,
        r is Err ==> after == before,
        r matches Ok(q) ==> {
            let template = before.task_instance.task_template->Approval_0;
            &&& q.tenant_id == instance.tenant_id
            &&& q.workflow_instance_id == instance.workflow_instance_id
            &&& q.node_id == before.node_id
            &&& q.template == template
            &&& q.context == before.context
            &&& q.applicant_id == instance.created_by
            &&& after.task_instance.input matches Some(input)
            &&& input.field("title"@) == Some(JsonView::Str(template.title))
            &&& input.field("name"@) == Some(JsonView::Str(template.name))
            &&& match template.description {
                Some(text) => input.field("description"@) == Some(JsonView::Str(text)),
                None => input.field("description"@) == Some(JsonView::Null),
            }
            &&& after == (NodeView {
                task_instance: TaskView {
                    input: after.task_instance.input,
                    ..before.task_instance
                },
                ..before
            })
        },
{
    reveal_strlit("title");
    reveal_strlit("name");
    reveal_strlit("description");
    assert("title"@.len() == 5 && "name"@.len() == 4 && "description"@.len() == 11);
}

/// A node whose approval was filed tells the approval, everybody who may decide it, in their order,
/// and how they decide.
pub proof fn law_a_filed_approval_is_told(approval: ApprovalView, i: int)
    requires
        0 <= i < approval.approvers.len(),
    ensures
        ({
            let output = approval_output(approval);
            &&& output.field("approval_id"@) == Some(JsonView::Str(approval.id))
            &&& output.field("approvers"@) matches Some(JsonView::Array(listed))
            &&& listed.len() == approval.approvers.len()
            &&& listed[i] == JsonView::Str(approval.approvers[i])
            &&& output.field("approval_mode"@) == Some(
                JsonView::Str(approval.approval_mode.label()),
            )
        }),
{
    reveal_strlit("approval_id");
    reveal_strlit("approvers");
    reveal_strlit("approval_mode");
    assert("approval_id"@.len() == 11 && "approvers"@.len() == 9 && "approval_mode"@.len() == 13);
}

/// An approval decides its node: granted it succeeds, refused it fails, and open it stays suspended.
pub proof fn law_an_approval_decides_its_node(status: ApprovalStatus)
    ensures
        node_status_of(status) is Success <==> status is Approved,
        node_status_of(status) is Failed <==> status is Rejected,
        node_status_of(status) is Suspended <==> status is Pending,
{
}

} // verus!
