//! Status transitions of a workflow instance, and what its parent hears of them.

use crate::entity::{InstanceView, WorkflowInstanceEntity};
use crate::json::{Json, JsonView};
use crate::shared::{
    workflow_jobs, CallerView, EventView, ExecuteWorkflowJob, NodeExecutionStatus,
    WorkflowCallerContext, WorkflowEvent, WorkflowInstanceStatus, WorkflowJobView,
};
use crate::text::concat2;
use crate::time::{now, Timestamp};
use vstd::prelude::*;

verus! {

/// What a parent is told of a child instance.
#[derive(Clone, Copy, Debug, PartialEq, Eq, Structural)]
pub enum ChildEventKind {
    Terminated(TerminalStatus),
    Revived,
}

/// How a child instance ended.
#[derive(Clone, Copy, Debug, PartialEq, Eq, Structural)]
pub enum TerminalStatus {
    Completed,
    Failed,
}

/// An event that is to be sent once a transition has been written.
#[derive(Debug)]
pub struct OutboundEvent {
    pub target_workflow_instance_id: String,
    pub target_tenant_id: String,
    pub event: WorkflowEvent,
}

impl View for OutboundEvent {
    type V = WorkflowJobView;

    open spec fn view(&self) -> WorkflowJobView {
        WorkflowJobView {
            workflow_instance_id: self.target_workflow_instance_id@,
            tenant_id: self.target_tenant_id@,
            event: self.event@,
        }
    }
}

/// The jobs that a list of outbound events stands for.
pub open spec fn outbound_jobs(s: Seq<OutboundEvent>) -> Seq<WorkflowJobView> {
    Seq::new(s.len(), |i: int| s[i]@)
}

/// What a successful transition did.
#[derive(Debug)]
pub struct StateTransitionResult {
    pub old_status: WorkflowInstanceStatus,
    pub new_status: WorkflowInstanceStatus,
    pub outbound_events: Vec<OutboundEvent>,
}

impl StateTransitionResult {
    /// The jobs that send the outbound events, in their order.
    pub fn into_dispatch_jobs(self) -> (r: Vec<ExecuteWorkflowJob>)
        ensures
            workflow_jobs(r@) == outbound_jobs(self.outbound_events@),
    {
        let events = self.outbound_events;
        let mut out: Vec<ExecuteWorkflowJob> = Vec::new();
        let mut i: usize = 0;
        while i < events.len()
            invariant
                i <= events@.len(),
                out@.len() == i,
                forall|k: int| 0 <= k < i ==> #[trigger] out@[k]@ == events@[k]@,
            decreases events@.len() - i,
        {
            let e = &events[i];
            out.push(
                ExecuteWorkflowJob {
                    workflow_instance_id: e.target_workflow_instance_id.clone(),
                    tenant_id: e.target_tenant_id.clone(),
                    event: e.event.clone(),
                },
            );
            i = i + 1;
        }
        assert(workflow_jobs(out@) =~= outbound_jobs(events@));
        out
    }
}

/// What a parent is told when a child moves from `old` to `new`: that it ended, when it leaves
/// `Running` for `Completed` or `Failed`; that it runs again, when it leaves `Failed` for
/// `Pending`; nothing otherwise.
pub open spec fn parent_notice(
    old: WorkflowInstanceStatus,
    new: WorkflowInstanceStatus,
) -> Option<ChildEventKind> {
    if old is Running && new is Completed {
        Some(ChildEventKind::Terminated(TerminalStatus::Completed))
    } else if old is Running && new is Failed {
        Some(ChildEventKind::Terminated(TerminalStatus::Failed))
    } else if old is Failed && new is Pending {
        Some(ChildEventKind::Revived)
    } else {
        None
    }
}

/// Whether, and how, the parent is to be told of a status transition.
pub fn should_notify_parent(old: &WorkflowInstanceStatus, new: &WorkflowInstanceStatus) -> (r:
    Option<ChildEventKind>)
    ensures
        r == parent_notice(*old, *new),
{
    match (*old, *new) {
        (WorkflowInstanceStatus::Running, WorkflowInstanceStatus::Completed) => Some(
            ChildEventKind::Terminated(TerminalStatus::Completed),
        ),
        (WorkflowInstanceStatus::Running, WorkflowInstanceStatus::Failed) => Some(
            ChildEventKind::Terminated(TerminalStatus::Failed),
        ),
        (WorkflowInstanceStatus::Failed, WorkflowInstanceStatus::Pending) => Some(
            ChildEventKind::Revived,
        ),
        _ => None,
    }
}

/// The event that tells a parent's node of a child: a callback with the child's context as its
/// output when the child ended, a revival otherwise.
pub open spec fn child_event(
    kind: ChildEventKind,
    parent: CallerView,
    child_id: Seq<char>,
    context: JsonView,
) -> EventView {
    match kind {
        ChildEventKind::Revived => EventView::ChildRevived { node_id: parent.node_id, child_id },
        ChildEventKind::Terminated(terminal) => EventView::NodeCallback {
            node_id: parent.node_id,
            child_task_id: child_id,
            status: match terminal {
                TerminalStatus::Completed => NodeExecutionStatus::Success,
                TerminalStatus::Failed => NodeExecutionStatus::Failed,
            },
            output: Some(context),
            error_message: None,
            input: None,
        },
    }
}

/// The event that tells a parent's node of a child.
pub fn build_event_from_transition(
    event_kind: &ChildEventKind,
    parent_ctx: &WorkflowCallerContext,
    child_id: &str,
    context: &Json,
) -> (r: WorkflowEvent)
    ensures
        r@ == child_event(*event_kind, parent_ctx@, child_id@, context@),
{
    match event_kind {
        ChildEventKind::Revived => WorkflowEvent::ChildRevived {
            node_id: parent_ctx.node_id.clone(),
            child_id: child_id.to_owned(),
        },
        ChildEventKind::Terminated(terminal) => {
            let status = match terminal {
                TerminalStatus::Completed => NodeExecutionStatus::Success,
                TerminalStatus::Failed => NodeExecutionStatus::Failed,
            };
            WorkflowEvent::NodeCallback {
                node_id: parent_ctx.node_id.clone(),
                child_task_id: child_id.to_owned(),
                status,
                output: Some(context.clone()),
                error_message: None,
                input: None,
            }
        },
    }
}

/// The jobs that an instance owes its parent after it has moved from `old` to `new`: at most one.
pub open spec fn parent_jobs(
    instance: InstanceView,
    old: WorkflowInstanceStatus,
    new: WorkflowInstanceStatus,
) -> Seq<WorkflowJobView> {
    match (parent_notice(old, new), instance.parent_context) {
        (Some(kind), Some(parent)) => seq![
            WorkflowJobView {
                workflow_instance_id: parent.workflow_instance_id,
                tenant_id: instance.tenant_id,
                event: child_event(
                    kind,
                    parent,
                    instance.workflow_instance_id,
                    instance.context,
                ),
            },
        ],
        _ => seq![],
    }
}

/// The message of a transition that is not allowed.
pub open spec fn invalid_transition(
    old: WorkflowInstanceStatus,
    new: WorkflowInstanceStatus,
) -> Seq<char> {
    "invalid workflow instance state transition: "@ + old.label() + " -> "@ + new.label()
}

impl WorkflowInstanceEntity {
    /// Moves the instance to a new status, at a given time. A transition that is not allowed is
    /// refused and changes nothing; one that is allowed sets the status and the time, and gives
    /// the events that the parent is owed. Writing the instance and sending the events is left to
    /// the caller.
    pub fn transition_status_at(&mut self, new_status: WorkflowInstanceStatus, at: Timestamp) -> (r:
        Result<StateTransitionResult, String>)
        ensures
            match r {
                Ok(t) => {
                    &&& old(self)@.status.may_become(new_status)
                    &&& final(self)@ == (InstanceView {
                        status: new_status,
                        updated_at: at,
                        ..old(self)@
                    })
                    &&& t.old_status == old(self)@.status
                    &&& t.new_status == new_status
                    &&& outbound_jobs(t.outbound_events@) == parent_jobs(
                        old(self)@,
                        old(self)@.status,
                        new_status,
                    )
                },
                Err(e) => {
                    &&& !old(self)@.status.may_become(new_status)
                    &&& final(self)@ == old(self)@
                    &&& e@ == invalid_transition(old(self)@.status, new_status)
                },
            },
    {
        if !self.status.can_transition_to(&new_status) {
            let mut message = concat2(
                "invalid workflow instance state transition: ",
                self.status.name(),
            );
            message.append(" -> ");
            message.append(new_status.name());
            return Err(message);
        }
        let old_status = self.status;
        self.status = new_status;
        self.updated_at = at;

        let mut outbound_events: Vec<OutboundEvent> = Vec::new();
        if let Some(event_kind) = should_notify_parent(&old_status, &new_status) {
            if let Some(parent_ctx) = &self.parent_context {
                let event = build_event_from_transition(
                    &event_kind,
                    parent_ctx,
                    self.workflow_instance_id.as_str(),
                    &self.context,
                );
                outbound_events.push(
                    OutboundEvent {
                        target_workflow_instance_id: parent_ctx.workflow_instance_id.clone(),
                        target_tenant_id: self.tenant_id.clone(),
                        event,
                    },
                );
            }
        }
        assert(outbound_jobs(outbound_events@) =~= parent_jobs(
            old(self)@,
            old(self)@.status,
            new_status,
        ));
        Ok(StateTransitionResult { old_status, new_status, outbound_events })
    }

    /// Moves the instance to a new status, at the clock's time. See
    /// [`WorkflowInstanceEntity::transition_status_at`].
    pub fn transition_status(&mut self, new_status: WorkflowInstanceStatus) -> (r: Result<
        StateTransitionResult,
        String,
    >)
        ensures
            match r {
                Ok(t) => {
                    &&& old(self)@.status.may_become(new_status)
                    &&& final(self)@ == (InstanceView {
                        status: new_status,
                        updated_at: final(self)@.updated_at,
                        ..old(self)@
                    })
                    &&& t.old_status == old(self)@.status
                    &&& t.new_status == new_status
                    &&& outbound_jobs(t.outbound_events@) == parent_jobs(
                        old(self)@,
                        old(self)@.status,
                        new_status,
                    )
                },
                Err(e) => {
                    &&& !old(self)@.status.may_become(new_status)
                    &&& final(self)@ == old(self)@
                    &&& e@ == invalid_transition(old(self)@.status, new_status)
                },
            },
    {
        self.transition_status_at(new_status, now())
    }
}

/// A parent is told of an end only when the child was running, and of a revival only when it had
/// failed; in between, and for every other move, it hears nothing.
pub proof fn law_notices_come_from_running_or_failed(
    old: WorkflowInstanceStatus,
    new: WorkflowInstanceStatus,
)
    ensures
        parent_notice(old, new) is Some <==> (old is Running && (new is Completed || new is Failed))
            || (old is Failed && new is Pending),
        parent_notice(old, new) is Some ==> old.may_become(new),
{
}

/// An instance without a parent sends nothing, whatever it does.
pub proof fn law_no_parent_no_jobs(
    instance: InstanceView,
    old: WorkflowInstanceStatus,
    new: WorkflowInstanceStatus,
)
    requires
        instance.parent_context is None,
    ensures
        parent_jobs(instance, old, new) == Seq::<WorkflowJobView>::empty(),
{
}

/// A completed or canceled instance never changes status again.
pub proof fn law_final_statuses_are_final(old: WorkflowInstanceStatus, new: WorkflowInstanceStatus)
    requires
        old is Completed || old is Canceled,
    ensures
        !old.may_become(new),
{
}

/// What a parent is told of a child that ended: the callback goes to the parent's instance and node,
/// names the child, tells a success exactly if the child completed, and brings the child's context.
/// Of a child that runs again it is told that, with its name.
pub proof fn law_a_parent_is_told_by_name(
    instance: InstanceView,
    parent: CallerView,
    old: WorkflowInstanceStatus,
    new: WorkflowInstanceStatus,
)
    requires
        instance.parent_context == Some(parent),
    ensures
        ({
            let jobs = parent_jobs(instance, old, new);
            let ended = old is Running && (new is Completed || new is Failed);
            let again = old is Failed && new is Pending;
            &&& jobs.len() == (if ended || again {
                1nat
            } else {
                0nat
            })
            &&& ended || again ==> {
                &&& jobs[0].workflow_instance_id == parent.workflow_instance_id
                &&& jobs[0].tenant_id == instance.tenant_id
            }
            &&& ended ==> {
                &&& jobs[0].event matches EventView::NodeCallback {
                    node_id,
                    child_task_id,
                    status,
                    output,
                    error_message,
                    input,
                }
                &&& node_id == parent.node_id
                &&& child_task_id == instance.workflow_instance_id
                &&& status is Success <==> new is Completed
                &&& status is Failed <==> new is Failed
                &&& output == Some(instance.context)
                &&& error_message is None
                &&& input is None
            }
            &&& again ==> {
                &&& jobs[0].event matches EventView::ChildRevived { node_id, child_id }
                &&& node_id == parent.node_id
                &&& child_id == instance.workflow_instance_id
            }
        }),
{
}

/// A move that is not allowed is told by both statuses, the old one first.
pub proof fn law_a_refused_move_is_told(old: WorkflowInstanceStatus, new: WorkflowInstanceStatus)
    ensures
        invalid_transition(old, new) == "invalid workflow instance state transition: "@
            + old.label() + " -> "@ + new.label(),
{
}

} // verus!
