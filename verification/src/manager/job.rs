//! A job of the workflow queue: one event for one instance, taken while the instance is locked.

use crate::entity::{node_place, InstanceView, WorkflowInstanceEntity};
use crate::json::JsonView;
use crate::manager::executor::PluginManager;
use crate::manager::rollback::{record_of, recorded_failed, rolled_back};
use crate::manager::workflow::{
    callback_path, is_container, is_sent_back, retried, revived, CallbackPayload,
    CallbackReadiness, PayloadView, ReviveStep, ReviveView,
};
use crate::shared::{
    start_job, EventView, ExecuteWorkflowJob, WorkflowEvent, WorkflowInstanceStatus,
};
use crate::store::{holder_filter, release_lock, setting_and_counting, unlocked, ChangePlan};
use crate::time::{now, Timestamp};
use vstd::prelude::*;

verus! {

/// What is to be done for a job, while its instance is locked.
#[derive(Debug)]
pub enum JobStep {
    /// Nothing.
    Ignore,
    /// Read the instance anew; if it is still pending, move it to running and enter the loop.
    Run,
    /// Move the instance through these statuses, add to the payload what storage knows of the
    /// child, and hand it to the node.
    Callback {
        path: Vec<WorkflowInstanceStatus>,
        node_id: String,
        child_task_id: String,
        payload: CallbackPayload,
    },
    /// See to a revived child.
    Revive(ReviveStep),
    /// See to a child that is tried again; then, if it has ended already, send its callback.
    Retry { step: ReviveStep, node_id: String, child_task_id: String },
}

/// The mathematical value of a [`JobStep`].
pub enum JobStepView {
    Ignore,
    Run,
    Callback {
        path: Seq<WorkflowInstanceStatus>,
        node_id: Seq<char>,
        child_task_id: Seq<char>,
        payload: PayloadView,
    },
    Revive(ReviveView),
    Retry { step: ReviveView, node_id: Seq<char>, child_task_id: Seq<char> },
}

impl View for JobStep {
    type V = JobStepView;

    open spec fn view(&self) -> JobStepView {
        match self {
            JobStep::Ignore => JobStepView::Ignore,
            JobStep::Run => JobStepView::Run,
            JobStep::Callback { path, node_id, child_task_id, payload } => JobStepView::Callback {
                path: path@,
                node_id: node_id@,
                child_task_id: child_task_id@,
                payload: payload@,
            },
            JobStep::Revive(step) => JobStepView::Revive(step@),
            JobStep::Retry { step, node_id, child_task_id } => JobStepView::Retry {
                step: step@,
                node_id: node_id@,
                child_task_id: child_task_id@,
            },
        }
    }
}

/// What an event does to an instance, and what is to be done for it: a start runs a pending
/// instance; a callback is taken by the current node of an instance that is not at an end; revivals
/// and retries take a child back. Everything else is ignored.
pub open spec fn job_step(event: EventView, instance: InstanceView, at: Timestamp) -> Result<
    (InstanceView, JobStepView),
    Seq<char>,
> {
    match event {
        EventView::Start => Ok(
            (
                instance,
                if instance.status is Pending {
                    JobStepView::Run
                } else {
                    JobStepView::Ignore
                },
            ),
        ),
        EventView::NodeCallback { node_id, child_task_id, status, output, error_message, input } =>
            match callback_path(instance.current_node, instance.status, node_id) {
            None => Ok((instance, JobStepView::Ignore)),
            Some(path) => Ok(
                (
                    instance,
                    JobStepView::Callback {
                        path,
                        node_id,
                        child_task_id,
                        payload: PayloadView { status, output, error_message, input },
                    },
                ),
            ),
        },
        EventView::ChildRevived { node_id, child_id } => match revived(
            instance,
            node_id,
            child_id,
            at,
        ) {
            Ok((after, step)) => Ok((after, JobStepView::Revive(step))),
            Err(e) => Err(e),
        },
        EventView::RetryContainerChild { node_id, child_task_id } => match retried(
            instance,
            node_id,
            child_task_id,
            at,
        ) {
            Ok((after, step)) => Ok((after, JobStepView::Retry { step, node_id, child_task_id })),
            Err(e) => Err(e),
        },
    }
}

/// An instance that is completed or canceled takes no event: no start, callback or revival
/// changes it, and a retry of a child is not written.
pub proof fn law_ended_instances_take_no_event(
    event: EventView,
    instance: InstanceView,
    at: Timestamp,
)
    requires
        instance.status is Completed || instance.status is Canceled,
    ensures
        job_step(event, instance, at) matches Ok((after, step)) ==> match step {
            JobStepView::Ignore => after == instance,
            JobStepView::Revive(s) => after == instance && s is Leave,
            JobStepView::Retry { step: s, .. } => s is Leave && after.status == instance.status,
            _ => false,
        },
{
}

/// Starting twice runs once: an instance that has begun to run ignores a second start.
pub proof fn law_only_pending_instances_are_started(instance: InstanceView, at: Timestamp)
    ensures
        job_step(EventView::Start, instance, at) == Ok::<(InstanceView, JobStepView), Seq<char>>(
            (
                instance,
                if instance.status is Pending {
                    JobStepView::Run
                } else {
                    JobStepView::Ignore
                },
            ),
        ),
{
}

/// A job whose event has been handled, well or not, while its instance is still locked. How it
/// ended is out of reach until [`PluginManager::job_done`] is told that the lock was given back, or
/// that this failed.
#[derive(Debug)]
pub struct HandledJob {
    handled: Result<(), String>,
}

impl HandledJob {
    /// What handling the event came to.
    pub closed spec fn handled(self) -> Result<(), String> {
        self.handled
    }
}

impl PluginManager {
    /// Takes the answer to a job's request for the lock of its instance: the instance if the lock
    /// was got, else the error that the job ends with, and nothing is done for it.
    pub fn lock_answered(
        workflow_instance_id: &str,
        locked: Result<WorkflowInstanceEntity, String>,
    ) -> (r: Result<WorkflowInstanceEntity, String>)
        ensures
            match (locked, r) {
                (Ok(i), Ok(x)) => x@ == i@,
                (Err(why), Err(e)) => e@ == "failed to acquire lock for instance "@
                    + workflow_instance_id@ + ": "@ + why@,
                _ => false,
            },
    {
        match locked {
            Ok(i) => Ok(i),
            Err(why) => Err(PluginManager::lock_error(workflow_instance_id, why.as_str())),
        }
    }

    /// Takes what handling a job's event came to, at a given time, and says how the lock that the
    /// worker has on the instance is given back, whatever it came to.
    pub fn job_handled(
        workflow_instance_id: &str,
        worker_id: &str,
        handled: Result<(), String>,
        at: Timestamp,
    ) -> (r: (ChangePlan, HandledJob))
        requires
            at.has_date(),
        ensures
            r.0@.filter == holder_filter(workflow_instance_id@, worker_id@),
            r.0@.update == setting_and_counting(unlocked(at)),
            r.1.handled() == handled,
    {
        (release_lock(workflow_instance_id, worker_id, at), HandledJob { handled })
    }

    /// What a job comes to once giving its lock back was tried: what handling its event came to. A
    /// lock that could not be given back changes nothing of that; it runs out.
    pub fn job_done(job: HandledJob, released: Result<(), String>) -> (r: Result<(), String>)
        ensures
            r == job.handled(),
    {
        job.handled
    }

    /// Takes a job whose instance has been locked, at a given time.
    pub fn process_workflow_job_at(
        job: ExecuteWorkflowJob,
        instance: &mut WorkflowInstanceEntity,
        at: Timestamp,
    ) -> (r: Result<JobStep, String>)
        ensures
            match r {
                Ok(step) => job_step(job@.event, old(instance)@, at) == Ok::<
                    (InstanceView, JobStepView),
                    Seq<char>,
                >((final(instance)@, step@)),
                Err(e) => job_step(job@.event, old(instance)@, at) == Err::<
                    (InstanceView, JobStepView),
                    Seq<char>,
                >(e@) && final(instance)@ == old(instance)@,
            },
    {
        match job.event {
            WorkflowEvent::Start => if PluginManager::on_workflow_start(instance) {
                Ok(JobStep::Run)
            } else {
                Ok(JobStep::Ignore)
            },
            WorkflowEvent::NodeCallback {
                node_id,
                child_task_id,
                status,
                output,
                error_message,
                input,
            } => match PluginManager::prepare_instance_for_node_callback(
                instance,
                node_id.as_str(),
            ) {
                CallbackReadiness::Ignored => Ok(JobStep::Ignore),
                CallbackReadiness::Ready(path) => Ok(
                    JobStep::Callback {
                        path,
                        node_id,
                        child_task_id,
                        payload: CallbackPayload { status, output, error_message, input },
                    },
                ),
            },
            WorkflowEvent::ChildRevived { node_id, child_id } =>
                match PluginManager::on_child_revived_at(
                instance,
                node_id.as_str(),
                child_id.as_str(),
                at,
            ) {
                Ok(step) => Ok(JobStep::Revive(step)),
                Err(e) => Err(e),
            },
            WorkflowEvent::RetryContainerChild { node_id, child_task_id } =>
                match PluginManager::on_retry_container_child_at(
                instance,
                node_id.as_str(),
                child_task_id.as_str(),
                at,
            ) {
                Ok(step) => Ok(JobStep::Retry { step, node_id, child_task_id }),
                Err(e) => Err(e),
            },
        }
    }

    /// Takes a job whose instance has been locked, at the clock's time. See
    /// [`PluginManager::process_workflow_job_at`].
    pub fn process_workflow_job(job: ExecuteWorkflowJob, instance: &mut WorkflowInstanceEntity) -> (r:
        Result<JobStep, String>)
        ensures
            exists|at: Timestamp|
                #![trigger job_step(job@.event, old(instance)@, at)]
                match r {
                    Ok(step) => job_step(job@.event, old(instance)@, at) == Ok::<
                        (InstanceView, JobStepView),
                        Seq<char>,
                    >((final(instance)@, step@)),
                    Err(e) => job_step(job@.event, old(instance)@, at) == Err::<
                        (InstanceView, JobStepView),
                        Seq<char>,
                    >(e@) && final(instance)@ == old(instance)@,
                },
    {
        PluginManager::process_workflow_job_at(job, instance, now())
    }
}

/// A callback that is taken is handed on as it came: to the node that it names, for the child that
/// it names, with its end and with what it brought. The instance is not changed by that.
pub proof fn law_a_callback_is_handed_on_as_it_came(
    instance: InstanceView,
    child: Seq<char>,
    brought: PayloadView,
    at: Timestamp,
)
    requires
        !(instance.status is Completed || instance.status is Failed || instance.status
            is Canceled),
    ensures
        ({
            let event = EventView::NodeCallback {
                node_id: instance.current_node,
                child_task_id: child,
                status: brought.status,
                output: brought.output,
                error_message: brought.error_message,
                input: brought.input,
            };
            &&& job_step(event, instance, at) matches Ok((after, step))
            &&& after == instance
            &&& step matches JobStepView::Callback { path, node_id, child_task_id, payload }
            &&& node_id == instance.current_node
            &&& child_task_id == child
            &&& payload == brought
            &&& path.len() == 0 <==> instance.status is Running
            &&& path.len() > 0 ==> path.last() is Running
        }),
{
}

/// A revival or a retry of a failed parent's child sends that node back: the node is pending without
/// an error, so is the instance, which is started again, and a container has forgotten the child.
pub proof fn law_revivals_send_the_named_node_back(
    instance: InstanceView,
    node: Seq<char>,
    child: Seq<char>,
    at: Timestamp,
    i: int,
)
    requires
        instance.status is Failed,
        node_place(instance.nodes, node) == Some(i),
        0 <= i < instance.nodes.len(),
    ensures
        ({
            let revival = EventView::ChildRevived { node_id: node, child_id: child };
            &&& job_step(revival, instance, at) matches Ok(
                (after, JobStepView::Revive(ReviveView::Restart(_, own))),
            )
            &&& is_sent_back(instance, after, i, at)
            &&& own == start_job(instance.workflow_instance_id, instance.tenant_id)
        }),
        ({
            let retry = EventView::RetryContainerChild { node_id: node, child_task_id: child };
            &&& job_step(retry, instance, at) matches Ok(
                (
                    after,
                    JobStepView::Retry { step: ReviveView::Restart(_, own), node_id, child_task_id },
                ),
            )
            &&& is_sent_back(instance, after, i, at)
            &&& own == start_job(instance.workflow_instance_id, instance.tenant_id)
            &&& node_id == node
            &&& child_task_id == child
        }),
{
}

/// A revival of a waiting parent's child, and a retry for a parent that has not ended, make a
/// container forget the child and change nothing else; the parent is written but not started.
pub proof fn law_a_waiting_parent_forgets_the_child(
    instance: InstanceView,
    node: Seq<char>,
    child: Seq<char>,
    at: Timestamp,
    i: int,
)
    requires
        instance.status is Await,
        node_place(instance.nodes, node) == Some(i),
        0 <= i < instance.nodes.len(),
        is_container(instance.nodes[i]),
        instance.nodes[i].task_instance.output is Some,
    ensures
        ({
            let revival = EventView::ChildRevived { node_id: node, child_id: child };
            let retry = EventView::RetryContainerChild { node_id: node, child_task_id: child };
            let before = instance.nodes[i].task_instance.output->0;
            &&& job_step(revival, instance, at) matches Ok(
                (after, JobStepView::Revive(ReviveView::Save)),
            )
            &&& job_step(retry, instance, at) matches Ok(
                (again, JobStepView::Retry { step: ReviveView::Save, .. }),
            )
            &&& again == after
            &&& after == (InstanceView { nodes: after.nodes, ..instance })
            &&& after.nodes.len() == instance.nodes.len()
            &&& forall|j: int|
                0 <= j < instance.nodes.len() && j != i ==> after.nodes[j] == instance.nodes[j]
            &&& after.nodes[i].status == instance.nodes[i].status
            &&& after.nodes[i].task_instance.output matches Some(state)
            &&& !recorded_failed(state, child)
            &&& record_of(before, child) is Some ==> record_of(state, child) == Some(JsonView::Null)
            &&& forall|other: Seq<char>|
                other != child ==> #[trigger] record_of(state, other) == record_of(before, other)
        }),
{
    let before = instance.nodes[i].task_instance.output->0;
    crate::manager::rollback::law_rollback_clears_the_child(before, child);
    assert forall|other: Seq<char>| other != child implies #[trigger] record_of(
        rolled_back(before, child),
        other,
    ) == record_of(before, other) by {
        crate::manager::rollback::law_rollback_leaves_other_children(before, child, other);
    }
}

/// A start runs an instance exactly where the job of a start does, and that is where the instance in
/// storage may be run and none that runs already.
pub proof fn law_a_start_runs_what_the_job_runs(
    instance: &WorkflowInstanceEntity,
    at: Timestamp,
    runs: bool,
    may_run: bool,
)
    requires
        call_ensures(PluginManager::on_workflow_start, (instance,), runs),
        call_ensures(PluginManager::execute_workflow, (&instance@.status,), may_run),
    ensures
        job_step(EventView::Start, instance@, at) matches Ok((_, step)) && (step is Run <==> runs),
        runs <==> may_run,
        runs <==> instance@.status is Pending,
{
}

} // verus!
