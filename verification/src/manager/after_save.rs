//! What is left to be done after a result was applied to an instance, and that it is done only once
//! the instance has been written.

use crate::entity::{InstanceView, WorkflowInstanceEntity};
use crate::manager::apply_exec::{node_notice, one_job, LoopAction};
use crate::manager::executor::PluginManager;
use crate::plugin::interface::ExecutionView;
use crate::shared::{
    task_jobs, workflow_jobs, EventView, ExecuteTaskJob, ExecuteWorkflowJob, TaskJobView,
    WorkflowJobView,
};
use crate::time::Timestamp;
use crate::workflow_transition::parent_jobs;
use vstd::prelude::*;

verus! {

/// What is to be done once the instance has been written, in this order: announce the node,
/// tell the parent, create the task instances of the jobs, hand out the task jobs, hand out the
/// workflow jobs. It is out of reach until [`PluginManager::instance_written`] is told what came of
/// the write.
#[derive(Debug)]
pub struct AfterSave {
    action: LoopAction,
    notice: Option<&'static str>,
    parent_job: Option<ExecuteWorkflowJob>,
    dispatch_jobs: Vec<ExecuteTaskJob>,
    dispatch_workflow_jobs: Vec<ExecuteWorkflowJob>,
}

/// The text of an optional notice.
pub open spec fn notice_text(n: Option<&'static str>) -> Option<Seq<char>> {
    match n {
        Some(s) => Some(s@),
        None => None,
    }
}

impl AfterSave {
    /// What the loop over the nodes does next.
    pub closed spec fn action(self) -> LoopAction {
        self.action
    }

    /// What the node is announced under.
    pub closed spec fn notice(self) -> Option<Seq<char>> {
        notice_text(self.notice)
    }

    /// What the parent is told.
    pub closed spec fn parent(self) -> Seq<WorkflowJobView> {
        one_job(self.parent_job)
    }

    /// The task jobs that are handed out.
    pub closed spec fn tasks(self) -> Seq<TaskJobView> {
        task_jobs(self.dispatch_jobs@)
    }

    /// The workflow jobs that are handed out.
    pub closed spec fn workflows(self) -> Seq<WorkflowJobView> {
        workflow_jobs(self.dispatch_workflow_jobs@)
    }

    /// What is left to be done, of its parts.
    pub(crate) fn new(
        action: LoopAction,
        notice: Option<&'static str>,
        parent_job: Option<ExecuteWorkflowJob>,
        dispatch_jobs: Vec<ExecuteTaskJob>,
        dispatch_workflow_jobs: Vec<ExecuteWorkflowJob>,
    ) -> (r: AfterSave)
        ensures
            r.action() == action,
            r.notice() == notice_text(notice),
            r.parent() == one_job(parent_job),
            r.tasks() == task_jobs(dispatch_jobs@),
            r.workflows() == workflow_jobs(dispatch_workflow_jobs@),
    {
        AfterSave { action, notice, parent_job, dispatch_jobs, dispatch_workflow_jobs }
    }
}

/// Whether that is left to be done after a result was applied to an instance: the node is announced
/// by its new status, the parent is told of the move that the instance made, and the jobs of the
/// result are handed out.
pub open spec fn left_to_do(
    before: InstanceView,
    after: InstanceView,
    result: ExecutionView,
    r: AfterSave,
) -> bool {
    &&& r.notice() == node_notice(result.status)
    &&& r.parent() == parent_jobs(before, before.status, after.status)
    &&& r.tasks() == result.dispatch_jobs
    &&& r.workflows() == result.dispatch_workflow_jobs
}

/// Something that is to be done once an instance has been written.
#[derive(Debug)]
pub enum Chore {
    /// Announce the node under this name.
    Announce(&'static str),
    /// Send this job to the parent; it may get lost.
    TellParent(ExecuteWorkflowJob),
    /// Make sure that the task instance of this job is there.
    EnsureTask(ExecuteTaskJob),
    /// Hand out this job.
    SendTask(ExecuteTaskJob),
    /// Hand out this job.
    SendWorkflow(ExecuteWorkflowJob),
}

/// The mathematical value of a [`Chore`].
pub enum ChoreView {
    Announce(Seq<char>),
    TellParent(WorkflowJobView),
    EnsureTask(TaskJobView),
    SendTask(TaskJobView),
    SendWorkflow(WorkflowJobView),
}

impl View for Chore {
    type V = ChoreView;

    open spec fn view(&self) -> ChoreView {
        match self {
            Chore::Announce(s) => ChoreView::Announce(s@),
            Chore::TellParent(j) => ChoreView::TellParent(j@),
            Chore::EnsureTask(j) => ChoreView::EnsureTask(j@),
            Chore::SendTask(j) => ChoreView::SendTask(j@),
            Chore::SendWorkflow(j) => ChoreView::SendWorkflow(j@),
        }
    }
}

/// The values of a list of chores.
pub open spec fn chore_views(s: Seq<Chore>) -> Seq<ChoreView> {
    Seq::new(s.len(), |i: int| s[i]@)
}

/// The chores that tell the parent.
pub open spec fn told(jobs: Seq<WorkflowJobView>) -> Seq<ChoreView> {
    Seq::new(jobs.len(), |i: int| ChoreView::TellParent(jobs[i]))
}

/// The chores that make sure of task instances.
pub open spec fn ensured(jobs: Seq<TaskJobView>) -> Seq<ChoreView> {
    Seq::new(jobs.len(), |i: int| ChoreView::EnsureTask(jobs[i]))
}

/// The chores that hand out task jobs.
pub open spec fn sent(jobs: Seq<TaskJobView>) -> Seq<ChoreView> {
    Seq::new(jobs.len(), |i: int| ChoreView::SendTask(jobs[i]))
}

/// The chores that hand out workflow jobs.
pub open spec fn handed_out(jobs: Seq<WorkflowJobView>) -> Seq<ChoreView> {
    Seq::new(jobs.len(), |i: int| ChoreView::SendWorkflow(jobs[i]))
}

/// What is to be done once an instance has been written, in order: the node is announced, the
/// parent is told, every task instance is made sure of, and only then the jobs are handed out.
pub open spec fn chores_of(
    notice: Option<Seq<char>>,
    parent: Seq<WorkflowJobView>,
    tasks: Seq<TaskJobView>,
    workflows: Seq<WorkflowJobView>,
) -> Seq<ChoreView> {
    let announced = match notice {
        Some(s) => seq![ChoreView::Announce(s)],
        None => seq![],
    };
    announced + told(parent) + ensured(tasks) + sent(tasks) + handed_out(workflows)
}

/// No job is handed out before the task instance of every task job is there, and every task job that
/// is handed out has had its task instance made sure of.
pub proof fn law_tasks_exist_before_they_are_sent(
    notice: Option<Seq<char>>,
    parent: Seq<WorkflowJobView>,
    tasks: Seq<TaskJobView>,
    workflows: Seq<WorkflowJobView>,
    j: int,
)
    requires
        0 <= j < chores_of(notice, parent, tasks, workflows).len(),
    ensures
        ({
            let all = chores_of(notice, parent, tasks, workflows);
            &&& all[j] is SendTask || all[j] is SendWorkflow ==> forall|i: int|
                0 <= i < all.len() && (#[trigger] all[i]) is EnsureTask ==> i < j
            &&& all[j] matches ChoreView::SendTask(job) ==> exists|i: int|
                0 <= i < j && #[trigger] all[i] == ChoreView::EnsureTask(job)
        }),
{
    let all = chores_of(notice, parent, tasks, workflows);
    let first: int = (if notice is Some {
        1int
    } else {
        0int
    }) + parent.len();
    let n = tasks.len() as int;
    assert(forall|i: int| first <= i < first + n ==> #[trigger] all[i] == ChoreView::EnsureTask(
        tasks[i - first],
    ));
    assert(forall|i: int|
        first + n <= i < first + 2 * n ==> #[trigger] all[i] == ChoreView::SendTask(
            tasks[i - first - n],
        ));
    assert(forall|i: int| first + 2 * n <= i < all.len() ==> (#[trigger] all[i]) is SendWorkflow);
    assert(forall|i: int|
        0 <= i < first ==> !((#[trigger] all[i]) is SendTask || all[i] is SendWorkflow
            || all[i] is EnsureTask));
    if all[j] is SendTask {
        assert(all[j - n] == ChoreView::EnsureTask(tasks[j - first - n]));
    }
}

impl AfterSave {
    /// What is to be done once the instance has been written, in order.
    fn into_chores(self) -> (r: Vec<Chore>)
        ensures
            chore_views(r@) == chores_of(
                notice_text(self.notice),
                one_job(self.parent_job),
                task_jobs(self.dispatch_jobs@),
                workflow_jobs(self.dispatch_workflow_jobs@),
            ),
    {
        let ghost notice = notice_text(self.notice);
        let ghost parent = one_job(self.parent_job);
        let ghost tasks = task_jobs(self.dispatch_jobs@);
        let ghost workflows = workflow_jobs(self.dispatch_workflow_jobs@);
        let mut out: Vec<Chore> = Vec::new();
        if let Some(s) = self.notice {
            out.push(Chore::Announce(s));
        }
        if let Some(job) = self.parent_job {
            out.push(Chore::TellParent(job));
        }
        let ghost first = chore_views(out@);
        proof {
            assert(first =~= chores_of(notice, parent, seq![], seq![]));
        }
        let mut i: usize = 0;
        while i < self.dispatch_jobs.len()
            invariant
                i <= self.dispatch_jobs@.len(),
                tasks == task_jobs(self.dispatch_jobs@),
                chore_views(out@) == first + ensured(tasks.take(i as int)),
            decreases self.dispatch_jobs@.len() - i,
        {
            out.push(Chore::EnsureTask(self.dispatch_jobs[i].clone()));
            proof {
                let was = chore_views(out@.drop_last());
                assert(was =~= first + ensured(tasks.take(i as int)));
                assert(chore_views(out@) =~= was.push(ChoreView::EnsureTask(tasks[i as int])));
                assert(ensured(tasks.take(i + 1)) =~= ensured(tasks.take(i as int)).push(
                    ChoreView::EnsureTask(tasks[i as int]),
                ));
            }
            i = i + 1;
        }
        let ghost second = chore_views(out@);
        proof {
            assert(tasks.take(i as int) =~= tasks);
        }
        let mut i: usize = 0;
        while i < self.dispatch_jobs.len()
            invariant
                i <= self.dispatch_jobs@.len(),
                tasks == task_jobs(self.dispatch_jobs@),
                chore_views(out@) == second + sent(tasks.take(i as int)),
            decreases self.dispatch_jobs@.len() - i,
        {
            out.push(Chore::SendTask(self.dispatch_jobs[i].clone()));
            proof {
                let was = chore_views(out@.drop_last());
                assert(was =~= second + sent(tasks.take(i as int)));
                assert(chore_views(out@) =~= was.push(ChoreView::SendTask(tasks[i as int])));
                assert(sent(tasks.take(i + 1)) =~= sent(tasks.take(i as int)).push(
                    ChoreView::SendTask(tasks[i as int]),
                ));
            }
            i = i + 1;
        }
        let ghost third = chore_views(out@);
        proof {
            assert(tasks.take(i as int) =~= tasks);
        }
        let mut i: usize = 0;
        while i < self.dispatch_workflow_jobs.len()
            invariant
                i <= self.dispatch_workflow_jobs@.len(),
                workflows == workflow_jobs(self.dispatch_workflow_jobs@),
                chore_views(out@) == third + handed_out(workflows.take(i as int)),
            decreases self.dispatch_workflow_jobs@.len() - i,
        {
            out.push(Chore::SendWorkflow(self.dispatch_workflow_jobs[i].clone()));
            proof {
                let was = chore_views(out@.drop_last());
                assert(was =~= third + handed_out(workflows.take(i as int)));
                assert(chore_views(out@) =~= was.push(ChoreView::SendWorkflow(workflows[i as int])));
                assert(handed_out(workflows.take(i + 1)) =~= handed_out(workflows.take(i as int)).push(
                    ChoreView::SendWorkflow(workflows[i as int]),
                ));
            }
            i = i + 1;
        }
        proof {
            assert(workflows.take(i as int) =~= workflows);
            assert(chore_views(out@) =~= chores_of(notice, parent, tasks, workflows));
        }
        out
    }
}

/// An instance that was just written: the next epoch, and the time of the write.
pub open spec fn next_epoch(instance: InstanceView, at: Timestamp) -> InstanceView {
    InstanceView { epoch: (instance.epoch + 1) as u64, updated_at: at, ..instance }
}

/// What is done now that an instance has been written.
#[derive(Debug)]
pub struct Released {
    /// What the loop over the nodes does next, when all the chores are done.
    pub action: LoopAction,
    /// What is to be done, in order.
    pub chores: Vec<Chore>,
}

impl PluginManager {
    /// Takes what came of writing an instance at a given time. Only a write that succeeded brings
    /// the copy in memory up to what was written; one that failed leaves it as it is.
    pub fn save_instance_and_bump_epoch(
        instance: &mut WorkflowInstanceEntity,
        written: Result<(), String>,
        at: Timestamp,
    ) -> (r: Result<(), String>)
        requires
            written is Ok ==> old(instance).epoch < u64::MAX,
        ensures
            match (written, r) {
                (Ok(_), Ok(_)) => final(instance)@ == next_epoch(old(instance)@, at),
                (Err(why), Err(e)) => e@ == why@ && final(instance)@ == old(instance)@,
                _ => false,
            },
            final(instance).nodes@.len() == old(instance).nodes@.len(),
    {
        match written {
            Ok(()) => {
                instance.epoch = instance.epoch + 1;
                instance.updated_at = at;
                Ok(())
            },
            Err(e) => Err(e),
        }
    }

    /// Takes what came of writing an instance that a result was applied to, at a given time. A write
    /// that succeeded gives what was left to be done, in order, and brings the copy in memory up to
    /// what was written; one that failed gives its error alone, and the copy in memory keeps its
    /// epoch.
    pub fn instance_written(
        instance: &mut WorkflowInstanceEntity,
        after: AfterSave,
        written: Result<(), String>,
        at: Timestamp,
    ) -> (r: Result<Released, String>)
        requires
            written is Ok ==> old(instance).epoch < u64::MAX,
        ensures
            match (written, r) {
                (Ok(_), Ok(now)) => {
                    &&& final(instance)@ == next_epoch(old(instance)@, at)
                    &&& now.action == after.action()
                    &&& chore_views(now.chores@) == chores_of(
                        after.notice(),
                        after.parent(),
                        after.tasks(),
                        after.workflows(),
                    )
                },
                (Err(why), Err(e)) => e@ == why@ && final(instance)@ == old(instance)@,
                _ => false,
            },
            final(instance).nodes@.len() == old(instance).nodes@.len(),
    {
        match PluginManager::save_instance_and_bump_epoch(instance, written, at) {
            Ok(()) => Ok(Released { action: after.action, chores: after.into_chores() }),
            Err(e) => Err(e),
        }
    }
}

/// Everything that is owed is done exactly once, and in order: the announcement comes first if there
/// is one, then each job of the parent, then each task is made sure of, then each task is sent, then
/// each workflow.
pub proof fn law_every_chore_is_done_once(
    notice: Option<Seq<char>>,
    parent: Seq<WorkflowJobView>,
    tasks: Seq<TaskJobView>,
    workflows: Seq<WorkflowJobView>,
    i: int,
)
    ensures
        ({
            let all = chores_of(notice, parent, tasks, workflows);
            let first: int = if notice is Some {
                1
            } else {
                0
            };
            let p = parent.len() as int;
            let t = tasks.len() as int;
            &&& all.len() == first + p + t + t + workflows.len()
            &&& notice matches Some(s) ==> all[0] == ChoreView::Announce(s)
            &&& 0 <= i < p ==> all[first + i] == ChoreView::TellParent(parent[i])
            &&& 0 <= i < t ==> all[first + p + i] == ChoreView::EnsureTask(tasks[i])
            &&& 0 <= i < t ==> all[first + p + t + i] == ChoreView::SendTask(tasks[i])
            &&& 0 <= i < workflows.len() ==> all[first + p + t + t + i] == ChoreView::SendWorkflow(
                workflows[i],
            )
        }),
{
}

/// A write is the next epoch, at the time of the write, and changes nothing else.
pub proof fn law_a_write_is_the_next_epoch(instance: InstanceView, at: Timestamp)
    requires
        instance.epoch < u64::MAX,
    ensures
        next_epoch(instance, at).epoch == instance.epoch + 1,
        next_epoch(instance, at).updated_at == at,
        next_epoch(instance, at) == (InstanceView {
            epoch: next_epoch(instance, at).epoch,
            updated_at: at,
            ..instance
        }),
{
}

/// What is left to do after a result was applied tells the parent what the instance's move means to
/// it, and hands out the jobs of the result and no others.
pub proof fn law_nothing_is_left_out(
    before: InstanceView,
    after: InstanceView,
    result: ExecutionView,
    r: AfterSave,
)
    requires
        left_to_do(before, after, result, r),
    ensures
        r.tasks() == result.dispatch_jobs,
        r.workflows() == result.dispatch_workflow_jobs,
        r.notice() is Some <==> result.status is Success || result.status is Failed
            || result.status is Skipped,
        before.parent_context is None ==> r.parent().len() == 0,
        before.parent_context is Some && before.status is Running ==> (r.parent().len() == 1
            <==> after.status is Completed || after.status is Failed),
        before.parent_context is Some && before.status is Running && after.status is Completed ==> {
            &&& r.parent()[0].workflow_instance_id
                == before.parent_context->0.workflow_instance_id
            &&& r.parent()[0].event matches EventView::NodeCallback {
                node_id,
                child_task_id,
                status,
                output,
                ..
            }
            &&& node_id == before.parent_context->0.node_id
            &&& child_task_id == before.workflow_instance_id
            &&& status is Success
            &&& output == Some(before.context)
        },
{
}

} // verus!
