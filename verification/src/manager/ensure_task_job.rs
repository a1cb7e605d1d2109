//! Task instances for the jobs that a node hands out. Children of containers run the container's
//! inner template; every other job runs the node's own.

use crate::entity::{TaskInstanceEntity, TaskView};
use crate::json::{clone_opt, clone_opt_text, field_of, opt_json, text_of, Json, JsonView};
use crate::manager::executor::PluginManager;
use crate::shared::{clone_opt_caller, ExecuteTaskJob, TaskInstanceStatus, TaskJobView, TaskType};
use crate::template::{lemma_fork_items, TaskTemplate, TaskTemplateView};
use crate::text::{concat2, decimal, decimal_text, opt_text, owned};
use crate::time::{now, Timestamp};
use vstd::prelude::*;

verus! {

/// Where the input of a child task comes from.
#[derive(Debug)]
pub enum ChildInput {
    /// It is this.
    Ready(Option<Json>),
    /// The child's template, filled in from the node's context.
    FromNodeContext,
    /// The child's template, filled in from the node's context with one item of a list set under a
    /// name.
    FromItem { items_path: String, item_alias: String, index: usize },
}

/// The mathematical value of a [`ChildInput`].
pub enum ChildInputView {
    Ready(Option<JsonView>),
    FromNodeContext,
    FromItem { items_path: Seq<char>, item_alias: Seq<char>, index: usize },
}

impl View for ChildInput {
    type V = ChildInputView;

    open spec fn view(&self) -> ChildInputView {
        match self {
            ChildInput::Ready(j) => ChildInputView::Ready(opt_json(*j)),
            ChildInput::FromNodeContext => ChildInputView::FromNodeContext,
            ChildInput::FromItem { items_path, item_alias, index } => ChildInputView::FromItem {
                items_path: items_path@,
                item_alias: item_alias@,
                index: *index,
            },
        }
    }
}

/// The place that a job's caller names, if it names one.
pub open spec fn item_index_of(job: TaskJobView) -> Option<usize> {
    match job.caller_context {
        Some(c) => c.item_index,
        None => None,
    }
}

/// Where the input of an HTTP child comes from: from its item under a parallel node; from the
/// node's own input under an HTTP node whose request has a url already; from the node's context
/// otherwise.
pub open spec fn http_input(parent: TaskView, job: TaskJobView) -> ChildInputView {
    match parent.task_template {
        TaskTemplateView::Parallel(t) => ChildInputView::FromItem {
            items_path: t.items_path,
            item_alias: t.item_alias,
            index: match item_index_of(job) {
                Some(i) => i,
                None => 0,
            },
        },
        TaskTemplateView::Http(_) => match text_of(field_of(parent.input, "url"@)) {
            Some(url) => if url.len() > 0 {
                ChildInputView::Ready(parent.input)
            } else {
                ChildInputView::FromNodeContext
            },
            None => ChildInputView::FromNodeContext,
        },
        _ => ChildInputView::FromNodeContext,
    }
}

/// Where the input of a language-model child comes from: from the node's own input under a
/// language-model node that has one; from its item under a parallel node; from the node's context
/// otherwise.
pub open spec fn llm_input(parent: TaskView, job: TaskJobView) -> ChildInputView {
    match parent.task_template {
        TaskTemplateView::Llm(_) => if parent.input is Some {
            ChildInputView::Ready(parent.input)
        } else {
            ChildInputView::FromNodeContext
        },
        TaskTemplateView::Parallel(t) => ChildInputView::FromItem {
            items_path: t.items_path,
            item_alias: t.item_alias,
            index: match item_index_of(job) {
                Some(i) => i,
                None => 0,
            },
        },
        _ => ChildInputView::FromNodeContext,
    }
}

/// The template, the kind and the task id that a job's task runs with. A child of a parallel node
/// runs the inner template; a child of a fork runs the template at its place, under the task id
/// given there; any other job runs the node's own template. Without a task id here the node's own
/// counts.
pub open spec fn child_template(parent: TaskView, job: TaskJobView) -> Result<
    (TaskTemplateView, TaskType, Option<Seq<char>>),
    Seq<char>,
> {
    match parent.task_template {
        TaskTemplateView::Parallel(t) => Ok((*t.task_template, (*t.task_template).kind(), None)),
        TaskTemplateView::ForkJoin(t) => match item_index_of(job) {
            None => Err("ForkJoin dispatch job missing item_index in caller_context"@),
            Some(i) => if i < t.tasks.len() {
                Ok(
                    (
                        t.tasks[i as int].task_template,
                        t.tasks[i as int].task_template.kind(),
                        t.tasks[i as int].task_id,
                    ),
                )
            } else {
                Err(
                    "ForkJoin item_index "@ + decimal(i as nat) + " out of range (len "@ + decimal(
                        t.tasks.len(),
                    ) + ")"@,
                )
            },
        },
        _ => Ok((parent.task_template, parent.task_type, None)),
    }
}

/// What storage has of the task instance of a job.
pub enum StoredTask {
    /// There is no storage of task instances.
    NoStore,
    /// There is no such instance.
    Missing,
    /// This is it.
    Found(TaskInstanceEntity),
}

/// The mathematical value of a [`StoredTask`].
pub enum StoredTaskView {
    NoStore,
    Missing,
    Found(TaskView),
}

impl View for StoredTask {
    type V = StoredTaskView;

    open spec fn view(&self) -> StoredTaskView {
        match self {
            StoredTask::NoStore => StoredTaskView::NoStore,
            StoredTask::Missing => StoredTaskView::Missing,
            StoredTask::Found(t) => StoredTaskView::Found(t@),
        }
    }
}

/// What is to be done so that the task instance of a job exists.
pub enum TaskJobStep {
    /// Nothing.
    Leave,
    /// Write this over the instance that is there.
    Correct(TaskInstanceEntity),
    /// Create this, with the input that is to be found as described.
    Create(TaskInstanceEntity, ChildInput),
}

/// The mathematical value of a [`TaskJobStep`].
pub enum TaskJobStepView {
    Leave,
    Correct(TaskView),
    Create(TaskView, ChildInputView),
}

impl View for TaskJobStep {
    type V = TaskJobStepView;

    open spec fn view(&self) -> TaskJobStepView {
        match self {
            TaskJobStep::Leave => TaskJobStepView::Leave,
            TaskJobStep::Correct(t) => TaskJobStepView::Correct(t@),
            TaskJobStep::Create(t, i) => TaskJobStepView::Create(t@, i@),
        }
    }
}

/// The task instance that is created for a job: pending, with the node's name, and without input,
/// output, error or duration.
pub open spec fn fresh_task(
    parent: TaskView,
    job: TaskJobView,
    template: TaskTemplateView,
    task_type: TaskType,
    task_id: Seq<char>,
    at: Timestamp,
) -> TaskView {
    TaskView {
        id: job.task_instance_id,
        tenant_id: job.tenant_id,
        task_id,
        task_type,
        task_template: template,
        task_status: TaskInstanceStatus::Pending,
        task_instance_id: job.task_instance_id,
        created_at: at,
        updated_at: at,
        input: None,
        output: None,
        error_message: None,
        execution_duration: None,
        caller_context: job.caller_context,
        ..parent
    }
}

/// Where the input of a job's task comes from; a task that is neither a request nor a prompt has
/// none.
pub open spec fn input_of(parent: TaskView, job: TaskJobView, template: TaskTemplateView) -> ChildInputView {
    match template {
        TaskTemplateView::Http(_) => http_input(parent, job),
        TaskTemplateView::Llm(_) => llm_input(parent, job),
        _ => ChildInputView::Ready(None),
    }
}

/// What is to be done so that the task instance of a job exists: nothing without storage; nothing
/// to an instance that has ended, or that has the right kind; one of the wrong kind is corrected;
/// a missing one is created.
pub open spec fn ensure_step(
    parent: TaskView,
    job: TaskJobView,
    stored: StoredTaskView,
    at: Timestamp,
) -> Result<TaskJobStepView, Seq<char>> {
    match stored {
        StoredTaskView::NoStore => Ok(TaskJobStepView::Leave),
        _ => match child_template(parent, job) {
            Err(e) => Err(e),
            Ok((template, task_type, id)) => {
                let task_id = match id {
                    Some(t) => t,
                    None => parent.task_id,
                };
                match stored {
                    StoredTaskView::Found(existing) => if existing.task_status.ended()
                        || existing.task_type == task_type {
                        Ok(TaskJobStepView::Leave)
                    } else {
                        Ok(
                            TaskJobStepView::Correct(
                                TaskView {
                                    task_type,
                                    task_template: template,
                                    task_id,
                                    ..existing
                                },
                            ),
                        )
                    },
                    _ => Ok(
                        TaskJobStepView::Create(
                            fresh_task(parent, job, template, task_type, task_id, at),
                            input_of(parent, job, template),
                        ),
                    ),
                }
            },
        },
    }
}

/// A task instance that has ended is never written over.
pub proof fn law_ended_tasks_are_left_alone(
    parent: TaskView,
    job: TaskJobView,
    existing: TaskView,
    at: Timestamp,
)
    requires
        existing.task_status.ended(),
    ensures
        ensure_step(parent, job, StoredTaskView::Found(existing), at) matches Ok(step) ==> step
            is Leave,
{
}

/// Ensuring a job's task twice is the same as ensuring it once: the instance that was created or
/// corrected is left alone.
pub proof fn law_ensuring_is_idempotent(
    parent: TaskView,
    job: TaskJobView,
    stored: StoredTaskView,
    at: Timestamp,
    later: Timestamp,
)
    ensures
        match ensure_step(parent, job, stored, at) {
            Ok(TaskJobStepView::Create(task, _)) => ensure_step(
                parent,
                job,
                StoredTaskView::Found(task),
                later,
            ) == Ok::<TaskJobStepView, Seq<char>>(TaskJobStepView::Leave),
            Ok(TaskJobStepView::Correct(task)) => ensure_step(
                parent,
                job,
                StoredTaskView::Found(task),
                later,
            ) == Ok::<TaskJobStepView, Seq<char>>(TaskJobStepView::Leave),
            _ => true,
        },
{
}

fn job_item_index(job: &ExecuteTaskJob) -> (r: Option<usize>)
    ensures
        r == item_index_of(job@),
{
    match &job.caller_context {
        Some(c) => c.item_index,
        None => None,
    }
}

impl PluginManager {
    /// Where the input of an HTTP child comes from.
    pub fn resolve_http_child_input(parent: &TaskInstanceEntity, job: &ExecuteTaskJob) -> (r:
        ChildInput)
        ensures
            r@ == http_input(parent@, job@),
    {
        match &parent.task_template {
            TaskTemplate::Parallel(t) => ChildInput::FromItem {
                items_path: t.items_path.clone(),
                item_alias: t.item_alias.clone(),
                index: match job_item_index(job) {
                    Some(i) => i,
                    None => 0,
                },
            },
            TaskTemplate::Http(_) => {
                let resolved = match &parent.input {
                    Some(i) => match i.get_str("url") {
                        Some(url) => !url.is_empty(),
                        None => false,
                    },
                    None => false,
                };
                if resolved {
                    ChildInput::Ready(clone_opt(&parent.input))
                } else {
                    ChildInput::FromNodeContext
                }
            },
            _ => ChildInput::FromNodeContext,
        }
    }

    /// Where the input of a language-model child comes from.
    pub fn resolve_llm_child_input(parent: &TaskInstanceEntity, job: &ExecuteTaskJob) -> (r:
        ChildInput)
        ensures
            r@ == llm_input(parent@, job@),
    {
        match &parent.task_template {
            TaskTemplate::Llm(_) => if parent.input.is_some() {
                ChildInput::Ready(clone_opt(&parent.input))
            } else {
                ChildInput::FromNodeContext
            },
            TaskTemplate::Parallel(t) => ChildInput::FromItem {
                items_path: t.items_path.clone(),
                item_alias: t.item_alias.clone(),
                index: match job_item_index(job) {
                    Some(i) => i,
                    None => 0,
                },
            },
            _ => ChildInput::FromNodeContext,
        }
    }

    /// The template, the kind and the task id that a job's task runs with.
    pub fn derive_child_template(parent: &TaskInstanceEntity, job: &ExecuteTaskJob) -> (r: Result<
        (TaskTemplate, TaskType, Option<String>),
        String,
    >)
        ensures
            match r {
                Ok(t) => child_template(parent@, job@) == Ok::<
                    (TaskTemplateView, TaskType, Option<Seq<char>>),
                    Seq<char>,
                >((t.0@, t.1, opt_text(t.2))),
                Err(e) => child_template(parent@, job@) == Err::<
                    (TaskTemplateView, TaskType, Option<Seq<char>>),
                    Seq<char>,
                >(e@),
            },
    {
        match &parent.task_template {
            TaskTemplate::Parallel(t) => {
                let inner = (&*t.task_template).clone();
                let kind = inner.task_type();
                Ok((inner, kind, None))
            },
            TaskTemplate::ForkJoin(t) => {
                let index = match job_item_index(job) {
                    Some(i) => i,
                    None => {
                        return Err(
                            owned("ForkJoin dispatch job missing item_index in caller_context"),
                        );
                    },
                };
                proof {
                    lemma_fork_items(t.tasks@);
                }
                if index >= t.tasks.len() {
                    let mut e = concat2(
                        "ForkJoin item_index ",
                        decimal_text(index as u64).as_str(),
                    );
                    e.append(" out of range (len ");
                    e.append(decimal_text(t.tasks.len() as u64).as_str());
                    e.append(")");
                    return Err(e);
                }
                let item = &t.tasks[index];
                assert(parent@.task_template->ForkJoin_0.tasks[index as int] == item@);
                let inner = item.task_template.clone();
                let kind = inner.task_type();
                Ok((inner, kind, clone_opt_text(&item.task_id)))
            },
            _ => Ok((parent.task_template.clone(), parent.task_type, None)),
        }
    }

    /// What is to be done so that the task instance of a job exists, at a given time. `parent` is
    /// the task of the node that hands out the job.
    pub fn ensure_task_instance_for_job_at(
        parent: &TaskInstanceEntity,
        job: &ExecuteTaskJob,
        stored: StoredTask,
        at: Timestamp,
    ) -> (r: Result<TaskJobStep, String>)
        ensures
            match r {
                Ok(step) => ensure_step(parent@, job@, stored@, at) == Ok::<
                    TaskJobStepView,
                    Seq<char>,
                >(step@),
                Err(e) => ensure_step(parent@, job@, stored@, at) == Err::<
                    TaskJobStepView,
                    Seq<char>,
                >(e@),
            },
    {
        if let StoredTask::NoStore = stored {
            return Ok(TaskJobStep::Leave);
        }
        let (template, task_type, id) = match PluginManager::derive_child_template(parent, job) {
            Ok(t) => t,
            Err(e) => {
                return Err(e);
            },
        };
        let task_id = match id {
            Some(t) => t,
            None => parent.task_id.clone(),
        };
        match stored {
            StoredTask::Found(existing) => {
                if existing.task_status.is_terminal() || existing.task_type == task_type {
                    return Ok(TaskJobStep::Leave);
                }
                let mut corrected = existing;
                corrected.task_type = task_type;
                corrected.task_template = template;
                corrected.task_id = task_id;
                Ok(TaskJobStep::Correct(corrected))
            },
            _ => {
                let input = match &template {
                    TaskTemplate::Http(_) => PluginManager::resolve_http_child_input(parent, job),
                    TaskTemplate::Llm(_) => PluginManager::resolve_llm_child_input(parent, job),
                    _ => ChildInput::Ready(None),
                };
                let task = TaskInstanceEntity {
                    id: job.task_instance_id.clone(),
                    tenant_id: job.tenant_id.clone(),
                    task_id,
                    task_name: parent.task_name.clone(),
                    task_type,
                    task_template: template,
                    task_status: TaskInstanceStatus::Pending,
                    task_instance_id: job.task_instance_id.clone(),
                    created_at: at,
                    updated_at: at,
                    deleted_at: parent.deleted_at,
                    input: None,
                    output: None,
                    error_message: None,
                    execution_duration: None,
                    caller_context: clone_opt_caller(&job.caller_context),
                };
                Ok(TaskJobStep::Create(task, input))
            },
        }
    }

    /// What is to be done so that the task instance of a job exists, at the clock's time. See
    /// [`PluginManager::ensure_task_instance_for_job_at`].
    pub fn ensure_task_instance_for_job(
        parent: &TaskInstanceEntity,
        job: &ExecuteTaskJob,
        stored: StoredTask,
    ) -> (r: Result<TaskJobStep, String>)
        ensures
            exists|at: Timestamp|
                #![trigger ensure_step(parent@, job@, stored@, at)]
                match r {
                    Ok(step) => ensure_step(parent@, job@, stored@, at) == Ok::<
                        TaskJobStepView,
                        Seq<char>,
                    >(step@),
                    Err(e) => ensure_step(parent@, job@, stored@, at) == Err::<
                        TaskJobStepView,
                        Seq<char>,
                    >(e@),
                },
    {
        PluginManager::ensure_task_instance_for_job_at(parent, job, stored, now())
    }
}

/// The child at a place of a fork runs the template that stands at that place, as its kind and under
/// the task id given there: whatever is created or corrected for its job has these.
pub proof fn law_each_branch_runs_its_own_template(
    parent: TaskView,
    job: TaskJobView,
    i: usize,
    stored: StoredTaskView,
    at: Timestamp,
)
    requires
        parent.task_template is ForkJoin,
        job.caller_context is Some,
        job.caller_context->0.item_index == Some(i),
        i < parent.task_template->ForkJoin_0.tasks.len(),
    ensures
        ({
            let branch = parent.task_template->ForkJoin_0.tasks[i as int];
            &&& child_template(parent, job) matches Ok((template, kind, id)) && template
                == branch.task_template && kind == branch.task_template.kind() && id
                == branch.task_id
            &&& stored is Missing ==> (ensure_step(parent, job, stored, at) matches Ok(
                TaskJobStepView::Create(task, _),
            ) && task.task_template == branch.task_template && task.task_type
                == branch.task_template.kind() && (branch.task_id matches Some(id)
                ==> task.task_id == id) && (branch.task_id is None ==> task.task_id
                == parent.task_id))
            &&& (stored matches StoredTaskView::Found(existing) && !existing.task_status.ended()
                && existing.task_type != branch.task_template.kind()) ==> (ensure_step(
                parent,
                job,
                stored,
                at,
            ) matches Ok(TaskJobStepView::Correct(task)) && task.task_template
                == branch.task_template && task.task_type == branch.task_template.kind() && (
            branch.task_id matches Some(id) ==> task.task_id == id) && (branch.task_id is None
                ==> task.task_id == parent.task_id))
        }),
{
}

/// Two jobs at places of a fork whose templates differ get different templates.
pub proof fn law_branches_are_told_apart(
    parent: TaskView,
    one: TaskJobView,
    other: TaskJobView,
    i: usize,
    j: usize,
    at: Timestamp,
)
    requires
        parent.task_template is ForkJoin,
        one.caller_context is Some,
        other.caller_context is Some,
        one.caller_context->0.item_index == Some(i),
        other.caller_context->0.item_index == Some(j),
        i < parent.task_template->ForkJoin_0.tasks.len(),
        j < parent.task_template->ForkJoin_0.tasks.len(),
        parent.task_template->ForkJoin_0.tasks[i as int].task_template
            != parent.task_template->ForkJoin_0.tasks[j as int].task_template,
    ensures
        child_template(parent, one)->Ok_0.0 != child_template(parent, other)->Ok_0.0,
        ensure_step(parent, one, StoredTaskView::Missing, at) != ensure_step(
            parent,
            other,
            StoredTaskView::Missing,
            at,
        ),
{
    law_each_branch_runs_its_own_template(parent, one, i, StoredTaskView::Missing, at);
    law_each_branch_runs_its_own_template(parent, other, j, StoredTaskView::Missing, at);
}

/// A job of a fork that names no place, or one past the last, is refused, and nothing is written for
/// it; no other job is refused.
pub proof fn law_only_jobs_without_a_branch_are_refused(
    parent: TaskView,
    job: TaskJobView,
    stored: StoredTaskView,
    at: Timestamp,
)
    requires
        !(stored is NoStore),
    ensures
        ensure_step(parent, job, stored, at) is Err <==> {
            &&& parent.task_template is ForkJoin
            &&& !(job.caller_context matches Some(c) && c.item_index matches Some(i) && i
                < parent.task_template->ForkJoin_0.tasks.len())
        },
{
}

/// Every child of a parallel node runs the inner template, and a plain node's task the node's own;
/// both under the node's task id.
pub proof fn law_other_children_run_the_nodes_template(
    parent: TaskView,
    job: TaskJobView,
    at: Timestamp,
)
    requires
        !(parent.task_template is ForkJoin),
    ensures
        ensure_step(parent, job, StoredTaskView::Missing, at) matches Ok(
            TaskJobStepView::Create(task, _),
        ) && task.task_id == parent.task_id && match parent.task_template {
            TaskTemplateView::Parallel(t) => task.task_template == *t.task_template
                && task.task_type == (*t.task_template).kind(),
            _ => task.task_template == parent.task_template && task.task_type == parent.task_type,
        },
{
}

/// The task that is created for a job is the job's: it has its identifier, its tenant and its caller;
/// it is pending, has neither input nor result yet, and is the node's task in name. One that is
/// corrected keeps everything but its template, its kind and its task id.
pub proof fn law_a_created_task_is_the_jobs(
    parent: TaskView,
    job: TaskJobView,
    stored: StoredTaskView,
    at: Timestamp,
)
    ensures
        ensure_step(parent, job, stored, at) matches Ok(TaskJobStepView::Create(task, _)) ==> {
            &&& task.id == job.task_instance_id
            &&& task.task_instance_id == job.task_instance_id
            &&& task.tenant_id == job.tenant_id
            &&& task.caller_context == job.caller_context
            &&& task.task_name == parent.task_name
            &&& task.task_status == TaskInstanceStatus::Pending
            &&& task.created_at == at
            &&& task.updated_at == at
            &&& task.input is None
            &&& task.output is None
            &&& task.error_message is None
            &&& task.execution_duration is None
            &&& stored is Missing
        },
        ensure_step(parent, job, stored, at) matches Ok(TaskJobStepView::Correct(task)) ==> {
            &&& stored matches StoredTaskView::Found(existing)
            &&& task == (TaskView {
                task_type: task.task_type,
                task_template: task.task_template,
                task_id: task.task_id,
                ..existing
            })
            &&& task.task_type != existing.task_type
        },
{
}

/// A child of a parallel node that is a request or a prompt gets its input from the item at its own
/// place of the node's list, under the node's alias; so two children at different places never get
/// theirs from the same item.
pub proof fn law_each_child_takes_its_own_item(
    parent: TaskView,
    job: TaskJobView,
    i: usize,
    at: Timestamp,
)
    requires
        parent.task_template is Parallel,
        job.caller_context is Some,
        job.caller_context->0.item_index == Some(i),
        *parent.task_template->Parallel_0.task_template is Http
            || *parent.task_template->Parallel_0.task_template is Llm,
    ensures
        ensure_step(parent, job, StoredTaskView::Missing, at) matches Ok(
            TaskJobStepView::Create(_, ChildInputView::FromItem { items_path, item_alias, index }),
        ) && items_path == parent.task_template->Parallel_0.items_path && item_alias
            == parent.task_template->Parallel_0.item_alias && index == i,
{
}

/// A plain node's request takes the node's own input if that names a url, and a plain prompt the
/// node's own input if there is one; else both are filled in from the node's context, and so is a
/// branch of a fork. A task that is neither has no input.
pub proof fn law_where_plain_input_comes_from(parent: TaskView, job: TaskJobView, at: Timestamp)
    requires
        !(parent.task_template is Parallel),
    ensures
        ensure_step(parent, job, StoredTaskView::Missing, at) matches Ok(
            TaskJobStepView::Create(task, source),
        ) ==> {
            &&& !(task.task_template is Http || task.task_template is Llm) ==> source
                == ChildInputView::Ready(None)
            &&& parent.task_template is ForkJoin && (task.task_template is Http
                || task.task_template is Llm) ==> source is FromNodeContext
            &&& parent.task_template is Llm ==> (parent.input is None <==> source
                is FromNodeContext)
            &&& parent.task_template is Http && !(source is FromNodeContext) ==> {
                &&& parent.input is Some
                &&& parent.input->0.field("url"@) matches Some(JsonView::Str(url)) && url.len() > 0
            }
            &&& parent.task_template is Http && (parent.input matches Some(v) && v.field("url"@)
                matches Some(JsonView::Str(url)) && url.len() > 0) ==> !(source is FromNodeContext)
            &&& source matches ChildInputView::Ready(Some(v)) ==> parent.input == Some(v)
            &&& !(source is FromItem)
        },
{
}

/// The template, the kind and the task id that are derived for a job at a place of a fork are those of
/// the task at that place.
pub proof fn law_a_derived_template_is_the_branchs(
    parent: &TaskInstanceEntity,
    job: &ExecuteTaskJob,
    i: usize,
    r: Result<(TaskTemplate, TaskType, Option<String>), String>,
)
    requires
        call_ensures(PluginManager::derive_child_template, (parent, job), r),
        parent.task_template is ForkJoin,
        job.caller_context is Some,
        job.caller_context->0.item_index == Some(i),
        i < parent.task_template->ForkJoin_0.tasks@.len(),
    ensures
        ({
            let branch = parent.task_template->ForkJoin_0.tasks@[i as int];
            &&& r matches Ok(derived)
            &&& derived.0@ == branch.task_template@
            &&& derived.1 == branch.task_template.kind()
            &&& opt_text(derived.2) == opt_text(branch.task_id)
        }),
{
    let tasks = parent.task_template->ForkJoin_0.tasks@;
    lemma_fork_items(tasks);
    assert(parent@.task_template->ForkJoin_0.tasks[i as int] == tasks[i as int]@);
    crate::template::law_a_template_is_of_its_kind(tasks[i as int].task_template);
}

/// A job of a fork without a place is refused with that reason, and one at a place past the last with
/// the place and the number of tasks.
pub proof fn law_a_refused_job_is_told_why(parent: TaskView, job: TaskJobView, i: usize)
    requires
        parent.task_template is ForkJoin,
    ensures
        (job.caller_context is None || job.caller_context->0.item_index is None) ==> child_template(
            parent,
            job,
        ) == Err::<(TaskTemplateView, TaskType, Option<Seq<char>>), Seq<char>>(
            "ForkJoin dispatch job missing item_index in caller_context"@,
        ),
        (job.caller_context is Some && job.caller_context->0.item_index == Some(i) && i
            >= parent.task_template->ForkJoin_0.tasks.len()) ==> child_template(parent, job)
            == Err::<(TaskTemplateView, TaskType, Option<Seq<char>>), Seq<char>>(
            "ForkJoin item_index "@ + decimal(i as nat) + " out of range (len "@ + decimal(
                parent.task_template->ForkJoin_0.tasks.len(),
            ) + ")"@,
        ),
{
}

/// A child of a parallel node that names no place takes the first item.
pub proof fn law_a_child_without_a_place_takes_the_first_item(
    parent: TaskView,
    job: TaskJobView,
    at: Timestamp,
)
    requires
        parent.task_template is Parallel,
        job.caller_context is None || job.caller_context->0.item_index is None,
        *parent.task_template->Parallel_0.task_template is Http
            || *parent.task_template->Parallel_0.task_template is Llm,
    ensures
        ensure_step(parent, job, StoredTaskView::Missing, at) matches Ok(
            TaskJobStepView::Create(_, ChildInputView::FromItem { index, .. }),
        ) && index == 0,
{
}

} // verus!
