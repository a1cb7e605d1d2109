//! What users do with approvals, tasks and workflows: who may, what is asked of the services, and
//! what is sent.

use crate::approval::Decision;
use crate::auth::{refusal, AuthContext, AuthService, AuthView};
use crate::entity::{node_place, TaskInstanceEntity, TaskView, WorkflowInstanceEntity};
use crate::ids::new_id;
use crate::json::{Json, JsonView};
use crate::shared::{
    make_start_job, start_job, EventView, ExecuteTaskJob, ExecuteWorkflowJob, NodeExecutionStatus,
    TaskInstanceStatus, TaskJobView, TaskType, WorkflowEvent, WorkflowJobView,
};
use crate::template::TaskTemplate;
use crate::text::{concat2, owned, same};
use crate::time::{now, Timestamp};
use crate::user::Permission;
use crate::variable::{standalone_context, variables, VariableEntity, VariableService};
use vstd::prelude::*;

verus! {

/// Something that a service is asked for, and that can fail.
#[derive(Clone, Copy, Debug, PartialEq, Eq, Structural)]
pub enum Operation {
    ListApprovals,
    DecideApproval,
    ListTaskInstances,
    GetTaskInstance,
    RetryTaskInstance,
    ListTasks,
    CreateInstance,
    DispatchTask,
    GetCreatedInstance,
    ListInstances,
    GetInstance,
    ListDefinitions,
    GetDefinition,
    ExecuteInstance,
    Dispatch,
    CancelInstance,
    RetryInstance,
    SkipNode,
    DispatchCallback,
}

impl Operation {
    /// What could not be done, in words.
    pub open spec fn failed_to(self) -> Seq<char> {
        match self {
            Operation::ListApprovals => "failed to list approvals: "@,
            Operation::DecideApproval => "failed to decide approval: "@,
            Operation::ListTaskInstances => "failed to list task instances: "@,
            Operation::GetTaskInstance => "failed to get task instance: "@,
            Operation::RetryTaskInstance => "failed to retry task instance: "@,
            Operation::ListTasks => "failed to list tasks: "@,
            Operation::CreateInstance => "failed to create instance: "@,
            Operation::DispatchTask => "failed to dispatch task: "@,
            Operation::GetCreatedInstance => "failed to get created instance: "@,
            Operation::ListInstances => "failed to list instances: "@,
            Operation::GetInstance => "failed to get instance: "@,
            Operation::ListDefinitions => "failed to list definitions: "@,
            Operation::GetDefinition => "failed to get definition: "@,
            Operation::ExecuteInstance => "failed to execute instance: "@,
            Operation::Dispatch => "failed to dispatch: "@,
            Operation::CancelInstance => "failed to cancel instance: "@,
            Operation::RetryInstance => "failed to retry instance: "@,
            Operation::SkipNode => "failed to skip node: "@,
            Operation::DispatchCallback => "failed to dispatch callback: "@,
        }
    }

    /// What an operation that failed for a reason is answered with.
    pub fn failure(&self, why: &str) -> (r: String)
        ensures
            r@ == self.failed_to() + why@,
    {
        let start = match self {
            Operation::ListApprovals => "failed to list approvals: ",
            Operation::DecideApproval => "failed to decide approval: ",
            Operation::ListTaskInstances => "failed to list task instances: ",
            Operation::GetTaskInstance => "failed to get task instance: ",
            Operation::RetryTaskInstance => "failed to retry task instance: ",
            Operation::ListTasks => "failed to list tasks: ",
            Operation::CreateInstance => "failed to create instance: ",
            Operation::DispatchTask => "failed to dispatch task: ",
            Operation::GetCreatedInstance => "failed to get created instance: ",
            Operation::ListInstances => "failed to list instances: ",
            Operation::GetInstance => "failed to get instance: ",
            Operation::ListDefinitions => "failed to list definitions: ",
            Operation::GetDefinition => "failed to get definition: ",
            Operation::ExecuteInstance => "failed to execute instance: ",
            Operation::Dispatch => "failed to dispatch: ",
            Operation::CancelInstance => "failed to cancel instance: ",
            Operation::RetryInstance => "failed to retry instance: ",
            Operation::SkipNode => "failed to skip node: ",
            Operation::DispatchCallback => "failed to dispatch callback: ",
        };
        concat2(start, why)
    }
}

/// Whether asking for something that needs a permission gives `r`: the refusal if there is one,
/// else the request.
pub open spec fn permitted<T>(auth: AuthView, perm: Permission, r: Result<T, String>) -> bool {
    match r {
        Ok(_) => refusal(auth, perm) is None,
        Err(e) => refusal(auth, perm) == Some(e@),
    }
}

/// What is asked of the approval service when somebody decides.
#[derive(Debug)]
pub struct DecideRequest {
    pub tenant_id: String,
    pub approval_id: String,
    pub user_id: String,
    pub decision: Decision,
    pub comment: Option<String>,
}

/// What users do with approvals.
pub struct ApprovalUsecase {
    pub auth_service: AuthService,
}

impl ApprovalUsecase {
    pub fn new(auth_service: AuthService) -> (r: Self)
        ensures
            r.auth_service == auth_service,
    {
        ApprovalUsecase { auth_service }
    }

    /// The tenant whose approvals are to be listed.
    pub fn list_approvals(&self, auth: &AuthContext) -> (r: Result<String, String>)
        ensures
            permitted(auth@, Permission::ReadOnly, r),
            r matches Ok(t) ==> t@ == auth@.tenant_id,
    {
        match self.auth_service.authorize(auth, &Permission::ReadOnly) {
            Ok(_) => Ok(auth.tenant_id.clone()),
            Err(e) => Err(e),
        }
    }

    /// What is asked of the approval service: the decision of the user who asks, in their tenant.
    pub fn decide_approval(
        &self,
        auth: &AuthContext,
        approval_id: &str,
        decision: Decision,
        comment: Option<String>,
    ) -> (r: Result<DecideRequest, String>)
        ensures
            permitted(auth@, Permission::ApprovalDecide, r),
            r matches Ok(q) ==> {
                &&& q.tenant_id@ == auth@.tenant_id
                &&& q.approval_id@ == approval_id@
                &&& q.user_id@ == auth@.user_id
                &&& q.decision == decision
                &&& q.comment == comment
            },
    {
        match self.auth_service.authorize(auth, &Permission::ApprovalDecide) {
            Ok(_) => Ok(
                DecideRequest {
                    tenant_id: auth.tenant_id.clone(),
                    approval_id: owned(approval_id),
                    user_id: auth.user_id.clone(),
                    decision,
                    comment,
                },
            ),
            Err(e) => Err(e),
        }
    }
}

/// A task that can be run.
#[derive(Debug)]
pub struct TaskEntity {
    pub id: String,
    pub tenant_id: String,
    pub name: String,
    pub task_type: TaskType,
    pub task_template: TaskTemplate,
}

/// The first task with a name.
pub open spec fn task_place(tasks: Seq<TaskEntity>, name: Seq<char>) -> Option<int>
    decreases tasks.len(),
{
    if tasks.len() == 0 {
        None
    } else {
        match task_place(tasks.drop_last(), name) {
            Some(i) => Some(i),
            None => if tasks.last().name@ == name {
                Some(tasks.len() - 1)
            } else {
                None
            },
        }
    }
}

proof fn lemma_task_place(tasks: Seq<TaskEntity>, name: Seq<char>, i: int)
    requires
        0 <= i <= tasks.len(),
        forall|j: int| 0 <= j < i ==> (#[trigger] tasks[j]).name@ != name,
        i < tasks.len() ==> tasks[i].name@ == name,
    ensures
        task_place(tasks, name) == if i < tasks.len() {
            Some(i)
        } else {
            None
        },
    decreases tasks.len(),
{
    if tasks.len() > 0 {
        let front = tasks.drop_last();
        if i < tasks.len() {
            lemma_task_place(front, name, i);
        } else {
            assert(tasks[tasks.len() - 1].name@ != name);
            lemma_task_place(front, name, front.len() as int);
        }
    }
}

/// A task's instance as it is made for somebody: it waits to be run, for no workflow.
pub open spec fn new_task_instance(
    auth: AuthView,
    task: TaskEntity,
    context: JsonView,
    id: Seq<char>,
    instance_id: Seq<char>,
    at: Timestamp,
) -> TaskView {
    TaskView {
        id,
        tenant_id: auth.tenant_id,
        task_id: task.id@,
        task_name: task.name@,
        task_type: task.task_type,
        task_template: task.task_template@,
        task_status: TaskInstanceStatus::Pending,
        task_instance_id: instance_id,
        created_at: at,
        updated_at: at,
        deleted_at: None,
        input: Some(context),
        output: None,
        error_message: None,
        execution_duration: None,
        caller_context: None,
    }
}

/// The job that runs a task's instance for nobody.
pub open spec fn task_run_job(auth: AuthView, instance_id: Seq<char>) -> TaskJobView {
    TaskJobView {
        task_instance_id: instance_id,
        tenant_id: auth.tenant_id,
        caller_context: None,
    }
}

/// The input of a task: what the user gives, over the variables of the tenant. Where these cannot
/// be had, or one of them has no value, it is what the user gives alone.
pub open spec fn task_context(
    key: Seq<u8>,
    tenant_vars: Option<Seq<crate::variable::VariableView>>,
    given: Option<JsonView>,
) -> JsonView {
    let user = match given {
        Some(c) => c,
        None => JsonView::Object(Map::empty()),
    };
    match tenant_vars {
        Some(vars) => match standalone_context(key, vars, user) {
            Ok(c) => c,
            Err(_) => user,
        },
        None => user,
    }
}

/// What users do with tasks.
pub struct TaskUsecase {
    pub variable_service: VariableService,
    pub auth_service: AuthService,
}

impl TaskUsecase {
    pub fn new(variable_service: VariableService, auth_service: AuthService) -> (r: Self)
        ensures
            r.variable_service == variable_service,
            r.auth_service == auth_service,
    {
        TaskUsecase { variable_service, auth_service }
    }

    /// Whether somebody may list task instances.
    pub fn list_instances(&self, auth: &AuthContext) -> (r: Result<(), String>)
        ensures
            permitted(auth@, Permission::ReadOnly, r),
    {
        self.auth_service.authorize(auth, &Permission::ReadOnly)
    }

    /// The tenant that a task instance is looked for in.
    pub fn get_instance(&self, auth: &AuthContext) -> (r: Result<String, String>)
        ensures
            permitted(auth@, Permission::ReadOnly, r),
            r matches Ok(t) ==> t@ == auth@.tenant_id,
    {
        match self.auth_service.authorize(auth, &Permission::ReadOnly) {
            Ok(_) => Ok(auth.tenant_id.clone()),
            Err(e) => Err(e),
        }
    }

    /// Whether somebody may have a task instance run again.
    pub fn retry_instance(&self, auth: &AuthContext) -> (r: Result<(), String>)
        ensures
            permitted(auth@, Permission::InstanceExecute, r),
    {
        self.auth_service.authorize(auth, &Permission::InstanceExecute)
    }

    /// The input of a task.
    fn context_for(&self, tenant_vars: &Option<Vec<VariableEntity>>, given: Option<Json>) -> (r: Json)
        ensures
            r@ == task_context(
                self.variable_service.secret_key(),
                match tenant_vars {
                    Some(v) => Some(variables(v@)),
                    None => None,
                },
                crate::json::opt_json(given),
            ),
    {
        let user = match given {
            Some(c) => c,
            None => Json::empty_object(),
        };
        match tenant_vars {
            Some(vars) => match self.variable_service.resolve_standalone_context(vars, &user) {
                Ok(c) => c,
                Err(_) => user,
            },
            None => user,
        }
    }

    /// The instance of the task with a name, and the job that runs it. `tasks` are the tasks of the
    /// tenant, or why they could not be listed; `tenant_vars` are its variables, where they could
    /// be had.
    pub fn execute_task_by_name_as(
        &self,
        auth: &AuthContext,
        tasks: Result<Vec<TaskEntity>, String>,
        task_name: &str,
        context: Option<Json>,
        tenant_vars: &Option<Vec<VariableEntity>>,
        id: String,
        instance_id: String,
        at: Timestamp,
    ) -> (r: Result<(TaskInstanceEntity, ExecuteTaskJob), String>)
        ensures
            match (refusal(auth@, Permission::InstanceExecute), tasks, r) {
                (Some(why), _, Err(e)) => e@ == why,
                (None, Err(why), Err(e)) => e@ == Operation::ListTasks.failed_to() + why@,
                (None, Ok(list), Err(e)) => task_place(list@, task_name@) is None && e@
                    == "task not found: "@ + task_name@,
                (None, Ok(list), Ok((instance, job))) => match task_place(list@, task_name@) {
                    Some(i) => {
                        &&& instance@ == new_task_instance(
                            auth@,
                            list@[i],
                            task_context(
                                self.variable_service.secret_key(),
                                match tenant_vars {
                                    Some(v) => Some(variables(v@)),
                                    None => None,
                                },
                                crate::json::opt_json(context),
                            ),
                            id@,
                            instance_id@,
                            at,
                        )
                        &&& job@ == task_run_job(auth@, instance_id@)
                    },
                    None => false,
                },
                _ => false,
            },
    {
        if let Err(e) = self.auth_service.authorize(auth, &Permission::InstanceExecute) {
            return Err(e);
        }
        let list = match tasks {
            Ok(l) => l,
            Err(why) => {
                let op = Operation::ListTasks;
                return Err(op.failure(why.as_str()));
            },
        };
        let mut i: usize = 0;
        while i < list.len()
            invariant_except_break
                i <= list@.len(),
                forall|j: int| 0 <= j < i ==> (#[trigger] list@[j]).name@ != task_name@,
            ensures
                i <= list@.len(),
                forall|j: int| 0 <= j < i ==> (#[trigger] list@[j]).name@ != task_name@,
                i < list@.len() ==> list@[i as int].name@ == task_name@,
            decreases list@.len() - i,
        {
            if same(list[i].name.as_str(), task_name) {
                break;
            }
            i = i + 1;
        }
        proof {
            lemma_task_place(list@, task_name@, i as int);
        }
        if i == list.len() {
            return Err(concat2("task not found: ", task_name));
        }
        let input = self.context_for(tenant_vars, context);
        let task = &list[i];
        let instance = TaskInstanceEntity {
            id,
            tenant_id: auth.tenant_id.clone(),
            task_id: task.id.clone(),
            task_name: task.name.clone(),
            task_type: task.task_type,
            task_template: task.task_template.clone(),
            task_status: TaskInstanceStatus::Pending,
            task_instance_id: instance_id.clone(),
            created_at: at,
            updated_at: at,
            deleted_at: None,
            input: Some(input),
            output: None,
            error_message: None,
            execution_duration: None,
            caller_context: None,
        };
        let job = ExecuteTaskJob {
            task_instance_id: instance_id,
            tenant_id: auth.tenant_id.clone(),
            caller_context: None,
        };
        Ok((instance, job))
    }

    /// The instance of the task with a name, and the job that runs it, with fresh identifiers, made
    /// now. See [`TaskUsecase::execute_task_by_name_as`].
    pub fn execute_task_by_name(
        &self,
        auth: &AuthContext,
        tasks: Result<Vec<TaskEntity>, String>,
        task_name: &str,
        context: Option<Json>,
        tenant_vars: &Option<Vec<VariableEntity>>,
    ) -> (r: Result<(TaskInstanceEntity, ExecuteTaskJob), String>)
        ensures
            match (refusal(auth@, Permission::InstanceExecute), tasks, r) {
                (Some(why), _, Err(e)) => e@ == why,
                (None, Err(why), Err(e)) => e@ == Operation::ListTasks.failed_to() + why@,
                (None, Ok(list), Err(e)) => task_place(list@, task_name@) is None && e@
                    == "task not found: "@ + task_name@,
                (None, Ok(list), Ok((instance, job))) => match task_place(list@, task_name@) {
                    Some(i) => {
                        &&& instance@ == new_task_instance(
                            auth@,
                            list@[i],
                            task_context(
                                self.variable_service.secret_key(),
                                match tenant_vars {
                                    Some(v) => Some(variables(v@)),
                                    None => None,
                                },
                                crate::json::opt_json(context),
                            ),
                            instance@.id,
                            instance@.task_instance_id,
                            instance@.created_at,
                        )
                        &&& job@ == task_run_job(auth@, instance@.task_instance_id)
                        &&& instance@.id.len() == 36
                        &&& instance@.task_instance_id.len() == 36
                    },
                    None => false,
                },
                _ => false,
            },
    {
        self.execute_task_by_name_as(
            auth,
            tasks,
            task_name,
            context,
            tenant_vars,
            new_id(),
            new_id(),
            now(),
        )
    }
}

/// The callback of a node that somebody skips.
pub open spec fn skip_callback(
    instance: crate::entity::InstanceView,
    node_id: Seq<char>,
    child_task_id: Seq<char>,
    output: JsonView,
) -> WorkflowJobView {
    WorkflowJobView {
        workflow_instance_id: instance.workflow_instance_id,
        tenant_id: instance.tenant_id,
        event: EventView::NodeCallback {
            node_id,
            child_task_id,
            status: NodeExecutionStatus::Skipped,
            output: Some(output),
            error_message: None,
            input: None,
        },
    }
}

/// What users do with workflows.
pub struct WorkflowUsecase {
    pub auth_service: AuthService,
}

impl WorkflowUsecase {
    pub fn new(auth_service: AuthService) -> (r: Self)
        ensures
            r.auth_service == auth_service,
    {
        WorkflowUsecase { auth_service }
    }

    /// The tenant that somebody may read in.
    fn readable_tenant(&self, auth: &AuthContext) -> (r: Result<String, String>)
        ensures
            permitted(auth@, Permission::ReadOnly, r),
            r matches Ok(t) ==> t@ == auth@.tenant_id,
    {
        match self.auth_service.authorize(auth, &Permission::ReadOnly) {
            Ok(_) => Ok(auth.tenant_id.clone()),
            Err(e) => Err(e),
        }
    }

    /// The tenant whose instances are to be listed.
    pub fn list_instances(&self, auth: &AuthContext) -> (r: Result<String, String>)
        ensures
            permitted(auth@, Permission::ReadOnly, r),
            r matches Ok(t) ==> t@ == auth@.tenant_id,
    {
        self.readable_tenant(auth)
    }

    /// The tenant that an instance is looked for in.
    pub fn get_instance(&self, auth: &AuthContext) -> (r: Result<String, String>)
        ensures
            permitted(auth@, Permission::ReadOnly, r),
            r matches Ok(t) ==> t@ == auth@.tenant_id,
    {
        self.readable_tenant(auth)
    }

    /// The tenant whose definitions are to be listed.
    pub fn list_definitions(&self, auth: &AuthContext) -> (r: Result<String, String>)
        ensures
            permitted(auth@, Permission::ReadOnly, r),
            r matches Ok(t) ==> t@ == auth@.tenant_id,
    {
        self.readable_tenant(auth)
    }

    /// The tenant that a definition is looked for in.
    pub fn get_definition(&self, auth: &AuthContext) -> (r: Result<String, String>)
        ensures
            permitted(auth@, Permission::ReadOnly, r),
            r matches Ok(t) ==> t@ == auth@.tenant_id,
    {
        self.readable_tenant(auth)
    }

    /// Whether somebody may start, cancel, retry or skip.
    pub fn may_execute(&self, auth: &AuthContext) -> (r: Result<(), String>)
        ensures
            permitted(auth@, Permission::InstanceExecute, r),
    {
        self.auth_service.authorize(auth, &Permission::InstanceExecute)
    }

    /// The job that is sent when somebody has an instance run. `started` is the instance as the
    /// service started it, or why it could not.
    pub fn execute_instance(
        &self,
        auth: &AuthContext,
        started: Result<&WorkflowInstanceEntity, String>,
    ) -> (r: Result<ExecuteWorkflowJob, String>)
        ensures
            match (refusal(auth@, Permission::InstanceExecute), started, r) {
                (Some(why), _, Err(e)) => e@ == why,
                (None, Err(why), Err(e)) => e@ == Operation::ExecuteInstance.failed_to() + why@,
                (None, Ok(i), Ok(job)) => job@ == start_job(i@.workflow_instance_id, i@.tenant_id),
                _ => false,
            },
    {
        if let Err(e) = self.may_execute(auth) {
            return Err(e);
        }
        match started {
            Ok(i) => Ok(make_start_job(i.workflow_instance_id.as_str(), i.tenant_id.as_str())),
            Err(why) => {
                let op = Operation::ExecuteInstance;
                Err(op.failure(why.as_str()))
            },
        }
    }

    /// Whether somebody may cancel an instance.
    pub fn cancel_instance(&self, auth: &AuthContext) -> (r: Result<(), String>)
        ensures
            permitted(auth@, Permission::InstanceExecute, r),
    {
        self.may_execute(auth)
    }

    /// Whether somebody may have an instance run again.
    pub fn retry_instance(&self, auth: &AuthContext) -> (r: Result<(), String>)
        ensures
            permitted(auth@, Permission::InstanceExecute, r),
    {
        self.may_execute(auth)
    }

    /// The callback that is sent when somebody skips a node. `skipped` is the instance after the
    /// service skipped the node, or why it could not, and `child_task_id` the task that the node
    /// waits for.
    pub fn skip_node(
        &self,
        auth: &AuthContext,
        skipped: Result<&WorkflowInstanceEntity, String>,
        node_id: &str,
        child_task_id: String,
        output: Json,
    ) -> (r: Result<ExecuteWorkflowJob, String>)
        ensures
            match (refusal(auth@, Permission::InstanceExecute), skipped, r) {
                (Some(why), _, Err(e)) => e@ == why,
                (None, Err(why), Err(e)) => e@ == Operation::SkipNode.failed_to() + why@,
                (None, Ok(i), Err(e)) => node_place(i@.nodes, node_id@) is None && e@
                    == "node not found in instance"@,
                (None, Ok(i), Ok(job)) => node_place(i@.nodes, node_id@) is Some && job@
                    == skip_callback(i@, node_id@, child_task_id@, output@),
                _ => false,
            },
    {
        if let Err(e) = self.may_execute(auth) {
            return Err(e);
        }
        let instance = match skipped {
            Ok(i) => i,
            Err(why) => {
                let op = Operation::SkipNode;
                return Err(op.failure(why.as_str()));
            },
        };
        if instance.find_node(node_id).is_none() {
            return Err(owned("node not found in instance"));
        }
        Ok(
            ExecuteWorkflowJob {
                workflow_instance_id: instance.workflow_instance_id.clone(),
                tenant_id: instance.tenant_id.clone(),
                event: WorkflowEvent::NodeCallback {
                    node_id: owned(node_id),
                    child_task_id,
                    status: NodeExecutionStatus::Skipped,
                    output: Some(output),
                    error_message: None,
                    input: None,
                },
            },
        )
    }
}

/// A viewer starts nothing: whatever the services would answer, they are refused.
pub proof fn law_viewers_start_nothing(auth: AuthView)
    requires
        !auth.is_super_admin,
        auth.role == Some(crate::user::TenantRole::Viewer),
    ensures
        refusal(auth, Permission::InstanceExecute) == Some("insufficient permissions"@),
        refusal(auth, Permission::ApprovalDecide) == Some("insufficient permissions"@),
        refusal(auth, Permission::ReadOnly) is None,
{
}

/// A task that is asked for by name is the first one with that name; there is none exactly where no
/// task has it.
pub proof fn law_the_first_task_with_a_name_is_taken(tasks: Seq<TaskEntity>, name: Seq<char>)
    ensures
        match task_place(tasks, name) {
            Some(i) => 0 <= i < tasks.len() && tasks[i].name@ == name && (forall|j: int|
                0 <= j < i ==> (#[trigger] tasks[j]).name@ != name),
            None => forall|j: int| 0 <= j < tasks.len() ==> (#[trigger] tasks[j]).name@ != name,
        },
    decreases tasks.len(),
{
    if tasks.len() > 0 {
        let front = tasks.drop_last();
        law_the_first_task_with_a_name_is_taken(front, name);
        assert forall|j: int| 0 <= j < front.len() implies front[j] == tasks[j] by {}
        match task_place(front, name) {
            Some(i) => {
                assert forall|j: int| 0 <= j < i implies (#[trigger] tasks[j]).name@ != name by {
                    assert(front[j].name@ != name);
                }
            },
            None => {
                assert forall|j: int| 0 <= j < front.len() implies (#[trigger] tasks[j]).name@
                    != name by {
                    assert(front[j].name@ != name);
                }
            },
        }
    }
}

/// The instance of a task that somebody runs is the task's, for that person's tenant: it has the
/// task's template and name and the given input, waits to be run, and the job that runs it names it.
pub proof fn law_an_instance_is_its_tasks(
    auth: AuthView,
    task: TaskEntity,
    context: JsonView,
    id: Seq<char>,
    instance_id: Seq<char>,
    at: Timestamp,
)
    ensures
        ({
            let made = new_task_instance(auth, task, context, id, instance_id, at);
            let job = task_run_job(auth, instance_id);
            &&& made.id == id
            &&& made.tenant_id == auth.tenant_id
            &&& made.task_id == task.id@
            &&& made.task_name == task.name@
            &&& made.task_type == task.task_type
            &&& made.task_template == task.task_template@
            &&& made.task_status is Pending
            &&& made.input == Some(context)
            &&& made.output is None
            &&& made.error_message is None
            &&& made.execution_duration is None
            &&& made.deleted_at is None
            &&& made.created_at == at
            &&& made.updated_at == at
            &&& made.task_instance_id == job.task_instance_id
            &&& made.task_instance_id == instance_id
            &&& made.tenant_id == job.tenant_id
            &&& made.caller_context is None
            &&& job.caller_context is None
        }),
{
}

/// What a task is run with under a name: what the user gives, or else the tenant's variable; where
/// the variables cannot be had, it is what the user gives alone.
pub proof fn law_a_task_runs_with_what_is_given(
    key: Seq<u8>,
    tenant_vars: Option<Seq<crate::variable::VariableView>>,
    given: JsonView,
    name: Seq<char>,
)
    ensures
        given.field(name) is Some ==> task_context(key, tenant_vars, Some(given)).field(name)
            == given.field(name),
        tenant_vars is None ==> task_context(key, tenant_vars, Some(given)) == given,
        tenant_vars is None ==> task_context(key, tenant_vars, None).field(name) is None,
        tenant_vars matches Some(vars) ==> (standalone_context(key, vars, given) matches Ok(c)
            ==> task_context(key, tenant_vars, Some(given)) == c),
        tenant_vars matches Some(vars) ==> (standalone_context(key, vars, given) is Err
            ==> task_context(key, tenant_vars, Some(given)) == given),
{
    if let Some(vars) = tenant_vars {
        crate::variable::law_what_the_user_gives_counts_first(key, vars, given, name, 0);
    }
}

/// Skipping a node tells the node that it was skipped, for the child that it waits for, with the
/// output that was given.
pub proof fn law_a_skip_is_a_callback(
    instance: crate::entity::InstanceView,
    node: Seq<char>,
    child: Seq<char>,
    given: JsonView,
)
    ensures
        ({
            let job = skip_callback(instance, node, child, given);
            &&& job.workflow_instance_id == instance.workflow_instance_id
            &&& job.tenant_id == instance.tenant_id
            &&& job.event matches EventView::NodeCallback {
                node_id,
                child_task_id,
                status,
                output,
                error_message,
                ..
            }
            &&& node_id == node
            &&& child_task_id == child
            &&& status is Skipped
            &&& output == Some(given)
            &&& error_message is None
        }),
{
}

/// Whoever asks for something gets it exactly if nothing speaks against it, and else hears why.
pub proof fn law_a_request_is_granted_or_told_why<T>(
    auth: AuthView,
    perm: Permission,
    r: Result<T, String>,
)
    requires
        permitted(auth, perm, r),
    ensures
        r is Ok <==> refusal(auth, perm) is None,
        r matches Err(e) ==> refusal(auth, perm) == Some(e@),
        auth.is_super_admin ==> r is Ok,
        !auth.is_super_admin && auth.role is None ==> r is Err,
{
}

} // verus!
