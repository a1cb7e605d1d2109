//! Task templates: what a task of each kind is to do.

use crate::json::{clone_opt_text, Json, JsonNumber, JsonView, NumberView};
use crate::shared::TaskType;
use crate::text::opt_text;
use vstd::prelude::*;

verus! {

/// The method of an HTTP request.
#[derive(Clone, Copy, Debug, PartialEq, Eq, Structural)]
pub enum HttpMethod {
    Get,
    Post,
    Put,
    Delete,
    Head,
}

impl HttpMethod {
    /// The variant's name.
    pub open spec fn label(self) -> Seq<char> {
        match self {
            HttpMethod::Get => "Get"@,
            HttpMethod::Post => "Post"@,
            HttpMethod::Put => "Put"@,
            HttpMethod::Delete => "Delete"@,
            HttpMethod::Head => "Head"@,
        }
    }

    /// The variant's name.
    pub fn name(self) -> (r: &'static str)
        ensures
            r@ == self.label(),
    {
        match self {
            HttpMethod::Get => "Get",
            HttpMethod::Post => "Post",
            HttpMethod::Put => "Put",
            HttpMethod::Delete => "Delete",
            HttpMethod::Head => "Head",
        }
    }
}

/// How a container fills its slots: one by one as they come free, or a whole batch at a time.
#[derive(Clone, Copy, Debug, PartialEq, Eq, Structural)]
pub enum ParallelMode {
    Rolling,
    Batch,
}

impl ParallelMode {
    /// The variant's name.
    pub open spec fn label(self) -> Seq<char> {
        match self {
            ParallelMode::Rolling => "Rolling"@,
            ParallelMode::Batch => "Batch"@,
        }
    }

    /// The variant's name.
    pub fn name(self) -> (r: &'static str)
        ensures
            r@ == self.label(),
    {
        match self {
            ParallelMode::Rolling => "Rolling",
            ParallelMode::Batch => "Batch",
        }
    }
}

/// Whether a rewrite adds to the context or takes its place.
#[derive(Clone, Copy, Debug, PartialEq, Eq, Structural)]
pub enum MergeMode {
    Merge,
    Replace,
}

impl MergeMode {
    /// The variant's name.
    pub open spec fn label(self) -> Seq<char> {
        match self {
            MergeMode::Merge => "Merge"@,
            MergeMode::Replace => "Replace"@,
        }
    }

    /// The variant's name.
    pub fn name(self) -> (r: &'static str)
        ensures
            r@ == self.label(),
    {
        match self {
            MergeMode::Merge => "Merge",
            MergeMode::Replace => "Replace",
        }
    }
}

/// Whether a pause ends by itself.
#[derive(Clone, Copy, Debug, PartialEq, Eq, Structural)]
pub enum PauseMode {
    Auto,
    Manual,
}

impl PauseMode {
    /// The variant's name.
    pub open spec fn label(self) -> Seq<char> {
        match self {
            PauseMode::Auto => "Auto"@,
            PauseMode::Manual => "Manual"@,
        }
    }

    /// The variant's name.
    pub fn name(self) -> (r: &'static str)
        ensures
            r@ == self.label(),
    {
        match self {
            PauseMode::Auto => "Auto",
            PauseMode::Manual => "Manual",
        }
    }
}

/// How many approvers have to agree.
#[derive(Clone, Copy, Debug, PartialEq, Eq, Structural)]
pub enum ApprovalMode {
    Any,
    All,
}

impl ApprovalMode {
    /// The variant's name.
    pub open spec fn label(self) -> Seq<char> {
        match self {
            ApprovalMode::Any => "Any"@,
            ApprovalMode::All => "All"@,
        }
    }

    /// The variant's name.
    pub fn name(self) -> (r: &'static str)
        ensures
            r@ == self.label(),
    {
        match self {
            ApprovalMode::Any => "Any",
            ApprovalMode::All => "All",
        }
    }
}

/// Whether an applicant may approve the own request.
#[derive(Clone, Copy, Debug, PartialEq, Eq, Structural)]
pub enum SelfApprovalPolicy {
    Skip,
    Allow,
}

impl SelfApprovalPolicy {
    /// The variant's name.
    pub open spec fn label(self) -> Seq<char> {
        match self {
            SelfApprovalPolicy::Skip => "Skip"@,
            SelfApprovalPolicy::Allow => "Allow"@,
        }
    }

    /// The variant's name.
    pub fn name(self) -> (r: &'static str)
        ensures
            r@ == self.label(),
    {
        match self {
            SelfApprovalPolicy::Skip => "Skip",
            SelfApprovalPolicy::Allow => "Allow",
        }
    }
}

/// The form in which a language model is asked to answer.
#[derive(Clone, Copy, Debug, PartialEq, Eq, Structural)]
pub enum LlmResponseFormat {
    Text,
    JsonObject,
}

impl LlmResponseFormat {
    /// The variant's name.
    pub open spec fn label(self) -> Seq<char> {
        match self {
            LlmResponseFormat::Text => "Text"@,
            LlmResponseFormat::JsonObject => "JsonObject"@,
        }
    }

    /// The variant's name.
    pub fn name(self) -> (r: &'static str)
        ensures
            r@ == self.label(),
    {
        match self {
            LlmResponseFormat::Text => "Text",
            LlmResponseFormat::JsonObject => "JsonObject",
        }
    }
}

/// Who may approve.
#[derive(Debug, PartialEq, Eq)]
pub enum ApproverRule {
    /// A user, by id.
    User(String),
    /// Every user with a role.
    Role(String),
    /// The user that a variable of the context names.
    ContextVariable(String),
}

/// The mathematical value of an [`ApproverRule`].
pub enum ApproverView {
    User(Seq<char>),
    Role(Seq<char>),
    ContextVariable(Seq<char>),
}

impl View for ApproverRule {
    type V = ApproverView;

    open spec fn view(&self) -> ApproverView {
        match self {
            ApproverRule::User(s) => ApproverView::User(s@),
            ApproverRule::Role(s) => ApproverView::Role(s@),
            ApproverRule::ContextVariable(s) => ApproverView::ContextVariable(s@),
        }
    }
}

impl Clone for ApproverRule {
    fn clone(&self) -> (r: Self)
        ensures
            r == *self,
    {
        match self {
            ApproverRule::User(s) => ApproverRule::User(s.clone()),
            ApproverRule::Role(s) => ApproverRule::Role(s.clone()),
            ApproverRule::ContextVariable(s) => ApproverRule::ContextVariable(s.clone()),
        }
    }
}

/// The values of a list of approver rules.
pub open spec fn approver_rules(s: Seq<ApproverRule>) -> Seq<ApproverView> {
    Seq::new(s.len(), |i: int| s[i]@)
}

fn clone_rules(v: &Vec<ApproverRule>) -> (r: Vec<ApproverRule>)
    ensures
        approver_rules(r@) == approver_rules(v@),
{
    let mut out: Vec<ApproverRule> = Vec::new();
    let mut i: usize = 0;
    while i < v.len()
        invariant
            i <= v@.len(),
            out@.len() == i,
            forall|k: int| 0 <= k < i ==> #[trigger] out@[k]@ == v@[k]@,
        decreases v@.len() - i,
    {
        out.push(v[i].clone());
        i = i + 1;
    }
    assert(approver_rules(out@) =~= approver_rules(v@));
    out
}

/// The value of an optional number.
pub open spec fn opt_number(n: Option<JsonNumber>) -> Option<NumberView> {
    match n {
        Some(x) => Some(x@),
        None => None,
    }
}

fn clone_opt_number(n: &Option<JsonNumber>) -> (r: Option<JsonNumber>)
    ensures
        opt_number(r) == opt_number(*n),
{
    match n {
        Some(x) => Some(x.clone()),
        None => None,
    }
}

/// A named value of a form, a header list or a request body.
#[derive(Debug, PartialEq, Eq)]
pub struct FormField {
    pub key: String,
    pub value: Json,
}

/// The mathematical value of a [`FormField`].
#[verifier::ext_equal]
pub struct FormView {
    pub key: Seq<char>,
    pub value: JsonView,
}

impl View for FormField {
    type V = FormView;

    open spec fn view(&self) -> FormView {
        FormView {
            key: self.key@,
            value: self.value@,
        }
    }
}

impl Clone for FormField {
    fn clone(&self) -> (r: Self)
        ensures
            r@ == self@,
    {
        FormField {
            key: self.key.clone(),
            value: self.value.clone(),
        }
    }
}

/// The values of a list of form fields.
pub open spec fn forms(s: Seq<FormField>) -> Seq<FormView> {
    Seq::new(s.len(), |i: int| s[i]@)
}

fn clone_forms(v: &Vec<FormField>) -> (r: Vec<FormField>)
    ensures
        forms(r@) == forms(v@),
{
    let mut out: Vec<FormField> = Vec::new();
    let mut i: usize = 0;
    while i < v.len()
        invariant
            i <= v@.len(),
            out@.len() == i,
            forall|k: int| 0 <= k < i ==> #[trigger] out@[k]@ == v@[k]@,
        decreases v@.len() - i,
    {
        out.push(v[i].clone());
        i = i + 1;
    }
    assert(forms(out@) =~= forms(v@));
    out
}

/// An HTTP request, with how often and how patiently to try it.
#[derive(Debug, PartialEq, Eq)]
pub struct TaskHttpTemplate {
    pub url: String,
    pub method: HttpMethod,
    pub headers: Vec<FormField>,
    pub body: Vec<FormField>,
    pub form: Vec<FormField>,
    pub retry_count: u32,
    pub retry_delay: u32,
    pub timeout: u32,
    pub success_condition: Option<String>,
}

/// The mathematical value of a [`TaskHttpTemplate`].
#[verifier::ext_equal]
pub struct HttpTemplateView {
    pub url: Seq<char>,
    pub method: HttpMethod,
    pub headers: Seq<FormView>,
    pub body: Seq<FormView>,
    pub form: Seq<FormView>,
    pub retry_count: u32,
    pub retry_delay: u32,
    pub timeout: u32,
    pub success_condition: Option<Seq<char>>,
}

impl View for TaskHttpTemplate {
    type V = HttpTemplateView;

    open spec fn view(&self) -> HttpTemplateView {
        HttpTemplateView {
            url: self.url@,
            method: self.method,
            headers: forms(self.headers@),
            body: forms(self.body@),
            form: forms(self.form@),
            retry_count: self.retry_count,
            retry_delay: self.retry_delay,
            timeout: self.timeout,
            success_condition: opt_text(self.success_condition),
        }
    }
}

impl Clone for TaskHttpTemplate {
    fn clone(&self) -> (r: Self)
        ensures
            r@ == self@,
    {
        TaskHttpTemplate {
            url: self.url.clone(),
            method: self.method,
            headers: clone_forms(&self.headers),
            body: clone_forms(&self.body),
            form: clone_forms(&self.form),
            retry_count: self.retry_count,
            retry_delay: self.retry_delay,
            timeout: self.timeout,
            success_condition: clone_opt_text(&self.success_condition),
        }
    }
}

/// A request to a language model.
#[derive(Debug, PartialEq, Eq)]
pub struct LlmTemplate {
    pub base_url: String,
    pub model: String,
    pub api_key_ref: String,
    pub system_prompt: Option<String>,
    pub user_prompt: String,
    pub temperature: Option<JsonNumber>,
    pub max_tokens: Option<u32>,
    pub timeout: u32,
    pub retry_count: u32,
    pub retry_delay: u32,
    pub response_format: Option<LlmResponseFormat>,
    pub form: Vec<FormField>,
}

/// The mathematical value of a [`LlmTemplate`].
#[verifier::ext_equal]
pub struct LlmTemplateView {
    pub base_url: Seq<char>,
    pub model: Seq<char>,
    pub api_key_ref: Seq<char>,
    pub system_prompt: Option<Seq<char>>,
    pub user_prompt: Seq<char>,
    pub temperature: Option<NumberView>,
    pub max_tokens: Option<u32>,
    pub timeout: u32,
    pub retry_count: u32,
    pub retry_delay: u32,
    pub response_format: Option<LlmResponseFormat>,
    pub form: Seq<FormView>,
}

impl View for LlmTemplate {
    type V = LlmTemplateView;

    open spec fn view(&self) -> LlmTemplateView {
        LlmTemplateView {
            base_url: self.base_url@,
            model: self.model@,
            api_key_ref: self.api_key_ref@,
            system_prompt: opt_text(self.system_prompt),
            user_prompt: self.user_prompt@,
            temperature: opt_number(self.temperature),
            max_tokens: self.max_tokens,
            timeout: self.timeout,
            retry_count: self.retry_count,
            retry_delay: self.retry_delay,
            response_format: self.response_format,
            form: forms(self.form@),
        }
    }
}

impl Clone for LlmTemplate {
    fn clone(&self) -> (r: Self)
        ensures
            r@ == self@,
    {
        LlmTemplate {
            base_url: self.base_url.clone(),
            model: self.model.clone(),
            api_key_ref: self.api_key_ref.clone(),
            system_prompt: clone_opt_text(&self.system_prompt),
            user_prompt: self.user_prompt.clone(),
            temperature: clone_opt_number(&self.temperature),
            max_tokens: self.max_tokens,
            timeout: self.timeout,
            retry_count: self.retry_count,
            retry_delay: self.retry_delay,
            response_format: self.response_format,
            form: clone_forms(&self.form),
        }
    }
}

/// Another workflow, run as one node.
#[derive(Debug, PartialEq, Eq)]
pub struct SubWorkflowTemplate {
    pub workflow_meta_id: String,
    pub workflow_version: u32,
    pub form: Vec<FormField>,
    pub timeout: Option<u32>,
}

/// The mathematical value of a [`SubWorkflowTemplate`].
#[verifier::ext_equal]
pub struct SubWorkflowTemplateView {
    pub workflow_meta_id: Seq<char>,
    pub workflow_version: u32,
    pub form: Seq<FormView>,
    pub timeout: Option<u32>,
}

impl View for SubWorkflowTemplate {
    type V = SubWorkflowTemplateView;

    open spec fn view(&self) -> SubWorkflowTemplateView {
        SubWorkflowTemplateView {
            workflow_meta_id: self.workflow_meta_id@,
            workflow_version: self.workflow_version,
            form: forms(self.form@),
            timeout: self.timeout,
        }
    }
}

impl Clone for SubWorkflowTemplate {
    fn clone(&self) -> (r: Self)
        ensures
            r@ == self@,
    {
        SubWorkflowTemplate {
            workflow_meta_id: self.workflow_meta_id.clone(),
            workflow_version: self.workflow_version,
            form: clone_forms(&self.form),
            timeout: self.timeout,
        }
    }
}

/// A request for approval.
#[derive(Debug, PartialEq, Eq)]
pub struct ApprovalTemplate {
    pub name: String,
    pub title: String,
    pub description: Option<String>,
    pub approvers: Vec<ApproverRule>,
    pub approval_mode: ApprovalMode,
    pub timeout: Option<u64>,
    pub self_approval: SelfApprovalPolicy,
}

/// The mathematical value of a [`ApprovalTemplate`].
#[verifier::ext_equal]
pub struct ApprovalTemplateView {
    pub name: Seq<char>,
    pub title: Seq<char>,
    pub description: Option<Seq<char>>,
    pub approvers: Seq<ApproverView>,
    pub approval_mode: ApprovalMode,
    pub timeout: Option<u64>,
    pub self_approval: SelfApprovalPolicy,
}

impl View for ApprovalTemplate {
    type V = ApprovalTemplateView;

    open spec fn view(&self) -> ApprovalTemplateView {
        ApprovalTemplateView {
            name: self.name@,
            title: self.title@,
            description: opt_text(self.description),
            approvers: approver_rules(self.approvers@),
            approval_mode: self.approval_mode,
            timeout: self.timeout,
            self_approval: self.self_approval,
        }
    }
}

impl Clone for ApprovalTemplate {
    fn clone(&self) -> (r: Self)
        ensures
            r@ == self@,
    {
        ApprovalTemplate {
            name: self.name.clone(),
            title: self.title.clone(),
            description: clone_opt_text(&self.description),
            approvers: clone_rules(&self.approvers),
            approval_mode: self.approval_mode,
            timeout: self.timeout,
            self_approval: self.self_approval,
        }
    }
}

/// A branch on a condition.
#[derive(Debug, PartialEq, Eq)]
pub struct IfConditionTemplate {
    pub name: String,
    pub condition: String,
    pub then_task: Option<String>,
    pub else_task: Option<String>,
}

/// The mathematical value of a [`IfConditionTemplate`].
#[verifier::ext_equal]
pub struct IfConditionTemplateView {
    pub name: Seq<char>,
    pub condition: Seq<char>,
    pub then_task: Option<Seq<char>>,
    pub else_task: Option<Seq<char>>,
}

impl View for IfConditionTemplate {
    type V = IfConditionTemplateView;

    open spec fn view(&self) -> IfConditionTemplateView {
        IfConditionTemplateView {
            name: self.name@,
            condition: self.condition@,
            then_task: opt_text(self.then_task),
            else_task: opt_text(self.else_task),
        }
    }
}

impl Clone for IfConditionTemplate {
    fn clone(&self) -> (r: Self)
        ensures
            r@ == self@,
    {
        IfConditionTemplate {
            name: self.name.clone(),
            condition: self.condition.clone(),
            then_task: clone_opt_text(&self.then_task),
            else_task: clone_opt_text(&self.else_task),
        }
    }
}

/// A script that rewrites the context.
#[derive(Debug, PartialEq, Eq)]
pub struct ContextRewriteTemplate {
    pub name: String,
    pub script: String,
    pub merge_mode: MergeMode,
}

/// The mathematical value of a [`ContextRewriteTemplate`].
#[verifier::ext_equal]
pub struct ContextRewriteTemplateView {
    pub name: Seq<char>,
    pub script: Seq<char>,
    pub merge_mode: MergeMode,
}

impl View for ContextRewriteTemplate {
    type V = ContextRewriteTemplateView;

    open spec fn view(&self) -> ContextRewriteTemplateView {
        ContextRewriteTemplateView {
            name: self.name@,
            script: self.script@,
            merge_mode: self.merge_mode,
        }
    }
}

impl Clone for ContextRewriteTemplate {
    fn clone(&self) -> (r: Self)
        ensures
            r@ == self@,
    {
        ContextRewriteTemplate {
            name: self.name.clone(),
            script: self.script.clone(),
            merge_mode: self.merge_mode,
        }
    }
}

/// A pause.
#[derive(Debug, PartialEq, Eq)]
pub struct PauseTemplate {
    pub wait_seconds: u32,
    pub mode: PauseMode,
}

/// The mathematical value of a [`PauseTemplate`].
#[verifier::ext_equal]
pub struct PauseTemplateView {
    pub wait_seconds: u32,
    pub mode: PauseMode,
}

impl View for PauseTemplate {
    type V = PauseTemplateView;

    open spec fn view(&self) -> PauseTemplateView {
        PauseTemplateView {
            wait_seconds: self.wait_seconds,
            mode: self.mode,
        }
    }
}

impl Clone for PauseTemplate {
    fn clone(&self) -> (r: Self)
        ensures
            r@ == self@,
    {
        PauseTemplate {
            wait_seconds: self.wait_seconds,
            mode: self.mode,
        }
    }
}

/// One task for every item of a list.
#[derive(Debug, PartialEq, Eq)]
pub struct ParallelTemplate {
    pub items_path: String,
    pub item_alias: String,
    pub task_template: Box<TaskTemplate>,
    pub concurrency: u32,
    pub mode: ParallelMode,
    pub max_failures: Option<u32>,
}

/// The mathematical value of a [`ParallelTemplate`].
#[verifier::ext_equal]
pub struct ParallelTemplateView {
    pub items_path: Seq<char>,
    pub item_alias: Seq<char>,
    pub task_template: Box<TaskTemplateView>,
    pub concurrency: u32,
    pub mode: ParallelMode,
    pub max_failures: Option<u32>,
}

/// One task of a [`ForkJoinTemplate`].
#[derive(Debug, PartialEq, Eq)]
pub struct ForkJoinTaskItem {
    pub task_key: String,
    pub task_id: Option<String>,
    pub name: String,
    pub task_template: TaskTemplate,
}

/// The mathematical value of a [`ForkJoinTaskItem`].
#[verifier::ext_equal]
pub struct ForkJoinItemView {
    pub task_key: Seq<char>,
    pub task_id: Option<Seq<char>>,
    pub name: Seq<char>,
    pub task_template: TaskTemplateView,
}

/// Several tasks side by side.
#[derive(Debug, PartialEq, Eq)]
pub struct ForkJoinTemplate {
    pub tasks: Vec<ForkJoinTaskItem>,
    pub concurrency: u32,
    pub mode: ParallelMode,
    pub max_failures: Option<u32>,
}

/// The mathematical value of a [`ForkJoinTemplate`].
#[verifier::ext_equal]
pub struct ForkJoinTemplateView {
    pub tasks: Seq<ForkJoinItemView>,
    pub concurrency: u32,
    pub mode: ParallelMode,
    pub max_failures: Option<u32>,
}

/// What a task is to do.
#[derive(Debug, PartialEq, Eq)]
pub enum TaskTemplate {
    Grpc,
    Http(TaskHttpTemplate),
    Parallel(ParallelTemplate),
    ForkJoin(ForkJoinTemplate),
    SubWorkflow(SubWorkflowTemplate),
    Approval(ApprovalTemplate),
    IfCondition(IfConditionTemplate),
    ContextRewrite(ContextRewriteTemplate),
    Pause(PauseTemplate),
    Llm(LlmTemplate),
}

/// The mathematical value of a [`TaskTemplate`].
#[verifier::ext_equal]
pub enum TaskTemplateView {
    Grpc,
    Http(HttpTemplateView),
    Parallel(ParallelTemplateView),
    ForkJoin(ForkJoinTemplateView),
    SubWorkflow(SubWorkflowTemplateView),
    Approval(ApprovalTemplateView),
    IfCondition(IfConditionTemplateView),
    ContextRewrite(ContextRewriteTemplateView),
    Pause(PauseTemplateView),
    Llm(LlmTemplateView),
}

/// The values of the tasks of a fork.
pub open spec fn fork_items(s: Seq<ForkJoinTaskItem>) -> Seq<ForkJoinItemView>
    decreases s,
{
    if s.len() == 0 {
        Seq::empty()
    } else {
        fork_items(s.subrange(0, s.len() - 1)).push(
            ForkJoinItemView {
                task_key: s[s.len() - 1].task_key@,
                task_id: opt_text(s[s.len() - 1].task_id),
                name: s[s.len() - 1].name@,
                task_template: s[s.len() - 1].task_template.model(),
            },
        )
    }
}

impl TaskTemplate {
    /// The template as mathematics sees it.
    pub open spec fn model(self) -> TaskTemplateView
        decreases self,
    {
        match self {
            TaskTemplate::Grpc => TaskTemplateView::Grpc,
            TaskTemplate::Http(t) => TaskTemplateView::Http(t@),
            TaskTemplate::Parallel(t) => TaskTemplateView::Parallel(
                ParallelTemplateView {
                    items_path: t.items_path@,
                    item_alias: t.item_alias@,
                    task_template: Box::new(t.task_template.model()),
                    concurrency: t.concurrency,
                    mode: t.mode,
                    max_failures: t.max_failures,
                },
            ),
            TaskTemplate::ForkJoin(t) => TaskTemplateView::ForkJoin(
                ForkJoinTemplateView {
                    tasks: fork_items(t.tasks@),
                    concurrency: t.concurrency,
                    mode: t.mode,
                    max_failures: t.max_failures,
                },
            ),
            TaskTemplate::SubWorkflow(t) => TaskTemplateView::SubWorkflow(t@),
            TaskTemplate::Approval(t) => TaskTemplateView::Approval(t@),
            TaskTemplate::IfCondition(t) => TaskTemplateView::IfCondition(t@),
            TaskTemplate::ContextRewrite(t) => TaskTemplateView::ContextRewrite(t@),
            TaskTemplate::Pause(t) => TaskTemplateView::Pause(t@),
            TaskTemplate::Llm(t) => TaskTemplateView::Llm(t@),
        }
    }

    /// The kind of work.
    pub open spec fn kind(self) -> TaskType {
        match self {
            TaskTemplate::Grpc => TaskType::Grpc,
            TaskTemplate::Http(_) => TaskType::Http,
            TaskTemplate::Parallel(_) => TaskType::Parallel,
            TaskTemplate::ForkJoin(_) => TaskType::ForkJoin,
            TaskTemplate::SubWorkflow(_) => TaskType::SubWorkflow,
            TaskTemplate::Approval(_) => TaskType::Approval,
            TaskTemplate::IfCondition(_) => TaskType::IfCondition,
            TaskTemplate::ContextRewrite(_) => TaskType::ContextRewrite,
            TaskTemplate::Pause(_) => TaskType::Pause,
            TaskTemplate::Llm(_) => TaskType::Llm,
        }
    }

    /// The kind of work.
    pub fn task_type(&self) -> (r: TaskType)
        ensures
            r == self.kind(),
            r == self@.kind(),
    {
        match self {
            TaskTemplate::Grpc => TaskType::Grpc,
            TaskTemplate::Http(_) => TaskType::Http,
            TaskTemplate::Parallel(_) => TaskType::Parallel,
            TaskTemplate::ForkJoin(_) => TaskType::ForkJoin,
            TaskTemplate::SubWorkflow(_) => TaskType::SubWorkflow,
            TaskTemplate::Approval(_) => TaskType::Approval,
            TaskTemplate::IfCondition(_) => TaskType::IfCondition,
            TaskTemplate::ContextRewrite(_) => TaskType::ContextRewrite,
            TaskTemplate::Pause(_) => TaskType::Pause,
            TaskTemplate::Llm(_) => TaskType::Llm,
        }
    }
}

impl TaskTemplateView {
    /// The kind of work.
    pub open spec fn kind(self) -> TaskType {
        match self {
            TaskTemplateView::Grpc => TaskType::Grpc,
            TaskTemplateView::Http(_) => TaskType::Http,
            TaskTemplateView::Parallel(_) => TaskType::Parallel,
            TaskTemplateView::ForkJoin(_) => TaskType::ForkJoin,
            TaskTemplateView::SubWorkflow(_) => TaskType::SubWorkflow,
            TaskTemplateView::Approval(_) => TaskType::Approval,
            TaskTemplateView::IfCondition(_) => TaskType::IfCondition,
            TaskTemplateView::ContextRewrite(_) => TaskType::ContextRewrite,
            TaskTemplateView::Pause(_) => TaskType::Pause,
            TaskTemplateView::Llm(_) => TaskType::Llm,
        }
    }
}

impl View for TaskTemplate {
    type V = TaskTemplateView;

    open spec fn view(&self) -> TaskTemplateView {
        self.model()
    }
}

impl View for ForkJoinTaskItem {
    type V = ForkJoinItemView;

    open spec fn view(&self) -> ForkJoinItemView {
        ForkJoinItemView {
            task_key: self.task_key@,
            task_id: opt_text(self.task_id),
            name: self.name@,
            task_template: self.task_template.model(),
        }
    }
}

/// A fork's model has the fork's length, and the value of each task in its place.
pub proof fn lemma_fork_items(s: Seq<ForkJoinTaskItem>)
    ensures
        fork_items(s).len() == s.len(),
        forall|i: int| 0 <= i < s.len() ==> #[trigger] fork_items(s)[i] == s[i]@,
    decreases s.len(),
{
    if s.len() > 0 {
        lemma_fork_items(s.subrange(0, s.len() - 1));
    }
}

impl Clone for TaskTemplate {
    fn clone(&self) -> (r: Self)
        ensures
            r@ == self@,
            r.kind() == self.kind(),
        decreases self,
    {
        match self {
            TaskTemplate::Grpc => TaskTemplate::Grpc,
            TaskTemplate::Http(t) => TaskTemplate::Http(t.clone()),
            TaskTemplate::Parallel(t) => {
                assert(decreases_to!(t => t.task_template));
                assert(decreases_to!(self => self->Parallel_0));
                TaskTemplate::Parallel(
                    ParallelTemplate {
                        items_path: t.items_path.clone(),
                        item_alias: t.item_alias.clone(),
                        task_template: Box::new((&*t.task_template).clone()),
                        concurrency: t.concurrency,
                        mode: t.mode,
                        max_failures: t.max_failures,
                    },
                )
            },
            TaskTemplate::ForkJoin(t) => {
                let mut out: Vec<ForkJoinTaskItem> = Vec::new();
                let mut i: usize = 0;
                while i < t.tasks.len()
                    invariant
                        i <= t.tasks@.len(),
                        out@.len() == i,
                        fork_items(out@) == fork_items(t.tasks@.subrange(0, i as int)),
                        *self == TaskTemplate::ForkJoin(*t),
                    decreases t.tasks@.len() - i,
                {
                    let ghost done = out@;
                    let item = &t.tasks[i];
                    assert(decreases_to!(item => item.task_template));
                    assert(decreases_to!(t.tasks@ => t.tasks@[i as int]));
                    assert(decreases_to!(t.tasks => t.tasks@));
                    assert(decreases_to!(t => t.tasks));
                    assert(decreases_to!(self => self->ForkJoin_0));
                    let template = item.task_template.clone();
                    out.push(
                        ForkJoinTaskItem {
                            task_key: item.task_key.clone(),
                            task_id: clone_opt_text(&item.task_id),
                            name: item.name.clone(),
                            task_template: template,
                        },
                    );
                    i = i + 1;
                    assert(out@.subrange(0, i - 1) =~= done);
                    assert(t.tasks@.subrange(0, i as int).subrange(0, i - 1) =~= t.tasks@.subrange(
                        0,
                        i - 1,
                    ));
                }
                assert(t.tasks@.subrange(0, i as int) =~= t.tasks@);
                TaskTemplate::ForkJoin(
                    ForkJoinTemplate {
                        tasks: out,
                        concurrency: t.concurrency,
                        mode: t.mode,
                        max_failures: t.max_failures,
                    },
                )
            },
            TaskTemplate::SubWorkflow(t) => TaskTemplate::SubWorkflow(t.clone()),
            TaskTemplate::Approval(t) => TaskTemplate::Approval(t.clone()),
            TaskTemplate::IfCondition(t) => TaskTemplate::IfCondition(t.clone()),
            TaskTemplate::ContextRewrite(t) => TaskTemplate::ContextRewrite(t.clone()),
            TaskTemplate::Pause(t) => TaskTemplate::Pause(t.clone()),
            TaskTemplate::Llm(t) => TaskTemplate::Llm(t.clone()),
        }
    }
}

/// A template is of the kind of work that it describes, and so is what mathematics sees of it.
pub proof fn law_a_template_is_of_its_kind(t: TaskTemplate)
    ensures
        t.model().kind() == t.kind(),
        t is Grpc <==> t.kind() is Grpc,
        t is Http <==> t.kind() is Http,
        t is Parallel <==> t.kind() is Parallel,
        t is ForkJoin <==> t.kind() is ForkJoin,
        t is SubWorkflow <==> t.kind() is SubWorkflow,
        t is Approval <==> t.kind() is Approval,
        t is IfCondition <==> t.kind() is IfCondition,
        t is ContextRewrite <==> t.kind() is ContextRewrite,
        t is Pause <==> t.kind() is Pause,
        t is Llm <==> t.kind() is Llm,
{
}

/// The settings of templates have the names that they are told under.
pub proof fn law_settings_have_their_names()
    ensures
        ParallelMode::Rolling.label() == "Rolling"@,
        ParallelMode::Batch.label() == "Batch"@,
        MergeMode::Merge.label() == "Merge"@,
        MergeMode::Replace.label() == "Replace"@,
        PauseMode::Auto.label() == "Auto"@,
        PauseMode::Manual.label() == "Manual"@,
        ApprovalMode::Any.label() == "Any"@,
        ApprovalMode::All.label() == "All"@,
        LlmResponseFormat::Text.label() == "Text"@,
        LlmResponseFormat::JsonObject.label() == "JsonObject"@,
{
}

/// Lists in templates are seen item by item.
pub proof fn law_lists_are_seen_one_by_one(
    rules: Seq<ApproverRule>,
    fields: Seq<FormField>,
    tasks: Seq<ForkJoinTaskItem>,
    i: int,
)
    ensures
        approver_rules(rules).len() == rules.len(),
        0 <= i < rules.len() ==> approver_rules(rules)[i] == rules[i]@,
        forms(fields).len() == fields.len(),
        0 <= i < fields.len() ==> forms(fields)[i].key == fields[i].key@ && forms(fields)[i].value
            == fields[i].value@,
        fork_items(tasks).len() == tasks.len(),
        0 <= i < tasks.len() ==> {
            &&& fork_items(tasks)[i].task_key == tasks[i].task_key@
            &&& fork_items(tasks)[i].task_id == opt_text(tasks[i].task_id)
            &&& fork_items(tasks)[i].task_template == tasks[i].task_template@
        },
{
    lemma_fork_items(tasks);
}

} // verus!
