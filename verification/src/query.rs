//! What instances are looked for, in which order, and which page of them.

use crate::json::{json_number, json_text, number, put_str, Json, JsonView};
use crate::shared::{TaskInstanceStatus, WorkflowInstanceStatus};
use crate::text::{concat2, same};
use vstd::prelude::*;

verus! {

/// A page, counted from one, and its size.
#[derive(Clone, Copy, Debug, PartialEq, Eq, Structural)]
pub struct Pagination {
    pub page: u64,
    pub page_size: u64,
}

/// The field that is sorted by, and the direction.
#[derive(Debug)]
pub struct SortParams {
    pub sort_by: String,
    pub sort_order: String,
}

/// Task instances that are looked for.
#[derive(Debug)]
pub struct TaskInstanceQuery {
    pub tenant_id: String,
    pub task_id: Option<String>,
    pub status: Option<TaskInstanceStatus>,
    pub sort: SortParams,
    pub pagination: Pagination,
}

/// Workflow instances that are looked for.
#[derive(Debug)]
pub struct WorkflowInstanceQuery {
    pub tenant_id: String,
    pub workflow_meta_id: Option<String>,
    pub version: Option<u32>,
    pub status: Option<WorkflowInstanceStatus>,
    pub sort: SortParams,
    pub pagination: Pagination,
}

/// What the database is asked for.
#[derive(Debug)]
pub struct FindPlan {
    pub filter: Json,
    pub sort_by: String,
    /// `1` for ascending, `-1` for descending.
    pub order: i32,
    pub skip: u64,
    pub limit: u64,
}

/// The order that a sort asks for: ascending only if it says so.
pub open spec fn order_of(sort_order: Seq<char>) -> i32 {
    if sort_order == "asc"@ {
        1
    } else {
        (-1) as i32
    }
}

/// The order that a sort asks for.
pub fn sort_direction(sort_order: &str) -> (r: i32)
    ensures
        r == order_of(sort_order@),
{
    if same(sort_order, "asc") {
        1
    } else {
        -1
    }
}

/// Whether a field of task instances may be sorted by.
pub open spec fn task_sort_field(field: Seq<char>) -> bool {
    field == "created_at"@ || field == "updated_at"@ || field == "status"@ || field == "task_id"@
}

/// Whether a field of workflow instances may be sorted by.
pub open spec fn workflow_sort_field(field: Seq<char>) -> bool {
    field == "created_at"@ || field == "updated_at"@ || field == "status"@ || field
        == "workflow_meta_id"@ || field == "workflow_version"@
}

/// The error of a field that may not be sorted by.
pub open spec fn invalid_sort(field: Seq<char>) -> Seq<char> {
    "invalid sort field: "@ + field
}

/// Whether a field of task instances may be sorted by.
pub fn validate_task_sort_field(field: &str) -> (r: Result<(), String>)
    ensures
        match r {
            Ok(_) => task_sort_field(field@),
            Err(e) => !task_sort_field(field@) && e@ == invalid_sort(field@),
        },
{
    if same(field, "created_at") || same(field, "updated_at") || same(field, "status") || same(
        field,
        "task_id",
    ) {
        Ok(())
    } else {
        Err(concat2("invalid sort field: ", field))
    }
}

/// Whether a field of workflow instances may be sorted by.
pub fn validate_workflow_sort_field(field: &str) -> (r: Result<(), String>)
    ensures
        match r {
            Ok(_) => workflow_sort_field(field@),
            Err(e) => !workflow_sort_field(field@) && e@ == invalid_sort(field@),
        },
{
    if same(field, "created_at") || same(field, "updated_at") || same(field, "status") || same(
        field,
        "workflow_meta_id",
    ) || same(field, "workflow_version") {
        Ok(())
    } else {
        Err(concat2("invalid sort field: ", field))
    }
}

/// A map with one more entry, if there is a value for it.
pub open spec fn also(
    m: Map<Seq<char>, JsonView>,
    key: Seq<char>,
    value: Option<JsonView>,
) -> Map<Seq<char>, JsonView> {
    match value {
        Some(v) => m.insert(key, v),
        None => m,
    }
}

/// The text of an optional string as JSON has it.
pub open spec fn maybe_text(s: Option<String>) -> Option<JsonView> {
    match s {
        Some(t) => Some(JsonView::Str(t@)),
        None => None,
    }
}

/// What task instances have to be to be found.
pub open spec fn task_filter(query: TaskInstanceQuery) -> JsonView {
    JsonView::Object(
        also(
            also(
                map!["tenant_id"@ => JsonView::Str(query.tenant_id@)],
                "task_id"@,
                maybe_text(query.task_id),
            ),
            "task_status"@,
            match query.status {
                Some(s) => Some(JsonView::Str(s.label())),
                None => None,
            },
        ),
    )
}

/// What workflow instances have to be to be found.
pub open spec fn workflow_filter(query: WorkflowInstanceQuery) -> JsonView {
    JsonView::Object(
        also(
            also(
                also(
                    map!["tenant_id"@ => JsonView::Str(query.tenant_id@)],
                    "workflow_meta_id"@,
                    maybe_text(query.workflow_meta_id),
                ),
                "workflow_version"@,
                match query.version {
                    Some(v) => Some(number(v as u64)),
                    None => None,
                },
            ),
            "status"@,
            match query.status {
                Some(s) => Some(JsonView::Str(s.label())),
                None => None,
            },
        ),
    )
}

/// Whether the start of a page can be counted.
pub open spec fn countable(p: Pagination) -> bool {
    1 <= p.page && (p.page - 1) * p.page_size <= u64::MAX
}

/// Whether the start of a page can be counted.
pub fn is_countable(p: &Pagination) -> (r: bool)
    ensures
        r == countable(*p),
{
    if p.page < 1 {
        return false;
    }
    match (p.page - 1).checked_mul(p.page_size) {
        Some(_) => true,
        None => false,
    }
}

/// How many instances come before a page.
pub fn skipped(p: &Pagination) -> (r: u64)
    requires
        countable(*p),
    ensures
        r == (p.page - 1) * p.page_size,
{
    (p.page - 1) * p.page_size
}

/// Whether a plan asks for what a query asks for.
pub open spec fn plan_for(
    plan: FindPlan,
    filter: JsonView,
    sort: SortParams,
    pagination: Pagination,
) -> bool {
    &&& plan.filter@ == filter
    &&& plan.sort_by@ == sort.sort_by@
    &&& plan.order == order_of(sort.sort_order@)
    &&& plan.skip == (pagination.page - 1) * pagination.page_size
    &&& plan.limit == pagination.page_size
}

/// What the database is asked for when task instances are listed. A field that may not be sorted by
/// is an error.
pub fn list_task_instances(query: &TaskInstanceQuery) -> (r: Result<FindPlan, String>)
    requires
        countable(query.pagination),
    ensures
        match r {
            Ok(p) => task_sort_field(query.sort.sort_by@) && plan_for(
                p,
                task_filter(*query),
                query.sort,
                query.pagination,
            ),
            Err(e) => !task_sort_field(query.sort.sort_by@) && e@ == invalid_sort(
                query.sort.sort_by@,
            ),
        },
{
    let mut e: Vec<(String, Json)> = Vec::new();
    put_str(&mut e, "tenant_id", Json::Str(query.tenant_id.clone()));
    if let Some(task_id) = &query.task_id {
        put_str(&mut e, "task_id", Json::Str(task_id.clone()));
    }
    if let Some(status) = &query.status {
        put_str(&mut e, "task_status", json_text(status.name()));
    }
    if let Err(why) = validate_task_sort_field(query.sort.sort_by.as_str()) {
        return Err(why);
    }
    Ok(
        FindPlan {
            filter: Json::Object(e),
            sort_by: query.sort.sort_by.clone(),
            order: sort_direction(query.sort.sort_order.as_str()),
            skip: skipped(&query.pagination),
            limit: query.pagination.page_size,
        },
    )
}

/// What the database is asked for when workflow instances are listed. A field that may not be
/// sorted by is an error.
pub fn list_workflow_instances(query: &WorkflowInstanceQuery) -> (r: Result<FindPlan, String>)
    requires
        countable(query.pagination),
    ensures
        match r {
            Ok(p) => workflow_sort_field(query.sort.sort_by@) && plan_for(
                p,
                workflow_filter(*query),
                query.sort,
                query.pagination,
            ),
            Err(e) => !workflow_sort_field(query.sort.sort_by@) && e@ == invalid_sort(
                query.sort.sort_by@,
            ),
        },
{
    let mut e: Vec<(String, Json)> = Vec::new();
    put_str(&mut e, "tenant_id", Json::Str(query.tenant_id.clone()));
    if let Some(id) = &query.workflow_meta_id {
        put_str(&mut e, "workflow_meta_id", Json::Str(id.clone()));
    }
    if let Some(version) = query.version {
        put_str(&mut e, "workflow_version", json_number(version as u64));
    }
    if let Some(status) = &query.status {
        put_str(&mut e, "status", json_text(status.name()));
    }
    if let Err(why) = validate_workflow_sort_field(query.sort.sort_by.as_str()) {
        return Err(why);
    }
    Ok(
        FindPlan {
            filter: Json::Object(e),
            sort_by: query.sort.sort_by.clone(),
            order: sort_direction(query.sort.sort_order.as_str()),
            skip: skipped(&query.pagination),
            limit: query.pagination.page_size,
        },
    )
}

/// Whatever is asked for, only the instances of the query's tenant are looked at.
pub proof fn law_queries_stay_in_their_tenant(
    tasks: TaskInstanceQuery,
    workflows: WorkflowInstanceQuery,
)
    ensures
        task_filter(tasks).field("tenant_id"@) == Some(JsonView::Str(tasks.tenant_id@)),
        workflow_filter(workflows).field("tenant_id"@) == Some(JsonView::Str(workflows.tenant_id@)),
{
    reveal_strlit("tenant_id");
    reveal_strlit("task_id");
    reveal_strlit("task_status");
    reveal_strlit("workflow_meta_id");
    reveal_strlit("workflow_version");
    reveal_strlit("status");
    assert("tenant_id"@[1] == 'e' && "task_id"@[1] == 'a' && "task_status"@[1] == 'a'
        && "workflow_meta_id"@[1] == 'o' && "workflow_version"@[1] == 'o' && "status"@[1] == 't');
}

/// Two pages of one size share nothing, and leave nothing out between them: the later page starts
/// where the earlier one ends.
pub proof fn law_pages_follow_each_other(page: u64, size: u64)
    requires
        countable(Pagination { page, page_size: size }),
        page < u64::MAX,
    ensures
        (page + 1 - 1) * size == (page - 1) * size + size,
{
    assert((page + 1 - 1) * size == (page - 1) * size + size) by (nonlinear_arith);
}

/// What task instances have to be to be found is what the query names and nothing else.
pub proof fn law_a_task_query_asks_for_what_it_names(query: TaskInstanceQuery)
    ensures
        ({
            let filter = task_filter(query);
            &&& match query.task_id {
                Some(id) => filter.field("task_id"@) == Some(JsonView::Str(id@)),
                None => filter.field("task_id"@) is None,
            }
            &&& match query.status {
                Some(s) => filter.field("task_status"@) == Some(JsonView::Str(s.label())),
                None => filter.field("task_status"@) is None,
            }
            &&& forall|key: Seq<char>|
                key != "tenant_id"@ && key != "task_id"@ && key != "task_status"@
                    ==> #[trigger] filter.field(key) is None
        }),
{
    reveal_strlit("tenant_id");
    reveal_strlit("task_id");
    reveal_strlit("task_status");
    assert("tenant_id"@.len() == 9 && "task_id"@.len() == 7 && "task_status"@.len() == 11);
}

/// What workflow instances have to be to be found is what the query names and nothing else.
pub proof fn law_a_workflow_query_asks_for_what_it_names(query: WorkflowInstanceQuery)
    ensures
        ({
            let filter = workflow_filter(query);
            &&& match query.workflow_meta_id {
                Some(id) => filter.field("workflow_meta_id"@) == Some(JsonView::Str(id@)),
                None => filter.field("workflow_meta_id"@) is None,
            }
            &&& match query.version {
                Some(v) => filter.field("workflow_version"@) == Some(number(v as u64)),
                None => filter.field("workflow_version"@) is None,
            }
            &&& match query.status {
                Some(s) => filter.field("status"@) == Some(JsonView::Str(s.label())),
                None => filter.field("status"@) is None,
            }
            &&& forall|key: Seq<char>|
                key != "tenant_id"@ && key != "workflow_meta_id"@ && key != "workflow_version"@
                    && key != "status"@ ==> #[trigger] filter.field(key) is None
        }),
{
    reveal_strlit("tenant_id");
    reveal_strlit("workflow_meta_id");
    reveal_strlit("workflow_version");
    reveal_strlit("status");
    assert("tenant_id"@.len() == 9 && "workflow_meta_id"@.len() == 16 && "workflow_version"@.len()
        == 16 && "status"@.len() == 6);
    assert("workflow_meta_id"@[9] == 'm' && "workflow_version"@[9] == 'v');
}

/// A plan skips the pages before the one that is asked for and takes no more than a page; it is
/// ascending exactly if that is asked for.
pub proof fn law_a_plan_takes_one_page(
    plan: FindPlan,
    filter: JsonView,
    sort: SortParams,
    pagination: Pagination,
)
    requires
        plan_for(plan, filter, sort, pagination),
        countable(pagination),
    ensures
        plan.limit == pagination.page_size,
        pagination.page == 1 ==> plan.skip == 0,
        plan.skip + plan.limit == pagination.page * pagination.page_size,
        plan.order == 1 <==> sort.sort_order@ == "asc"@,
        plan.order == 1 || plan.order == -1,
        plan.sort_by@ == sort.sort_by@,
        plan.filter@ == filter,
{
    assert((pagination.page - 1) * pagination.page_size + pagination.page_size == pagination.page
        * pagination.page_size) by (nonlinear_arith);
    if pagination.page == 1 {
        assert((pagination.page - 1) * pagination.page_size == 0) by (nonlinear_arith)
            requires
                pagination.page == 1,
        ;
    }
}

/// Instances may be sorted by when they were made and changed and by their status; those of tasks by
/// their task as well, and those of workflows by their definition and its version.
pub proof fn law_instances_have_sort_fields(field: Seq<char>)
    ensures
        field == "created_at"@ || field == "updated_at"@ || field == "status"@ ==> task_sort_field(
            field,
        ) && workflow_sort_field(field),
        task_sort_field(field) && workflow_sort_field(field) ==> field == "created_at"@ || field
            == "updated_at"@ || field == "status"@,
        task_sort_field(field) && !workflow_sort_field(field) <==> field == "task_id"@,
        workflow_sort_field(field) && !task_sort_field(field) <==> field == "workflow_meta_id"@
            || field == "workflow_version"@,
{
    reveal_strlit("created_at");
    reveal_strlit("updated_at");
    reveal_strlit("status");
    reveal_strlit("task_id");
    reveal_strlit("workflow_meta_id");
    reveal_strlit("workflow_version");
    assert("created_at"@.len() == 10 && "updated_at"@.len() == 10 && "status"@.len() == 6
        && "task_id"@.len() == 7 && "workflow_meta_id"@.len() == 16 && "workflow_version"@.len()
        == 16);
}

} // verus!
