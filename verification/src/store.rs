//! What is asked of the database when something changes: documents that select what may change, and
//! documents that say how. Every change of an instance counts its epoch up, so that whoever holds
//! an older state cannot write over a newer one.

use crate::entity::{InstanceView, WorkflowInstanceEntity};
use crate::json::{
    json_number, json_pair, json_single, json_text, number, opt_json, put_str, Json, JsonView,
};
use crate::query::{also, maybe_text};
use crate::shared::{TaskInstanceStatus, WorkflowInstanceStatus};
use crate::text::{concat3, decimal, decimal_text};
use crate::time::{
    nanos_since_1970, rfc3339, rfc3339_z, to_rfc3339, to_rfc3339_z, Timestamp, FIRST_SECOND,
};
use vstd::prelude::*;

verus! {

/// The state of a version of a workflow.
#[derive(Clone, Copy, Debug, PartialEq, Eq, Structural)]
pub enum WorkflowStatus {
    Draft,
    Published,
    Archived,
    Deleted,
}

impl WorkflowStatus {
    /// The name of the status.
    pub open spec fn label(self) -> Seq<char> {
        match self {
            WorkflowStatus::Draft => "Draft"@,
            WorkflowStatus::Published => "Published"@,
            WorkflowStatus::Archived => "Archived"@,
            WorkflowStatus::Deleted => "Deleted"@,
        }
    }

    /// The name of the status.
    pub fn name(&self) -> (r: &'static str)
        ensures
            r@ == self.label(),
    {
        match self {
            WorkflowStatus::Draft => "Draft",
            WorkflowStatus::Published => "Published",
            WorkflowStatus::Archived => "Archived",
            WorkflowStatus::Deleted => "Deleted",
        }
    }
}

/// A change: what it may be made to, and what it is.
#[derive(Debug)]
pub struct ChangePlan {
    pub filter: Json,
    pub update: Json,
}

/// The mathematical value of a [`ChangePlan`].
#[verifier::ext_equal]
pub struct ChangeView {
    pub filter: JsonView,
    pub update: JsonView,
}

impl View for ChangePlan {
    type V = ChangeView;

    open spec fn view(&self) -> ChangeView {
        ChangeView { filter: self.filter@, update: self.update@ }
    }
}

/// Whether a document has all the values that a filter of plain values names.
pub open spec fn selects(filter: JsonView, document: JsonView) -> bool {
    match filter {
        JsonView::Object(m) => forall|k: Seq<char>| #[trigger]
            m.contains_key(k) ==> document.field(k) == Some(m[k]),
        _ => false,
    }
}

/// What is written of a task besides its status.
#[derive(Debug)]
pub struct TaskTransitionFields {
    pub output: Option<Json>,
    pub input: Option<Json>,
    pub error_message: Option<String>,
    pub execution_duration: Option<u64>,
}

/// An update that sets fields.
pub open spec fn setting(fields: Map<Seq<char>, JsonView>) -> JsonView {
    JsonView::Object(map!["$set"@ => JsonView::Object(fields)])
}

/// An update that sets fields and counts the epoch up.
pub open spec fn setting_and_counting(fields: Map<Seq<char>, JsonView>) -> JsonView {
    JsonView::Object(
        map!["$set"@ => JsonView::Object(fields), "$inc"@ => JsonView::Object(map!["epoch"@ => number(1)])],
    )
}

/// What is set of a task that moves to a status: its status and the time, and of the other fields
/// those that are given.
pub open spec fn transfer_fields(
    to: TaskInstanceStatus,
    fields: TaskTransitionFields,
    at: Timestamp,
) -> Map<Seq<char>, JsonView> {
    also(
        also(
            also(
                also(
                    map!["task_status"@ => JsonView::Str(to.label()), "updated_at"@ => JsonView::Str(rfc3339(at))],
                    "output"@,
                    opt_json(fields.output),
                ),
                "input"@,
                opt_json(fields.input),
            ),
            "error_message"@,
            maybe_text(fields.error_message),
        ),
        "execution_duration"@,
        match fields.execution_duration {
            Some(d) => Some(number(d)),
            None => None,
        },
    )
}

/// How a task moves from one status to another: only if it is in the first.
pub open spec fn task_transfer(
    id: Seq<char>,
    from: TaskInstanceStatus,
    to: TaskInstanceStatus,
    fields: TaskTransitionFields,
    at: Timestamp,
) -> ChangeView {
    ChangeView {
        filter: JsonView::Object(
            map!["task_instance_id"@ => JsonView::Str(id), "task_status"@ => JsonView::Str(from.label())],
        ),
        update: setting(transfer_fields(to, fields, at)),
    }
}

/// How a task moves from one status to another, at a given time.
pub fn transfer_status_with_fields(
    task_instance_id: &str,
    from_status: &TaskInstanceStatus,
    to_status: &TaskInstanceStatus,
    fields: TaskTransitionFields,
    at: Timestamp,
) -> (r: ChangePlan)
    requires
        at.has_date(),
    ensures
        r@ == task_transfer(task_instance_id@, *from_status, *to_status, fields, at),
{
    let mut f: Vec<(String, Json)> = Vec::new();
    put_str(&mut f, "task_instance_id", json_text(task_instance_id));
    put_str(&mut f, "task_status", json_text(from_status.name()));
    let mut e: Vec<(String, Json)> = Vec::new();
    put_str(&mut e, "task_status", json_text(to_status.name()));
    put_str(&mut e, "updated_at", Json::Str(to_rfc3339(at)));
    if let Some(v) = fields.output {
        put_str(&mut e, "output", v);
    }
    if let Some(v) = fields.input {
        put_str(&mut e, "input", v);
    }
    if let Some(v) = fields.error_message {
        put_str(&mut e, "error_message", Json::Str(v));
    }
    if let Some(d) = fields.execution_duration {
        put_str(&mut e, "execution_duration", json_number(d));
    }
    ChangePlan { filter: Json::Object(f), update: json_single("$set", Json::Object(e)) }
}

/// Why a task could not be moved.
pub fn task_not_in_state(task_instance_id: &str, from_status: &TaskInstanceStatus) -> (r: String)
    ensures
        r@ == "CAS failed: task instance "@ + task_instance_id@ + " not in expected state "@
            + from_status.label(),
{
    let mut e = concat3("CAS failed: task instance ", task_instance_id, " not in expected state ");
    e.append(from_status.name());
    e
}

/// How a version of a workflow moves from one status to another: only if it is in the first.
pub open spec fn version_transfer(
    meta_id: Seq<char>,
    version: u32,
    from: WorkflowStatus,
    to: WorkflowStatus,
    at: Timestamp,
) -> ChangeView {
    ChangeView {
        filter: JsonView::Object(
            map!["workflow_meta_id"@ => JsonView::Str(meta_id), "version"@ => number(version as u64), "status"@ => JsonView::Str(from.label())],
        ),
        update: setting(
            map!["status"@ => JsonView::Str(to.label()), "updated_at"@ => JsonView::Str(rfc3339_z(at))],
        ),
    }
}

/// How a version of a workflow moves from one status to another, at a given time.
pub fn build_wf_status_transition_update(
    workflow_meta_id: &str,
    version: u32,
    from_status: &WorkflowStatus,
    to_status: &WorkflowStatus,
    at: Timestamp,
) -> (r: ChangePlan)
    requires
        at.has_date(),
    ensures
        r@ == version_transfer(workflow_meta_id@, version, *from_status, *to_status, at),
{
    let mut f: Vec<(String, Json)> = Vec::new();
    put_str(&mut f, "workflow_meta_id", json_text(workflow_meta_id));
    put_str(&mut f, "version", json_number(version as u64));
    put_str(&mut f, "status", json_text(from_status.name()));
    let mut e: Vec<(String, Json)> = Vec::new();
    put_str(&mut e, "status", json_text(to_status.name()));
    put_str(&mut e, "updated_at", Json::Str(to_rfc3339_z(at)));
    ChangePlan { filter: Json::Object(f), update: json_single("$set", Json::Object(e)) }
}

/// Why a version could not be moved; nothing if it was.
pub open spec fn transition_failure(matched: u64, modified: u64, version: u32) -> Option<Seq<char>> {
    if matched == 0 {
        Some(
            "cannot transition workflow version "@ + decimal(version as nat)
                + ": not found or not in expected status"@,
        )
    } else if modified == 0 {
        Some("cannot transition workflow version "@ + decimal(version as nat) + ": not modified"@)
    } else {
        None
    }
}

/// Whether a version was moved, by how many documents were found and changed.
pub fn check_transition_result(matched_count: u64, modified_count: u64, version: u32) -> (r: Result<
    (),
    String,
>)
    ensures
        match r {
            Ok(_) => None,
            Err(e) => Some(e@),
        } == transition_failure(matched_count, modified_count, version),
{
    let number = decimal_text(version as u64);
    if matched_count == 0 {
        return Err(
            concat3(
                "cannot transition workflow version ",
                number.as_str(),
                ": not found or not in expected status",
            ),
        );
    }
    if modified_count == 0 {
        return Err(
            concat3("cannot transition workflow version ", number.as_str(), ": not modified"),
        );
    }
    Ok(())
}

/// Whether a version may be written over: only a draft may, and one that is not there yet.
pub fn may_save_version(existing: Option<(u32, WorkflowStatus)>) -> (r: Result<(), String>)
    ensures
        match (existing, r) {
            (None, Ok(_)) => true,
            (Some((_, status)), Ok(_)) => status is Draft,
            (Some((version, status)), Err(e)) => !(status is Draft) && e@
                == "cannot update workflow version "@ + decimal(version as nat) + " (status: "@
                + status.label() + "), only Draft versions can be modified"@,
            (None, Err(_)) => false,
        },
{
    match existing {
        None => Ok(()),
        Some((version, status)) => {
            if matches!(status, WorkflowStatus::Draft) {
                return Ok(());
            }
            let mut e = concat3(
                "cannot update workflow version ",
                decimal_text(version as u64).as_str(),
                " (status: ",
            );
            e.append(status.name());
            e.append("), only Draft versions can be modified");
            Err(e)
        },
    }
}

/// How an instance moves from one status to another: only if it is in the first.
pub open spec fn instance_transfer(
    id: Seq<char>,
    from: WorkflowInstanceStatus,
    to: WorkflowInstanceStatus,
    at: Timestamp,
) -> ChangeView {
    ChangeView {
        filter: JsonView::Object(
            map!["workflow_instance_id"@ => JsonView::Str(id), "status"@ => JsonView::Str(from.label())],
        ),
        update: setting_and_counting(
            map!["status"@ => JsonView::Str(to.label()), "updated_at"@ => JsonView::Str(rfc3339_z(at))],
        ),
    }
}

/// An update that sets fields and counts the epoch up.
fn set_and_count(fields: Vec<(String, Json)>) -> (r: Json)
    ensures
        r@ == setting_and_counting(crate::json::entries_model(fields@)),
{
    let mut u: Vec<(String, Json)> = Vec::new();
    put_str(&mut u, "$set", Json::Object(fields));
    put_str(&mut u, "$inc", json_single("epoch", json_number(1)));
    Json::Object(u)
}

/// How an instance moves from one status to another, at a given time.
pub fn build_transfer_filter_and_update(
    workflow_instance_id: &str,
    from_status: &WorkflowInstanceStatus,
    to_status: &WorkflowInstanceStatus,
    at: Timestamp,
) -> (r: ChangePlan)
    requires
        at.has_date(),
    ensures
        r@ == instance_transfer(workflow_instance_id@, *from_status, *to_status, at),
{
    let mut f: Vec<(String, Json)> = Vec::new();
    put_str(&mut f, "workflow_instance_id", json_text(workflow_instance_id));
    put_str(&mut f, "status", json_text(from_status.name()));
    let mut e: Vec<(String, Json)> = Vec::new();
    put_str(&mut e, "status", json_text(to_status.name()));
    put_str(&mut e, "updated_at", Json::Str(to_rfc3339_z(at)));
    ChangePlan { filter: Json::Object(f), update: set_and_count(e) }
}

/// Why an instance could not be moved.
pub fn instance_not_in_state(
    workflow_instance_id: &str,
    from_status: &WorkflowInstanceStatus,
) -> (r: String)
    ensures
        r@ == "CAS failed: instance "@ + workflow_instance_id@ + " not in expected state "@
            + from_status.label(),
{
    let mut e = concat3("CAS failed: instance ", workflow_instance_id, " not in expected state ");
    e.append(from_status.name());
    e
}

/// What an instance has to be to have lost its worker: it runs or awaits, and has no lock, or one
/// that has run out at the given time.
pub open spec fn zombie_filter(at: Timestamp) -> JsonView {
    JsonView::Object(
        map!["status"@ => JsonView::Object(map!["$in"@ => JsonView::Array(seq![JsonView::Str(WorkflowInstanceStatus::Running.label()), JsonView::Str(WorkflowInstanceStatus::Await.label())])]), "$or"@ => JsonView::Array(seq![JsonView::Object(map!["locked_at"@ => JsonView::Null]), JsonView::Object(map!["$and"@ => JsonView::Array(seq![locked_once(), lock_ran_out(at)])])])],
    )
}

/// What an instance has to be to have a lock.
pub open spec fn locked_once() -> JsonView {
    JsonView::Object(
        map!["locked_at"@ => JsonView::Object(map!["$ne"@ => JsonView::Null])],
    )
}

/// What an instance has to be for its lock to have run out at a given time.
pub open spec fn lock_ran_out(at: Timestamp) -> JsonView {
    JsonView::Object(
        map!["$expr"@ => JsonView::Object(map!["$lt"@ => JsonView::Array(seq![JsonView::Object(map!["$dateAdd"@ => JsonView::Object(map!["startDate"@ => JsonView::Str("$locked_at"@), "unit"@ => JsonView::Str("millisecond"@), "amount"@ => JsonView::Str("$locked_duration"@)])]), JsonView::Str(rfc3339_z(at))])])],
    )
}

/// What an instance has to be to have lost its worker at a given time.
pub fn build_zombie_filter(at: Timestamp) -> (r: Json)
    requires
        at.has_date(),
    ensures
        r@ == zombie_filter(at),
{
    let running = WorkflowInstanceStatus::Running;
    let waiting = WorkflowInstanceStatus::Await;
    let statuses = json_single(
        "$in",
        json_pair(json_text(running.name()), json_text(waiting.name())),
    );
    let mut date: Vec<(String, Json)> = Vec::new();
    put_str(&mut date, "startDate", json_text("$locked_at"));
    put_str(&mut date, "unit", json_text("millisecond"));
    put_str(&mut date, "amount", json_text("$locked_duration"));
    let end = json_single("$dateAdd", Json::Object(date));
    let ran_out = json_single(
        "$expr",
        json_single("$lt", json_pair(end, Json::Str(to_rfc3339_z(at)))),
    );
    let locked = json_single("locked_at", json_single("$ne", Json::Null));
    let both = json_single("$and", json_pair(locked, ran_out));
    let either = json_pair(json_single("locked_at", Json::Null), both);
    let mut f: Vec<(String, Json)> = Vec::new();
    put_str(&mut f, "status", statuses);
    put_str(&mut f, "$or", either);
    Json::Object(f)
}

/// How a worker takes the lock of an instance: only if it has none, or one that was taken before
/// `expired`.
pub open spec fn lock_taken(
    id: Seq<char>,
    worker: Seq<char>,
    duration_ms: u64,
    at: Timestamp,
    expired: Timestamp,
) -> ChangeView {
    ChangeView {
        filter: JsonView::Object(
            map!["workflow_instance_id"@ => JsonView::Str(id), "$or"@ => JsonView::Array(seq![JsonView::Object(map!["locked_at"@ => JsonView::Null]), JsonView::Object(map!["locked_at"@ => JsonView::Object(map!["$lt"@ => JsonView::Str(rfc3339_z(expired))])])])],
        ),
        update: setting_and_counting(
            map!["locked_by"@ => JsonView::Str(worker), "locked_duration"@ => number(duration_ms), "locked_at"@ => JsonView::Str(rfc3339_z(at)), "updated_at"@ => JsonView::Str(rfc3339_z(at))],
        ),
    }
}

/// How a worker takes the lock of an instance for a time, at a given time. A lock that was taken
/// longer ago than that time has run out.
pub fn acquire_lock(
    workflow_instance_id: &str,
    worker_id: &str,
    duration_ms: u64,
    at: Timestamp,
) -> (r: ChangePlan)
    requires
        at.has_date(),
        nanos_since_1970(at) - duration_ms * 1_000_000 >= FIRST_SECOND * 1_000_000_000,
    ensures
        r@ == lock_taken(
            workflow_instance_id@,
            worker_id@,
            duration_ms,
            at,
            at.earlier(duration_ms),
        ),
{
    let expired = match at.minus_millis(duration_ms) {
        Some(t) => t,
        None => at,
    };
    let either = json_pair(
        json_single("locked_at", Json::Null),
        json_single("locked_at", json_single("$lt", Json::Str(to_rfc3339_z(expired)))),
    );
    let mut f: Vec<(String, Json)> = Vec::new();
    put_str(&mut f, "workflow_instance_id", json_text(workflow_instance_id));
    put_str(&mut f, "$or", either);
    let mut e: Vec<(String, Json)> = Vec::new();
    put_str(&mut e, "locked_by", json_text(worker_id));
    put_str(&mut e, "locked_duration", json_number(duration_ms));
    put_str(&mut e, "locked_at", Json::Str(to_rfc3339_z(at)));
    put_str(&mut e, "updated_at", Json::Str(to_rfc3339_z(at)));
    ChangePlan { filter: Json::Object(f), update: set_and_count(e) }
}

/// What is set of an instance that is unlocked.
pub open spec fn unlocked(at: Timestamp) -> Map<Seq<char>, JsonView> {
    map!["locked_by"@ => JsonView::Null, "locked_duration"@ => JsonView::Null, "locked_at"@ => JsonView::Null, "updated_at"@ => JsonView::Str(rfc3339_z(at))]
}

fn unlock(at: Timestamp) -> (r: Json)
    requires
        at.has_date(),
    ensures
        r@ == setting_and_counting(unlocked(at)),
{
    let mut e: Vec<(String, Json)> = Vec::new();
    put_str(&mut e, "locked_by", Json::Null);
    put_str(&mut e, "locked_duration", Json::Null);
    put_str(&mut e, "locked_at", Json::Null);
    put_str(&mut e, "updated_at", Json::Str(to_rfc3339_z(at)));
    set_and_count(e)
}

/// What selects an instance whose lock a worker has.
pub open spec fn holder_filter(id: Seq<char>, worker: Seq<char>) -> JsonView {
    JsonView::Object(
        map!["workflow_instance_id"@ => JsonView::Str(id), "locked_by"@ => JsonView::Str(worker)],
    )
}

/// How a worker gives the lock of an instance back: only if it has it.
pub fn release_lock(workflow_instance_id: &str, worker_id: &str, at: Timestamp) -> (r: ChangePlan)
    requires
        at.has_date(),
    ensures
        r@.filter == holder_filter(workflow_instance_id@, worker_id@),
        r@.update == setting_and_counting(unlocked(at)),
{
    let mut f: Vec<(String, Json)> = Vec::new();
    put_str(&mut f, "workflow_instance_id", json_text(workflow_instance_id));
    put_str(&mut f, "locked_by", json_text(worker_id));
    ChangePlan { filter: Json::Object(f), update: unlock(at) }
}

/// Whether a lock was given back, by how many instances were found.
pub fn lock_released(matched_count: u64, workflow_instance_id: &str, worker_id: &str) -> (r: Result<
    (),
    String,
>)
    ensures
        match r {
            Ok(_) => matched_count > 0,
            Err(e) => matched_count == 0 && e@ == "failed to release lock for instance "@
                + workflow_instance_id@ + " (not held by "@ + worker_id@ + ")"@,
        },
{
    if matched_count == 0 {
        let mut e = concat3(
            "failed to release lock for instance ",
            workflow_instance_id,
            " (not held by ",
        );
        e.append(worker_id);
        e.append(")");
        return Err(e);
    }
    Ok(())
}

/// What selects an instance in the state that somebody holds.
pub open spec fn epoch_filter(id: Seq<char>, epoch: u64) -> JsonView {
    JsonView::Object(map!["workflow_instance_id"@ => JsonView::Str(id), "epoch"@ => number(epoch)])
}

fn make_epoch_filter(id: &str, epoch: u64) -> (r: Json)
    ensures
        r@ == epoch_filter(id@, epoch),
{
    let mut f: Vec<(String, Json)> = Vec::new();
    put_str(&mut f, "workflow_instance_id", json_text(id));
    put_str(&mut f, "epoch", json_number(epoch));
    Json::Object(f)
}

/// An instance as it is written: its epoch is counted up.
pub open spec fn saved(instance: InstanceView, at: Timestamp) -> InstanceView {
    InstanceView { epoch: (instance.epoch + 1) as u64, updated_at: at, ..instance }
}

/// What selects the instance that is to be written over, and the instance that is written, at a
/// given time.
pub fn save_workflow_instance(instance: &WorkflowInstanceEntity, at: Timestamp) -> (r: (
    Json,
    WorkflowInstanceEntity,
))
    requires
        instance@.epoch < u64::MAX,
    ensures
        r.0@ == epoch_filter(instance@.workflow_instance_id, instance@.epoch),
        r.1@ == saved(instance@, at),
{
    let filter = make_epoch_filter(instance.workflow_instance_id.as_str(), instance.epoch);
    let mut update_instance = instance.clone();
    update_instance.epoch = instance.epoch + 1;
    update_instance.updated_at = at;
    (filter, update_instance)
}

/// What comes of writing an instance.
#[derive(Debug, PartialEq, Eq)]
pub enum SaveOutcome {
    /// It was written over the state that was held.
    Saved,
    /// There is none yet: it is to be inserted.
    Insert,
    /// Somebody else wrote first.
    Conflict(String),
}

/// What comes of writing an instance, by how many were found in the state that was held, and how
/// many there are at all.
pub fn handle_cas_failure_or_insert(
    instance: &WorkflowInstanceEntity,
    matched_count: u64,
    existing_count: u64,
) -> (r: SaveOutcome)
    ensures
        match r {
            SaveOutcome::Saved => matched_count > 0,
            SaveOutcome::Insert => matched_count == 0 && existing_count == 0,
            SaveOutcome::Conflict(e) => matched_count == 0 && existing_count > 0 && e@
                == "Optimistic lock failed for workflow "@ + instance@.workflow_instance_id
                + ": expected epoch "@ + decimal(instance@.epoch as nat),
        },
{
    if matched_count > 0 {
        return SaveOutcome::Saved;
    }
    if existing_count == 0 {
        return SaveOutcome::Insert;
    }
    let mut e = concat3(
        "Optimistic lock failed for workflow ",
        instance.workflow_instance_id.as_str(),
        ": expected epoch ",
    );
    e.append(decimal_text(instance.epoch).as_str());
    SaveOutcome::Conflict(e)
}

/// How the lock of an instance is cleared by force: only if nobody has changed the instance since.
pub fn force_clear_lock(workflow_instance_id: &str, expected_epoch: u64, at: Timestamp) -> (r:
    ChangePlan)
    requires
        at.has_date(),
    ensures
        r@.filter == epoch_filter(workflow_instance_id@, expected_epoch),
        r@.update == setting_and_counting(unlocked(at)),
{
    ChangePlan {
        filter: make_epoch_filter(workflow_instance_id, expected_epoch),
        update: unlock(at),
    }
}

/// Whether a lock was cleared, by how many instances were found.
pub fn lock_cleared(matched_count: u64, workflow_instance_id: &str, expected_epoch: u64) -> (r:
    Result<(), String>)
    ensures
        match r {
            Ok(_) => matched_count > 0,
            Err(e) => matched_count == 0 && e@ == "CAS failed: instance "@ + workflow_instance_id@
                + " epoch "@ + decimal(expected_epoch as nat) + " was already modified"@,
        },
{
    if matched_count == 0 {
        let mut e = concat3("CAS failed: instance ", workflow_instance_id, " epoch ");
        e.append(decimal_text(expected_epoch).as_str());
        e.append(" was already modified");
        return Err(e);
    }
    Ok(())
}

/// Of two who hold one state of an instance, only the first to write succeeds: what selects the
/// state does not select the instance as the first has written it, or as any later writer has.
pub proof fn law_a_state_is_written_over_once(id: Seq<char>, held: u64, document: JsonView)
    requires
        document.field("epoch"@) matches Some(v) && (exists|later: u64| later > held && v == #[trigger]
            number(later)),
    ensures
        !selects(epoch_filter(id, held), document),
{
    let filter = epoch_filter(id, held);
    assert(filter->Object_0.contains_key("epoch"@));
    assert(filter->Object_0["epoch"@] == number(held));
}

/// What selects a state selects the instance in that state: a writer who holds the newest one
/// succeeds.
pub proof fn law_the_newest_state_can_be_written_over(id: Seq<char>, held: u64, document: JsonView)
    requires
        document.field("workflow_instance_id"@) == Some(JsonView::Str(id)),
        document.field("epoch"@) == Some(number(held)),
    ensures
        selects(epoch_filter(id, held), document),
{
    reveal_strlit("workflow_instance_id");
    reveal_strlit("epoch");
    assert("workflow_instance_id"@[0] == 'w' && "epoch"@[0] == 'e');
}

/// Of two who move an instance out of one status, only the first succeeds: what selects the instance
/// in that status does not select it in any other.
pub proof fn law_a_status_is_left_once(
    id: Seq<char>,
    from: WorkflowInstanceStatus,
    to: WorkflowInstanceStatus,
    at: Timestamp,
    document: JsonView,
)
    requires
        document.field("status"@) != Some(JsonView::Str(from.label())),
    ensures
        !selects(instance_transfer(id, from, to, at).filter, document),
{
    let filter = instance_transfer(id, from, to, at).filter;
    assert(filter->Object_0.contains_key("status"@));
}

/// A lock is given back only by the worker that has it.
pub proof fn law_only_the_holder_releases(id: Seq<char>, worker: Seq<char>, document: JsonView)
    requires
        document.field("locked_by"@) != Some(JsonView::Str(worker)),
    ensures
        !selects(holder_filter(id, worker), document),
{
    assert(holder_filter(id, worker)->Object_0.contains_key("locked_by"@));
}

/// Of two workers that claim a task, only the first succeeds: what selects the task in a status does
/// not select it in any other.
pub proof fn law_a_task_is_claimed_once(
    id: Seq<char>,
    from: TaskInstanceStatus,
    to: TaskInstanceStatus,
    fields: TaskTransitionFields,
    at: Timestamp,
    document: JsonView,
)
    requires
        document.field("task_status"@) != Some(JsonView::Str(from.label())),
    ensures
        !selects(task_transfer(id, from, to, fields, at).filter, document),
{
    let filter = task_transfer(id, from, to, fields, at).filter;
    assert(filter->Object_0.contains_key("task_status"@));
}

/// A task is moved exactly if it is the one that is named and is in the status that it is to leave;
/// the move sets the new status and the time, and of the rest exactly what is given.
pub proof fn law_a_task_moves_out_of_its_status(
    id: Seq<char>,
    from: TaskInstanceStatus,
    to: TaskInstanceStatus,
    fields: TaskTransitionFields,
    at: Timestamp,
    document: JsonView,
)
    ensures
        ({
            let change = task_transfer(id, from, to, fields, at);
            &&& selects(change.filter, document) <==> document.field("task_instance_id"@) == Some(
                JsonView::Str(id),
            ) && document.field("task_status"@) == Some(JsonView::Str(from.label()))
            &&& change.update.field("$set"@) matches Some(set)
            &&& set.field("task_status"@) == Some(JsonView::Str(to.label()))
            &&& set.field("updated_at"@) == Some(JsonView::Str(rfc3339(at)))
            &&& set.field("output"@) == opt_json(fields.output)
            &&& set.field("input"@) == opt_json(fields.input)
            &&& match fields.error_message {
                Some(m) => set.field("error_message"@) == Some(JsonView::Str(m@)),
                None => set.field("error_message"@) is None,
            }
            &&& match fields.execution_duration {
                Some(d) => set.field("execution_duration"@) == Some(number(d)),
                None => set.field("execution_duration"@) is None,
            }
            &&& change.update.field("$inc"@) is None
        }),
{
    reveal_strlit("task_instance_id");
    reveal_strlit("task_status");
    reveal_strlit("updated_at");
    reveal_strlit("output");
    reveal_strlit("input");
    reveal_strlit("error_message");
    reveal_strlit("execution_duration");
    reveal_strlit("$set");
    reveal_strlit("$inc");
    assert("$set"@[1] == 's' && "$inc"@[1] == 'i');
    assert("task_instance_id"@.len() == 16 && "task_status"@.len() == 11 && "updated_at"@.len()
        == 10 && "output"@.len() == 6 && "input"@.len() == 5 && "error_message"@.len() == 13
        && "execution_duration"@.len() == 18);
    let filter = task_transfer(id, from, to, fields, at).filter;
    assert(filter->Object_0.contains_key("task_instance_id"@));
    assert(filter->Object_0.contains_key("task_status"@));
}

/// An instance is moved exactly if it is the one that is named and is in the status that it is to
/// leave; the move sets the new status and the time, and counts the epoch up by one.
pub proof fn law_an_instance_moves_out_of_its_status(
    id: Seq<char>,
    from: WorkflowInstanceStatus,
    to: WorkflowInstanceStatus,
    at: Timestamp,
    document: JsonView,
)
    ensures
        ({
            let change = instance_transfer(id, from, to, at);
            &&& selects(change.filter, document) <==> document.field("workflow_instance_id"@)
                == Some(JsonView::Str(id)) && document.field("status"@) == Some(
                JsonView::Str(from.label()),
            )
            &&& change.update.field("$set"@) matches Some(set)
            &&& set.field("status"@) == Some(JsonView::Str(to.label()))
            &&& set.field("updated_at"@) == Some(JsonView::Str(rfc3339_z(at)))
            &&& change.update.field("$inc"@) matches Some(counted)
            &&& counted.field("epoch"@) == Some(number(1))
        }),
{
    reveal_strlit("workflow_instance_id");
    reveal_strlit("status");
    reveal_strlit("updated_at");
    reveal_strlit("$set");
    reveal_strlit("$inc");
    assert("$set"@[1] == 's' && "$inc"@[1] == 'i');
    assert("workflow_instance_id"@.len() == 20 && "status"@.len() == 6 && "updated_at"@.len()
        == 10);
    let filter = instance_transfer(id, from, to, at).filter;
    assert(filter->Object_0.contains_key("workflow_instance_id"@));
    assert(filter->Object_0.contains_key("status"@));
}

/// A version of a workflow is moved exactly if it is the one that is named and is in the status that
/// it is to leave; the move sets the new status and the time.
pub proof fn law_a_version_moves_out_of_its_status(
    meta_id: Seq<char>,
    version: u32,
    from: WorkflowStatus,
    to: WorkflowStatus,
    at: Timestamp,
    document: JsonView,
)
    ensures
        ({
            let change = version_transfer(meta_id, version, from, to, at);
            &&& selects(change.filter, document) <==> document.field("workflow_meta_id"@) == Some(
                JsonView::Str(meta_id),
            ) && document.field("version"@) == Some(number(version as u64)) && document.field(
                "status"@,
            ) == Some(JsonView::Str(from.label()))
            &&& change.update.field("$set"@) matches Some(set)
            &&& set.field("status"@) == Some(JsonView::Str(to.label()))
            &&& set.field("updated_at"@) == Some(JsonView::Str(rfc3339_z(at)))
        }),
{
    reveal_strlit("workflow_meta_id");
    reveal_strlit("version");
    reveal_strlit("status");
    reveal_strlit("updated_at");
    assert("workflow_meta_id"@.len() == 16 && "version"@.len() == 7 && "status"@.len() == 6
        && "updated_at"@.len() == 10);
    let filter = version_transfer(meta_id, version, from, to, at).filter;
    assert(filter->Object_0.contains_key("workflow_meta_id"@));
    assert(filter->Object_0.contains_key("version"@));
    assert(filter->Object_0.contains_key("status"@));
}

/// A version was moved exactly if it was found and changed.
pub proof fn law_a_move_that_changed_nothing_failed(matched: u64, modified: u64, version: u32)
    ensures
        transition_failure(matched, modified, version) is None <==> matched > 0 && modified > 0,
{
}

/// A worker that takes a lock asks for the instance that is named, without a lock or with one taken
/// before the given moment; it leaves its name, the time and how long it keeps the lock, and counts
/// the epoch up by one.
pub proof fn law_a_lock_names_its_worker(
    id: Seq<char>,
    worker: Seq<char>,
    duration_ms: u64,
    at: Timestamp,
    expired: Timestamp,
)
    ensures
        ({
            let change = lock_taken(id, worker, duration_ms, at, expired);
            &&& change.filter.field("workflow_instance_id"@) == Some(JsonView::Str(id))
            &&& change.filter.field("$or"@) matches Some(JsonView::Array(either))
            &&& either.len() == 2
            &&& either[0].field("locked_at"@) == Some(JsonView::Null)
            &&& either[1].field("locked_at"@) matches Some(before)
            &&& before.field("$lt"@) == Some(JsonView::Str(rfc3339_z(expired)))
            &&& change.update.field("$set"@) matches Some(set)
            &&& set.field("locked_by"@) == Some(JsonView::Str(worker))
            &&& set.field("locked_duration"@) == Some(number(duration_ms))
            &&& set.field("locked_at"@) == Some(JsonView::Str(rfc3339_z(at)))
            &&& set.field("updated_at"@) == Some(JsonView::Str(rfc3339_z(at)))
            &&& change.update.field("$inc"@) matches Some(counted)
            &&& counted.field("epoch"@) == Some(number(1))
        }),
{
    reveal_strlit("workflow_instance_id");
    reveal_strlit("$or");
    reveal_strlit("locked_by");
    reveal_strlit("locked_duration");
    reveal_strlit("locked_at");
    reveal_strlit("updated_at");
    reveal_strlit("$set");
    reveal_strlit("$inc");
    assert("$set"@[1] == 's' && "$inc"@[1] == 'i');
    assert("workflow_instance_id"@.len() == 20 && "$or"@.len() == 3);
    assert("locked_by"@.len() == 9 && "locked_duration"@.len() == 15 && "locked_at"@.len() == 9
        && "updated_at"@.len() == 10);
    assert("locked_by"@[7] == 'b' && "locked_at"@[7] == 'a');
}

/// Unlocking takes away who holds the lock, since when and for how long, and the worker that took a
/// lock is the one who can give it back.
pub proof fn law_a_lock_is_given_back_whole(
    id: Seq<char>,
    worker: Seq<char>,
    at: Timestamp,
    document: JsonView,
)
    ensures
        JsonView::Object(unlocked(at)).field("locked_by"@) == Some(JsonView::Null),
        JsonView::Object(unlocked(at)).field("locked_duration"@) == Some(JsonView::Null),
        JsonView::Object(unlocked(at)).field("locked_at"@) == Some(JsonView::Null),
        JsonView::Object(unlocked(at)).field("updated_at"@) == Some(JsonView::Str(rfc3339_z(at))),
        selects(holder_filter(id, worker), document) <==> document.field("workflow_instance_id"@)
            == Some(JsonView::Str(id)) && document.field("locked_by"@) == Some(
            JsonView::Str(worker),
        ),
{
    reveal_strlit("workflow_instance_id");
    reveal_strlit("locked_by");
    reveal_strlit("locked_duration");
    reveal_strlit("locked_at");
    reveal_strlit("updated_at");
    assert("workflow_instance_id"@.len() == 20);
    assert("locked_by"@.len() == 9 && "locked_duration"@.len() == 15 && "locked_at"@.len() == 9
        && "updated_at"@.len() == 10);
    assert("locked_by"@[7] == 'b' && "locked_at"@[7] == 'a');
    let filter = holder_filter(id, worker);
    assert(filter->Object_0.contains_key("workflow_instance_id"@));
    assert(filter->Object_0.contains_key("locked_by"@));
}

/// What an instance is written as is the instance, one epoch on.
pub proof fn law_a_saved_instance_is_one_epoch_on(instance: InstanceView, at: Timestamp)
    requires
        instance.epoch < u64::MAX,
    ensures
        saved(instance, at).epoch == instance.epoch + 1,
        saved(instance, at).updated_at == at,
        saved(instance, at) == (InstanceView {
            epoch: saved(instance, at).epoch,
            updated_at: at,
            ..instance
        }),
{
}

/// What selects instances that lost their worker asks for running and waiting ones, without a lock or
/// with one that has run out.
pub proof fn law_lost_instances_are_looked_for_by_lock(at: Timestamp)
    ensures
        ({
            let filter = zombie_filter(at);
            &&& filter.field("status"@) matches Some(status)
            &&& status.field("$in"@) == Some(
                JsonView::Array(
                    seq![
                        JsonView::Str(WorkflowInstanceStatus::Running.label()),
                        JsonView::Str(WorkflowInstanceStatus::Await.label()),
                    ],
                ),
            )
            &&& filter.field("$or"@) matches Some(JsonView::Array(either))
            &&& either.len() == 2
            &&& either[0].field("locked_at"@) == Some(JsonView::Null)
            &&& either[1].field("$and"@) matches Some(JsonView::Array(both))
            &&& both.len() == 2
            &&& both[0].field("locked_at"@) matches Some(held)
            &&& held.field("$ne"@) == Some(JsonView::Null)
            &&& both[1].field("$expr"@) matches Some(compared)
            &&& compared.field("$lt"@) matches Some(JsonView::Array(sides))
            &&& sides.len() == 2
            &&& sides[1] == JsonView::Str(rfc3339_z(at))
            &&& sides[0].field("$dateAdd"@) matches Some(end)
            &&& end.field("startDate"@) == Some(JsonView::Str("$locked_at"@))
            &&& end.field("amount"@) == Some(JsonView::Str("$locked_duration"@))
            &&& end.field("unit"@) == Some(JsonView::Str("millisecond"@))
        }),
{
    reveal_strlit("status");
    reveal_strlit("$or");
    reveal_strlit("startDate");
    reveal_strlit("amount");
    reveal_strlit("unit");
    assert("status"@.len() == 6 && "$or"@.len() == 3);
    assert("startDate"@.len() == 9 && "amount"@.len() == 6 && "unit"@.len() == 4);
}

/// A lock was given back exactly if an instance was found that the worker held.
pub proof fn law_a_lock_that_was_not_held_is_an_error(
    matched: u64,
    instance: &str,
    worker: &str,
    r: Result<(), String>,
)
    requires
        call_ensures(lock_released, (matched, instance, worker), r),
    ensures
        r is Ok <==> matched > 0,
{
}

/// A state of an instance is selected exactly by the instance's id and the state's epoch.
pub proof fn law_a_state_is_selected_by_id_and_epoch(id: Seq<char>, held: u64, document: JsonView)
    ensures
        selects(epoch_filter(id, held), document) <==> document.field("workflow_instance_id"@)
            == Some(JsonView::Str(id)) && document.field("epoch"@) == Some(number(held)),
{
    reveal_strlit("workflow_instance_id");
    reveal_strlit("epoch");
    assert("workflow_instance_id"@.len() == 20 && "epoch"@.len() == 5);
    let filter = epoch_filter(id, held);
    assert(filter->Object_0.contains_key("workflow_instance_id"@));
    assert(filter->Object_0.contains_key("epoch"@));
}

/// A version that could not be moved is named, and it is said whether it was not found or not
/// changed.
pub proof fn law_a_failed_move_names_its_version(matched: u64, modified: u64, version: u32)
    ensures
        matched == 0 ==> transition_failure(matched, modified, version) == Some(
            "cannot transition workflow version "@ + decimal(version as nat)
                + ": not found or not in expected status"@,
        ),
        matched > 0 && modified == 0 ==> transition_failure(matched, modified, version) == Some(
            "cannot transition workflow version "@ + decimal(version as nat) + ": not modified"@,
        ),
{
}

} // verus!
