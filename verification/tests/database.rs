use workflow::entity::WorkflowInstanceEntity;
use workflow::indexes::{expires_after, index_definitions, notification_index_definitions};
use workflow::json::Json;
use workflow::notification_store::{
    find_matching, list_by_user, mark_all_read, mark_read, records_before, subscription_filter,
    subscription_not_found, unread_filter,
};
use workflow::query::{
    is_countable, list_task_instances, list_workflow_instances, Pagination, SortParams,
    TaskInstanceQuery, WorkflowInstanceQuery,
};
use workflow::shared::{TaskInstanceStatus, WorkflowInstanceStatus};
use workflow::store::{
    acquire_lock, build_transfer_filter_and_update, build_wf_status_transition_update,
    build_zombie_filter, check_transition_result, force_clear_lock, handle_cas_failure_or_insert,
    instance_not_in_state, lock_cleared, lock_released, may_save_version, release_lock,
    save_workflow_instance, task_not_in_state, transfer_status_with_fields, SaveOutcome,
    TaskTransitionFields, WorkflowStatus,
};
use workflow::time::Timestamp;

fn value(j: &Json) -> serde_json::Value {
    json(&j.to_text())
}

fn json(text: &str) -> serde_json::Value {
    serde_json::from_str(text).unwrap()
}

#[test]
fn index_definitions_are_not_empty() {
    let defs = index_definitions();
    assert!(!defs.is_empty());
    assert_eq!(defs.len(), 11);
}

#[test]
fn all_collections_have_at_least_one_index() {
    for coll in index_definitions() {
        assert!(!coll.indexes.is_empty(), "collection {} has no indexes", coll.collection);
    }
}

#[test]
fn unique_indexes_have_correct_flag() {
    for coll in index_definitions() {
        for idx in &coll.indexes {
            if idx.name.starts_with("uk_") {
                assert!(idx.unique, "{}:{} should be unique", coll.collection, idx.name);
            }
        }
    }
}

#[test]
fn keys_of_an_index_keep_their_order() {
    let defs = index_definitions();
    let roles = defs.iter().find(|c| c.collection == "user_tenant_roles").unwrap();
    assert_eq!(roles.indexes[0].name, "uk_user_id_tenant_id");
    assert_eq!(
        roles.indexes[0].key_doc,
        vec![("user_id".to_string(), 1), ("tenant_id".to_string(), 1)]
    );
    assert!(!roles.indexes[1].unique);
}

fn at(secs: i64) -> Timestamp {
    Timestamp { secs, nanos: 0 }
}

fn sort(by: &str, order: &str) -> SortParams {
    SortParams { sort_by: by.into(), sort_order: order.into() }
}

#[test]
fn queries_become_plans() {
    let q = TaskInstanceQuery {
        tenant_id: "t1".into(),
        task_id: Some("x".into()),
        status: Some(TaskInstanceStatus::Failed),
        sort: sort("created_at", "asc"),
        pagination: Pagination { page: 3, page_size: 20 },
    };
    assert!(is_countable(&q.pagination));
    let p = list_task_instances(&q).unwrap();
    assert_eq!(value(&p.filter), json(r#"{"task_id":"x","task_status":"Failed","tenant_id":"t1"}"#));
    assert_eq!((p.sort_by.as_str(), p.order, p.skip, p.limit), ("created_at", 1, 40, 20));

    let q = WorkflowInstanceQuery {
        tenant_id: "t1".into(),
        workflow_meta_id: None,
        version: Some(2),
        status: Some(WorkflowInstanceStatus::Await),
        sort: sort("workflow_version", "whatever"),
        pagination: Pagination { page: 1, page_size: 10 },
    };
    let p = list_workflow_instances(&q).unwrap();
    assert_eq!(value(&p.filter), json(r#"{"status":"Await","tenant_id":"t1","workflow_version":2}"#));
    assert_eq!((p.order, p.skip), (-1, 0));
}

#[test]
fn only_known_fields_are_sorted_by() {
    let q = TaskInstanceQuery {
        tenant_id: "t1".into(),
        task_id: None,
        status: None,
        sort: sort("workflow_meta_id", "asc"),
        pagination: Pagination { page: 1, page_size: 10 },
    };
    assert_eq!(list_task_instances(&q).unwrap_err(), "invalid sort field: workflow_meta_id");
    let q = WorkflowInstanceQuery {
        tenant_id: "t1".into(),
        workflow_meta_id: None,
        version: None,
        status: None,
        sort: sort("task_id", "asc"),
        pagination: Pagination { page: 1, page_size: 10 },
    };
    assert_eq!(list_workflow_instances(&q).unwrap_err(), "invalid sort field: task_id");
    assert!(!is_countable(&Pagination { page: 0, page_size: 10 }));
    assert!(!is_countable(&Pagination { page: u64::MAX, page_size: 10 }));
}

#[test]
fn a_task_moves_only_from_the_state_it_is_in() {
    let fields = TaskTransitionFields {
        output: Some(Json::Bool(true)),
        input: None,
        error_message: Some("e".into()),
        execution_duration: Some(7),
    };
    let plan = transfer_status_with_fields(
        "i",
        &TaskInstanceStatus::Running,
        &TaskInstanceStatus::Completed,
        fields,
        at(0),
    );
    assert_eq!(value(&plan.filter), json(r#"{"task_instance_id":"i","task_status":"Running"}"#));
    assert_eq!(value(&plan.update), json(r#"{"$set":{"error_message":"e","execution_duration":7,"output":true,"task_status":"Completed","updated_at":"1970-01-01T00:00:00+00:00"}}"#));
    assert_eq!(
        task_not_in_state("i", &TaskInstanceStatus::Running),
        "CAS failed: task instance i not in expected state Running"
    );
}

#[test]
fn versions_move_from_state_to_state() {
    let plan = build_wf_status_transition_update(
        "m",
        4,
        &WorkflowStatus::Draft,
        &WorkflowStatus::Published,
        at(1),
    );
    assert_eq!(value(&plan.filter), json(r#"{"status":"Draft","version":4,"workflow_meta_id":"m"}"#));
    assert_eq!(value(&plan.update), json(r#"{"$set":{"status":"Published","updated_at":"1970-01-01T00:00:01Z"}}"#));
    assert_eq!(
        check_transition_result(0, 0, 4).unwrap_err(),
        "cannot transition workflow version 4: not found or not in expected status"
    );
    assert_eq!(
        check_transition_result(1, 0, 4).unwrap_err(),
        "cannot transition workflow version 4: not modified"
    );
    assert!(check_transition_result(1, 1, 4).is_ok());
    assert!(may_save_version(None).is_ok());
    assert!(may_save_version(Some((1, WorkflowStatus::Draft))).is_ok());
    assert_eq!(
        may_save_version(Some((2, WorkflowStatus::Archived))).unwrap_err(),
        "cannot update workflow version 2 (status: Archived), only Draft versions can be modified"
    );
}

#[test]
fn every_change_of_an_instance_counts_its_epoch_up() {
    let plan = build_transfer_filter_and_update(
        "w",
        &WorkflowInstanceStatus::Pending,
        &WorkflowInstanceStatus::Running,
        at(1),
    );
    assert_eq!(value(&plan.filter), json(r#"{"status":"Pending","workflow_instance_id":"w"}"#));
    assert_eq!(value(&plan.update), json(r#"{"$inc":{"epoch":1},"$set":{"status":"Running","updated_at":"1970-01-01T00:00:01Z"}}"#));
    assert_eq!(
        instance_not_in_state("w", &WorkflowInstanceStatus::Pending),
        "CAS failed: instance w not in expected state Pending"
    );

    let plan = acquire_lock("w", "worker", 1500, Timestamp { secs: 10, nanos: 250_000_000 });
    assert_eq!(value(&plan.filter), json(r#"{"$or":[{"locked_at":null},{"locked_at":{"$lt":"1970-01-01T00:00:08.750Z"}}],"workflow_instance_id":"w"}"#));
    assert_eq!(value(&plan.update), json(r#"{"$inc":{"epoch":1},"$set":{"locked_at":"1970-01-01T00:00:10.250Z","locked_by":"worker","locked_duration":1500,"updated_at":"1970-01-01T00:00:10.250Z"}}"#));

    let plan = release_lock("w", "worker", at(2));
    assert_eq!(value(&plan.filter), json(r#"{"locked_by":"worker","workflow_instance_id":"w"}"#));
    assert_eq!(value(&plan.update), json(r#"{"$inc":{"epoch":1},"$set":{"locked_at":null,"locked_by":null,"locked_duration":null,"updated_at":"1970-01-01T00:00:02Z"}}"#));
    assert!(lock_released(1, "w", "worker").is_ok());
    assert_eq!(
        lock_released(0, "w", "worker").unwrap_err(),
        "failed to release lock for instance w (not held by worker)"
    );

    let plan = force_clear_lock("w", 8, at(2));
    assert_eq!(value(&plan.filter), json(r#"{"epoch":8,"workflow_instance_id":"w"}"#));
    assert!(lock_cleared(1, "w", 8).is_ok());
    assert_eq!(
        lock_cleared(0, "w", 8).unwrap_err(),
        "CAS failed: instance w epoch 8 was already modified"
    );
}

fn instance(epoch: u64) -> WorkflowInstanceEntity {
    WorkflowInstanceEntity {
        workflow_instance_id: "w".into(),
        tenant_id: "t1".into(),
        workflow_meta_id: "m".into(),
        workflow_version: 1,
        status: WorkflowInstanceStatus::Running,
        created_at: at(1),
        updated_at: at(1),
        deleted_at: None,
        context: Json::empty_object(),
        entry_node: "a".into(),
        current_node: "a".into(),
        nodes: vec![],
        epoch,
        locked_by: None,
        locked_duration: None,
        locked_at: None,
        parent_context: None,
        depth: 0,
        created_by: None,
    }
}

#[test]
fn a_state_is_written_over_once() {
    let held = instance(5);
    let (filter, written) = save_workflow_instance(&held, at(9));
    assert_eq!(value(&filter), json(r#"{"epoch":5,"workflow_instance_id":"w"}"#));
    assert_eq!((written.epoch, written.updated_at), (6, at(9)));
    assert_eq!(handle_cas_failure_or_insert(&held, 1, 1), SaveOutcome::Saved);
    assert_eq!(handle_cas_failure_or_insert(&held, 0, 0), SaveOutcome::Insert);
    assert_eq!(
        handle_cas_failure_or_insert(&held, 0, 1),
        SaveOutcome::Conflict("Optimistic lock failed for workflow w: expected epoch 5".into())
    );
}

#[test]
fn zombies_have_no_lock_or_one_that_ran_out() {
    assert_eq!(value(&build_zombie_filter(at(3))), json(r#"{"$or":[{"locked_at":null},{"$and":[{"locked_at":{"$ne":null}},{"$expr":{"$lt":[{"$dateAdd":{"amount":"$locked_duration","startDate":"$locked_at","unit":"millisecond"}},"1970-01-01T00:00:03Z"]}}]}],"status":{"$in":["Running","Await"]}}"#));
}

#[test]
fn times_are_moved_back_over_seconds() {
    let t = Timestamp { secs: 10, nanos: 1_000_000 };
    assert_eq!(t.minus_millis(2), Some(Timestamp { secs: 9, nanos: 999_000_000 }));
    assert_eq!(t.minus_millis(1), Some(Timestamp { secs: 10, nanos: 0 }));
    assert_eq!(t.minus_millis(u64::MAX), None);
}

#[test]
fn leap_seconds_have_a_date() {
    let leap = Timestamp { secs: 1483228799, nanos: 1_500_000_000 };
    assert!(leap.is_dated());
    assert!(!Timestamp { secs: 1483228798, nanos: 1_500_000_000 }.is_dated());
    assert!(!Timestamp { secs: 1483228799, nanos: 2_000_000_000 }.is_dated());
    assert!(Timestamp { secs: -1, nanos: 1_000_000_000 }.is_dated());
    assert!(!Timestamp { secs: i64::MAX, nanos: 0 }.is_dated());
    assert!(!Timestamp { secs: i64::MIN, nanos: 0 }.is_dated());
    let of = |t: Timestamp| chrono::DateTime::from_timestamp(t.secs, t.nanos).unwrap();
    for secs in [1u32, 60] {
        let later = of(leap) + chrono::TimeDelta::seconds(secs.into());
        assert_eq!(of(leap.plus_seconds(secs).unwrap()), later);
    }
    for millis in [0u64, 400, 999, 1000, 1001, 1500, 1501, 60_000] {
        let earlier = of(leap) - chrono::TimeDelta::milliseconds(millis as i64);
        assert_eq!(of(leap.minus_millis(millis).unwrap()), earlier, "{}", millis);
    }
    let plan = build_zombie_filter(leap);
    assert!(plan.to_text().contains("2016-12-31T23:59:60.500Z"));
}

#[test]
fn notifications_are_kept_for_a_month() {
    let all = notification_index_definitions();
    assert_eq!(all[0].collection, "notification_subscriptions");
    assert_eq!(all[0].indexes[0].key_doc.len(), 5);
    assert!(all[0].indexes[0].unique);
    assert_eq!(all[1].collection, "notification_records");
    assert_eq!(all[1].indexes[0].key_doc[2], ("created_at".to_string(), -1));
    let kept: Vec<Option<u64>> = all[1].indexes.iter().map(|i| expires_after(i.name)).collect();
    assert_eq!(kept, [None, None, Some(2_592_000)]);
}

#[test]
fn notifications_are_selected_by_user_and_tenant() {
    assert_eq!(value(&subscription_filter("t", "s")), json(r#"{"subscription_id":"s","tenant_id":"t"}"#));
    assert_eq!(subscription_not_found("s").text(), "not found: subscription not found: s");
    assert_eq!(value(&list_by_user("t", "u")), json(r#"{"tenant_id":"t","user_id":"u"}"#));
    assert_eq!(value(&find_matching("t", "node.failed")), json(r#"{"enabled":true,"event_types":"node.failed","tenant_id":"t"}"#));
    assert_eq!(value(&unread_filter("t", "u")), json(r#"{"read":false,"tenant_id":"t","user_id":"u"}"#));
    let one = mark_read("t", "u", "n");
    assert_eq!(value(&one.filter), json(r#"{"notification_id":"n","tenant_id":"t","user_id":"u"}"#));
    assert_eq!(value(&one.update), json(r#"{"$set":{"read":true}}"#));
    assert_eq!(value(&mark_all_read("t", "u").filter), json(r#"{"read":false,"tenant_id":"t","user_id":"u"}"#));
    assert_eq!(records_before(0, 20), 0);
    assert_eq!(records_before(1, 20), 0);
    assert_eq!(records_before(3, 20), 40);
}
