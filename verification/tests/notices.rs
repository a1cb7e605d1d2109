use workflow::api_error::ApiError;
use workflow::auth::AuthContext;
use workflow::json::Json;
use workflow::notification::{
    handle_notification_event, DeliveryStatus, ListQuery, NotificationEvent, NotificationService,
    RepositoryError,
};
use workflow::subscription::{
    create_subscription, create_subscription_as, find_recipients_for_event,
    update_subscription_at, CreateSubscriptionRequest, NotificationChannel,
    NotificationSubscription, SubscriptionScope, UpdateSubscriptionRequest,
};
use workflow::time::Timestamp;
use workflow::user::TenantRole;

fn at(secs: i64) -> Timestamp {
    Timestamp { secs, nanos: 0 }
}

fn json(text: &str) -> Json {
    Json::parse(text).unwrap()
}

fn auth(user: &str) -> AuthContext {
    AuthContext {
        user_id: user.into(),
        username: user.into(),
        is_super_admin: false,
        tenant_id: "t1".into(),
        role: Some(TenantRole::Viewer),
    }
}

fn request(scope: &str, resource: Option<&str>) -> CreateSubscriptionRequest {
    CreateSubscriptionRequest {
        scope: scope.into(),
        resource_type: resource.map(|_| "workflow".to_string()),
        resource_id: resource.map(String::from),
        event_types: vec!["node.failed".into()],
        channels: vec![NotificationChannel::InApp],
    }
}

fn made(user: &str, scope: &str, resource: Option<&str>) -> NotificationSubscription {
    create_subscription_as(&auth(user), request(scope, resource), "s".into(), at(5)).unwrap()
}

#[test]
fn subscriptions_belong_to_their_maker() {
    let s = made("u1", "Global", None);
    assert_eq!(s.subscription_id, "s");
    assert_eq!(s.user_id, "u1");
    assert_eq!(s.tenant_id, "t1");
    assert_eq!(s.scope, SubscriptionScope::Global);
    assert!(s.enabled);
    assert_eq!(s.created_at, at(5));
    let fresh = create_subscription(&auth("u1"), request("Resource", Some("m1"))).unwrap();
    assert_eq!(fresh.subscription_id.len(), 36);
    assert_eq!(fresh.scope, SubscriptionScope::Resource);
    let e = create_subscription(&auth("u1"), request("Everything", None)).unwrap_err();
    assert!(matches!(e, ApiError::BadRequest(_)));
}

#[test]
fn only_its_own_user_changes_a_subscription() {
    let mut s = made("u1", "Global", None);
    let change = |enabled: Option<bool>| UpdateSubscriptionRequest {
        event_types: vec!["a".into()],
        channels: vec![],
        enabled,
    };
    let e = update_subscription_at(&auth("u2"), &mut s, change(Some(false)), at(6)).unwrap_err();
    assert_eq!(e.status(), 403);
    assert_eq!(e.message(), "cannot modify another user's subscription");
    assert!(s.enabled);
    update_subscription_at(&auth("u1"), &mut s, change(None), at(7)).unwrap();
    assert!(s.enabled);
    assert_eq!(s.event_types, vec!["a".to_string()]);
    assert_eq!(s.updated_at, at(7));
    update_subscription_at(&auth("u1"), &mut s, change(Some(false)), at(8)).unwrap();
    assert!(!s.enabled);
}

fn webhook() -> NotificationChannel {
    NotificationChannel::Webhook { url: "http://hook".into(), secret: None }
}

#[test]
fn a_subscription_for_the_resource_counts_first() {
    let mut global = made("u1", "Global", None);
    global.channels = vec![webhook()];
    let resource = made("u1", "Resource", Some("m1"));
    let other = made("u2", "Global", None);
    let elsewhere = made("u3", "Resource", Some("m2"));
    let subs = vec![global, resource, other, elsewhere];
    let mut users: Vec<(String, usize)> = find_recipients_for_event(&subs, Some("m1"))
        .into_iter()
        .map(|(u, c)| (u, c.iter().filter(|x| matches!(x, NotificationChannel::InApp)).count()))
        .collect();
    users.sort();
    assert_eq!(users, vec![("u1".to_string(), 1), ("u2".to_string(), 1)]);
    let mut users: Vec<(String, usize)> = find_recipients_for_event(&subs, None)
        .into_iter()
        .map(|(u, c)| (u, c.iter().filter(|x| matches!(x, NotificationChannel::InApp)).count()))
        .collect();
    users.sort();
    assert_eq!(users, vec![("u1".to_string(), 0), ("u2".to_string(), 1)]);
}

fn event(targets: Option<Vec<String>>) -> NotificationEvent {
    NotificationEvent {
        tenant_id: "t1".into(),
        event_type: "node.failed".into(),
        workflow_meta_id: Some("m1".into()),
        target_user_ids: targets,
        payload: json("{}"),
    }
}

#[test]
fn events_reach_those_they_name_or_those_who_asked() {
    let subs = vec![made("u1", "Resource", Some("m1"))];
    let forced = handle_notification_event(&event(Some(vec!["x".into(), "y".into()])), &subs);
    let got: Vec<(&str, &str)> =
        forced.iter().map(|d| (d.user_id.as_str(), d.source_type.as_str())).collect();
    assert_eq!(got, vec![("x", "force_push"), ("y", "force_push")]);
    let asked = handle_notification_event(&event(None), &subs);
    let got: Vec<(&str, &str)> =
        asked.iter().map(|d| (d.user_id.as_str(), d.source_type.as_str())).collect();
    assert_eq!(got, vec![("u1", "subscription")]);
    let mut hooked = made("u1", "Global", None);
    hooked.channels = vec![webhook()];
    assert!(handle_notification_event(&event(None), &vec![hooked]).is_empty());
}

#[test]
fn notifications_lead_to_their_instance() {
    let service = NotificationService::new("http://front".into());
    let payload = json(r#"{"data": {"workflow_instance_id": "wf1"}}"#);
    assert_eq!(
        service.build_url(&payload),
        Some("http://front/workflows/instances/wf1".to_string())
    );
    assert_eq!(service.build_url(&json("{}")), None);
    let r = service.create_in_app_record_as(
        "t1",
        "u1",
        "node.failed",
        &payload,
        "subscription",
        "",
        &None,
        "n1".into(),
        at(1),
        at(2),
    );
    assert_eq!(r.notification_id, "n1");
    assert!(!r.read);
    assert_eq!(r.channel_statuses.len(), 1);
    assert_eq!(r.channel_statuses[0].status, DeliveryStatus::Sent);
    assert_eq!(r.channel_statuses[0].channel, "in_app");
    assert_eq!(r.created_at, at(2));
    let fresh =
        service.create_in_app_record("t1", "u1", "e", &payload, "subscription", "", &None);
    assert_eq!(fresh.notification_id.len(), 36);
}

#[test]
fn pages_of_notifications_have_defaults() {
    let page = |page: Option<u64>, page_size: Option<u64>| {
        ListQuery { page, page_size }.page_and_size()
    };
    assert_eq!(page(None, None), (1, 20));
    assert_eq!(page(Some(3), Some(50)), (3, 50));
}

#[test]
fn stores_say_what_went_wrong() {
    assert_eq!(RepositoryError::DatabaseError("x".into()).text(), "database error: x");
    assert_eq!(RepositoryError::NotFound("x".into()).text(), "not found: x");
    assert_eq!(RepositoryError::from("x".to_string()), RepositoryError::DatabaseError("x".into()));
}
