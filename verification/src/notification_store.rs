//! What is asked of the database for subscriptions and notifications.

use crate::json::{entries_model, json_single, json_text, put_str, Json, JsonView};
use crate::notification::RepositoryError;
use crate::store::{selects, setting, ChangePlan, ChangeView};
use crate::text::concat2;
use vstd::prelude::*;

verus! {

/// What selects one subscription of a tenant.
pub open spec fn one_subscription(tenant_id: Seq<char>, subscription_id: Seq<char>) -> JsonView {
    JsonView::Object(
        map!["tenant_id"@ => JsonView::Str(tenant_id), "subscription_id"@ => JsonView::Str(subscription_id)],
    )
}

/// What selects all that a user has in a tenant.
pub open spec fn all_of_user(tenant_id: Seq<char>, user_id: Seq<char>) -> Map<Seq<char>, JsonView> {
    map!["tenant_id"@ => JsonView::Str(tenant_id), "user_id"@ => JsonView::Str(user_id)]
}

/// What selects the subscriptions of a tenant that an event concerns: those that are enabled, and
/// name its type.
pub open spec fn matching(tenant_id: Seq<char>, event_type: Seq<char>) -> JsonView {
    JsonView::Object(
        map!["tenant_id"@ => JsonView::Str(tenant_id), "event_types"@ => JsonView::Str(event_type), "enabled"@ => JsonView::Bool(true)],
    )
}

/// What selects the notifications that a user has not read.
pub open spec fn unread(tenant_id: Seq<char>, user_id: Seq<char>) -> JsonView {
    JsonView::Object(all_of_user(tenant_id, user_id).insert("read"@, JsonView::Bool(false)))
}

/// What marks notifications as read.
pub open spec fn marking_read() -> JsonView {
    setting(map!["read"@ => JsonView::Bool(true)])
}

fn user_entries(tenant_id: &str, user_id: &str) -> (r: Vec<(String, Json)>)
    ensures
        entries_model(r@) == all_of_user(tenant_id@, user_id@),
{
    let mut e: Vec<(String, Json)> = Vec::new();
    put_str(&mut e, "tenant_id", json_text(tenant_id));
    put_str(&mut e, "user_id", json_text(user_id));
    e
}

/// What selects one subscription of a tenant.
pub fn subscription_filter(tenant_id: &str, subscription_id: &str) -> (r: Json)
    ensures
        r@ == one_subscription(tenant_id@, subscription_id@),
{
    let mut e: Vec<(String, Json)> = Vec::new();
    put_str(&mut e, "tenant_id", json_text(tenant_id));
    put_str(&mut e, "subscription_id", json_text(subscription_id));
    Json::Object(e)
}

/// The error of a subscription that is not there.
pub fn subscription_not_found(subscription_id: &str) -> (r: RepositoryError)
    ensures
        r matches RepositoryError::NotFound(m) && m@ == "subscription not found: "@
            + subscription_id@,
{
    RepositoryError::NotFound(concat2("subscription not found: ", subscription_id))
}

/// What selects the subscriptions or the notifications of a user.
pub fn list_by_user(tenant_id: &str, user_id: &str) -> (r: Json)
    ensures
        r@ == JsonView::Object(all_of_user(tenant_id@, user_id@)),
{
    Json::Object(user_entries(tenant_id, user_id))
}

/// What selects the subscriptions that an event concerns.
pub fn find_matching(tenant_id: &str, event_type: &str) -> (r: Json)
    ensures
        r@ == matching(tenant_id@, event_type@),
{
    let mut e: Vec<(String, Json)> = Vec::new();
    put_str(&mut e, "tenant_id", json_text(tenant_id));
    put_str(&mut e, "event_types", json_text(event_type));
    put_str(&mut e, "enabled", Json::Bool(true));
    Json::Object(e)
}

/// What selects the notifications that a user has not read.
pub fn unread_filter(tenant_id: &str, user_id: &str) -> (r: Json)
    ensures
        r@ == unread(tenant_id@, user_id@),
{
    let mut e = user_entries(tenant_id, user_id);
    put_str(&mut e, "read", Json::Bool(false));
    Json::Object(e)
}

/// How one notification of a user is marked as read.
pub fn mark_read(tenant_id: &str, user_id: &str, notification_id: &str) -> (r: ChangePlan)
    ensures
        r@ == (ChangeView {
            filter: JsonView::Object(
                all_of_user(tenant_id@, user_id@).insert(
                    "notification_id"@,
                    JsonView::Str(notification_id@),
                ),
            ),
            update: marking_read(),
        }),
{
    let mut e = user_entries(tenant_id, user_id);
    put_str(&mut e, "notification_id", json_text(notification_id));
    ChangePlan {
        filter: Json::Object(e),
        update: json_single("$set", json_single("read", Json::Bool(true))),
    }
}

/// How all notifications of a user are marked as read.
pub fn mark_all_read(tenant_id: &str, user_id: &str) -> (r: ChangePlan)
    ensures
        r@ == (ChangeView { filter: unread(tenant_id@, user_id@), update: marking_read() }),
{
    ChangePlan {
        filter: unread_filter(tenant_id, user_id),
        update: json_single("$set", json_single("read", Json::Bool(true))),
    }
}

/// The page before which `page` comes, counted from zero: the first page stands for those below it.
pub open spec fn pages_before(page: u64) -> u64 {
    if page == 0 {
        0
    } else {
        (page - 1) as u64
    }
}

/// How many notifications come before a page.
pub fn records_before(page: u64, page_size: u64) -> (r: u64)
    requires
        pages_before(page) * page_size <= u64::MAX,
    ensures
        r == pages_before(page) * page_size,
{
    let before: u64 = if page == 0 {
        0
    } else {
        page - 1
    };
    before * page_size
}

/// A subscription is found by its tenant and its own id; what a user has, by the tenant and the user;
/// and what is unread, by that as well. Marking as read makes a notification no longer unread.
pub proof fn law_subscriptions_and_notifications_are_found_by_owner(
    tenant_id: Seq<char>,
    id: Seq<char>,
    document: JsonView,
)
    ensures
        selects(one_subscription(tenant_id, id), document) <==> document.field("tenant_id"@)
            == Some(JsonView::Str(tenant_id)) && document.field("subscription_id"@) == Some(
            JsonView::Str(id),
        ),
        selects(JsonView::Object(all_of_user(tenant_id, id)), document) <==> document.field(
            "tenant_id"@,
        ) == Some(JsonView::Str(tenant_id)) && document.field("user_id"@) == Some(
            JsonView::Str(id),
        ),
        selects(unread(tenant_id, id), document) <==> selects(
            JsonView::Object(all_of_user(tenant_id, id)),
            document,
        ) && document.field("read"@) == Some(JsonView::Bool(false)),
        ({
            &&& marking_read().field("$set"@) matches Some(set)
            &&& set.field("read"@) == Some(JsonView::Bool(true))
        }),
        document.field("read"@) == Some(JsonView::Bool(true)) ==> !selects(
            unread(tenant_id, id),
            document,
        ),
{
    reveal_strlit("tenant_id");
    reveal_strlit("subscription_id");
    reveal_strlit("user_id");
    reveal_strlit("read");
    assert("tenant_id"@.len() == 9 && "subscription_id"@.len() == 15 && "user_id"@.len() == 7
        && "read"@.len() == 4);
    let one = one_subscription(tenant_id, id)->Object_0;
    assert(one.contains_key("tenant_id"@) && one.contains_key("subscription_id"@));
    let all = all_of_user(tenant_id, id);
    let whole = JsonView::Object(all);
    assert(whole->Object_0 == all);
    assert(all.contains_key("tenant_id"@) && all.contains_key("user_id"@));
    assert(forall|k: Seq<char>| #[trigger]
        all.contains_key(k) ==> k == "tenant_id"@ || k == "user_id"@);
    if document.field("tenant_id"@) == Some(JsonView::Str(tenant_id)) && document.field("user_id"@)
        == Some(JsonView::Str(id)) {
        assert forall|k: Seq<char>| #[trigger] all.contains_key(k) implies document.field(k) == Some(
            all[k],
        ) by {}
        assert(selects(whole, document));
    }
    let open = unread(tenant_id, id)->Object_0;
    assert(open.contains_key("tenant_id"@) && open.contains_key("user_id"@) && open.contains_key(
        "read"@,
    ));
}

/// An event concerns the subscriptions of its own tenant that are enabled and name its type.
pub proof fn law_an_event_concerns_enabled_subscriptions(
    tenant_id: Seq<char>,
    event_type: Seq<char>,
)
    ensures
        ({
            let filter = matching(tenant_id, event_type);
            &&& filter.field("tenant_id"@) == Some(JsonView::Str(tenant_id))
            &&& filter.field("event_types"@) == Some(JsonView::Str(event_type))
            &&& filter.field("enabled"@) == Some(JsonView::Bool(true))
        }),
{
    reveal_strlit("tenant_id");
    reveal_strlit("event_types");
    reveal_strlit("enabled");
    assert("tenant_id"@.len() == 9 && "event_types"@.len() == 11 && "enabled"@.len() == 7);
}

/// Pages are counted from one, and one below that stands for the first.
pub proof fn law_pages_are_counted_from_one(page: u64)
    ensures
        page <= 1 ==> pages_before(page) == 0,
        1 <= page < u64::MAX ==> pages_before((page + 1) as u64) == pages_before(page) + 1,
{
}

} // verus!
