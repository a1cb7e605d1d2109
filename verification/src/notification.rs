//! Notifications: what is announced, who has subscribed to it, and what is recorded.

use crate::ids::new_id;
use crate::json::{clone_opt_text, field_of, text_of, Json, JsonView};
use crate::subscription::{
    channel_views, find_recipients_for_event, lists, recipient_views, recipients, subscriptions,
    ChannelView, NotificationChannel, NotificationSubscription,
};
use crate::text::{concat2, concat3, opt_text, owned, texts};
use crate::time::{now, Timestamp};
use vstd::prelude::*;

verus! {

/// Something that is announced. With target users it goes to them directly; without it goes to
/// those who have subscribed.
#[derive(Debug)]
pub struct NotificationEvent {
    pub tenant_id: String,
    pub event_type: String,
    pub workflow_meta_id: Option<String>,
    pub target_user_ids: Option<Vec<String>>,
    pub payload: Json,
}

/// The mathematical value of a [`NotificationEvent`].
pub struct NotificationEventView {
    pub tenant_id: Seq<char>,
    pub event_type: Seq<char>,
    pub workflow_meta_id: Option<Seq<char>>,
    pub target_user_ids: Option<Seq<Seq<char>>>,
    pub payload: JsonView,
}

/// The texts of an optional list of strings.
pub open spec fn opt_texts(v: Option<Vec<String>>) -> Option<Seq<Seq<char>>> {
    match v {
        Some(s) => Some(texts(s@)),
        None => None,
    }
}

impl View for NotificationEvent {
    type V = NotificationEventView;

    open spec fn view(&self) -> NotificationEventView {
        NotificationEventView {
            tenant_id: self.tenant_id@,
            event_type: self.event_type@,
            workflow_meta_id: opt_text(self.workflow_meta_id),
            target_user_ids: opt_texts(self.target_user_ids),
            payload: self.payload@,
        }
    }
}

/// The tenant that a payload names under `data`, or the empty text.
pub open spec fn payload_tenant(payload: JsonView) -> Seq<char> {
    match text_of(field_of(payload.field("data"@), "tenant_id"@)) {
        Some(t) => t,
        None => seq![],
    }
}

/// The tenant that a payload names under `data`, or the empty text.
pub(crate) fn tenant_of_payload(payload: &Json) -> (r: String)
    ensures
        r@ == payload_tenant(payload@),
{
    match payload.get("data") {
        Some(d) => match d.get_str("tenant_id") {
            Some(t) => owned(t),
            None => String::new(),
        },
        None => String::new(),
    }
}

/// Why something could not be read or written.
#[derive(Debug, PartialEq, Eq)]
pub enum RepositoryError {
    DatabaseError(String),
    NotFound(String),
}

impl RepositoryError {
    /// What the error says.
    pub open spec fn words(self) -> Seq<char> {
        match self {
            RepositoryError::DatabaseError(m) => "database error: "@ + m@,
            RepositoryError::NotFound(m) => "not found: "@ + m@,
        }
    }

    /// What the error says.
    pub fn text(&self) -> (r: String)
        ensures
            r@ == self.words(),
    {
        match self {
            RepositoryError::DatabaseError(m) => concat2("database error: ", m.as_str()),
            RepositoryError::NotFound(m) => concat2("not found: ", m.as_str()),
        }
    }
}

impl From<String> for RepositoryError {
    fn from(s: String) -> (r: Self) {
        RepositoryError::DatabaseError(s)
    }
}

impl vstd::std_specs::convert::FromSpecImpl<String> for RepositoryError {
    open spec fn obeys_from_spec() -> bool {
        true
    }

    open spec fn from_spec(s: String) -> Self {
        RepositoryError::DatabaseError(s)
    }
}

/// How far a notification has come.
#[derive(Clone, Copy, Debug, PartialEq, Eq, Structural)]
pub enum DeliveryStatus {
    Pending,
    Sent,
    Failed,
}

/// How far a notification has come on one channel.
#[derive(Debug)]
pub struct ChannelDeliveryStatus {
    pub channel: String,
    pub status: DeliveryStatus,
    pub sent_at: Option<Timestamp>,
    pub error: Option<String>,
}

/// The mathematical value of a [`ChannelDeliveryStatus`].
#[verifier::ext_equal]
pub struct DeliveryView {
    pub channel: Seq<char>,
    pub status: DeliveryStatus,
    pub sent_at: Option<Timestamp>,
    pub error: Option<Seq<char>>,
}

impl View for ChannelDeliveryStatus {
    type V = DeliveryView;

    open spec fn view(&self) -> DeliveryView {
        DeliveryView {
            channel: self.channel@,
            status: self.status,
            sent_at: self.sent_at,
            error: opt_text(self.error),
        }
    }
}

/// The values of a list of deliveries.
pub open spec fn delivery_views(s: Seq<ChannelDeliveryStatus>) -> Seq<DeliveryView> {
    Seq::new(s.len(), |i: int| s[i]@)
}

/// A notification that somebody has got.
#[derive(Debug)]
pub struct NotificationRecord {
    pub notification_id: String,
    pub tenant_id: String,
    pub user_id: String,
    pub event_type: String,
    pub event_payload: Json,
    pub source_type: String,
    pub source_id: String,
    pub workflow_meta_id: Option<String>,
    pub url: Option<String>,
    pub channel_statuses: Vec<ChannelDeliveryStatus>,
    pub read: bool,
    pub created_at: Timestamp,
}

/// The mathematical value of a [`NotificationRecord`].
#[verifier::ext_equal]
pub struct NotificationRecordView {
    pub notification_id: Seq<char>,
    pub tenant_id: Seq<char>,
    pub user_id: Seq<char>,
    pub event_type: Seq<char>,
    pub event_payload: JsonView,
    pub source_type: Seq<char>,
    pub source_id: Seq<char>,
    pub workflow_meta_id: Option<Seq<char>>,
    pub url: Option<Seq<char>>,
    pub channel_statuses: Seq<DeliveryView>,
    pub read: bool,
    pub created_at: Timestamp,
}

impl View for NotificationRecord {
    type V = NotificationRecordView;

    open spec fn view(&self) -> NotificationRecordView {
        NotificationRecordView {
            notification_id: self.notification_id@,
            tenant_id: self.tenant_id@,
            user_id: self.user_id@,
            event_type: self.event_type@,
            event_payload: self.event_payload@,
            source_type: self.source_type@,
            source_id: self.source_id@,
            workflow_meta_id: opt_text(self.workflow_meta_id),
            url: opt_text(self.url),
            channel_statuses: delivery_views(self.channel_statuses@),
            read: self.read,
            created_at: self.created_at,
        }
    }
}

/// Where the workflow instance that a payload names can be looked at.
pub open spec fn instance_url(base: Seq<char>, payload: JsonView) -> Option<Seq<char>> {
    match text_of(field_of(payload.field("data"@), "workflow_instance_id"@)) {
        Some(id) => Some(base + "/workflows/instances/"@ + id),
        None => None,
    }
}

/// A notification in the application: it counts as sent, and as not yet read.
pub open spec fn in_app_record(
    base: Seq<char>,
    id: Seq<char>,
    tenant_id: Seq<char>,
    user_id: Seq<char>,
    event_type: Seq<char>,
    payload: JsonView,
    source_type: Seq<char>,
    source_id: Seq<char>,
    workflow_meta_id: Option<Seq<char>>,
    sent_at: Timestamp,
    created_at: Timestamp,
) -> NotificationRecordView {
    NotificationRecordView {
        notification_id: id,
        tenant_id,
        user_id,
        event_type,
        event_payload: payload,
        source_type,
        source_id,
        workflow_meta_id,
        url: instance_url(base, payload),
        channel_statuses: seq![
            DeliveryView {
                channel: "in_app"@,
                status: DeliveryStatus::Sent,
                sent_at: Some(sent_at),
                error: None,
            },
        ],
        read: false,
        created_at,
    }
}

/// A notification that somebody is to get in the application.
#[derive(Debug, PartialEq, Eq)]
pub struct InAppDelivery {
    pub user_id: String,
    pub source_type: String,
}

/// The values of a list of deliveries: who gets one, and why.
pub open spec fn planned(s: Seq<InAppDelivery>) -> Seq<(Seq<char>, Seq<char>)> {
    Seq::new(s.len(), |i: int| (s[i].user_id@, s[i].source_type@))
}

/// What users get who are named by the event itself: one each.
pub open spec fn forced(users: Seq<Seq<char>>) -> Seq<(Seq<char>, Seq<char>)> {
    Seq::new(users.len(), |i: int| (users[i], "force_push"@))
}

/// What a user gets by their channels: one for every channel in the application.
pub open spec fn by_channels(user: Seq<char>, channels: Seq<ChannelView>) -> Seq<
    (Seq<char>, Seq<char>),
>
    decreases channels.len(),
{
    if channels.len() == 0 {
        seq![]
    } else {
        let front = by_channels(user, channels.drop_last());
        if channels.last() is InApp {
            front.push((user, "subscription"@))
        } else {
            front
        }
    }
}

/// What the subscribers get, in the order of the list.
pub open spec fn by_subscription(list: Seq<(Seq<char>, Seq<ChannelView>)>) -> Seq<
    (Seq<char>, Seq<char>),
>
    decreases list.len(),
{
    if list.len() == 0 {
        seq![]
    } else {
        by_subscription(list.drop_last()) + by_channels(list.last().0, list.last().1)
    }
}

/// Who gets an event in the application: the users that it names, or else those who have
/// subscribed to it.
pub open spec fn delivered(
    event: NotificationEventView,
    subs: Seq<crate::subscription::SubscriptionView>,
    out: Seq<(Seq<char>, Seq<char>)>,
) -> bool {
    match event.target_user_ids {
        Some(users) => out == forced(users),
        None => exists|list: Seq<(Seq<char>, Seq<ChannelView>)>|
            lists(list, recipients(subs, event.workflow_meta_id)) && out
                == #[trigger] by_subscription(list),
    }
}

/// Plans what is written when something is announced. `subs` are the subscriptions that match the
/// event; a webhook gets nothing.
pub fn handle_notification_event(
    event: &NotificationEvent,
    subs: &Vec<NotificationSubscription>,
) -> (r: Vec<InAppDelivery>)
    ensures
        delivered(event@, subscriptions(subs@), planned(r@)),
{
    let mut out: Vec<InAppDelivery> = Vec::new();
    assert(planned(out@) =~= seq![]);
    if let Some(users) = &event.target_user_ids {
        let mut i: usize = 0;
        while i < users.len()
            invariant
                i <= users@.len(),
                planned(out@) =~= forced(texts(users@).take(i as int)),
            decreases users@.len() - i,
        {
            let ghost done = out@;
            out.push(InAppDelivery { user_id: users[i].clone(), source_type: owned("force_push") });
            assert(planned(out@) =~= planned(done).push((users@[i as int]@, "force_push"@)));
            i = i + 1;
        }
        assert(texts(users@).take(i as int) =~= texts(users@));
        return out;
    }
    let meta = match &event.workflow_meta_id {
        Some(m) => Some(m.as_str()),
        None => None,
    };
    let list = find_recipients_for_event(subs, meta);
    let ghost all = recipient_views(list@);
    let mut i: usize = 0;
    assert(all.take(0) =~= seq![]);
    while i < list.len()
        invariant
            i <= list@.len(),
            all == recipient_views(list@),
            planned(out@) == by_subscription(all.take(i as int)),
        decreases list@.len() - i,
    {
        let user = &list[i].0;
        let channels = &list[i].1;
        let ghost before = planned(out@);
        let ghost views = channel_views(channels@);
        proof {
            assert(all.take(i + 1).drop_last() =~= all.take(i as int));
            assert(all.take(i + 1).last() == (user@, views));
            assert(views.take(0) =~= seq![]);
            assert(before + by_channels(user@, views.take(0)) =~= before);
        }
        let mut j: usize = 0;
        while j < channels.len()
            invariant
                j <= channels@.len(),
                views == channel_views(channels@),
                planned(out@) == before + by_channels(user@, views.take(j as int)),
            decreases channels@.len() - j,
        {
            let ghost done = planned(out@);
            proof {
                assert(views.take(j + 1).drop_last() =~= views.take(j as int));
                assert(views.take(j + 1).last() == channels@[j as int]@);
            }
            if matches!(channels[j], NotificationChannel::InApp) {
                let ghost had = out@;
                out.push(
                    InAppDelivery { user_id: user.clone(), source_type: owned("subscription") },
                );
                proof {
                    assert(planned(out@) =~= planned(had).push((user@, "subscription"@)));
                    assert((before + by_channels(user@, views.take(j as int))).push(
                        (user@, "subscription"@),
                    ) =~= before + by_channels(user@, views.take(j as int)).push(
                        (user@, "subscription"@),
                    ));
                }
            }
            j = j + 1;
        }
        assert(views.take(j as int) =~= views);
        i = i + 1;
    }
    assert(all.take(i as int) =~= all);
    out
}

/// Makes notifications.
#[derive(Debug)]
pub struct NotificationService {
    pub frontend_base_url: String,
}

impl NotificationService {
    pub fn new(frontend_base_url: String) -> (r: Self)
        ensures
            r.frontend_base_url == frontend_base_url,
    {
        NotificationService { frontend_base_url }
    }

    /// Where the workflow instance that a payload names can be looked at.
    pub fn build_url(&self, payload: &Json) -> (r: Option<String>)
        ensures
            opt_text(r) == instance_url(self.frontend_base_url@, payload@),
    {
        let id = match payload.get("data") {
            Some(d) => d.get_str("workflow_instance_id"),
            None => None,
        };
        match id {
            Some(t) => Some(
                concat3(self.frontend_base_url.as_str(), "/workflows/instances/", t),
            ),
            None => None,
        }
    }

    /// A notification in the application, with an identifier and times.
    pub fn create_in_app_record_as(
        &self,
        tenant_id: &str,
        user_id: &str,
        event_type: &str,
        payload: &Json,
        source_type: &str,
        source_id: &str,
        workflow_meta_id: &Option<String>,
        id: String,
        sent_at: Timestamp,
        created_at: Timestamp,
    ) -> (r: NotificationRecord)
        ensures
            r@ == in_app_record(
                self.frontend_base_url@,
                id@,
                tenant_id@,
                user_id@,
                event_type@,
                payload@,
                source_type@,
                source_id@,
                opt_text(*workflow_meta_id),
                sent_at,
                created_at,
            ),
    {
        let mut statuses: Vec<ChannelDeliveryStatus> = Vec::new();
        statuses.push(
            ChannelDeliveryStatus {
                channel: owned("in_app"),
                status: DeliveryStatus::Sent,
                sent_at: Some(sent_at),
                error: None,
            },
        );
        assert(delivery_views(statuses@) =~= seq![statuses@[0]@]);
        NotificationRecord {
            notification_id: id,
            tenant_id: owned(tenant_id),
            user_id: owned(user_id),
            event_type: owned(event_type),
            event_payload: payload.clone(),
            source_type: owned(source_type),
            source_id: owned(source_id),
            workflow_meta_id: clone_opt_text(workflow_meta_id),
            url: self.build_url(payload),
            channel_statuses: statuses,
            read: false,
            created_at,
        }
    }

    /// A notification in the application, with a fresh identifier, made now. See
    /// [`NotificationService::create_in_app_record_as`].
    pub fn create_in_app_record(
        &self,
        tenant_id: &str,
        user_id: &str,
        event_type: &str,
        payload: &Json,
        source_type: &str,
        source_id: &str,
        workflow_meta_id: &Option<String>,
    ) -> (r: NotificationRecord)
        ensures
            exists|id: Seq<char>, sent_at: Timestamp, created_at: Timestamp|
                id.len() == 36 && r@ == #[trigger] in_app_record(
                    self.frontend_base_url@,
                    id,
                    tenant_id@,
                    user_id@,
                    event_type@,
                    payload@,
                    source_type@,
                    source_id@,
                    opt_text(*workflow_meta_id),
                    sent_at,
                    created_at,
                ),
    {
        self.create_in_app_record_as(
            tenant_id,
            user_id,
            event_type,
            payload,
            source_type,
            source_id,
            workflow_meta_id,
            new_id(),
            now(),
            now(),
        )
    }
}

/// Which page of the notifications somebody asks for.
#[derive(Clone, Copy, Debug, PartialEq, Eq, Structural)]
pub struct ListQuery {
    pub page: Option<u64>,
    pub page_size: Option<u64>,
}

impl ListQuery {
    /// The page and its size: the first page, and twenty, where the query does not say.
    pub fn page_and_size(&self) -> (r: (u64, u64))
        ensures
            r.0 == match self.page {
                Some(p) => p,
                None => 1,
            },
            r.1 == match self.page_size {
                Some(n) => n,
                None => 20,
            },
    {
        let page: u64 = match self.page {
            Some(p) => p,
            None => 1,
        };
        let size: u64 = match self.page_size {
            Some(n) => n,
            None => 20,
        };
        (page, size)
    }
}

/// A notification in the application is the event's, for the user it goes to: it has the event's type
/// and payload, says where it comes from, counts as sent and as not yet read, and leads to the
/// instance that the payload names.
pub proof fn law_a_notification_is_the_events(
    base: Seq<char>,
    id: Seq<char>,
    tenant_id: Seq<char>,
    user_id: Seq<char>,
    event_type: Seq<char>,
    payload: JsonView,
    source_type: Seq<char>,
    source_id: Seq<char>,
    workflow_meta_id: Option<Seq<char>>,
    sent_at: Timestamp,
    created_at: Timestamp,
)
    ensures
        ({
            let r = in_app_record(
                base,
                id,
                tenant_id,
                user_id,
                event_type,
                payload,
                source_type,
                source_id,
                workflow_meta_id,
                sent_at,
                created_at,
            );
            &&& r.notification_id == id
            &&& r.tenant_id == tenant_id
            &&& r.user_id == user_id
            &&& r.event_type == event_type
            &&& r.event_payload == payload
            &&& r.source_type == source_type
            &&& r.source_id == source_id
            &&& r.workflow_meta_id == workflow_meta_id
            &&& !r.read
            &&& r.created_at == created_at
            &&& r.channel_statuses.len() == 1
            &&& r.channel_statuses[0].channel == "in_app"@
            &&& r.channel_statuses[0].status is Sent
            &&& r.channel_statuses[0].sent_at == Some(sent_at)
            &&& r.channel_statuses[0].error is None
            &&& (payload.field("data"@) matches Some(data) && data.field("workflow_instance_id"@)
                matches Some(JsonView::Str(instance))) ==> r.url == Some(
                base + "/workflows/instances/"@ + payload.field("data"@)->0.field(
                    "workflow_instance_id"@,
                )->0->Str_0,
            )
            &&& !(payload.field("data"@) matches Some(data) && data.field("workflow_instance_id"@)
                matches Some(JsonView::Str(_))) ==> r.url is None
        }),
{
}

/// The tenant of a payload is the one that its data names.
pub proof fn law_a_payload_names_its_tenant(payload: JsonView)
    ensures
        (payload.field("data"@) matches Some(data) && data.field("tenant_id"@) matches Some(
            JsonView::Str(tenant),
        )) ==> payload_tenant(payload) == payload.field("data"@)->0.field("tenant_id"@)->0->Str_0,
        !(payload.field("data"@) matches Some(data) && data.field("tenant_id"@) matches Some(
            JsonView::Str(_),
        )) ==> payload_tenant(payload).len() == 0,
{
}

/// An event that names its users goes to each of them once, in their order, and to nobody else.
pub proof fn law_named_users_get_the_event(
    event: NotificationEventView,
    subs: Seq<crate::subscription::SubscriptionView>,
    out: Seq<(Seq<char>, Seq<char>)>,
    users: Seq<Seq<char>>,
    i: int,
)
    requires
        delivered(event, subs, out),
        event.target_user_ids == Some(users),
    ensures
        out.len() == users.len(),
        0 <= i < users.len() ==> out[i] == (users[i], "force_push"@),
{
}

/// What a user gets by their channels: as many as they have channels in the application, all for
/// them.
proof fn lemma_by_channels(user: Seq<char>, channels: Seq<ChannelView>)
    ensures
        by_channels(user, channels).len() == channels.filter(|c: ChannelView| c is InApp).len(),
        forall|k: int|
            0 <= k < by_channels(user, channels).len() ==> #[trigger] by_channels(user, channels)[k]
                == (user, "subscription"@),
        (exists|j: int| 0 <= j < channels.len() && (#[trigger] channels[j]) is InApp)
            ==> by_channels(user, channels).len() > 0,
        (forall|j: int| 0 <= j < channels.len() ==> !((#[trigger] channels[j]) is InApp))
            ==> by_channels(user, channels).len() == 0,
    decreases channels.len(),
{
    reveal(Seq::filter);
    if channels.len() > 0 {
        let front = channels.drop_last();
        lemma_by_channels(user, front);
        assert forall|j: int| 0 <= j < front.len() implies front[j] == channels[j] by {}
        if exists|j: int| 0 <= j < channels.len() && (#[trigger] channels[j]) is InApp {
            let j = choose|j: int| 0 <= j < channels.len() && (#[trigger] channels[j]) is InApp;
            if j < front.len() {
                assert(front[j] is InApp);
            }
        }
        if forall|j: int| 0 <= j < channels.len() ==> !((#[trigger] channels[j]) is InApp) {
            assert(!(channels[channels.len() - 1] is InApp));
            assert forall|j: int| 0 <= j < front.len() implies !((#[trigger] front[j])
                is InApp) by {
                assert(!(channels[j] is InApp));
            }
        }
    }
}

proof fn lemma_by_subscription(list: Seq<(Seq<char>, Seq<ChannelView>)>, i: int, j: int, k: int)
    ensures
        (0 <= i < list.len() && 0 <= j < list[i].1.len() && list[i].1[j] is InApp)
            ==> by_subscription(list).contains((list[i].0, "subscription"@)),
        0 <= k < by_subscription(list).len() ==> {
            &&& by_subscription(list)[k].1 == "subscription"@
            &&& exists|a: int, b: int|
                {
                    &&& 0 <= a < list.len()
                    &&& 0 <= b < list[a].1.len()
                    &&& (#[trigger] list[a].1[b]) is InApp
                    &&& by_subscription(list)[k].0 == list[a].0
                }
        },
    decreases list.len(),
{
    if list.len() > 0 {
        let front = list.drop_last();
        let n = list.len() - 1;
        let before = by_subscription(front);
        let more = by_channels(list[n].0, list[n].1);
        let all = by_subscription(list);
        assert(all == before + more);
        lemma_by_subscription(front, i, j, k);
        lemma_by_channels(list[n].0, list[n].1);
        if 0 <= i < list.len() && 0 <= j < list[i].1.len() && list[i].1[j] is InApp {
            let wanted = (list[i].0, "subscription"@);
            if i < n {
                assert(front[i] == list[i]);
                let at = choose|at: int| 0 <= at < before.len() && before[at] == wanted;
                assert(all[at] == wanted);
            } else {
                assert(list[n].1[j] is InApp);
                assert(more[0] == wanted);
                assert(all[before.len() as int] == wanted);
            }
        }
        if 0 <= k < all.len() {
            if k < before.len() {
                let (a, b) = choose|a: int, b: int|
                    {
                        &&& 0 <= a < front.len()
                        &&& 0 <= b < front[a].1.len()
                        &&& (#[trigger] front[a].1[b]) is InApp
                        &&& before[k].0 == front[a].0
                    };
                assert(list[a] == front[a]);
                assert(list[a].1[b] is InApp);
            } else {
                assert(more[k - before.len()] == (list[n].0, "subscription"@));
                let b = choose|b: int| 0 <= b < list[n].1.len() && (#[trigger] list[n].1[b])
                    is InApp;
                assert(list[n].1[b] is InApp);
            }
        }
    }
}

/// An event that names nobody goes to each of those who have subscribed to it and are reached in the
/// application, and to nobody else.
pub proof fn law_subscribers_get_the_event(
    event: NotificationEventView,
    subs: Seq<crate::subscription::SubscriptionView>,
    out: Seq<(Seq<char>, Seq<char>)>,
    user: Seq<char>,
    j: int,
    k: int,
)
    requires
        delivered(event, subs, out),
        event.target_user_ids is None,
    ensures
        ({
            let reached = recipients(subs, event.workflow_meta_id);
            &&& (reached.contains_key(user) && 0 <= j < reached[user].len() && reached[user][j]
                is InApp) ==> out.contains((user, "subscription"@))
            &&& 0 <= k < out.len() ==> {
                &&& out[k].1 == "subscription"@
                &&& reached.contains_key(out[k].0)
                &&& exists|b: int|
                    0 <= b < reached[out[k].0].len() && (#[trigger] reached[out[k].0][b]) is InApp
            }
        }),
{
    let reached = recipients(subs, event.workflow_meta_id);
    let list = choose|list: Seq<(Seq<char>, Seq<ChannelView>)>|
        lists(list, recipients(subs, event.workflow_meta_id)) && out == #[trigger] by_subscription(
            list,
        );
    if reached.contains_key(user) {
        let i = choose|i: int| 0 <= i < list.len() && (#[trigger] list[i]).0 == user;
        lemma_by_subscription(list, i, j, k);
    } else {
        lemma_by_subscription(list, 0, 0, k);
    }
    if 0 <= k < out.len() {
        let (a, b) = choose|a: int, b: int|
            {
                &&& 0 <= a < list.len()
                &&& 0 <= b < list[a].1.len()
                &&& (#[trigger] list[a].1[b]) is InApp
                &&& by_subscription(list)[k].0 == list[a].0
            };
        assert(reached[list[a].0] == list[a].1);
        assert(reached[out[k].0][b] is InApp);
    }
}

/// Whoever asks for notifications without saying which page gets the first, of twenty.
pub proof fn law_the_first_page_is_given_unasked(query: &ListQuery, r: (u64, u64))
    requires
        call_ensures(ListQuery::page_and_size, (query,), r),
    ensures
        query.page matches Some(p) ==> r.0 == p,
        query.page is None ==> r.0 == 1,
        query.page_size matches Some(n) ==> r.1 == n,
        query.page_size is None ==> r.1 == 20,
{
}

} // verus!
