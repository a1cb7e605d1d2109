//! Subscriptions: who wants to hear of what, and how.

use crate::api_error::{ApiError, ErrorView};
use crate::auth::AuthContext;
use crate::ids::new_id;
use crate::json::clone_opt_text;
use crate::text::{opt_slice, opt_text, same, texts};
use crate::time::{now, Timestamp};
use vstd::prelude::*;

verus! {

/// Whether a subscription is for everything in a tenant, or for one resource.
#[derive(Clone, Copy, Debug, PartialEq, Eq, Structural)]
pub enum SubscriptionScope {
    Global,
    Resource,
}

/// A way to reach somebody.
#[derive(Debug, PartialEq, Eq)]
pub enum NotificationChannel {
    InApp,
    Webhook { url: String, secret: Option<String> },
}

/// The mathematical value of a [`NotificationChannel`].
#[verifier::ext_equal]
pub enum ChannelView {
    InApp,
    Webhook { url: Seq<char>, secret: Option<Seq<char>> },
}

impl View for NotificationChannel {
    type V = ChannelView;

    open spec fn view(&self) -> ChannelView {
        match self {
            NotificationChannel::InApp => ChannelView::InApp,
            NotificationChannel::Webhook { url, secret } => ChannelView::Webhook {
                url: url@,
                secret: opt_text(*secret),
            },
        }
    }
}

impl Clone for NotificationChannel {
    fn clone(&self) -> (r: Self)
        ensures
            r == *self,
    {
        match self {
            NotificationChannel::InApp => NotificationChannel::InApp,
            NotificationChannel::Webhook { url, secret } => NotificationChannel::Webhook {
                url: url.clone(),
                secret: clone_opt_text(secret),
            },
        }
    }
}

/// The values of a list of channels.
pub open spec fn channel_views(s: Seq<NotificationChannel>) -> Seq<ChannelView> {
    Seq::new(s.len(), |i: int| s[i]@)
}

fn clone_channels(v: &Vec<NotificationChannel>) -> (r: Vec<NotificationChannel>)
    ensures
        channel_views(r@) == channel_views(v@),
{
    let mut out: Vec<NotificationChannel> = Vec::new();
    let mut i: usize = 0;
    while i < v.len()
        invariant
            i <= v@.len(),
            out@.len() == i,
            forall|k: int| 0 <= k < i ==> #[trigger] out@[k]@ == v@[k]@,
        decreases v@.len() - i,
    {
        out.push(v[i].clone());
        i = i + 1;
    }
    assert(channel_views(out@) =~= channel_views(v@));
    out
}

/// Somebody wants to hear of some kinds of events.
#[derive(Debug)]
pub struct NotificationSubscription {
    pub subscription_id: String,
    pub tenant_id: String,
    pub user_id: String,
    pub scope: SubscriptionScope,
    pub resource_type: Option<String>,
    pub resource_id: Option<String>,
    pub event_types: Vec<String>,
    pub channels: Vec<NotificationChannel>,
    pub enabled: bool,
    pub created_at: Timestamp,
    pub updated_at: Timestamp,
}

/// The mathematical value of a [`NotificationSubscription`].
#[verifier::ext_equal]
pub struct SubscriptionView {
    pub subscription_id: Seq<char>,
    pub tenant_id: Seq<char>,
    pub user_id: Seq<char>,
    pub scope: SubscriptionScope,
    pub resource_type: Option<Seq<char>>,
    pub resource_id: Option<Seq<char>>,
    pub event_types: Seq<Seq<char>>,
    pub channels: Seq<ChannelView>,
    pub enabled: bool,
    pub created_at: Timestamp,
    pub updated_at: Timestamp,
}

impl View for NotificationSubscription {
    type V = SubscriptionView;

    open spec fn view(&self) -> SubscriptionView {
        SubscriptionView {
            subscription_id: self.subscription_id@,
            tenant_id: self.tenant_id@,
            user_id: self.user_id@,
            scope: self.scope,
            resource_type: opt_text(self.resource_type),
            resource_id: opt_text(self.resource_id),
            event_types: texts(self.event_types@),
            channels: channel_views(self.channels@),
            enabled: self.enabled,
            created_at: self.created_at,
            updated_at: self.updated_at,
        }
    }
}

/// The values of a list of subscriptions.
pub open spec fn subscriptions(s: Seq<NotificationSubscription>) -> Seq<SubscriptionView> {
    Seq::new(s.len(), |i: int| s[i]@)
}

/// Somebody asks for a subscription.
#[derive(Debug)]
pub struct CreateSubscriptionRequest {
    pub scope: String,
    pub resource_type: Option<String>,
    pub resource_id: Option<String>,
    pub event_types: Vec<String>,
    pub channels: Vec<NotificationChannel>,
}

/// Somebody asks for a change of a subscription.
#[derive(Debug)]
pub struct UpdateSubscriptionRequest {
    pub event_types: Vec<String>,
    pub channels: Vec<NotificationChannel>,
    pub enabled: Option<bool>,
}

/// The scope with a given name, in lower case or as it is written.
pub open spec fn scope_named(s: Seq<char>) -> Option<SubscriptionScope> {
    if s == "global"@ || s == "Global"@ {
        Some(SubscriptionScope::Global)
    } else if s == "resource"@ || s == "Resource"@ {
        Some(SubscriptionScope::Resource)
    } else {
        None
    }
}

/// A subscription as it is made: enabled, and changed last when it was made.
pub open spec fn new_subscription(
    id: Seq<char>,
    tenant_id: Seq<char>,
    user_id: Seq<char>,
    scope: SubscriptionScope,
    resource_type: Option<Seq<char>>,
    resource_id: Option<Seq<char>>,
    event_types: Seq<Seq<char>>,
    channels: Seq<ChannelView>,
    at: Timestamp,
) -> SubscriptionView {
    SubscriptionView {
        subscription_id: id,
        tenant_id,
        user_id,
        scope,
        resource_type,
        resource_id,
        event_types,
        channels,
        enabled: true,
        created_at: at,
        updated_at: at,
    }
}

/// The subscription that a request asks for, with an identifier and a time. It is for the user who
/// asks, in their tenant. A scope that is neither is an error.
pub fn create_subscription_as(
    auth: &AuthContext,
    req: CreateSubscriptionRequest,
    id: String,
    at: Timestamp,
) -> (r: Result<NotificationSubscription, ApiError>)
    ensures
        match (scope_named(req.scope@), r) {
            (Some(scope), Ok(s)) => s@ == new_subscription(
                id@,
                auth@.tenant_id,
                auth@.user_id,
                scope,
                opt_text(req.resource_type),
                opt_text(req.resource_id),
                texts(req.event_types@),
                channel_views(req.channels@),
                at,
            ),
            (None, Err(e)) => e@ == ErrorView::BadRequest(
                "scope must be 'global' or 'resource'"@,
            ),
            _ => false,
        },
{
    let name = req.scope.as_str();
    let scope = if same(name, "global") || same(name, "Global") {
        SubscriptionScope::Global
    } else if same(name, "resource") || same(name, "Resource") {
        SubscriptionScope::Resource
    } else {
        return Err(ApiError::bad_request("scope must be 'global' or 'resource'"));
    };
    Ok(
        NotificationSubscription {
            subscription_id: id,
            tenant_id: auth.tenant_id.clone(),
            user_id: auth.user_id.clone(),
            scope,
            resource_type: req.resource_type,
            resource_id: req.resource_id,
            event_types: req.event_types,
            channels: req.channels,
            enabled: true,
            created_at: at,
            updated_at: at,
        },
    )
}

/// The subscription that a request asks for, with a fresh identifier, made now. See
/// [`create_subscription_as`].
pub fn create_subscription(auth: &AuthContext, req: CreateSubscriptionRequest) -> (r: Result<
    NotificationSubscription,
    ApiError,
>)
    ensures
        match (scope_named(req.scope@), r) {
            (Some(scope), Ok(s)) => s@.subscription_id.len() == 36 && s@ == new_subscription(
                s@.subscription_id,
                auth@.tenant_id,
                auth@.user_id,
                scope,
                opt_text(req.resource_type),
                opt_text(req.resource_id),
                texts(req.event_types@),
                channel_views(req.channels@),
                s@.created_at,
            ),
            (None, Err(e)) => e@ == ErrorView::BadRequest(
                "scope must be 'global' or 'resource'"@,
            ),
            _ => false,
        },
{
    create_subscription_as(auth, req, new_id(), now())
}

/// Changes a subscription as a request asks, at a given time. Only its own user may.
pub fn update_subscription_at(
    auth: &AuthContext,
    sub: &mut NotificationSubscription,
    req: UpdateSubscriptionRequest,
    at: Timestamp,
) -> (r: Result<(), ApiError>)
    ensures
        match r {
            Ok(_) => old(sub)@.user_id == auth@.user_id && final(sub)@ == (SubscriptionView {
                event_types: texts(req.event_types@),
                channels: channel_views(req.channels@),
                enabled: match req.enabled {
                    Some(b) => b,
                    None => old(sub)@.enabled,
                },
                updated_at: at,
                ..old(sub)@
            }),
            Err(e) => old(sub)@.user_id != auth@.user_id && final(sub)@ == old(sub)@ && e@
                == ErrorView::Forbidden("cannot modify another user's subscription"@),
        },
{
    if !same(sub.user_id.as_str(), auth.user_id.as_str()) {
        return Err(ApiError::forbidden("cannot modify another user's subscription"));
    }
    sub.event_types = req.event_types;
    sub.channels = req.channels;
    if let Some(enabled) = req.enabled {
        sub.enabled = enabled;
    }
    sub.updated_at = at;
    Ok(())
}

/// Changes a subscription as a request asks, now. See [`update_subscription_at`].
pub fn update_subscription(
    auth: &AuthContext,
    sub: &mut NotificationSubscription,
    req: UpdateSubscriptionRequest,
) -> (r: Result<(), ApiError>)
    ensures
        match r {
            Ok(_) => old(sub)@.user_id == auth@.user_id && final(sub)@ == (SubscriptionView {
                event_types: texts(req.event_types@),
                channels: channel_views(req.channels@),
                enabled: match req.enabled {
                    Some(b) => b,
                    None => old(sub)@.enabled,
                },
                updated_at: final(sub)@.updated_at,
                ..old(sub)@
            }),
            Err(e) => old(sub)@.user_id != auth@.user_id && final(sub)@ == old(sub)@ && e@
                == ErrorView::Forbidden("cannot modify another user's subscription"@),
        },
{
    update_subscription_at(auth, sub, req, now())
}

/// Whether a subscription is for one resource, and that is the given one.
pub open spec fn is_for(sub: SubscriptionView, resource: Option<Seq<char>>) -> bool {
    resource is Some && sub.scope is Resource && sub.resource_id == resource
}

/// How the users with a subscription for a resource are reached; of two such subscriptions of one
/// user the later counts.
pub open spec fn resource_channels(subs: Seq<SubscriptionView>, resource: Option<Seq<char>>) -> Map<
    Seq<char>,
    Seq<ChannelView>,
>
    decreases subs.len(),
{
    if subs.len() == 0 {
        Map::empty()
    } else {
        let front = resource_channels(subs.drop_last(), resource);
        if is_for(subs.last(), resource) {
            front.insert(subs.last().user_id, subs.last().channels)
        } else {
            front
        }
    }
}

/// The users of `hit`, and those with a global subscription who are not among them.
pub open spec fn with_globals(
    subs: Seq<SubscriptionView>,
    hit: Map<Seq<char>, Seq<ChannelView>>,
) -> Map<Seq<char>, Seq<ChannelView>>
    decreases subs.len(),
{
    if subs.len() == 0 {
        hit
    } else {
        let front = with_globals(subs.drop_last(), hit);
        if subs.last().scope is Global && !hit.contains_key(subs.last().user_id) {
            front.insert(subs.last().user_id, subs.last().channels)
        } else {
            front
        }
    }
}

/// Who hears of an event, and how: a subscription for the resource counts before a global one.
pub open spec fn recipients(subs: Seq<SubscriptionView>, resource: Option<Seq<char>>) -> Map<
    Seq<char>,
    Seq<ChannelView>,
> {
    with_globals(subs, resource_channels(subs, resource))
}

/// Without a resource nobody has a subscription for it.
proof fn lemma_no_resource_no_hits(subs: Seq<SubscriptionView>)
    ensures
        resource_channels(subs, None) == Map::<Seq<char>, Seq<ChannelView>>::empty(),
    decreases subs.len(),
{
    if subs.len() > 0 {
        lemma_no_resource_no_hits(subs.drop_last());
    }
}

/// Whoever has a subscription for the resource is reached as their last one says, whatever global
/// subscriptions they have.
pub proof fn law_resource_counts_before_global(
    subs: Seq<SubscriptionView>,
    resource: Option<Seq<char>>,
    i: int,
)
    requires
        0 <= i < subs.len(),
        is_for(subs[i], resource),
        forall|j: int|
            i < j < subs.len() && is_for(#[trigger] subs[j], resource) ==> subs[j].user_id
                != subs[i].user_id,
    ensures
        recipients(subs, resource).contains_key(subs[i].user_id),
        recipients(subs, resource)[subs[i].user_id] == subs[i].channels,
{
    lemma_resource_hit(subs, resource, i);
    lemma_globals_keep(subs, resource_channels(subs, resource), subs[i].user_id);
}

/// Whoever has only global subscriptions is reached as their last one says.
pub proof fn law_global_counts_without_resource(
    subs: Seq<SubscriptionView>,
    resource: Option<Seq<char>>,
    i: int,
)
    requires
        0 <= i < subs.len(),
        subs[i].scope is Global,
        forall|j: int|
            0 <= j < subs.len() && is_for(#[trigger] subs[j], resource) ==> subs[j].user_id
                != subs[i].user_id,
        forall|j: int|
            i < j < subs.len() && (#[trigger] subs[j]).scope is Global ==> subs[j].user_id
                != subs[i].user_id,
    ensures
        recipients(subs, resource).contains_key(subs[i].user_id),
        recipients(subs, resource)[subs[i].user_id] == subs[i].channels,
{
    lemma_no_hit(subs, resource, subs[i].user_id);
    lemma_global_hit(subs, resource_channels(subs, resource), i);
}

/// Nobody hears of an event who has not subscribed to the resource or to everything.
pub proof fn law_only_subscribers_hear(
    subs: Seq<SubscriptionView>,
    resource: Option<Seq<char>>,
    user: Seq<char>,
)
    requires
        recipients(subs, resource).contains_key(user),
    ensures
        exists|i: int|
            0 <= i < subs.len() && (#[trigger] subs[i]).user_id == user && (subs[i].scope is Global
                || is_for(subs[i], resource)),
{
    let hit = resource_channels(subs, resource);
    if hit.contains_key(user) {
        if forall|j: int| 0 <= j < subs.len() && is_for(#[trigger] subs[j], resource) ==> subs[j].user_id != user {
            lemma_no_hit(subs, resource, user);
        }
    } else {
        if forall|j: int| 0 <= j < subs.len() && (#[trigger] subs[j]).scope is Global ==> subs[j].user_id != user {
            lemma_no_global(subs, hit, user);
        }
    }
}

proof fn lemma_resource_hit(subs: Seq<SubscriptionView>, resource: Option<Seq<char>>, i: int)
    requires
        0 <= i < subs.len(),
        is_for(subs[i], resource),
        forall|j: int|
            i < j < subs.len() && is_for(#[trigger] subs[j], resource) ==> subs[j].user_id
                != subs[i].user_id,
    ensures
        resource_channels(subs, resource).contains_key(subs[i].user_id),
        resource_channels(subs, resource)[subs[i].user_id] == subs[i].channels,
    decreases subs.len(),
{
    if i < subs.len() - 1 {
        let front = subs.drop_last();
        assert forall|j: int| i < j < front.len() && is_for(#[trigger] front[j], resource) implies front[j].user_id
            != front[i].user_id by {
            assert(front[j] == subs[j]);
        }
        lemma_resource_hit(front, resource, i);
        assert(subs[subs.len() - 1] == subs.last());
    }
}

proof fn lemma_no_hit(subs: Seq<SubscriptionView>, resource: Option<Seq<char>>, user: Seq<char>)
    requires
        forall|j: int|
            0 <= j < subs.len() && is_for(#[trigger] subs[j], resource) ==> subs[j].user_id != user,
    ensures
        !resource_channels(subs, resource).contains_key(user),
    decreases subs.len(),
{
    if subs.len() > 0 {
        let front = subs.drop_last();
        assert forall|j: int| 0 <= j < front.len() && is_for(#[trigger] front[j], resource) implies front[j].user_id
            != user by {
            assert(front[j] == subs[j]);
        }
        lemma_no_hit(front, resource, user);
        assert(subs[subs.len() - 1] == subs.last());
    }
}

proof fn lemma_globals_keep(
    subs: Seq<SubscriptionView>,
    hit: Map<Seq<char>, Seq<ChannelView>>,
    user: Seq<char>,
)
    requires
        hit.contains_key(user),
    ensures
        with_globals(subs, hit).contains_key(user),
        with_globals(subs, hit)[user] == hit[user],
    decreases subs.len(),
{
    if subs.len() > 0 {
        lemma_globals_keep(subs.drop_last(), hit, user);
    }
}

proof fn lemma_global_hit(
    subs: Seq<SubscriptionView>,
    hit: Map<Seq<char>, Seq<ChannelView>>,
    i: int,
)
    requires
        0 <= i < subs.len(),
        subs[i].scope is Global,
        !hit.contains_key(subs[i].user_id),
        forall|j: int|
            i < j < subs.len() && (#[trigger] subs[j]).scope is Global ==> subs[j].user_id
                != subs[i].user_id,
    ensures
        with_globals(subs, hit).contains_key(subs[i].user_id),
        with_globals(subs, hit)[subs[i].user_id] == subs[i].channels,
    decreases subs.len(),
{
    if i < subs.len() - 1 {
        let front = subs.drop_last();
        assert forall|j: int| i < j < front.len() && (#[trigger] front[j]).scope is Global implies front[j].user_id
            != front[i].user_id by {
            assert(front[j] == subs[j]);
        }
        lemma_global_hit(front, hit, i);
        assert(subs[subs.len() - 1] == subs.last());
    }
}

proof fn lemma_no_global(
    subs: Seq<SubscriptionView>,
    hit: Map<Seq<char>, Seq<ChannelView>>,
    user: Seq<char>,
)
    requires
        !hit.contains_key(user),
        forall|j: int|
            0 <= j < subs.len() && (#[trigger] subs[j]).scope is Global ==> subs[j].user_id != user,
    ensures
        !with_globals(subs, hit).contains_key(user),
    decreases subs.len(),
{
    if subs.len() > 0 {
        let front = subs.drop_last();
        assert forall|j: int| 0 <= j < front.len() && (#[trigger] front[j]).scope is Global implies front[j].user_id
            != user by {
            assert(front[j] == subs[j]);
        }
        lemma_no_global(front, hit, user);
        assert(subs[subs.len() - 1] == subs.last());
    }
}

/// The values of a list of users and their channels.
pub open spec fn recipient_views(s: Seq<(String, Vec<NotificationChannel>)>) -> Seq<
    (Seq<char>, Seq<ChannelView>),
> {
    Seq::new(s.len(), |i: int| (s[i].0@, channel_views(s[i].1@)))
}

/// Whether a list holds the entries of a map, each once, in any order.
pub open spec fn lists(
    s: Seq<(Seq<char>, Seq<ChannelView>)>,
    m: Map<Seq<char>, Seq<ChannelView>>,
) -> bool {
    &&& forall|i: int, j: int| 0 <= i < j < s.len() ==> (#[trigger] s[i]).0 != (#[trigger] s[j]).0
    &&& forall|i: int|
        0 <= i < s.len() ==> m.contains_key((#[trigger] s[i]).0) && m[s[i].0] == s[i].1
    &&& forall|k: Seq<char>| #[trigger]
        m.contains_key(k) ==> exists|i: int| 0 <= i < s.len() && (#[trigger] s[i]).0 == k
}

/// Where a user stands in a list.
fn find_user(list: &Vec<(String, Vec<NotificationChannel>)>, user: &str) -> (r: Option<usize>)
    ensures
        match r {
            Some(i) => i < list@.len() && list@[i as int].0@ == user@,
            None => forall|j: int| 0 <= j < list@.len() ==> (#[trigger] list@[j]).0@ != user@,
        },
{
    let mut i: usize = 0;
    while i < list.len()
        invariant
            i <= list@.len(),
            forall|j: int| 0 <= j < i ==> (#[trigger] list@[j]).0@ != user@,
        decreases list@.len() - i,
    {
        if same(list[i].0.as_str(), user) {
            return Some(i);
        }
        i = i + 1;
    }
    None
}

/// Sets the channels of a user in a list of entries.
fn set_channels(list: &mut Vec<(String, Vec<NotificationChannel>)>, sub: &NotificationSubscription)
    ensures
        final(list)@.len() >= old(list)@.len(),
        forall|i: int|
            0 <= i < old(list)@.len() ==> (#[trigger] final(list)@[i]).0@ == old(list)@[i].0@,
        forall|i: int|
            old(list)@.len() <= i < final(list)@.len() ==> (#[trigger] final(list)@[i]).0@
                == sub@.user_id,
        forall|m: Map<Seq<char>, Seq<ChannelView>>|
            lists(recipient_views(old(list)@), m) ==> #[trigger] lists(
                recipient_views(final(list)@),
                m.insert(sub@.user_id, sub@.channels),
            ),
{
    let ghost before = list@;
    let found = find_user(list, sub.user_id.as_str());
    let channels = clone_channels(&sub.channels);
    match found {
        Some(i) => {
            list.set(i, (sub.user_id.clone(), channels));
            proof {
                let a = recipient_views(before);
                let b = recipient_views(list@);
                assert(b =~= a.update(i as int, (sub@.user_id, sub@.channels)));
                assert forall|m: Map<Seq<char>, Seq<ChannelView>>| lists(a, m) implies #[trigger] lists(
                    b,
                    m.insert(sub@.user_id, sub@.channels),
                ) by {
                    let n = m.insert(sub@.user_id, sub@.channels);
                    assert forall|p: int, q: int| 0 <= p < q < b.len() implies (#[trigger] b[p]).0 != (
                    #[trigger] b[q]).0 by {
                        assert(a[p].0 == b[p].0 && a[q].0 == b[q].0);
                    }
                    assert forall|p: int| 0 <= p < b.len() implies n.contains_key((#[trigger] b[p]).0)
                        && n[b[p].0] == b[p].1 by {
                        assert(a[p].0 == b[p].0);
                        if p != i {
                            assert(a[p].0 != a[i as int].0);
                        }
                    }
                    assert forall|k: Seq<char>| #[trigger] n.contains_key(k) implies exists|p: int|
                        0 <= p < b.len() && (#[trigger] b[p]).0 == k by {
                        if k == sub@.user_id {
                            assert(b[i as int].0 == k);
                        } else {
                            assert(m.contains_key(k));
                            let p = choose|p: int| 0 <= p < a.len() && (#[trigger] a[p]).0 == k;
                            assert(b[p].0 == k);
                        }
                    }
                }
            }
        },
        None => {
            list.push((sub.user_id.clone(), channels));
            proof {
                let a = recipient_views(before);
                let b = recipient_views(list@);
                assert(b =~= a.push((sub@.user_id, sub@.channels)));
                assert forall|m: Map<Seq<char>, Seq<ChannelView>>| lists(a, m) implies #[trigger] lists(
                    b,
                    m.insert(sub@.user_id, sub@.channels),
                ) by {
                    let n = m.insert(sub@.user_id, sub@.channels);
                    assert forall|p: int, q: int| 0 <= p < q < b.len() implies (#[trigger] b[p]).0 != (
                    #[trigger] b[q]).0 by {
                        assert(a[p].0 == b[p].0);
                        assert(before[p].0@ != sub@.user_id);
                        if q < a.len() {
                            assert(a[q].0 == b[q].0);
                        }
                    }
                    assert forall|p: int| 0 <= p < b.len() implies n.contains_key((#[trigger] b[p]).0)
                        && n[b[p].0] == b[p].1 by {
                        if p < a.len() {
                            assert(a[p] == b[p]);
                            assert(before[p].0@ != sub@.user_id);
                        }
                    }
                    assert forall|k: Seq<char>| #[trigger] n.contains_key(k) implies exists|p: int|
                        0 <= p < b.len() && (#[trigger] b[p]).0 == k by {
                        if k == sub@.user_id {
                            assert(b[a.len() as int].0 == k);
                        } else {
                            assert(m.contains_key(k));
                            let p = choose|p: int| 0 <= p < a.len() && (#[trigger] a[p]).0 == k;
                            assert(b[p].0 == k);
                        }
                    }
                }
            }
        },
    }
}

/// Who hears of an event of the given resource, and how, by the subscriptions that match it: each
/// user once.
pub fn find_recipients_for_event(
    subs: &Vec<NotificationSubscription>,
    workflow_meta_id: Option<&str>,
) -> (r: Vec<(String, Vec<NotificationChannel>)>)
    ensures
        lists(
            recipient_views(r@),
            recipients(subscriptions(subs@), opt_slice(workflow_meta_id)),
        ),
{
    let ghost all = subscriptions(subs@);
    let ghost resource = opt_slice(workflow_meta_id);
    let mut list: Vec<(String, Vec<NotificationChannel>)> = Vec::new();
    assert(lists(recipient_views(list@), resource_channels(all.take(0), resource)));
    if let Some(meta_id) = workflow_meta_id {
        let mut i: usize = 0;
        while i < subs.len()
            invariant
                i <= subs@.len(),
                all == subscriptions(subs@),
                resource == Some(meta_id@),
                lists(recipient_views(list@), resource_channels(all.take(i as int), resource)),
            decreases subs@.len() - i,
        {
            let sub = &subs[i];
            proof {
                assert(all.take(i + 1).drop_last() =~= all.take(i as int));
                assert(all.take(i + 1).last() == sub@);
            }
            let hit = match (&sub.scope, &sub.resource_id) {
                (SubscriptionScope::Resource, Some(id)) => same(id.as_str(), meta_id),
                _ => false,
            };
            assert(hit == is_for(sub@, resource));
            if hit {
                set_channels(&mut list, sub);
            }
            i = i + 1;
        }
        assert(all.take(i as int) =~= all);
    } else {
        proof {
            lemma_no_resource_no_hits(all);
            assert(all.take(0) =~= seq![]);
        }
    }
    let ghost hit = resource_channels(all, resource);
    let hits = list.len();
    proof {
        assert(all.take(0) =~= seq![]);
        assert forall|k: int| 0 <= k < hits implies hit.contains_key((#[trigger] list@[k]).0@) by {
            assert(recipient_views(list@)[k].0 == list@[k].0@);
        }
    }
    let mut i: usize = 0;
    while i < subs.len()
        invariant
            i <= subs@.len(),
            hits <= list@.len(),
            all == subscriptions(subs@),
            lists(recipient_views(list@), with_globals(all.take(i as int), hit)),
            forall|k: int| 0 <= k < hits ==> hit.contains_key((#[trigger] list@[k]).0@),
            forall|k: int| hits <= k < list@.len() ==> !hit.contains_key((#[trigger] list@[k]).0@),
            forall|u: Seq<char>|
                hit.contains_key(u) ==> #[trigger] with_globals(
                    all.take(i as int),
                    hit,
                ).contains_key(u),
        decreases subs@.len() - i,
    {
        let sub = &subs[i];
        proof {
            assert(all.take(i + 1).drop_last() =~= all.take(i as int));
            assert(all.take(i + 1).last() == sub@);
        }
        if matches!(sub.scope, SubscriptionScope::Global) {
            let found = find_user(&list, sub.user_id.as_str());
            let taken = match found {
                Some(k) => k < hits,
                None => false,
            };
            proof {
                if found is None && hit.contains_key(sub@.user_id) {
                    assert(with_globals(all.take(i as int), hit).contains_key(sub@.user_id));
                    let k = choose|k: int|
                        0 <= k < recipient_views(list@).len() && (#[trigger] recipient_views(
                            list@,
                        )[k]).0 == sub@.user_id;
                    assert(list@[k].0@ == sub@.user_id);
                }
                assert(taken == hit.contains_key(sub@.user_id));
            }
            if !taken {
                set_channels(&mut list, sub);
            }
        }
        i = i + 1;
    }
    assert(all.take(i as int) =~= all);
    list
}

/// A subscription is for a resource exactly if it is one for a single resource, and that resource is
/// the one that the event names.
pub proof fn law_a_resource_subscription_names_its_resource(
    sub: SubscriptionView,
    resource: Option<Seq<char>>,
)
    ensures
        is_for(sub, resource) <==> (sub.scope is Resource && (resource matches Some(named)
            && sub.resource_id == Some(named))),
        sub.scope is Global ==> !is_for(sub, resource),
        resource is None ==> !is_for(sub, resource),
{
}

/// A new subscription is what was asked for, and is enabled.
pub proof fn law_a_new_subscription_is_what_was_asked_for(
    id: Seq<char>,
    tenant_id: Seq<char>,
    user_id: Seq<char>,
    scope: SubscriptionScope,
    resource_type: Option<Seq<char>>,
    resource_id: Option<Seq<char>>,
    event_types: Seq<Seq<char>>,
    channels: Seq<ChannelView>,
    at: Timestamp,
)
    ensures
        ({
            let sub = new_subscription(
                id,
                tenant_id,
                user_id,
                scope,
                resource_type,
                resource_id,
                event_types,
                channels,
                at,
            );
            &&& sub.subscription_id == id
            &&& sub.tenant_id == tenant_id
            &&& sub.user_id == user_id
            &&& sub.scope == scope
            &&& sub.resource_type == resource_type
            &&& sub.resource_id == resource_id
            &&& sub.event_types == event_types
            &&& sub.channels == channels
            &&& sub.enabled
            &&& sub.created_at == at
            &&& sub.updated_at == at
            &&& scope is Resource && resource_id is Some ==> is_for(sub, resource_id)
        }),
{
}

/// A scope is named with a small or a large letter, and nothing else names one.
pub proof fn law_scopes_are_named(s: Seq<char>)
    ensures
        scope_named(s) == Some(SubscriptionScope::Global) <==> s == "global"@ || s == "Global"@,
        scope_named(s) == Some(SubscriptionScope::Resource) <==> s == "resource"@ || s
            == "Resource"@,
{
    reveal_strlit("global");
    reveal_strlit("Global");
    reveal_strlit("resource");
    reveal_strlit("Resource");
    assert("global"@.len() == 6 && "Global"@.len() == 6 && "resource"@.len() == 8
        && "Resource"@.len() == 8);
}

/// Whoever hears of an event is reached by the channels of one of their own subscriptions.
pub proof fn law_users_are_reached_by_their_own_channels(
    subs: Seq<SubscriptionView>,
    resource: Option<Seq<char>>,
    user: Seq<char>,
)
    requires
        recipients(subs, resource).contains_key(user),
    ensures
        exists|i: int|
            {
                &&& 0 <= i < subs.len()
                &&& (#[trigger] subs[i]).user_id == user
                &&& subs[i].channels == recipients(subs, resource)[user]
                &&& subs[i].scope is Global || is_for(subs[i], resource)
            },
{
    lemma_own_resource_channels(subs, resource, user);
    lemma_own_channels(subs, subs, resource, user);
}

proof fn lemma_own_resource_channels(
    subs: Seq<SubscriptionView>,
    resource: Option<Seq<char>>,
    user: Seq<char>,
)
    ensures
        resource_channels(subs, resource).contains_key(user) ==> exists|i: int|
            {
                &&& 0 <= i < subs.len()
                &&& (#[trigger] subs[i]).user_id == user
                &&& subs[i].channels == resource_channels(subs, resource)[user]
                &&& is_for(subs[i], resource)
            },
    decreases subs.len(),
{
    if subs.len() > 0 {
        let front = subs.drop_last();
        lemma_own_resource_channels(front, resource, user);
        if resource_channels(subs, resource).contains_key(user) {
            if is_for(subs.last(), resource) && subs.last().user_id == user {
                assert(subs[subs.len() - 1].user_id == user);
            } else {
                let i = choose|i: int|
                    {
                        &&& 0 <= i < front.len()
                        &&& (#[trigger] front[i]).user_id == user
                        &&& front[i].channels == resource_channels(front, resource)[user]
                        &&& is_for(front[i], resource)
                    };
                assert(subs[i] == front[i]);
            }
        }
    }
}

proof fn lemma_own_channels(
    all: Seq<SubscriptionView>,
    subs: Seq<SubscriptionView>,
    resource: Option<Seq<char>>,
    user: Seq<char>,
)
    requires
        subs.is_prefix_of(all),
        with_globals(subs, resource_channels(all, resource)).contains_key(user),
        resource_channels(all, resource).contains_key(user) ==> exists|i: int|
            {
                &&& 0 <= i < all.len()
                &&& (#[trigger] all[i]).user_id == user
                &&& all[i].channels == resource_channels(all, resource)[user]
                &&& is_for(all[i], resource)
            },
    ensures
        exists|i: int|
            {
                &&& 0 <= i < all.len()
                &&& (#[trigger] all[i]).user_id == user
                &&& all[i].channels == with_globals(subs, resource_channels(all, resource))[user]
                &&& all[i].scope is Global || is_for(all[i], resource)
            },
    decreases subs.len(),
{
    let hit = resource_channels(all, resource);
    if subs.len() > 0 {
        let last = subs.last();
        if last.scope is Global && !hit.contains_key(last.user_id) && last.user_id == user {
            let i = subs.len() - 1;
            assert(all[i] == last);
        } else {
            lemma_own_channels(all, subs.drop_last(), resource, user);
        }
    } else {
        let i = choose|i: int|
            {
                &&& 0 <= i < all.len()
                &&& (#[trigger] all[i]).user_id == user
                &&& all[i].channels == hit[user]
                &&& is_for(all[i], resource)
            };
        assert(all[i].user_id == user);
    }
}

} // verus!
