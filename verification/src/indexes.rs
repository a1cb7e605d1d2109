//! The indexes of the database.

use crate::text::{owned, same};
use vstd::prelude::*;

verus! {

/// An index: its keys in their order, each with its direction, its name, and whether no two
/// documents may agree in it.
#[derive(Debug)]
pub struct IndexDef {
    pub key_doc: Vec<(String, i32)>,
    pub name: &'static str,
    pub unique: bool,
}

/// The indexes of a collection.
#[derive(Debug)]
pub struct CollectionIndexes {
    pub collection: &'static str,
    pub indexes: Vec<IndexDef>,
}

/// The mathematical value of an [`IndexDef`].
#[verifier::ext_equal]
pub struct IndexView {
    pub keys: Seq<(Seq<char>, i32)>,
    pub name: Seq<char>,
    pub unique: bool,
}

impl View for IndexDef {
    type V = IndexView;

    open spec fn view(&self) -> IndexView {
        IndexView {
            keys: Seq::new(self.key_doc@.len(), |i: int| (self.key_doc@[i].0@, self.key_doc@[i].1)),
            name: self.name@,
            unique: self.unique,
        }
    }
}

/// The values of a list of indexes.
pub open spec fn index_views(s: Seq<IndexDef>) -> Seq<IndexView> {
    Seq::new(s.len(), |i: int| s[i]@)
}

/// The mathematical value of a [`CollectionIndexes`].
#[verifier::ext_equal]
pub struct CollectionView {
    pub collection: Seq<char>,
    pub indexes: Seq<IndexView>,
}

impl View for CollectionIndexes {
    type V = CollectionView;

    open spec fn view(&self) -> CollectionView {
        CollectionView { collection: self.collection@, indexes: index_views(self.indexes@) }
    }
}

/// The values of a list of collections.
pub open spec fn collection_views(s: Seq<CollectionIndexes>) -> Seq<CollectionView> {
    Seq::new(s.len(), |i: int| s[i]@)
}

/// A key in ascending order.
pub open spec fn ascending_key(key: Seq<char>) -> (Seq<char>, i32) {
    (key, 1)
}

/// An index over one key.
pub open spec fn over1(a: Seq<char>, name: Seq<char>, unique: bool) -> IndexView {
    IndexView { keys: seq![ascending_key(a)], name, unique }
}

/// An index over two keys.
pub open spec fn over2(a: Seq<char>, b: Seq<char>, name: Seq<char>, unique: bool) -> IndexView {
    IndexView { keys: seq![ascending_key(a), ascending_key(b)], name, unique }
}

/// An index over three keys.
pub open spec fn over3(
    a: Seq<char>,
    b: Seq<char>,
    c: Seq<char>,
    name: Seq<char>,
    unique: bool,
) -> IndexView {
    IndexView {
        keys: seq![ascending_key(a), ascending_key(b), ascending_key(c)],
        name,
        unique,
    }
}

fn index1(a: &str, name: &'static str, unique: bool) -> (r: IndexDef)
    ensures
        r@ == over1(a@, name@, unique),
{
    let mut keys: Vec<(String, i32)> = Vec::new();
    keys.push((owned(a), 1));
    let r = IndexDef { key_doc: keys, name, unique };
    assert(r@ =~= over1(a@, name@, unique));
    r
}

fn index2(a: &str, b: &str, name: &'static str, unique: bool) -> (r: IndexDef)
    ensures
        r@ == over2(a@, b@, name@, unique),
{
    let mut keys: Vec<(String, i32)> = Vec::new();
    keys.push((owned(a), 1));
    keys.push((owned(b), 1));
    let r = IndexDef { key_doc: keys, name, unique };
    assert(r@ =~= over2(a@, b@, name@, unique));
    r
}

fn index3(a: &str, b: &str, c: &str, name: &'static str, unique: bool) -> (r: IndexDef)
    ensures
        r@ == over3(a@, b@, c@, name@, unique),
{
    let mut keys: Vec<(String, i32)> = Vec::new();
    keys.push((owned(a), 1));
    keys.push((owned(b), 1));
    keys.push((owned(c), 1));
    let r = IndexDef { key_doc: keys, name, unique };
    assert(r@ =~= over3(a@, b@, c@, name@, unique));
    r
}

/// Adds a collection to a list.
fn add_collection(
    list: &mut Vec<CollectionIndexes>,
    collection: &'static str,
    indexes: Vec<IndexDef>,
)
    ensures
        collection_views(final(list)@) == collection_views(old(list)@).push(
            (CollectionView { collection: collection@, indexes: index_views(indexes@) }),
        ),
{
    let ghost before = list@;
    list.push(CollectionIndexes { collection, indexes });
    assert(collection_views(list@) =~= collection_views(before).push(
        (CollectionView { collection: collection@, indexes: index_views(indexes@) }),
    ));
}

/// The indexes of every collection.
pub open spec fn index_table() -> Seq<CollectionView> {
    seq![
        CollectionView {
            collection: "workflow_entities"@,
            indexes: seq![
                over2("workflow_meta_id"@, "version"@, "uk_meta_id_version"@, true),
            ],
        },
        CollectionView {
            collection: "workflow_meta_entities"@,
            indexes: seq![
                over1("workflow_meta_id"@, "uk_workflow_meta_id"@, true),
                over1("tenant_id"@, "idx_tenant_id"@, false),
            ],
        },
        CollectionView {
            collection: "workflow_instances"@,
            indexes: seq![
                over1("workflow_instance_id"@, "uk_workflow_instance_id"@, true),
                over1("tenant_id"@, "idx_tenant_id"@, false),
                over1("workflow_meta_id"@, "idx_workflow_meta_id"@, false),
                over2("tenant_id"@, "created_by"@, "idx_tenant_id_created_by"@, false),
            ],
        },
        CollectionView {
            collection: "tasks"@,
            indexes: seq![
                over1("id"@, "uk_id"@, true),
                over1("tenant_id"@, "idx_tenant_id"@, false),
                over2("tenant_id"@, "task_type"@, "idx_tenant_id_task_type"@, false),
            ],
        },
        CollectionView {
            collection: "task_instances"@,
            indexes: seq![
                over1("task_instance_id"@, "uk_task_instance_id"@, true),
                over1("tenant_id"@, "idx_tenant_id"@, false),
            ],
        },
        CollectionView {
            collection: "tenants"@,
            indexes: seq![
                over1("tenant_id"@, "uk_tenant_id"@, true),
                over1("name"@, "uk_name"@, true),
            ],
        },
        CollectionView {
            collection: "users"@,
            indexes: seq![
                over1("user_id"@, "uk_user_id"@, true),
                over1("username"@, "uk_username"@, true),
            ],
        },
        CollectionView {
            collection: "user_tenant_roles"@,
            indexes: seq![
                over2("user_id"@, "tenant_id"@, "uk_user_id_tenant_id"@, true),
                over1("tenant_id"@, "idx_tenant_id"@, false),
            ],
        },
        CollectionView {
            collection: "approval_instances"@,
            indexes: seq![
                over2("tenant_id"@, "id"@, "uk_tenant_id_id"@, true),
                over1("tenant_id"@, "idx_tenant_id"@, false),
            ],
        },
        CollectionView {
            collection: "variables"@,
            indexes: seq![
                over2("tenant_id"@, "id"@, "uk_tenant_id_id"@, true),
                over3("tenant_id"@, "scope"@, "scope_id"@, "idx_tenant_scope"@, false),
            ],
        },
        CollectionView {
            collection: "api_keys"@,
            indexes: seq![
                over2("tenant_id"@, "id"@, "uk_tenant_id_id"@, true),
                over1("key_prefix"@, "uk_key_prefix"@, true),
                over2("tenant_id"@, "name"@, "uk_tenant_id_name"@, true),
            ],
        },
    ]
}

/// The indexes of every collection.
pub fn index_definitions() -> (r: Vec<CollectionIndexes>)
    ensures
        collection_views(r@) == index_table(),
{
    let mut list: Vec<CollectionIndexes> = Vec::new();
    let indexes = vec![index2("workflow_meta_id", "version", "uk_meta_id_version", true)];
    assert(index_views(indexes@) =~= seq![over2("workflow_meta_id"@, "version"@, "uk_meta_id_version"@, true)]);
    add_collection(&mut list, "workflow_entities", indexes);
    let indexes = vec![index1("workflow_meta_id", "uk_workflow_meta_id", true), index1("tenant_id", "idx_tenant_id", false)];
    assert(index_views(indexes@) =~= seq![over1("workflow_meta_id"@, "uk_workflow_meta_id"@, true), over1("tenant_id"@, "idx_tenant_id"@, false)]);
    add_collection(&mut list, "workflow_meta_entities", indexes);
    let indexes = vec![index1("workflow_instance_id", "uk_workflow_instance_id", true), index1("tenant_id", "idx_tenant_id", false), index1("workflow_meta_id", "idx_workflow_meta_id", false), index2("tenant_id", "created_by", "idx_tenant_id_created_by", false)];
    assert(index_views(indexes@) =~= seq![over1("workflow_instance_id"@, "uk_workflow_instance_id"@, true), over1("tenant_id"@, "idx_tenant_id"@, false), over1("workflow_meta_id"@, "idx_workflow_meta_id"@, false), over2("tenant_id"@, "created_by"@, "idx_tenant_id_created_by"@, false)]);
    add_collection(&mut list, "workflow_instances", indexes);
    let indexes = vec![index1("id", "uk_id", true), index1("tenant_id", "idx_tenant_id", false), index2("tenant_id", "task_type", "idx_tenant_id_task_type", false)];
    assert(index_views(indexes@) =~= seq![over1("id"@, "uk_id"@, true), over1("tenant_id"@, "idx_tenant_id"@, false), over2("tenant_id"@, "task_type"@, "idx_tenant_id_task_type"@, false)]);
    add_collection(&mut list, "tasks", indexes);
    let indexes = vec![index1("task_instance_id", "uk_task_instance_id", true), index1("tenant_id", "idx_tenant_id", false)];
    assert(index_views(indexes@) =~= seq![over1("task_instance_id"@, "uk_task_instance_id"@, true), over1("tenant_id"@, "idx_tenant_id"@, false)]);
    add_collection(&mut list, "task_instances", indexes);
    let indexes = vec![index1("tenant_id", "uk_tenant_id", true), index1("name", "uk_name", true)];
    assert(index_views(indexes@) =~= seq![over1("tenant_id"@, "uk_tenant_id"@, true), over1("name"@, "uk_name"@, true)]);
    add_collection(&mut list, "tenants", indexes);
    let indexes = vec![index1("user_id", "uk_user_id", true), index1("username", "uk_username", true)];
    assert(index_views(indexes@) =~= seq![over1("user_id"@, "uk_user_id"@, true), over1("username"@, "uk_username"@, true)]);
    add_collection(&mut list, "users", indexes);
    let indexes = vec![index2("user_id", "tenant_id", "uk_user_id_tenant_id", true), index1("tenant_id", "idx_tenant_id", false)];
    assert(index_views(indexes@) =~= seq![over2("user_id"@, "tenant_id"@, "uk_user_id_tenant_id"@, true), over1("tenant_id"@, "idx_tenant_id"@, false)]);
    add_collection(&mut list, "user_tenant_roles", indexes);
    let indexes = vec![index2("tenant_id", "id", "uk_tenant_id_id", true), index1("tenant_id", "idx_tenant_id", false)];
    assert(index_views(indexes@) =~= seq![over2("tenant_id"@, "id"@, "uk_tenant_id_id"@, true), over1("tenant_id"@, "idx_tenant_id"@, false)]);
    add_collection(&mut list, "approval_instances", indexes);
    let indexes = vec![index2("tenant_id", "id", "uk_tenant_id_id", true), index3("tenant_id", "scope", "scope_id", "idx_tenant_scope", false)];
    assert(index_views(indexes@) =~= seq![over2("tenant_id"@, "id"@, "uk_tenant_id_id"@, true), over3("tenant_id"@, "scope"@, "scope_id"@, "idx_tenant_scope"@, false)]);
    add_collection(&mut list, "variables", indexes);
    let indexes = vec![index2("tenant_id", "id", "uk_tenant_id_id", true), index1("key_prefix", "uk_key_prefix", true), index2("tenant_id", "name", "uk_tenant_id_name", true)];
    assert(index_views(indexes@) =~= seq![over2("tenant_id"@, "id"@, "uk_tenant_id_id"@, true), over1("key_prefix"@, "uk_key_prefix"@, true), over2("tenant_id"@, "name"@, "uk_tenant_id_name"@, true)]);
    add_collection(&mut list, "api_keys", indexes);
    assert(collection_views(list@) =~= index_table());
    list
}

/// How long a notification is kept, in seconds.
pub const NOTIFICATION_SECONDS: u64 = 2_592_000;

/// The name of the index that notifications expire by.
pub open spec fn expiry_index() -> Seq<char> {
    "idx_ttl_created_at"@
}

/// How long a document is kept, in seconds, after the time that an index is over; `None` if nothing
/// expires by the index.
pub fn expires_after(index: &str) -> (r: Option<u64>)
    ensures
        r == if index@ == expiry_index() {
            Some(NOTIFICATION_SECONDS)
        } else {
            None
        },
{
    if same(index, "idx_ttl_created_at") {
        Some(NOTIFICATION_SECONDS)
    } else {
        None
    }
}

/// The indexes of subscriptions and notifications.
pub open spec fn notification_index_table() -> Seq<CollectionView> {
    seq![
        CollectionView {
            collection: "notification_subscriptions"@,
            indexes: seq![
                IndexView {
                    keys: seq![
                        ascending_key("tenant_id"@),
                        ascending_key("user_id"@),
                        ascending_key("scope"@),
                        ascending_key("resource_type"@),
                        ascending_key("resource_id"@),
                    ],
                    name: "uk_tenant_user_scope_resource"@,
                    unique: true,
                },
                over3("tenant_id"@, "event_types"@, "enabled"@, "idx_tenant_event_enabled"@, false),
            ],
        },
        CollectionView {
            collection: "notification_records"@,
            indexes: seq![
                IndexView {
                    keys: seq![
                        ascending_key("tenant_id"@),
                        ascending_key("user_id"@),
                        ("created_at"@, -1i32),
                    ],
                    name: "idx_tenant_user_created"@,
                    unique: false,
                },
                over3("tenant_id"@, "user_id"@, "read"@, "idx_tenant_user_read"@, false),
                over1("created_at"@, expiry_index(), false),
            ],
        },
    ]
}

/// The indexes of subscriptions and notifications.
pub fn notification_index_definitions() -> (r: Vec<CollectionIndexes>)
    ensures
        collection_views(r@) == notification_index_table(),
{
    let mut list: Vec<CollectionIndexes> = Vec::new();
    let mut keys: Vec<(String, i32)> = Vec::new();
    keys.push((owned("tenant_id"), 1));
    keys.push((owned("user_id"), 1));
    keys.push((owned("scope"), 1));
    keys.push((owned("resource_type"), 1));
    keys.push((owned("resource_id"), 1));
    let first = IndexDef { key_doc: keys, name: "uk_tenant_user_scope_resource", unique: true };
    let second = index3("tenant_id", "event_types", "enabled", "idx_tenant_event_enabled", false);
    let indexes = vec![first, second];
    assert(indexes@[0]@ =~= notification_index_table()[0].indexes[0]);
    assert(index_views(indexes@) =~= notification_index_table()[0].indexes);
    add_collection(&mut list, "notification_subscriptions", indexes);
    let mut keys: Vec<(String, i32)> = Vec::new();
    keys.push((owned("tenant_id"), 1));
    keys.push((owned("user_id"), 1));
    keys.push((owned("created_at"), -1));
    let first = IndexDef { key_doc: keys, name: "idx_tenant_user_created", unique: false };
    let second = index3("tenant_id", "user_id", "read", "idx_tenant_user_read", false);
    let third = index1("created_at", "idx_ttl_created_at", false);
    let indexes = vec![first, second, third];
    assert(indexes@[0]@ =~= notification_index_table()[1].indexes[0]);
    assert(index_views(indexes@) =~= notification_index_table()[1].indexes);
    add_collection(&mut list, "notification_records", indexes);
    assert(collection_views(list@) =~= notification_index_table());
    list
}

/// Whether a name says that the index is unique.
pub open spec fn says_unique(name: Seq<char>) -> bool {
    name.len() > 3 && name[0] == 'u' && name[1] == 'k' && name[2] == '_'
}

/// An index is unique exactly if its name says so.
pub proof fn law_names_say_what_is_unique(c: int, i: int)
    requires
        0 <= c < index_table().len(),
        0 <= i < index_table()[c].indexes.len(),
    ensures
        index_table()[c].indexes[i].unique <==> says_unique(index_table()[c].indexes[i].name),
{
    reveal_strlit("idx_tenant_id");
    reveal_strlit("idx_tenant_id_created_by");
    reveal_strlit("idx_tenant_id_task_type");
    reveal_strlit("idx_tenant_scope");
    reveal_strlit("idx_workflow_meta_id");
    reveal_strlit("uk_id");
    reveal_strlit("uk_key_prefix");
    reveal_strlit("uk_meta_id_version");
    reveal_strlit("uk_name");
    reveal_strlit("uk_task_instance_id");
    reveal_strlit("uk_tenant_id");
    reveal_strlit("uk_tenant_id_id");
    reveal_strlit("uk_tenant_id_name");
    reveal_strlit("uk_user_id");
    reveal_strlit("uk_user_id_tenant_id");
    reveal_strlit("uk_username");
    reveal_strlit("uk_workflow_instance_id");
    reveal_strlit("uk_workflow_meta_id");
}

/// Every collection has an index.
pub proof fn law_every_collection_has_an_index(c: int)
    requires
        0 <= c < index_table().len(),
    ensures
        index_table()[c].indexes.len() > 0,
{
}

/// Whether a list of collections has an index over exactly these ascending keys for a collection.
pub open spec fn has_index(
    table: Seq<CollectionView>,
    collection: Seq<char>,
    keys: Seq<Seq<char>>,
    unique: bool,
) -> bool {
    exists|c: int, i: int|
        {
            &&& 0 <= c < table.len()
            &&& table[c].collection == collection
            &&& 0 <= i < table[c].indexes.len()
            &&& (#[trigger] table[c].indexes[i]).unique == unique
            &&& table[c].indexes[i].keys == Seq::new(keys.len(), |k: int| (keys[k], 1i32))
        }
}

/// What is looked up by an id is unique by it: instances and tasks by their own, a version by its
/// definition and number, a tenant and a user by id and by name, and a role by user and tenant.
pub proof fn law_ids_are_unique()
    ensures
        has_index(index_table(), "workflow_instances"@, seq!["workflow_instance_id"@], true),
        has_index(index_table(), "task_instances"@, seq!["task_instance_id"@], true),
        has_index(index_table(), "workflow_entities"@, seq!["workflow_meta_id"@, "version"@], true),
        has_index(index_table(), "workflow_meta_entities"@, seq!["workflow_meta_id"@], true),
        has_index(index_table(), "tasks"@, seq!["id"@], true),
        has_index(index_table(), "tenants"@, seq!["tenant_id"@], true),
        has_index(index_table(), "tenants"@, seq!["name"@], true),
        has_index(index_table(), "users"@, seq!["user_id"@], true),
        has_index(index_table(), "users"@, seq!["username"@], true),
        has_index(index_table(), "user_tenant_roles"@, seq!["user_id"@, "tenant_id"@], true),
        has_index(index_table(), "approval_instances"@, seq!["tenant_id"@, "id"@], true),
        has_index(index_table(), "variables"@, seq!["tenant_id"@, "id"@], true),
        has_index(index_table(), "api_keys"@, seq!["tenant_id"@, "id"@], true),
        has_index(index_table(), "api_keys"@, seq!["key_prefix"@], true),
        has_index(index_table(), "api_keys"@, seq!["tenant_id"@, "name"@], true),
{
    let t = index_table();
    assert(t[2].indexes[0].keys =~= Seq::new(1, |k: int| (seq!["workflow_instance_id"@][k], 1i32)));
    assert(t[4].indexes[0].keys =~= Seq::new(1, |k: int| (seq!["task_instance_id"@][k], 1i32)));
    assert(t[0].indexes[0].keys =~= Seq::new(
        2,
        |k: int| (seq!["workflow_meta_id"@, "version"@][k], 1i32),
    ));
    assert(t[1].indexes[0].keys =~= Seq::new(1, |k: int| (seq!["workflow_meta_id"@][k], 1i32)));
    assert(t[3].indexes[0].keys =~= Seq::new(1, |k: int| (seq!["id"@][k], 1i32)));
    assert(t[5].indexes[0].keys =~= Seq::new(1, |k: int| (seq!["tenant_id"@][k], 1i32)));
    assert(t[5].indexes[1].keys =~= Seq::new(1, |k: int| (seq!["name"@][k], 1i32)));
    assert(t[6].indexes[0].keys =~= Seq::new(1, |k: int| (seq!["user_id"@][k], 1i32)));
    assert(t[6].indexes[1].keys =~= Seq::new(1, |k: int| (seq!["username"@][k], 1i32)));
    assert(t[7].indexes[0].keys =~= Seq::new(
        2,
        |k: int| (seq!["user_id"@, "tenant_id"@][k], 1i32),
    ));
    assert(t[8].indexes[0].keys =~= Seq::new(2, |k: int| (seq!["tenant_id"@, "id"@][k], 1i32)));
    assert(t[9].indexes[0].keys =~= Seq::new(2, |k: int| (seq!["tenant_id"@, "id"@][k], 1i32)));
    assert(t[10].indexes[0].keys =~= Seq::new(2, |k: int| (seq!["tenant_id"@, "id"@][k], 1i32)));
    assert(t[10].indexes[1].keys =~= Seq::new(1, |k: int| (seq!["key_prefix"@][k], 1i32)));
    assert(t[10].indexes[2].keys =~= Seq::new(2, |k: int| (seq!["tenant_id"@, "name"@][k], 1i32)));
}

} // verus!
