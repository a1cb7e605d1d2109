//! Variables: named values of a tenant or a workflow, some of them secret, and the context that a
//! run sees.

use crate::cipher::{decrypted, key_of, SecretBox};
use crate::codec::parsed_json;
use crate::ids::new_id;
use crate::json::{entries_model, merge_entries, put, Json, JsonNumber, JsonView, NumberView};
use crate::notification::RepositoryError;
use crate::text::{concat2, concat3, owned, same};
use crate::time::{now, Timestamp};
use vstd::prelude::*;

verus! {

/// What a secret is shown as.
pub open spec fn secret_mask() -> Seq<char> {
    "******"@
}

/// What kind of value a variable has.
#[derive(Clone, Copy, Debug, PartialEq, Eq, Structural)]
pub enum VariableType {
    String,
    Number,
    Bool,
    Json,
    Secret,
}

impl VariableType {
    /// Whether the value is kept secret.
    pub fn is_secret(&self) -> (r: bool)
        ensures
            r == (*self is Secret),
    {
        matches!(self, VariableType::Secret)
    }
}

/// What a variable belongs to.
#[derive(Clone, Copy, Debug, PartialEq, Eq, Structural)]
pub enum VariableScope {
    Tenant,
    WorkflowMeta,
}

impl VariableScope {
    /// The name of the scope.
    pub open spec fn label(self) -> Seq<char> {
        match self {
            VariableScope::Tenant => "Tenant"@,
            VariableScope::WorkflowMeta => "WorkflowMeta"@,
        }
    }

    /// The name of the scope.
    pub fn name(&self) -> (r: &'static str)
        ensures
            r@ == self.label(),
    {
        match self {
            VariableScope::Tenant => "Tenant",
            VariableScope::WorkflowMeta => "WorkflowMeta",
        }
    }
}

/// A variable. The value of a secret is sealed.
#[derive(Debug)]
pub struct VariableEntity {
    pub id: String,
    pub tenant_id: String,
    pub scope: VariableScope,
    pub scope_id: String,
    pub key: String,
    pub value: String,
    pub variable_type: VariableType,
    pub created_at: Timestamp,
    pub updated_at: Timestamp,
}

/// The mathematical value of a [`VariableEntity`].
#[verifier::ext_equal]
pub struct VariableView {
    pub id: Seq<char>,
    pub tenant_id: Seq<char>,
    pub scope: VariableScope,
    pub scope_id: Seq<char>,
    pub key: Seq<char>,
    pub value: Seq<char>,
    pub variable_type: VariableType,
    pub created_at: Timestamp,
    pub updated_at: Timestamp,
}

impl View for VariableEntity {
    type V = VariableView;

    open spec fn view(&self) -> VariableView {
        VariableView {
            id: self.id@,
            tenant_id: self.tenant_id@,
            scope: self.scope,
            scope_id: self.scope_id@,
            key: self.key@,
            value: self.value@,
            variable_type: self.variable_type,
            created_at: self.created_at,
            updated_at: self.updated_at,
        }
    }
}

/// The values of a list of variables.
pub open spec fn variables(s: Seq<VariableEntity>) -> Seq<VariableView> {
    Seq::new(s.len(), |i: int| s[i]@)
}

/// What a text is as a number of double precision, in the way of [`str::parse`], written in the way
/// of [`serde_json::Number::from_f64`]: nothing if it is no number, and no text if it is not
/// finite.
pub uninterp spec fn double_text(raw: Seq<char>) -> Option<Option<Seq<char>>>;

/// [`str::parse`] to a number of double precision, and [`serde_json::Number::from_f64`] of it: its
/// text as JSON has it, no text if it is not finite; nothing if the text is no number.
#[verifier::external_body]
fn parse_double(raw: &str) -> (r: Option<Option<String>>)
    ensures
        match r {
            Some(Some(t)) => double_text(raw@) == Some(Some(t@)),
            Some(None) => double_text(raw@) == Some(None::<Seq<char>>),
            None => double_text(raw@) is None,
        },
{
    match raw.parse() {
        Ok(x) => Some(serde_json::Number::from_f64(x).map(|n| n.to_string())),
        Err(_) => None,
    }
}

/// What a number that was read is as JSON: one that is not finite is `null`.
pub open spec fn number_value(read: Option<Option<Seq<char>>>) -> Result<JsonView, Seq<char>> {
    match read {
        Some(Some(t)) => Ok(JsonView::Number(NumberView::Decimal(t))),
        Some(None) => Ok(JsonView::Null),
        None => Err("value is not a valid number"@),
    }
}

/// What a text is as JSON, or the error that it is none.
pub open spec fn json_value(read: Result<JsonView, Seq<char>>) -> Result<JsonView, Seq<char>> {
    match read {
        Ok(v) => Ok(v),
        Err(e) => Err("value is not valid JSON: "@ + e),
    }
}

/// What a variable of a type has for a value, by its text.
pub open spec fn variable_value(value_type: VariableType, raw: Seq<char>) -> Result<
    JsonView,
    Seq<char>,
> {
    match value_type {
        VariableType::String | VariableType::Secret => Ok(JsonView::Str(raw)),
        VariableType::Number => number_value(double_text(raw)),
        VariableType::Bool => if raw == "true"@ {
            Ok(JsonView::Bool(true))
        } else if raw == "false"@ {
            Ok(JsonView::Bool(false))
        } else {
            Err("value is not a valid bool"@)
        },
        VariableType::Json => json_value(parsed_json(raw)),
    }
}

/// The mathematical value of a result.
pub open spec fn json_result(r: Result<Json, String>) -> Result<JsonView, Seq<char>> {
    match r {
        Ok(v) => Ok(v@),
        Err(e) => Err(e@),
    }
}

/// What a number that was read is as JSON.
pub fn number_read(read: Option<Option<String>>) -> (r: Result<Json, String>)
    ensures
        json_result(r) == number_value(
            match read {
                Some(Some(t)) => Some(Some(t@)),
                Some(None) => Some(None),
                None => None,
            },
        ),
{
    match read {
        Some(Some(t)) => Ok(Json::Number(JsonNumber::Decimal(t))),
        Some(None) => Ok(Json::Null),
        None => Err(owned("value is not a valid number")),
    }
}

/// What a text that was read as JSON is.
pub fn json_read(read: Result<Json, String>) -> (r: Result<Json, String>)
    ensures
        json_result(r) == json_value(json_result(read)),
{
    match read {
        Ok(v) => Ok(v),
        Err(e) => Err(concat2("value is not valid JSON: ", e.as_str())),
    }
}

/// What a variable of a type has for a value, by its text.
pub fn parse_variable_value(value_type: &VariableType, raw: &str) -> (r: Result<Json, String>)
    ensures
        json_result(r) == variable_value(*value_type, raw@),
{
    match value_type {
        VariableType::String | VariableType::Secret => Ok(Json::Str(owned(raw))),
        VariableType::Number => number_read(parse_double(raw)),
        VariableType::Bool => if same(raw, "true") {
            Ok(Json::Bool(true))
        } else if same(raw, "false") {
            Ok(Json::Bool(false))
        } else {
            Err(owned("value is not a valid bool"))
        },
        VariableType::Json => json_read(Json::parse(raw)),
    }
}

/// The entries of a value, if it is an object; else none.
pub open spec fn entries_or_none(v: JsonView) -> Map<Seq<char>, JsonView> {
    match v {
        JsonView::Object(m) => m,
        _ => Map::empty(),
    }
}

/// Sets the entries of an object in a map; a value that is no object sets none.
pub fn merge_json_into_map(map: &mut Vec<(String, Json)>, source: &Json)
    ensures
        entries_model(final(map)@) == entries_model(old(map)@).union_prefer_right(
            entries_or_none(source@),
        ),
{
    match source {
        Json::Object(entries) => {
            let merged = merge_entries(map, entries);
            *map = merged;
        },
        _ => {
            assert(entries_model(map@).union_prefer_right(Map::empty()) =~= entries_model(map@));
        },
    }
}

/// The value of a variable, where a secret is opened with the key.
pub open spec fn resolved_value(key: Seq<u8>, var: VariableView) -> Result<JsonView, Seq<char>> {
    if var.variable_type is Secret {
        match decrypted(key, var.value) {
            Ok(raw) => variable_value(var.variable_type, raw),
            Err(e) => Err(e),
        }
    } else {
        variable_value(var.variable_type, var.value)
    }
}

/// The values of variables by their keys; of two with one key the later counts. The first variable
/// without a value is an error.
pub open spec fn resolved_variables(key: Seq<u8>, vars: Seq<VariableView>) -> Result<
    Map<Seq<char>, JsonView>,
    Seq<char>,
>
    decreases vars.len(),
{
    if vars.len() == 0 {
        Ok(Map::empty())
    } else {
        match resolved_variables(key, vars.drop_last()) {
            Err(e) => Err(e),
            Ok(m) => match resolved_value(key, vars.last()) {
                Err(e) => Err(e),
                Ok(v) => Ok(m.insert(vars.last().key, v)),
            },
        }
    }
}

/// The context of a run: what comes later counts before what comes earlier.
pub open spec fn layered(
    tenant: Map<Seq<char>, JsonView>,
    meta: Map<Seq<char>, JsonView>,
    instance_context: JsonView,
    node_context: JsonView,
) -> Map<Seq<char>, JsonView> {
    tenant.union_prefer_right(meta).union_prefer_right(
        entries_or_none(instance_context),
    ).union_prefer_right(entries_or_none(node_context))
}

/// The context that a node sees: the variables of the tenant, over them those of the workflow, over
/// them the context of the instance, over it that of the node.
pub open spec fn resolved_context(
    key: Seq<u8>,
    tenant_vars: Seq<VariableView>,
    meta_vars: Seq<VariableView>,
    instance_context: JsonView,
    node_context: JsonView,
) -> Result<JsonView, Seq<char>> {
    match resolved_variables(key, tenant_vars) {
        Err(e) => Err(e),
        Ok(tenant) => match resolved_variables(key, meta_vars) {
            Err(e) => Err(e),
            Ok(meta) => Ok(
                JsonView::Object(layered(tenant, meta, instance_context, node_context)),
            ),
        },
    }
}

/// The context that a task without a workflow sees: the variables of the tenant, and over them what
/// the user gives.
pub open spec fn standalone_context(
    key: Seq<u8>,
    tenant_vars: Seq<VariableView>,
    user_context: JsonView,
) -> Result<JsonView, Seq<char>> {
    match resolved_variables(key, tenant_vars) {
        Err(e) => Err(e),
        Ok(tenant) => Ok(
            JsonView::Object(tenant.union_prefer_right(entries_or_none(user_context))),
        ),
    }
}

/// What a key stands for in a node's context: what the node says, or else the instance, or else the
/// workflow, or else the tenant.
pub proof fn law_inner_contexts_count_first(
    tenant: Map<Seq<char>, JsonView>,
    meta: Map<Seq<char>, JsonView>,
    instance_context: JsonView,
    node_context: JsonView,
    k: Seq<char>,
)
    ensures
        ({
            let all = layered(tenant, meta, instance_context, node_context);
            let node = entries_or_none(node_context);
            let instance = entries_or_none(instance_context);
            if node.contains_key(k) {
                all.contains_key(k) && all[k] == node[k]
            } else if instance.contains_key(k) {
                all.contains_key(k) && all[k] == instance[k]
            } else if meta.contains_key(k) {
                all.contains_key(k) && all[k] == meta[k]
            } else if tenant.contains_key(k) {
                all.contains_key(k) && all[k] == tenant[k]
            } else {
                !all.contains_key(k)
            }
        }),
{
}

/// A variable as it may be shown: the value of a secret is hidden.
pub open spec fn masked(var: VariableView) -> VariableView {
    if var.variable_type is Secret {
        VariableView { value: secret_mask(), ..var }
    } else {
        var
    }
}

/// What is shown of a secret does not depend on its value.
pub proof fn law_secrets_are_not_shown(a: VariableView, value: Seq<char>)
    requires
        a.variable_type is Secret,
    ensures
        masked(a) == masked(VariableView { value, ..a }),
{
}

/// Keeps variables. Reading and writing them is the caller's.
pub struct VariableService {
    secrets: SecretBox,
}

/// The message of a key that is taken.
pub open spec fn key_taken(entity: VariableView, existing_id: Seq<char>) -> Seq<char> {
    "variable key '"@ + entity.key + "' already exists in scope "@ + entity.scope.label() + "/"@
        + entity.scope_id + " (id="@ + existing_id + ")"@
}

/// Whether an error says that a value could not be sealed, with the reason of the cipher.
pub open spec fn seal_failure(e: RepositoryError) -> bool {
    e matches RepositoryError::DatabaseError(m) && exists|why: Seq<char>|
        m@ == #[trigger] ("encryption failed: "@ + why)
}

/// Whether an entity is one that was asked for, as it is to be kept: a secret's value is sealed, so
/// that it opens to what was given.
pub open spec fn kept_as(key: Seq<u8>, asked: VariableView, kept: VariableView) -> bool {
    if asked.variable_type is Secret {
        &&& decrypted(key, kept.value) == Ok::<Seq<char>, Seq<char>>(asked.value)
        &&& kept == VariableView { value: kept.value, ..asked }
    } else {
        kept == asked
    }
}

/// What was given for a secret is what a run sees of it.
pub proof fn law_secrets_read_back(key: Seq<u8>, asked: VariableView, kept: VariableView)
    requires
        kept_as(key, asked, kept),
        asked.variable_type is Secret,
    ensures
        resolved_value(key, kept) == Ok::<JsonView, Seq<char>>(JsonView::Str(asked.value)),
{
}

/// Two services that were made with the same text have the same key, however long the text is.
pub proof fn law_equal_texts_give_equal_keys(a: VariableService, b: VariableService, text: Seq<char>)
    requires
        a.secret_key() == key_of(vstd::utf8::encode_utf8(text)),
        b.secret_key() == key_of(vstd::utf8::encode_utf8(text)),
    ensures
        a.secret_key() == b.secret_key(),
        vstd::utf8::encode_utf8(text).len() >= crate::cipher::KEY_BYTES ==> a.secret_key()
            == vstd::utf8::encode_utf8(text).take(crate::cipher::KEY_BYTES as int),
{
}

/// What one service sealed, another that was made with the same text reads back.
pub proof fn law_a_second_service_reads_the_secrets_of_the_first(
    a: VariableService,
    b: VariableService,
    text: Seq<char>,
    asked: VariableView,
    kept: VariableView,
)
    requires
        a.secret_key() == key_of(vstd::utf8::encode_utf8(text)),
        b.secret_key() == key_of(vstd::utf8::encode_utf8(text)),
        asked.variable_type is Secret,
        kept_as(a.secret_key(), asked, kept),
    ensures
        decrypted(b.secret_key(), kept.value) == Ok::<Seq<char>, Seq<char>>(asked.value),
        resolved_value(b.secret_key(), kept) == Ok::<JsonView, Seq<char>>(
            JsonView::Str(asked.value),
        ),
{
}

impl VariableService {
    /// The key that secrets are sealed under.
    pub closed spec fn secret_key(self) -> Seq<u8> {
        self.secrets.secret_key()
    }

    pub fn new(encrypt_key: String) -> (r: Self)
        ensures
            r.secret_key().len() == crate::cipher::KEY_BYTES,
            r.secret_key() == key_of(vstd::utf8::encode_utf8(encrypt_key@)),
    {
        VariableService { secrets: SecretBox::new(encrypt_key.as_str()) }
    }

    /// The key that secrets are sealed under, which the text that the service was made with gives.
    pub fn derive_key(&self) -> (r: Vec<u8>)
        ensures
            r@ == self.secret_key(),
    {
        self.secrets.key()
    }

    /// A value as it is to be kept: that of a secret is sealed.
    fn keep(&self, entity: VariableEntity) -> (r: Result<VariableEntity, RepositoryError>)
        ensures
            match r {
                Ok(k) => kept_as(self.secret_key(), entity@, k@),
                Err(e) => entity@.variable_type is Secret && vstd::utf8::encode_utf8(
                    entity@.value,
                ).len() > crate::cipher::SEALABLE_BYTES && seal_failure(e),
            },
    {
        let mut kept = entity;
        if kept.variable_type.is_secret() {
            match self.secrets.encrypt(kept.value.as_str()) {
                Ok(sealed) => {
                    kept.value = sealed;
                },
                Err(e) => {
                    return Err(RepositoryError::DatabaseError(e));
                },
            }
        }
        Ok(kept)
    }

    /// A new variable as it is to be written, with an identifier and times. `existing` is the
    /// variable that has the key already, if there is one: that is an error.
    pub fn create_as(
        &self,
        entity: VariableEntity,
        existing: Option<&VariableEntity>,
        id: String,
        created_at: Timestamp,
        updated_at: Timestamp,
    ) -> (r: Result<VariableEntity, RepositoryError>)
        ensures
            match (existing, r) {
                (Some(x), Err(e)) => e matches RepositoryError::DatabaseError(m) && m@ == key_taken(
                    entity@,
                    x@.id,
                ),
                (Some(_), Ok(_)) => false,
                (None, Ok(k)) => kept_as(
                    self.secret_key(),
                    (VariableView { id: id@, created_at, updated_at, ..entity@ }),
                    k@,
                ),
                (None, Err(e)) => entity@.variable_type is Secret && vstd::utf8::encode_utf8(
                    entity@.value,
                ).len() > crate::cipher::SEALABLE_BYTES && seal_failure(e),
            },
    {
        if let Some(x) = existing {
            let mut message = concat3(
                "variable key '",
                entity.key.as_str(),
                "' already exists in scope ",
            );
            message.append(entity.scope.name());
            message.append("/");
            message.append(entity.scope_id.as_str());
            message.append(" (id=");
            message.append(x.id.as_str());
            message.append(")");
            return Err(RepositoryError::DatabaseError(message));
        }
        let mut fresh = entity;
        fresh.id = id;
        fresh.created_at = created_at;
        fresh.updated_at = updated_at;
        self.keep(fresh)
    }

    /// A new variable as it is to be written, with a fresh identifier, made now. See
    /// [`VariableService::create_as`].
    pub fn create(&self, entity: VariableEntity, existing: Option<&VariableEntity>) -> (r: Result<
        VariableEntity,
        RepositoryError,
    >)
        ensures
            match (existing, r) {
                (Some(x), Err(e)) => e matches RepositoryError::DatabaseError(m) && m@ == key_taken(
                    entity@,
                    x@.id,
                ),
                (Some(_), Ok(_)) => false,
                (None, Ok(k)) => k@.id.len() == 36 && kept_as(
                    self.secret_key(),
                    (VariableView {
                        id: k@.id,
                        created_at: k@.created_at,
                        updated_at: k@.updated_at,
                        ..entity@
                    }),
                    k@,
                ),
                (None, Err(e)) => entity@.variable_type is Secret && vstd::utf8::encode_utf8(
                    entity@.value,
                ).len() > crate::cipher::SEALABLE_BYTES && seal_failure(e),
            },
    {
        self.create_as(entity, existing, new_id(), now(), now())
    }

    /// A variable as it may be shown.
    pub fn get_by_id(&self, found: VariableEntity) -> (r: VariableEntity)
        ensures
            r@ == masked(found@),
    {
        let mut entity = found;
        if entity.variable_type.is_secret() {
            entity.value = owned("******");
        }
        entity
    }

    /// A changed variable as it is to be written, at a given time.
    pub fn update_at(&self, entity: VariableEntity, at: Timestamp) -> (r: Result<
        VariableEntity,
        RepositoryError,
    >)
        ensures
            match r {
                Ok(k) => kept_as(
                    self.secret_key(),
                    (VariableView { updated_at: at, ..entity@ }),
                    k@,
                ),
                Err(e) => entity@.variable_type is Secret && vstd::utf8::encode_utf8(
                    entity@.value,
                ).len() > crate::cipher::SEALABLE_BYTES && seal_failure(e),
            },
    {
        let mut changed = entity;
        changed.updated_at = at;
        self.keep(changed)
    }

    /// A changed variable as it is to be written now. See [`VariableService::update_at`].
    pub fn update(&self, entity: VariableEntity) -> (r: Result<VariableEntity, RepositoryError>)
        ensures
            match r {
                Ok(k) => kept_as(
                    self.secret_key(),
                    (VariableView { updated_at: k@.updated_at, ..entity@ }),
                    k@,
                ),
                Err(e) => entity@.variable_type is Secret && vstd::utf8::encode_utf8(
                    entity@.value,
                ).len() > crate::cipher::SEALABLE_BYTES && seal_failure(e),
            },
    {
        self.update_at(entity, now())
    }

    /// Variables as they may be shown, in their order.
    pub fn list_by_scope(&self, found: Vec<VariableEntity>) -> (r: Vec<VariableEntity>)
        ensures
            r@.len() == found@.len(),
            forall|i: int| 0 <= i < found@.len() ==> (#[trigger] r@[i])@ == masked(found@[i]@),
    {
        let mut out = found;
        let mut i: usize = 0;
        while i < out.len()
            invariant
                i <= out@.len(),
                out@.len() == found@.len(),
                forall|k: int| 0 <= k < i ==> (#[trigger] out@[k])@ == masked(found@[k]@),
                forall|k: int| i <= k < out@.len() ==> #[trigger] out@[k] == found@[k],
            decreases out@.len() - i,
        {
            if out[i].variable_type.is_secret() {
                out[i].value = owned("******");
            }
            i = i + 1;
        }
        out
    }

    /// The value of a variable.
    pub fn to_json_value(&self, var: &VariableEntity) -> (r: Result<Json, String>)
        ensures
            json_result(r) == resolved_value(self.secret_key(), var@),
    {
        if var.variable_type.is_secret() {
            match self.secrets.decrypt(var.value.as_str()) {
                Ok(raw) => parse_variable_value(&var.variable_type, raw.as_str()),
                Err(e) => Err(e),
            }
        } else {
            parse_variable_value(&var.variable_type, var.value.as_str())
        }
    }

    /// Sets the values of variables in a map, one after the other; it stops at the first that has
    /// none.
    fn add_variables(&self, merged: &mut Vec<(String, Json)>, vars: &Vec<VariableEntity>) -> (r:
        Result<(), String>)
        ensures
            match (resolved_variables(self.secret_key(), variables(vars@)), r) {
                (Ok(m), Ok(_)) => entries_model(final(merged)@) == entries_model(
                    old(merged)@,
                ).union_prefer_right(m),
                (Err(why), Err(e)) => e@ == why,
                _ => false,
            },
    {
        let ghost all = variables(vars@);
        let ghost start = entries_model(merged@);
        let mut i: usize = 0;
        proof {
            assert(all.take(0) =~= seq![]);
            assert(start.union_prefer_right(Map::empty()) =~= start);
        }
        while i < vars.len()
            invariant
                i <= vars@.len(),
                all == variables(vars@),
                match resolved_variables(self.secret_key(), all.take(i as int)) {
                    Ok(m) => entries_model(merged@) == start.union_prefer_right(m),
                    Err(_) => false,
                },
            decreases vars@.len() - i,
        {
            let var = &vars[i];
            proof {
                assert(all.take(i + 1).drop_last() =~= all.take(i as int));
                assert(all.take(i + 1).last() == var@);
            }
            match self.to_json_value(var) {
                Ok(v) => {
                    let ghost before = resolved_variables(
                        self.secret_key(),
                        all.take(i as int),
                    )->Ok_0;
                    let ghost value = v@;
                    put(merged, var.key.clone(), v);
                    assert(start.union_prefer_right(before).insert(var@.key, value)
                        =~= start.union_prefer_right(before.insert(var@.key, value)));
                },
                Err(e) => {
                    proof {
                        lemma_first_error(self.secret_key(), all, i + 1);
                    }
                    return Err(e);
                },
            }
            i = i + 1;
        }
        assert(all.take(i as int) =~= all);
        Ok(())
    }

    /// The context that a node sees. `tenant_vars` and `meta_vars` are the variables of the tenant
    /// and of the workflow.
    pub fn resolve_variables(
        &self,
        tenant_vars: &Vec<VariableEntity>,
        meta_vars: &Vec<VariableEntity>,
        instance_context: &Json,
        node_context: &Json,
    ) -> (r: Result<Json, RepositoryError>)
        ensures
            match (
                resolved_context(
                    self.secret_key(),
                    variables(tenant_vars@),
                    variables(meta_vars@),
                    instance_context@,
                    node_context@,
                ),
                r,
            ) {
                (Ok(v), Ok(x)) => x@ == v,
                (Err(why), Err(RepositoryError::DatabaseError(e))) => e@ == why,
                _ => false,
            },
    {
        let mut merged: Vec<(String, Json)> = Vec::new();
        if let Err(e) = self.add_variables(&mut merged, tenant_vars) {
            return Err(RepositoryError::DatabaseError(e));
        }
        proof {
            let m = resolved_variables(self.secret_key(), variables(tenant_vars@))->Ok_0;
            assert(Map::<Seq<char>, JsonView>::empty().union_prefer_right(m) =~= m);
        }
        if let Err(e) = self.add_variables(&mut merged, meta_vars) {
            return Err(RepositoryError::DatabaseError(e));
        }
        merge_json_into_map(&mut merged, instance_context);
        merge_json_into_map(&mut merged, node_context);
        Ok(Json::Object(merged))
    }

    /// The context that a task without a workflow sees.
    pub fn resolve_standalone_context(
        &self,
        tenant_vars: &Vec<VariableEntity>,
        user_context: &Json,
    ) -> (r: Result<Json, RepositoryError>)
        ensures
            match (
                standalone_context(self.secret_key(), variables(tenant_vars@), user_context@),
                r,
            ) {
                (Ok(v), Ok(x)) => x@ == v,
                (Err(why), Err(RepositoryError::DatabaseError(e))) => e@ == why,
                _ => false,
            },
    {
        let mut merged: Vec<(String, Json)> = Vec::new();
        if let Err(e) = self.add_variables(&mut merged, tenant_vars) {
            return Err(RepositoryError::DatabaseError(e));
        }
        proof {
            let m = resolved_variables(self.secret_key(), variables(tenant_vars@))->Ok_0;
            assert(Map::<Seq<char>, JsonView>::empty().union_prefer_right(m) =~= m);
        }
        merge_json_into_map(&mut merged, user_context);
        Ok(Json::Object(merged))
    }
}

/// An error stays the error of every longer list.
proof fn lemma_first_error(key: Seq<u8>, vars: Seq<VariableView>, n: int)
    requires
        0 <= n <= vars.len(),
        resolved_variables(key, vars.take(n)) is Err,
    ensures
        resolved_variables(key, vars) == resolved_variables(key, vars.take(n)),
    decreases vars.len() - n,
{
    if n < vars.len() {
        assert(vars.take(n + 1).drop_last() =~= vars.take(n));
        lemma_first_error(key, vars, n + 1);
    } else {
        assert(vars.take(n) =~= vars);
    }
}

/// The value of a variable is its text as its type reads it: a string and a secret are the text
/// itself, a bool is one of two words, and JSON is what the text is as JSON.
pub proof fn law_a_variable_is_read_by_its_type(raw: Seq<char>)
    ensures
        variable_value(VariableType::String, raw) == Ok::<JsonView, Seq<char>>(JsonView::Str(raw)),
        variable_value(VariableType::Secret, raw) == Ok::<JsonView, Seq<char>>(JsonView::Str(raw)),
        variable_value(VariableType::Bool, raw) == Ok::<JsonView, Seq<char>>(JsonView::Bool(true))
            <==> raw == "true"@,
        variable_value(VariableType::Bool, raw) == Ok::<JsonView, Seq<char>>(JsonView::Bool(false))
            <==> raw == "false"@,
        variable_value(VariableType::Bool, raw) is Err <==> raw != "true"@ && raw != "false"@,
        variable_value(VariableType::Json, raw) is Ok <==> parsed_json(raw) is Ok,
        parsed_json(raw) matches Ok(v) ==> variable_value(VariableType::Json, raw) == Ok::<
            JsonView,
            Seq<char>,
        >(v),
        variable_value(VariableType::Number, raw) is Err <==> double_text(raw) is None,
        double_text(raw) matches Some(Some(t)) ==> variable_value(VariableType::Number, raw) == Ok::<
            JsonView,
            Seq<char>,
        >(JsonView::Number(NumberView::Decimal(t))),
        double_text(raw) == Some(None::<Seq<char>>) ==> variable_value(VariableType::Number, raw)
            == Ok::<JsonView, Seq<char>>(JsonView::Null),
{
    reveal_strlit("true");
    reveal_strlit("false");
    assert("true"@.len() == 4 && "false"@.len() == 5);
}

/// Variables are resolved exactly if each of them has a value; each key then stands for the value of
/// the last variable with that key, and there are no other keys.
pub proof fn law_variables_resolve_to_their_last_values(
    key: Seq<u8>,
    vars: Seq<VariableView>,
    name: Seq<char>,
    i: int,
)
    ensures
        resolved_variables(key, vars) is Ok <==> forall|j: int|
            0 <= j < vars.len() ==> resolved_value(key, #[trigger] vars[j]) is Ok,
        resolved_variables(key, vars) matches Ok(m) ==> {
            &&& (0 <= i < vars.len() && vars[i].key == name && (forall|j: int|
                i < j < vars.len() ==> (#[trigger] vars[j]).key != name)) ==> m.contains_key(name)
                && resolved_value(key, vars[i]) == Ok::<JsonView, Seq<char>>(m[name])
            &&& (forall|j: int| 0 <= j < vars.len() ==> (#[trigger] vars[j]).key != name)
                ==> !m.contains_key(name)
        },
    decreases vars.len(),
{
    if vars.len() > 0 {
        let front = vars.drop_last();
        let n = vars.len() - 1;
        law_variables_resolve_to_their_last_values(key, front, name, i);
        assert forall|j: int| 0 <= j < front.len() implies front[j] == vars[j] by {}
        if forall|j: int| 0 <= j < vars.len() ==> resolved_value(key, #[trigger] vars[j]) is Ok {
            assert forall|j: int| 0 <= j < front.len() implies resolved_value(
                key,
                #[trigger] front[j],
            ) is Ok by {
                assert(resolved_value(key, vars[j]) is Ok);
            }
            assert(resolved_value(key, vars[n]) is Ok);
        }
        if resolved_variables(key, vars) is Ok {
            assert forall|j: int| 0 <= j < vars.len() implies resolved_value(
                key,
                #[trigger] vars[j],
            ) is Ok by {
                if j < n {
                    assert(resolved_value(key, front[j]) is Ok);
                }
            }
            if 0 <= i < n && vars[i].key == name && (forall|j: int|
                i < j < vars.len() ==> (#[trigger] vars[j]).key != name) {
                assert(vars[n].key != name);
                assert forall|j: int| i < j < front.len() implies (#[trigger] front[j]).key
                    != name by {
                    assert(vars[j].key != name);
                }
            }
            if forall|j: int| 0 <= j < vars.len() ==> (#[trigger] vars[j]).key != name {
                assert forall|j: int| 0 <= j < front.len() implies (#[trigger] front[j]).key
                    != name by {
                    assert(vars[j].key != name);
                }
                assert(vars[n].key != name);
            }
        }
    }
}

/// What a node sees under a name: what its own context says, or else the instance's, or else the
/// workflow's variable, or else the tenant's; it sees nothing else.
pub proof fn law_a_node_sees_the_innermost_value(
    key: Seq<u8>,
    tenant_vars: Seq<VariableView>,
    meta_vars: Seq<VariableView>,
    instance_context: JsonView,
    node_context: JsonView,
    name: Seq<char>,
    t: int,
    m: int,
)
    requires
        0 <= t < tenant_vars.len(),
        tenant_vars[t].key == name,
        forall|j: int| t < j < tenant_vars.len() ==> (#[trigger] tenant_vars[j]).key != name,
        0 <= m < meta_vars.len(),
        meta_vars[m].key == name,
        forall|j: int| m < j < meta_vars.len() ==> (#[trigger] meta_vars[j]).key != name,
    ensures
        resolved_context(key, tenant_vars, meta_vars, instance_context, node_context) matches Ok(
            seen,
        ) ==> {
            &&& node_context.field(name) is Some ==> seen.field(name) == node_context.field(name)
            &&& node_context.field(name) is None && instance_context.field(name) is Some
                ==> seen.field(name) == instance_context.field(name)
            &&& node_context.field(name) is None && instance_context.field(name) is None ==> (
            seen.field(name) matches Some(v) && resolved_value(key, meta_vars[m]) == Ok::<
                JsonView,
                Seq<char>,
            >(v))
        },
{
    law_variables_resolve_to_their_last_values(key, tenant_vars, name, t);
    law_variables_resolve_to_their_last_values(key, meta_vars, name, m);
}

/// A name that no variable of the workflow has stands for the tenant's variable, unless a context
/// names it; one that nobody names stands for nothing.
pub proof fn law_the_tenants_variables_count_last(
    key: Seq<u8>,
    tenant_vars: Seq<VariableView>,
    meta_vars: Seq<VariableView>,
    instance_context: JsonView,
    node_context: JsonView,
    name: Seq<char>,
    t: int,
)
    requires
        forall|j: int| 0 <= j < meta_vars.len() ==> (#[trigger] meta_vars[j]).key != name,
        instance_context.field(name) is None,
        node_context.field(name) is None,
    ensures
        resolved_context(key, tenant_vars, meta_vars, instance_context, node_context) matches Ok(
            seen,
        ) ==> {
            &&& (0 <= t < tenant_vars.len() && tenant_vars[t].key == name && (forall|j: int|
                t < j < tenant_vars.len() ==> (#[trigger] tenant_vars[j]).key != name)) ==> (
            seen.field(name) matches Some(v) && resolved_value(key, tenant_vars[t]) == Ok::<
                JsonView,
                Seq<char>,
            >(v))
            &&& (forall|j: int| 0 <= j < tenant_vars.len() ==> (#[trigger] tenant_vars[j]).key
                != name) ==> seen.field(name) is None
        },
{
    law_variables_resolve_to_their_last_values(key, tenant_vars, name, t);
    law_variables_resolve_to_their_last_values(key, meta_vars, name, 0);
}

/// What a task without a workflow sees under a name: what the user gives, or else the tenant's
/// variable, or else nothing.
pub proof fn law_what_the_user_gives_counts_first(
    key: Seq<u8>,
    tenant_vars: Seq<VariableView>,
    user_context: JsonView,
    name: Seq<char>,
    t: int,
)
    ensures
        standalone_context(key, tenant_vars, user_context) is Ok <==> forall|j: int|
            0 <= j < tenant_vars.len() ==> resolved_value(key, #[trigger] tenant_vars[j]) is Ok,
        standalone_context(key, tenant_vars, user_context) matches Ok(seen) ==> {
            &&& user_context.field(name) is Some ==> seen.field(name) == user_context.field(name)
            &&& (user_context.field(name) is None && 0 <= t < tenant_vars.len()
                && tenant_vars[t].key == name && (forall|j: int|
                t < j < tenant_vars.len() ==> (#[trigger] tenant_vars[j]).key != name)) ==> (
            seen.field(name) matches Some(v) && resolved_value(key, tenant_vars[t]) == Ok::<
                JsonView,
                Seq<char>,
            >(v))
            &&& (user_context.field(name) is None && forall|j: int|
                0 <= j < tenant_vars.len() ==> (#[trigger] tenant_vars[j]).key != name)
                ==> seen.field(name) is None
        },
{
    law_variables_resolve_to_their_last_values(key, tenant_vars, name, t);
}

/// What is shown of a variable is the variable; of a secret the mask stands for its value, and
/// everything else is shown.
pub proof fn law_only_a_secrets_value_is_hidden(var: VariableView)
    ensures
        !(var.variable_type is Secret) ==> masked(var) == var,
        var.variable_type is Secret ==> masked(var).value == "******"@,
        masked(var) == (VariableView { value: masked(var).value, ..var }),
{
}

/// What is kept of a variable is what was asked for; only the text of a secret differs, and that
/// opens to what was given.
pub proof fn law_what_is_kept_is_what_was_asked_for(
    key: Seq<u8>,
    asked: VariableView,
    kept: VariableView,
)
    requires
        kept_as(key, asked, kept),
    ensures
        !(asked.variable_type is Secret) ==> kept == asked,
        kept == (VariableView { value: kept.value, ..asked }),
        resolved_value(key, kept) == (if asked.variable_type is Secret {
            Ok::<JsonView, Seq<char>>(JsonView::Str(asked.value))
        } else {
            resolved_value(key, asked)
        }),
{
}

/// A key that is taken is told by the key, where it is taken, and by whom.
pub proof fn law_a_taken_key_is_told(entity: VariableView, existing_id: Seq<char>)
    ensures
        key_taken(entity, existing_id) == "variable key '"@ + entity.key
            + "' already exists in scope "@ + entity.scope.label() + "/"@ + entity.scope_id
            + " (id="@ + existing_id + ")"@,
        VariableScope::Tenant.label() == "Tenant"@,
        VariableScope::WorkflowMeta.label() == "WorkflowMeta"@,
{
}

} // verus!
