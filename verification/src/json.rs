//! JSON values. Contexts, task inputs and task outputs are all of this type.

use crate::text::{opt_slice, opt_text, same, texts};
use vstd::prelude::*;

verus! {

/// A JSON number. Integers are kept exactly; any other number is kept as its decimal text.
#[derive(Debug, PartialEq, Eq)]
pub enum JsonNumber {
    /// A non-negative integer.
    Unsigned(u64),
    /// A negative integer.
    Negative(i64),
    /// A number that is not an integer of 64 bits, by its text.
    Decimal(String),
}

/// A JSON value. An object keeps its entries in a list; where a key occurs twice the first
/// entry counts.
#[derive(Debug, PartialEq, Eq)]
pub enum Json {
    Null,
    Bool(bool),
    Number(JsonNumber),
    Str(String),
    Array(Vec<Json>),
    Object(Vec<(String, Json)>),
}

/// The mathematical value of a [`JsonNumber`].
pub enum NumberView {
    Unsigned(u64),
    Negative(i64),
    Decimal(Seq<char>),
}

/// The mathematical value of a [`Json`]: an object is a map from keys to values.
#[verifier::ext_equal]
pub enum JsonView {
    Null,
    Bool(bool),
    Number(NumberView),
    Str(Seq<char>),
    Array(Seq<JsonView>),
    Object(Map<Seq<char>, JsonView>),
}

/// A [`Json`] with the entries of its objects in their order.
#[verifier::ext_equal]
pub enum OrderedView {
    Null,
    Bool(bool),
    Number(NumberView),
    Str(Seq<char>),
    Array(Seq<OrderedView>),
    Object(Seq<(Seq<char>, OrderedView)>),
}

impl View for JsonNumber {
    type V = NumberView;

    open spec fn view(&self) -> NumberView {
        match self {
            JsonNumber::Unsigned(n) => NumberView::Unsigned(*n),
            JsonNumber::Negative(n) => NumberView::Negative(*n),
            JsonNumber::Decimal(s) => NumberView::Decimal(s@),
        }
    }
}

/// The values of a list of JSON values.
pub open spec fn items_model(s: Seq<Json>) -> Seq<JsonView>
    decreases s,
{
    if s.len() == 0 {
        Seq::empty()
    } else {
        items_model(s.subrange(0, s.len() - 1)).push(s[s.len() - 1].model())
    }
}

/// The map that a list of entries stands for: the first entry of a key counts.
pub open spec fn entries_model(s: Seq<(String, Json)>) -> Map<Seq<char>, JsonView>
    decreases s,
{
    if s.len() == 0 {
        Map::empty()
    } else {
        let front = entries_model(s.subrange(0, s.len() - 1));
        let key = s[s.len() - 1].0@;
        if front.contains_key(key) {
            front
        } else {
            front.insert(key, s[s.len() - 1].1.model())
        }
    }
}

/// The values of a list of JSON values, with the entries of objects in their order.
pub open spec fn items_ordered(s: Seq<Json>) -> Seq<OrderedView>
    decreases s,
{
    if s.len() == 0 {
        Seq::empty()
    } else {
        items_ordered(s.subrange(0, s.len() - 1)).push(s[s.len() - 1].ordered())
    }
}

/// The entries of an object in their order.
pub open spec fn entries_ordered(s: Seq<(String, Json)>) -> Seq<(Seq<char>, OrderedView)>
    decreases s,
{
    if s.len() == 0 {
        Seq::empty()
    } else {
        entries_ordered(s.subrange(0, s.len() - 1)).push(
            (s[s.len() - 1].0@, s[s.len() - 1].1.ordered()),
        )
    }
}

impl Json {
    /// The value with the entries of its objects in their order.
    pub open spec fn ordered(self) -> OrderedView
        decreases self,
    {
        match self {
            Json::Null => OrderedView::Null,
            Json::Bool(b) => OrderedView::Bool(b),
            Json::Number(n) => OrderedView::Number(n@),
            Json::Str(s) => OrderedView::Str(s@),
            Json::Array(v) => OrderedView::Array(items_ordered(v@)),
            Json::Object(v) => OrderedView::Object(entries_ordered(v@)),
        }
    }

    /// The value as mathematics sees it.
    pub open spec fn model(self) -> JsonView
        decreases self,
    {
        match self {
            Json::Null => JsonView::Null,
            Json::Bool(b) => JsonView::Bool(b),
            Json::Number(n) => JsonView::Number(n@),
            Json::Str(s) => JsonView::Str(s@),
            Json::Array(v) => JsonView::Array(items_model(v@)),
            Json::Object(v) => JsonView::Object(entries_model(v@)),
        }
    }
}

impl View for Json {
    type V = JsonView;

    open spec fn view(&self) -> JsonView {
        self.model()
    }
}

impl Clone for JsonNumber {
    fn clone(&self) -> (r: Self)
        ensures
            r@ == self@,
    {
        match self {
            JsonNumber::Unsigned(n) => JsonNumber::Unsigned(*n),
            JsonNumber::Negative(n) => JsonNumber::Negative(*n),
            JsonNumber::Decimal(s) => JsonNumber::Decimal(s.clone()),
        }
    }
}

impl Clone for Json {
    fn clone(&self) -> (r: Self)
        ensures
            r@ == self@,
        decreases self,
    {
        match self {
            Json::Null => Json::Null,
            Json::Bool(b) => Json::Bool(*b),
            Json::Number(n) => Json::Number(n.clone()),
            Json::Str(s) => Json::Str(s.clone()),
            Json::Array(v) => {
                let mut out: Vec<Json> = Vec::new();
                let mut i: usize = 0;
                while i < v.len()
                    invariant
                        i <= v@.len(),
                        out@.len() == i,
                        items_model(out@) == items_model(v@.subrange(0, i as int)),
                        *self == Json::Array(*v),
                    decreases v@.len() - i,
                {
                    let ghost done = out@;
                    assert(decreases_to!(v@ => v@[i as int]));
                    assert(decreases_to!(v => v@));
                    assert(decreases_to!(self => self->Array_0));
                    let x = v[i].clone();
                    out.push(x);
                    i = i + 1;
                    assert(out@.subrange(0, i - 1) =~= done);
                    assert(v@.subrange(0, i as int).subrange(0, i - 1) =~= v@.subrange(0, i - 1));
                }
                assert(v@.subrange(0, i as int) =~= v@);
                Json::Array(out)
            },
            Json::Object(v) => {
                let mut out: Vec<(String, Json)> = Vec::new();
                let mut i: usize = 0;
                while i < v.len()
                    invariant
                        i <= v@.len(),
                        out@.len() == i,
                        entries_model(out@) == entries_model(v@.subrange(0, i as int)),
                        *self == Json::Object(*v),
                    decreases v@.len() - i,
                {
                    let ghost done = out@;
                    assert(decreases_to!(v@[i as int] => v@[i as int].1));
                    assert(decreases_to!(v@ => v@[i as int]));
                    assert(decreases_to!(v => v@));
                    assert(decreases_to!(self => self->Object_0));
                    let x = v[i].1.clone();
                    out.push((v[i].0.clone(), x));
                    i = i + 1;
                    assert(out@.subrange(0, i - 1) =~= done);
                    assert(v@.subrange(0, i as int).subrange(0, i - 1) =~= v@.subrange(0, i - 1));
                }
                assert(v@.subrange(0, i as int) =~= v@);
                Json::Object(out)
            },
        }
    }
}

impl JsonView {
    /// The entry of an object under `key`.
    pub open spec fn field(self, key: Seq<char>) -> Option<JsonView> {
        match self {
            JsonView::Object(m) => if m.contains_key(key) {
                Some(m[key])
            } else {
                None
            },
            _ => None,
        }
    }

    /// The text of a string.
    pub open spec fn text(self) -> Option<Seq<char>> {
        match self {
            JsonView::Str(s) => Some(s),
            _ => None,
        }
    }

    /// The number, if it is a non-negative integer.
    pub open spec fn unsigned(self) -> Option<u64> {
        match self {
            JsonView::Number(NumberView::Unsigned(n)) => Some(n),
            _ => None,
        }
    }

    /// The items of an array.
    pub open spec fn items(self) -> Option<Seq<JsonView>> {
        match self {
            JsonView::Array(s) => Some(s),
            _ => None,
        }
    }

    /// The entries of an object.
    pub open spec fn entries(self) -> Option<Map<Seq<char>, JsonView>> {
        match self {
            JsonView::Object(m) => Some(m),
            _ => None,
        }
    }

    /// An object with one entry set; any other value is left as it is.
    pub open spec fn with(self, key: Seq<char>, value: JsonView) -> JsonView {
        match self {
            JsonView::Object(m) => JsonView::Object(m.insert(key, value)),
            _ => self,
        }
    }
}

/// The entry under `key` of a value that may be missing.
pub open spec fn field_of(v: Option<JsonView>, key: Seq<char>) -> Option<JsonView> {
    match v {
        Some(j) => j.field(key),
        None => None,
    }
}

/// The text of a value that may be missing.
pub open spec fn text_of(v: Option<JsonView>) -> Option<Seq<char>> {
    match v {
        Some(j) => j.text(),
        None => None,
    }
}

/// The unsigned number of a value that may be missing.
pub open spec fn unsigned_of(v: Option<JsonView>) -> Option<u64> {
    match v {
        Some(j) => j.unsigned(),
        None => None,
    }
}

/// The value of an optional JSON value.
pub open spec fn opt_json(v: Option<Json>) -> Option<JsonView> {
    match v {
        Some(j) => Some(j@),
        None => None,
    }
}

/// An optional value as JSON has it: `null` where it is missing.
pub open spec fn or_null(v: Option<JsonView>) -> JsonView {
    match v {
        Some(j) => j,
        None => JsonView::Null,
    }
}

/// An optional text as JSON has it: `null` where it is missing.
pub open spec fn text_or_null(v: Option<Seq<char>>) -> JsonView {
    match v {
        Some(s) => JsonView::Str(s),
        None => JsonView::Null,
    }
}

/// The JSON number of an unsigned integer.
pub open spec fn number(n: u64) -> JsonView {
    JsonView::Number(NumberView::Unsigned(n))
}

/// A list's model has the list's length, and the model of each item in its place.
pub proof fn lemma_items_model(s: Seq<Json>)
    ensures
        items_model(s).len() == s.len(),
        forall|i: int| 0 <= i < s.len() ==> #[trigger] items_model(s)[i] == s[i].model(),
    decreases s.len(),
{
    if s.len() > 0 {
        lemma_items_model(s.subrange(0, s.len() - 1));
    }
}

/// The first entry of a key gives the key's value.
proof fn lemma_entry_present(s: Seq<(String, Json)>, i: int)
    requires
        0 <= i < s.len(),
        forall|j: int| 0 <= j < i ==> #[trigger] s[j].0@ != s[i].0@,
    ensures
        entries_model(s).contains_key(s[i].0@),
        entries_model(s)[s[i].0@] == s[i].1.model(),
    decreases s.len(),
{
    let front = s.subrange(0, s.len() - 1);
    if i < s.len() - 1 {
        assert forall|j: int| 0 <= j < i implies #[trigger] front[j].0@ != front[i].0@ by {
            assert(front[j] == s[j]);
        }
        lemma_entry_present(front, i);
    } else {
        assert forall|j: int| 0 <= j < front.len() implies #[trigger] front[j].0@ != s[i].0@ by {
            assert(front[j] == s[j]);
        }
        lemma_entry_absent(front, s[i].0@);
    }
}

/// A key that no entry has is not in the map.
proof fn lemma_entry_absent(s: Seq<(String, Json)>, key: Seq<char>)
    requires
        forall|j: int| 0 <= j < s.len() ==> #[trigger] s[j].0@ != key,
    ensures
        !entries_model(s).contains_key(key),
    decreases s.len(),
{
    if s.len() > 0 {
        let front = s.subrange(0, s.len() - 1);
        assert forall|j: int| 0 <= j < front.len() implies #[trigger] front[j].0@ != key by {
            assert(front[j] == s[j]);
        }
        lemma_entry_absent(front, key);
    }
}

/// Overwriting the first entry of a key sets the key's value.
proof fn lemma_entry_replace(s: Seq<(String, Json)>, i: int, entry: (String, Json))
    requires
        0 <= i < s.len(),
        entry.0@ == s[i].0@,
        forall|j: int| 0 <= j < i ==> #[trigger] s[j].0@ != s[i].0@,
    ensures
        entries_model(s.update(i, entry)) == entries_model(s).insert(entry.0@, entry.1.model()),
    decreases s.len(),
{
    let n = s.len() - 1;
    let front = s.subrange(0, n);
    let updated = s.update(i, entry);
    if i < n {
        assert(updated.subrange(0, n) =~= front.update(i, entry));
        assert forall|j: int| 0 <= j < i implies #[trigger] front[j].0@ != front[i].0@ by {
            assert(front[j] == s[j]);
        }
        lemma_entry_replace(front, i, entry);
        lemma_entry_present(front, i);
        assert(entries_model(updated) =~= entries_model(s).insert(entry.0@, entry.1.model()));
    } else {
        assert(updated.subrange(0, n) =~= front);
        assert forall|j: int| 0 <= j < front.len() implies #[trigger] front[j].0@ != s[i].0@ by {
            assert(front[j] == s[j]);
        }
        lemma_entry_absent(front, s[i].0@);
        assert(entries_model(updated) =~= entries_model(s).insert(entry.0@, entry.1.model()));
    }
}

/// The place of the first entry with the given key.
fn find_entry(entries: &Vec<(String, Json)>, key: &str) -> (r: Option<usize>)
    ensures
        match r {
            Some(i) => i < entries@.len() && entries@[i as int].0@ == key@ && (forall|j: int|
                0 <= j < i ==> #[trigger] entries@[j].0@ != key@),
            None => forall|j: int| 0 <= j < entries@.len() ==> #[trigger] entries@[j].0@ != key@,
        },
{
    let mut i: usize = 0;
    while i < entries.len()
        invariant
            i <= entries@.len(),
            forall|j: int| 0 <= j < i ==> #[trigger] entries@[j].0@ != key@,
        decreases entries@.len() - i,
    {
        if same(entries[i].0.as_str(), key) {
            return Some(i);
        }
        i = i + 1;
    }
    None
}

/// The value under `key` in a list of entries.
pub fn lookup<'a>(entries: &'a Vec<(String, Json)>, key: &str) -> (r: Option<&'a Json>)
    ensures
        match r {
            Some(v) => entries_model(entries@).contains_key(key@) && entries_model(entries@)[key@]
                == v@,
            None => !entries_model(entries@).contains_key(key@),
        },
{
    match find_entry(entries, key) {
        Some(i) => {
            proof {
                lemma_entry_present(entries@, i as int);
            }
            Some(&entries[i].1)
        },
        None => {
            proof {
                lemma_entry_absent(entries@, key@);
            }
            None
        },
    }
}

/// Sets the value under `key`: a key that is there keeps its place, a new one goes to the end.
pub fn put(entries: &mut Vec<(String, Json)>, key: String, value: Json)
    ensures
        entries_model(final(entries)@) == entries_model(old(entries)@).insert(key@, value@),
        keys_listed(final(entries)@) == with_key(keys_listed(old(entries)@), key@),
{
    match find_entry(entries, key.as_str()) {
        Some(i) => {
            let ghost before = entries@;
            let ghost entry = (key, value);
            proof {
                lemma_entry_replace(before, i as int, entry);
                lemma_listed(before, key@);
                lemma_same_keys(before, before.update(i as int, entry));
            }
            entries.set(i, (key, value));
        },
        None => {
            let ghost before = entries@;
            proof {
                lemma_entry_absent(before, key@);
            }
            entries.push((key, value));
            assert(entries@.subrange(0, entries@.len() - 1) =~= before);
            assert(entries@.drop_last() =~= before);
        },
    }
}

/// Sets the value under a key that is given as a slice.
pub fn put_str(entries: &mut Vec<(String, Json)>, key: &str, value: Json)
    ensures
        entries_model(final(entries)@) == entries_model(old(entries)@).insert(key@, value@),
        keys_listed(final(entries)@) == with_key(keys_listed(old(entries)@), key@),
{
    put(entries, key.to_owned(), value);
}

/// An optional value as JSON has it: `null` where it is missing.
pub fn json_or_null(v: Option<Json>) -> (r: Json)
    ensures
        r@ == or_null(opt_json(v)),
{
    match v {
        Some(j) => j,
        None => Json::Null,
    }
}

/// A JSON string.
pub fn json_text(s: &str) -> (r: Json)
    ensures
        r@ == JsonView::Str(s@),
{
    Json::Str(s.to_owned())
}

/// A JSON string, or `null` where the text is missing.
pub fn json_opt_text(s: &Option<String>) -> (r: Json)
    ensures
        r@ == text_or_null(opt_text(*s)),
{
    match s {
        Some(t) => Json::Str(t.clone()),
        None => Json::Null,
    }
}

/// A JSON number of an unsigned integer.
pub fn json_number(n: u64) -> (r: Json)
    ensures
        r@ == number(n),
{
    Json::Number(JsonNumber::Unsigned(n))
}

/// A copy of an optional value.
pub fn clone_opt(v: &Option<Json>) -> (r: Option<Json>)
    ensures
        opt_json(r) == opt_json(*v),
{
    match v {
        Some(j) => Some(j.clone()),
        None => None,
    }
}

/// A copy of an optional text.
pub fn clone_opt_text(v: &Option<String>) -> (r: Option<String>)
    ensures
        r == *v,
{
    match v {
        Some(s) => Some(s.clone()),
        None => None,
    }
}

/// An object with one entry.
pub fn json_single(key: &str, value: Json) -> (r: Json)
    ensures
        r@ == JsonView::Object(map![key@ => value@]),
{
    let mut e: Vec<(String, Json)> = Vec::new();
    put_str(&mut e, key, value);
    Json::Object(e)
}

/// An array of two values.
pub fn json_pair(a: Json, b: Json) -> (r: Json)
    ensures
        r@ == JsonView::Array(seq![a@, b@]),
{
    let mut v: Vec<Json> = Vec::new();
    v.push(a);
    v.push(b);
    proof {
        lemma_items_model(v@);
        assert(items_model(v@) =~= seq![a@, b@]);
    }
    Json::Array(v)
}

impl Json {
    /// The object without entries.
    pub fn empty_object() -> (r: Json)
        ensures
            r@ == JsonView::Object(Map::empty()),
    {
        Json::Object(Vec::new())
    }

    /// The entry of an object under `key`; `None` for any other value.
    pub fn get(&self, key: &str) -> (r: Option<&Json>)
        ensures
            match r {
                Some(v) => self@.field(key@) == Some(v@),
                None => self@.field(key@) is None,
            },
    {
        match self {
            Json::Object(entries) => lookup(entries, key),
            _ => None,
        }
    }

    /// The text, if this is a string.
    pub fn as_str(&self) -> (r: Option<&str>)
        ensures
            opt_slice(r) == self@.text(),
    {
        match self {
            Json::Str(s) => Some(s.as_str()),
            _ => None,
        }
    }

    /// The number, if this is a non-negative integer.
    pub fn as_u64(&self) -> (r: Option<u64>)
        ensures
            r == self@.unsigned(),
    {
        match self {
            Json::Number(JsonNumber::Unsigned(n)) => Some(*n),
            _ => None,
        }
    }

    /// Whether this is `null`.
    pub fn is_null(&self) -> (r: bool)
        ensures
            r == (self@ is Null),
    {
        match self {
            Json::Null => true,
            _ => false,
        }
    }

    /// Whether this is an object.
    pub fn is_object(&self) -> (r: bool)
        ensures
            r == (self@ is Object),
    {
        match self {
            Json::Object(_) => true,
            _ => false,
        }
    }

    /// The text under `key` of an object.
    pub fn get_str(&self, key: &str) -> (r: Option<&str>)
        ensures
            opt_slice(r) == text_of(self@.field(key@)),
    {
        match self.get(key) {
            Some(v) => v.as_str(),
            None => None,
        }
    }

    /// The non-negative integer under `key` of an object.
    pub fn get_u64(&self, key: &str) -> (r: Option<u64>)
        ensures
            r == unsigned_of(self@.field(key@)),
    {
        match self.get(key) {
            Some(v) => v.as_u64(),
            None => None,
        }
    }

    /// Sets an entry of an object; any other value is left as it is.
    pub fn set(&mut self, key: &str, value: Json)
        ensures
            final(self)@ == old(self)@.with(key@, value@),
    {
        match self {
            Json::Object(entries) => {
                put(entries, key.to_owned(), value);
            },
            _ => {},
        }
    }
}

/// A list of keys with one more, unless it is there.
pub open spec fn with_key(keys: Seq<Seq<char>>, key: Seq<char>) -> Seq<Seq<char>> {
    if keys.contains(key) {
        keys
    } else {
        keys.push(key)
    }
}

/// The keys of a list of entries, each where it first occurs.
pub open spec fn keys_listed(s: Seq<(String, Json)>) -> Seq<Seq<char>>
    decreases s.len(),
{
    if s.len() == 0 {
        seq![]
    } else {
        with_key(keys_listed(s.drop_last()), s.last().0@)
    }
}

/// The keys of an object, in the order in which it holds them; any other value has none.
pub open spec fn object_keys(v: Json) -> Seq<Seq<char>> {
    match v {
        Json::Object(entries) => keys_listed(entries@),
        _ => seq![],
    }
}

/// The keys of an object are listed once each, and none is left out.
pub proof fn law_keys_are_listed_once(s: Seq<(String, Json)>)
    ensures
        keys_listed(s).no_duplicates(),
        forall|k: Seq<char>|
            keys_listed(s).contains(k) <==> #[trigger] entries_model(s).contains_key(k),
    decreases s.len(),
{
    if s.len() > 0 {
        let front = s.drop_last();
        assert(front =~= s.subrange(0, s.len() - 1));
        law_keys_are_listed_once(front);
        let key = s.last().0@;
        let keys = keys_listed(front);
        assert forall|k: Seq<char>|
            keys_listed(s).contains(k) <==> #[trigger] entries_model(s).contains_key(k) by {
            assert(keys.contains(k) <==> entries_model(front).contains_key(k));
            assert(keys.contains(key) <==> entries_model(front).contains_key(key));
            lemma_push_contains(keys, key, k);
        }
    }
}

proof fn lemma_push_contains(keys: Seq<Seq<char>>, key: Seq<char>, k: Seq<char>)
    ensures
        keys.push(key).contains(k) <==> keys.contains(k) || k == key,
{
    let more = keys.push(key);
    if keys.contains(k) {
        let i = choose|i: int| 0 <= i < keys.len() && keys[i] == k;
        assert(more[i] == k);
    }
    assert(more[keys.len() as int] == key);
    if more.contains(k) {
        let i = choose|i: int| 0 <= i < more.len() && more[i] == k;
        if i < keys.len() {
            assert(keys[i] == k);
        }
    }
}

/// A key is listed exactly if an entry has it.
pub proof fn lemma_listed(s: Seq<(String, Json)>, key: Seq<char>)
    ensures
        keys_listed(s).contains(key) <==> exists|j: int| 0 <= j < s.len() && #[trigger] s[j].0@ == key,
    decreases s.len(),
{
    if s.len() > 0 {
        let front = s.drop_last();
        lemma_listed(front, key);
        lemma_push_contains(keys_listed(front), s.last().0@, key);
        if keys_listed(front).contains(key) {
            let j = choose|j: int| 0 <= j < front.len() && #[trigger] front[j].0@ == key;
            assert(s[j].0@ == key);
        }
        if exists|j: int| 0 <= j < s.len() && #[trigger] s[j].0@ == key {
            let j = choose|j: int| 0 <= j < s.len() && #[trigger] s[j].0@ == key;
            if j < s.len() - 1 {
                assert(front[j].0@ == key);
            }
        }
        assert(s[s.len() - 1].0@ == s.last().0@);
    }
}

/// Entries that come later add their keys at the end.
pub proof fn law_later_keys_come_last(s: Seq<(String, Json)>, more: Seq<(String, Json)>)
    ensures
        keys_listed(s).is_prefix_of(keys_listed(s + more)),
    decreases more.len(),
{
    if more.len() == 0 {
        assert(s + more =~= s);
    } else {
        law_later_keys_come_last(s, more.drop_last());
        assert((s + more).drop_last() =~= s + more.drop_last());
        assert((s + more).last() == more.last());
    }
}

/// Lists of entries with the same keys list the same keys.
proof fn lemma_same_keys(a: Seq<(String, Json)>, b: Seq<(String, Json)>)
    requires
        a.len() == b.len(),
        forall|i: int| 0 <= i < a.len() ==> #[trigger] a[i].0@ == b[i].0@,
    ensures
        keys_listed(a) == keys_listed(b),
    decreases a.len(),
{
    if a.len() > 0 {
        assert forall|i: int| 0 <= i < a.drop_last().len() implies #[trigger] a.drop_last()[i].0@
            == b.drop_last()[i].0@ by {
            assert(a[i].0@ == b[i].0@);
        }
        lemma_same_keys(a.drop_last(), b.drop_last());
        assert(a[a.len() - 1].0@ == b[b.len() - 1].0@);
    }
}

/// The keys of a list of entries, each where it first occurs.
pub fn list_keys(entries: &Vec<(String, Json)>) -> (r: Vec<String>)
    ensures
        texts(r@) == keys_listed(entries@),
{
    let mut out: Vec<String> = Vec::new();
    let mut i: usize = 0;
    assert(texts(out@) =~= keys_listed(entries@.take(0)));
    while i < entries.len()
        invariant
            i <= entries@.len(),
            texts(out@) == keys_listed(entries@.take(i as int)),
        decreases entries@.len() - i,
    {
        let ghost done = texts(out@);
        proof {
            let part = entries@.take(i + 1);
            assert(part.drop_last() =~= entries@.take(i as int));
            lemma_listed(entries@.take(i as int), entries@[i as int].0@);
        }
        if is_first_entry(entries, i) {
            proof {
                if done.contains(entries@[i as int].0@) {
                    let j = choose|j: int|
                        0 <= j < entries@.take(i as int).len() && #[trigger] entries@.take(
                            i as int,
                        )[j].0@ == entries@[i as int].0@;
                    assert(entries@[j].0@ == entries@[i as int].0@);
                }
            }
            out.push(entries[i].0.clone());
            assert(texts(out@) =~= done.push(entries@[i as int].0@));
        } else {
            proof {
                let j = choose|j: int|
                    0 <= j < i && #[trigger] entries@[j].0@ == entries@[i as int].0@;
                assert(entries@.take(i as int)[j].0@ == entries@[i as int].0@);
            }
        }
        i = i + 1;
    }
    assert(entries@.take(i as int) =~= entries@);
    out
}

/// Whether no entry before the one at `i` has its key.
pub(crate) fn is_first_entry(entries: &Vec<(String, Json)>, i: usize) -> (r: bool)
    requires
        i < entries@.len(),
    ensures
        r <==> (forall|j: int| 0 <= j < i ==> #[trigger] entries@[j].0@ != entries@[i as int].0@),
{
    match find_entry(entries, entries[i].0.as_str()) {
        Some(k) => k == i,
        None => false,
    }
}

/// The entries of one object with those of another set in it: the keys of the first keep their
/// places, and new ones come after them.
pub fn merge_entries(base: &Vec<(String, Json)>, over: &Vec<(String, Json)>) -> (r: Vec<
    (String, Json),
>)
    ensures
        entries_model(r@) == entries_model(base@).union_prefer_right(entries_model(over@)),
        keys_listed(r@) == keys_listed(base@ + over@),
{
    let mut out = clone_entries(base);
    let ghost start = entries_model(base@);
    let mut i: usize = 0;
    proof {
        assert(over@.subrange(0, 0) =~= seq![]);
        assert(base@ + over@.take(0) =~= base@);
        assert(start.union_prefer_right(entries_model(over@.subrange(0, 0))) =~= start);
    }
    while i < over.len()
        invariant
            i <= over@.len(),
            entries_model(out@) == start.union_prefer_right(
                entries_model(over@.subrange(0, i as int)),
            ),
            keys_listed(out@) == keys_listed(base@ + over@.take(i as int)),
        decreases over@.len() - i,
    {
        let ghost part = over@.subrange(0, i + 1);
        let ghost front = over@.subrange(0, i as int);
        proof {
            assert(part.subrange(0, part.len() - 1) =~= front);
            assert((base@ + over@.take(i + 1)).drop_last() =~= base@ + over@.take(i as int));
            assert((base@ + over@.take(i + 1)).last() == over@[i as int]);
        }
        if is_first_entry(over, i) {
            proof {
                assert forall|j: int| 0 <= j < front.len() implies #[trigger] front[j].0@
                    != over@[i as int].0@ by {
                    assert(over@[j].0@ != over@[i as int].0@);
                }
                lemma_entry_absent(front, over@[i as int].0@);
            }
            put(&mut out, over[i].0.clone(), over[i].1.clone());
            assert(entries_model(out@) =~= start.union_prefer_right(entries_model(part)));
        } else {
            proof {
                let j = choose|j: int|
                    0 <= j < i && #[trigger] over@[j].0@ == over@[i as int].0@;
                lemma_key_there(front, j);
                let listed = base@ + over@.take(i as int);
                assert(listed[base@.len() + j].0@ == over@[i as int].0@);
                lemma_listed(listed, over@[i as int].0@);
            }
        }
        i = i + 1;
    }
    proof {
        assert(over@.subrange(0, i as int) =~= over@);
        assert(over@.take(i as int) =~= over@);
    }
    out
}

/// The key of an entry is a key of the map.
proof fn lemma_key_there(s: Seq<(String, Json)>, j: int)
    requires
        0 <= j < s.len(),
    ensures
        entries_model(s).contains_key(s[j].0@),
    decreases s.len(),
{
    let front = s.subrange(0, s.len() - 1);
    if j < s.len() - 1 {
        lemma_key_there(front, j);
        assert(front[j] == s[j]);
    }
}

/// A copy of a list of entries.
pub fn clone_entries(v: &Vec<(String, Json)>) -> (r: Vec<(String, Json)>)
    ensures
        entries_model(r@) == entries_model(v@),
        keys_listed(r@) == keys_listed(v@),
{
    let mut out: Vec<(String, Json)> = Vec::new();
    let mut i: usize = 0;
    while i < v.len()
        invariant
            i <= v@.len(),
            out@.len() == i,
            forall|j: int| 0 <= j < i ==> #[trigger] out@[j].0@ == v@[j].0@,
            entries_model(out@) == entries_model(v@.subrange(0, i as int)),
        decreases v@.len() - i,
    {
        let ghost done = out@;
        out.push((v[i].0.clone(), v[i].1.clone()));
        i = i + 1;
        assert(out@.subrange(0, i - 1) =~= done);
        assert(v@.subrange(0, i as int).subrange(0, i - 1) =~= v@.subrange(0, i - 1));
    }
    proof {
        assert(v@.subrange(0, i as int) =~= v@);
        lemma_same_keys(out@, v@);
    }
    out
}

/// The first key of a list of entries is a key of its map.
pub proof fn lemma_first_key(s: Seq<(String, Json)>)
    requires
        s.len() > 0,
    ensures
        entries_model(s).contains_key(s[0].0@),
{
    lemma_entry_present(s, 0);
}

/// An entry that is set in an object is read back, and every other entry stays as it was; a value
/// that is no object stays as it is.
pub proof fn law_a_set_entry_is_read_back(
    v: JsonView,
    key: Seq<char>,
    value: JsonView,
    other: Seq<char>,
)
    ensures
        v is Object ==> v.with(key, value).field(key) == Some(value),
        other != key ==> v.with(key, value).field(other) == v.field(other),
        !(v is Object) ==> v.with(key, value) == v,
        v is Object ==> v.with(key, value) is Object,
{
}

/// A number, a text and a missing value are written so that they can be told apart and read back.
pub proof fn law_plain_values_are_read_back(
    n: u64,
    text: Option<Seq<char>>,
    value: Option<JsonView>,
    key: Seq<char>,
)
    ensures
        number(n).unsigned() == Some(n),
        number(n).text() is None,
        number(n) == JsonView::Number(NumberView::Unsigned(n)),
        text_of(Some(text_or_null(text))) == text,
        text is None ==> text_or_null(text) == JsonView::Null,
        value is Some ==> or_null(value) == value->0,
        value is None ==> or_null(value) == JsonView::Null,
        field_of(value, key) == (if value is Some {
            value->0.field(key)
        } else {
            None
        }),
        unsigned_of(Some(number(n))) == Some(n),
        unsigned_of(None) is None,
        text_of(None) is None,
{
}

/// What an object has under a key is the value of its first entry with that key; under a key that no
/// entry has it has nothing.
pub proof fn law_the_first_entry_of_a_key_counts(s: Seq<(String, Json)>, i: int, key: Seq<char>)
    ensures
        (0 <= i < s.len() && s[i].0@ == key && (forall|j: int|
            0 <= j < i ==> (#[trigger] s[j]).0@ != key)) ==> entries_model(s).contains_key(key)
            && entries_model(s)[key] == s[i].1.model(),
        (forall|j: int| 0 <= j < s.len() ==> (#[trigger] s[j]).0@ != key) ==> !entries_model(
            s,
        ).contains_key(key),
    decreases s.len(),
{
    if s.len() > 0 {
        let front = s.subrange(0, s.len() - 1);
        law_the_first_entry_of_a_key_counts(front, i, key);
        assert forall|j: int| 0 <= j < front.len() implies front[j] == s[j] by {}
        if 0 <= i < s.len() && s[i].0@ == key && (forall|j: int|
            0 <= j < i ==> (#[trigger] s[j]).0@ != key) {
            assert forall|j: int| 0 <= j < i implies (#[trigger] front[j]).0@ != key by {
                assert(s[j].0@ != key);
            }
            if i < front.len() {
                assert(front[i].0@ == key);
            } else {
                assert forall|j: int| 0 <= j < front.len() implies (#[trigger] front[j]).0@
                    != key by {
                    assert(s[j].0@ != key);
                }
            }
        }
        if forall|j: int| 0 <= j < s.len() ==> (#[trigger] s[j]).0@ != key {
            assert forall|j: int| 0 <= j < front.len() implies (#[trigger] front[j]).0@ != key by {
                assert(s[j].0@ != key);
            }
            assert(s[s.len() - 1].0@ != key);
        }
    }
}

/// A value with its entries in order has every item and every entry of the value, in their places.
pub proof fn law_order_is_kept(items: Seq<Json>, entries: Seq<(String, Json)>)
    ensures
        items_ordered(items).len() == items.len(),
        forall|i: int|
            0 <= i < items.len() ==> #[trigger] items_ordered(items)[i] == items[i].ordered(),
        entries_ordered(entries).len() == entries.len(),
        forall|i: int|
            0 <= i < entries.len() ==> #[trigger] entries_ordered(entries)[i] == (
                entries[i].0@,
                entries[i].1.ordered(),
            ),
    decreases items.len() + entries.len(),
{
    if items.len() > 0 {
        law_order_is_kept(items.subrange(0, items.len() - 1), entries);
    } else if entries.len() > 0 {
        law_order_is_kept(items, entries.subrange(0, entries.len() - 1));
    }
}

} // verus!
