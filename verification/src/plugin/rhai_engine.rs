//! Scripts: values that go into a script and come out of it, and the engine that runs it.

use crate::json::{
    entries_model, is_first_entry, items_model, keys_listed, lemma_listed, lookup, put, Json,
    JsonNumber, JsonView, NumberView,
};
use crate::text::{concat2, concat3, decimal, decimal_text, opt_text, owned, same};
use rhai::Dynamic;
use vstd::prelude::*;

verus! {

/// How many operations a script may take.
pub const MAX_OPERATIONS: u64 = 100_000;

/// A value of the script language.
#[derive(Debug, PartialEq, Eq)]
pub enum ScriptValue {
    Unit,
    Bool(bool),
    Int(i64),
    /// A floating-point number by its text; `None` if it is not finite.
    Float(Option<String>),
    Str(String),
    Array(Vec<ScriptValue>),
    /// Entries by key; where a key occurs twice the first entry counts.
    Object(Vec<(String, ScriptValue)>),
    /// A value of any other type, by the text that it displays as.
    Other(String),
}

/// The mathematical value of a [`ScriptValue`].
#[verifier::ext_equal]
pub enum ScriptView {
    Unit,
    Bool(bool),
    Int(i64),
    Float(Option<Seq<char>>),
    Str(Seq<char>),
    Array(Seq<ScriptView>),
    Object(Seq<(Seq<char>, ScriptView)>),
    Other(Seq<char>),
}

/// The values of a list of script values.
pub open spec fn script_items(s: Seq<ScriptValue>) -> Seq<ScriptView>
    decreases s,
{
    if s.len() == 0 {
        seq![]
    } else {
        script_items(s.subrange(0, s.len() - 1)).push(s[s.len() - 1].model())
    }
}

/// The values of a list of named script values.
pub open spec fn script_entries(s: Seq<(String, ScriptValue)>) -> Seq<(Seq<char>, ScriptView)>
    decreases s,
{
    if s.len() == 0 {
        seq![]
    } else {
        script_entries(s.subrange(0, s.len() - 1)).push(
            (s[s.len() - 1].0@, s[s.len() - 1].1.model()),
        )
    }
}

impl ScriptValue {
    /// The value as mathematics sees it.
    pub open spec fn model(self) -> ScriptView
        decreases self,
    {
        match self {
            ScriptValue::Unit => ScriptView::Unit,
            ScriptValue::Bool(b) => ScriptView::Bool(b),
            ScriptValue::Int(i) => ScriptView::Int(i),
            ScriptValue::Float(t) => ScriptView::Float(opt_text(t)),
            ScriptValue::Str(t) => ScriptView::Str(t@),
            ScriptValue::Array(v) => ScriptView::Array(script_items(v@)),
            ScriptValue::Object(v) => ScriptView::Object(script_entries(v@)),
            ScriptValue::Other(t) => ScriptView::Other(t@),
        }
    }
}

impl View for ScriptValue {
    type V = ScriptView;

    open spec fn view(&self) -> ScriptView {
        self.model()
    }
}

/// The script value of a JSON number: an integer if it is one of 64 bits with a sign, else a
/// floating-point number.
pub open spec fn script_number(n: NumberView) -> ScriptView {
    match n {
        NumberView::Unsigned(u) => if u <= i64::MAX {
            ScriptView::Int(u as i64)
        } else {
            ScriptView::Float(Some(decimal(u as nat)))
        },
        NumberView::Negative(i) => ScriptView::Int(i),
        NumberView::Decimal(t) => ScriptView::Float(Some(t)),
    }
}

/// The script values of a list of JSON values.
pub open spec fn script_of_items(s: Seq<Json>) -> Seq<ScriptView>
    decreases s,
{
    if s.len() == 0 {
        seq![]
    } else {
        script_of_items(s.subrange(0, s.len() - 1)).push(script_of(s[s.len() - 1]))
    }
}

/// The script values of the entries of an object.
pub open spec fn script_of_entries(s: Seq<(String, Json)>) -> Seq<(Seq<char>, ScriptView)>
    decreases s,
{
    if s.len() == 0 {
        seq![]
    } else {
        script_of_entries(s.subrange(0, s.len() - 1)).push(
            (s[s.len() - 1].0@, script_of(s[s.len() - 1].1)),
        )
    }
}

/// The script value of a JSON value.
pub open spec fn script_of(v: Json) -> ScriptView
    decreases v,
{
    match v {
        Json::Null => ScriptView::Unit,
        Json::Bool(b) => ScriptView::Bool(b),
        Json::Number(n) => script_number(n@),
        Json::Str(s) => ScriptView::Str(s@),
        Json::Array(a) => ScriptView::Array(script_of_items(a@)),
        Json::Object(o) => ScriptView::Object(script_of_entries(o@)),
    }
}

/// The JSON values of a list of script values.
pub open spec fn json_of_items(s: Seq<ScriptView>) -> Seq<JsonView>
    decreases s,
{
    if s.len() == 0 {
        seq![]
    } else {
        json_of_items(s.subrange(0, s.len() - 1)).push(json_of(s[s.len() - 1]))
    }
}

/// The map of the entries of a script map: the first entry of a key counts.
pub open spec fn json_of_entries(s: Seq<(Seq<char>, ScriptView)>) -> Map<Seq<char>, JsonView>
    decreases s,
{
    if s.len() == 0 {
        Map::empty()
    } else {
        let front = json_of_entries(s.subrange(0, s.len() - 1));
        let key = s[s.len() - 1].0;
        if front.contains_key(key) {
            front
        } else {
            front.insert(key, json_of(s[s.len() - 1].1))
        }
    }
}

/// The JSON value of a script value: a number that is not finite is `null`, a value of another
/// type its text.
pub open spec fn json_of(v: ScriptView) -> JsonView
    decreases v,
{
    match v {
        ScriptView::Unit => JsonView::Null,
        ScriptView::Bool(b) => JsonView::Bool(b),
        ScriptView::Int(i) => if i >= 0 {
            JsonView::Number(NumberView::Unsigned(i as u64))
        } else {
            JsonView::Number(NumberView::Negative(i))
        },
        ScriptView::Float(Some(t)) => JsonView::Number(NumberView::Decimal(t)),
        ScriptView::Float(None) => JsonView::Null,
        ScriptView::Str(s) => JsonView::Str(s),
        ScriptView::Array(a) => JsonView::Array(json_of_items(a)),
        ScriptView::Object(m) => JsonView::Object(json_of_entries(m)),
        ScriptView::Other(t) => JsonView::Str(t),
    }
}

/// The JSON value without numbers that a script cannot keep: every unsigned integer fits in 64
/// bits with a sign, and every negative one is negative.
pub open spec fn keeps_numbers(v: Json) -> bool
    decreases v,
{
    match v {
        Json::Number(JsonNumber::Unsigned(u)) => u <= i64::MAX,
        Json::Number(JsonNumber::Negative(i)) => i < 0,
        Json::Array(a) => items_keep_numbers(a@),
        Json::Object(o) => entries_keep_numbers(o@),
        _ => true,
    }
}

/// [`keeps_numbers`] of every value of a list.
pub open spec fn items_keep_numbers(s: Seq<Json>) -> bool
    decreases s,
{
    if s.len() == 0 {
        true
    } else {
        items_keep_numbers(s.subrange(0, s.len() - 1)) && keeps_numbers(s[s.len() - 1])
    }
}

/// [`keeps_numbers`] of every value of an object.
pub open spec fn entries_keep_numbers(s: Seq<(String, Json)>) -> bool
    decreases s,
{
    if s.len() == 0 {
        true
    } else {
        entries_keep_numbers(s.subrange(0, s.len() - 1)) && keeps_numbers(s[s.len() - 1].1)
    }
}

/// A value that goes into a script and comes out again unchanged is the same JSON value, as long
/// as its integers fit in 64 bits with a sign.
pub proof fn law_scripts_keep_json(v: Json)
    requires
        keeps_numbers(v),
    ensures
        json_of(script_of(v)) == v@,
    decreases v,
{
    match v {
        Json::Array(a) => {
            assert(decreases_to!(v => v->Array_0));
            lemma_items_round_trip(a@);
        },
        Json::Object(o) => {
            assert(decreases_to!(v => v->Object_0));
            lemma_entries_round_trip(o@);
        },
        _ => {},
    }
}

proof fn lemma_items_round_trip(s: Seq<Json>)
    requires
        items_keep_numbers(s),
    ensures
        json_of_items(script_of_items(s)) == items_model(s),
    decreases s,
{
    if s.len() > 0 {
        let front = s.subrange(0, s.len() - 1);
        lemma_items_round_trip(front);
        law_scripts_keep_json(s[s.len() - 1]);
        let all = script_of_items(s);
        assert(all.subrange(0, all.len() - 1) =~= script_of_items(front));
    }
}

proof fn lemma_entries_round_trip(s: Seq<(String, Json)>)
    requires
        entries_keep_numbers(s),
    ensures
        json_of_entries(script_of_entries(s)) == entries_model(s),
    decreases s,
{
    if s.len() > 0 {
        let front = s.subrange(0, s.len() - 1);
        lemma_entries_round_trip(front);
        assert(decreases_to!(s => s[s.len() - 1]));
        assert(decreases_to!(s[s.len() - 1] => s[s.len() - 1].1));
        law_scripts_keep_json(s[s.len() - 1].1);
        let all = script_of_entries(s);
        assert(all.subrange(0, all.len() - 1) =~= script_of_entries(front));
    }
}

/// The script value of a JSON value.
pub fn json_to_dynamic(val: &Json) -> (r: ScriptValue)
    ensures
        r@ == script_of(*val),
    decreases val,
{
    match val {
        Json::Null => ScriptValue::Unit,
        Json::Bool(b) => ScriptValue::Bool(*b),
        Json::Number(n) => match n {
            JsonNumber::Unsigned(u) => if *u <= i64::MAX as u64 {
                ScriptValue::Int(*u as i64)
            } else {
                ScriptValue::Float(Some(decimal_text(*u)))
            },
            JsonNumber::Negative(i) => ScriptValue::Int(*i),
            JsonNumber::Decimal(t) => ScriptValue::Float(Some(t.clone())),
        },
        Json::Str(s) => ScriptValue::Str(s.clone()),
        Json::Array(v) => {
            let mut out: Vec<ScriptValue> = Vec::new();
            let mut i: usize = 0;
            while i < v.len()
                invariant
                    i <= v@.len(),
                    out@.len() == i,
                    script_items(out@) == script_of_items(v@.subrange(0, i as int)),
                    *val == Json::Array(*v),
                decreases v@.len() - i,
            {
                let ghost done = out@;
                assert(decreases_to!(v@ => v@[i as int]));
                assert(decreases_to!(v => v@));
                assert(decreases_to!(val => val->Array_0));
                let x = json_to_dynamic(&v[i]);
                out.push(x);
                i = i + 1;
                assert(out@.subrange(0, i - 1) =~= done);
                assert(v@.subrange(0, i as int).subrange(0, i - 1) =~= v@.subrange(0, i - 1));
            }
            assert(v@.subrange(0, i as int) =~= v@);
            ScriptValue::Array(out)
        },
        Json::Object(v) => {
            let mut out: Vec<(String, ScriptValue)> = Vec::new();
            let mut i: usize = 0;
            while i < v.len()
                invariant
                    i <= v@.len(),
                    out@.len() == i,
                    script_entries(out@) == script_of_entries(v@.subrange(0, i as int)),
                    *val == Json::Object(*v),
                decreases v@.len() - i,
            {
                let ghost done = out@;
                assert(decreases_to!(v@[i as int] => v@[i as int].1));
                assert(decreases_to!(v@ => v@[i as int]));
                assert(decreases_to!(v => v@));
                assert(decreases_to!(val => val->Object_0));
                let x = json_to_dynamic(&v[i].1);
                out.push((v[i].0.clone(), x));
                i = i + 1;
                assert(out@.subrange(0, i - 1) =~= done);
                assert(v@.subrange(0, i as int).subrange(0, i - 1) =~= v@.subrange(0, i - 1));
            }
            assert(v@.subrange(0, i as int) =~= v@);
            ScriptValue::Object(out)
        },
    }
}

/// The entries of a script map as those of an object.
fn map_to_entries(v: &Vec<(String, ScriptValue)>) -> (r: Vec<(String, Json)>)
    ensures
        entries_model(r@) == json_of_entries(script_entries(v@)),
    decreases v,
{
    let mut out: Vec<(String, Json)> = Vec::new();
    let mut i: usize = 0;
    while i < v.len()
        invariant
            i <= v@.len(),
            entries_model(out@) == json_of_entries(script_entries(v@.subrange(0, i as int))),
        decreases v@.len() - i,
    {
        assert(decreases_to!(v@[i as int] => v@[i as int].1));
        assert(decreases_to!(v@ => v@[i as int]));
        assert(decreases_to!(v => v@));
        let x = dynamic_to_json(&v[i].1);
        if lookup(&out, v[i].0.as_str()).is_none() {
            put(&mut out, v[i].0.clone(), x);
        }
        proof {
            let part = v@.subrange(0, i + 1);
            assert(part.subrange(0, part.len() - 1) =~= v@.subrange(0, i as int));
            let all = script_entries(part);
            assert(all.subrange(0, all.len() - 1) =~= script_entries(v@.subrange(0, i as int)));
        }
        i = i + 1;
    }
    assert(v@.subrange(0, i as int) =~= v@);
    out
}

/// The JSON value of a script value.
pub fn dynamic_to_json(val: &ScriptValue) -> (r: Json)
    ensures
        r@ == json_of(val@),
    decreases val,
{
    match val {
        ScriptValue::Unit => Json::Null,
        ScriptValue::Bool(b) => Json::Bool(*b),
        ScriptValue::Int(i) => if *i >= 0 {
            Json::Number(JsonNumber::Unsigned(*i as u64))
        } else {
            Json::Number(JsonNumber::Negative(*i))
        },
        ScriptValue::Float(t) => match t {
            Some(text) => Json::Number(JsonNumber::Decimal(text.clone())),
            None => Json::Null,
        },
        ScriptValue::Str(s) => Json::Str(s.clone()),
        ScriptValue::Array(v) => {
            let mut out: Vec<Json> = Vec::new();
            let mut i: usize = 0;
            while i < v.len()
                invariant
                    i <= v@.len(),
                    out@.len() == i,
                    items_model(out@) == json_of_items(script_items(v@.subrange(0, i as int))),
                    *val == ScriptValue::Array(*v),
                decreases v@.len() - i,
            {
                let ghost done = out@;
                assert(decreases_to!(v@ => v@[i as int]));
                assert(decreases_to!(v => v@));
                assert(decreases_to!(val => val->Array_0));
                let x = dynamic_to_json(&v[i]);
                out.push(x);
                i = i + 1;
                proof {
                    assert(out@.subrange(0, i - 1) =~= done);
                    let part = v@.subrange(0, i as int);
                    assert(part.subrange(0, i - 1) =~= v@.subrange(0, i - 1));
                    let all = script_items(part);
                    assert(all.subrange(0, all.len() - 1) =~= script_items(v@.subrange(0, i - 1)));
                }
            }
            assert(v@.subrange(0, i as int) =~= v@);
            Json::Array(out)
        },
        ScriptValue::Object(v) => {
            assert(decreases_to!(val => val->Object_0));
            Json::Object(map_to_entries(v))
        },
        ScriptValue::Other(t) => Json::Str(t.clone()),
    }
}

/// The entries of a script's result, or the error that it is no map.
pub open spec fn map_or_error(v: ScriptView) -> Result<Map<Seq<char>, JsonView>, Seq<char>> {
    match v {
        ScriptView::Object(m) => Ok(json_of_entries(m)),
        _ => Err("script must return a Map (#{ ... })"@),
    }
}

/// The entries of a script's result, which has to be a map.
pub fn rhai_map_to_json(dynamic: &ScriptValue) -> (r: Result<Vec<(String, Json)>, String>)
    ensures
        match r {
            Ok(m) => map_or_error(dynamic@) == Ok::<Map<Seq<char>, JsonView>, Seq<char>>(
                entries_model(m@),
            ),
            Err(e) => map_or_error(dynamic@) == Err::<Map<Seq<char>, JsonView>, Seq<char>>(e@),
        },
{
    match dynamic {
        ScriptValue::Object(v) => Ok(map_to_entries(v)),
        _ => Err(owned("script must return a Map (#{ ... })")),
    }
}

/// Gives a script the whole context as its variable `ctx`.
pub fn inject_context(scope: &mut Vec<(String, ScriptValue)>, ctx: &Json)
    ensures
        script_entries(final(scope)@) == script_entries(old(scope)@).push(("ctx"@, script_of(*ctx))),
{
    let ghost was = scope@;
    scope.push((owned("ctx"), json_to_dynamic(ctx)));
    assert(scope@.subrange(0, scope@.len() - 1) =~= was);
}

/// The variables that a list of entries become, in their order; the first entry of a key counts.
pub open spec fn bindings_of(s: Seq<(String, Json)>) -> Seq<(Seq<char>, ScriptView)>
    decreases s.len(),
{
    if s.len() == 0 {
        seq![]
    } else if keys_listed(s.drop_last()).contains(s.last().0@) {
        bindings_of(s.drop_last())
    } else {
        bindings_of(s.drop_last()).push((s.last().0@, script_of(s.last().1)))
    }
}

/// The variables that the entries of an object become; any other value gives none.
pub open spec fn flat_bindings(ctx: Json) -> Seq<(Seq<char>, ScriptView)> {
    match ctx {
        Json::Object(o) => bindings_of(o@),
        _ => seq![],
    }
}

/// Gives a script every entry of a context as a variable of its own; a context that is no object
/// gives none.
pub fn inject_context_flat(scope: &mut Vec<(String, ScriptValue)>, ctx: &Json)
    ensures
        script_entries(final(scope)@) == script_entries(old(scope)@) + flat_bindings(*ctx),
{
    let ghost was = script_entries(scope@);
    if let Json::Object(o) = ctx {
        let mut i: usize = 0;
        assert(was + bindings_of(o@.take(0)) =~= was);
        while i < o.len()
            invariant
                i <= o@.len(),
                script_entries(scope@) == was + bindings_of(o@.take(i as int)),
            decreases o@.len() - i,
        {
            let ghost done = scope@;
            let ghost before = o@.take(i as int);
            proof {
                assert(o@.take(i + 1).drop_last() =~= before);
                lemma_listed(before, o@[i as int].0@);
            }
            if is_first_entry(o, i) {
                proof {
                    if keys_listed(before).contains(o@[i as int].0@) {
                        let j = choose|j: int|
                            0 <= j < before.len() && #[trigger] before[j].0@ == o@[i as int].0@;
                        assert(o@[j].0@ == o@[i as int].0@);
                    }
                }
                scope.push((o[i].0.clone(), json_to_dynamic(&o[i].1)));
                assert(scope@.subrange(0, scope@.len() - 1) =~= done);
                assert(script_entries(scope@) =~= was + bindings_of(o@.take(i + 1)));
            } else {
                proof {
                    let j = choose|j: int|
                        0 <= j < i && #[trigger] o@[j].0@ == o@[i as int].0@;
                    assert(before[j].0@ == o@[i as int].0@);
                }
            }
            i = i + 1;
        }
        assert(o@.take(i as int) =~= o@);
    } else {
        assert(was + flat_bindings(*ctx) =~= was);
    }
}

/// A script engine of the `rhai` crate.
#[verifier::external_type_specification]
#[verifier::external_body]
pub struct ExEngine(rhai::Engine);

/// A compiled script of the `rhai` crate.
#[verifier::external_type_specification]
#[verifier::external_body]
pub struct ExAst(rhai::AST);

/// A value of the `rhai` crate.
#[verifier::external_type_specification]
#[verifier::external_body]
pub struct ExDynamic(Dynamic);

/// The [`rhai::Dynamic`] of a script value, variant by variant. Of two entries with one key the
/// first is taken.
#[verifier::external_body]
fn to_dynamic(v: &ScriptValue) -> (r: Dynamic) {
    match v {
        ScriptValue::Unit => Dynamic::UNIT,
        ScriptValue::Bool(b) => Dynamic::from(*b),
        ScriptValue::Int(i) => Dynamic::from(*i),
        ScriptValue::Float(t) => Dynamic::from_float(
            t.as_deref().and_then(|s| s.parse().ok()).unwrap_or_default(),
        ),
        ScriptValue::Str(s) => Dynamic::from(s.clone()),
        ScriptValue::Array(a) => Dynamic::from_array(a.iter().map(to_dynamic).collect()),
        ScriptValue::Object(m) => Dynamic::from_map(
            m.iter().rev().map(|(k, x)| (k.as_str().into(), to_dynamic(x))).collect(),
        ),
        ScriptValue::Other(s) => Dynamic::from(s.clone()),
    }
}

/// Moves a [`rhai::Dynamic`] that is neither array nor map into the library's type, type by type.
#[verifier::external_body]
fn from_scalar(v: Dynamic) -> (r: ScriptValue) {
    if v.is_unit() {
        ScriptValue::Unit
    } else if let Ok(b) = v.as_bool() {
        ScriptValue::Bool(b)
    } else if let Ok(i) = v.as_int() {
        ScriptValue::Int(i)
    } else if let Ok(x) = v.as_float() {
        ScriptValue::Float(serde_json::Number::from_f64(x).map(|n| n.to_string()))
    } else if v.is_string() {
        ScriptValue::Str(v.into_string().unwrap_or_default())
    } else {
        ScriptValue::Other(v.to_string())
    }
}

/// Moves a [`rhai::Dynamic`] into the library's type, type by type.
#[verifier::external_body]
fn from_dynamic(v: Dynamic) -> (r: ScriptValue) {
    if v.is_array() {
        ScriptValue::Array(v.cast::<rhai::Array>().into_iter().map(from_dynamic).collect())
    } else if v.is_map() {
        ScriptValue::Object(
            v.cast::<rhai::Map>().into_iter().map(|(k, x)| (k.into(), from_dynamic(x))).collect(),
        )
    } else {
        from_scalar(v)
    }
}

/// How many operations an engine allows a script, as [`rhai::Engine::set_max_operations`] set it.
pub uninterp spec fn operations_allowed(engine: rhai::Engine) -> u64;

/// The script that [`rhai::Engine::compile`] made a compiled script from.
pub uninterp spec fn source_of(ast: rhai::AST) -> Seq<char>;

/// Whether [`rhai::Engine::compile`] can refuse a script with an error of that text.
pub uninterp spec fn compile_refuses(script: Seq<char>, why: Seq<char>) -> bool;

/// Whether [`rhai::Engine::eval_with_scope`] can come to that truth value or error, where so many
/// operations are allowed and the script sees those variables. A script can read the clock and
/// files, so more than one result is possible.
pub uninterp spec fn condition_gives(
    max_operations: u64,
    scope: Seq<(Seq<char>, ScriptView)>,
    script: Seq<char>,
    result: Result<bool, Seq<char>>,
) -> bool;

/// Whether [`rhai::Engine::eval_ast_with_scope`] can come to that value or error, where so many
/// operations are allowed and the script sees those variables. A script can read the clock and
/// files, so more than one result is possible.
pub uninterp spec fn script_gives(
    max_operations: u64,
    scope: Seq<(Seq<char>, ScriptView)>,
    script: Seq<char>,
    result: Result<ScriptView, Seq<char>>,
) -> bool;

/// The value of what a condition came to.
pub open spec fn truth_view(r: Result<bool, String>) -> Result<bool, Seq<char>> {
    match r {
        Ok(b) => Ok(b),
        Err(e) => Err(e@),
    }
}

/// The value of what a script came to.
pub open spec fn value_view(r: Result<ScriptValue, String>) -> Result<ScriptView, Seq<char>> {
    match r {
        Ok(v) => Ok(v@),
        Err(e) => Err(e@),
    }
}

/// How long a script sleeps: not at all.
fn no_wait() {
}

/// A text that is padded to a length with as many characters of the padding as it takes, from its
/// start and over again. A text that is long enough is left as it is, and so is any text if the
/// padding is empty.
spec fn padded_text(text: Seq<char>, len: int, padding: Seq<char>) -> Seq<char> {
    if len <= text.len() || padding.len() == 0 {
        text
    } else {
        text + Seq::new((len - text.len()) as nat, |i: int| padding[i % padding.len() as int])
    }
}

/// Pads a text to a length.
fn padded(text: &str, len: i64, padding: &str) -> (r: String)
    ensures
        r@ == padded_text(text@, len as int, padding@),
{
    let mut out = text.to_owned();
    let have = text.unicode_len();
    let piece = padding.unicode_len();
    if piece == 0 || len <= 0 || len as u64 <= have as u64 {
        return out;
    }
    let mut left: u64 = len as u64 - have as u64;
    let ghost goal = left as int;
    let ghost rounds: int = 0;
    let ghost fill = Seq::new(goal as nat, |i: int| padding@[i % padding@.len() as int]);
    assert(out@ =~= text@ + fill.take(0));
    while left >= piece as u64
        invariant
            piece == padding@.len(),
            piece > 0,
            left <= goal,
            goal - left == rounds * piece,
            fill == Seq::new(goal as nat, |i: int| padding@[i % padding@.len() as int]),
            out@ == text@ + fill.take(goal - left),
        decreases left,
    {
        out.append(padding);
        proof {
            let done = goal - left;
            assert forall|i: int| 0 <= i < piece implies fill[done + i] == padding@[i] by {
                vstd::arithmetic::div_mod::lemma_fundamental_div_mod_converse_mod(
                    done + i,
                    piece as int,
                    rounds,
                    i,
                );
            }
            assert(fill.take(done + piece) =~= fill.take(done) + padding@);
            assert(out@ =~= text@ + fill.take(done + piece));
            assert((rounds + 1) * piece == rounds * piece + piece) by (nonlinear_arith);
            rounds = rounds + 1;
        }
        left = left - piece as u64;
    }
    let rest = padding.substring_char(0, left as usize);
    out.append(rest);
    proof {
        let done = goal - left;
        assert forall|i: int| 0 <= i < left implies fill[done + i] == padding@[i] by {
            vstd::arithmetic::div_mod::lemma_fundamental_div_mod_converse_mod(
                done + i,
                piece as int,
                rounds,
                i,
            );
        }
        assert(fill =~= fill.take(done) + padding@.take(left as int));
        assert(out@ =~= text@ + fill);
    }
    out
}

/// The longest array that a script can pad to.
const MAX_PADDED_ITEMS: u64 = 0x7ff_ffff_ffff_ffff;

/// [`rhai::Dynamic`]'s `clone`: another value like this one. Nothing is said of it, as nothing is
/// known of what a [`rhai::Dynamic`] holds.
#[verifier::external_body]
fn copy_of(v: &Dynamic) -> (r: Dynamic) {
    v.clone()
}

/// Pads an array to a length with copies of an item. An array that is long enough is left as it is;
/// a length that no array can have is refused.
fn pad_items(items: &mut Vec<Dynamic>, len: i64, item: Dynamic) -> (r: Result<(), String>)
    ensures
        match r {
            Ok(_) => len <= MAX_PADDED_ITEMS && old(items)@.is_prefix_of(final(items)@)
                && final(items)@.len() == if len > old(items)@.len() {
                len as int
            } else {
                old(items)@.len() as int
            },
            Err(e) => len > MAX_PADDED_ITEMS && final(items)@ == old(items)@ && e@
                == "Size of array too large"@,
        },
{
    if len > MAX_PADDED_ITEMS as i64 {
        return Err(owned("Size of array too large"));
    }
    while len > 0 && (items.len() as u64) < len as u64
        invariant
            len <= MAX_PADDED_ITEMS,
            old(items)@.is_prefix_of(items@),
            items@.len() > old(items)@.len() ==> items@.len() <= len,
        decreases len - items@.len(),
    {
        items.push(copy_of(&item));
    }
    Ok(())
}

/// What [`rhai::Dynamic::as_int`] refuses a value with, which is the name of its type; nothing if the
/// value is an integer.
pub uninterp spec fn refused_as_int(v: Dynamic) -> Option<Seq<char>>;

/// [`rhai::Dynamic::as_int`]: the name of the type of a value that is no integer. It depends on the
/// value alone.
#[verifier::external_body]
fn other_type(v: &Dynamic) -> (r: Option<String>)
    ensures
        opt_text(r) == refused_as_int(*v),
{
    v.as_int().err().map(str::to_string)
}

/// Whether a value comes before another by what [`rhai::Dynamic::as_int`] and the like read from the
/// two.
pub uninterp spec fn comes_before(a: Dynamic, b: Dynamic) -> bool;

/// Whether a value comes before another, by the `<` of the pairs that [`rhai::Dynamic::as_int`],
/// [`rhai::Dynamic::as_char`], [`rhai::Dynamic::as_float`], [`rhai::Dynamic::as_bool`] and
/// [`rhai::Dynamic::into_immutable_string`] read from the two, the first that differs. No two values
/// come before each other. A floating-point value that is not a number comes neither before nor after
/// any other.
#[verifier::external_body]
fn is_before(a: &Dynamic, b: &Dynamic) -> (r: bool)
    ensures
        r == comes_before(*a, *b),
        r ==> !comes_before(*b, *a),
{
    let (s, t) = (a.clone().into_immutable_string().ok(), b.clone().into_immutable_string().ok());
    (a.as_int().ok(), a.as_char().ok(), a.as_float().ok(), a.as_bool().ok(), s.as_deref())
        < (b.as_int().ok(), b.as_char().ok(), b.as_float().ok(), b.as_bool().ok(), t.as_deref())
}

/// Whether a value has to stand before another, in the order of values or against it.
spec fn stands_before(a: Dynamic, b: Dynamic, descending: bool) -> bool {
    if descending {
        comes_before(b, a)
    } else {
        comes_before(a, b)
    }
}

/// Whether no value has to stand before the one that it follows.
spec fn in_order(s: Seq<Dynamic>, descending: bool) -> bool {
    forall|i: int, j: int|
        #![trigger s[i], s[j]]
        0 <= i && j == i + 1 && j < s.len() ==> !stands_before(s[j], s[i], descending)
}

/// Whether a value has to stand before another.
fn goes_before(a: &Dynamic, b: &Dynamic, descending: bool) -> (r: bool)
    ensures
        r == stands_before(*a, *b, descending),
        r ==> !stands_before(*b, *a, descending),
{
    if descending {
        is_before(b, a)
    } else {
        is_before(a, b)
    }
}

/// The values of two lists that are in order, in order. Of two values neither of which has to stand
/// before the other, the one of the first list comes first.
fn merged(first: Vec<Dynamic>, second: Vec<Dynamic>, descending: bool) -> (r: Vec<Dynamic>)
    requires
        in_order(first@, descending),
        in_order(second@, descending),
    ensures
        in_order(r@, descending),
        r@.to_multiset() == first@.to_multiset().add(second@.to_multiset()),
{
    broadcast use vstd::seq_lib::group_to_multiset_ensures;

    let ghost all = first@.to_multiset().add(second@.to_multiset());
    let mut first = first;
    let mut second = second;
    let mut back: Vec<Dynamic> = Vec::new();
    while first.len() > 0 || second.len() > 0
        invariant
            in_order(first@, descending),
            in_order(second@, descending),
            in_order(back@.reverse(), descending),
            back@.len() > 0 && first@.len() > 0 ==> !stands_before(
                back@.last(),
                first@.last(),
                descending,
            ),
            back@.len() > 0 && second@.len() > 0 ==> !stands_before(
                back@.last(),
                second@.last(),
                descending,
            ),
            back@.to_multiset().add(first@.to_multiset().add(second@.to_multiset())) == all,
        decreases first@.len() + second@.len(),
    {
        let ghost was = (back@, first@, second@);
        let from_first = if second.len() == 0 {
            true
        } else if first.len() == 0 {
            false
        } else {
            goes_before(&second[second.len() - 1], &first[first.len() - 1], descending)
        };
        let next = if from_first {
            first.pop()
        } else {
            second.pop()
        };
        if let Some(x) = next {
            back.push(x);
            proof {
                assert(back@.reverse() =~= seq![x] + was.0.reverse());
                was.0.to_multiset_ensures();
                first@.to_multiset_ensures();
                second@.to_multiset_ensures();
                assert(back@ =~= was.0.push(x));
                assert(back@.to_multiset() =~= was.0.to_multiset().insert(x));
                if from_first {
                    assert(was.1 =~= first@.push(x));
                    assert(was.1.to_multiset() =~= first@.to_multiset().insert(x));
                } else {
                    assert(was.2 =~= second@.push(x));
                    assert(was.2.to_multiset() =~= second@.to_multiset().insert(x));
                }
                assert(back@.to_multiset().add(first@.to_multiset().add(second@.to_multiset()))
                    =~= all);
            }
        }
    }
    let mut out: Vec<Dynamic> = Vec::new();
    let ghost whole = back@;
    while back.len() > 0
        invariant
            back@.len() + out@.len() == whole.len(),
            out@ + back@.reverse() =~= whole.reverse(),
            back@ =~= whole.take(back@.len() as int),
        decreases back@.len(),
    {
        if let Some(x) = back.pop() {
            out.push(x);
        }
    }
    proof {
        assert(out@ =~= whole.reverse());
        whole.lemma_reverse_to_multiset();
        assert(whole.to_multiset() =~= all);
    }
    out
}

/// The values of a list, in order.
fn sorted(items: Vec<Dynamic>, descending: bool) -> (r: Vec<Dynamic>)
    ensures
        in_order(r@, descending),
        r@.to_multiset() == items@.to_multiset(),
    decreases items@.len(),
{
    if items.len() <= 1 {
        return items;
    }
    let half: usize = items.len() / 2;
    let mut first = items;
    let ghost whole = first@;
    let second = first.split_off(half);
    proof {
        assert(whole =~= first@ + second@);
        vstd::seq_lib::lemma_multiset_commutative(first@, second@);
    }
    let first = sorted(first, descending);
    let second = sorted(second, descending);
    merged(first, second, descending)
}

/// Whether the values of a type have an order: integers, and those of a type of such a name.
spec fn has_order(name: Option<Seq<char>>) -> bool {
    match name {
        None => true,
        Some(n) => n == "char"@ || n == "f64"@ || n == "string"@ || n == "bool"@ || n == "()"@,
    }
}

/// Why a list cannot be sorted: its values are of more than one type, or of one that has no order.
/// A list of one value, or none, is sorted already.
spec fn sort_refusal(s: Seq<Dynamic>) -> Option<Seq<char>> {
    if s.len() <= 1 {
        None
    } else if exists|i: int|
        0 <= i < s.len() && refused_as_int(#[trigger] s[i]) != refused_as_int(s[0]) {
        Some("elements of different types cannot be sorted"@)
    } else {
        match refused_as_int(s[0]) {
            Some(n) if !has_order(Some(n)) => Some("elements of "@ + n + " cannot be sorted"@),
            _ => None,
        }
    }
}

/// Whether two optional names are the same.
fn same_names(a: &Option<String>, b: &Option<String>) -> (r: bool)
    ensures
        r == (opt_text(*a) == opt_text(*b)),
{
    match (a, b) {
        (None, None) => true,
        (Some(x), Some(y)) => same(x.as_str(), y.as_str()),
        _ => false,
    }
}

/// Sorts the values of an array, which are left as they are if they cannot be sorted. It ends and
/// loses no value whatever the order is.
fn sort_items(items: &mut Vec<Dynamic>, descending: bool) -> (r: Result<(), String>)
    ensures
        match r {
            Ok(_) => {
                &&& sort_refusal(old(items)@) is None
                &&& final(items)@.to_multiset() == old(items)@.to_multiset()
                &&& in_order(final(items)@, descending)
            },
            Err(e) => sort_refusal(old(items)@) == Some(e@) && final(items)@ == old(items)@,
        },
{
    if items.len() <= 1 {
        return Ok(());
    }
    let name = other_type(&items[0]);
    let mut i: usize = 1;
    while i < items.len()
        invariant
            1 <= i <= items@.len(),
            items@ == old(items)@,
            opt_text(name) == refused_as_int(items@[0]),
            forall|j: int|
                0 <= j < i ==> refused_as_int(#[trigger] items@[j]) == refused_as_int(items@[0]),
        decreases items@.len() - i,
    {
        if !same_names(&other_type(&items[i]), &name) {
            assert(refused_as_int(items@[i as int]) != refused_as_int(items@[0]));
            return Err(owned("elements of different types cannot be sorted"));
        }
        i = i + 1;
    }
    if let Some(text) = &name {
        let n = text.as_str();
        if !(same(n, "char") || same(n, "f64") || same(n, "string") || same(n, "bool") || same(
            n,
            "()",
        )) {
            return Err(concat3("elements of ", n, " cannot be sorted"));
        }
    }
    let mut taken: Vec<Dynamic> = Vec::new();
    taken.append(items);
    assert(taken@ =~= old(items)@);
    *items = sorted(taken, descending);
    Ok(())
}

/// The values of an array in order, as another array.
fn sorted_copy(items: &Vec<Dynamic>, descending: bool) -> (r: Result<Vec<Dynamic>, String>)
    ensures
        r matches Ok(v) ==> v@.len() == items@.len() && in_order(v@, descending),
{
    let mut copy: Vec<Dynamic> = Vec::new();
    let mut i: usize = 0;
    while i < items.len()
        invariant
            i <= items@.len(),
            copy@.len() == i,
        decreases items@.len() - i,
    {
        copy.push(copy_of(&items[i]));
        i = i + 1;
    }
    let ghost unsorted = copy@;
    match sort_items(&mut copy, descending) {
        Ok(()) => {
            proof {
                unsorted.to_multiset_ensures();
                copy@.to_multiset_ensures();
            }
            Ok(copy)
        },
        Err(e) => Err(e),
    }
}

/// [`rhai::Engine::new`] and [`rhai::Engine::set_max_operations`]: an engine that stops a script
/// after so many operations.
#[verifier::external_body]
fn new_engine(max_operations: u64) -> (r: rhai::Engine)
    ensures
        operations_allowed(r) == max_operations,
{
    let mut engine = rhai::Engine::new();
    engine.set_max_operations(max_operations);
    engine
}

/// [`rhai::Engine::register_fn`], for sleeping and padding: see [`no_wait`], [`padded`] and
/// [`pad_items`]. It leaves the number of operations as it was.
#[verifier::external_body]
fn put_in_front(engine: &mut rhai::Engine)
    ensures
        operations_allowed(*final(engine)) == operations_allowed(*old(engine)),
{
    engine.register_fn("sleep", |_s: rhai::INT| no_wait());
    engine.register_fn("sleep", |_s: rhai::FLOAT| no_wait());
    engine.register_fn("pad", |t: &mut rhai::ImmutableString, n: rhai::INT, p: &str| {
        *t = padded(t.as_str(), n, p).into()
    });
    engine.register_fn("pad", |a: &mut rhai::Array, n: rhai::INT, x: Dynamic| {
        pad_items(a, n, x).map_err(Box::<rhai::EvalAltResult>::from)
    });
}

/// [`rhai::Engine::register_fn`], for sorting an array in place: see [`sort_items`]. It leaves the
/// number of operations as it was.
#[verifier::external_body]
fn put_sort_in_front(engine: &mut rhai::Engine, name: &str, descending: bool)
    ensures
        operations_allowed(*final(engine)) == operations_allowed(*old(engine)),
{
    engine.register_fn(name, move |a: &mut rhai::Array| {
        sort_items(a, descending).map_err(
            |e| Box::new(rhai::EvalAltResult::ErrorFunctionNotFound(e, rhai::Position::NONE)),
        )
    });
}

/// [`rhai::Engine::register_fn`], for sorting an array into another: see [`sorted_copy`]. It leaves
/// the number of operations as it was.
#[verifier::external_body]
fn put_order_in_front(engine: &mut rhai::Engine, name: &str, descending: bool)
    ensures
        operations_allowed(*final(engine)) == operations_allowed(*old(engine)),
{
    engine.register_fn(name, move |a: &mut rhai::Array| {
        sorted_copy(a, descending).map_err(
            |e| Box::new(rhai::EvalAltResult::ErrorFunctionNotFound(e, rhai::Position::NONE)),
        )
    });
}

/// [`rhai::Engine::compile`]: the compiled script, or the error as text. Which scripts compile is
/// not stated.
#[verifier::external_body]
fn compile(engine: &rhai::Engine, script: &str) -> (r: Result<rhai::AST, String>)
    ensures
        match r {
            Ok(ast) => source_of(ast) == script@,
            Err(e) => compile_refuses(script@, e@),
        },
{
    engine.compile(script).map_err(|e| e.to_string())
}

/// [`rhai::Engine::eval_with_scope`] to a truth value, with the given variables: what the script
/// comes to, or the error as text. A script can read the clock and files, so the result is one of
/// those that are possible. One that takes more memory or stack than the machine has ends the
/// process.
#[verifier::external_body]
fn eval_bool(
    engine: &rhai::Engine,
    scope: &Vec<(String, ScriptValue)>,
    script: &str,
) -> (r: Result<bool, String>)
    ensures
        condition_gives(operations_allowed(*engine), script_entries(scope@), script@, truth_view(r)),
{
    let mut s = rhai::Scope::new();
    for (name, value) in scope.iter() {
        s.push_dynamic(name.as_str(), to_dynamic(value));
    }
    engine.eval_with_scope::<bool>(&mut s, script).map_err(|e| e.to_string())
}

/// [`rhai::Engine::eval_ast_with_scope`] to any value, with the given variables: what the script
/// comes to, or the error as text. A script can read the clock and files, so the result is one of
/// those that are possible. One that takes more memory or stack than the machine has ends the
/// process.
#[verifier::external_body]
fn eval_ast(
    engine: &rhai::Engine,
    scope: &Vec<(String, ScriptValue)>,
    ast: &rhai::AST,
) -> (r: Result<ScriptValue, String>)
    ensures
        script_gives(
            operations_allowed(*engine),
            script_entries(scope@),
            source_of(*ast),
            value_view(r),
        ),
{
    let mut s = rhai::Scope::new();
    for (name, value) in scope.iter() {
        s.push_dynamic(name.as_str(), to_dynamic(value));
    }
    engine.eval_ast_with_scope::<Dynamic>(&mut s, ast).map(from_dynamic).map_err(
        |e| e.to_string(),
    )
}

/// The engine that scripts are run with. The library's own functions stand in front of those that
/// the engine comes with and that would not return, or would panic, for some arguments: a script
/// does not sleep, padding a text ends where the padding is empty, padding an array refuses a length
/// that no array can have, and sorting ends whatever the order is.
pub fn create_engine() -> (r: rhai::Engine)
    ensures
        operations_allowed(r) == MAX_OPERATIONS,
{
    let mut engine = new_engine(MAX_OPERATIONS);
    put_in_front(&mut engine);
    put_sort_in_front(&mut engine, "sort", false);
    put_sort_in_front(&mut engine, "sort_desc", true);
    put_order_in_front(&mut engine, "order", false);
    put_order_in_front(&mut engine, "order_desc", true);
    engine
}

/// The error of a script that does not compile.
pub open spec fn refused_script(script: Seq<char>, e: Seq<char>) -> bool {
    exists|why: Seq<char>| #[trigger]
        compile_refuses(script, why) && e == "Rhai compile error: "@ + why
}

/// Compiles a script.
pub fn compile_script(engine: &rhai::Engine, script: &str) -> (r: Result<rhai::AST, String>)
    ensures
        match r {
            Ok(ast) => source_of(ast) == script@,
            Err(e) => refused_script(script@, e@),
        },
{
    match compile(engine, script) {
        Ok(ast) => Ok(ast),
        Err(why) => Err(concat2("Rhai compile error: ", why.as_str())),
    }
}

/// Whether a condition holds, where every entry of `ctx` is a variable.
pub(crate) fn eval_condition(ctx: &Json, condition: &str) -> (r: Result<bool, String>)
    ensures
        condition_gives(MAX_OPERATIONS, flat_bindings(*ctx), condition@, truth_view(r)),
{
    let engine = create_engine();
    let mut scope: Vec<(String, ScriptValue)> = Vec::new();
    inject_context_flat(&mut scope, ctx);
    assert(script_entries(scope@) =~= flat_bindings(*ctx));
    eval_bool(&engine, &scope, condition)
}

/// The variables of a script that sees a context as `ctx`.
pub open spec fn ctx_binding(ctx: Json) -> Seq<(Seq<char>, ScriptView)> {
    seq![("ctx"@, script_of(ctx))]
}

/// What a compiled script comes to, where `ctx` is a variable of that name.
pub(crate) fn eval_script(engine: &rhai::Engine, ast: &rhai::AST, ctx: &Json) -> (r: Result<
    ScriptValue,
    String,
>)
    ensures
        script_gives(
            operations_allowed(*engine),
            ctx_binding(*ctx),
            source_of(*ast),
            value_view(r),
        ),
{
    let mut scope: Vec<(String, ScriptValue)> = Vec::new();
    inject_context(&mut scope, ctx);
    assert(script_entries(scope@) =~= ctx_binding(*ctx));
    eval_ast(engine, &scope, ast)
}

/// A script sees a JSON value as what it is: null as nothing, a truth value as itself, a text as
/// itself, and an integer as itself as long as it fits in 64 bits with a sign.
pub proof fn law_scripts_see_plain_values(b: bool, text: String, u: u64, i: i64)
    ensures
        script_of(Json::Null) == ScriptView::Unit,
        script_of(Json::Bool(b)) == ScriptView::Bool(b),
        script_of(Json::Str(text)) == ScriptView::Str(text@),
        u <= i64::MAX ==> script_of(Json::Number(JsonNumber::Unsigned(u))) == ScriptView::Int(
            u as i64,
        ),
        u > i64::MAX ==> script_of(Json::Number(JsonNumber::Unsigned(u))) == ScriptView::Float(
            Some(decimal(u as nat)),
        ),
        script_of(Json::Number(JsonNumber::Negative(i))) == ScriptView::Int(i),
        json_of(ScriptView::Unit) == JsonView::Null,
        json_of(ScriptView::Bool(b)) == JsonView::Bool(b),
        json_of(ScriptView::Str(text@)) == JsonView::Str(text@),
        json_of(ScriptView::Other(text@)) == JsonView::Str(text@),
        json_of(ScriptView::Float(Some(text@))) == JsonView::Number(NumberView::Decimal(text@)),
        json_of(ScriptView::Float(None)) == JsonView::Null,
        i >= 0 ==> json_of(ScriptView::Int(i)) == JsonView::Number(NumberView::Unsigned(i as u64)),
        i < 0 ==> json_of(ScriptView::Int(i)) == JsonView::Number(NumberView::Negative(i)),
{
}

/// A script sees every item of a list and every entry of an object, in their places, as what they
/// are.
pub proof fn law_scripts_see_every_item(items: Seq<Json>, entries: Seq<(String, Json)>)
    ensures
        script_of_items(items).len() == items.len(),
        forall|k: int|
            0 <= k < items.len() ==> #[trigger] script_of_items(items)[k] == script_of(items[k]),
        script_of_entries(entries).len() == entries.len(),
        forall|k: int|
            0 <= k < entries.len() ==> #[trigger] script_of_entries(entries)[k] == (
                entries[k].0@,
                script_of(entries[k].1),
            ),
    decreases items.len() + entries.len(),
{
    if items.len() > 0 {
        law_scripts_see_every_item(items.subrange(0, items.len() - 1), entries);
    } else if entries.len() > 0 {
        law_scripts_see_every_item(items, entries.subrange(0, entries.len() - 1));
    }
}

/// What a script gives is taken item by item, and of a map the first entry of each key counts; so a
/// map that a script gives has under each key what the script put there.
pub proof fn law_a_scripts_map_is_taken_key_by_key(
    items: Seq<ScriptView>,
    entries: Seq<(Seq<char>, ScriptView)>,
    k: int,
)
    ensures
        json_of_items(items).len() == items.len(),
        0 <= k < items.len() ==> json_of_items(items)[k] == json_of(items[k]),
        (0 <= k < entries.len() && (forall|j: int|
            0 <= j < k ==> (#[trigger] entries[j]).0 != entries[k].0)) ==> {
            &&& map_or_error(ScriptView::Object(entries)) matches Ok(m)
            &&& m.contains_key(entries[k].0)
            &&& m[entries[k].0] == json_of(entries[k].1)
        },
        map_or_error(ScriptView::Object(entries)) is Ok,
    decreases items.len() + entries.len(),
{
    if items.len() > 0 {
        law_a_scripts_map_is_taken_key_by_key(items.subrange(0, items.len() - 1), entries, k);
    } else if entries.len() > 0 {
        let front = entries.subrange(0, entries.len() - 1);
        law_a_scripts_map_is_taken_key_by_key(items, front, k);
        assert forall|j: int| 0 <= j < front.len() implies front[j] == entries[j] by {}
        if 0 <= k < entries.len() && (forall|j: int|
            0 <= j < k ==> (#[trigger] entries[j]).0 != entries[k].0) {
            if k < front.len() {
                assert forall|j: int| 0 <= j < k implies (#[trigger] front[j]).0 != front[k].0 by {
                    assert(entries[j].0 != entries[k].0);
                }
            } else {
                lemma_key_from_an_entry(front, entries[k].0);
                assert(!json_of_entries(front).contains_key(entries[k].0)) by {
                    if json_of_entries(front).contains_key(entries[k].0) {
                        let j = choose|j: int|
                            0 <= j < front.len() && (#[trigger] front[j]).0 == entries[k].0;
                        assert(entries[j].0 != entries[k].0);
                    }
                }
            }
        }
    }
}

proof fn lemma_key_from_an_entry(entries: Seq<(Seq<char>, ScriptView)>, key: Seq<char>)
    ensures
        json_of_entries(entries).contains_key(key) ==> exists|j: int|
            0 <= j < entries.len() && (#[trigger] entries[j]).0 == key,
    decreases entries.len(),
{
    if entries.len() > 0 {
        let front = entries.subrange(0, entries.len() - 1);
        lemma_key_from_an_entry(front, key);
        if json_of_entries(front).contains_key(key) {
            let j = choose|j: int| 0 <= j < front.len() && (#[trigger] front[j]).0 == key;
            assert(entries[j].0 == key);
        }
        if entries[entries.len() - 1].0 == key {
            assert(entries[entries.len() - 1].0 == key);
        }
    }
}

/// A condition sees every entry of the context as a variable of that name, and nothing else; a
/// rewrite sees the whole context as one variable.
pub proof fn law_variables_are_the_contexts_entries(s: Seq<(String, Json)>, i: int, k: int)
    ensures
        (0 <= i < s.len() && (forall|j: int| 0 <= j < i ==> (#[trigger] s[j]).0@ != s[i].0@))
            ==> bindings_of(s).contains((s[i].0@, script_of(s[i].1))),
        0 <= k < bindings_of(s).len() ==> exists|j: int|
            0 <= j < s.len() && (#[trigger] s[j]).0@ == bindings_of(s)[k].0 && script_of(s[j].1)
                == bindings_of(s)[k].1,
    decreases s.len(),
{
    if s.len() > 0 {
        let front = s.drop_last();
        let n = s.len() - 1;
        law_variables_are_the_contexts_entries(front, i, k);
        crate::json::lemma_listed(front, s.last().0@);
        assert forall|j: int| 0 <= j < front.len() implies front[j] == s[j] by {}
        let old = bindings_of(front);
        let new = bindings_of(s);
        if 0 <= i < s.len() && (forall|j: int| 0 <= j < i ==> (#[trigger] s[j]).0@ != s[i].0@) {
            let wanted = (s[i].0@, script_of(s[i].1));
            if i < n {
                assert forall|j: int| 0 <= j < i implies (#[trigger] front[j]).0@
                    != front[i].0@ by {
                    assert(s[j].0@ != s[i].0@);
                }
                let at = choose|at: int| 0 <= at < old.len() && old[at] == wanted;
                assert(new[at] == wanted);
            } else {
                assert forall|j: int| 0 <= j < front.len() implies (#[trigger] front[j]).0@
                    != s[n].0@ by {
                    assert(s[j].0@ != s[n].0@);
                }
                assert(new[new.len() - 1] == wanted);
            }
        }
        if 0 <= k < new.len() {
            if k < old.len() {
                let j = choose|j: int|
                    0 <= j < front.len() && (#[trigger] front[j]).0@ == old[k].0 && script_of(
                        front[j].1,
                    ) == old[k].1;
                assert(s[j].0@ == new[k].0);
            } else {
                assert(s[n].0@ == new[k].0);
            }
        }
    }
}

/// A rewrite's script has one variable, `ctx`, which is the context as scripts see it.
pub proof fn law_a_rewrite_sees_its_context(context: Json)
    ensures
        ctx_binding(context).len() == 1,
        ctx_binding(context)[0].0 == "ctx"@,
        ctx_binding(context)[0].1 == script_of(context),
        context matches Json::Object(o) ==> flat_bindings(context) == bindings_of(o@),
        !(context is Object) ==> flat_bindings(context).len() == 0,
{
}

} // verus!
