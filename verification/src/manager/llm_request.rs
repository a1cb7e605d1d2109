//! The request of a language-model node: the values of its form, the context its texts are filled
//! in from, and the snapshot that becomes the input of its task.

use crate::json::{
    clone_entries, entries_model, json_number, merge_entries, number, put, put_str, Json,
    JsonView, NumberView,
};
use crate::template::{
    forms, opt_number, FormField, FormView, LlmResponseFormat, LlmTemplate, LlmTemplateView,
};
use crate::text::{trim, trimmed};
use vstd::prelude::*;

verus! {

/// The texts of a request after the context has been filled in, and what the context holds under
/// the reference of the key.
#[derive(Debug)]
pub struct ResolvedPrompts {
    pub base_url: String,
    pub model: String,
    pub system_prompt: String,
    pub user_prompt: String,
    pub api_key: Option<Json>,
}

/// The values of a form by key; a field without a name is left out, and of two fields with one
/// name the later counts.
pub open spec fn form_layer(form: Seq<FormView>, values: Seq<JsonView>) -> Map<Seq<char>, JsonView>
    decreases form.len(),
{
    if form.len() == 0 {
        Map::empty()
    } else {
        let front = form_layer(form.drop_last(), values);
        if trimmed(form.last().key).len() == 0 {
            front
        } else {
            front.insert(form.last().key, values[form.len() - 1])
        }
    }
}

/// The context that the texts of a request are filled in from: without form values the context
/// itself; else the form values with the entries of the context over them, so that what a user
/// gives counts before the defaults of the form.
pub open spec fn effective_context(
    context: JsonView,
    layer: Map<Seq<char>, JsonView>,
) -> JsonView {
    if layer.dom() == Set::<Seq<char>>::empty() {
        context
    } else {
        JsonView::Object(
            match context {
                JsonView::Object(m) => layer.union_prefer_right(m),
                _ => layer,
            },
        )
    }
}

/// An optional number as JSON has it.
pub open spec fn number_or_null(n: Option<NumberView>) -> JsonView {
    match n {
        Some(x) => JsonView::Number(x),
        None => JsonView::Null,
    }
}

/// The limit on tokens as JSON has it.
pub open spec fn tokens_or_null(n: Option<u32>) -> JsonView {
    match n {
        Some(x) => number(x as u64),
        None => JsonView::Null,
    }
}

/// The form of the answer as JSON has it.
pub open spec fn format_or_null(f: Option<LlmResponseFormat>) -> JsonView {
    match f {
        Some(x) => JsonView::Str(x.label()),
        None => JsonView::Null,
    }
}

/// The part of a snapshot that is always there.
pub open spec fn snapshot_base(
    tpl: LlmTemplateView,
    base_url: Seq<char>,
    model: Seq<char>,
    system_prompt: Seq<char>,
    user_prompt: Seq<char>,
) -> Map<Seq<char>, JsonView> {
    map!["base_url"@ => JsonView::Str(base_url), "model"@ => JsonView::Str(model), "system_prompt"@ => JsonView::Str(system_prompt), "user_prompt"@ => JsonView::Str(user_prompt), "api_key_ref"@ => JsonView::Str(tpl.api_key_ref), "temperature"@ => number_or_null(tpl.temperature), "max_tokens"@ => tokens_or_null(tpl.max_tokens), "response_format"@ => format_or_null(tpl.response_format)]
}

/// The key that a request is sent with: the text under its reference, or none.
pub open spec fn key_text(found: Option<JsonView>) -> Seq<char> {
    match found {
        Some(JsonView::Str(s)) => s,
        _ => seq![],
    }
}

/// The snapshot of a request: its resolved texts and settings, the key if there is one, and the
/// form values if there are any.
pub open spec fn llm_snapshot(
    tpl: LlmTemplateView,
    layer: Map<Seq<char>, JsonView>,
    prompts: ResolvedPrompts,
) -> JsonView {
    let base = snapshot_base(
        tpl,
        prompts.base_url@,
        prompts.model@,
        prompts.system_prompt@,
        prompts.user_prompt@,
    );
    let key = key_text(crate::json::opt_json(prompts.api_key));
    let keyed = if key.len() > 0 {
        base.insert("_api_key"@, JsonView::Str(key))
    } else {
        base
    };
    JsonView::Object(
        if layer.dom() == Set::<Seq<char>>::empty() {
            keyed
        } else {
            keyed.insert("form"@, JsonView::Object(layer))
        },
    )
}

/// The values of a form by key. `values` are the fields' values after the context has been filled
/// in, one per field.
pub fn llm_form_layer(form: &Vec<FormField>, values: &Vec<Json>) -> (r: Vec<(String, Json)>)
    requires
        values@.len() == form@.len(),
    ensures
        entries_model(r@) == form_layer(
            forms(form@),
            Seq::new(values@.len(), |i: int| values@[i]@),
        ),
{
    let mut out: Vec<(String, Json)> = Vec::new();
    let mut i: usize = 0;
    let ghost all = forms(form@);
    let ghost vals = Seq::new(values@.len(), |i: int| values@[i]@);
    while i < form.len()
        invariant
            i <= form@.len(),
            values@.len() == form@.len(),
            all == forms(form@),
            vals == Seq::new(values@.len(), |i: int| values@[i]@),
            entries_model(out@) == form_layer(all.take(i as int), vals),
        decreases form@.len() - i,
    {
        let field = &form[i];
        proof {
            assert(all.take(i + 1).drop_last() =~= all.take(i as int));
        }
        if !trim(field.key.as_str()).is_empty() {
            put(&mut out, field.key.clone(), values[i].clone());
        }
        i = i + 1;
    }
    assert(all.take(i as int) =~= all);
    out
}

/// Whether a list of entries holds none.
fn no_entries(entries: &Vec<(String, Json)>) -> (r: bool)
    ensures
        r == (entries_model(entries@).dom() == Set::<Seq<char>>::empty()),
{
    if entries.len() == 0 {
        assert(entries_model(entries@).dom() =~= Set::<Seq<char>>::empty());
        true
    } else {
        proof {
            crate::json::lemma_first_key(entries@);
            assert(entries_model(entries@).dom().contains(entries@[0].0@));
        }
        false
    }
}

/// The context that the texts of a request are filled in from.
pub fn effective_llm_context(ctx: &Json, layer: &Vec<(String, Json)>) -> (r: Json)
    ensures
        r@ == effective_context(ctx@, entries_model(layer@)),
{
    if no_entries(layer) {
        ctx.clone()
    } else {
        match ctx {
            Json::Object(entries) => Json::Object(merge_entries(layer, entries)),
            _ => Json::Object(clone_entries(layer)),
        }
    }
}

/// The snapshot of a request.
pub fn resolved_llm_request_snapshot(
    tpl: &LlmTemplate,
    layer: &Vec<(String, Json)>,
    prompts: &ResolvedPrompts,
) -> (r: Json)
    ensures
        r@ == llm_snapshot(tpl@, entries_model(layer@), *prompts),
{
    let mut e: Vec<(String, Json)> = Vec::new();
    put_str(&mut e, "base_url", Json::Str(prompts.base_url.clone()));
    put_str(&mut e, "model", Json::Str(prompts.model.clone()));
    put_str(&mut e, "system_prompt", Json::Str(prompts.system_prompt.clone()));
    put_str(&mut e, "user_prompt", Json::Str(prompts.user_prompt.clone()));
    put_str(&mut e, "api_key_ref", Json::Str(tpl.api_key_ref.clone()));
    put_str(&mut e, "temperature", json_temperature(tpl));
    put_str(&mut e, "max_tokens", json_tokens(tpl.max_tokens));
    put_str(&mut e, "response_format", json_format(tpl.response_format));
    if let Some(Json::Str(key)) = &prompts.api_key {
        if !key.as_str().is_empty() {
            put_str(&mut e, "_api_key", Json::Str(key.clone()));
        }
    }
    if !no_entries(layer) {
        put_str(&mut e, "form", Json::Object(clone_entries(layer)));
    }
    Json::Object(e)
}

/// The temperature of a template as JSON has it.
pub(crate) fn json_temperature(tpl: &LlmTemplate) -> (r: Json)
    ensures
        r@ == number_or_null(opt_number(tpl.temperature)),
{
    match &tpl.temperature {
        Some(n) => Json::Number(n.clone()),
        None => Json::Null,
    }
}

/// The limit on tokens as JSON has it.
pub(crate) fn json_tokens(n: Option<u32>) -> (r: Json)
    ensures
        r@ == tokens_or_null(n),
{
    match n {
        Some(x) => json_number(x as u64),
        None => Json::Null,
    }
}

/// The form of the answer as JSON has it.
pub(crate) fn json_format(f: Option<LlmResponseFormat>) -> (r: Json)
    ensures
        r@ == format_or_null(f),
{
    match f {
        Some(x) => crate::json::json_text(x.name()),
        None => Json::Null,
    }
}

/// What a user gives counts before the defaults of a form; a default counts where the user gives
/// nothing.
pub proof fn law_context_counts_before_the_form(
    context: Map<Seq<char>, JsonView>,
    layer: Map<Seq<char>, JsonView>,
    key: Seq<char>,
)
    ensures
        context.contains_key(key) ==> effective_context(
            JsonView::Object(context),
            layer,
        ).field(key) == Some(context[key]),
        !context.contains_key(key) && layer.contains_key(key) ==> effective_context(
            JsonView::Object(context),
            layer,
        ).field(key) == Some(layer[key]),
{
    if layer.contains_key(key) {
        assert(layer.dom().contains(key));
        assert(!(layer.dom() == Set::<Seq<char>>::empty()));
    }
}

/// A form's layer has, for every key that is not blank, the value of the last field with that key,
/// and no other keys.
pub proof fn law_the_last_field_of_a_form_counts(
    form: Seq<FormView>,
    values: Seq<JsonView>,
    key: Seq<char>,
    i: int,
)
    requires
        form.len() <= values.len(),
    ensures
        (0 <= i < form.len() && form[i].key == key && trimmed(key).len() > 0 && (forall|j: int|
            i < j < form.len() ==> (#[trigger] form[j]).key != key)) ==> form_layer(
            form,
            values,
        ).contains_key(key) && form_layer(form, values)[key] == values[i],
        (forall|j: int| 0 <= j < form.len() ==> (#[trigger] form[j]).key != key) ==> !form_layer(
            form,
            values,
        ).contains_key(key),
        trimmed(key).len() == 0 ==> !form_layer(form, values).contains_key(key),
    decreases form.len(),
{
    if form.len() > 0 {
        let front = form.drop_last();
        law_the_last_field_of_a_form_counts(front, values, key, i);
        assert forall|j: int| 0 <= j < front.len() implies front[j] == form[j] by {}
        if 0 <= i < form.len() && form[i].key == key && trimmed(key).len() > 0 && (forall|j: int|
            i < j < form.len() ==> (#[trigger] form[j]).key != key) {
            if i < form.len() - 1 {
                assert(form[form.len() - 1].key != key);
                assert(front[i].key == key);
                assert forall|j: int| i < j < front.len() implies (#[trigger] front[j]).key
                    != key by {
                    assert(form[j].key != key);
                }
            }
        }
        if forall|j: int| 0 <= j < form.len() ==> (#[trigger] form[j]).key != key {
            assert forall|j: int| 0 <= j < front.len() implies (#[trigger] front[j]).key != key by {
                assert(form[j].key != key);
            }
            assert(form[form.len() - 1].key != key);
        }
    }
}

/// The context of a request has nothing but what the user gives and the form's defaults; without
/// defaults it is what the user gives.
pub proof fn law_a_request_sees_nothing_else(
    context: JsonView,
    layer: Map<Seq<char>, JsonView>,
    key: Seq<char>,
)
    ensures
        context.field(key) is None && !layer.contains_key(key) ==> effective_context(
            context,
            layer,
        ).field(key) is None,
        !(context is Object) && layer.contains_key(key) ==> effective_context(context, layer).field(
            key,
        ) == Some(layer[key]),
        (forall|k: Seq<char>| !layer.contains_key(k)) ==> effective_context(context, layer)
            == context,
{
    if forall|k: Seq<char>| !layer.contains_key(k) {
        assert(layer.dom() =~= Set::<Seq<char>>::empty());
    }
    if layer.contains_key(key) {
        assert(layer.dom().contains(key));
        assert(layer.dom() != Set::<Seq<char>>::empty());
    }
}

/// The snapshot of a request has the texts that it was filled in with, its settings, the key exactly
/// if there is one that is not empty, and the form's values exactly if there are any.
pub proof fn law_a_snapshot_is_the_request(
    tpl: LlmTemplateView,
    layer: Map<Seq<char>, JsonView>,
    prompts: ResolvedPrompts,
)
    ensures
        ({
            let s = llm_snapshot(tpl, layer, prompts);
            &&& s.field("base_url"@) == Some(JsonView::Str(prompts.base_url@))
            &&& s.field("model"@) == Some(JsonView::Str(prompts.model@))
            &&& s.field("system_prompt"@) == Some(JsonView::Str(prompts.system_prompt@))
            &&& s.field("user_prompt"@) == Some(JsonView::Str(prompts.user_prompt@))
            &&& s.field("api_key_ref"@) == Some(JsonView::Str(tpl.api_key_ref))
            &&& match tpl.temperature {
                Some(t) => s.field("temperature"@) == Some(JsonView::Number(t)),
                None => s.field("temperature"@) == Some(JsonView::Null),
            }
            &&& match tpl.max_tokens {
                Some(n) => s.field("max_tokens"@) == Some(number(n as u64)),
                None => s.field("max_tokens"@) == Some(JsonView::Null),
            }
            &&& match tpl.response_format {
                Some(f) => s.field("response_format"@) == Some(JsonView::Str(f.label())),
                None => s.field("response_format"@) == Some(JsonView::Null),
            }
            &&& (prompts.api_key matches Some(Json::Str(k)) && k@.len() > 0) ==> s.field(
                "_api_key"@,
            ) == Some(JsonView::Str(prompts.api_key->0->Str_0@))
            &&& !(prompts.api_key matches Some(Json::Str(k)) && k@.len() > 0) ==> s.field(
                "_api_key"@,
            ) is None
            &&& (exists|k: Seq<char>| layer.contains_key(k)) ==> s.field("form"@) == Some(
                JsonView::Object(layer),
            )
            &&& (forall|k: Seq<char>| !layer.contains_key(k)) ==> s.field("form"@) is None
        }),
{
    reveal_strlit("base_url");
    reveal_strlit("model");
    reveal_strlit("system_prompt");
    reveal_strlit("user_prompt");
    reveal_strlit("api_key_ref");
    reveal_strlit("temperature");
    reveal_strlit("max_tokens");
    reveal_strlit("response_format");
    reveal_strlit("_api_key");
    reveal_strlit("form");
    assert("base_url"@.len() == 8 && "model"@.len() == 5 && "system_prompt"@.len() == 13
        && "user_prompt"@.len() == 11 && "api_key_ref"@.len() == 11 && "temperature"@.len() == 11
        && "max_tokens"@.len() == 10 && "response_format"@.len() == 15 && "_api_key"@.len() == 8
        && "form"@.len() == 4);
    assert("base_url"@[0] == 'b' && "_api_key"@[0] == '_' && "user_prompt"@[0] == 'u'
        && "api_key_ref"@[0] == 'a' && "temperature"@[0] == 't');
    if exists|k: Seq<char>| layer.contains_key(k) {
        let k = choose|k: Seq<char>| layer.contains_key(k);
        assert(layer.dom().contains(k));
        assert(layer.dom() != Set::<Seq<char>>::empty());
    } else {
        assert(layer.dom() =~= Set::<Seq<char>>::empty());
    }
}

} // verus!
