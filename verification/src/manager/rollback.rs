//! Taking a child's result back out of a container, so that the child can be tried again.

use crate::entity::{NodeView, TaskView, WorkflowNodeInstanceEntity};
use crate::json::{
    field_of, items_model, lemma_items_model, json_number, number, text_of, unsigned_of, Json,
    JsonView,
};
use crate::manager::executor::PluginManager;
use crate::text::same;
use vstd::prelude::*;

verus! {

/// A list without the texts that are equal to `child`.
pub open spec fn without_text(s: Seq<JsonView>, child: Seq<char>) -> Seq<JsonView>
    decreases s.len(),
{
    if s.len() == 0 {
        seq![]
    } else {
        let front = without_text(s.drop_last(), child);
        if s.last().text() == Some(child) {
            front
        } else {
            front.push(s.last())
        }
    }
}

/// A container's state in which the callback of a child counts as not seen.
pub open spec fn forget_callback(state: JsonView, child: Seq<char>) -> JsonView {
    match state.field("processed_callbacks"@) {
        Some(JsonView::Array(s)) => state.with(
            "processed_callbacks"@,
            JsonView::Array(without_text(s, child)),
        ),
        _ => state,
    }
}

/// The record of a child in a container's state.
pub open spec fn record_of(state: JsonView, child: Seq<char>) -> Option<JsonView> {
    field_of(state.field("results"@), child)
}

/// Whether a container's state records a child as failed.
pub open spec fn recorded_failed(state: JsonView, child: Seq<char>) -> bool {
    text_of(field_of(record_of(state, child), "status"@)) == Some("Failed"@)
}

/// One less, but not below zero.
pub open spec fn one_less(n: u64) -> u64 {
    if n > 0 {
        (n - 1) as u64
    } else {
        0
    }
}

/// A container's state with one failure less, if the child was recorded as failed and failures are
/// counted.
pub open spec fn uncount_failure(state: JsonView, child: Seq<char>) -> JsonView {
    if recorded_failed(state, child) {
        match unsigned_of(state.field("failed_count"@)) {
            Some(n) => state.with("failed_count"@, number(one_less(n))),
            None => state,
        }
    } else {
        state
    }
}

/// A container's state in which a child that was recorded has no result.
pub open spec fn clear_record(state: JsonView, child: Seq<char>) -> JsonView {
    match state.field("results"@) {
        Some(JsonView::Object(m)) => if m.contains_key(child) {
            state.with("results"@, JsonView::Object(m.insert(child, JsonView::Null)))
        } else {
            state
        },
        _ => state,
    }
}

/// A container's state with a child taken back: its callback is forgotten, its failure is not
/// counted any more, and its record is cleared.
pub open spec fn rolled_back(state: JsonView, child: Seq<char>) -> JsonView {
    clear_record(uncount_failure(forget_callback(state, child), child), child)
}

/// A node with a child taken back; a node without output stays as it is.
pub open spec fn node_rolled_back(node: NodeView, child: Seq<char>) -> NodeView {
    match node.task_instance.output {
        Some(state) => NodeView {
            task_instance: TaskView {
                output: Some(rolled_back(state, child)),
                ..node.task_instance
            },
            ..node
        },
        None => node,
    }
}

proof fn lemma_names_differ()
    ensures
        "processed_callbacks"@ != "results"@,
        "processed_callbacks"@ != "failed_count"@,
        "results"@ != "failed_count"@,
{
    reveal_strlit("processed_callbacks");
    reveal_strlit("results");
    reveal_strlit("failed_count");
    assert("processed_callbacks"@.len() == 19);
    assert("results"@.len() == 7);
    assert("failed_count"@.len() == 12);
}

proof fn lemma_without_text_twice(s: Seq<JsonView>, child: Seq<char>)
    ensures
        without_text(without_text(s, child), child) == without_text(s, child),
    decreases s.len(),
{
    if s.len() > 0 {
        lemma_without_text_twice(s.drop_last(), child);
        let front = without_text(s.drop_last(), child);
        if s.last().text() != Some(child) {
            assert(front.push(s.last()).drop_last() =~= front);
        }
    }
}

/// Setting an entry to what it is changes nothing.
proof fn lemma_with_same(state: JsonView, key: Seq<char>, value: JsonView)
    requires
        state.field(key) == Some(value),
    ensures
        state.with(key, value) == state,
{
    match state {
        JsonView::Object(m) => {
            assert(m.insert(key, value) =~= m);
        },
        _ => {},
    }
}

/// Taking a child back twice is the same as taking it back once.
pub proof fn law_rollback_is_idempotent(state: JsonView, child: Seq<char>)
    ensures
        rolled_back(rolled_back(state, child), child) == rolled_back(state, child),
{
    lemma_names_differ();
    match state {
        JsonView::Object(m) => {
            let a = forget_callback(state, child);
            let b = uncount_failure(a, child);
            let c = clear_record(b, child);
            assert(b.field("processed_callbacks"@) == a.field("processed_callbacks"@));
            assert(c.field("processed_callbacks"@) == a.field("processed_callbacks"@));
            assert(b.field("results"@) == a.field("results"@));
            match state.field("processed_callbacks"@) {
                Some(JsonView::Array(s)) => {
                    lemma_without_text_twice(s, child);
                    lemma_with_same(
                        c,
                        "processed_callbacks"@,
                        JsonView::Array(without_text(s, child)),
                    );
                },
                _ => {},
            }
            assert(forget_callback(c, child) == c);
            assert(!recorded_failed(c, child));
            assert(uncount_failure(c, child) == c);
            match c.field("results"@) {
                Some(JsonView::Object(r)) => if r.contains_key(child) {
                    assert(r.insert(child, JsonView::Null) =~= r);
                    lemma_with_same(c, "results"@, JsonView::Object(r));
                },
                _ => {},
            }
        },
        _ => {},
    }
}

/// Taking a child back leaves every other child's record as it was.
pub proof fn law_rollback_leaves_other_children(
    state: JsonView,
    child: Seq<char>,
    other: Seq<char>,
)
    requires
        other != child,
    ensures
        record_of(rolled_back(state, child), other) == record_of(state, other),
{
    lemma_names_differ();
}

/// A child that was taken back has no result, and counts neither as failed nor as called back.
pub proof fn law_rollback_clears_the_child(state: JsonView, child: Seq<char>)
    ensures
        !recorded_failed(rolled_back(state, child), child),
        record_of(state, child) is Some ==> record_of(rolled_back(state, child), child) == Some(
            JsonView::Null,
        ),
        rolled_back(state, child).field("processed_callbacks"@) matches Some(JsonView::Array(s))
            ==> forall|i: int| 0 <= i < s.len() ==> (#[trigger] s[i]).text() != Some(child),
{
    lemma_names_differ();
    match state.field("processed_callbacks"@) {
        Some(JsonView::Array(s)) => {
            lemma_without_text_has_none(s, child);
        },
        _ => {},
    }
}

proof fn lemma_without_text_has_none(s: Seq<JsonView>, child: Seq<char>)
    ensures
        forall|i: int|
            0 <= i < without_text(s, child).len() ==> (#[trigger] without_text(s, child)[i]).text()
                != Some(child),
    decreases s.len(),
{
    if s.len() > 0 {
        lemma_without_text_has_none(s.drop_last(), child);
    }
}

/// A failure that was recorded and counted is counted once less; any other count of failures
/// stays.
pub proof fn law_rollback_uncounts_one_failure(state: JsonView, child: Seq<char>)
    ensures
        unsigned_of(state.field("failed_count"@)) matches Some(n) ==> unsigned_of(
            rolled_back(state, child).field("failed_count"@),
        ) == Some(
            if recorded_failed(state, child) {
                one_less(n)
            } else {
                n
            },
        ),
{
    lemma_names_differ();
    let a = forget_callback(state, child);
    assert(a.field("results"@) == state.field("results"@));
    assert(a.field("failed_count"@) == state.field("failed_count"@));
    let b = uncount_failure(a, child);
    assert(clear_record(b, child).field("failed_count"@) == b.field("failed_count"@));
}

/// The list without the texts that are equal to `child`.
fn remove_text(items: &Vec<Json>, child: &str) -> (r: Vec<Json>)
    ensures
        items_model(r@) == without_text(items_model(items@), child@),
{
    let mut out: Vec<Json> = Vec::new();
    let mut i: usize = 0;
    proof {
        lemma_items_model(items@);
    }
    let ghost model = items_model(items@);
    assert(items_model(out@) =~= seq![]);
    while i < items.len()
        invariant
            i <= items@.len(),
            model == items_model(items@),
            model.len() == items@.len(),
            forall|k: int| 0 <= k < items@.len() ==> #[trigger] model[k] == items@[k].model(),
            items_model(out@) == without_text(model.take(i as int), child@),
        decreases items@.len() - i,
    {
        let keep = match items[i].as_str() {
            Some(s) => !same(s, child),
            None => true,
        };
        let ghost done = out@;
        proof {
            assert(model.take(i + 1).drop_last() =~= model.take(i as int));
            assert(model.take(i + 1).last() == items@[i as int].model());
        }
        if keep {
            out.push(items[i].clone());
            assert(out@.subrange(0, out@.len() - 1) =~= done);
        }
        i = i + 1;
    }
    assert(model.take(i as int) =~= model);
    out
}

/// The state of a container with a child taken back.
fn roll_back_state(state: &Json, child_id: &str) -> (r: Json)
    ensures
        r@ == rolled_back(state@, child_id@),
{
    let mut s = state.clone();
    let kept = match s.get("processed_callbacks") {
        Some(Json::Array(items)) => Some(remove_text(items, child_id)),
        _ => None,
    };
    if let Some(items) = kept {
        s.set("processed_callbacks", Json::Array(items));
    }
    assert(s@ == forget_callback(state@, child_id@));
    let was_failed = match s.get("results") {
        Some(results) => match results.get(child_id) {
            Some(record) => match record.get_str("status") {
                Some(status) => same(status, "Failed"),
                None => false,
            },
            None => false,
        },
        None => false,
    };
    if was_failed {
        if let Some(n) = s.get_u64("failed_count") {
            let less: u64 = if n > 0 {
                n - 1
            } else {
                0
            };
            s.set("failed_count", json_number(less));
        }
    }
    let cleared = match s.get("results") {
        Some(results) => if results.is_object() && results.get(child_id).is_some() {
            let mut copy = results.clone();
            copy.set(child_id, Json::Null);
            Some(copy)
        } else {
            None
        },
        None => None,
    };
    if let Some(results) = cleared {
        s.set("results", results);
    }
    s
}

impl PluginManager {
    /// Takes a child's result back out of the state of a container node.
    pub fn rollback_child_in_container(node: &mut WorkflowNodeInstanceEntity, child_id: &str)
        ensures
            final(node)@ == node_rolled_back(old(node)@, child_id@),
    {
        let rolled = match &node.task_instance.output {
            Some(state) => roll_back_state(state, child_id),
            None => {
                return;
            },
        };
        node.task_instance.output = Some(rolled);
    }
}

/// Forgetting a child's callback keeps every other callback, in its order.
pub proof fn law_other_callbacks_are_kept(s: Seq<JsonView>, child: Seq<char>)
    ensures
        without_text(s, child) == s.filter(|j: JsonView| j.text() != Some(child)),
    decreases s.len(),
{
    reveal(Seq::filter);
    if s.len() > 0 {
        law_other_callbacks_are_kept(s.drop_last(), child);
    }
}

/// Taking a child back touches the list of callbacks, the count of failures and the results, and no
/// other entry of a container's state.
pub proof fn law_rollback_keeps_other_entries(state: JsonView, child: Seq<char>, key: Seq<char>)
    requires
        key != "processed_callbacks"@,
        key != "failed_count"@,
        key != "results"@,
    ensures
        rolled_back(state, child).field(key) == state.field(key),
{
}

/// The callbacks that are left after a child was taken back are those of the other children.
pub proof fn law_rollback_forgets_one_callback(state: JsonView, child: Seq<char>)
    ensures
        state.field("processed_callbacks"@) matches Some(JsonView::Array(seen)) ==> rolled_back(
            state,
            child,
        ).field("processed_callbacks"@) == Some(
            JsonView::Array(seen.filter(|j: JsonView| j.text() != Some(child))),
        ),
{
    lemma_names_differ();
    if let Some(JsonView::Array(seen)) = state.field("processed_callbacks"@) {
        law_other_callbacks_are_kept(seen, child);
    }
}

/// Taking a child back out of a node changes the state in the node's output, and nothing else of the
/// node.
pub proof fn law_a_node_is_rolled_back_in_its_output(node: NodeView, child: Seq<char>)
    ensures
        node.task_instance.output is None ==> node_rolled_back(node, child) == node,
        node.task_instance.output matches Some(state) ==> {
            let after = node_rolled_back(node, child);
            &&& after.task_instance.output == Some(rolled_back(state, child))
            &&& after == (NodeView {
                task_instance: TaskView {
                    output: after.task_instance.output,
                    ..node.task_instance
                },
                ..node
            })
        },
{
}

/// A failure that is taken back is counted down by one, and never below zero; a child that was not
/// recorded as failed is not counted down.
pub proof fn law_a_failure_is_counted_down_once(state: JsonView, child: Seq<char>, n: u64)
    requires
        state.field("failed_count"@) == Some(number(n)),
    ensures
        recorded_failed(state, child) && n > 0 ==> rolled_back(state, child).field("failed_count"@)
            == Some(number((n - 1) as u64)),
        n == 0 || !recorded_failed(state, child) ==> rolled_back(state, child).field(
            "failed_count"@,
        ) == Some(number(n)),
        recorded_failed(state, child) <==> {
            &&& state.field("results"@) matches Some(results)
            &&& results.field(child) matches Some(of_child)
            &&& of_child.field("status"@) == Some(JsonView::Str("Failed"@))
        },
{
    lemma_names_differ();
    law_rollback_uncounts_one_failure(state, child);
    let a = forget_callback(state, child);
    assert(a.field("results"@) == state.field("results"@));
    assert(a.field("failed_count"@) == state.field("failed_count"@));
    let b = uncount_failure(a, child);
    assert(clear_record(b, child).field("failed_count"@) == b.field("failed_count"@));
}

} // verus!
