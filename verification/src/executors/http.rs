//! HTTP tasks.

use crate::codec::{parsed_json, printed_json};
use crate::entity::TaskInstanceEntity;
use crate::executors::{
    after_failure, attempt_failed, task_succeeded, NextStep, NextView, TaskExecutionResult,
    TaskResultView,
};
use crate::json::{
    entries_model, is_first_entry, json_number, keys_listed, lemma_listed, number, opt_json,
    put_str, Json, JsonView,
};
use crate::plugin::rhai_engine::{
    condition_gives, eval_condition, flat_bindings, truth_view, MAX_OPERATIONS,
};
use crate::shared::{NodeExecutionStatus, TaskType};
use crate::template::{HttpMethod, TaskTemplate, TaskTemplateView};
use crate::text::{concat3, decimal, decimal_text, opt_text, owned};
use vstd::prelude::*;

verus! {

/// The executor of HTTP tasks.
pub struct HttpTaskExecutor {}

/// What a service answered, and how long it took.
#[derive(Debug)]
pub struct HttpResponse {
    pub status_code: u16,
    pub body: String,
    pub duration_ms: u64,
}

/// A request that is to be sent.
#[derive(Debug)]
pub struct HttpRequest {
    pub method: HttpMethod,
    pub url: String,
    pub headers: Vec<(String, String)>,
    pub body: Option<Json>,
    /// How long to wait for the answer; without it there is no limit.
    pub timeout_secs: Option<u64>,
}

/// The mathematical value of a [`HttpRequest`].
#[verifier::ext_equal]
pub struct RequestView {
    pub method: HttpMethod,
    pub url: Seq<char>,
    pub headers: Seq<(Seq<char>, Seq<char>)>,
    pub body: Option<JsonView>,
    pub timeout_secs: Option<u64>,
}

/// The values of a list of headers.
pub open spec fn header_views(s: Seq<(String, String)>) -> Seq<(Seq<char>, Seq<char>)> {
    Seq::new(s.len(), |i: int| (s[i].0@, s[i].1@))
}

impl View for HttpRequest {
    type V = RequestView;

    open spec fn view(&self) -> RequestView {
        RequestView {
            method: self.method,
            url: self.url@,
            headers: header_views(self.headers@),
            body: opt_json(self.body),
            timeout_secs: self.timeout_secs,
        }
    }
}

/// A request after the context has been filled in: what the task's input is to say of it, and the
/// parts it is made of.
#[derive(Debug)]
pub struct EffectiveRequest {
    pub input_snapshot: Json,
    pub url: String,
    pub method: HttpMethod,
    pub headers: Vec<(String, Json)>,
    pub body: Option<Json>,
}

/// The text of a header's value: a string as it is, any other value as JSON; `null` gives no
/// header.
pub open spec fn header_text(v: Json) -> Option<Seq<char>> {
    match v {
        Json::Str(s) => Some(s@),
        Json::Null => None,
        _ => Some(printed_json(v.ordered())),
    }
}

/// The headers of an object's entries, in the order of the entries; the first entry of a key
/// counts.
pub open spec fn headers_for(entries: Seq<(String, Json)>) -> Seq<(Seq<char>, Seq<char>)>
    decreases entries.len(),
{
    if entries.len() == 0 {
        seq![]
    } else {
        let before = entries.drop_last();
        let key = entries.last().0@;
        match header_text(entries.last().1) {
            Some(t) if !keys_listed(before).contains(key) => headers_for(before).push((key, t)),
            _ => headers_for(before),
        }
    }
}

/// The body that is sent: none if it is `null` or an object without entries.
pub open spec fn sent_body(body: Option<JsonView>) -> Option<JsonView> {
    match body {
        Some(JsonView::Null) => None,
        Some(JsonView::Object(m)) => if m.dom() == Set::<Seq<char>>::empty() {
            None
        } else {
            body
        },
        _ => body,
    }
}

/// The request of the given parts: its headers come in the order of their entries, and a time
/// limit of zero is none.
pub open spec fn request_of(
    url: Seq<char>,
    method: HttpMethod,
    headers: Seq<(String, Json)>,
    body: Option<JsonView>,
    timeout_secs: u32,
) -> RequestView {
    RequestView {
        method,
        url,
        headers: headers_for(headers),
        body: sent_body(body),
        timeout_secs: if timeout_secs > 0 {
            Some(timeout_secs as u64)
        } else {
            None
        },
    }
}

/// What a response's body is in the output: its JSON value, or its text if it is no JSON.
pub open spec fn body_value(text: Seq<char>, parsed: Result<JsonView, Seq<char>>) -> JsonView {
    match parsed {
        Ok(v) => v,
        Err(_) => JsonView::Str(text),
    }
}

/// The output of an attempt.
pub open spec fn response_output(
    status_code: u16,
    body: JsonView,
    duration_ms: u64,
    attempt: u32,
    condition: Option<(Seq<char>, bool)>,
) -> JsonView {
    let base =
        map!["status_code"@ => number(status_code as u64), "body"@ => body, "duration_ms"@ => number(duration_ms), "attempt"@ => number((attempt + 1) as u64)];
    JsonView::Object(
        match condition {
            Some((expr, result)) => base.insert("condition_result"@, JsonView::Bool(result)).insert(
                "condition_expression"@,
                JsonView::Str(expr),
            ),
            None => base,
        },
    )
}

/// Whether a status says that a request went well.
pub open spec fn http_success(status_code: u16) -> bool {
    200 <= status_code < 300
}

/// Whether a condition can come to be met, or not, by a body that was read: one that is no JSON
/// meets none, and else the condition sees the entries of the body as variables. A condition
/// without a value is not met.
pub open spec fn can_be_met(
    body: Result<JsonView, Seq<char>>,
    condition: Seq<char>,
    met: bool,
) -> bool {
    match body {
        Err(_) => !met,
        Ok(v) => exists|read: Json, value: Result<bool, Seq<char>>|
            read@ == v && #[trigger] condition_gives(
                MAX_OPERATIONS,
                flat_bindings(read),
                condition,
                value,
            ) && met == (value matches Ok(b) && b),
    }
}

/// What an attempt came to: its result, or an error and the output that goes with it.
pub type HttpAttempt = Result<TaskExecutionResult, (String, Option<Json>)>;

/// The mathematical value of what an attempt came to.
pub open spec fn attempt_view(a: HttpAttempt) -> Result<
    TaskResultView,
    (Seq<char>, Option<JsonView>),
> {
    match a {
        Ok(r) => Ok(r@),
        Err((e, o)) => Err((e@, opt_json(o))),
    }
}

/// What an answered attempt comes to. A status outside the two hundreds is an error. Where the task
/// has a condition, `met` says whether it holds of the response; if it does not, that is an error
/// too, with the output.
pub open spec fn answered(
    response: HttpResponse,
    body: JsonView,
    condition: Option<Seq<char>>,
    met: bool,
    attempt: u32,
    input: JsonView,
) -> Result<TaskResultView, (Seq<char>, Option<JsonView>)> {
    if !http_success(response.status_code) {
        Err(("HTTP "@ + decimal(response.status_code as nat) + ": "@ + response.body@, None))
    } else {
        match condition {
            Some(c) => {
                let output = response_output(
                    response.status_code,
                    body,
                    response.duration_ms,
                    attempt,
                    Some((c, met)),
                );
                if met {
                    Ok(task_succeeded(input, output))
                } else {
                    Err(("success_condition `"@ + c + "` not met"@, Some(output)))
                }
            },
            None => Ok(
                task_succeeded(
                    input,
                    response_output(
                        response.status_code,
                        body,
                        response.duration_ms,
                        attempt,
                        None,
                    ),
                ),
            ),
        }
    }
}

/// What comes after an attempt.
pub open spec fn after_attempt(
    attempt: u32,
    retry_count: u32,
    retry_delay: u32,
    input: JsonView,
    outcome: Result<TaskResultView, (Seq<char>, Option<JsonView>)>,
) -> NextView {
    match outcome {
        Ok(r) => NextView::Done(r),
        Err((e, o)) => after_failure(attempt, retry_count, retry_delay as u64, input, o, e),
    }
}

/// An answer whose status is not in the two hundreds never makes a task succeed.
pub proof fn law_success_needs_a_good_status(
    response: HttpResponse,
    body: JsonView,
    condition: Option<Seq<char>>,
    met: bool,
    attempt: u32,
    input: JsonView,
)
    ensures
        answered(response, body, condition, met, attempt, input) is Ok ==> http_success(
            response.status_code,
        ) && (condition is Some ==> met),
{
}

impl HttpTaskExecutor {
    pub fn new() -> (r: Self) {
        HttpTaskExecutor {  }
    }

    /// Whether a status says that a request went well.
    pub fn is_http_success(status_code: u16) -> (r: bool)
        ensures
            r == http_success(status_code),
    {
        200 <= status_code && status_code < 300
    }

    /// Whether another attempt comes after a failed one.
    pub fn should_retry(attempt: u32, retry_count: u32) -> (r: bool)
        ensures
            r == (attempt < retry_count),
    {
        attempt < retry_count
    }

    /// The request that is to be sent.
    pub fn build_request(
        url: &str,
        method: HttpMethod,
        headers_obj: &Vec<(String, Json)>,
        body_json: &Option<Json>,
        timeout_secs: u32,
    ) -> (r: HttpRequest)
        ensures
            r@ == request_of(url@, method, headers_obj@, opt_json(*body_json), timeout_secs),
    {
        let mut headers: Vec<(String, String)> = Vec::new();
        let mut i: usize = 0;
        assert(header_views(headers@) =~= headers_for(headers_obj@.take(0)));
        while i < headers_obj.len()
            invariant
                i <= headers_obj@.len(),
                header_views(headers@) == headers_for(headers_obj@.take(i as int)),
            decreases headers_obj@.len() - i,
        {
            let ghost done = headers@;
            let ghost before = headers_obj@.take(i as int);
            proof {
                let part = headers_obj@.take(i + 1);
                assert(part.drop_last() =~= before);
                lemma_listed(before, headers_obj@[i as int].0@);
                assert forall|j: int| 0 <= j < i implies #[trigger] headers_obj@[j].0@
                    == before[j].0@ by {}
            }
            if is_first_entry(headers_obj, i) {
                let text = match &headers_obj[i].1 {
                    Json::Str(s) => Some(s.clone()),
                    Json::Null => None,
                    other => Some(other.to_text()),
                };
                if let Some(t) = text {
                    let ghost pair = (headers_obj@[i as int].0@, t@);
                    headers.push((headers_obj[i].0.clone(), t));
                    assert(header_views(headers@) =~= header_views(done).push(pair));
                }
            } else {
                proof {
                    let j = choose|j: int|
                        0 <= j < i && #[trigger] headers_obj@[j].0@ == headers_obj@[i as int].0@;
                    assert(before[j].0@ == headers_obj@[i as int].0@);
                }
            }
            i = i + 1;
        }
        assert(headers_obj@.take(i as int) =~= headers_obj@);
        let body = match body_json {
            Some(Json::Null) => None,
            Some(Json::Object(entries)) => {
                if entries.len() == 0 {
                    assert(entries_model(entries@).dom() =~= Set::<Seq<char>>::empty());
                    None
                } else {
                    proof {
                        crate::json::lemma_first_key(entries@);
                        assert(entries_model(entries@).dom().contains(entries@[0].0@));
                    }
                    Some(Json::Object(crate::json::clone_entries(entries)))
                }
            },
            Some(b) => Some(b.clone()),
            None => None,
        };
        let r = HttpRequest {
            method,
            url: owned(url),
            headers,
            body,
            timeout_secs: if timeout_secs > 0 {
                Some(timeout_secs as u64)
            } else {
                None
            },
        };
        assert(r@ == request_of(url@, method, headers_obj@, opt_json(*body_json), timeout_secs));
        r
    }

    /// What a condition comes to, where every entry of the body is a variable. A condition can read
    /// the clock, so its value is one of those that are possible.
    pub fn evaluate_condition(body_val: &Json, condition: &str) -> (r: Result<bool, String>)
        ensures
            condition_gives(MAX_OPERATIONS, flat_bindings(*body_val), condition@, truth_view(r)),
    {
        eval_condition(body_val, condition)
    }

    /// Whether a condition counts as met, by what it came to: one without a value is not.
    pub fn condition_met(value: Result<bool, String>) -> (r: bool)
        ensures
            r == (value matches Ok(b) && b),
    {
        match value {
            Ok(v) => v,
            Err(_) => false,
        }
    }

    /// Whether a condition holds of a response. A response that is no JSON meets none.
    pub fn evaluate_success_condition(&self, resp_body: &str, condition: &str) -> (r: bool)
        ensures
            can_be_met(parsed_json(resp_body@), condition@, r),
    {
        match Json::parse(resp_body) {
            Ok(body_val) => HttpTaskExecutor::condition_met(
                HttpTaskExecutor::evaluate_condition(&body_val, condition),
            ),
            Err(_) => false,
        }
    }

    /// The output of an attempt whose body has been read.
    pub fn output_of_response(
        status_code: u16,
        body: Json,
        duration_ms: u64,
        attempt: u32,
        condition: Option<(&str, bool)>,
    ) -> (r: Json)
        requires
            attempt < u32::MAX,
        ensures
            r@ == response_output(
                status_code,
                body@,
                duration_ms,
                attempt,
                match condition {
                    Some((e, b)) => Some((e@, b)),
                    None => None,
                },
            ),
    {
        let mut e: Vec<(String, Json)> = Vec::new();
        put_str(&mut e, "status_code", json_number(status_code as u64));
        put_str(&mut e, "body", body);
        put_str(&mut e, "duration_ms", json_number(duration_ms));
        put_str(&mut e, "attempt", json_number((attempt + 1) as u64));
        if let Some((expr, result)) = condition {
            put_str(&mut e, "condition_result", Json::Bool(result));
            put_str(&mut e, "condition_expression", crate::json::json_text(expr));
        }
        Json::Object(e)
    }

    /// The output of an attempt: the body is read as JSON, or taken as text if it is none.
    pub fn build_response_output(
        status_code: u16,
        resp_body: &str,
        duration_ms: u64,
        attempt: u32,
        condition: Option<(&str, bool)>,
    ) -> (r: Json)
        requires
            attempt < u32::MAX,
        ensures
            r@ == response_output(
                status_code,
                body_value(resp_body@, parsed_json(resp_body@)),
                duration_ms,
                attempt,
                match condition {
                    Some((e, b)) => Some((e@, b)),
                    None => None,
                },
            ),
    {
        let body = match Json::parse(resp_body) {
            Ok(v) => v,
            Err(_) => Json::Str(owned(resp_body)),
        };
        HttpTaskExecutor::output_of_response(status_code, body, duration_ms, attempt, condition)
    }

    /// What an answered attempt comes to, where `met` says whether the task's condition holds.
    pub fn attempt_answered(
        resp: &HttpResponse,
        success_condition: &Option<String>,
        met: bool,
        attempt: u32,
        input_snapshot: &Json,
    ) -> (r: HttpAttempt)
        requires
            attempt < u32::MAX,
        ensures
            attempt_view(r) == answered(
                *resp,
                body_value(resp.body@, parsed_json(resp.body@)),
                opt_text(*success_condition),
                met,
                attempt,
                input_snapshot@,
            ),
    {
        if !HttpTaskExecutor::is_http_success(resp.status_code) {
            let mut e = concat3("HTTP ", decimal_text(resp.status_code as u64).as_str(), ": ");
            e.append(resp.body.as_str());
            return Err((e, None));
        }
        match success_condition {
            Some(condition) => {
                let output = HttpTaskExecutor::build_response_output(
                    resp.status_code,
                    resp.body.as_str(),
                    resp.duration_ms,
                    attempt,
                    Some((condition.as_str(), met)),
                );
                if met {
                    Ok(
                        TaskExecutionResult {
                            status: NodeExecutionStatus::Success,
                            input: Some(input_snapshot.clone()),
                            output: Some(output),
                            error_message: None,
                        },
                    )
                } else {
                    Err(
                        (
                            concat3("success_condition `", condition.as_str(), "` not met"),
                            Some(output),
                        ),
                    )
                }
            },
            None => {
                let output = HttpTaskExecutor::build_response_output(
                    resp.status_code,
                    resp.body.as_str(),
                    resp.duration_ms,
                    attempt,
                    None,
                );
                Ok(
                    TaskExecutionResult {
                        status: NodeExecutionStatus::Success,
                        input: Some(input_snapshot.clone()),
                        output: Some(output),
                        error_message: None,
                    },
                )
            },
        }
    }

    /// What an answered attempt comes to: as [`HttpTaskExecutor::attempt_answered`] has it for some
    /// value that the condition can have.
    pub fn evaluate_http_attempt(
        &self,
        resp: &HttpResponse,
        success_condition: &Option<String>,
        attempt: u32,
        input_snapshot: &Json,
    ) -> (r: HttpAttempt)
        requires
            attempt < u32::MAX,
        ensures
            exists|met: bool|
                (success_condition matches Some(c) ==> http_success(resp.status_code)
                    ==> can_be_met(parsed_json(resp.body@), c@, met)) && attempt_view(r)
                    == #[trigger] answered(
                    *resp,
                    body_value(resp.body@, parsed_json(resp.body@)),
                    opt_text(*success_condition),
                    met,
                    attempt,
                    input_snapshot@,
                ),
    {
        let met = match success_condition {
            Some(condition) => if HttpTaskExecutor::is_http_success(resp.status_code) {
                self.evaluate_success_condition(resp.body.as_str(), condition.as_str())
            } else {
                false
            },
            None => false,
        };
        HttpTaskExecutor::attempt_answered(resp, success_condition, met, attempt, input_snapshot)
    }

    /// What comes after an attempt that came to `outcome`; a request that could not be sent is an
    /// error without output.
    pub fn attempt_finished(
        attempt: u32,
        retry_count: u32,
        retry_delay: u32,
        input_snapshot: &Json,
        outcome: HttpAttempt,
    ) -> (r: NextStep)
        ensures
            r@ == after_attempt(
                attempt,
                retry_count,
                retry_delay,
                input_snapshot@,
                attempt_view(outcome),
            ),
    {
        match outcome {
            Ok(result) => NextStep::Done(result),
            Err((message, output)) => attempt_failed(
                attempt,
                retry_count,
                retry_delay as u64,
                input_snapshot.clone(),
                output,
                message,
            ),
        }
    }

    /// The request of an HTTP task, after the context has been filled in. A task of another kind is
    /// an error, and so is an empty address.
    pub fn execute_task(
        &self,
        task_instance: &TaskInstanceEntity,
        effective: &EffectiveRequest,
    ) -> (r: Result<HttpRequest, String>)
        ensures
            match (task_instance@.task_template, r) {
                (TaskTemplateView::Http(t), Ok(q)) => effective.url@.len() > 0 && q@
                    == request_of(
                    effective.url@,
                    effective.method,
                    effective.headers@,
                    opt_json(effective.body),
                    t.timeout,
                ),
                (TaskTemplateView::Http(_), Err(e)) => effective.url@.len() == 0 && e@
                    == "HTTP task has empty url after resolution"@,
                (_, Ok(_)) => false,
                (_, Err(e)) => e@ == "Expected Http config but got other"@,
            },
    {
        let config = match &task_instance.task_template {
            TaskTemplate::Http(c) => c,
            _ => {
                return Err(owned("Expected Http config but got other"));
            },
        };
        if effective.url.as_str().is_empty() {
            return Err(owned("HTTP task has empty url after resolution"));
        }
        Ok(
            HttpTaskExecutor::build_request(
                effective.url.as_str(),
                effective.method,
                &effective.headers,
                &effective.body,
                config.timeout,
            ),
        )
    }

    /// The kind of task that this executor runs.
    pub fn task_type(&self) -> (r: TaskType)
        ensures
            r is Http,
    {
        TaskType::Http
    }
}

impl Default for HttpTaskExecutor {
    fn default() -> (r: Self) {
        HttpTaskExecutor::new()
    }
}

/// A request is sent as it was put together: to the url, with the method and with the time limit that
/// were asked for, where zero is no limit; and with the body, unless there is none, it is null or it
/// is an object without entries.
pub proof fn law_a_request_is_what_was_asked_for(
    url: Seq<char>,
    method: HttpMethod,
    headers: Seq<(String, Json)>,
    body: Option<JsonView>,
    timeout_secs: u32,
)
    ensures
        ({
            let request = request_of(url, method, headers, body, timeout_secs);
            let empty = match body {
                None => true,
                Some(v) => v is Null || (v matches JsonView::Object(m) && forall|key: Seq<char>|
                    !m.contains_key(key)),
            };
            &&& request.url == url
            &&& request.method == method
            &&& timeout_secs == 0 ==> request.timeout_secs is None
            &&& timeout_secs > 0 ==> request.timeout_secs == Some(timeout_secs as u64)
            &&& empty ==> request.body is None
            &&& !empty ==> request.body == body
        }),
{
    if let Some(JsonView::Object(m)) = body {
        if forall|key: Seq<char>| !m.contains_key(key) {
            assert(m.dom() =~= Set::<Seq<char>>::empty());
        } else {
            let key = choose|key: Seq<char>| m.contains_key(key);
            assert(m.dom().contains(key));
            assert(m.dom() != Set::<Seq<char>>::empty());
        }
    }
}

/// Whether the entry at a place is the first with its key.
pub open spec fn first_of_key(entries: Seq<(String, Json)>, i: int) -> bool {
    &&& 0 <= i < entries.len()
    &&& forall|j: int| 0 <= j < i ==> (#[trigger] entries[j]).0@ != entries[i].0@
}

/// No header comes from anywhere but an entry: it has the entry's key, and the entry's value as text.
pub proof fn law_headers_come_from_entries(entries: Seq<(String, Json)>, k: int)
    requires
        0 <= k < headers_for(entries).len(),
    ensures
        exists|i: int|
            {
                &&& 0 <= i < entries.len()
                &&& (#[trigger] entries[i]).0@ == headers_for(entries)[k].0
                &&& header_text(entries[i].1) == Some(headers_for(entries)[k].1)
            },
    decreases entries.len(),
{
    let before = entries.drop_last();
    if k < headers_for(before).len() {
        law_headers_come_from_entries(before, k);
        let i = choose|i: int|
            {
                &&& 0 <= i < before.len()
                &&& (#[trigger] before[i]).0@ == headers_for(before)[k].0
                &&& header_text(before[i].1) == Some(headers_for(before)[k].1)
            };
        assert(entries[i] == before[i]);
    } else {
        assert(entries[entries.len() - 1].0@ == headers_for(entries)[k].0);
    }
}

/// Every entry that is the first with its key is a header under that key: a text as it stands, any
/// other value as JSON, and nothing for a null.
pub proof fn law_headers_are_the_entries(entries: Seq<(String, Json)>, i: int)
    requires
        first_of_key(entries, i),
    ensures
        match entries[i].1 {
            Json::Str(s) => headers_for(entries).contains((entries[i].0@, s@)),
            Json::Null => forall|k: int|
                0 <= k < headers_for(entries).len() ==> (#[trigger] headers_for(entries)[k]).0
                    != entries[i].0@,
            _ => headers_for(entries).contains(
                (entries[i].0@, printed_json(entries[i].1.ordered())),
            ),
        },
{
    lemma_header_of_an_entry(entries, i);
}

proof fn lemma_header_of_an_entry(entries: Seq<(String, Json)>, i: int)
    requires
        first_of_key(entries, i),
    ensures
        match header_text(entries[i].1) {
            Some(t) => headers_for(entries).contains((entries[i].0@, t)),
            None => forall|k: int|
                0 <= k < headers_for(entries).len() ==> (#[trigger] headers_for(entries)[k]).0
                    != entries[i].0@,
        },
    decreases entries.len(),
{
    let before = entries.drop_last();
    let last = entries.last();
    let old = headers_for(before);
    let new = headers_for(entries);
    crate::json::lemma_listed(before, last.0@);
    if i < before.len() {
        assert(before[i] == entries[i]);
        assert(first_of_key(before, i)) by {
            assert forall|j: int| 0 <= j < i implies (#[trigger] before[j]).0@ != before[i].0@ by {
                assert(entries[j].0@ != entries[i].0@);
            }
        }
        lemma_header_of_an_entry(before, i);
        match header_text(entries[i].1) {
            Some(t) => {
                let k = choose|k: int| 0 <= k < old.len() && old[k] == (entries[i].0@, t);
                assert(new[k] == (entries[i].0@, t));
            },
            None => {
                if new.len() > old.len() {
                    assert(before[i].0@ == entries[i].0@);
                    assert(last.0@ != entries[i].0@);
                }
                assert forall|k: int| 0 <= k < new.len() implies (#[trigger] new[k]).0
                    != entries[i].0@ by {
                    if k < old.len() {
                        assert(new[k] == old[k]);
                    }
                }
            },
        }
    } else {
        assert forall|j: int| 0 <= j < before.len() implies (#[trigger] before[j]).0@
            != last.0@ by {
            assert(entries[j].0@ != entries[i].0@);
        }
        match header_text(last.1) {
            Some(t) => {
                assert(new[new.len() - 1] == (last.0@, t));
            },
            None => {
                assert forall|k: int| 0 <= k < new.len() implies (#[trigger] new[k]).0
                    != entries[i].0@ by {
                    law_headers_come_from_entries(before, k);
                    let j = choose|j: int|
                        {
                            &&& 0 <= j < before.len()
                            &&& (#[trigger] before[j]).0@ == old[k].0
                            &&& header_text(before[j].1) == Some(old[k].1)
                        };
                    assert(before[j].0@ != last.0@);
                }
            },
        }
    }
}

/// The output of an attempt tells the status, the body, how long it took and which attempt it was,
/// counted from one; and, where there was a condition, the condition and whether it was met.
pub proof fn law_an_output_tells_the_response(
    status_code: u16,
    body: JsonView,
    duration_ms: u64,
    attempt: u32,
    condition: Option<(Seq<char>, bool)>,
)
    ensures
        ({
            let output = response_output(status_code, body, duration_ms, attempt, condition);
            &&& output.field("status_code"@) == Some(number(status_code as u64))
            &&& output.field("body"@) == Some(body)
            &&& output.field("duration_ms"@) == Some(number(duration_ms))
            &&& output.field("attempt"@) == Some(number((attempt + 1) as u64))
            &&& match condition {
                Some((asked, met)) => {
                    &&& output.field("condition_expression"@) == Some(JsonView::Str(asked))
                    &&& output.field("condition_result"@) == Some(JsonView::Bool(met))
                },
                None => {
                    &&& output.field("condition_expression"@) is None
                    &&& output.field("condition_result"@) is None
                },
            }
        }),
{
    reveal_strlit("status_code");
    reveal_strlit("body");
    reveal_strlit("duration_ms");
    reveal_strlit("attempt");
    reveal_strlit("condition_expression");
    reveal_strlit("condition_result");
    assert("status_code"@.len() == 11 && "body"@.len() == 4 && "duration_ms"@.len() == 11
        && "attempt"@.len() == 7 && "condition_expression"@.len() == 20
        && "condition_result"@.len() == 16);
    assert("status_code"@[0] == 's' && "duration_ms"@[0] == 'd');
}

/// An attempt succeeds exactly if the status is one of the two hundreds and the condition, where
/// there is one, is met; its output then has the body that was read. One whose condition is not met
/// fails with that output; one with a bad status fails without any.
pub proof fn law_an_attempt_ends_as_it_was_answered(
    response: HttpResponse,
    body: JsonView,
    condition: Option<Seq<char>>,
    met: bool,
    attempt: u32,
    input: JsonView,
)
    ensures
        ({
            let good = 200 <= response.status_code <= 299;
            let r = answered(response, body, condition, met, attempt, input);
            &&& r is Ok <==> good && (condition is None || met)
            &&& r matches Ok(result) ==> {
                &&& result.status is Success
                &&& result.input == Some(input)
                &&& result.error_message is None
                &&& result.output matches Some(output)
                &&& output.field("body"@) == Some(body)
                &&& output.field("status_code"@) == Some(number(response.status_code as u64))
                &&& output.field("duration_ms"@) == Some(number(response.duration_ms))
                &&& output.field("attempt"@) == Some(number((attempt + 1) as u64))
            }
            &&& r matches Err((_, output)) ==> {
                &&& !good ==> output is None
                &&& good ==> (output matches Some(o) && o.field("body"@) == Some(body) && o.field(
                    "condition_result"@,
                ) == Some(JsonView::Bool(false)))
            }
        }),
        !(200 <= response.status_code <= 299) ==> (answered(
            response,
            body,
            condition,
            met,
            attempt,
            input,
        ) matches Err((why, _)) && why == "HTTP "@ + decimal(response.status_code as nat) + ": "@
            + response.body@),
{
    law_an_output_tells_the_response(
        response.status_code,
        body,
        response.duration_ms,
        attempt,
        match condition {
            Some(c) => Some((c, met)),
            None => None,
        },
    );
}

/// A body that is JSON is taken as its value, and any other as its text.
pub proof fn law_bodies_are_read_if_they_can_be(
    text: Seq<char>,
    parsed: Result<JsonView, Seq<char>>,
)
    ensures
        parsed matches Ok(v) ==> body_value(text, parsed) == v,
        parsed is Err ==> body_value(text, parsed) == JsonView::Str(text),
{
}

/// A good result is the task's result as it is. After a failed attempt the next one comes, after the
/// wait that was asked for, as long as there are retries left; then the task fails with what the last
/// attempt said and left.
pub proof fn law_retries_come_until_one_succeeds(
    attempt: u32,
    retry_count: u32,
    retry_delay: u32,
    input: JsonView,
    outcome: Result<TaskResultView, (Seq<char>, Option<JsonView>)>,
)
    ensures
        ({
            let next = after_attempt(attempt, retry_count, retry_delay, input, outcome);
            &&& outcome matches Ok(result) ==> next == NextView::Done(result)
            &&& outcome matches Err((why, output)) ==> {
                &&& attempt < retry_count ==> (next matches NextView::Again {
                    attempt: number,
                    after_seconds,
                } && number == attempt + 1 && after_seconds == retry_delay)
                &&& attempt >= retry_count ==> (next matches NextView::Done(result) && result.status
                    is Failed && result.input == Some(input) && result.output == output
                    && result.error_message == Some(why))
            }
        }),
{
}

/// Another attempt is asked for exactly where the number of retries is not used up, and that is where
/// a failed attempt is followed by another.
pub proof fn law_retries_are_asked_for_while_they_last(
    attempt: u32,
    retry_count: u32,
    retry_delay: u32,
    input: JsonView,
    failure: (Seq<char>, Option<JsonView>),
    again: bool,
)
    requires
        call_ensures(HttpTaskExecutor::should_retry, (attempt, retry_count), again),
    ensures
        again <==> after_attempt(attempt, retry_count, retry_delay, input, Err(failure)) is Again,
        again <==> attempt < retry_count,
{
}

/// A condition is met exactly if it has a value and that is true.
pub proof fn law_a_condition_is_met_by_true(value: Result<bool, String>, met: bool)
    requires
        call_ensures(HttpTaskExecutor::condition_met, (value,), met),
    ensures
        met <==> (value matches Ok(b) && b),
        value is Err ==> !met,
{
}

/// An answer is good exactly if its status is one of the two hundreds.
pub proof fn law_good_answers_are_the_two_hundreds(status_code: u16)
    ensures
        http_success(status_code) <==> status_code as int / 100 == 2,
{
}

/// What an attempt comes to by what was received: it goes well only with a good status, and with a
/// condition only if the condition can come to hold of the body; its output then has the body, read as
/// JSON if it can be.
pub proof fn law_an_attempt_is_judged_by_its_answer(
    executor: &HttpTaskExecutor,
    resp: &HttpResponse,
    condition: &Option<String>,
    attempt: u32,
    input: &Json,
    r: HttpAttempt,
)
    requires
        call_ensures(
            HttpTaskExecutor::evaluate_http_attempt,
            (executor, resp, condition, attempt, input),
            r,
        ),
    ensures
        r is Ok ==> 200 <= resp.status_code <= 299,
        r matches Ok(result) ==> {
            &&& result@.status is Success
            &&& result@.input == Some(input@)
            &&& result@.output matches Some(output)
            &&& parsed_json(resp.body@) matches Ok(v) ==> output.field("body"@) == Some(v)
            &&& parsed_json(resp.body@) is Err ==> output.field("body"@) == Some(
                JsonView::Str(resp.body@),
            )
            &&& output.field("status_code"@) == Some(number(resp.status_code as u64))
        },
        r is Ok && *condition is Some ==> can_be_met(
            parsed_json(resp.body@),
            (*condition)->0@,
            true,
        ),
        *condition is None && 200 <= resp.status_code <= 299 ==> r is Ok,
{
    let body = body_value(resp.body@, parsed_json(resp.body@));
    let met = choose|met: bool|
        (condition matches Some(c) ==> http_success(resp.status_code) ==> can_be_met(
            parsed_json(resp.body@),
            c@,
            met,
        )) && attempt_view(r) == #[trigger] answered(
            *resp,
            body,
            opt_text(*condition),
            met,
            attempt,
            input@,
        );
    law_an_attempt_ends_as_it_was_answered(*resp, body, opt_text(*condition), met, attempt, input@);
}

} // verus!
