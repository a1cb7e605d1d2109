//! Language-model tasks: a chat request in the common form, and what its answer comes to.

use crate::codec::{json_at, parsed_json};
use crate::entity::TaskInstanceEntity;
use crate::executors::{
    after_failure, attempt_failed, task_failed, NextStep, NextView, TaskExecutionResult,
    TaskResultView,
};
use crate::json::{
    items_model, json_number, json_text, lemma_items_model, number, or_null, put_str, text_of, Json,
    JsonNumber, JsonView,
};
use crate::manager::llm_request::{json_format, json_temperature, json_tokens, snapshot_base};
use crate::shared::{NodeExecutionStatus, TaskType};
use crate::template::{
    opt_number, LlmResponseFormat, LlmTemplate, LlmTemplateView, TaskTemplate, TaskTemplateView,
};
use crate::text::{concat2, concat3, decimal, decimal_text, owned, trim_end_char, trimmed_end};
use vstd::prelude::*;

verus! {

/// The executor of language-model tasks.
pub struct LlmTaskExecutor {}

/// What a request is made of, by the task's input and its template.
pub struct LlmParamsView {
    pub system_prompt: Seq<char>,
    pub user_prompt: Seq<char>,
    pub api_key: Seq<char>,
    pub base_url: Seq<char>,
    pub model: Seq<char>,
}

/// What a request is made of, by the task's input and its template.
#[derive(Debug)]
pub struct LlmParams<'a> {
    pub system_prompt: &'a str,
    pub user_prompt: &'a str,
    pub api_key: &'a str,
    pub base_url: &'a str,
    pub model: &'a str,
}

impl<'a> View for LlmParams<'a> {
    type V = LlmParamsView;

    open spec fn view(&self) -> LlmParamsView {
        LlmParamsView {
            system_prompt: self.system_prompt@,
            user_prompt: self.user_prompt@,
            api_key: self.api_key@,
            base_url: self.base_url@,
            model: self.model@,
        }
    }
}

/// The text that an input has under a key, or another one if it has none.
pub open spec fn input_text(input: JsonView, key: Seq<char>, other: Seq<char>) -> Seq<char> {
    match text_of(input.field(key)) {
        Some(t) => t,
        None => other,
    }
}

/// What a request is made of: what the input says counts before the template. There is no system
/// prompt and no key but in the input.
pub open spec fn llm_params(input: JsonView, config: LlmTemplateView) -> LlmParamsView {
    LlmParamsView {
        system_prompt: input_text(input, "system_prompt"@, ""@),
        user_prompt: input_text(input, "user_prompt"@, config.user_prompt),
        api_key: input_text(input, "_api_key"@, ""@),
        base_url: input_text(input, "base_url"@, config.base_url),
        model: input_text(input, "model"@, config.model),
    }
}

/// A message of a chat.
pub open spec fn message(role: Seq<char>, content: Seq<char>) -> JsonView {
    JsonView::Object(map!["role"@ => JsonView::Str(role), "content"@ => JsonView::Str(content)])
}

/// The messages of a request: the system's, unless it is empty, and the user's.
pub open spec fn messages(system_prompt: Seq<char>, user_prompt: Seq<char>) -> Seq<JsonView> {
    if system_prompt.len() == 0 {
        seq![message("user"@, user_prompt)]
    } else {
        seq![message("system"@, system_prompt), message("user"@, user_prompt)]
    }
}

/// A map with one more entry, if there is a value for it.
pub open spec fn with_some(
    m: Map<Seq<char>, JsonView>,
    key: Seq<char>,
    value: Option<JsonView>,
) -> Map<Seq<char>, JsonView> {
    match value {
        Some(v) => m.insert(key, v),
        None => m,
    }
}

/// The body of a request.
pub open spec fn request_body(
    model: Seq<char>,
    system_prompt: Seq<char>,
    user_prompt: Seq<char>,
    temperature: Option<crate::json::NumberView>,
    max_tokens: Option<u32>,
    response_format: Option<LlmResponseFormat>,
) -> JsonView {
    let base =
        map!["model"@ => JsonView::Str(model), "messages"@ => JsonView::Array(messages(system_prompt, user_prompt))];
    let warm = with_some(
        base,
        "temperature"@,
        match temperature {
            Some(t) => Some(JsonView::Number(t)),
            None => None,
        },
    );
    let limited = with_some(
        warm,
        "max_tokens"@,
        match max_tokens {
            Some(n) => Some(number(n as u64)),
            None => None,
        },
    );
    JsonView::Object(
        with_some(
            limited,
            "response_format"@,
            match response_format {
                Some(LlmResponseFormat::JsonObject) => Some(
                    JsonView::Object(map!["type"@ => JsonView::Str("json_object"@)]),
                ),
                _ => None,
            },
        ),
    )
}

/// A chat request that is to be sent.
#[derive(Debug)]
pub struct LlmRequest {
    pub url: String,
    pub headers: Vec<(String, String)>,
    pub body: Json,
    /// How long to wait for the answer; without it there is no limit.
    pub timeout_secs: Option<u64>,
    pub model: String,
    pub input_snapshot: Json,
}

/// The headers of a request: the kind of its body, and the key if there is one.
pub open spec fn llm_headers(api_key: Seq<char>) -> Seq<(Seq<char>, Seq<char>)> {
    let base = seq![("Content-Type"@, "application/json"@)];
    if api_key.len() == 0 {
        base
    } else {
        base.push(("Authorization"@, "Bearer "@ + api_key))
    }
}

/// The output of an answer.
pub open spec fn success_output(
    content: Seq<char>,
    usage: JsonView,
    model: Seq<char>,
    finish_reason: Seq<char>,
    attempt: u32,
    parsed: Option<JsonView>,
) -> JsonView {
    JsonView::Object(
        with_some(
            map!["content"@ => JsonView::Str(content), "usage"@ => usage, "model"@ => JsonView::Str(model), "finish_reason"@ => JsonView::Str(finish_reason), "attempt"@ => number((attempt + 1) as u64)],
            "parsed"@,
            parsed,
        ),
    )
}

/// Where the answer's text stands in a response.
pub open spec fn answer_text(response: JsonView) -> Seq<char> {
    match text_of(json_at(response, "/choices/0/message/content"@)) {
        Some(t) => t,
        None => ""@,
    }
}

/// Why the model stopped, by a response.
pub open spec fn finish_reason(response: JsonView) -> Seq<char> {
    match text_of(json_at(response, "/choices/0/finish_reason"@)) {
        Some(t) => t,
        None => "unknown"@,
    }
}

/// The output of a response. If the answer is to be JSON and is not, that is an error.
pub open spec fn built_output(
    response: JsonView,
    model: Seq<char>,
    response_format: Option<LlmResponseFormat>,
    attempt: u32,
) -> Result<JsonView, Seq<char>> {
    output_or_error(
        answer_text(response),
        finish_reason(response),
        response,
        model,
        attempt,
        match response_format {
            Some(LlmResponseFormat::JsonObject) => Some(parsed_json(answer_text(response))),
            _ => None,
        },
    )
}

/// The output of a response with the given text and reason to stop, where `parsed` is what the text
/// is as JSON, if it has to be JSON.
pub open spec fn output_or_error(
    content: Seq<char>,
    reason: Seq<char>,
    response: JsonView,
    model: Seq<char>,
    attempt: u32,
    parsed: Option<Result<JsonView, Seq<char>>>,
) -> Result<JsonView, Seq<char>> {
    let usage = or_null(response.field("usage"@));
    let named = input_text(response, "model"@, model);
    match parsed {
        None => Ok(success_output(content, usage, named, reason, attempt, None)),
        Some(Ok(v)) => Ok(success_output(content, usage, named, reason, attempt, Some(v))),
        Some(Err(e)) => Err("response_format=JsonObject but content is not valid JSON: "@ + e),
    }
}

/// What an answered attempt comes to: a result, or an error after which it is tried again. The
/// flag says that the wait comes twice, once for the answer and once for the attempt.
pub open spec fn processed(
    status_code: u16,
    body: Seq<char>,
    output: Result<Result<JsonView, Seq<char>>, Seq<char>>,
) -> Result<TaskResultView, (Seq<char>, bool)> {
    if 200 <= status_code < 300 {
        match output {
            Ok(Ok(o)) => Ok(
                TaskResultView {
                    status: NodeExecutionStatus::Success,
                    input: None,
                    output: Some(o),
                    error_message: None,
                },
            ),
            Ok(Err(e)) => Err(("JsonObject parse error: "@ + e, true)),
            Err(e) => Err(("response parse error: "@ + e, false)),
        }
    } else if status_code == 429 {
        Err(("rate limited (429): "@ + body, false))
    } else if 400 <= status_code < 500 {
        Ok(
            TaskResultView {
                status: NodeExecutionStatus::Failed,
                input: None,
                output: None,
                error_message: Some(
                    "client error "@ + decimal(status_code as nat) + ": "@ + body,
                ),
            },
        )
    } else {
        Err(("server error "@ + decimal(status_code as nat) + ": "@ + body, false))
    }
}

/// What the output of a response is: none if the response is no JSON.
pub open spec fn output_of(
    body: Seq<char>,
    model: Seq<char>,
    response_format: Option<LlmResponseFormat>,
    attempt: u32,
) -> Result<Result<JsonView, Seq<char>>, Seq<char>> {
    match parsed_json(body) {
        Ok(v) => Ok(built_output(v, model, response_format, attempt)),
        Err(e) => Err(e),
    }
}

/// What comes after an attempt: a result gets the task's input, an error is tried again.
pub open spec fn after_answer(
    attempt: u32,
    retry_count: u32,
    retry_delay: u32,
    input: JsonView,
    outcome: Result<TaskResultView, (Seq<char>, bool)>,
) -> NextView {
    match outcome {
        Ok(r) => NextView::Done(TaskResultView { input: Some(input), ..r }),
        Err((e, twice)) => after_failure(
            attempt,
            retry_count,
            if twice {
                (2 * retry_delay) as u64
            } else {
                retry_delay as u64
            },
            input,
            None,
            e,
        ),
    }
}

/// What an attempt came to.
pub type LlmAttempt = Result<TaskExecutionResult, (String, bool)>;

/// The mathematical value of what an attempt came to.
pub open spec fn answer_view(a: LlmAttempt) -> Result<TaskResultView, (Seq<char>, bool)> {
    match a {
        Ok(r) => Ok(r@),
        Err((e, twice)) => Err((e@, twice)),
    }
}

/// A request that the service calls wrong is not tried again, unless it was only sent too soon.
pub proof fn law_client_errors_end_the_task(
    status_code: u16,
    body: Seq<char>,
    output: Result<Result<JsonView, Seq<char>>, Seq<char>>,
    attempt: u32,
    retry_count: u32,
    retry_delay: u32,
    input: JsonView,
)
    requires
        400 <= status_code < 500,
    ensures
        status_code != 429 ==> after_answer(
            attempt,
            retry_count,
            retry_delay,
            input,
            processed(status_code, body, output),
        ) == NextView::Done(
            task_failed(input, None, "client error "@ + decimal(status_code as nat) + ": "@ + body),
        ),
        status_code == 429 && attempt < retry_count ==> after_answer(
            attempt,
            retry_count,
            retry_delay,
            input,
            processed(status_code, body, output),
        ) is Again,
{
}

/// The key of a request goes into its headers alone: the texts that its body, its address and the
/// input that is kept of it are made of do not depend on it.
pub proof fn law_the_key_is_only_a_header(
    input: JsonView,
    config: LlmTemplateView,
    key: JsonView,
)
    requires
        input is Object,
    ensures
        ({
            let a = llm_params(input, config);
            let b = llm_params(input.with("_api_key"@, key), config);
            a.system_prompt == b.system_prompt && a.user_prompt == b.user_prompt && a.base_url
                == b.base_url && a.model == b.model
        }),
{
    reveal_strlit("_api_key");
    reveal_strlit("system_prompt");
    reveal_strlit("user_prompt");
    reveal_strlit("base_url");
    reveal_strlit("model");
    assert("_api_key"@[0] == '_');
    assert("system_prompt"@[0] == 's');
    assert("user_prompt"@[0] == 'u');
    assert("base_url"@[0] == 'b');
    assert("model"@[0] == 'm');
}

impl LlmTaskExecutor {
    pub fn new() -> (r: Self) {
        LlmTaskExecutor {  }
    }

    pub fn is_success_status(status_code: u16) -> (r: bool)
        ensures
            r == (200 <= status_code < 300),
    {
        200 <= status_code && status_code < 300
    }

    pub fn is_rate_limited(status_code: u16) -> (r: bool)
        ensures
            r == (status_code == 429),
    {
        status_code == 429
    }

    pub fn is_client_error(status_code: u16) -> (r: bool)
        ensures
            r == (400 <= status_code < 500),
    {
        400 <= status_code && status_code < 500
    }

    /// Whether to wait before the next attempt.
    pub fn should_sleep_before_retry(attempt: u32, retry_count: u32, retry_delay: u32) -> (r: bool)
        ensures
            r == (attempt < retry_count && retry_delay > 0),
    {
        attempt < retry_count && retry_delay > 0
    }

    /// What a request is made of.
    pub fn extract_llm_input_params<'a>(input: &'a Json, config: &'a LlmTemplate) -> (r: LlmParams<
        'a,
    >)
        ensures
            r@ == llm_params(input@, config@),
    {
        LlmParams {
            system_prompt: match input.get_str("system_prompt") {
                Some(s) => s,
                None => "",
            },
            user_prompt: match input.get_str("user_prompt") {
                Some(s) => s,
                None => config.user_prompt.as_str(),
            },
            api_key: match input.get_str("_api_key") {
                Some(s) => s,
                None => "",
            },
            base_url: match input.get_str("base_url") {
                Some(s) => s,
                None => config.base_url.as_str(),
            },
            model: match input.get_str("model") {
                Some(s) => s,
                None => config.model.as_str(),
            },
        }
    }

    fn message(role: &str, content: &str) -> (r: Json)
        ensures
            r@ == message(role@, content@),
    {
        let mut e: Vec<(String, Json)> = Vec::new();
        put_str(&mut e, "role", json_text(role));
        put_str(&mut e, "content", json_text(content));
        Json::Object(e)
    }

    /// The body of a request.
    pub fn build_request_body(
        model: &str,
        system_prompt: &str,
        user_prompt: &str,
        temperature: Option<JsonNumber>,
        max_tokens: Option<u32>,
        response_format: &Option<LlmResponseFormat>,
    ) -> (r: Json)
        ensures
            r@ == request_body(
                model@,
                system_prompt@,
                user_prompt@,
                opt_number(temperature),
                max_tokens,
                *response_format,
            ),
    {
        let mut list: Vec<Json> = Vec::new();
        if !system_prompt.is_empty() {
            list.push(LlmTaskExecutor::message("system", system_prompt));
        }
        list.push(LlmTaskExecutor::message("user", user_prompt));
        proof {
            lemma_items_model(list@);
            assert(items_model(list@) =~= messages(system_prompt@, user_prompt@));
        }
        let mut e: Vec<(String, Json)> = Vec::new();
        put_str(&mut e, "model", json_text(model));
        put_str(&mut e, "messages", Json::Array(list));
        if let Some(t) = temperature {
            put_str(&mut e, "temperature", Json::Number(t));
        }
        if let Some(n) = max_tokens {
            put_str(&mut e, "max_tokens", json_number(n as u64));
        }
        if let Some(LlmResponseFormat::JsonObject) = response_format {
            let mut f: Vec<(String, Json)> = Vec::new();
            put_str(&mut f, "type", json_text("json_object"));
            put_str(&mut e, "response_format", Json::Object(f));
        }
        Json::Object(e)
    }

    /// What the task's input is to say of its request; the key itself stays out of it.
    pub fn build_input_snapshot(
        base_url: &str,
        model: &str,
        system_prompt: &str,
        user_prompt: &str,
        config: &LlmTemplate,
    ) -> (r: Json)
        ensures
            r@ == JsonView::Object(
                snapshot_base(config@, base_url@, model@, system_prompt@, user_prompt@),
            ),
    {
        let mut e: Vec<(String, Json)> = Vec::new();
        put_str(&mut e, "base_url", json_text(base_url));
        put_str(&mut e, "model", json_text(model));
        put_str(&mut e, "system_prompt", json_text(system_prompt));
        put_str(&mut e, "user_prompt", json_text(user_prompt));
        put_str(&mut e, "api_key_ref", json_text(config.api_key_ref.as_str()));
        put_str(&mut e, "temperature", json_temperature(config));
        put_str(&mut e, "max_tokens", json_tokens(config.max_tokens));
        put_str(&mut e, "response_format", json_format(config.response_format));
        Json::Object(e)
    }

    /// The headers of a request.
    fn headers(api_key: &str) -> (r: Vec<(String, String)>)
        ensures
            crate::executors::http::header_views(r@) == llm_headers(api_key@),
    {
        let mut headers: Vec<(String, String)> = Vec::new();
        headers.push((owned("Content-Type"), owned("application/json")));
        if !api_key.is_empty() {
            headers.push((owned("Authorization"), concat2("Bearer ", api_key)));
        }
        assert(crate::executors::http::header_views(headers@) =~= llm_headers(api_key@));
        headers
    }

    /// The output of a response with the given text and reason to stop, where `parsed` is what the
    /// text is as JSON, if it has to be JSON.
    pub fn output_of_answer(
        content: &str,
        reason: &str,
        resp_json: &Json,
        model: &str,
        attempt: u32,
        parsed: Option<Result<Json, String>>,
    ) -> (r: Result<Json, String>)
        requires
            attempt < u32::MAX,
        ensures
            match r {
                Ok(o) => Ok::<JsonView, Seq<char>>(o@),
                Err(e) => Err::<JsonView, Seq<char>>(e@),
            } == output_or_error(
                content@,
                reason@,
                resp_json@,
                model@,
                attempt,
                match parsed {
                    Some(Ok(v)) => Some(Ok::<JsonView, Seq<char>>(v@)),
                    Some(Err(e)) => Some(Err::<JsonView, Seq<char>>(e@)),
                    None => None,
                },
            ),
    {
        let usage = match resp_json.get("usage") {
            Some(u) => u.clone(),
            None => Json::Null,
        };
        let resp_model = match resp_json.get_str("model") {
            Some(m) => m,
            None => model,
        };
        let mut e: Vec<(String, Json)> = Vec::new();
        put_str(&mut e, "content", json_text(content));
        put_str(&mut e, "usage", usage);
        put_str(&mut e, "model", json_text(resp_model));
        put_str(&mut e, "finish_reason", json_text(reason));
        put_str(&mut e, "attempt", json_number((attempt + 1) as u64));
        match parsed {
            Some(Ok(v)) => {
                put_str(&mut e, "parsed", v);
            },
            Some(Err(why)) => {
                return Err(
                    concat2(
                        "response_format=JsonObject but content is not valid JSON: ",
                        why.as_str(),
                    ),
                );
            },
            None => {},
        }
        Ok(Json::Object(e))
    }

    /// The output of a response.
    pub fn try_build_success_output(
        resp_json: &Json,
        model: &str,
        response_format: &Option<LlmResponseFormat>,
        attempt: u32,
    ) -> (r: Result<Json, String>)
        requires
            attempt < u32::MAX,
        ensures
            match r {
                Ok(o) => Ok::<JsonView, Seq<char>>(o@),
                Err(e) => Err::<JsonView, Seq<char>>(e@),
            } == built_output(resp_json@, model@, *response_format, attempt),
    {
        let content = match resp_json.at("/choices/0/message/content") {
            Some(Json::Str(s)) => s,
            _ => owned(""),
        };
        let reason = match resp_json.at("/choices/0/finish_reason") {
            Some(Json::Str(s)) => s,
            _ => owned("unknown"),
        };
        let parsed = match response_format {
            Some(LlmResponseFormat::JsonObject) => Some(Json::parse(content.as_str())),
            _ => None,
        };
        LlmTaskExecutor::output_of_answer(
            content.as_str(),
            reason.as_str(),
            resp_json,
            model,
            attempt,
            parsed,
        )
    }

    /// What an answered attempt comes to, where `output` is the output of the response, or why the
    /// response is no JSON. The output counts only if the status is good.
    pub fn answer_processed(
        status_code: u16,
        resp_body: &str,
        output: Result<Result<Json, String>, String>,
    ) -> (r: LlmAttempt)
        ensures
            answer_view(r) == processed(
                status_code,
                resp_body@,
                match output {
                    Ok(Ok(v)) => Ok::<Result<JsonView, Seq<char>>, Seq<char>>(
                        Ok::<JsonView, Seq<char>>(v@),
                    ),
                    Ok(Err(e)) => Ok::<Result<JsonView, Seq<char>>, Seq<char>>(
                        Err::<JsonView, Seq<char>>(e@),
                    ),
                    Err(e) => Err::<Result<JsonView, Seq<char>>, Seq<char>>(e@),
                },
            ),
    {
        if LlmTaskExecutor::is_success_status(status_code) {
            return match output {
                Ok(Ok(o)) => Ok(
                    TaskExecutionResult {
                        status: NodeExecutionStatus::Success,
                        input: None,
                        output: Some(o),
                        error_message: None,
                    },
                ),
                Ok(Err(e)) => Err((concat2("JsonObject parse error: ", e.as_str()), true)),
                Err(e) => Err((concat2("response parse error: ", e.as_str()), false)),
            };
        }
        if LlmTaskExecutor::is_rate_limited(status_code) {
            return Err((concat2("rate limited (429): ", resp_body), false));
        }
        if LlmTaskExecutor::is_client_error(status_code) {
            let mut e = concat3("client error ", decimal_text(status_code as u64).as_str(), ": ");
            e.append(resp_body);
            return Ok(
                TaskExecutionResult {
                    status: NodeExecutionStatus::Failed,
                    input: None,
                    output: None,
                    error_message: Some(e),
                },
            );
        }
        let mut e = concat3("server error ", decimal_text(status_code as u64).as_str(), ": ");
        e.append(resp_body);
        Err((e, false))
    }

    /// What an answered attempt comes to.
    pub fn process_llm_response(
        status_code: u16,
        resp_body: &str,
        model: &str,
        response_format: &Option<LlmResponseFormat>,
        attempt: u32,
    ) -> (r: LlmAttempt)
        requires
            attempt < u32::MAX,
        ensures
            answer_view(r) == processed(
                status_code,
                resp_body@,
                output_of(resp_body@, model@, *response_format, attempt),
            ),
    {
        let output = match Json::parse(resp_body) {
            Ok(v) => Ok(
                LlmTaskExecutor::try_build_success_output(&v, model, response_format, attempt),
            ),
            Err(e) => Err(e),
        };
        LlmTaskExecutor::answer_processed(status_code, resp_body, output)
    }

    /// What comes after an attempt that came to `outcome`; a request that could not be sent is an
    /// error whose wait comes once.
    pub fn attempt_finished(
        attempt: u32,
        retry_count: u32,
        retry_delay: u32,
        input_snapshot: &Json,
        outcome: LlmAttempt,
    ) -> (r: NextStep)
        ensures
            r@ == after_answer(
                attempt,
                retry_count,
                retry_delay,
                input_snapshot@,
                answer_view(outcome),
            ),
    {
        match outcome {
            Ok(result) => NextStep::Done(
                TaskExecutionResult {
                    status: result.status,
                    input: Some(input_snapshot.clone()),
                    output: result.output,
                    error_message: result.error_message,
                },
            ),
            Err((message, twice)) => attempt_failed(
                attempt,
                retry_count,
                if twice {
                    2 * (retry_delay as u64)
                } else {
                    retry_delay as u64
                },
                input_snapshot.clone(),
                None,
                message,
            ),
        }
    }

    /// The request of a language-model task. A task of another kind is an error.
    pub fn execute_task(&self, task_instance: &TaskInstanceEntity) -> (r: Result<
        LlmRequest,
        String,
    >)
        ensures
            match (task_instance@.task_template, r) {
                (TaskTemplateView::Llm(t), Ok(q)) => {
                    let input = match task_instance@.input {
                        Some(i) => i,
                        None => JsonView::Object(Map::empty()),
                    };
                    let p = llm_params(input, t);
                    &&& q.url@ == trimmed_end(p.base_url, '/') + "/chat/completions"@
                    &&& q.body@ == request_body(
                        p.model,
                        p.system_prompt,
                        p.user_prompt,
                        t.temperature,
                        t.max_tokens,
                        t.response_format,
                    )
                    &&& crate::executors::http::header_views(q.headers@) == llm_headers(p.api_key)
                    &&& q.timeout_secs == if t.timeout > 0 {
                        Some(t.timeout as u64)
                    } else {
                        None
                    }
                    &&& q.model@ == p.model
                    &&& q.input_snapshot@ == JsonView::Object(
                        snapshot_base(t, p.base_url, p.model, p.system_prompt, p.user_prompt),
                    )
                },
                (TaskTemplateView::Llm(_), Err(_)) => false,
                (_, Ok(_)) => false,
                (_, Err(e)) => e@ == "Expected Llm config but got other"@,
            },
    {
        let config = match &task_instance.task_template {
            TaskTemplate::Llm(c) => c,
            _ => {
                return Err(owned("Expected Llm config but got other"));
            },
        };
        let input = match &task_instance.input {
            Some(i) => i.clone(),
            None => Json::empty_object(),
        };
        let p = LlmTaskExecutor::extract_llm_input_params(&input, config);
        let body = LlmTaskExecutor::build_request_body(
            p.model,
            p.system_prompt,
            p.user_prompt,
            match &config.temperature {
                Some(n) => Some(n.clone()),
                None => None,
            },
            config.max_tokens,
            &config.response_format,
        );
        let input_snapshot = LlmTaskExecutor::build_input_snapshot(
            p.base_url,
            p.model,
            p.system_prompt,
            p.user_prompt,
            config,
        );
        Ok(
            LlmRequest {
                url: concat2(trim_end_char(p.base_url, '/'), "/chat/completions"),
                headers: LlmTaskExecutor::headers(p.api_key),
                body,
                timeout_secs: if config.timeout > 0 {
                    Some(config.timeout as u64)
                } else {
                    None
                },
                model: owned(p.model),
                input_snapshot,
            },
        )
    }

    /// The kind of task that this executor runs.
    pub fn task_type(&self) -> (r: TaskType)
        ensures
            r is Llm,
    {
        TaskType::Llm
    }
}

impl Default for LlmTaskExecutor {
    fn default() -> (r: Self) {
        LlmTaskExecutor::new()
    }
}

/// What a request to a model is made of is what the input says, and where the input says nothing what
/// the template says.
pub proof fn law_the_input_counts_before_the_template(input: JsonView, config: LlmTemplateView)
    ensures
        ({
            let p = llm_params(input, config);
            &&& input.field("user_prompt"@) matches Some(JsonView::Str(s)) ==> p.user_prompt == s
            &&& !(input.field("user_prompt"@) matches Some(JsonView::Str(_))) ==> p.user_prompt
                == config.user_prompt
            &&& input.field("model"@) matches Some(JsonView::Str(s)) ==> p.model == s
            &&& !(input.field("model"@) matches Some(JsonView::Str(_))) ==> p.model == config.model
            &&& input.field("base_url"@) matches Some(JsonView::Str(s)) ==> p.base_url == s
            &&& !(input.field("base_url"@) matches Some(JsonView::Str(_))) ==> p.base_url
                == config.base_url
            &&& input.field("system_prompt"@) matches Some(JsonView::Str(s)) ==> p.system_prompt
                == s
            &&& !(input.field("system_prompt"@) matches Some(JsonView::Str(_)))
                ==> p.system_prompt.len() == 0
            &&& input.field("_api_key"@) matches Some(JsonView::Str(s)) ==> p.api_key == s
            &&& !(input.field("_api_key"@) matches Some(JsonView::Str(_))) ==> p.api_key.len() == 0
        }),
{
    reveal_strlit("");
}

/// The messages of a request end with the user's, and begin with the system's if that is not empty;
/// there are no others, and each has its role and its text.
pub proof fn law_messages_are_the_prompts(system_prompt: Seq<char>, user_prompt: Seq<char>)
    ensures
        ({
            let all = messages(system_prompt, user_prompt);
            &&& all.len() == (if system_prompt.len() > 0 {
                2nat
            } else {
                1nat
            })
            &&& all.last().field("role"@) == Some(JsonView::Str("user"@))
            &&& all.last().field("content"@) == Some(JsonView::Str(user_prompt))
            &&& system_prompt.len() > 0 ==> {
                &&& all[0].field("role"@) == Some(JsonView::Str("system"@))
                &&& all[0].field("content"@) == Some(JsonView::Str(system_prompt))
            }
        }),
{
    reveal_strlit("role");
    reveal_strlit("content");
    assert("role"@.len() == 4 && "content"@.len() == 7);
}

/// The body of a request names the model, has the messages of its prompts, and each setting that was
/// given and no other.
pub proof fn law_a_body_has_what_was_given(
    model: Seq<char>,
    system_prompt: Seq<char>,
    user_prompt: Seq<char>,
    temperature: Option<crate::json::NumberView>,
    max_tokens: Option<u32>,
    response_format: Option<LlmResponseFormat>,
)
    ensures
        ({
            let body = request_body(
                model,
                system_prompt,
                user_prompt,
                temperature,
                max_tokens,
                response_format,
            );
            &&& body.field("model"@) == Some(JsonView::Str(model))
            &&& body.field("messages"@) == Some(
                JsonView::Array(messages(system_prompt, user_prompt)),
            )
            &&& match temperature {
                Some(t) => body.field("temperature"@) == Some(JsonView::Number(t)),
                None => body.field("temperature"@) is None,
            }
            &&& match max_tokens {
                Some(n) => body.field("max_tokens"@) == Some(number(n as u64)),
                None => body.field("max_tokens"@) is None,
            }
            &&& response_format == Some(LlmResponseFormat::JsonObject) ==> (body.field(
                "response_format"@,
            ) matches Some(f) && f.field("type"@) == Some(JsonView::Str("json_object"@)))
            &&& response_format != Some(LlmResponseFormat::JsonObject) ==> body.field(
                "response_format"@,
            ) is None
        }),
{
    reveal_strlit("model");
    reveal_strlit("messages");
    reveal_strlit("temperature");
    reveal_strlit("max_tokens");
    reveal_strlit("response_format");
    assert("model"@.len() == 5 && "messages"@.len() == 8 && "temperature"@.len() == 11
        && "max_tokens"@.len() == 10 && "response_format"@.len() == 15);
}

/// A request tells that its body is JSON; it has a bearer's key exactly if there is a key, and that
/// is the key.
pub proof fn law_headers_carry_the_key(api_key: Seq<char>)
    ensures
        llm_headers(api_key)[0] == ("Content-Type"@, "application/json"@),
        api_key.len() == 0 ==> llm_headers(api_key).len() == 1,
        api_key.len() > 0 ==> {
            &&& llm_headers(api_key).len() == 2
            &&& llm_headers(api_key)[1].0 == "Authorization"@
            &&& llm_headers(api_key)[1].1 == "Bearer "@ + api_key
        },
{
}

/// The output of an answer has its text, what it cost, the model that gave it, why it stopped, which
/// attempt it was, counted from one, and its JSON value where it has one.
pub proof fn law_an_answer_is_told(
    content: Seq<char>,
    usage: JsonView,
    model: Seq<char>,
    reason: Seq<char>,
    attempt: u32,
    parsed: Option<JsonView>,
)
    ensures
        ({
            let output = success_output(content, usage, model, reason, attempt, parsed);
            &&& output.field("content"@) == Some(JsonView::Str(content))
            &&& output.field("usage"@) == Some(usage)
            &&& output.field("model"@) == Some(JsonView::Str(model))
            &&& output.field("finish_reason"@) == Some(JsonView::Str(reason))
            &&& output.field("attempt"@) == Some(number((attempt + 1) as u64))
            &&& output.field("parsed"@) == parsed
        }),
{
    reveal_strlit("content");
    reveal_strlit("usage");
    reveal_strlit("model");
    reveal_strlit("finish_reason");
    reveal_strlit("attempt");
    reveal_strlit("parsed");
    assert("content"@.len() == 7 && "usage"@.len() == 5 && "model"@.len() == 5
        && "finish_reason"@.len() == 13 && "attempt"@.len() == 7 && "parsed"@.len() == 6);
    assert("content"@[0] == 'c' && "attempt"@[0] == 'a' && "usage"@[0] == 'u' && "model"@[0]
        == 'm');
}

/// The output of a response tells its text and its reason to stop, what it says that it cost, the
/// model that it names or else the one that was asked, and, where the answer had to be JSON, that
/// value. An answer that had to be JSON and is not is an error, and nothing else is.
pub proof fn law_an_output_is_the_responses(
    content: Seq<char>,
    reason: Seq<char>,
    response: JsonView,
    model: Seq<char>,
    attempt: u32,
    parsed: Option<Result<JsonView, Seq<char>>>,
)
    ensures
        ({
            let r = output_or_error(content, reason, response, model, attempt, parsed);
            &&& r is Err <==> (parsed matches Some(Err(_)))
            &&& r matches Ok(output) ==> {
                &&& output.field("content"@) == Some(JsonView::Str(content))
                &&& output.field("finish_reason"@) == Some(JsonView::Str(reason))
                &&& match response.field("usage"@) {
                    Some(usage) => output.field("usage"@) == Some(usage),
                    None => output.field("usage"@) == Some(JsonView::Null),
                }
                &&& response.field("model"@) matches Some(JsonView::Str(named)) ==> output.field(
                    "model"@,
                ) == Some(JsonView::Str(named))
                &&& !(response.field("model"@) matches Some(JsonView::Str(_))) ==> output.field(
                    "model"@,
                ) == Some(JsonView::Str(model))
                &&& output.field("attempt"@) == Some(number((attempt + 1) as u64))
                &&& parsed matches Some(Ok(v)) ==> output.field("parsed"@) == Some(v)
                &&& parsed is None ==> output.field("parsed"@) is None
            }
        }),
{
    let usage = or_null(response.field("usage"@));
    let named = input_text(response, "model"@, model);
    law_an_answer_is_told(
        content,
        usage,
        named,
        reason,
        attempt,
        match parsed {
            Some(Ok(v)) => Some(v),
            _ => None,
        },
    );
}

/// An answer with a good status is the task's result with its output; one that was not understood, or
/// that came too soon, or from a service in trouble, is tried again; a wrong request fails the task.
/// The result gets the task's input.
pub proof fn law_an_answer_ends_or_is_tried_again(
    status_code: u16,
    body: Seq<char>,
    output: Result<Result<JsonView, Seq<char>>, Seq<char>>,
    attempt: u32,
    retry_count: u32,
    retry_delay: u32,
    input: JsonView,
)
    ensures
        ({
            let next = after_answer(
                attempt,
                retry_count,
                retry_delay,
                input,
                processed(status_code, body, output),
            );
            let good = 200 <= status_code <= 299;
            let wrong = 400 <= status_code <= 499 && status_code != 429;
            &&& next matches NextView::Done(r) ==> r.input == Some(input)
            &&& (next matches NextView::Done(r) && r.status is Success) <==> good && (output
                matches Ok(Ok(_)))
            &&& (good && output matches Ok(Ok(o))) ==> next->Done_0.output == Some(output->Ok_0->Ok_0)
            &&& wrong ==> (next matches NextView::Done(r) && r.status is Failed && r.output is None
                && r.error_message is Some)
            &&& next is Again ==> attempt < retry_count && !wrong
            &&& (attempt < retry_count && !wrong && !(good && output matches Ok(Ok(_))))
                ==> (next matches NextView::Again { attempt: number, after_seconds } && number
                == attempt + 1 && after_seconds == (if good && output is Ok {
                2 * retry_delay
            } else {
                retry_delay as int
            }))
        }),
{
}

/// The output of a response has the text and the reason to stop from where the service puts them: the
/// text of the first choice, and nothing where there is none; and the choice's reason, or that it is
/// unknown. Where the answer has to be JSON, it is read from that text; nothing else is an error.
pub proof fn law_the_first_choice_is_the_answer(
    response: JsonView,
    model: Seq<char>,
    format: Option<LlmResponseFormat>,
    attempt: u32,
)
    ensures
        ({
            let text = json_at(response, "/choices/0/message/content"@);
            let reason = json_at(response, "/choices/0/finish_reason"@);
            let must_be_json = format == Some(LlmResponseFormat::JsonObject);
            let said = match text {
                Some(JsonView::Str(t)) => t,
                _ => seq![],
            };
            let r = built_output(response, model, format, attempt);
            &&& r is Err <==> must_be_json && parsed_json(said) is Err
            &&& r matches Ok(output) ==> {
                &&& output.field("content"@) == Some(JsonView::Str(said))
                &&& reason matches Some(JsonView::Str(why)) ==> output.field("finish_reason"@)
                    == Some(JsonView::Str(why))
                &&& !(reason matches Some(JsonView::Str(_))) ==> output.field("finish_reason"@)
                    == Some(JsonView::Str("unknown"@))
                &&& must_be_json ==> (parsed_json(said) matches Ok(v) && output.field("parsed"@)
                    == Some(v))
                &&& !must_be_json ==> output.field("parsed"@) is None
            }
        }),
{
    reveal_strlit("");
    assert(""@ =~= seq![]);
    law_an_output_is_the_responses(
        answer_text(response),
        finish_reason(response),
        response,
        model,
        attempt,
        match format {
            Some(LlmResponseFormat::JsonObject) => Some(parsed_json(answer_text(response))),
            _ => None,
        },
    );
}

/// A body that is no JSON has no output, and any other the output of what it says.
pub proof fn law_a_body_has_the_output_of_what_it_says(
    body: Seq<char>,
    model: Seq<char>,
    format: Option<LlmResponseFormat>,
    attempt: u32,
)
    ensures
        parsed_json(body) is Err ==> output_of(body, model, format, attempt) is Err,
        parsed_json(body) matches Ok(v) ==> output_of(body, model, format, attempt) == Ok::<
            Result<JsonView, Seq<char>>,
            Seq<char>,
        >(built_output(v, model, format, attempt)),
{
}

/// The kinds of status that an answer can have do not overlap but for what came too soon, and decide
/// what becomes of it.
pub proof fn law_statuses_decide_answers(
    status_code: u16,
    body: Seq<char>,
    output: Result<Result<JsonView, Seq<char>>, Seq<char>>,
    good: bool,
    too_soon: bool,
    wrong: bool,
)
    requires
        call_ensures(LlmTaskExecutor::is_success_status, (status_code,), good),
        call_ensures(LlmTaskExecutor::is_rate_limited, (status_code,), too_soon),
        call_ensures(LlmTaskExecutor::is_client_error, (status_code,), wrong),
    ensures
        good ==> !wrong && !too_soon,
        too_soon ==> wrong,
        wrong && !too_soon <==> (processed(status_code, body, output) matches Ok(r) && r.status
            is Failed),
        (processed(status_code, body, output) matches Ok(r) && r.status is Success) ==> good,
        good && (output matches Ok(Ok(_))) ==> processed(status_code, body, output) is Ok,
{
}

/// An answer that is not taken is told by what was wrong with it: its status and what the service
/// said, or what could not be read.
pub proof fn law_a_refused_answer_is_told(
    status_code: u16,
    body: Seq<char>,
    why: Seq<char>,
)
    ensures
        status_code == 429 ==> (processed(status_code, body, Err(why)) matches Err((e, _)) && e
            == "rate limited (429): "@ + body),
        (status_code < 200 || 300 <= status_code < 400 || status_code >= 500) ==> (processed(
            status_code,
            body,
            Err(why),
        ) matches Err((e, _)) && e == "server error "@ + decimal(status_code as nat) + ": "@ + body),
        200 <= status_code < 300 ==> (processed(status_code, body, Err(why)) matches Err((e, _))
            && e == "response parse error: "@ + why),
        200 <= status_code < 300 ==> (processed(status_code, body, Ok(Err(why))) matches Err(
            (e, _),
        ) && e == "JsonObject parse error: "@ + why),
        output_or_error(seq![], seq![], JsonView::Null, seq![], 0, Some(Err(why))) == Err::<
            JsonView,
            Seq<char>,
        >("response_format=JsonObject but content is not valid JSON: "@ + why),
{
}

} // verus!
