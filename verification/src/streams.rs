//! The streams namespace: request fields for the stream endpoints, the
//! longpoll options, the callback-URL preflight and the decisions of the
//! longpoll loop.

use vstd::prelude::*;

use crate::decode::{
    decode_longpoll, is_serialization_error, is_server_error, longpoll_status_message, HttpResponse,
};
use crate::errors::{AudDError, ErrorKind};
use crate::helpers::{classified, classify_callback, CallbackPayload};
use crate::json::{json_text, opt_string_view, Json, JsonValue};
use crate::models::int_of;
use crate::text::{decimal_int, decimal_string, push_decimal_i64, push_str, string_of};

verus! {

/// Longpoll subscription configuration; chain the builder-style overrides
/// on [`LongpollOptions::default`].
#[derive(Debug, Clone)]
pub struct LongpollOptions {
    /// Unix-millis cursor returned by the server.
    pub since_time: Option<i64>,
    /// Per-request long-poll timeout in seconds (server-side cap).
    pub timeout: i64,
    /// Whether the `getCallbackUrl` preflight is skipped.
    pub skip_callback_check: bool,
}

impl Default for LongpollOptions {
    /// No cursor, a 50-second timeout, and the preflight on.
    fn default() -> (r: Self)
        ensures
            r.since_time is None,
            r.timeout == 50,
            !r.skip_callback_check,
    {
        LongpollOptions { since_time: None, timeout: 50, skip_callback_check: false }
    }
}

impl LongpollOptions {
    /// Set `since_time` (Unix-millis cursor returned by the server).
    pub fn since_time(self, t: i64) -> (r: Self)
        ensures
            r.since_time == Some(t),
            r.timeout == self.timeout,
            r.skip_callback_check == self.skip_callback_check,
    {
        LongpollOptions { since_time: Some(t), ..self }
    }

    /// Set the per-request long-poll timeout in seconds.
    pub fn timeout(self, secs: i64) -> (r: Self)
        ensures
            r.since_time == self.since_time,
            r.timeout == secs,
            r.skip_callback_check == self.skip_callback_check,
    {
        LongpollOptions { timeout: secs, ..self }
    }

    /// Skip the `getCallbackUrl` preflight check.
    pub fn skip_callback_check(self, skip: bool) -> (r: Self)
        ensures
            r.since_time == self.since_time,
            r.timeout == self.timeout,
            r.skip_callback_check == skip,
    {
        LongpollOptions { skip_callback_check: skip, ..self }
    }
}

/// The views of a list of form fields.
pub open spec fn field_pairs(v: Seq<(&'static str, String)>) -> Seq<(Seq<char>, Seq<char>)> {
    v.map_values(|p: (&'static str, String)| (p.0@, p.1@))
}

/// The URL of an API method under `base`: `<base>/<method>/`.
pub fn endpoint_url(base: &str, method: &str) -> (r: String)
    ensures
        r@ == base@ + "/"@ + method@ + "/"@,
{
    let mut r = string_of(base);
    push_str(&mut r, "/");
    push_str(&mut r, method);
    push_str(&mut r, "/");
    r
}

/// The fields of an `addStream` request; `callbacks` is sent only when given.
pub fn add_stream_fields(url: &str, radio_id: i64, callbacks: Option<&str>) -> (r: Vec<
    (&'static str, String),
>)
    ensures
        field_pairs(r@) == seq![("url"@, url@), ("radio_id"@, decimal_int(radio_id as int))] + match callbacks {
            Some(cb) => seq![("callbacks"@, cb@)],
            None => Seq::empty(),
        },
{
    let mut fields: Vec<(&'static str, String)> = Vec::new();
    fields.push(("url", string_of(url)));
    fields.push(("radio_id", decimal_string(radio_id)));
    if let Some(cb) = callbacks {
        fields.push(("callbacks", string_of(cb)));
    }
    assert(field_pairs(fields@) =~= seq![("url"@, url@), ("radio_id"@, decimal_int(radio_id as int))]
        + match callbacks {
        Some(cb) => seq![("callbacks"@, cb@)],
        None => Seq::<(Seq<char>, Seq<char>)>::empty(),
    });
    fields
}

/// The fields of a `setStreamUrl` request.
pub fn set_stream_url_fields(radio_id: i64, url: &str) -> (r: Vec<(&'static str, String)>)
    ensures
        field_pairs(r@) == seq![("radio_id"@, decimal_int(radio_id as int)), ("url"@, url@)],
{
    let mut fields: Vec<(&'static str, String)> = Vec::new();
    fields.push(("radio_id", decimal_string(radio_id)));
    fields.push(("url", string_of(url)));
    assert(field_pairs(fields@) =~= seq![("radio_id"@, decimal_int(radio_id as int)), ("url"@, url@)]);
    fields
}

/// The fields of a `deleteStream` request.
pub fn delete_stream_fields(radio_id: i64) -> (r: Vec<(&'static str, String)>)
    ensures
        field_pairs(r@) == seq![("radio_id"@, decimal_int(radio_id as int))],
{
    let mut fields: Vec<(&'static str, String)> = Vec::new();
    fields.push(("radio_id", decimal_string(radio_id)));
    assert(field_pairs(fields@) =~= seq![("radio_id"@, decimal_int(radio_id as int))]);
    fields
}

/// The fields of a `setCallbackUrl` request for an already-built URL.
pub fn set_callback_url_fields(url: String) -> (r: Vec<(&'static str, String)>)
    ensures
        field_pairs(r@) == seq![("url"@, url@)],
{
    let mut fields: Vec<(&'static str, String)> = Vec::new();
    fields.push(("url", url));
    assert(field_pairs(fields@) =~= seq![("url"@, url@)]);
    fields
}

/// The query of one longpoll request: category, timeout, and the cursor
/// when there is one.
pub open spec fn longpoll_query(category: Seq<char>, timeout: int, since_time: Option<int>) -> Seq<
    (Seq<char>, Seq<char>),
> {
    seq![("category"@, category), ("timeout"@, decimal_int(timeout))] + match since_time {
        Some(t) => seq![("since_time"@, decimal_int(t))],
        None => Seq::empty(),
    }
}

/// The query of one longpoll request: category, timeout, and the cursor
/// when there is one.
pub fn longpoll_params(category: &str, timeout: i64, since_time: Option<i64>) -> (r: Vec<
    (&'static str, String),
>)
    ensures
        field_pairs(r@) == longpoll_query(category@, timeout as int, int_of(since_time)),
{
    let mut params: Vec<(&'static str, String)> = Vec::new();
    params.push(("category", string_of(category)));
    params.push(("timeout", decimal_string(timeout)));
    if let Some(t) = since_time {
        params.push(("since_time", decimal_string(t)));
    }
    assert(field_pairs(params@) =~= longpoll_query(category@, timeout as int, int_of(since_time)));
    params
}

/// The text of a configured callback URL: a JSON string as it is, any other
/// value as its JSON text.
pub fn callback_url_text(result: &JsonValue) -> (r: String)
    ensures
        r@ == match result@.as_str() {
            Some(s) => s,
            None => json_text(result@),
        },
{
    match result.as_str() {
        Some(s) => string_of(s),
        None => result.to_text(),
    }
}

/// The error code the server answers `getCallbackUrl` with when no callback
/// URL is configured.
pub open spec fn no_callback_code() -> int {
    19
}

/// The explanation given when the preflight finds no callback URL.
pub open spec fn preflight_hint() -> Seq<char> {
    "Longpoll won't deliver events because no callback URL is configured for this account. Set one first via streams.set_callback_url(...) — `https://audd.tech/empty/` is fine if you only want longpolling and don't need a real receiver. To skip this check, pass skip_callback_check=true."@
}

/// Whether `e` is the invalid-request error that replaces a missing-callback
/// answer, keeping that answer's HTTP status and request id.
pub open spec fn is_preflight_error(e: AudDError, status: u16, request_id: Option<Seq<char>>) -> bool {
    e matches AudDError::Api {
        code,
        message,
        kind,
        http_status,
        request_id: rid,
        requested_params,
        request_method,
        branded_message,
        raw_response,
    } && code == 0 && message@ == preflight_hint() && kind == ErrorKind::InvalidRequest
        && http_status == status && opt_string_view(rid) == request_id && requested_params@.len()
        == 0 && request_method is None && branded_message is None && raw_response@ == Json::Null
}

/// The outcome of the longpoll preflight, given what `getCallbackUrl`
/// answered: a configured URL passes; the missing-callback error becomes an
/// explanation of how to fix it; any other error is passed on as it is.
pub fn preflight_outcome(answer: Result<String, AudDError>) -> (r: Result<(), AudDError>)
    ensures
        match answer {
            Ok(_) => r is Ok,
            Err(e) => match e {
                AudDError::Api { code, http_status, request_id, .. } if code == no_callback_code() =>
                    r matches Err(p) && is_preflight_error(p, http_status, opt_string_view(request_id)),
                _ => r matches Err(p) && p == e,
            },
        },
{
    match answer {
        Ok(_) => Ok(()),
        Err(e) => match e {
            AudDError::Api { code, http_status, request_id, .. } if code == 19 => Err(
                AudDError::Api {
                    code: 0,
                    message: string_of(
                        "Longpoll won't deliver events because no callback URL is configured for this account. Set one first via streams.set_callback_url(...) — `https://audd.tech/empty/` is fine if you only want longpolling and don't need a real receiver. To skip this check, pass skip_callback_check=true.",
                    ),
                    kind: ErrorKind::InvalidRequest,
                    http_status,
                    request_id,
                    requested_params: Vec::new(),
                    request_method: None,
                    branded_message: None,
                    raw_response: JsonValue::Null,
                },
            ),
            other => Err(other),
        },
    }
}

/// Whether `body` is a keepalive tick (`{"timeout": ...}` with neither a
/// `result` nor a `notification`), sent when no event is queued.
pub open spec fn keepalive(body: Json) -> bool {
    &&& body.is_object()
    &&& !body.has_field("result"@)
    &&& !body.has_field("notification"@)
    &&& body.has_field("timeout"@)
}

/// Reports whether `body` is a longpoll keepalive tick.
pub fn is_longpoll_keepalive(body: &JsonValue) -> (r: bool)
    ensures
        r == keepalive(body@),
{
    if !body.is_object() {
        return false;
    }
    if body.contains_key("result") || body.contains_key("notification") {
        return false;
    }
    body.contains_key("timeout")
}

/// The cursor after a body: its integral `timestamp` when it has one,
/// otherwise the cursor before it.
pub open spec fn cursor_after(body: Json, cursor: Option<int>) -> Option<int> {
    match body.field("timestamp"@) {
        Some(t) => match t.as_int() {
            Some(i) => Some(i),
            None => cursor,
        },
        None => cursor,
    }
}

/// Advances the longpoll cursor past `body`.
pub fn next_cursor(body: &JsonValue, cursor: Option<i64>) -> (r: Option<i64>)
    ensures
        int_of(r) == cursor_after(body@, int_of(cursor)),
{
    match body.get("timestamp") {
        Some(t) => match t.as_i64() {
            Some(i) => Some(i),
            None => cursor,
        },
        None => cursor,
    }
}

/// What the longpoll loop does after one fetch.
#[derive(Debug)]
pub enum LongpollStep {
    /// Stop polling and surface this error.
    Fail(AudDError),
    /// A keepalive tick: poll again from this cursor, delivering nothing.
    Keepalive { since_time: Option<i64> },
    /// An event to type and deliver; poll again from this cursor.
    Event { payload: CallbackPayload, envelope: JsonValue, since_time: Option<i64> },
}

/// The message of a longpoll body that is not JSON.
pub open spec fn not_object_text() -> Seq<char> {
    "Longpoll response was not a JSON object"@
}

/// The decision of the longpoll loop for a JSON body from a successful fetch:
/// a keepalive advances the cursor silently; any other body is classified as
/// a match or a notification, with the cursor advanced first.
pub open spec fn is_body_step(step: LongpollStep, b: Json, cursor: Option<int>) -> bool {
    if keepalive(b) {
        step matches LongpollStep::Keepalive { since_time } && int_of(since_time) == cursor_after(
            b,
            cursor,
        )
    } else {
        match step {
            LongpollStep::Event { payload, envelope, since_time } => envelope@ == b && int_of(
                since_time,
            ) == cursor_after(b, cursor) && classified(b, Ok(payload)),
            LongpollStep::Fail(f) => classified(b, Err(f)),
            _ => false,
        }
    }
}

/// The decision of the longpoll loop for one fetch outcome.
pub open spec fn is_longpoll_step(
    step: LongpollStep,
    outcome: Result<HttpResponse, AudDError>,
    cursor: Option<int>,
) -> bool {
    match outcome {
        Err(e) => step matches LongpollStep::Fail(f) && f == e,
        Ok(resp) => if resp.http_status >= 400 {
            step matches LongpollStep::Fail(f) && is_server_error(
                f,
                resp.http_status,
                longpoll_status_message(resp.http_status),
                resp.request_id,
                resp.raw_text@,
            )
        } else {
            match resp.json_body {
                None => step matches LongpollStep::Fail(f) && is_serialization_error(
                    f,
                    not_object_text(),
                    resp.raw_text@,
                ),
                Some(b) => is_body_step(step, b@, cursor),
            }
        },
    }
}

/// The decision of the tokenless longpoll loop for one fetch outcome: as for
/// the authenticated loop, except that any body that is not a JSON object is
/// refused as not being one.
pub open spec fn is_tokenless_step(
    step: LongpollStep,
    outcome: Result<HttpResponse, AudDError>,
    cursor: Option<int>,
) -> bool {
    match outcome {
        Err(e) => step matches LongpollStep::Fail(f) && f == e,
        Ok(resp) => if resp.http_status >= 400 {
            step matches LongpollStep::Fail(f) && is_server_error(
                f,
                resp.http_status,
                longpoll_status_message(resp.http_status),
                resp.request_id,
                resp.raw_text@,
            )
        } else {
            match resp.json_body {
                Some(b) if b@.is_object() => is_body_step(step, b@, cursor),
                _ => step matches LongpollStep::Fail(f) && is_serialization_error(
                    f,
                    not_object_text(),
                    resp.raw_text@,
                ),
            }
        },
    }
}

/// Decides what the longpoll loop does with a JSON body.
pub fn body_step(body: JsonValue, cursor: Option<i64>) -> (r: LongpollStep)
    ensures
        is_body_step(r, body@, int_of(cursor)),
{
    let since_time = next_cursor(&body, cursor);
    if is_longpoll_keepalive(&body) {
        return LongpollStep::Keepalive { since_time };
    }
    match classify_callback(&body) {
        Ok(payload) => LongpollStep::Event { payload, envelope: body, since_time },
        Err(e) => LongpollStep::Fail(e),
    }
}

/// Decides what the longpoll loop does with one fetch outcome: a transport
/// error or an error status ends the loop, a keepalive advances the cursor
/// silently, and any other body is classified as a match or a notification
/// (advancing the cursor before that, so a bad event is not polled again).
pub fn longpoll_step(outcome: Result<HttpResponse, AudDError>, cursor: Option<i64>) -> (r:
    LongpollStep)
    ensures
        is_longpoll_step(r, outcome, int_of(cursor)),
{
    let resp = match outcome {
        Ok(resp) => resp,
        Err(e) => return LongpollStep::Fail(e),
    };
    let HttpResponse { json_body, http_status, request_id, raw_text } = resp;
    if http_status >= 400 {
        let mut message = string_of("Longpoll endpoint returned HTTP ");
        push_decimal_i64(&mut message, http_status as i64);
        return LongpollStep::Fail(
            AudDError::Server { http_status, message, request_id, raw_response: raw_text },
        );
    }
    match json_body {
        Some(b) => body_step(b, cursor),
        None => LongpollStep::Fail(
            AudDError::Serialization {
                message: string_of("Longpoll response was not a JSON object"),
                raw_text,
            },
        ),
    }
}

/// Decides what the tokenless longpoll loop does with one fetch outcome; see
/// [`is_tokenless_step`].
pub fn tokenless_longpoll_step(outcome: Result<HttpResponse, AudDError>, cursor: Option<i64>) -> (r:
    LongpollStep)
    ensures
        is_tokenless_step(r, outcome, int_of(cursor)),
{
    match outcome {
        Err(e) => LongpollStep::Fail(e),
        Ok(resp) => match decode_longpoll(resp) {
            Ok(body) => body_step(body, cursor),
            Err(e) => LongpollStep::Fail(e),
        },
    }
}

/// The cursor after a step: the one the step carries, or the one before it
/// when the step is a failure.
pub open spec fn step_cursor(step: LongpollStep, before: Option<int>) -> Option<int> {
    match step {
        LongpollStep::Fail(_) => before,
        LongpollStep::Keepalive { since_time } => int_of(since_time),
        LongpollStep::Event { since_time, .. } => int_of(since_time),
    }
}

/// The JSON body a fetch outcome carries (`null` when it carries none).
pub open spec fn outcome_body(outcome: Result<HttpResponse, AudDError>) -> Json {
    match outcome {
        Ok(resp) => match resp.json_body {
            Some(b) => b@,
            None => Json::Null,
        },
        Err(_) => Json::Null,
    }
}

/// What a longpoll run has done so far: the cursor each request was sent
/// with, and for each step the cursor after it, whether it failed, and the
/// body it decided on. It is well formed when requests and steps alternate,
/// the first request carries the configured cursor and every later one the
/// cursor after the step before it, a step that did not fail moves the
/// cursor past its body (to the body's integral `timestamp`, else keeping
/// it), a failed step keeps the cursor it had, and only the last step may
/// fail, with no request after it.
pub open spec fn run_history_ok(
    initial: Option<int>,
    requests: Seq<Option<int>>,
    steps: Seq<(Option<int>, bool)>,
    bodies: Seq<Json>,
) -> bool {
    &&& bodies.len() == steps.len()
    &&& forall|i: int|
        0 <= i < steps.len() && !(#[trigger] steps[i]).1 ==> steps[i].0 == cursor_after(
            bodies[i],
            requests[i],
        )
    &&& requests.len() == steps.len() || requests.len() == steps.len() + 1
    &&& forall|i: int|
        0 <= i < requests.len() ==> #[trigger] requests[i] == if i == 0 {
            initial
        } else {
            steps[i - 1].0
        }
    &&& forall|i: int| 0 <= i < steps.len() - 1 ==> !(#[trigger] steps[i]).1
    &&& forall|i: int|
        0 <= i < steps.len() && (#[trigger] steps[i]).1 ==> steps[i].0 == requests[i]
    &&& steps.len() > 0 && steps.last().1 ==> requests.len() == steps.len()
}

/// A longpoll run fails at most once: no two steps fail, and no request
/// follows a failed step, so at most one error is ever surfaced and the run
/// ends with it.
pub proof fn lemma_run_fails_at_most_once(
    initial: Option<int>,
    requests: Seq<Option<int>>,
    steps: Seq<(Option<int>, bool)>,
    bodies: Seq<Json>,
)
    requires
        run_history_ok(initial, requests, steps, bodies),
    ensures
        forall|i: int, j: int|
            0 <= i < steps.len() && 0 <= j < steps.len() && (#[trigger] steps[i]).1
                && (#[trigger] steps[j]).1 ==> i == j,
        forall|i: int| 0 <= i < steps.len() && (#[trigger] steps[i]).1 ==> i == steps.len() - 1
            && requests.len() == steps.len(),
{
    assert forall|i: int| 0 <= i < steps.len() && (#[trigger] steps[i]).1 implies i == steps.len() - 1
        && requests.len() == steps.len() by {
        if i < steps.len() - 1 {
            assert(!steps[i].1);
        }
    }
}

/// Every request of a longpoll run after the first is sent with the cursor
/// the previous step left, and the first with the configured cursor.
pub proof fn lemma_run_chains_cursor(
    initial: Option<int>,
    requests: Seq<Option<int>>,
    steps: Seq<(Option<int>, bool)>,
    bodies: Seq<Json>,
)
    requires
        run_history_ok(initial, requests, steps, bodies),
    ensures
        requests.len() > 0 ==> requests[0] == initial,
        forall|i: int|
            0 < i < requests.len() ==> #[trigger] requests[i] == steps[i - 1].0 && requests[i]
                == cursor_after(bodies[i - 1], requests[i - 1]),
{
    if requests.len() > 0 {
        assert(requests[0] == initial);
    }
    assert forall|i: int| 0 < i < requests.len() implies #[trigger] requests[i] == steps[i - 1].0
        && requests[i] == cursor_after(bodies[i - 1], requests[i - 1]) by {
        assert(requests[i] == steps[i - 1].0);
        if steps[i - 1].1 {
            assert(i - 1 == steps.len() - 1 || !steps[i - 1].1);
        }
        assert(!steps[i - 1].1);
    }
}

/// One longpoll subscription as a sequence of requests and steps: it hands
/// out the query of each request and decides each fetch outcome, carrying
/// the cursor from one to the next, and it stops at the first failure.
pub struct LongpollRun {
    category: String,
    timeout: i64,
    tokenless: bool,
    cursor: Option<i64>,
    pending: bool,
    finished: bool,
    initial: Ghost<Option<int>>,
    requests: Ghost<Seq<Option<int>>>,
    steps: Ghost<Seq<(Option<int>, bool)>>,
    bodies: Ghost<Seq<Json>>,
}

impl LongpollRun {
    /// The subscription's category.
    pub closed spec fn category(self) -> Seq<char> {
        self.category@
    }

    /// The per-request timeout in seconds.
    pub closed spec fn timeout(self) -> int {
        self.timeout as int
    }

    /// Whether the run polls without a token.
    pub closed spec fn tokenless(self) -> bool {
        self.tokenless
    }

    /// The cursor the next request is sent with.
    pub closed spec fn cursor(self) -> Option<int> {
        int_of(self.cursor)
    }

    /// Whether a request was handed out and its outcome not yet decided.
    pub closed spec fn pending(self) -> bool {
        self.pending
    }

    /// Whether a step failed, which ends the run.
    pub closed spec fn finished(self) -> bool {
        self.finished
    }

    /// The cursor the run was configured with.
    pub closed spec fn initial(self) -> Option<int> {
        self.initial@
    }

    /// The cursor of each request handed out so far.
    pub closed spec fn requests(self) -> Seq<Option<int>> {
        self.requests@
    }

    /// For each step so far, the cursor after it and whether it failed.
    pub closed spec fn steps(self) -> Seq<(Option<int>, bool)> {
        self.steps@
    }

    /// For each step so far, the body it decided on.
    pub closed spec fn bodies(self) -> Seq<Json> {
        self.bodies@
    }

    /// The internal consistency of a run with its history.
    pub closed spec fn wf(self) -> bool {
        &&& run_history_ok(self.initial@, self.requests@, self.steps@, self.bodies@)
        &&& self.pending <==> self.requests@.len() == self.steps@.len() + 1
        &&& self.finished <==> (self.steps@.len() > 0 && self.steps@.last().1)
        &&& int_of(self.cursor) == if self.steps@.len() == 0 {
            self.initial@
        } else {
            self.steps@.last().0
        }
    }

    /// A run that has sent nothing yet.
    pub fn new(category: &str, timeout: i64, since_time: Option<i64>, tokenless: bool) -> (r:
        LongpollRun)
        ensures
            r.wf(),
            r.category() == category@,
            r.timeout() == timeout,
            r.tokenless() == tokenless,
            r.initial() == int_of(since_time),
            r.cursor() == int_of(since_time),
            !r.pending(),
            !r.finished(),
            r.requests().len() == 0,
            r.steps().len() == 0,
            r.bodies().len() == 0,
    {
        LongpollRun {
            category: string_of(category),
            timeout,
            tokenless,
            cursor: since_time,
            pending: false,
            finished: false,
            initial: Ghost(int_of(since_time)),
            requests: Ghost(Seq::empty()),
            steps: Ghost(Seq::empty()),
            bodies: Ghost(Seq::empty()),
        }
    }

    /// The query of the next request, sent with the current cursor; `None`
    /// once the run has ended. Asking again before the outcome is decided
    /// gives the same query and records nothing new.
    pub fn next_request(&mut self) -> (r: Option<Vec<(&'static str, String)>>)
        requires
            old(self).wf(),
        ensures
            final(self).wf(),
            r is None <==> old(self).finished(),
            r matches Some(q) ==> field_pairs(q@) == longpoll_query(
                old(self).category(),
                old(self).timeout(),
                old(self).cursor(),
            ),
            final(self).requests() == if old(self).finished() || old(self).pending() {
                old(self).requests()
            } else {
                old(self).requests().push(old(self).cursor())
            },
            final(self).pending() == !old(self).finished(),
            final(self).steps() == old(self).steps(),
            final(self).bodies() == old(self).bodies(),
            final(self).finished() == old(self).finished(),
            final(self).cursor() == old(self).cursor(),
            final(self).initial() == old(self).initial(),
            final(self).category() == old(self).category(),
            final(self).timeout() == old(self).timeout(),
            final(self).tokenless() == old(self).tokenless(),
    {
        if self.finished {
            return None;
        }
        if !self.pending {
            proof {
                let c = int_of(self.cursor);
                let old_req = self.requests@;
                self.requests@ = old_req.push(c);
                assert forall|i: int| 0 <= i < self.requests@.len() implies #[trigger] self.requests@[i]
                    == if i == 0 {
                    self.initial@
                } else {
                    self.steps@[i - 1].0
                } by {
                    if i < old_req.len() {
                        assert(self.requests@[i] == old_req[i]);
                    }
                }
            }
            self.pending = true;
        }
        Some(longpoll_params(self.category.as_str(), self.timeout, self.cursor))
    }

    /// Decides the outcome of the pending request (see [`longpoll_step`] and
    /// [`tokenless_longpoll_step`]), moves the cursor to the one the step
    /// carries, and ends the run when the step is a failure.
    pub fn advance(&mut self, outcome: Result<HttpResponse, AudDError>) -> (step: LongpollStep)
        requires
            old(self).wf(),
            old(self).pending(),
        ensures
            final(self).wf(),
            if old(self).tokenless() {
                is_tokenless_step(step, outcome, old(self).cursor())
            } else {
                is_longpoll_step(step, outcome, old(self).cursor())
            },
            final(self).steps() == old(self).steps().push(
                (step_cursor(step, old(self).cursor()), step is Fail),
            ),
            final(self).bodies() == old(self).bodies().push(outcome_body(outcome)),
            final(self).cursor() == step_cursor(step, old(self).cursor()),
            final(self).finished() == step is Fail,
            !final(self).pending(),
            final(self).requests() == old(self).requests(),
            final(self).initial() == old(self).initial(),
            final(self).category() == old(self).category(),
            final(self).timeout() == old(self).timeout(),
            final(self).tokenless() == old(self).tokenless(),
    {
        let ghost body = outcome_body(outcome);
        let step = if self.tokenless {
            tokenless_longpoll_step(outcome, self.cursor)
        } else {
            longpoll_step(outcome, self.cursor)
        };
        let failed = match &step {
            LongpollStep::Fail(_) => true,
            _ => false,
        };
        let next = match &step {
            LongpollStep::Fail(_) => self.cursor,
            LongpollStep::Keepalive { since_time } => *since_time,
            LongpollStep::Event { since_time, .. } => *since_time,
        };
        proof {
            let old_steps = self.steps@;
            let old_bodies = self.bodies@;
            let reqs = self.requests@;
            assert(!failed ==> step_cursor(step, int_of(self.cursor)) == cursor_after(
                body,
                int_of(self.cursor),
            ));
            self.bodies@ = old_bodies.push(body);
            assert(!(old_steps.len() > 0 && old_steps.last().1));
            assert(reqs.len() == old_steps.len() + 1);
            let new_steps = old_steps.push((step_cursor(step, int_of(self.cursor)), failed));
            self.steps@ = new_steps;
            assert(reqs[old_steps.len() as int] == int_of(self.cursor)) by {
                if old_steps.len() > 0 {
                    assert(reqs[old_steps.len() as int] == old_steps[old_steps.len() - 1].0);
                }
            }
            assert forall|i: int| 0 <= i < reqs.len() implies #[trigger] reqs[i] == if i == 0 {
                self.initial@
            } else {
                new_steps[i - 1].0
            } by {
                if i > 0 {
                    assert(new_steps[i - 1] == old_steps[i - 1]);
                }
            }
            assert forall|i: int| 0 <= i < new_steps.len() - 1 implies !(#[trigger] new_steps[i]).1 by {
                assert(new_steps[i] == old_steps[i]);
                if i < old_steps.len() - 1 {
                } else {
                    assert(!old_steps.last().1);
                }
            }
            assert forall|i: int| 0 <= i < new_steps.len() && !(#[trigger] new_steps[i]).1 implies new_steps[i].0
                == cursor_after(self.bodies@[i], reqs[i]) by {
                if i < old_steps.len() {
                    assert(new_steps[i] == old_steps[i]);
                    assert(self.bodies@[i] == old_bodies[i]);
                }
            }
            assert forall|i: int| 0 <= i < new_steps.len() && (#[trigger] new_steps[i]).1 implies new_steps[i].0
                == reqs[i] by {
                if i < old_steps.len() {
                    assert(new_steps[i] == old_steps[i]);
                }
            }
        }
        self.cursor = next;
        self.pending = false;
        self.finished = failed;
        step
    }
}

} // verus!
