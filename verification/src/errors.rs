//! Typed errors of the AudD client and the mapping from AudD error codes to
//! semantic kinds.

use vstd::prelude::*;

use crate::json::{json_entries_view, opt_str_view, opt_string_view, opt_view, Json, JsonValue};
use crate::text::{parse_i32, parse_i32_text, push_str, string_of};

verus! {

/// Semantic category of an AudD numeric error code.
#[derive(Debug, Clone, Copy, PartialEq, Eq, Structural)]
pub enum ErrorKind {
    /// Codes 900, 901, 903 — token problems.
    Authentication,
    /// Code 902 — quota / per-copy limit reached.
    Quota,
    /// Codes 904, 905 — endpoint not available with this token's plan.
    Subscription,
    /// Code 904 raised from the custom-catalog endpoint.
    CustomCatalogAccess,
    /// Codes 50, 51, 600/601/602, 700/701/702, 906 — the request was bad.
    InvalidRequest,
    /// Codes 300, 400, 500 — the audio file is the problem.
    InvalidAudio,
    /// Code 611 — rate limit hit.
    RateLimit,
    /// Code 610 — stream-slot limit exhausted.
    StreamLimit,
    /// Code 907 — song not released yet.
    NotReleased,
    /// Codes 19 and 31337 — blocked.
    Blocked,
    /// Code 20 — the caller's app needs an update.
    NeedsUpdate,
    /// Any other code.
    ServerError,
}

/// The kind the AudD documentation assigns to `code`.
pub open spec fn kind_for_code(code: int) -> ErrorKind {
    if code == 900 || code == 901 || code == 903 {
        ErrorKind::Authentication
    } else if code == 902 {
        ErrorKind::Quota
    } else if code == 904 || code == 905 {
        ErrorKind::Subscription
    } else if code == 50 || code == 51 || code == 600 || code == 601 || code == 602 || code == 700
        || code == 701 || code == 702 || code == 906 {
        ErrorKind::InvalidRequest
    } else if code == 300 || code == 400 || code == 500 {
        ErrorKind::InvalidAudio
    } else if code == 610 {
        ErrorKind::StreamLimit
    } else if code == 611 {
        ErrorKind::RateLimit
    } else if code == 907 {
        ErrorKind::NotReleased
    } else if code == 19 || code == 31337 {
        ErrorKind::Blocked
    } else if code == 20 {
        ErrorKind::NeedsUpdate
    } else {
        ErrorKind::ServerError
    }
}

/// The short label of a kind.
pub open spec fn kind_label(k: ErrorKind) -> Seq<char> {
    match k {
        ErrorKind::Authentication => "authentication"@,
        ErrorKind::Quota => "quota"@,
        ErrorKind::Subscription => "subscription"@,
        ErrorKind::CustomCatalogAccess => "custom-catalog-access"@,
        ErrorKind::InvalidRequest => "invalid-request"@,
        ErrorKind::InvalidAudio => "invalid-audio"@,
        ErrorKind::RateLimit => "rate-limit"@,
        ErrorKind::StreamLimit => "stream-limit"@,
        ErrorKind::NotReleased => "not-released"@,
        ErrorKind::Blocked => "blocked"@,
        ErrorKind::NeedsUpdate => "needs-update"@,
        ErrorKind::ServerError => "server-error"@,
    }
}

impl ErrorKind {
    /// Map an AudD error code to its semantic kind; unknown codes are
    /// [`ErrorKind::ServerError`].
    pub fn from_code(code: i32) -> (k: ErrorKind)
        ensures
            k == kind_for_code(code as int),
    {
        match code {
            900 | 901 | 903 => ErrorKind::Authentication,
            902 => ErrorKind::Quota,
            904 | 905 => ErrorKind::Subscription,
            50 | 51 | 600 | 601 | 602 | 700 | 701 | 702 | 906 => ErrorKind::InvalidRequest,
            300 | 400 | 500 => ErrorKind::InvalidAudio,
            610 => ErrorKind::StreamLimit,
            611 => ErrorKind::RateLimit,
            907 => ErrorKind::NotReleased,
            19 | 31337 => ErrorKind::Blocked,
            20 => ErrorKind::NeedsUpdate,
            _ => ErrorKind::ServerError,
        }
    }

    /// The short label used when a kind is displayed (e.g. `"rate-limit"`).
    pub fn label(&self) -> (r: &'static str)
        ensures
            r@ == kind_label(*self),
    {
        match self {
            ErrorKind::Authentication => "authentication",
            ErrorKind::Quota => "quota",
            ErrorKind::Subscription => "subscription",
            ErrorKind::CustomCatalogAccess => "custom-catalog-access",
            ErrorKind::InvalidRequest => "invalid-request",
            ErrorKind::InvalidAudio => "invalid-audio",
            ErrorKind::RateLimit => "rate-limit",
            ErrorKind::StreamLimit => "stream-limit",
            ErrorKind::NotReleased => "not-released",
            ErrorKind::Blocked => "blocked",
            ErrorKind::NeedsUpdate => "needs-update",
            ErrorKind::ServerError => "server-error",
        }
    }
}

/// Public alias for [`ErrorKind::from_code`].
pub fn error_for_code(code: i32) -> (k: ErrorKind)
    ensures
        k == kind_for_code(code as int),
{
    ErrorKind::from_code(code)
}

/// What is known of the failure underneath a connection error.
#[derive(Debug, Clone, Copy, PartialEq, Eq, Structural)]
pub enum ErrorSource {
    /// A failure of the HTTP transport, with its lifecycle flags.
    Transport { is_connect: bool, is_request: bool, is_timeout: bool },
    /// Any other underlying error.
    Other,
}

/// Errors raised by the AudD client.
#[derive(Debug)]
#[allow(inconsistent_fields)]
pub enum AudDError {
    /// The server answered `status=error`.
    Api {
        code: i32,
        message: String,
        kind: ErrorKind,
        http_status: u16,
        request_id: Option<String>,
        requested_params: Vec<(String, JsonValue)>,
        request_method: Option<String>,
        branded_message: Option<String>,
        raw_response: JsonValue,
    },
    /// HTTP error status with a body that is not JSON.
    Server { http_status: u16, message: String, request_id: Option<String>, raw_response: String },
    /// No response was received.
    Connection { message: String, source: Option<ErrorSource> },
    /// A response body that could not be parsed.
    Serialization { message: String, raw_text: String },
    /// The caller passed an unusable source.
    Source(String),
    /// The client is misconfigured.
    Configuration { message: String },
}

impl AudDError {
    /// The kind, when this is an [`AudDError::Api`].
    pub open spec fn api_kind(&self) -> Option<ErrorKind> {
        match self {
            AudDError::Api { kind, .. } => Some(*kind),
            _ => None,
        }
    }

    /// The code, when this is an [`AudDError::Api`].
    pub open spec fn api_code(&self) -> Option<int> {
        match self {
            AudDError::Api { code, .. } => Some(*code as int),
            _ => None,
        }
    }

    /// `true` for an API error of kind authentication.
    pub fn is_authentication(&self) -> (r: bool)
        ensures
            r == (self.api_kind() == Some(ErrorKind::Authentication)),
    {
        matches!(self, AudDError::Api { kind: ErrorKind::Authentication, .. })
    }

    /// `true` for an API error of kind quota.
    pub fn is_quota(&self) -> (r: bool)
        ensures
            r == (self.api_kind() == Some(ErrorKind::Quota)),
    {
        matches!(self, AudDError::Api { kind: ErrorKind::Quota, .. })
    }

    /// `true` for an API error of kind subscription or custom-catalog access.
    pub fn is_subscription(&self) -> (r: bool)
        ensures
            r == (self.api_kind() == Some(ErrorKind::Subscription) || self.api_kind() == Some(
                ErrorKind::CustomCatalogAccess,
            )),
    {
        matches!(
            self,
            AudDError::Api { kind: ErrorKind::Subscription, .. } | AudDError::Api {
                kind: ErrorKind::CustomCatalogAccess,
                ..
            }
        )
    }

    /// `true` for an API error of kind custom-catalog access.
    pub fn is_custom_catalog_access(&self) -> (r: bool)
        ensures
            r == (self.api_kind() == Some(ErrorKind::CustomCatalogAccess)),
    {
        matches!(self, AudDError::Api { kind: ErrorKind::CustomCatalogAccess, .. })
    }

    /// `true` for an API error of kind invalid request.
    pub fn is_invalid_request(&self) -> (r: bool)
        ensures
            r == (self.api_kind() == Some(ErrorKind::InvalidRequest)),
    {
        matches!(self, AudDError::Api { kind: ErrorKind::InvalidRequest, .. })
    }

    /// `true` for an API error of kind invalid audio.
    pub fn is_invalid_audio(&self) -> (r: bool)
        ensures
            r == (self.api_kind() == Some(ErrorKind::InvalidAudio)),
    {
        matches!(self, AudDError::Api { kind: ErrorKind::InvalidAudio, .. })
    }

    /// `true` for an API error of kind rate limit.
    pub fn is_rate_limit(&self) -> (r: bool)
        ensures
            r == (self.api_kind() == Some(ErrorKind::RateLimit)),
    {
        matches!(self, AudDError::Api { kind: ErrorKind::RateLimit, .. })
    }

    /// `true` for an API error of kind stream limit.
    pub fn is_stream_limit(&self) -> (r: bool)
        ensures
            r == (self.api_kind() == Some(ErrorKind::StreamLimit)),
    {
        matches!(self, AudDError::Api { kind: ErrorKind::StreamLimit, .. })
    }

    /// `true` for an API error of kind not released.
    pub fn is_not_released(&self) -> (r: bool)
        ensures
            r == (self.api_kind() == Some(ErrorKind::NotReleased)),
    {
        matches!(self, AudDError::Api { kind: ErrorKind::NotReleased, .. })
    }

    /// `true` for an API error of kind blocked.
    pub fn is_blocked(&self) -> (r: bool)
        ensures
            r == (self.api_kind() == Some(ErrorKind::Blocked)),
    {
        matches!(self, AudDError::Api { kind: ErrorKind::Blocked, .. })
    }

    /// `true` for an API error of kind needs update.
    pub fn is_needs_update(&self) -> (r: bool)
        ensures
            r == (self.api_kind() == Some(ErrorKind::NeedsUpdate)),
    {
        matches!(self, AudDError::Api { kind: ErrorKind::NeedsUpdate, .. })
    }

    /// `true` for any API error.
    pub fn is_api(&self) -> (r: bool)
        ensures
            r == (self is Api),
    {
        matches!(self, AudDError::Api { .. })
    }

    /// The AudD error code of an API error.
    pub fn error_code(&self) -> (r: Option<i32>)
        ensures
            match r {
                Some(c) => self.api_code() == Some(c as int),
                None => self.api_code() is None,
            },
    {
        match self {
            AudDError::Api { code, .. } => Some(*code),
            _ => None,
        }
    }

    /// The server's `x-request-id` header value, when one was received.
    pub fn request_id(&self) -> (r: Option<&str>)
        ensures
            opt_str_view(r) == match self {
                AudDError::Api { request_id, .. } => opt_string_view(*request_id),
                AudDError::Server { request_id, .. } => opt_string_view(*request_id),
                _ => None,
            },
    {
        match self {
            AudDError::Api { request_id, .. } => match request_id {
                Some(s) => Some(s.as_str()),
                None => None,
            },
            AudDError::Server { request_id, .. } => match request_id {
                Some(s) => Some(s.as_str()),
                None => None,
            },
            _ => None,
        }
    }
}

/// The text of an optional JSON string value.
pub open spec fn str_of(v: Option<Json>) -> Option<Seq<char>> {
    match v {
        Some(j) => j.as_str(),
        None => None,
    }
}

/// The value under `key` of an optional JSON value.
pub open spec fn field_of(v: Option<Json>, key: Seq<char>) -> Option<Json> {
    match v {
        Some(j) => j.field(key),
        None => None,
    }
}

/// The code that `coerce_i32` reads from a JSON value: an integer in the
/// range of `i32`, or a string that parses as one.
pub open spec fn coerced_code(v: Json) -> Option<int> {
    match v {
        Json::Int(n) => if i32::MIN <= n && n <= i32::MAX {
            Some(n)
        } else {
            None
        },
        Json::Str(s) => parse_i32_text(s),
        _ => None,
    }
}

/// The numeric code of an error body (`error.error_code`), 0 when absent.
pub open spec fn body_error_code(body: Json) -> int {
    match field_of(body.field("error"@), "error_code"@) {
        Some(c) => match coerced_code(c) {
            Some(n) => n,
            None => 0,
        },
        None => 0,
    }
}

/// The server message of an error body (`error.error_message`), empty when absent.
pub open spec fn body_error_message(body: Json) -> Seq<char> {
    match str_of(field_of(body.field("error"@), "error_message"@)) {
        Some(m) => m,
        None => Seq::empty(),
    }
}

/// The echoed request parameters of an error body.
pub open spec fn body_requested_params(body: Json) -> Seq<(Seq<char>, Json)> {
    let p = if body.has_field("request_params"@) {
        body.field("request_params"@)
    } else {
        body.field("requested_params"@)
    };
    match p {
        Some(Json::Object(e)) => e,
        _ => Seq::empty(),
    }
}

/// Artist and title text from the `result` of a security/abuse error.
pub open spec fn branded_text(result: Option<Json>) -> Option<Seq<char>> {
    let a = str_of(field_of(result, "artist"@));
    let t = str_of(field_of(result, "title"@));
    if a is Some && t is Some && a->0.len() > 0 && t->0.len() > 0 {
        Some(a->0 + " — "@ + t->0)
    } else if a is Some && a->0.len() > 0 {
        Some(a->0)
    } else if t is Some && t->0.len() > 0 {
        Some(t->0)
    } else {
        None
    }
}

/// The kind of an error body, with the custom-catalog override applied.
pub open spec fn body_error_kind(body: Json, custom_catalog_context: bool) -> ErrorKind {
    let k = kind_for_code(body_error_code(body));
    if custom_catalog_context && k == ErrorKind::Subscription {
        ErrorKind::CustomCatalogAccess
    } else {
        k
    }
}

/// The explanation that replaces the server message on custom-catalog access errors.
pub open spec fn custom_catalog_text(server_message: Seq<char>) -> Seq<char> {
    "Adding songs to your custom catalog requires enterprise access that isn't enabled on your account.\n\nNote: the custom-catalog endpoint is for adding songs to your private fingerprint database, not for music recognition. If you intended to identify music, use recognize(...) (or recognize_enterprise(...) for files longer than 25 seconds) instead.\n\nTo request custom-catalog access, contact api@audd.io.\n\n[Server message: "@
        + server_message + "]"@
}

/// The message an error body yields.
pub open spec fn body_message(body: Json, custom_catalog_context: bool) -> Seq<char> {
    if body_error_kind(body, custom_catalog_context) == ErrorKind::CustomCatalogAccess {
        custom_catalog_text(body_error_message(body))
    } else {
        body_error_message(body)
    }
}

/// Whether `e` is the API error that `body` describes.
pub open spec fn is_error_for_body(
    e: AudDError,
    body: Json,
    http_status: u16,
    request_id: Option<String>,
    custom_catalog_context: bool,
) -> bool {
    match e {
        AudDError::Api {
            code,
            message,
            kind,
            http_status: hs,
            request_id: rid,
            requested_params,
            request_method,
            branded_message,
            raw_response,
        } => {
            &&& code as int == body_error_code(body)
            &&& kind == body_error_kind(body, custom_catalog_context)
            &&& message@ == body_message(body, custom_catalog_context)
            &&& hs == http_status
            &&& rid == request_id
            &&& json_entries_view(requested_params@) == body_requested_params(body)
            &&& opt_string_view(request_method) == str_of(body.field("request_api_method"@))
            &&& opt_string_view(branded_message) == branded_text(body.field("result"@))
            &&& raw_response@ == body
        },
        _ => false,
    }
}

/// Reads an error code from a JSON value (integer or numeric string).
pub fn coerce_i32(v: &JsonValue) -> (r: Option<i32>)
    ensures
        match r {
            Some(n) => coerced_code(v@) == Some(n as int),
            None => coerced_code(v@) is None,
        },
{
    match v {
        JsonValue::Int(n) => if i32::MIN as i64 <= *n && *n <= i32::MAX as i64 {
            Some(*n as i32)
        } else {
            None
        },
        JsonValue::Str(s) => parse_i32(s.as_str()),
        _ => None,
    }
}

/// The optional text under `key`.
fn text_field<'a>(v: Option<&'a JsonValue>, key: &str) -> (r: Option<&'a str>)
    ensures
        opt_str_view(r) == str_of(field_of(opt_view(v), key@)),
{
    match v {
        Some(j) => match j.get(key) {
            Some(f) => f.as_str(),
            None => None,
        },
        None => None,
    }
}

/// Artist and title text from a `result` block, when either is non-empty.
pub fn branded_message(result: Option<&JsonValue>) -> (r: Option<String>)
    ensures
        opt_string_view(r) == branded_text(opt_view(result)),
{
    let a = text_field(result, "artist");
    let t = text_field(result, "title");
    proof {
        reveal_strlit("artist");
        reveal_strlit("title");
    }
    match (a, t) {
        (Some(a), Some(t)) => {
            if !a.is_empty() && !t.is_empty() {
                let mut s = string_of(a);
                push_str(&mut s, " — ");
                push_str(&mut s, t);
                Some(s)
            } else if !a.is_empty() {
                Some(string_of(a))
            } else if !t.is_empty() {
                Some(string_of(t))
            } else {
                None
            }
        },
        (Some(a), None) => if !a.is_empty() {
            Some(string_of(a))
        } else {
            None
        },
        (None, Some(t)) => if !t.is_empty() {
            Some(string_of(t))
        } else {
            None
        },
        (None, None) => None,
    }
}

/// The custom-catalog explanation around a server message.
pub fn custom_catalog_message(server_message: &str) -> (r: String)
    ensures
        r@ == custom_catalog_text(server_message@),
{
    let mut s = string_of(
        "Adding songs to your custom catalog requires enterprise access that isn't enabled on your account.\n\nNote: the custom-catalog endpoint is for adding songs to your private fingerprint database, not for music recognition. If you intended to identify music, use recognize(...) (or recognize_enterprise(...) for files longer than 25 seconds) instead.\n\nTo request custom-catalog access, contact api@audd.io.\n\n[Server message: ",
    );
    push_str(&mut s, server_message);
    push_str(&mut s, "]");
    s
}

/// Builds an [`AudDError::Api`] from a server `status: error` body.
pub fn raise_from_error_response(
    body: &JsonValue,
    http_status: u16,
    request_id: Option<String>,
    custom_catalog_context: bool,
) -> (e: AudDError)
    ensures
        is_error_for_body(e, body@, http_status, request_id, custom_catalog_context),
{
    let err_obj = body.get("error");
    let code: i32 = match err_obj {
        Some(o) => match o.get("error_code") {
            Some(c) => match coerce_i32(c) {
                Some(n) => n,
                None => 0,
            },
            None => 0,
        },
        None => 0,
    };
    let message: String = match text_field(err_obj, "error_message") {
        Some(m) => string_of(m),
        None => String::new(),
    };
    let params_value = if body.contains_key("request_params") {
        body.get("request_params")
    } else {
        body.get("requested_params")
    };
    let requested_params: Vec<(String, JsonValue)> = match params_value {
        Some(p) => match p.duplicate() {
            JsonValue::Object(e) => e,
            _ => Vec::new(),
        },
        _ => Vec::new(),
    };
    let request_method = match text_field(Some(body), "request_api_method") {
        Some(m) => Some(string_of(m)),
        None => None,
    };
    let branded = branded_message(body.get("result"));
    let mut kind = ErrorKind::from_code(code);
    if custom_catalog_context && kind == ErrorKind::Subscription {
        kind = ErrorKind::CustomCatalogAccess;
    }
    let final_message = if kind == ErrorKind::CustomCatalogAccess {
        custom_catalog_message(message.as_str())
    } else {
        message
    };
    AudDError::Api {
        code,
        message: final_message,
        kind,
        http_status,
        request_id,
        requested_params,
        request_method,
        branded_message: branded,
        raw_response: body.duplicate(),
    }
}

/// Same as [`raise_from_error_response`]; exposed for contract tests.
pub fn raise_from_error_response_for_test(
    body: &JsonValue,
    http_status: u16,
    request_id: Option<String>,
    custom_catalog_context: bool,
) -> (e: AudDError)
    ensures
        is_error_for_body(e, body@, http_status, request_id, custom_catalog_context),
{
    raise_from_error_response(body, http_status, request_id, custom_catalog_context)
}

} // verus!
