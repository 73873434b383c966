//! The client's own rules: request fields of the recognition endpoints,
//! api_token resolution and rotation checks, and inspection event kinds.

use vstd::prelude::*;

use crate::decode::HttpResponse;
use crate::errors::AudDError;
use crate::json::{opt_str_view, opt_string_view};
use crate::streams::field_pairs;
use crate::text::{decimal_int, decimal_string, join_strings, join_with, string_of, string_views};

verus! {

/// Lifecycle stage an inspection event reports on, in typical order.
#[derive(Debug, Clone, Copy, PartialEq, Eq, Hash, Structural)]
pub enum EventKind {
    /// Emitted just before a request is dispatched.
    Request,
    /// Emitted on a completed HTTP round-trip (a 4xx/5xx status included).
    Response,
    /// Emitted when the request never produced an HTTP response.
    Exception,
}

/// The fields of an inspection event that the request lifecycle decides; the
/// caller adds the elapsed time.
#[derive(Debug)]
pub struct EventFields {
    /// Lifecycle stage.
    pub kind: EventKind,
    /// AudD method name.
    pub method: String,
    /// Endpoint URL (never carries the api_token).
    pub url: String,
    /// `x-request-id` of the response, when known.
    pub request_id: Option<String>,
    /// HTTP status, on a response.
    pub http_status: Option<u16>,
    /// AudD error code, when known.
    pub error_code: Option<i32>,
}

/// The event emitted just before a request is dispatched: nothing known yet.
pub fn request_event(method: &str, url: &str) -> (e: EventFields)
    ensures
        e.kind == EventKind::Request,
        e.method@ == method@,
        e.url@ == url@,
        e.request_id is None,
        e.http_status is None,
        e.error_code is None,
{
    EventFields {
        kind: EventKind::Request,
        method: string_of(method),
        url: string_of(url),
        request_id: None,
        http_status: None,
        error_code: None,
    }
}

/// The event emitted on a completed HTTP round-trip, an error status
/// included: the response's request id and status, no error code.
pub fn response_event(method: &str, url: &str, resp: &HttpResponse) -> (e: EventFields)
    ensures
        e.kind == EventKind::Response,
        e.method@ == method@,
        e.url@ == url@,
        opt_string_view(e.request_id) == opt_string_view(resp.request_id),
        e.http_status == Some(resp.http_status),
        e.error_code is None,
{
    let request_id = match &resp.request_id {
        Some(r) => Some(string_of(r.as_str())),
        None => None,
    };
    EventFields {
        kind: EventKind::Response,
        method: string_of(method),
        url: string_of(url),
        request_id,
        http_status: Some(resp.http_status),
        error_code: None,
    }
}

/// The event emitted when a request produced no usable response: the
/// error's request id and AudD code when it carries them, no HTTP status.
pub fn exception_event(method: &str, url: &str, err: &AudDError) -> (e: EventFields)
    ensures
        e.kind == EventKind::Exception,
        e.method@ == method@,
        e.url@ == url@,
        opt_string_view(e.request_id) == match err {
            AudDError::Api { request_id, .. } => opt_string_view(*request_id),
            AudDError::Server { request_id, .. } => opt_string_view(*request_id),
            _ => None,
        },
        e.http_status is None,
        match e.error_code {
            Some(c) => err.api_code() == Some(c as int),
            None => err.api_code() is None,
        },
{
    let request_id = match err.request_id() {
        Some(r) => Some(string_of(r)),
        None => None,
    };
    EventFields {
        kind: EventKind::Exception,
        method: string_of(method),
        url: string_of(url),
        request_id,
        http_status: None,
        error_code: err.error_code(),
    }
}

/// Optional parameters of an enterprise recognition.
#[derive(Debug, Default)]
pub struct EnterpriseOptions<'a> {
    /// Metadata services to return (`apple_music`, `deezer`, `napster`,
    /// `musicbrainz`).
    pub return_: Option<&'a [String]>,
    /// Skip the first N seconds of the source.
    pub skip: Option<i64>,
    /// Sample every N seconds.
    pub every: Option<i64>,
    /// Maximum number of matches.
    pub limit: Option<i64>,
    /// Skip the first N seconds (kept apart from `skip`, as the API has both).
    pub skip_first_seconds: Option<i64>,
    /// Whether to attach timecodes to matches.
    pub use_timecode: Option<bool>,
    /// Whether to compute precise per-segment offsets.
    pub accurate_offsets: Option<bool>,
    /// Per-call timeout override.
    pub timeout: Option<std::time::Duration>,
}

/// One form field when a value is present, none otherwise.
pub open spec fn opt_field(name: Seq<char>, value: Option<Seq<char>>) -> Seq<(Seq<char>, Seq<char>)> {
    match value {
        Some(v) => seq![(name, v)],
        None => Seq::empty(),
    }
}

/// The decimal text of an optional integer.
pub open spec fn int_text(o: Option<i64>) -> Option<Seq<char>> {
    match o {
        Some(i) => Some(decimal_int(i as int)),
        None => None,
    }
}

/// The form text of an optional flag: `true` or `false`.
pub open spec fn flag_text(o: Option<bool>) -> Option<Seq<char>> {
    match o {
        Some(b) => Some(
            if b {
                "true"@
            } else {
                "false"@
            },
        ),
        None => None,
    }
}

/// The fields of an enterprise recognition, in the order the API documents.
pub open spec fn enterprise_fields(return_str: Option<Seq<char>>, opts: EnterpriseOptions) -> Seq<
    (Seq<char>, Seq<char>),
> {
    opt_field("return"@, return_str) + opt_field("skip"@, int_text(opts.skip)) + opt_field(
        "every"@,
        int_text(opts.every),
    ) + opt_field("limit"@, int_text(opts.limit)) + opt_field(
        "skip_first_seconds"@,
        int_text(opts.skip_first_seconds),
    ) + opt_field("use_timecode"@, flag_text(opts.use_timecode)) + opt_field(
        "accurate_offsets"@,
        flag_text(opts.accurate_offsets),
    )
}

/// The enterprise fields do not depend on the per-call timeout, nor on the
/// services list except through the joined `return` text, and no field is
/// named `timeout`.
pub proof fn lemma_enterprise_fields_ignore_timeout(
    return_str: Option<Seq<char>>,
    opts: EnterpriseOptions,
    other: EnterpriseOptions,
)
    requires
        opts.skip == other.skip,
        opts.every == other.every,
        opts.limit == other.limit,
        opts.skip_first_seconds == other.skip_first_seconds,
        opts.use_timecode == other.use_timecode,
        opts.accurate_offsets == other.accurate_offsets,
    ensures
        enterprise_fields(return_str, opts) == enterprise_fields(return_str, other),
        forall|i: int|
            0 <= i < enterprise_fields(return_str, opts).len() ==> #[trigger] enterprise_fields(
                return_str,
                opts,
            )[i].0 != "timeout"@,
{
    reveal_strlit("timeout");
    reveal_strlit("return");
    reveal_strlit("skip");
    reveal_strlit("every");
    reveal_strlit("limit");
    reveal_strlit("skip_first_seconds");
    reveal_strlit("use_timecode");
    reveal_strlit("accurate_offsets");
    let f = enterprise_fields(return_str, opts);
    assert forall|i: int| 0 <= i < f.len() implies #[trigger] f[i].0 != "timeout"@ by {
        let k = f[i].0;
        assert(k == "return"@ || k == "skip"@ || k == "every"@ || k == "limit"@ || k
            == "skip_first_seconds"@ || k == "use_timecode"@ || k == "accurate_offsets"@);
        assert(k.len() != 7 || k[0] != 't');
    }
}

/// Appends `name=<decimal>` when `value` is present.
fn push_int_field(fields: &mut Vec<(&'static str, String)>, name: &'static str, value: Option<i64>)
    ensures
        field_pairs(final(fields)@) == field_pairs(old(fields)@) + opt_field(name@, int_text(value)),
{
    if let Some(v) = value {
        fields.push((name, decimal_string(v)));
    }
    assert(field_pairs(fields@) =~= field_pairs(old(fields)@) + opt_field(name@, int_text(value)));
}

/// Appends `name=true|false` when `value` is present.
fn push_flag_field(fields: &mut Vec<(&'static str, String)>, name: &'static str, value: Option<bool>)
    ensures
        field_pairs(final(fields)@) == field_pairs(old(fields)@) + opt_field(name@, flag_text(value)),
{
    if let Some(v) = value {
        let text = if v {
            string_of("true")
        } else {
            string_of("false")
        };
        fields.push((name, text));
    }
    assert(field_pairs(fields@) =~= field_pairs(old(fields)@) + opt_field(name@, flag_text(value)));
}

/// The form fields of an enterprise recognition: each option that is set,
/// after `return` when given.
pub fn build_enterprise_fields(return_str: Option<&str>, opts: &EnterpriseOptions) -> (r: Vec<
    (&'static str, String),
>)
    ensures
        field_pairs(r@) == enterprise_fields(opt_str_view(return_str), *opts),
{
    let mut fields: Vec<(&'static str, String)> = Vec::new();
    if let Some(r) = return_str {
        fields.push(("return", string_of(r)));
    }
    assert(field_pairs(fields@) =~= opt_field("return"@, opt_str_view(return_str)));
    push_int_field(&mut fields, "skip", opts.skip);
    push_int_field(&mut fields, "every", opts.every);
    push_int_field(&mut fields, "limit", opts.limit);
    push_int_field(&mut fields, "skip_first_seconds", opts.skip_first_seconds);
    push_flag_field(&mut fields, "use_timecode", opts.use_timecode);
    push_flag_field(&mut fields, "accurate_offsets", opts.accurate_offsets);
    fields
}

/// The comma-joined metadata services of a request, when given.
pub open spec fn return_text(return_: Option<Seq<String>>) -> Option<Seq<char>> {
    match return_ {
        Some(parts) => Some(join_with(string_views(parts), ","@)),
        None => None,
    }
}

/// Joins the requested metadata services with commas.
pub fn join_return(return_: Option<&[String]>) -> (r: Option<String>)
    ensures
        match r {
            Some(s) => return_text(
                match return_ {
                    Some(p) => Some(p@),
                    None => None,
                },
            ) == Some(s@),
            None => return_ is None,
        },
{
    match return_ {
        Some(parts) => Some(join_strings(parts, ",")),
        None => None,
    }
}

/// The form fields of a standard recognition: `return` (the services joined
/// with commas) and `market`, each when given.
pub fn recognize_fields(return_: Option<&[String]>, market: Option<&str>) -> (r: Vec<
    (&'static str, String),
>)
    ensures
        field_pairs(r@) == opt_field(
            "return"@,
            return_text(
                match return_ {
                    Some(p) => Some(p@),
                    None => None,
                },
            ),
        ) + opt_field("market"@, opt_str_view(market)),
{
    let mut fields: Vec<(&'static str, String)> = Vec::new();
    if let Some(parts) = return_ {
        fields.push(("return", join_strings(parts, ",")));
    }
    if let Some(m) = market {
        fields.push(("market", string_of(m)));
    }
    assert(field_pairs(fields@) =~= opt_field(
        "return"@,
        return_text(
            match return_ {
                Some(p) => Some(p@),
                None => None,
            },
        ),
    ) + opt_field("market"@, opt_str_view(market)));
    fields
}

/// The explanation given when no api_token can be found.
pub open spec fn missing_token_text() -> Seq<char> {
    "AudD api_token not supplied and AUDD_API_TOKEN env var is unset. Get a token at https://dashboard.audd.io and pass it to AudD::new(...) or set AUDD_API_TOKEN and call AudD::from_env()."@
}

/// Resolves the api_token: the explicit one when not empty, else the value of
/// the `AUDD_API_TOKEN` environment variable when set and not empty, else a
/// configuration error pointing at the dashboard.
pub fn resolve_token(explicit: &str, env_value: Option<String>) -> (r: Result<String, AudDError>)
    ensures
        explicit@.len() > 0 ==> (r matches Ok(t) && t@ == explicit@),
        explicit@.len() == 0 ==> match env_value {
            Some(v) if v@.len() > 0 => (r matches Ok(t) && t@ == v@),
            _ => (r matches Err(AudDError::Configuration { message }) && message@
                == missing_token_text()),
        },
{
    if explicit.unicode_len() > 0 {
        return Ok(string_of(explicit));
    }
    if let Some(v) = env_value {
        if v.as_str().unicode_len() > 0 {
            return Ok(v);
        }
    }
    Err(
        AudDError::Configuration {
            message: string_of(
                "AudD api_token not supplied and AUDD_API_TOKEN env var is unset. Get a token at https://dashboard.audd.io and pass it to AudD::new(...) or set AUDD_API_TOKEN and call AudD::from_env().",
            ),
        },
    )
}

/// The refusal of an empty replacement token.
pub open spec fn empty_token_text() -> Seq<char> {
    "set_api_token requires a non-empty token"@
}

/// Checks a replacement api_token: an empty one is refused.
pub fn check_new_api_token(new_token: &str) -> (r: Result<(), AudDError>)
    ensures
        new_token@.len() > 0 <==> r is Ok,
        r matches Err(e) ==> (e matches AudDError::Configuration { message } && message@
            == empty_token_text()),
{
    if new_token.unicode_len() == 0 {
        return Err(
            AudDError::Configuration {
                message: string_of("set_api_token requires a non-empty token"),
            },
        );
    }
    Ok(())
}

} // verus!
