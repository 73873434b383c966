//! Turning HTTP responses into JSON bodies or typed errors.

use vstd::prelude::*;

use crate::errors::{
    field_of, is_error_for_body, raise_from_error_response, str_of, AudDError,
};
use crate::json::{
    json_entries_view, json_of_text, json_text, json_view, lemma_lookup_absent,
    json_keys_distinct, lemma_without_key_distinct, lemma_without_key_lacks,
    lemma_without_key_subset, opt_str_view, opt_value_view,
    parse_json_text, remove_key, without_key, Json, JsonValue,
};
use crate::text::{debug_quoted, debug_str, decimal_int, push_decimal_i64, push_str, string_of};

verus! {

broadcast use vstd::string::group_string_axioms;

/// One HTTP response, as the decoding logic sees it.
#[derive(Debug)]
pub struct HttpResponse {
    /// Parsed JSON body (`None` when the body was not valid JSON).
    pub json_body: Option<JsonValue>,
    /// HTTP status the server returned.
    pub http_status: u16,
    /// `x-request-id` header value, if any.
    pub request_id: Option<String>,
    /// Original response body text.
    pub raw_text: String,
}

/// The JSON body a response text carries: none for an empty text, else
/// what the text parses to, if anything.
pub open spec fn body_of_text(raw_text: Seq<char>) -> Option<Json> {
    if raw_text.len() == 0 {
        None
    } else {
        json_of_text(raw_text)
    }
}

/// Builds the response the decoding logic reads from what was received: the
/// JSON body is parsed from the text (an empty text has none).
pub fn http_response(http_status: u16, request_id: Option<String>, raw_text: String) -> (r:
    HttpResponse)
    ensures
        r.http_status == http_status,
        r.request_id == request_id,
        r.raw_text@ == raw_text@,
        opt_value_view(r.json_body) == body_of_text(raw_text@),
{
    let json_body = if raw_text.as_str().unicode_len() == 0 {
        None
    } else {
        parse_json_text(raw_text.as_str())
    };
    HttpResponse { json_body, http_status, request_id, raw_text }
}

/// Whether `e` is a [`AudDError::Server`] with exactly these parts.
pub open spec fn is_server_error(
    e: AudDError,
    status: u16,
    message: Seq<char>,
    request_id: Option<String>,
    raw: Seq<char>,
) -> bool {
    match e {
        AudDError::Server { http_status, message: m, request_id: rid, raw_response } => {
            &&& http_status == status
            &&& m@ == message
            &&& rid == request_id
            &&& raw_response@ == raw
        },
        _ => false,
    }
}

/// Whether `e` is a [`AudDError::Serialization`] with exactly these parts.
pub open spec fn is_serialization_error(e: AudDError, message: Seq<char>, raw: Seq<char>) -> bool {
    match e {
        AudDError::Serialization { message: m, raw_text } => m@ == message && raw_text@ == raw,
        _ => false,
    }
}

/// What `{:?}` writes for an `Option<&str>`.
pub open spec fn debug_option(o: Option<Seq<char>>) -> Seq<char> {
    match o {
        Some(s) => "Some("@ + debug_quoted(s) + ")"@,
        None => "None"@,
    }
}

/// Whether a body carries the code-51 deprecation warning together with a
/// usable (non-null) `result`: such a body is a success in disguise.
pub open spec fn is_deprecation_pass_through(body: Json) -> bool {
    &&& field_of(body.field("error"@), "error_code"@) == Some(Json::Int(51))
    &&& body.field("result"@) matches Some(r) && !r.is_null()
}

/// The warning text carried by a pass-through body.
pub open spec fn deprecation_text(body: Json) -> Seq<char> {
    match str_of(field_of(body.field("error"@), "error_message"@)) {
        Some(m) => m,
        None => "Deprecated parameter used"@,
    }
}

/// A body with the deprecation warning removed and `status` set to `success`.
pub open spec fn stripped(body: Json) -> Json {
    if is_deprecation_pass_through(body) {
        match body {
            Json::Object(e) => Json::Object(
                without_key(without_key(e, "error"@), "status"@).push(
                    ("status"@, Json::Str("success"@)),
                ),
            ),
            _ => body,
        }
    } else {
        body
    }
}

/// Stripping keeps an object's member names distinct.
pub proof fn lemma_strip_keeps_keys_distinct(body: Json)
    requires
        json_keys_distinct(body),
    ensures
        json_keys_distinct(stripped(body)),
{
    if is_deprecation_pass_through(body) {
        if let Json::Object(e) = body {
            let w = without_key(e, "error"@);
            let rest = without_key(w, "status"@);
            lemma_without_key_distinct(e, "error"@);
            lemma_without_key_distinct(w, "status"@);
            lemma_without_key_lacks(w, "status"@);
            let out = rest.push(("status"@, Json::Str("success"@)));
            assert forall|i: int, j: int| 0 <= i < j < out.len() implies #[trigger] out[i].0 != #[trigger] out[j].0 by {
                if j == rest.len() {
                    assert(rest[i].0 != "status"@);
                } else {
                    assert(out[i] == rest[i] && out[j] == rest[j]);
                }
            }
        }
    }
}

/// Stripping is idempotent: a stripped body carries no `error` member, so it
/// is never a pass-through body again.
pub proof fn lemma_strip_idempotent(body: Json)
    ensures
        !is_deprecation_pass_through(stripped(body)),
        stripped(stripped(body)) == stripped(body),
{
    if is_deprecation_pass_through(body) {
        if let Json::Object(e) = body {
            let rest = without_key(without_key(e, "error"@), "status"@);
            let out = rest.push(("status"@, Json::Str("success"@)));
            lemma_without_key_lacks(e, "error"@);
            let w = without_key(e, "error"@);
            assert forall|j: int| 0 <= j < rest.len() implies #[trigger] rest[j].0 != "error"@ by {
                lemma_without_key_subset(w, "status"@, j);
                let i = choose|i: int| 0 <= i < w.len() && #[trigger] w[i] == rest[j];
                assert(w[i].0 != "error"@);
            }
            reveal_strlit("status");
            reveal_strlit("error");
            assert("status"@[0] != "error"@[0]);
            assert forall|j: int| 0 <= j < out.len() implies #[trigger] out[j].0 != "error"@ by {
                if j < rest.len() {
                    assert(out[j] == rest[j]);
                }
            }
            lemma_lookup_absent(out, "error"@);
        }
    }
}

/// The `status` text of a body.
pub open spec fn status_of(body: Json) -> Option<Seq<char>> {
    str_of(body.field("status"@))
}

/// The body a response decodes to, when it is a success.
pub open spec fn decoded_body(resp: HttpResponse) -> Option<Json> {
    match resp.json_body {
        Some(b) => if status_of(stripped(b@)) == Some("success"@) {
            Some(stripped(b@))
        } else {
            None
        },
        None => None,
    }
}

/// The message for an error status with a body that is not JSON.
pub open spec fn non_json_message(status: u16) -> Seq<char> {
    "HTTP "@ + decimal_int(status as int) + " with non-JSON response body"@
}

/// Whether `e` is the error a response that is not a success decodes to.
pub open spec fn is_decode_error(e: AudDError, resp: HttpResponse, custom_catalog_context: bool) -> bool {
    match resp.json_body {
        None => if resp.http_status >= 400 {
            is_server_error(
                e,
                resp.http_status,
                non_json_message(resp.http_status),
                resp.request_id,
                resp.raw_text@,
            )
        } else {
            is_serialization_error(e, "Unparseable response"@, resp.raw_text@)
        },
        Some(b) => {
            let s = stripped(b@);
            if status_of(s) == Some("error"@) {
                is_error_for_body(e, s, resp.http_status, resp.request_id, custom_catalog_context)
            } else {
                is_server_error(
                    e,
                    resp.http_status,
                    "Unexpected response status: "@ + debug_option(status_of(s)),
                    resp.request_id,
                    json_text(s),
                )
            }
        },
    }
}

/// The warning text of a code-51 pass-through body, if `body` is one.
pub fn deprecation_warning(body: &JsonValue) -> (r: Option<String>)
    ensures
        match r {
            Some(m) => is_deprecation_pass_through(body@) && m@ == deprecation_text(body@),
            None => !is_deprecation_pass_through(body@),
        },
{
    let err = body.get("error");
    let code_is_51 = match err {
        Some(e) => match e.get("error_code") {
            Some(c) => match c.as_i64() {
                Some(n) => n == 51,
                None => false,
            },
            None => false,
        },
        None => false,
    };
    let usable = match body.get("result") {
        Some(r) => !r.is_null(),
        None => false,
    };
    if !(code_is_51 && usable) {
        return None;
    }
    let msg = match err {
        Some(e) => match e.get("error_message") {
            Some(m) => match m.as_str() {
                Some(t) => string_of(t),
                None => string_of("Deprecated parameter used"),
            },
            None => string_of("Deprecated parameter used"),
        },
        None => string_of("Deprecated parameter used"),
    };
    Some(msg)
}

/// Rewrites a code-51 pass-through body into a plain success body; any other
/// body is left as it is. Returns the warning text when it rewrote.
pub fn maybe_warn_and_strip(body: &mut JsonValue) -> (warning: Option<String>)
    ensures
        final(body)@ == stripped(old(body)@),
        json_keys_distinct(old(body)@) ==> json_keys_distinct(final(body)@),
        match warning {
            Some(m) => is_deprecation_pass_through(old(body)@) && m@ == deprecation_text(
                old(body)@,
            ),
            None => !is_deprecation_pass_through(old(body)@),
        },
{
    proof {
        if json_keys_distinct(body@) {
            lemma_strip_keeps_keys_distinct(body@);
        }
    }
    let warning = deprecation_warning(body);
    if warning.is_none() {
        return warning;
    }
    let mut taken = JsonValue::Null;
    std::mem::swap(&mut taken, body);
    match taken {
        JsonValue::Object(entries) => {
            let without_error = remove_key(entries, "error");
            let mut rest = remove_key(without_error, "status");
            let ghost before = rest@;
            rest.push((string_of("status"), JsonValue::Str(string_of("success"))));
            assert(rest@.drop_last() =~= before);
            assert(rest@.last().0@ == "status"@);
            assert(json_view(rest@.last().1) == Json::Str("success"@));
            assert(json_entries_view(rest@) == json_entries_view(rest@.drop_last()).push((rest@.last().0@, json_view(rest@.last().1))));
            assert(json_entries_view(rest@) == json_entries_view(before).push(("status"@, Json::Str("success"@))));
            *body = JsonValue::Object(rest);
            assert(body@ == Json::Object(json_entries_view(rest@)));
        },
        other => {
            *body = other;
        },
    }
    warning
}

/// Inspects a response and returns its body on success, or the typed error
/// it stands for.
pub fn decode_or_raise(resp: HttpResponse, custom_catalog_context: bool) -> (r: Result<
    JsonValue,
    AudDError,
>)
    ensures
        match r {
            Ok(v) => decoded_body(resp) == Some(v@),
            Err(e) => decoded_body(resp) is None && is_decode_error(e, resp, custom_catalog_context),
        },
{
    let HttpResponse { json_body, http_status, request_id, raw_text } = resp;
    let mut body = match json_body {
        Some(b) => b,
        None => {
            if http_status >= 400 {
                let mut message = string_of("HTTP ");
                push_decimal_i64(&mut message, http_status as i64);
                push_str(&mut message, " with non-JSON response body");
                assert(message@ =~= non_json_message(http_status));
                return Err(
                    AudDError::Server { http_status, message, request_id, raw_response: raw_text },
                );
            }
            return Err(
                AudDError::Serialization { message: string_of("Unparseable response"), raw_text },
            );
        },
    };
    let ghost original = body@;
    let _ = maybe_warn_and_strip(&mut body);
    assert(body@ == stripped(original));
    assert(decoded_body(resp) == if status_of(body@) == Some("success"@) { Some(body@) } else { None });
    let status: Option<&str> = match body.get("status") {
        Some(s) => s.as_str(),
        None => None,
    };
    let is_error = match status {
        Some(s) => crate::text::str_eq(s, "error"),
        None => false,
    };
    let is_success = match status {
        Some(s) => crate::text::str_eq(s, "success"),
        None => false,
    };
    assert(opt_str_view(status) == status_of(body@));
    if is_error {
        assert(status_of(body@) == Some("error"@));
        proof {
            reveal_strlit("error");
            reveal_strlit("success");
            assert("error"@.len() == 5);
            assert("success"@.len() == 7);
        }
        return Err(raise_from_error_response(&body, http_status, request_id, custom_catalog_context));
    }
    if is_success {
        return Ok(body);
    }
    let mut message = string_of("Unexpected response status: ");
    match status {
        Some(s) => {
            push_str(&mut message, "Some(");
            let d = debug_str(s);
            push_str(&mut message, d.as_str());
            push_str(&mut message, ")");
        },
        None => push_str(&mut message, "None"),
    }
    assert(message@ =~= "Unexpected response status: "@ + debug_option(status_of(body@)));
    assert(status_of(body@) != Some("success"@));
    let raw_response = body.to_text();
    Err(AudDError::Server { http_status, message, request_id, raw_response })
}


/// Fully decodes a raw JSON body as if it came with HTTP status 200 and no
/// request id: `status=error` raises the API error it describes.
pub fn decode_strict(body: JsonValue) -> (r: Result<JsonValue, AudDError>)
    ensures
        ({
            let s = stripped(body@);
            match r {
                Ok(v) => status_of(s) == Some("success"@) && v@ == s,
                Err(e) => status_of(s) != Some("success"@) && if status_of(s) == Some("error"@) {
                    is_error_for_body(e, s, 200, None, false)
                } else {
                    is_server_error(
                        e,
                        200,
                        "Unexpected response status: "@ + debug_option(status_of(s)),
                        None,
                        json_text(s),
                    )
                },
            }
        }),
{
    decode_or_raise(
        HttpResponse { json_body: Some(body), http_status: 200, request_id: None, raw_text: String::new() },
        false,
    )
}

/// The `result` member of a body, or `null` when absent.
pub open spec fn result_field(b: Json) -> Json {
    match b.field("result"@) {
        Some(r) => r,
        None => Json::Null,
    }
}

/// The `result` member when present and not `null`.
pub open spec fn present_result(b: Json) -> Option<Json> {
    if result_field(b).is_null() {
        None
    } else {
        Some(result_field(b))
    }
}

/// A copy of `body.result`, or `null`.
fn copy_result(body: &JsonValue) -> (r: JsonValue)
    ensures
        r@ == result_field(body@),
{
    match body.get("result") {
        Some(v) => v.duplicate(),
        None => JsonValue::Null,
    }
}

/// Decodes a response and returns the `result` member of its body (`null`
/// when absent).
pub fn decode_result(resp: HttpResponse, custom_catalog_context: bool) -> (r: Result<
    JsonValue,
    AudDError,
>)
    ensures
        match r {
            Ok(v) => decoded_body(resp) matches Some(b) && v@ == result_field(b),
            Err(e) => decoded_body(resp) is None && is_decode_error(e, resp, custom_catalog_context),
        },
{
    let body = decode_or_raise(resp, custom_catalog_context)?;
    Ok(copy_result(&body))
}

/// Decodes a recognition response: `None` when the server reports no match
/// (`result` is `null` or absent).
pub fn decode_recognize(resp: HttpResponse) -> (r: Result<Option<JsonValue>, AudDError>)
    ensures
        match r {
            Ok(o) => decoded_body(resp) matches Some(b) && opt_value_view(o) == present_result(b),
            Err(e) => decoded_body(resp) is None && is_decode_error(e, resp, false),
        },
{
    let result = decode_result(resp, false)?;
    if result.is_null() {
        Ok(None)
    } else {
        Ok(Some(result))
    }
}

/// Decodes an enterprise response: the chunk list, or `None` when `result`
/// is `null` or absent (no matches).
pub fn decode_enterprise(resp: HttpResponse) -> (r: Result<Option<JsonValue>, AudDError>)
    ensures
        match r {
            Ok(o) => decoded_body(resp) matches Some(b) && opt_value_view(o) == present_result(b),
            Err(e) => decoded_body(resp) is None && is_decode_error(e, resp, false),
        },
{
    decode_recognize(resp)
}

/// The body of a raw request: any JSON body is returned as it is, even one
/// with `status=error`.
pub fn decode_raw_response(resp: HttpResponse) -> (r: Result<JsonValue, AudDError>)
    ensures
        match resp.json_body {
            Some(b) => r matches Ok(v) && v@ == b@,
            None => r matches Err(e) && if resp.http_status >= 400 {
                is_server_error(
                    e,
                    resp.http_status,
                    non_json_message(resp.http_status),
                    resp.request_id,
                    resp.raw_text@,
                )
            } else {
                is_serialization_error(e, "Unparseable response"@, resp.raw_text@)
            },
        },
{
    let HttpResponse { json_body, http_status, request_id, raw_text } = resp;
    match json_body {
        Some(body) => Ok(body),
        None => {
            if http_status >= 400 {
                let mut message = string_of("HTTP ");
                push_decimal_i64(&mut message, http_status as i64);
                push_str(&mut message, " with non-JSON response body");
                assert(message@ =~= non_json_message(http_status));
                Err(AudDError::Server { http_status, message, request_id, raw_response: raw_text })
            } else {
                Err(
                    AudDError::Serialization {
                        message: string_of("Unparseable response"),
                        raw_text,
                    },
                )
            }
        },
    }
}

/// The lyrics payload of a `findLyrics` body: an error body becomes the API
/// error it describes (HTTP status 200, no request id); otherwise the
/// `result` member when present and not `null`.
pub fn lyrics_result(body: &JsonValue) -> (r: Result<Option<JsonValue>, AudDError>)
    ensures
        if status_of(body@) == Some("error"@) {
            r matches Err(e) && is_error_for_body(e, body@, 200, None, false)
        } else {
            r matches Ok(o) && opt_value_view(o) == present_result(body@)
        },
{
    let is_error = match body.get("status") {
        Some(s) => match s.as_str() {
            Some(t) => crate::text::str_eq(t, "error"),
            None => false,
        },
        None => false,
    };
    if is_error {
        return Err(raise_from_error_response(body, 200, None, false));
    }
    let result = copy_result(body);
    if result.is_null() {
        Ok(None)
    } else {
        Ok(Some(result))
    }
}

/// The message for an error status from the longpoll endpoint.
pub open spec fn longpoll_status_message(status: u16) -> Seq<char> {
    "Longpoll endpoint returned HTTP "@ + decimal_int(status as int)
}

/// Decodes one longpoll response: an error status becomes a server error, a
/// body that is not a JSON object a serialization error.
pub fn decode_longpoll(resp: HttpResponse) -> (r: Result<JsonValue, AudDError>)
    ensures
        if resp.http_status >= 400 {
            r matches Err(e) && is_server_error(
                e,
                resp.http_status,
                longpoll_status_message(resp.http_status),
                resp.request_id,
                resp.raw_text@,
            )
        } else {
            match resp.json_body {
                Some(b) if b@.is_object() => r matches Ok(v) && v@ == b@,
                _ => r matches Err(e) && is_serialization_error(
                    e,
                    "Longpoll response was not a JSON object"@,
                    resp.raw_text@,
                ),
            }
        },
{
    let HttpResponse { json_body, http_status, request_id, raw_text } = resp;
    if http_status >= 400 {
        let mut message = string_of("Longpoll endpoint returned HTTP ");
        push_decimal_i64(&mut message, http_status as i64);
        return Err(AudDError::Server { http_status, message, request_id, raw_response: raw_text });
    }
    match json_body {
        Some(body) => if body.is_object() {
            Ok(body)
        } else {
            Err(
                AudDError::Serialization {
                    message: string_of("Longpoll response was not a JSON object"),
                    raw_text,
                },
            )
        },
        None => Err(
            AudDError::Serialization {
                message: string_of("Longpoll response was not a JSON object"),
                raw_text,
            },
        ),
    }
}

/// A response without a JSON body is a server error carrying its status
/// exactly when the status is an HTTP error (400 or above), with the text
/// `HTTP <status> with non-JSON response body` and the raw body; below 400 it
/// is a parse failure that keeps the raw text.
pub proof fn lemma_non_json_body_error(e: AudDError, resp: HttpResponse, custom_catalog_context: bool)
    requires
        resp.json_body is None,
        is_decode_error(e, resp, custom_catalog_context),
    ensures
        resp.http_status >= 400 ==> (e matches AudDError::Server {
            http_status,
            message,
            request_id,
            raw_response,
        } && http_status == resp.http_status && message@ == "HTTP "@ + decimal_int(
            resp.http_status as int,
        ) + " with non-JSON response body"@ && request_id == resp.request_id && raw_response@
            == resp.raw_text@),
        resp.http_status < 400 ==> (e matches AudDError::Serialization { message, raw_text }
            && message@ == "Unparseable response"@ && raw_text@ == resp.raw_text@),
{
}

} // verus!
