//! Longpoll category derivation, callback-body classification and the
//! callback-URL `return=` builder.

use vstd::prelude::*;
use vstd::utf8::encode_utf8;

use crate::errors::{AudDError, ErrorKind};
use crate::json::{json_of_bytes, json_text, opt_value_view, parse_json_bytes, Json, JsonValue};
use crate::models::{
    int_of, CallbackEvent, StreamCallbackMatch, StreamCallbackNotification,
};
use crate::text::{
    decimal_int, hex_lower, hex_lower_chars, join_strings, join_with, push_decimal_i64, push_str,
    lossy_text, str_eq, string_from_chars, string_of, string_views, utf8_lossy,
};
use crate::urls::{append_query_pair, parse_url, parsed_url, url_with_pair};

verus! {

broadcast use vstd::std_specs::vec::group_vec_axioms;

/// The MD5 digest of `data`. Named, not spelled out.
pub uninterp spec fn md5_of(data: Seq<u8>) -> Seq<u8>;

/// The MD5 digest of `data` (`md5::compute(data).0`, the digest's 16 bytes).
#[verifier::external_body]
fn md5_digest(data: &[u8]) -> (r: [u8; 16])
    ensures
        r@ == md5_of(data@),
{
    md5::compute(data).0
}

/// Whether `c` is a lower-case hexadecimal digit.
pub open spec fn is_hex_lower(c: char) -> bool {
    ('0' <= c && c <= '9') || ('a' <= c && c <= 'f')
}

/// Hex text is two lower-case hex digits per byte.
pub proof fn lemma_hex_lower_shape(b: Seq<u8>)
    ensures
        hex_lower(b).len() == 2 * b.len(),
        forall|i: int| 0 <= i < hex_lower(b).len() ==> is_hex_lower(#[trigger] hex_lower(b)[i]),
    decreases b.len(),
{
    if b.len() > 0 {
        lemma_hex_lower_shape(b.drop_last());
        let last = b.last();
        assert(is_hex_lower(crate::text::hex_digit((last / 16) as int)));
        assert(is_hex_lower(crate::text::hex_digit((last % 16) as int)));
    }
}

/// The longpoll category of `(api_token, radio_id)`:
/// `hex(MD5(hex(MD5(api_token)) ++ decimal(radio_id)))[..9]`.
pub open spec fn longpoll_category(api_token: Seq<char>, radio_id: int) -> Seq<char> {
    let inner = hex_lower(md5_of(encode_utf8(api_token)));
    let outer = hex_lower(md5_of(encode_utf8(inner + decimal_int(radio_id))));
    outer.take(9)
}

/// Computes the 9-character longpoll category locally from
/// `(api_token, radio_id)`.
pub fn derive_longpoll_category(api_token: &str, radio_id: i64) -> (r: String)
    ensures
        r@ == longpoll_category(api_token@, radio_id as int),
        r@.len() == 9,
        forall|i: int| 0 <= i < 9 ==> is_hex_lower(#[trigger] r@[i]),
{
    let inner_digest = md5_digest(api_token.as_bytes());
    let inner_hex = hex_lower_chars(&inner_digest);
    let mut combined = string_from_chars(inner_hex.as_slice());
    push_decimal_i64(&mut combined, radio_id);
    let outer_digest = md5_digest(combined.as_str().as_bytes());
    let mut outer_hex = hex_lower_chars(&outer_digest);
    proof {
        lemma_hex_lower_shape(outer_digest@);
    }
    outer_hex.truncate(9);
    let r = string_from_chars(outer_hex.as_slice());
    assert(r@ =~= longpoll_category(api_token@, radio_id as int));
    r
}

/// The two shapes of a stream callback body, before their payload is typed.
#[derive(Debug)]
pub enum CallbackPayload {
    /// A lifecycle notification, with the envelope's `time`.
    Notification { notification: JsonValue, time: Option<i64> },
    /// A recognition result.
    Match { result: JsonValue },
}

/// The message of a callback body that has neither shape.
pub open spec fn neither_shape_text() -> Seq<char> {
    "callback body has neither `result` nor `notification`"@
}

/// What classifying a callback body gives: a `notification` member wins
/// over a `result` member; a body with neither is a serialization error.
pub open spec fn classified(body: Json, r: Result<CallbackPayload, AudDError>) -> bool {
    if body.has_field("notification"@) {
        r matches Ok(CallbackPayload::Notification { notification, time }) && Some(notification@)
            == body.field("notification"@) && int_of(time) == match body.field("time"@) {
            Some(t) => t.as_int(),
            None => None,
        }
    } else if body.has_field("result"@) {
        r matches Ok(CallbackPayload::Match { result }) && Some(result@) == body.field("result"@)
    } else {
        r matches Err(AudDError::Serialization { message, raw_text }) && message@
            == neither_shape_text() && raw_text@ == json_text(body)
    }
}

/// Tells the two callback shapes apart by key: a `notification` member wins
/// over a `result` member; a body with neither is a serialization error.
pub fn classify_callback(body: &JsonValue) -> (r: Result<CallbackPayload, AudDError>)
    ensures
        classified(body@, r),
{
    if let Some(n) = body.get("notification") {
        let time = match body.get("time") {
            Some(t) => t.as_i64(),
            None => None,
        };
        return Ok(CallbackPayload::Notification { notification: n.duplicate(), time });
    }
    if let Some(res) = body.get("result") {
        return Ok(CallbackPayload::Match { result: res.duplicate() });
    }
    Err(
        AudDError::Serialization {
            message: string_of("callback body has neither `result` nor `notification`"),
            raw_text: body.to_text(),
        },
    )
}

/// Reads raw callback bytes: bytes that are not JSON are a serialization
/// error (`callback body is not valid JSON: <detail>`, with the bytes read as
/// lossy UTF-8); a JSON body is classified as in [`classify_callback`] and
/// returned beside its payload as the envelope.
pub fn classify_callback_bytes(body: &[u8]) -> (r: Result<(CallbackPayload, JsonValue), AudDError>)
    ensures
        match json_of_bytes(body@) {
            Err(m) => r matches Err(AudDError::Serialization { message, raw_text }) && message@
                == "callback body is not valid JSON: "@ + m && raw_text@ == lossy_text(body@),
            Ok(j) => match r {
                Ok((payload, envelope)) => envelope@ == j && classified(j, Ok(payload)),
                Err(e) => classified(j, Err(e)),
            },
        },
{
    match parse_json_bytes(body) {
        Err(detail) => Err(callback_json_error(detail.as_str(), utf8_lossy(body))),
        Ok(value) => match classify_callback(&value) {
            Ok(payload) => Ok((payload, value)),
            Err(e) => Err(e),
        },
    }
}

/// The notification event for a typed notification payload: the envelope's
/// `time` is hoisted onto it and the whole envelope kept as `raw_response`.
pub fn notification_event(
    notification: StreamCallbackNotification,
    time: Option<i64>,
    envelope: JsonValue,
) -> (e: CallbackEvent)
    ensures
        e matches CallbackEvent::Notification(n) && n.radio_id == notification.radio_id
            && n.stream_running == notification.stream_running && n.notification_code
            == notification.notification_code && n.notification_message
            == notification.notification_message && n.extras == notification.extras && n.time
            == time && n.raw_response == envelope,
{
    let mut n = notification;
    n.time = time;
    n.raw_response = envelope;
    CallbackEvent::Notification(n)
}

/// The match event for a typed recognition payload, keeping the whole
/// envelope as `raw_response`.
pub fn match_event(event: StreamCallbackMatch, envelope: JsonValue) -> (e: CallbackEvent)
    ensures
        e matches CallbackEvent::Match(m) && m.radio_id == event.radio_id && m.timestamp
            == event.timestamp && m.play_length == event.play_length && m.song == event.song
            && m.alternatives == event.alternatives && m.extras == event.extras && m.raw_response
            == envelope,
{
    let mut m = event;
    m.raw_response = envelope;
    CallbackEvent::Match(m)
}

/// The serialization error for a callback payload that does not decode into
/// its typed shape: `callback notification: <detail>` or
/// `callback result: <detail>`, with the envelope's JSON text.
pub fn callback_decode_error(is_notification: bool, detail: &str, envelope: &JsonValue) -> (e: AudDError)
    ensures
        e matches AudDError::Serialization { message, raw_text } && message@ == (if is_notification {
            "callback notification: "@
        } else {
            "callback result: "@
        }) + detail@ && raw_text@ == json_text(envelope@),
{
    let mut message = if is_notification {
        string_of("callback notification: ")
    } else {
        string_of("callback result: ")
    };
    push_str(&mut message, detail);
    AudDError::Serialization { message, raw_text: envelope.to_text() }
}

/// The serialization error for callback bytes that are not JSON:
/// `callback body is not valid JSON: <detail>`, keeping the body text.
pub fn callback_json_error(detail: &str, raw_text: String) -> (e: AudDError)
    ensures
        e matches AudDError::Serialization { message, raw_text: t } && message@
            == "callback body is not valid JSON: "@ + detail@ && t@ == raw_text@,
{
    let mut message = string_of("callback body is not valid JSON: ");
    push_str(&mut message, detail);
    AudDError::Serialization { message, raw_text }
}

/// The message of the duplicate-`return` refusal.
pub open spec fn duplicate_return_text() -> Seq<char> {
    "URL already contains a `return` query parameter; pass return_metadata=None or remove the parameter from the URL — refusing to silently overwrite."@
}

/// Whether `e` is the synthetic invalid-request error for a duplicate `return`.
pub open spec fn is_duplicate_return_error(e: AudDError) -> bool {
    e matches AudDError::Api {
        code,
        message,
        kind,
        http_status,
        request_id,
        requested_params,
        request_method,
        branded_message,
        raw_response,
    } && code == 0 && message@ == duplicate_return_text() && kind == ErrorKind::InvalidRequest
        && http_status == 0 && request_id is None && requested_params@.len() == 0
        && request_method is None && branded_message is None && raw_response@ == Json::Null
}

/// The synthetic invalid-request error for a URL that already has `return=`.
pub fn duplicate_return_error() -> (e: AudDError)
    ensures
        is_duplicate_return_error(e),
{
    AudDError::Api {
        code: 0,
        message: string_of(
            "URL already contains a `return` query parameter; pass return_metadata=None or remove the parameter from the URL — refusing to silently overwrite.",
        ),
        kind: ErrorKind::InvalidRequest,
        http_status: 0,
        request_id: None,
        requested_params: Vec::new(),
        request_method: None,
        branded_message: None,
        raw_response: JsonValue::Null,
    }
}

/// The message for a callback URL that does not parse.
pub open spec fn unparseable_url_text(url: Seq<char>, detail: Seq<char>) -> Seq<char> {
    "could not parse callback URL `"@ + url + "`: "@ + detail
}

/// What [`add_return_to_url`] yields, when it succeeds.
pub open spec fn url_with_return(url: Seq<char>, parts: Option<Seq<String>>) -> Option<Seq<char>> {
    match parts {
        None => Some(url),
        Some(ps) => if ps.len() == 0 {
            Some(url)
        } else {
            match parsed_url(url) {
                Ok(p) => if p.2.contains("return"@) {
                    None
                } else {
                    Some(url_with_pair(url, "return"@, join_with(string_views(ps), ","@)))
                },
                Err(_) => None,
            }
        },
    }
}

/// Whether `names` holds `"return"`.
fn has_return_key(names: &Vec<String>) -> (r: bool)
    ensures
        r == string_views(names@).contains("return"@),
{
    let mut i: usize = 0;
    while i < names.len()
        invariant
            i <= names@.len(),
            forall|j: int| 0 <= j < i ==> names@[j]@ != "return"@,
        decreases names.len() - i,
    {
        if str_eq(names[i].as_str(), "return") {
            assert(string_views(names@)[i as int] == "return"@);
            return true;
        }
        i = i + 1;
    }
    assert(!string_views(names@).contains("return"@)) by {
        if string_views(names@).contains("return"@) {
            let k = choose|k: int| 0 <= k < string_views(names@).len() && string_views(names@)[k] == "return"@;
            assert(names@[k]@ == "return"@);
        }
    }
    false
}

/// Appends `return=<metadata joined by ','>` to a callback URL. With no
/// metadata (or an empty list) the URL is returned unchanged. A URL that
/// already carries a `return` query parameter is refused rather than
/// silently overwritten; a URL that does not parse is a source error.
pub fn add_return_to_url(url: &str, return_metadata: Option<&[String]>) -> (r: Result<String, AudDError>)
    ensures
        match r {
            Ok(s) => url_with_return(
                url@,
                match return_metadata {
                    Some(ps) => Some(ps@),
                    None => None,
                },
            ) == Some(s@),
            Err(e) => url_with_return(
                url@,
                match return_metadata {
                    Some(ps) => Some(ps@),
                    None => None,
                },
            ) is None && match parsed_url(url@) {
                Err(detail) => e matches AudDError::Source(m) && m@ == unparseable_url_text(
                    url@,
                    detail,
                ),
                Ok(_) => is_duplicate_return_error(e),
            },
        },
{
    let parts = match return_metadata {
        None => return Ok(string_of(url)),
        Some(p) => p,
    };
    if parts.len() == 0 {
        return Ok(string_of(url));
    }
    let metadata = join_strings(parts, ",");
    let parsed = match parse_url(url) {
        Ok(p) => p,
        Err(detail) => {
            let mut m = string_of("could not parse callback URL `");
            push_str(&mut m, url);
            push_str(&mut m, "`: ");
            push_str(&mut m, detail.as_str());
            assert(m@ =~= unparseable_url_text(url@, detail@));
            return Err(AudDError::Source(m));
        },
    };
    if has_return_key(&parsed.query_keys) {
        return Err(duplicate_return_error());
    }
    match append_query_pair(url, "return", metadata.as_str()) {
        Some(s) => Ok(s),
        None => Err(duplicate_return_error()),
    }
}

/// With metadata to add, a callback URL whose query already names `return`
/// anywhere is refused, and a URL that is extended never had a `return` key:
/// an existing `return` is never overwritten nor repeated.
pub proof fn lemma_return_never_duplicated(url: Seq<char>, parts: Seq<String>)
    requires
        parts.len() > 0,
    ensures
        (parsed_url(url) matches Ok(p) && (exists|i: int| 0 <= i < p.2.len() && p.2[i] == "return"@))
            ==> url_with_return(url, Some(parts)) is None,
        url_with_return(url, Some(parts)) is Some ==> (parsed_url(url) matches Ok(p) && forall|i: int|
            0 <= i < p.2.len() ==> p.2[i] != "return"@),
{
    if let Ok(p) = parsed_url(url) {
        if exists|i: int| 0 <= i < p.2.len() && p.2[i] == "return"@ {
            let i = choose|i: int| 0 <= i < p.2.len() && p.2[i] == "return"@;
            assert(p.2.contains("return"@));
        }
        if url_with_return(url, Some(parts)) is Some {
            assert(!p.2.contains("return"@));
            assert forall|i: int| 0 <= i < p.2.len() implies p.2[i] != "return"@ by {
                if p.2[i] == "return"@ {
                    assert(p.2.contains("return"@));
                }
            }
        }
    }
}

} // verus!
