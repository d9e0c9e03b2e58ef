//! Trusted probes into JSON response bodies.
//!
//! The remote API speaks JSON; decoding is serde_json's work and is not
//! reimplemented here. Each probe the session logic needs is one wrapper
//! whose result is named by an uninterpreted function of the body text, so
//! callers' contracts stay exact without restating the JSON grammar.

use vstd::prelude::*;
use crate::tokens::TokenBundle;

verus! {

/// The view of an optional string.
pub open spec fn opt_text(o: Option<String>) -> Option<Seq<char>> {
    match o {
        Some(s) => Some(s@),
        None => None,
    }
}

/// Whether serde_json parses the text as a JSON document.
pub uninterp spec fn json_parses(body: Seq<char>) -> bool;

/// The `error` and `message` string fields of a JSON error body: `None` when
/// the body is not JSON, otherwise each field where it is present as a
/// string.
pub uninterp spec fn error_fields_of(body: Seq<char>) -> Option<
    (Option<Seq<char>>, Option<Seq<char>>),
>;

/// The token bundle a JSON body carries: its `access_token` and
/// `refresh_token` strings and the two expirations, or `None` where any of
/// the four is missing or of the wrong type.
pub uninterp spec fn token_fields_of(body: Seq<char>) -> Option<(Seq<char>, Seq<char>, i64, i64)>;

/// The `event_type` discriminator of a realtime frame: outer `None` when the
/// frame is not JSON, inner option for the field's presence as a string.
pub uninterp spec fn frame_fields_of(body: Seq<char>) -> Option<Option<Seq<char>>>;

/// Relies on serde_json::from_str::<Value>: whether the body is a JSON
/// document.
#[verifier::external_body]
pub(crate) fn json_body_is_valid(body: &str) -> (r: bool)
    ensures
        r == json_parses(body@),
{
    serde_json::from_str::<serde_json::Value>(body).is_ok()
}

/// Relies on serde_json::from_str::<Value> and Value::get / Value::as_str:
/// the `error` and `message` string fields of an error body. The body parses
/// as JSON exactly when the result is `Some`.
#[verifier::external_body]
pub(crate) fn parse_error_fields(body: &str) -> (r: Option<(Option<String>, Option<String>)>)
    ensures
        match r {
            Some(f) => error_fields_of(body@) == Some((opt_text(f.0), opt_text(f.1))),
            None => error_fields_of(body@) is None,
        },
        r is Some <==> json_parses(body@),
{
    let v: serde_json::Value = serde_json::from_str(body).ok()?;
    let error = v.get("error").and_then(serde_json::Value::as_str).map(str::to_string);
    let message = v.get("message").and_then(serde_json::Value::as_str).map(str::to_string);
    Some((error, message))
}

/// Relies on serde_json::from_str::<Value>, Value::get, Value::as_str and
/// Value::as_i64: the four token-bundle fields of a JSON body.
#[verifier::external_body]
pub(crate) fn parse_token_bundle(body: &str) -> (r: Option<TokenBundle>)
    ensures
        match r {
            Some(b) => token_fields_of(body@) == Some(
                (b.access_token@, b.refresh_token@, b.access_expires_at, b.refresh_expires_at),
            ),
            None => token_fields_of(body@) is None,
        },
{
    let v: serde_json::Value = serde_json::from_str(body).ok()?;
    Some(TokenBundle {
        access_token: v.get("access_token")?.as_str()?.to_string(),
        refresh_token: v.get("refresh_token")?.as_str()?.to_string(),
        access_expires_at: v.get("access_expires_at")?.as_i64()?,
        refresh_expires_at: v.get("refresh_expires_at")?.as_i64()?,
    })
}

/// Relies on serde_json::from_str::<Value>, Value::get and Value::as_str:
/// the `event_type` discriminator of a realtime frame.
#[verifier::external_body]
pub(crate) fn frame_event_type(text: &str) -> (r: Option<Option<String>>)
    ensures
        match r {
            Some(f) => frame_fields_of(text@) == Some(opt_text(f)),
            None => frame_fields_of(text@) is None,
        },
{
    let v: serde_json::Value = serde_json::from_str(text).ok()?;
    Some(v.get("event_type").and_then(serde_json::Value::as_str).map(str::to_string))
}

} // verus!
