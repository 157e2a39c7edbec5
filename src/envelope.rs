use crate::error::ApiError;
use vstd::prelude::*;

verus! {

/// The string member `key` of the JSON object that `body` holds; none where
/// `body` is not JSON, not an object, or has no such member of string type.
pub uninterp spec fn json_string_member(body: Seq<char>, key: Seq<char>) -> Option<Seq<char>>;

/// Relies on serde_json::from_str to parse `body` into a `serde_json::Value`,
/// then on `Value::get` and `Value::as_str` to read the member `key` of it.
#[verifier::external_body]
pub(crate) fn string_member(body: &str, key: &str) -> (r: Option<String>)
    ensures
        match r {
            Some(s) => json_string_member(body@, key@) == Some(s@),
            None => json_string_member(body@, key@) is None,
        },
{
    let v: serde_json::Value = serde_json::from_str(body).ok()?;
    v.get(key)?.as_str().map(str::to_string)
}

/// The number of members of the JSON object that `body` holds; none where
/// `body` is not JSON or not an object.
pub uninterp spec fn json_object_size(body: Seq<char>) -> Option<nat>;

/// Relies on serde_json::from_str to parse `body`, and on `Value::as_object`
/// and `Map::len` for the number of members of the object.
#[verifier::external_body]
pub(crate) fn object_size(body: &str) -> (r: Option<usize>)
    ensures
        match r {
            Some(n) => json_object_size(body@) == Some(n as nat),
            None => json_object_size(body@) is None,
        },
{
    let v: serde_json::Value = serde_json::from_str(body).ok()?;
    Some(v.as_object()?.len())
}

/// Whether the JSON object that `body` holds has a member `key` whose value
/// is not `null`; false where `body` is not JSON or not an object.
pub uninterp spec fn json_member_present(body: Seq<char>, key: Seq<char>) -> bool;

/// Relies on serde_json::from_str to parse `body`, on `Value::get` to reach
/// the member `key`, and on `Value::is_null`.
#[verifier::external_body]
pub(crate) fn member_present(body: &str, key: &str) -> (r: bool)
    ensures
        r == json_member_present(body@, key@),
{
    match serde_json::from_str::<serde_json::Value>(body) {
        Ok(v) => v.get(key).map_or(false, |m| !m.is_null()),
        Err(_) => false,
    }
}

/// The message of the error shape: `body` is an object whose one member is
/// the string `error`.
pub open spec fn error_message(body: Seq<char>) -> Option<Seq<char>> {
    if json_object_size(body) == Some(1nat) {
        json_string_member(body, "error"@)
    } else {
        None
    }
}

/// Reads the error shape of `body`, if it has it.
pub(crate) fn error_shape(body: &str) -> (r: Option<String>)
    ensures
        match r {
            Some(m) => error_message(body@) == Some(m@),
            None => error_message(body@) is None,
        },
{
    match object_size(body) {
        Some(n) => {
            if n == 1 {
                string_member(body, "error")
            } else {
                None
            }
        },
        None => None,
    }
}

/// The JSON text of each element of the array member `key` of the JSON
/// object that `body` holds; none where there is no such array member.
pub uninterp spec fn json_array_member(body: Seq<char>, key: Seq<char>) -> Option<Seq<Seq<char>>>;

/// Relies on serde_json::from_str to parse `body`, on `Value::get` and
/// `Value::as_array` to reach the member `key`, and on the `Display` of
/// `Value` to give each element back as JSON text.
#[verifier::external_body]
pub(crate) fn array_member(body: &str, key: &str) -> (r: Option<Vec<String>>)
    ensures
        match r {
            Some(v) => json_array_member(body@, key@) == Some(v@.map_values(|e: String| e@)),
            None => json_array_member(body@, key@) is None,
        },
{
    let v: serde_json::Value = serde_json::from_str(body).ok()?;
    Some(v.get(key)?.as_array()?.iter().map(|e| e.to_string()).collect())
}

/// A reply payload that can be read from the text of a JSON body.
pub trait Payload: Sized {
    /// Whether decoding `body` may give `r`. An implementation that states
    /// nothing of its decoding keeps the default.
    open spec fn decoded(body: Seq<char>, r: Result<Self, String>) -> bool {
        true
    }

    fn decode(body: &str) -> (r: Result<Self, String>)
        ensures
            Self::decoded(body@, r),
    ;
}

/// The outer shape of every reply: the error record, or else the payload.
/// The wire format carries no tag; the error shape is tried first.
#[derive(Clone, Debug)]
pub enum Rsp<T> {
    Error { error: String },
    OK(T),
}

impl<T> Rsp<T> {
    pub fn into_result(self) -> (r: Result<T, ApiError>)
        ensures
            match self {
                Rsp::Error { error } => r == Err::<T, ApiError>(ApiError::Remote(error)),
                Rsp::OK(v) => r == Ok::<T, ApiError>(v),
            },
    {
        match self {
            Rsp::Error { error } => Err(ApiError::Remote(error)),
            Rsp::OK(v) => Ok(v),
        }
    }
}

/// Reads a reply body as an envelope: the error shape if the body is an
/// object whose only member is the string `error`, otherwise a payload of
/// type `T`.
pub fn decode_envelope<T: Payload>(body: &str) -> (r: Result<Rsp<T>, ApiError>)
    ensures
        match error_message(body@) {
            Some(m) => r matches Ok(Rsp::Error { error }) && error@ == m,
            None => {
                ||| (r matches Ok(Rsp::OK(t)) && T::decoded(body@, Ok(t)))
                ||| (r matches Err(ApiError::Decode(e)) && T::decoded(body@, Err(e)))
            },
        },
{
    match error_shape(body) {
        Some(error) => Ok(Rsp::Error { error }),
        None => match T::decode(body) {
            Ok(t) => Ok(Rsp::OK(t)),
            Err(e) => Err(ApiError::Decode(e)),
        },
    }
}

/// Resolves a reply body to its payload, or to the error it reports.
pub fn resolve<T: Payload>(body: &str) -> (r: Result<T, ApiError>)
    ensures
        match error_message(body@) {
            Some(m) => r matches Err(ApiError::Remote(e)) && e@ == m,
            None => {
                ||| (r matches Ok(t) && T::decoded(body@, Ok(t)))
                ||| (r matches Err(ApiError::Decode(e)) && T::decoded(body@, Err(e)))
            },
        },
{
    match decode_envelope::<T>(body) {
        Ok(rsp) => rsp.into_result(),
        Err(e) => Err(e),
    }
}

/// The reply of the token exchange.
#[derive(Clone, Debug)]
pub struct TokenExchangeData {
    pub access_token: String,
}

impl Payload for TokenExchangeData {
    open spec fn decoded(body: Seq<char>, r: Result<Self, String>) -> bool {
        match r {
            Ok(t) => json_string_member(body, "access_token"@) == Some(t.access_token@),
            Err(_) => json_string_member(body, "access_token"@) is None,
        }
    }

    fn decode(body: &str) -> (r: Result<Self, String>) {
        match string_member(body, "access_token") {
            Some(access_token) => Ok(TokenExchangeData { access_token }),
            None => Err("missing string member access_token".to_string()),
        }
    }
}

} // verus!
