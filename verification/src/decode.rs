//! Decoding of the text payloads that cross the boundary to the content view.
//!
//! Every value that arrives through the evaluation or the message channel is
//! UTF-8 text holding one JSON value. The parsing itself is done by
//! `serde_json`; this module is the only place where that crate is called.

use vstd::prelude::*;

verus! {

/// Declares `serde_json::Value`, a decoded JSON value. The library never
/// looks inside one; it only hands it on.
#[verifier::external_type_specification]
#[verifier::external_body]
pub struct ExJsonValue(serde_json::Value);

/// Declares `serde_json::Error`, the parser's error. The library keeps only
/// its message.
#[verifier::external_type_specification]
#[verifier::external_body]
pub struct ExJsonError(serde_json::Error);

/// The value that `serde_json::from_str::<serde_json::Value>` yields for
/// `text`, `None` where it reports an error. The parser reads nothing but its
/// argument, so equal texts decode alike.
pub uninterp spec fn json_value_of(text: Seq<char>) -> Option<serde_json::Value>;

/// Calls `serde_json::from_str::<serde_json::Value>` on `text`.
///
/// Trusted: the contract only gives the outcome of that call its name,
/// [`json_value_of`]; it claims nothing about which texts parse or to what.
#[verifier::external_body]
fn parse_json(text: &str) -> (parsed: Result<serde_json::Value, serde_json::Error>)
    ensures
        match parsed {
            Ok(value) => json_value_of(text@) == Some(value),
            Err(_) => json_value_of(text@) is None,
        },
{
    serde_json::from_str::<serde_json::Value>(text)
}

/// Calls `to_string` on a `serde_json::Error`, which renders its `Display`
/// form.
///
/// Trusted, and nothing is claimed about the text.
#[verifier::external_body]
fn error_message(error: &serde_json::Error) -> (message: String) {
    error.to_string()
}

/// A payload that is not one JSON value.
#[derive(Clone, Debug)]
pub struct DecodeError {
    /// The parser's description of what it met and where.
    pub message: String,
}

/// Decodes one payload.
///
/// Succeeds exactly on the texts the parser accepts, with the value the
/// parser built; every other text is reported as a [`DecodeError`].
pub fn decode(text: &str) -> (decoded: Result<serde_json::Value, DecodeError>)
    ensures
        match decoded {
            Ok(value) => json_value_of(text@) == Some(value),
            Err(_) => json_value_of(text@) is None,
        },
{
    match parse_json(text) {
        Ok(value) => Ok(value),
        Err(error) => Err(DecodeError { message: error_message(&error) }),
    }
}

} // verus!
