//! The daemon's results are `serde_json` values; this module is where they
//! become text.

use vstd::prelude::*;
use crate::exchange::{next, Event, Exchange, Step};
use crate::response::{
    envelope, failure_reply, outcome_reply, success_reply, Failure, Media, Reply, Status,
};

verus! {

/// A JSON value of `serde_json`, carried through without being looked into.
#[verifier::external_type_specification]
#[verifier::external_body]
pub struct ExValue(serde_json::Value);

/// The compact JSON text of a value, as `serde_json::to_string` writes it.
pub uninterp spec fn json_text(value: serde_json::Value) -> Seq<char>;

/// Calls `serde_json::to_string` on a value. It succeeds, and the text is the
/// value's compact JSON text: a value holds nothing but strings as keys and
/// is written into memory, so the writer has no error to report.
#[verifier::external_body]
fn to_json_text(value: &serde_json::Value) -> (written: Result<String, String>)
    ensures
        written is Ok,
        written matches Ok(text) ==> text@ == json_text(*value),
{
    match serde_json::to_string(value) {
        Ok(text) => Ok(text),
        Err(error) => Err(error.to_string()),
    }
}

/// The reply that a daemon call ends with: the envelope around the JSON text
/// of its value, or its error's description as a daemon failure.
pub open spec fn daemon_reply(result: Result<serde_json::Value, String>) -> Reply {
    match result {
        Ok(value) => success_reply(json_text(value)),
        Err(message) => failure_reply(Failure::Daemon(message)),
    }
}

/// Turns what the daemon's `run` returned into the outcome that the request
/// protocol works on: the value as its JSON text, or the error's description
/// unchanged.
pub fn daemon_outcome(result: Result<serde_json::Value, String>) -> (outcome: Result<
    String,
    String,
>)
    ensures
        match result {
            Ok(value) => outcome matches Ok(data) && data@ == json_text(value),
            Err(message) => outcome matches Err(description) && description@ == message@,
        },
        outcome_reply(outcome) == daemon_reply(result),
{
    match result {
        Ok(value) => to_json_text(&value),
        Err(message) => Err(message),
    }
}

/// A request whose daemon call has ended is answered with that call's
/// result and nothing else: `200` and the envelope around the value's JSON
/// text, or `500` and the error's description. Either way it gives up the
/// daemon's cell and is closed.
pub proof fn law_daemon_result_is_the_answer<P>(
    result: Result<serde_json::Value, String>,
    outcome: Result<String, String>,
)
    requires
        match result {
            Ok(value) => outcome matches Ok(data) && data@ == json_text(value),
            Err(message) => outcome matches Err(description) && description@ == message@,
        },
    ensures
        next(Exchange::<P>::Running, Event::Returned(outcome)) == (
            Exchange::<P>::Closed,
            Step::<P>::Release(daemon_reply(result)),
        ),
        result matches Ok(value) ==> daemon_reply(result) == (Reply {
            status: Status::Success,
            media: Media::Json,
            body: envelope(json_text(value)),
        }),
        result matches Err(message) ==> daemon_reply(result) == (Reply {
            status: Status::InternalServerError,
            media: Media::PlainText,
            body: message@,
        }),
{
}

} // verus!
