//! Responses, and the one table that turns every per-request failure into one.

use vstd::prelude::*;
use vstd::string::*;

verus! {

/// The status lines this layer can answer with.
#[derive(Debug, Clone, Copy, PartialEq, Eq, Structural)]
pub enum Status {
    Success,
    BadRequest,
    Unauthorized,
    InternalServerError,
}

/// The numeric code of a status.
pub open spec fn code_of(status: Status) -> u16 {
    match status {
        Status::Success => 200,
        Status::BadRequest => 400,
        Status::Unauthorized => 401,
        Status::InternalServerError => 500,
    }
}

impl Status {
    /// The numeric code sent on the wire.
    pub fn code(&self) -> (code: u16)
        ensures
            code == code_of(*self),
    {
        match self {
            Status::Success => 200,
            Status::BadRequest => 400,
            Status::Unauthorized => 401,
            Status::InternalServerError => 500,
        }
    }
}

/// How a body is to be read.
#[derive(Debug, Clone, Copy, PartialEq, Eq, Structural)]
pub enum Media {
    Json,
    PlainText,
}

/// The content type that announces a kind of body.
pub open spec fn content_type_of(media: Media) -> Seq<char> {
    match media {
        Media::Json => "application/json"@,
        Media::PlainText => "text/plain; charset=utf-8"@,
    }
}

impl Media {
    /// The value of the `Content-Type` header for this kind of body.
    pub fn content_type(&self) -> (value: &'static str)
        ensures
            value@ == content_type_of(*self),
    {
        match self {
            Media::Json => "application/json",
            Media::PlainText => "text/plain; charset=utf-8",
        }
    }
}

/// A complete answer to one request.
#[derive(Debug, Clone, PartialEq, Eq)]
pub struct Response {
    pub status: Status,
    pub media: Media,
    pub body: String,
}

/// What a `Response` says, with its body as a sequence of characters.
pub struct Reply {
    pub status: Status,
    pub media: Media,
    pub body: Seq<char>,
}

impl View for Response {
    type V = Reply;

    open spec fn view(&self) -> Reply {
        Reply { status: self.status, media: self.media, body: self.body@ }
    }
}

/// Everything that can go wrong with one request. None of it outlives the
/// request or reaches the listener.
#[derive(Debug, Clone, PartialEq, Eq)]
pub enum Failure {
    /// The bearer credential is missing or differs from the configured token.
    Unauthorized,
    /// The query string does not decode; the text says why.
    BadQuery(String),
    /// The daemon's `run` returned an error; the text is its description.
    Daemon(String),
}

/// The body of every authentication failure.
pub open spec fn unauthorized_body() -> Seq<char> {
    "Unauthorized"@
}

/// The status that a failure is reported with.
pub open spec fn failure_status(failure: Failure) -> Status {
    match failure {
        Failure::Unauthorized => Status::Unauthorized,
        Failure::BadQuery(_) => Status::BadRequest,
        Failure::Daemon(_) => Status::InternalServerError,
    }
}

/// The plain-text body that a failure is reported with.
pub open spec fn failure_body(failure: Failure) -> Seq<char> {
    match failure {
        Failure::Unauthorized => unauthorized_body(),
        Failure::BadQuery(text) => text@,
        Failure::Daemon(text) => text@,
    }
}

/// The reply that reports a failure.
pub open spec fn failure_reply(failure: Failure) -> Reply {
    Reply {
        status: failure_status(failure),
        media: Media::PlainText,
        body: failure_body(failure),
    }
}

/// The success envelope around a daemon result already written as JSON.
pub open spec fn envelope(data: Seq<char>) -> Seq<char> {
    "{\"status\":\"success\",\"data\":"@ + data + "}"@
}

/// The reply that carries a daemon result.
pub open spec fn success_reply(data: Seq<char>) -> Reply {
    Reply { status: Status::Success, media: Media::Json, body: envelope(data) }
}

/// The reply for either outcome of a daemon call: the envelope around the
/// result's JSON text, or the error's description as a daemon failure.
pub open spec fn outcome_reply(outcome: Result<String, String>) -> Reply {
    match outcome {
        Ok(data) => success_reply(data@),
        Err(description) => failure_reply(Failure::Daemon(description)),
    }
}

impl Failure {
    /// The status this failure is reported with.
    pub fn status(&self) -> (status: Status)
        ensures
            status == failure_status(*self),
    {
        match self {
            Failure::Unauthorized => Status::Unauthorized,
            Failure::BadQuery(_) => Status::BadRequest,
            Failure::Daemon(_) => Status::InternalServerError,
        }
    }

    /// Turns the failure into the response that reports it.
    pub fn into_response(self) -> (response: Response)
        ensures
            response@ == failure_reply(self),
    {
        let status = self.status();
        let body = match self {
            Failure::Unauthorized => "Unauthorized".to_owned(),
            Failure::BadQuery(text) => text,
            Failure::Daemon(text) => text,
        };
        Response { status, media: Media::PlainText, body }
    }
}

impl Response {
    /// Wraps a daemon result, given as JSON text, in the success envelope.
    pub fn success(data: &str) -> (response: Response)
        ensures
            response@ == success_reply(data@),
    {
        let mut body = "{\"status\":\"success\",\"data\":".to_owned();
        body.append(data);
        body.append("}");
        Response { status: Status::Success, media: Media::Json, body }
    }

    /// The response for either outcome of a daemon call.
    pub fn from_outcome(outcome: Result<String, String>) -> (response: Response)
        ensures
            response@ == outcome_reply(outcome),
    {
        match outcome {
            Ok(data) => Response::success(data.as_str()),
            Err(description) => Failure::Daemon(description).into_response(),
        }
    }
}

} // verus!
