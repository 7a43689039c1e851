//! The listener's side of things: what it is configured with, and how it
//! routes the one path it serves.
//!
//! A `Server` is the layer while it initializes; `run` turns it into the
//! `Service` that answers requests. There is no way back.

use vstd::prelude::*;
use crate::auth::{
    bearer_prefix, bearer_token, is_header_text,
    law_bearer_header_presents_its_token, presented,
};
use crate::config::{parse_port, port_of, ConfigError, DEFAULT_PORT};
use crate::exchange::{
    answers_with, auth_stdin_handler, law_closed_is_final,
    law_handled_requests_end_in_success_or_daemon_failure, receive, receive_guarded, runs,
    stdin_handler, trace, Action, Event, Exchange, Step,
};
use crate::response::{unauthorized_body, Media, Reply, Status};
use crate::text::{str_view, text_view};

verus! {

/// The one path that is served, for `GET` requests.
pub const ROUTE: &'static str = "/v1/stdin";

/// What the listener is configured with.
pub struct Settings {
    /// The port to bind; never 0.
    pub port: u16,
    /// The bearer token that requests must present, if any.
    pub auth_token: Option<Seq<char>>,
}

/// The port to bind for a `PORT` setting: the default when there is none,
/// the port the text denotes when it denotes one.
pub open spec fn configured_port(port: Option<Seq<char>>) -> Option<u16> {
    match port {
        Some(text) => port_of(text),
        None => Some(DEFAULT_PORT),
    }
}

/// The layer while it initializes: configuration has been read, the daemon
/// has not been started yet.
#[derive(Debug)]
pub struct Server {
    port: u16,
    auth_token: Option<String>,
}

/// The layer while it serves.
#[derive(Debug)]
pub struct Service {
    port: u16,
    auth_token: Option<String>,
}

impl View for Server {
    type V = Settings;

    closed spec fn view(&self) -> Settings {
        Settings { port: self.port, auth_token: text_view(self.auth_token) }
    }
}

impl View for Service {
    type V = Settings;

    closed spec fn view(&self) -> Settings {
        Settings { port: self.port, auth_token: text_view(self.auth_token) }
    }
}

/// How the one route answers a request: through the auth gate when a token
/// is configured, straight to the handler when none is.
pub open spec fn route<P>(
    auth_token: Option<Seq<char>>,
    authorization: Option<Seq<char>>,
    query: Result<P, String>,
) -> (Exchange<P>, Step<P>) {
    match auth_token {
        Some(expected) => receive_guarded(expected, presented(authorization), query),
        None => receive(query),
    }
}

impl Server {
    #[verifier::type_invariant]
    spec fn bindable(self) -> bool {
        self.port >= 1
    }

    /// Reads the configuration: the `PORT` and `AUTH_TOKEN` settings as the
    /// environment holds them, `None` for one that is not set.
    pub fn new(port: Option<&str>, auth_token: Option<String>) -> (made: Result<
        Server,
        ConfigError,
    >)
        ensures
            match configured_port(str_view(port)) {
                Some(number) => made matches Ok(server) && server@ == (Settings {
                    port: number,
                    auth_token: text_view(auth_token),
                }),
                None => made matches Err(ConfigError::InvalidPort),
            },
    {
        let number = match port {
            Some(text) => match parse_port(text) {
                Ok(number) => number,
                Err(error) => {
                    return Err(error);
                },
            },
            None => DEFAULT_PORT,
        };
        Ok(Server { port: number, auth_token })
    }

    /// Leaves initialization, given how the daemon's own startup ended: with
    /// the handle to serve with, or with the reason it failed. A daemon that
    /// failed to start is fatal; otherwise the service starts with the
    /// configuration unchanged and hands the same handle back for its cell.
    pub fn run<D>(self, daemon: Result<D, String>) -> (started: Result<(Service, D), ConfigError>)
        ensures
            match daemon {
                Ok(handle) => started matches Ok(pair) && pair.0@ == self@ && pair.1 == handle,
                Err(reason) => started matches Err(ConfigError::DaemonInit(text)) && text@
                    == reason@,
            },
    {
        proof {
            use_type_invariant(&self);
        }
        match daemon {
            Ok(handle) => Ok((Service { port: self.port, auth_token: self.auth_token }, handle)),
            Err(reason) => Err(ConfigError::DaemonInit(reason)),
        }
    }
}

impl Service {
    #[verifier::type_invariant]
    spec fn bindable(self) -> bool {
        self.port >= 1
    }

    /// The port to bind. It is never 0.
    pub fn port(&self) -> (port: u16)
        ensures
            port == self@.port,
            port >= 1,
    {
        proof {
            use_type_invariant(self);
        }
        self.port
    }

    /// Whether requests have to pass the auth gate.
    pub fn guarded(&self) -> (guarded: bool)
        ensures
            guarded == self@.auth_token.is_some(),
    {
        self.auth_token.is_some()
    }

    /// Routes one request: `authorization` is the value of its
    /// `Authorization` header, if it has one, and `query` its decoded query
    /// string, or the reason it does not decode.
    pub fn dispatch<P>(&self, authorization: Option<&str>, query: Result<P, String>) -> (begun: (
        Exchange<P>,
        Action<P>,
    ))
        ensures
            (begun.0, begun.1@) == route(self@.auth_token, str_view(authorization), query),
    {
        match &self.auth_token {
            Some(env_token) => {
                let token = bearer_token(authorization);
                auth_stdin_handler(env_token, query, &token)
            },
            None => stdin_handler(query),
        }
    }
}

/// A `PORT` that is set is never replaced by the default: it is the port it
/// denotes, which is never 0, or startup fails.
pub proof fn law_set_port_is_never_defaulted(text: Seq<char>)
    ensures
        configured_port(Some(text)) == port_of(text),
        port_of(text) matches Some(port) ==> 1 <= port <= 65535,
        configured_port(None) == Some(DEFAULT_PORT),
{
}

/// Without a configured token the auth gate is not there: every request is
/// taken in by the handler whatever its `Authorization` header, and neither
/// the first answer nor any later one is an authentication failure.
pub proof fn law_open_route_never_asks_for_credentials<P>(
    authorization: Option<Seq<char>>,
    query: Result<P, String>,
    events: Seq<Event>,
)
    ensures
        route(None, authorization, query) == receive(query),
        !answers_with(route(None, authorization, query).1, Status::Unauthorized),
        forall|i: int|
            0 <= i < events.len() ==> !answers_with(
                #[trigger] trace(route(None, authorization, query).0, events)[i],
                Status::Unauthorized,
            ),
{
    law_handled_requests_end_in_success_or_daemon_failure(
        route(None, authorization, query).0,
        events,
    );
}

/// With a configured token, a request that presents exactly that token
/// reaches the handler as if there were no gate.
pub proof fn law_matching_credential_reaches_the_handler<P>(
    auth_token: Seq<char>,
    authorization: Option<Seq<char>>,
    query: Result<P, String>,
)
    requires
        presented(authorization) == Some(auth_token),
    ensures
        route(Some(auth_token), authorization, query) == receive(query),
{
}

/// With a configured token, a request whose `Authorization` header is
/// `Bearer`, one space and that token reaches the handler.
pub proof fn law_bearer_header_with_the_token_reaches_the_handler<P>(
    auth_token: Seq<char>,
    query: Result<P, String>,
)
    requires
        is_header_text(auth_token),
    ensures
        route(Some(auth_token), Some(bearer_prefix() + auth_token), query) == receive(query),
{
    law_bearer_header_presents_its_token(auth_token);
}

/// With a configured token, a request without a credential, or with another
/// one, is answered `401 Unauthorized` whatever its query, and the daemon is
/// never called for it.
pub proof fn law_other_credentials_are_turned_away<P>(
    auth_token: Seq<char>,
    authorization: Option<Seq<char>>,
    query: Result<P, String>,
    events: Seq<Event>,
)
    requires
        presented(authorization) != Some(auth_token),
    ensures
        route(Some(auth_token), authorization, query) == (
            Exchange::<P>::Closed,
            Step::<P>::Respond(
                Reply {
                    status: Status::Unauthorized,
                    media: Media::PlainText,
                    body: unauthorized_body(),
                },
            ),
        ),
        runs(route(Some(auth_token), authorization, query).0, events) == 0,
{
    law_closed_is_final::<P>(events);
}

/// A request that is let through with a query that does not decode is
/// answered `400` with the reason, and the daemon is never called for it.
pub proof fn law_undecodable_query_never_reaches_the_daemon<P>(
    auth_token: Option<Seq<char>>,
    authorization: Option<Seq<char>>,
    reason: String,
    events: Seq<Event>,
)
    requires
        auth_token matches Some(expected) ==> presented(authorization) == Some(expected),
    ensures
        route::<P>(auth_token, authorization, Err(reason)) == (
            Exchange::<P>::Closed,
            Step::<P>::Respond(
                Reply { status: Status::BadRequest, media: Media::PlainText, body: reason@ },
            ),
        ),
        runs(route::<P>(auth_token, authorization, Err(reason)).0, events) == 0,
{
    law_closed_is_final::<P>(events);
}

} // verus!
