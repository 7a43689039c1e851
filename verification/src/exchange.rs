//! The life of one request, from arrival to reply.
//!
//! A request that is let in becomes an `Exchange`. The embedding program
//! waits for the daemon's cell and calls the daemon; the exchange tells it
//! what to do next and what to answer. The daemon is only ever called on
//! `Action::Run`, which is only ever issued in answer to `Event::Granted`.

use vstd::prelude::*;
use crate::auth::{accepts, credential_accepted};
use crate::text::text_view;
use crate::response::{failure_reply, outcome_reply, Failure, Reply, Response, Status};

verus! {

/// Where one request stands.
#[derive(Debug, PartialEq, Eq)]
pub enum Exchange<P> {
    /// Let in and decoded; waiting for exclusive access to the daemon.
    Queued(P),
    /// Holding the daemon's cell while `run` is in flight.
    Running,
    /// Answered. Nothing more happens.
    Closed,
}

/// What the embedding program reports back.
#[derive(Debug, PartialEq, Eq)]
pub enum Event {
    /// Exclusive access to the daemon has been acquired.
    Granted,
    /// The daemon call has ended: its result as JSON text, or a description
    /// of the failure.
    Returned(Result<String, String>),
}

/// What the embedding program is to do next.
#[derive(Debug, PartialEq, Eq)]
pub enum Action<P> {
    /// Wait for exclusive access to the daemon, then report `Granted`.
    Acquire,
    /// Call the daemon's `run` with these parameters, then report `Returned`.
    Run(P),
    /// Give up the daemon's cell, then send this response.
    Release(Response),
    /// Send this response; the daemon's cell was never touched.
    Respond(Response),
    /// The event does not belong to this exchange's state; do nothing.
    Nothing,
}

/// What an `Action` says, with response bodies as sequences of characters.
pub enum Step<P> {
    Acquire,
    Run(P),
    Release(Reply),
    Respond(Reply),
    Nothing,
}

impl<P> View for Action<P> {
    type V = Step<P>;

    open spec fn view(&self) -> Step<P> {
        match *self {
            Action::Acquire => Step::Acquire,
            Action::Run(params) => Step::Run(params),
            Action::Release(response) => Step::Release(response@),
            Action::Respond(response) => Step::Respond(response@),
            Action::Nothing => Step::Nothing,
        }
    }
}

/// How the request handler takes a request in: decoded parameters queue for
/// the daemon unchanged; a query that does not decode is answered at once.
pub open spec fn receive<P>(query: Result<P, String>) -> (Exchange<P>, Step<P>) {
    match query {
        Ok(params) => (Exchange::Queued(params), Step::Acquire),
        Err(reason) => (
            Exchange::Closed,
            Step::Respond(failure_reply(Failure::BadQuery(reason))),
        ),
    }
}

/// The handler behind the auth gate: a request whose credential is accepted
/// is taken in as by `receive`; any other is answered as unauthorized.
pub open spec fn receive_guarded<P>(
    expected: Seq<char>,
    credential: Option<Seq<char>>,
    query: Result<P, String>,
) -> (Exchange<P>, Step<P>) {
    if accepts(expected, credential) {
        receive(query)
    } else {
        (Exchange::Closed, Step::Respond(failure_reply(Failure::Unauthorized)))
    }
}

/// The transition of an exchange on one event.
pub open spec fn next<P>(state: Exchange<P>, event: Event) -> (Exchange<P>, Step<P>) {
    match (state, event) {
        (Exchange::Queued(params), Event::Granted) => (Exchange::Running, Step::Run(params)),
        (Exchange::Running, Event::Returned(outcome)) => (
            Exchange::Closed,
            Step::Release(outcome_reply(outcome)),
        ),
        _ => (state, Step::Nothing),
    }
}

/// Takes a request in without authentication.
pub fn stdin_handler<P>(query: Result<P, String>) -> (begun: (Exchange<P>, Action<P>))
    ensures
        (begun.0, begun.1@) == receive(query),
{
    match query {
        Ok(params) => (Exchange::Queued(params), Action::Acquire),
        Err(reason) => (
            Exchange::Closed,
            Action::Respond(Failure::BadQuery(reason).into_response()),
        ),
    }
}

/// Takes a request in behind the auth gate: `token` is the bearer credential
/// the request presents, `env_token` the configured one.
pub fn auth_stdin_handler<P>(
    env_token: &String,
    query: Result<P, String>,
    token: &Option<String>,
) -> (begun: (Exchange<P>, Action<P>))
    ensures
        (begun.0, begun.1@) == receive_guarded(env_token@, text_view(*token), query),
{
    if !credential_accepted(env_token, token) {
        return (Exchange::Closed, Action::Respond(Failure::Unauthorized.into_response()));
    }
    stdin_handler(query)
}

impl<P> Exchange<P> {
    /// Advances the exchange by one event.
    pub fn step(self, event: Event) -> (moved: (Exchange<P>, Action<P>))
        ensures
            (moved.0, moved.1@) == next(self, event),
    {
        match self {
            Exchange::Queued(params) => match event {
                Event::Granted => (Exchange::Running, Action::Run(params)),
                Event::Returned(_) => (Exchange::Queued(params), Action::Nothing),
            },
            Exchange::Running => match event {
                Event::Returned(outcome) => (
                    Exchange::Closed,
                    Action::Release(Response::from_outcome(outcome)),
                ),
                Event::Granted => (Exchange::Running, Action::Nothing),
            },
            Exchange::Closed => (Exchange::Closed, Action::Nothing),
        }
    }
}

/// The steps an exchange takes along a sequence of events, one per event.
pub open spec fn trace<P>(state: Exchange<P>, events: Seq<Event>) -> Seq<Step<P>>
    decreases events.len(),
{
    if events.len() == 0 {
        Seq::empty()
    } else {
        let (then, step) = next(state, events.first());
        seq![step] + trace(then, events.drop_first())
    }
}

/// The number of times the daemon is called along a sequence of events.
pub open spec fn runs<P>(state: Exchange<P>, events: Seq<Event>) -> nat
    decreases events.len(),
{
    if events.len() == 0 {
        0
    } else {
        let (then, step) = next(state, events.first());
        let called: nat = if step is Run {
            1
        } else {
            0
        };
        called + runs(then, events.drop_first())
    }
}

/// True when a step sends a reply with the given status.
pub open spec fn answers_with<P>(step: Step<P>, status: Status) -> bool {
    match step {
        Step::Release(reply) => reply.status == status,
        Step::Respond(reply) => reply.status == status,
        _ => false,
    }
}

/// The daemon is called only by an exchange that was waiting for the cell
/// and has just been granted it, and with the parameters it was queued with.
pub proof fn law_run_only_when_granted<P>(state: Exchange<P>, event: Event)
    ensures
        next(state, event).1 is Run <==> state is Queued && event is Granted,
        state matches Exchange::Queued(params) ==> next(state, Event::Granted) == (
            Exchange::<P>::Running,
            Step::Run(params),
        ),
{
}

/// The cell is given up as soon as the daemon call ends, whether it
/// succeeded or failed, and the exchange is then closed.
pub proof fn law_release_when_returned<P>(state: Exchange<P>, event: Event)
    ensures
        next(state, event).1 is Release <==> state is Running && event is Returned,
        state is Running && event is Returned ==> next(state, event).0 is Closed,
{
}

/// Once an exchange holds the cell, only the end of the daemon call moves
/// it: it cannot be granted the cell a second time.
pub proof fn law_running_waits_for_return<P>(event: Event)
    ensures
        event is Granted ==> next(Exchange::<P>::Running, event) == (
            Exchange::<P>::Running,
            Step::<P>::Nothing,
        ),
{
}

/// A closed exchange stays closed and never calls the daemon, whatever
/// events follow.
pub proof fn law_closed_is_final<P>(events: Seq<Event>)
    ensures
        runs(Exchange::<P>::Closed, events) == 0,
        trace(Exchange::<P>::Closed, events).len() == events.len(),
        forall|i: int|
            0 <= i < events.len() ==> (#[trigger] trace(Exchange::<P>::Closed, events)[i])
                is Nothing,
    decreases events.len(),
{
    if events.len() > 0 {
        law_closed_is_final::<P>(events.drop_first());
    }
}

/// One request calls the daemon at most once.
pub proof fn law_at_most_one_run<P>(state: Exchange<P>, events: Seq<Event>)
    ensures
        runs(state, events) <= 1,
        !(state is Queued) ==> runs(state, events) == 0,
    decreases events.len(),
{
    if events.len() > 0 {
        let then = next(state, events.first()).0;
        law_at_most_one_run(then, events.drop_first());
    }
}

/// Whatever an exchange answers after it was taken in, it is a success or a
/// daemon failure: never a credential or a decoding failure.
pub proof fn law_handled_requests_end_in_success_or_daemon_failure<P>(
    state: Exchange<P>,
    events: Seq<Event>,
)
    ensures
        trace(state, events).len() == events.len(),
        forall|i: int|
            0 <= i < events.len() ==> !answers_with(
                #[trigger] trace(state, events)[i],
                Status::Unauthorized,
            ) && !answers_with(trace(state, events)[i], Status::BadRequest),
    decreases events.len(),
{
    if events.len() > 0 {
        let then = next(state, events.first()).0;
        law_handled_requests_end_in_success_or_daemon_failure(then, events.drop_first());
    }
}

} // verus!
