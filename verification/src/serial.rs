//! Why daemon calls never overlap.
//!
//! The lock around the daemon belongs to the embedding program. This module
//! describes the whole floor: one service, its requests, and a lock that is
//! granted to one waiting request at a time. Whatever the order in which
//! requests arrive, are granted the lock and see their calls end, a request
//! that follows `Exchange::step` calls the daemon only while it holds the
//! lock, and gives the lock up when the call ends.

use vstd::prelude::*;
use crate::exchange::{next, Event, Exchange};
use crate::server::route;

verus! {

/// One service with the requests it has received so far.
pub struct Floor<P> {
    /// The configured bearer token, if any.
    pub auth_token: Option<Seq<char>>,
    /// The requests, in order of arrival.
    pub exchanges: Seq<Exchange<P>>,
    /// Whether the lock around the daemon is held.
    pub held: bool,
    /// How many requests the handler has taken in.
    pub taken_in: nat,
    /// How many times the daemon has been called.
    pub calls: nat,
}

/// What can happen on the floor.
pub enum Move<P> {
    /// A request arrives, with its `Authorization` header value, if any, and
    /// its decoded query or the reason it does not decode.
    Arrive(Option<Seq<char>>, Result<P, String>),
    /// The lock is granted to the request at this position.
    Grant(int),
    /// The daemon call of the request at this position ends.
    Return(int, Result<String, String>),
}

/// A service that has received nothing yet.
pub open spec fn idle<P>(auth_token: Option<Seq<char>>) -> Floor<P> {
    Floor { auth_token, exchanges: Seq::empty(), held: false, taken_in: 0, calls: 0 }
}

/// Whether a move can happen. The lock is granted only while it is free, and
/// only to a request that waits for it; a call can end only if it is in
/// flight.
pub open spec fn enabled<P>(floor: Floor<P>, step: Move<P>) -> bool {
    match step {
        Move::Arrive(_, _) => true,
        Move::Grant(i) => 0 <= i < floor.exchanges.len() && !floor.held
            && floor.exchanges[i] is Queued,
        Move::Return(i, _) => 0 <= i < floor.exchanges.len() && floor.exchanges[i] is Running,
    }
}

/// The floor after a move. Each request moves as `route` and `next` say; the
/// lock is taken when it is granted and free again when a request's step is
/// `Release`; a call is counted when a request's step is `Run`. A move that
/// cannot happen changes nothing.
pub open spec fn apply<P>(floor: Floor<P>, step: Move<P>) -> Floor<P> {
    if !enabled(floor, step) {
        floor
    } else {
        match step {
            Move::Arrive(authorization, query) => {
                let begun = route(floor.auth_token, authorization, query);
                Floor {
                    exchanges: floor.exchanges.push(begun.0),
                    taken_in: if begun.1 is Acquire {
                        floor.taken_in + 1
                    } else {
                        floor.taken_in
                    },
                    ..floor
                }
            },
            Move::Grant(i) => {
                let moved = next(floor.exchanges[i], Event::Granted);
                Floor {
                    exchanges: floor.exchanges.update(i, moved.0),
                    held: true,
                    calls: if moved.1 is Run {
                        floor.calls + 1
                    } else {
                        floor.calls
                    },
                    ..floor
                }
            },
            Move::Return(i, outcome) => {
                let moved = next(floor.exchanges[i], Event::Returned(outcome));
                Floor {
                    exchanges: floor.exchanges.update(i, moved.0),
                    held: floor.held && !(moved.1 is Release),
                    ..floor
                }
            },
        }
    }
}

/// The floor after a sequence of moves.
pub open spec fn play<P>(floor: Floor<P>, moves: Seq<Move<P>>) -> Floor<P>
    decreases moves.len(),
{
    if moves.len() == 0 {
        floor
    } else {
        apply(play(floor, moves.drop_last()), moves.last())
    }
}

/// The number of requests that wait for the lock.
pub open spec fn waiting<P>(exchanges: Seq<Exchange<P>>) -> nat
    decreases exchanges.len(),
{
    if exchanges.len() == 0 {
        0
    } else {
        let last: nat = if exchanges.last() is Queued {
            1
        } else {
            0
        };
        waiting(exchanges.drop_last()) + last
    }
}

/// The number of requests whose daemon call is in flight.
pub open spec fn in_flight<P>(exchanges: Seq<Exchange<P>>) -> nat
    decreases exchanges.len(),
{
    if exchanges.len() == 0 {
        0
    } else {
        let last: nat = if exchanges.last() is Running {
            1
        } else {
            0
        };
        in_flight(exchanges.drop_last()) + last
    }
}

/// Daemon calls are serialized: at most one is in flight, exactly when the
/// lock is held, and every request that was taken in either still waits or
/// has had its one call.
pub open spec fn serialized<P>(floor: Floor<P>) -> bool {
    &&& in_flight(floor.exchanges) == if floor.held {
        1nat
    } else {
        0nat
    }
    &&& floor.calls + waiting(floor.exchanges) == floor.taken_in
}

proof fn lemma_counts_of_push<P>(exchanges: Seq<Exchange<P>>, arrival: Exchange<P>)
    ensures
        waiting(exchanges.push(arrival)) == waiting(exchanges) + if arrival is Queued {
            1nat
        } else {
            0nat
        },
        in_flight(exchanges.push(arrival)) == in_flight(exchanges) + if arrival is Running {
            1nat
        } else {
            0nat
        },
{
    assert(exchanges.push(arrival).drop_last() =~= exchanges);
}

proof fn lemma_counts_of_update<P>(exchanges: Seq<Exchange<P>>, i: int, moved: Exchange<P>)
    requires
        0 <= i < exchanges.len(),
    ensures
        waiting(exchanges.update(i, moved)) + (if exchanges[i] is Queued {
            1nat
        } else {
            0nat
        }) == waiting(exchanges) + if moved is Queued {
            1nat
        } else {
            0nat
        },
        in_flight(exchanges.update(i, moved)) + (if exchanges[i] is Running {
            1nat
        } else {
            0nat
        }) == in_flight(exchanges) + if moved is Running {
            1nat
        } else {
            0nat
        },
    decreases exchanges.len(),
{
    let updated = exchanges.update(i, moved);
    if i == exchanges.len() - 1 {
        assert(updated.drop_last() =~= exchanges.drop_last());
    } else {
        assert(updated.drop_last() =~= exchanges.drop_last().update(i, moved));
        lemma_counts_of_update(exchanges.drop_last(), i, moved);
    }
}

proof fn lemma_in_flight_bounds<P>(exchanges: Seq<Exchange<P>>, i: int, j: int)
    requires
        0 <= i < j < exchanges.len(),
        exchanges[i] is Running,
        exchanges[j] is Running,
    ensures
        in_flight(exchanges) >= 2,
    decreases exchanges.len(),
{
    if j == exchanges.len() - 1 {
        lemma_in_flight_holds(exchanges.drop_last(), i);
    } else {
        lemma_in_flight_bounds(exchanges.drop_last(), i, j);
    }
}

proof fn lemma_in_flight_holds<P>(exchanges: Seq<Exchange<P>>, i: int)
    requires
        0 <= i < exchanges.len(),
        exchanges[i] is Running,
    ensures
        in_flight(exchanges) >= 1,
    decreases exchanges.len(),
{
    if i < exchanges.len() - 1 {
        lemma_in_flight_holds(exchanges.drop_last(), i);
    }
}

/// No move breaks serialization.
pub proof fn law_moves_keep_calls_serialized<P>(floor: Floor<P>, step: Move<P>)
    requires
        serialized(floor),
    ensures
        serialized(apply(floor, step)),
{
    if enabled(floor, step) {
        match step {
            Move::Arrive(authorization, query) => {
                let begun = route(floor.auth_token, authorization, query);
                lemma_counts_of_push(floor.exchanges, begun.0);
            },
            Move::Grant(i) => {
                let moved = next(floor.exchanges[i], Event::Granted);
                lemma_counts_of_update(floor.exchanges, i, moved.0);
            },
            Move::Return(i, outcome) => {
                let moved = next(floor.exchanges[i], Event::Returned(outcome));
                lemma_counts_of_update(floor.exchanges, i, moved.0);
                lemma_in_flight_holds(floor.exchanges, i);
            },
        }
    }
}

/// From an idle service, every sequence of moves leaves daemon calls
/// serialized: no two requests are ever inside the daemon together, and the
/// lock is held exactly while one is.
pub proof fn law_calls_never_overlap<P>(
    auth_token: Option<Seq<char>>,
    moves: Seq<Move<P>>,
    i: int,
    j: int,
)
    requires
        0 <= i < play(idle::<P>(auth_token), moves).exchanges.len(),
        0 <= j < play(idle::<P>(auth_token), moves).exchanges.len(),
        play(idle::<P>(auth_token), moves).exchanges[i] is Running,
        play(idle::<P>(auth_token), moves).exchanges[j] is Running,
    ensures
        i == j,
        play(idle::<P>(auth_token), moves).held,
{
    let floor = play(idle::<P>(auth_token), moves);
    law_play_keeps_calls_serialized::<P>(auth_token, moves);
    lemma_in_flight_holds(floor.exchanges, i);
    if i < j {
        lemma_in_flight_bounds(floor.exchanges, i, j);
    }
    if j < i {
        lemma_in_flight_bounds(floor.exchanges, j, i);
    }
}

/// From an idle service, every sequence of moves leaves the floor
/// serialized.
pub proof fn law_play_keeps_calls_serialized<P>(auth_token: Option<Seq<char>>, moves: Seq<Move<P>>)
    ensures
        serialized(play(idle::<P>(auth_token), moves)),
    decreases moves.len(),
{
    if moves.len() > 0 {
        law_play_keeps_calls_serialized::<P>(auth_token, moves.drop_last());
        law_moves_keep_calls_serialized(play(idle::<P>(auth_token), moves.drop_last()), moves.last());
    }
}

/// Once every request has been answered, the daemon has been called exactly
/// once for each request that the handler took in, and the lock is free.
pub proof fn law_every_request_taken_in_is_served_once<P>(
    auth_token: Option<Seq<char>>,
    moves: Seq<Move<P>>,
)
    requires
        forall|i: int|
            0 <= i < play(idle::<P>(auth_token), moves).exchanges.len() ==> (#[trigger] play(
                idle::<P>(auth_token),
                moves,
            ).exchanges[i]) is Closed,
    ensures
        play(idle::<P>(auth_token), moves).calls == play(idle::<P>(auth_token), moves).taken_in,
        !play(idle::<P>(auth_token), moves).held,
{
    let floor = play(idle::<P>(auth_token), moves);
    law_play_keeps_calls_serialized::<P>(auth_token, moves);
    lemma_all_closed(floor.exchanges);
}

proof fn lemma_all_closed<P>(exchanges: Seq<Exchange<P>>)
    requires
        forall|i: int| 0 <= i < exchanges.len() ==> (#[trigger] exchanges[i]) is Closed,
    ensures
        waiting(exchanges) == 0,
        in_flight(exchanges) == 0,
    decreases exchanges.len(),
{
    if exchanges.len() > 0 {
        assert forall|i: int| 0 <= i < exchanges.drop_last().len() implies (
        #[trigger] exchanges.drop_last()[i]) is Closed by {
            assert(exchanges.drop_last()[i] == exchanges[i]);
        }
        lemma_all_closed(exchanges.drop_last());
    }
}

} // verus!
