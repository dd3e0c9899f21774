//! Histories of one service: what holds of every sequence of calls.
//!
//! Callers may race. Each entry point takes the service by exclusive
//! reference, so whatever the callers do amounts to some sequence of calls,
//! one after the other. What is proved here of every sequence therefore holds
//! of every interleaving.

use vstd::prelude::*;
use crate::command::READ_MESSAGE;
use crate::error::{DispatchError, OpenError};
use crate::message::message_text;
use crate::service::ServiceState;
use crate::session::{after_dispatch, dispatch_reply, SessionView};
use crate::transfer::DestinationView;

verus! {

/// One call on the service or on its live session.
pub enum Event {
    /// An attempt to open a session for `endpoint`; `stored` says whether
    /// there was memory for the message.
    Open { endpoint: u64, stored: bool },
    /// A control request on the live session.
    Request { opcode: u32, size: usize },
    /// The teardown of the live session.
    Close,
}

/// The state that `event` leaves behind `pre`. A request reaches the session
/// and its destination only, so it leaves the service as it was.
pub open spec fn step(pre: ServiceState, event: Event) -> ServiceState {
    match event {
        Event::Open { endpoint, stored } => pre.after_open(stored),
        Event::Request { opcode, size } => pre,
        Event::Close => pre.after_close(),
    }
}

/// Whether `event`, met in state `pre`, hands out a session.
pub open spec fn wins(pre: ServiceState, event: Event) -> bool {
    match event {
        Event::Open { endpoint, stored } => pre.open_reply(endpoint, stored) is Ok,
        Event::Request { opcode, size } => false,
        Event::Close => false,
    }
}

/// Whether `event`, met in state `pre`, ends a live session.
pub open spec fn ends(pre: ServiceState, event: Event) -> bool {
    event is Close && pre.live
}

/// The state behind the events of `events`, in order, from `start`.
pub open spec fn run(start: ServiceState, events: Seq<Event>) -> ServiceState
    decreases events.len(),
{
    if events.len() == 0 {
        start
    } else {
        step(run(start, events.drop_last()), events.last())
    }
}

/// The number of sessions handed out along `events` from `start`.
pub open spec fn sessions_opened(start: ServiceState, events: Seq<Event>) -> nat
    decreases events.len(),
{
    if events.len() == 0 {
        0
    } else {
        let before = events.drop_last();
        sessions_opened(start, before) + if wins(run(start, before), events.last()) {
            1nat
        } else {
            0nat
        }
    }
}

/// The number of live sessions ended along `events` from `start`.
pub open spec fn sessions_closed(start: ServiceState, events: Seq<Event>) -> nat
    decreases events.len(),
{
    if events.len() == 0 {
        0
    } else {
        let before = events.drop_last();
        sessions_closed(start, before) + if ends(run(start, before), events.last()) {
            1nat
        } else {
            0nat
        }
    }
}

/// `n` rounds of opening a session, with memory at hand, and closing it.
pub open spec fn cycles(n: nat) -> Seq<Event>
    decreases n,
{
    if n == 0 {
        Seq::empty()
    } else {
        cycles((n - 1) as nat).push(Event::Open { endpoint: 0, stored: true }).push(Event::Close)
    }
}

/// A history can be cut anywhere: what lies behind the cut runs from the
/// state that the part before it left.
pub proof fn lemma_run_split(start: ServiceState, first: Seq<Event>, second: Seq<Event>)
    ensures
        run(start, first + second) == run(run(start, first), second),
    decreases second.len(),
{
    if second.len() == 0 {
        assert(first + second =~= first);
    } else {
        lemma_run_split(start, first, second.drop_last());
        assert((first + second).drop_last() =~= first + second.drop_last());
    }
}

/// The counter counts the sessions handed out: along every history it rises
/// by exactly their number. Refused and failed attempts, requests and
/// teardowns do not move it.
pub proof fn lemma_counter_counts_sessions(start: ServiceState, events: Seq<Event>)
    ensures
        run(start, events).opened == start.opened + sessions_opened(start, events),
    decreases events.len(),
{
    if events.len() > 0 {
        lemma_counter_counts_sessions(start, events.drop_last());
    }
}

/// At every instant the sessions handed out and not yet torn down number one
/// if the flag is set and none if it is clear: never two.
pub proof fn lemma_one_session_at_a_time(events: Seq<Event>)
    ensures
        sessions_opened(ServiceState::initial(), events) - sessions_closed(
            ServiceState::initial(),
            events,
        ) == if run(ServiceState::initial(), events).live {
            1int
        } else {
            0int
        },
    decreases events.len(),
{
    if events.len() > 0 {
        lemma_one_session_at_a_time(events.drop_last());
    }
}

/// While a session is live, an attempt to open another is refused as `Busy`
/// and leaves the service as it was, counter included.
pub proof fn lemma_loser_is_busy(pre: ServiceState, endpoint: u64, stored: bool)
    requires
        pre.live,
    ensures
        pre.open_reply(endpoint, stored) == Err::<SessionView, OpenError>(OpenError::Busy),
        pre.after_open(stored) == pre,
{
}

/// Attempts to open that meet a live session change nothing, however many.
pub proof fn lemma_attempts_on_live_service(start: ServiceState, attempts: Seq<Event>)
    requires
        start.live,
        forall|i: int| 0 <= i < attempts.len() ==> #[trigger] attempts[i] is Open,
    ensures
        run(start, attempts) == start,
        sessions_opened(start, attempts) == 0,
    decreases attempts.len(),
{
    if attempts.len() > 0 {
        lemma_attempts_on_live_service(start, attempts.drop_last());
    }
}

/// Of any number of attempts to open with no teardown between them, at most
/// one is handed a session, and none where a session was live before.
pub proof fn lemma_at_most_one_winner(start: ServiceState, attempts: Seq<Event>)
    requires
        forall|i: int| 0 <= i < attempts.len() ==> #[trigger] attempts[i] is Open,
    ensures
        sessions_opened(start, attempts) <= 1,
        start.live ==> sessions_opened(start, attempts) == 0,
        sessions_opened(start, attempts) == 1 ==> run(start, attempts).live,
    decreases attempts.len(),
{
    if start.live {
        lemma_attempts_on_live_service(start, attempts);
    } else if attempts.len() > 0 {
        lemma_at_most_one_winner(start, attempts.drop_last());
    }
}

/// Once one attempt has won, every later attempt of the same burst is
/// refused as `Busy` and finds and leaves the counter where the winner put
/// it.
pub proof fn lemma_later_attempts_lose(
    start: ServiceState,
    attempts: Seq<Event>,
    winner: int,
    later: int,
)
    requires
        forall|i: int| 0 <= i < attempts.len() ==> #[trigger] attempts[i] is Open,
        0 <= winner < later < attempts.len(),
        wins(run(start, attempts.take(winner)), attempts[winner]),
    ensures
        ({
            let met = run(start, attempts.take(later));
            &&& met == run(start, attempts.take(winner + 1))
            &&& attempts[later] matches Event::Open { endpoint, stored }
            &&& met.open_reply(endpoint, stored) == Err::<SessionView, OpenError>(OpenError::Busy)
            &&& step(met, attempts[later]) == met
        }),
{
    let head = attempts.take(winner + 1);
    let between = attempts.subrange(winner + 1, later);
    assert(head.drop_last() =~= attempts.take(winner));
    assert(head.last() == attempts[winner]);
    let won = run(start, head);
    assert(won.live);
    assert(attempts.take(later) =~= head + between);
    lemma_run_split(start, head, between);
    lemma_attempts_on_live_service(won, between);
}

/// The session opened after `k - 1` others carries the message for `k`,
/// whatever else the history holds.
pub proof fn lemma_next_session_embeds_its_number(events: Seq<Event>, endpoint: u64)
    requires
        !run(ServiceState::initial(), events).live,
    ensures
        run(ServiceState::initial(), events).open_reply(endpoint, true) == Ok::<
            SessionView,
            OpenError,
        >(
            SessionView {
                message: message_text(
                    sessions_opened(ServiceState::initial(), events) as int + 1,
                ),
                endpoint,
            },
        ),
{
    lemma_counter_counts_sessions(ServiceState::initial(), events);
}

/// After `n` rounds of open and close on a fresh service no session is live
/// and the counter stands at `n`, so the open of round `n + 1` carries the
/// message for `n + 1`.
pub proof fn lemma_cycles(n: nat, endpoint: u64)
    ensures
        run(ServiceState::initial(), cycles(n)) == (ServiceState { live: false, opened: n as int }),
        sessions_opened(ServiceState::initial(), cycles(n)) == n,
        run(ServiceState::initial(), cycles(n)).open_reply(endpoint, true) == Ok::<
            SessionView,
            OpenError,
        >(SessionView { message: message_text(n as int + 1), endpoint }),
    decreases n,
{
    let start = ServiceState::initial();
    if n > 0 {
        lemma_cycles((n - 1) as nat, endpoint);
        let before = cycles((n - 1) as nat);
        let opened = before.push(Event::Open { endpoint: 0, stored: true });
        assert(opened.drop_last() =~= before);
        assert(cycles(n).drop_last() =~= opened);
        assert(run(start, opened) == (ServiceState { live: true, opened: n as int }));
        assert(sessions_opened(start, opened) == n);
    }
}

/// An attempt that wins the guard and then finds no memory leaves nothing
/// behind: it fails with `AllocationFailure`, the service is as it was before
/// the attempt, and the next attempt that has memory is handed a session.
pub proof fn lemma_failed_open_leaves_no_trace(pre: ServiceState, endpoint: u64, next: u64)
    requires
        !pre.live,
    ensures
        pre.open_reply(endpoint, false) == Err::<SessionView, OpenError>(
            OpenError::AllocationFailure,
        ),
        pre.after_open(false) == pre,
        pre.after_open(false).open_reply(next, true) is Ok,
{
}

/// A session opened when the counter is about to become `pre.opened + 1`
/// gives exactly the message for that count to a read request that the
/// message fits: all of its bytes up to and with the closing zero byte, and
/// no more.
pub proof fn lemma_read_returns_message(pre: ServiceState, endpoint: u64, size: usize, room: nat)
    requires
        !pre.live,
        message_text(pre.opened + 1).len() <= size,
        message_text(pre.opened + 1).len() <= room,
    ensures
        ({
            let dest = DestinationView { room, received: Seq::empty() };
            &&& pre.open_reply(endpoint, true) matches Ok(session)
            &&& dispatch_reply(session.message, READ_MESSAGE, size, dest) == Ok::<
                isize,
                DispatchError,
            >(0)
            &&& after_dispatch(session.message, READ_MESSAGE, size, dest).received
                == message_text(pre.opened + 1)
        }),
{
    let dest = DestinationView { room, received: Seq::empty() };
    let message = message_text(pre.opened + 1);
    assert(dest.with(message).received =~= message);
}

/// Requests leave the service as it was, however many and whatever their
/// opcodes: none moves the counter or the flag.
pub proof fn lemma_requests_leave_service(start: ServiceState, requests: Seq<Event>)
    requires
        forall|i: int| 0 <= i < requests.len() ==> #[trigger] requests[i] is Request,
    ensures
        run(start, requests) == start,
        sessions_opened(start, requests) == 0,
    decreases requests.len(),
{
    if requests.len() > 0 {
        lemma_requests_leave_service(start, requests.drop_last());
    }
}

} // verus!
