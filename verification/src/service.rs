//! The endpoint's shared state and its two entry points, open and close.

use vstd::prelude::*;
use crate::error::OpenError;
use crate::generator::{reserve_storage, CounterMessageGenerator};
use crate::guard::ExclusiveSessionGuard;
use crate::message::message_text;
use crate::session::{Session, SessionView};

verus! {

/// What a service is, to a contract.
pub struct ServiceState {
    /// Whether a session is live.
    pub live: bool,
    /// The counter: the number of sessions opened so far.
    pub opened: int,
}

impl ServiceState {
    /// The state of a service that has just started.
    pub open spec fn initial() -> ServiceState {
        ServiceState { live: false, opened: 0 }
    }

    /// The state behind an attempt to open a session, where `stored` says
    /// whether there was memory for the message. Only an attempt that finds
    /// no live session and has memory changes anything: the session becomes
    /// live and the counter goes up by one.
    pub open spec fn after_open(self, stored: bool) -> ServiceState {
        if self.live || !stored {
            self
        } else {
            ServiceState { live: true, opened: self.opened + 1 }
        }
    }

    /// The answer to that attempt, made for the endpoint `endpoint`.
    pub open spec fn open_reply(self, endpoint: u64, stored: bool) -> Result<
        SessionView,
        OpenError,
    > {
        if self.live {
            Err(OpenError::Busy)
        } else if !stored {
            Err(OpenError::AllocationFailure)
        } else {
            Ok(SessionView { message: message_text(self.opened + 1), endpoint })
        }
    }

    /// The state behind the teardown of a session.
    pub open spec fn after_close(self) -> ServiceState {
        ServiceState { live: false, opened: self.opened }
    }
}

/// An answer to an open attempt as contracts see it: the session by its view.
pub open spec fn reply_view(reply: Result<Session, OpenError>) -> Result<SessionView, OpenError> {
    match reply {
        Ok(session) => Ok(session@),
        Err(error) => Err(error),
    }
}

/// The state that all callers of one endpoint share: the exclusivity flag
/// and the counter. It is made once, when the service starts, and handed to
/// every entry point.
#[derive(Debug)]
pub struct Service {
    guard: ExclusiveSessionGuard,
    generator: CounterMessageGenerator,
}

impl View for Service {
    type V = ServiceState;

    closed spec fn view(&self) -> ServiceState {
        ServiceState { live: self.guard@, opened: self.generator.count() }
    }
}

impl Service {
    /// A service with no live session that has opened none.
    pub fn new() -> (service: Self)
        ensures
            service@ == ServiceState::initial(),
    {
        Service { guard: ExclusiveSessionGuard::new(), generator: CounterMessageGenerator::new() }
    }

    /// Whether a session is live.
    pub fn is_open(&self) -> (live: bool)
        ensures
            live == self@.live,
    {
        self.guard.is_held()
    }

    /// The number of sessions opened so far.
    pub fn counter(&self) -> (opened: i32)
        ensures
            opened == self@.opened,
            opened >= 0,
    {
        self.generator.counter()
    }

    /// Finishes an open attempt that has won the guard. With a message the
    /// session is made; without, the guard is given back.
    fn settle(&mut self, endpoint: u64, storage: Option<Vec<u8>>) -> (reply: Result<
        Session,
        OpenError,
    >)
        requires
            old(self)@.live,
            old(self)@.opened < i32::MAX,
        ensures
            final(self)@ == (ServiceState { live: false, ..old(self)@ }).after_open(storage is Some),
            reply_view(reply) == (ServiceState { live: false, ..old(self)@ }).open_reply(
                endpoint,
                storage is Some,
            ),
    {
        match self.generator.next_message_into(storage) {
            Ok(message) => Ok(Session::new(message, endpoint)),
            Err(error) => {
                self.guard.release();
                Err(error)
            },
        }
    }

    /// Opens a session for the endpoint `endpoint`, with the storage that the
    /// caller obtained for the message, or `None` where none could be had.
    ///
    /// While a session is live the attempt is refused as `Busy`. Else, without
    /// storage it fails with `AllocationFailure`. In both cases the service is
    /// left as it was: the guard is not held on to and the counter has not
    /// moved. Else the counter goes up by one and the session carries the
    /// message for the new count.
    pub fn open_into(&mut self, endpoint: u64, storage: Option<Vec<u8>>) -> (reply: Result<
        Session,
        OpenError,
    >)
        requires
            !old(self)@.live ==> old(self)@.opened < i32::MAX,
        ensures
            final(self)@ == old(self)@.after_open(storage is Some),
            reply_view(reply) == old(self)@.open_reply(endpoint, storage is Some),
    {
        if !self.guard.acquire() {
            return Err(OpenError::Busy);
        }
        self.settle(endpoint, storage)
    }

    /// Opens a session for the endpoint `endpoint`.
    ///
    /// While a session is live the attempt is refused as `Busy`, before any
    /// memory is asked for. Else memory for the message is asked of the
    /// allocator, and the attempt ends as `open_into` does with what the
    /// allocator gave: it succeeds if and only if there was memory.
    pub fn open(&mut self, endpoint: u64) -> (reply: Result<Session, OpenError>)
        requires
            !old(self)@.live ==> old(self)@.opened < i32::MAX,
        ensures
            final(self)@ == old(self)@.after_open(reply is Ok),
            reply_view(reply) == old(self)@.open_reply(endpoint, reply is Ok),
    {
        if !self.guard.acquire() {
            return Err(OpenError::Busy);
        }
        let storage = reserve_storage();
        self.settle(endpoint, storage)
    }

    /// Tears the session down: the guard is released, whatever state the
    /// service was in, and the counter stays.
    pub fn close(&mut self, session: Session)
        ensures
            final(self)@ == old(self)@.after_close(),
    {
        self.guard.release();
    }
}

} // verus!
