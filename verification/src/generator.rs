//! The counter of opened sessions and the messages it numbers.

use vstd::prelude::*;
use crate::error::OpenError;
use crate::message::{message_text, Message, MESSAGE_CAPACITY};

verus! {

/// Asks the allocator for the room that one message takes. `None` says that
/// it had none to give.
pub fn reserve_storage() -> (storage: Option<Vec<u8>>)
    ensures
        storage matches Some(bytes) ==> bytes@.len() == 0,
{
    let mut bytes: Vec<u8> = Vec::new();
    match bytes.try_reserve(MESSAGE_CAPACITY) {
        Ok(_) => Some(bytes),
        Err(_) => None,
    }
}

/// Counts the sessions that were opened and renders each one's message.
#[derive(Debug)]
pub struct CounterMessageGenerator {
    counter: i32,
}

impl CounterMessageGenerator {
    #[verifier::type_invariant]
    spec fn never_negative(&self) -> bool {
        self.counter >= 0
    }

    /// The number of messages generated so far.
    pub closed spec fn count(&self) -> int {
        self.counter as int
    }

    /// A generator that has produced nothing yet.
    pub fn new() -> (generator: Self)
        ensures
            generator.count() == 0,
    {
        CounterMessageGenerator { counter: 0 }
    }

    /// The number of messages generated so far.
    pub fn counter(&self) -> (count: i32)
        ensures
            count == self.count(),
            count >= 0,
    {
        proof {
            use_type_invariant(self);
        }
        self.counter
    }

    /// Generates the next message in the storage given. With storage, the
    /// counter goes up by one and the message embeds the new count. Without,
    /// the counter stays and the failure to allocate is reported.
    pub fn next_message_into(&mut self, storage: Option<Vec<u8>>) -> (generated: Result<
        Message,
        OpenError,
    >)
        requires
            old(self).count() < i32::MAX,
        ensures
            match generated {
                Ok(message) => {
                    &&& storage is Some
                    &&& message@ == message_text(old(self).count() + 1)
                    &&& final(self).count() == old(self).count() + 1
                },
                Err(error) => {
                    &&& storage is None
                    &&& error == OpenError::AllocationFailure
                    &&& final(self).count() == old(self).count()
                },
            },
    {
        proof {
            use_type_invariant(&*self);
        }
        match storage {
            Some(bytes) => {
                let next: i32 = self.counter + 1;
                let message = Message::render(next, bytes);
                self.counter = next;
                Ok(message)
            },
            None => Err(OpenError::AllocationFailure),
        }
    }

    /// Generates the next message in storage of its own. If the allocator
    /// gives none, the counter stays and the failure is reported; else the
    /// counter goes up by one and the message embeds the new count.
    pub fn next_message(&mut self) -> (generated: Result<Message, OpenError>)
        requires
            old(self).count() < i32::MAX,
        ensures
            match generated {
                Ok(message) => {
                    &&& message@ == message_text(old(self).count() + 1)
                    &&& final(self).count() == old(self).count() + 1
                },
                Err(error) => {
                    &&& error == OpenError::AllocationFailure
                    &&& final(self).count() == old(self).count()
                },
            },
    {
        let storage = reserve_storage();
        self.next_message_into(storage)
    }
}

} // verus!
