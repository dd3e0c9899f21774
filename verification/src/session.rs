//! A session and the control requests that its holder may issue.

use vstd::prelude::*;
use crate::command::{
    declared_size, ioc_size, lemma_read_message_command, Opcode, READ_MESSAGE,
};
use crate::error::DispatchError;
use crate::message::{lemma_message_len, message_text, Message};
use crate::transfer::{Destination, DestinationView, TransferChannel};

verus! {

/// What a session is, to a contract.
pub struct SessionView {
    /// The message's bytes, the closing zero byte included.
    pub message: Seq<u8>,
    /// The identity of the endpoint that the session was opened on.
    pub endpoint: u64,
}

/// Whether a read request that declares `size` bytes gets `message` into
/// `dest`: the whole message must fit in the declared size and in what the
/// caller's region grants.
pub open spec fn message_fits(message: Seq<u8>, size: usize, dest: DestinationView) -> bool {
    message.len() <= size && dest.grants(message.len())
}

/// The answer to a request with opcode `opcode` and declared size `size` on
/// a session that carries `message`.
pub open spec fn dispatch_reply(
    message: Seq<u8>,
    opcode: u32,
    size: usize,
    dest: DestinationView,
) -> Result<isize, DispatchError> {
    if opcode != READ_MESSAGE {
        Err(DispatchError::UnsupportedOperation)
    } else if !message_fits(message, size, dest) {
        Err(DispatchError::TransferFault)
    } else {
        Ok(0)
    }
}

/// The destination behind that request: it has received the whole message
/// if the request was served, and nothing if it was not.
pub open spec fn after_dispatch(
    message: Seq<u8>,
    opcode: u32,
    size: usize,
    dest: DestinationView,
) -> DestinationView {
    if dispatch_reply(message, opcode, size, dest) is Ok {
        dest.with(message)
    } else {
        dest
    }
}

/// The destination behind the requests of `requests`, each an opcode with
/// its declared size, served in order on a session that carries `message`.
pub open spec fn after_requests(
    message: Seq<u8>,
    requests: Seq<(u32, usize)>,
    dest: DestinationView,
) -> DestinationView
    decreases requests.len(),
{
    if requests.len() == 0 {
        dest
    } else {
        after_dispatch(
            message,
            requests.last().0,
            requests.last().1,
            after_requests(message, requests.drop_last(), dest),
        )
    }
}

/// A request with an opcode other than `READ_MESSAGE` is refused as
/// unsupported, whatever its size and destination, and delivers nothing.
pub proof fn lemma_unsupported_opcode(
    message: Seq<u8>,
    opcode: u32,
    size: usize,
    dest: DestinationView,
)
    requires
        opcode != READ_MESSAGE,
    ensures
        dispatch_reply(message, opcode, size, dest) == Err::<isize, DispatchError>(
            DispatchError::UnsupportedOperation,
        ),
        after_dispatch(message, opcode, size, dest) == dest,
{
}

/// Any number of unsupported requests, one after the other, leave the
/// destination as it was.
pub proof fn lemma_unsupported_requests_deliver_nothing(
    message: Seq<u8>,
    requests: Seq<(u32, usize)>,
    dest: DestinationView,
)
    requires
        forall|i: int| 0 <= i < requests.len() ==> (#[trigger] requests[i]).0 != READ_MESSAGE,
    ensures
        after_requests(message, requests, dest) == dest,
    decreases requests.len(),
{
    if requests.len() > 0 {
        lemma_unsupported_requests_deliver_nothing(message, requests.drop_last(), dest);
    }
}

/// A read request that declares fewer bytes than the message has is refused
/// with `TransferFault` and delivers nothing. The message is not touched: a
/// later read request that the message fits is served with all of it.
pub proof fn lemma_small_buffer_faults(
    message: Seq<u8>,
    size: usize,
    dest: DestinationView,
    later_size: usize,
    later_dest: DestinationView,
)
    requires
        size < message.len(),
        message_fits(message, later_size, later_dest),
    ensures
        dispatch_reply(message, READ_MESSAGE, size, dest) == Err::<isize, DispatchError>(
            DispatchError::TransferFault,
        ),
        after_dispatch(message, READ_MESSAGE, size, dest) == dest,
        dispatch_reply(message, READ_MESSAGE, later_size, later_dest) == Ok::<
            isize,
            DispatchError,
        >(0),
        after_dispatch(message, READ_MESSAGE, later_size, later_dest) == later_dest.with(message),
{
}

/// The size that `READ_MESSAGE` declares holds the message for every 32-bit
/// count, so a request made by that command word is served if and only if
/// the caller's region grants the message's length.
pub proof fn lemma_command_word_declares_enough(n: int, dest: DestinationView)
    requires
        i32::MIN <= n <= i32::MAX,
    ensures
        dispatch_reply(message_text(n), READ_MESSAGE, declared_size(READ_MESSAGE), dest) == if dest.grants(
            message_text(n).len(),
        ) {
            Ok::<isize, DispatchError>(0)
        } else {
            Err::<isize, DispatchError>(DispatchError::TransferFault)
        },
{
    lemma_message_len(n);
    lemma_read_message_command();
}

/// The state of one open-to-close episode. Its message is fixed when it is
/// opened; nothing that a session offers changes it.
#[derive(Debug)]
pub struct Session {
    message: Message,
    endpoint: u64,
}

impl View for Session {
    type V = SessionView;

    closed spec fn view(&self) -> SessionView {
        SessionView { message: self.message@, endpoint: self.endpoint }
    }
}

impl Session {
    pub(crate) fn new(message: Message, endpoint: u64) -> (session: Self)
        ensures
            session@ == (SessionView { message: message@, endpoint }),
    {
        Session { message, endpoint }
    }

    /// The session's message.
    pub fn message(&self) -> (message: &Message)
        ensures
            message@ == self@.message,
    {
        &self.message
    }

    /// The identity of the endpoint that the session was opened on.
    pub fn endpoint(&self) -> (endpoint: u64)
        ensures
            endpoint == self@.endpoint,
    {
        self.endpoint
    }

    /// Serves one control request. An opcode other than `READ_MESSAGE` is
    /// refused as unsupported and nothing is written. For `READ_MESSAGE` the
    /// whole message, closing zero byte included, goes through a transfer
    /// channel of the declared size: the reply is `Ok(0)` if the channel
    /// delivered it, and the channel's fault if it did not.
    pub fn dispatch(&self, opcode: u32, size: usize, dest: &mut Destination) -> (reply: Result<
        isize,
        DispatchError,
    >)
        ensures
            reply == dispatch_reply(self@.message, opcode, size, old(dest)@),
            final(dest)@ == after_dispatch(self@.message, opcode, size, old(dest)@),
    {
        match Opcode::decode(opcode) {
            Some(Opcode::ReadMessage) => {
                let mut channel = TransferChannel::new(size);
                match channel.write_slice(dest, self.message.as_bytes_with_nul()) {
                    Ok(_) => Ok(0),
                    Err(fault) => Err(fault),
                }
            },
            None => Err(DispatchError::UnsupportedOperation),
        }
    }

    /// Serves the request that a command word encodes: the word is the
    /// opcode, and the size it declares is the size field packed in it.
    pub fn ioctl(&self, cmd: u32, dest: &mut Destination) -> (reply: Result<isize, DispatchError>)
        ensures
            reply == dispatch_reply(self@.message, cmd, declared_size(cmd), old(dest)@),
            final(dest)@ == after_dispatch(self@.message, cmd, declared_size(cmd), old(dest)@),
    {
        let size: usize = ioc_size(cmd);
        self.dispatch(cmd, size, dest)
    }
}

} // verus!
