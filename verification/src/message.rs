//! The greeting that a session carries.

use vstd::prelude::*;
use vstd::string::*;
use crate::decimal::{
    decimal_text, lemma_decimal_text_injective, lemma_numeral_is_digits, lemma_numeral_len_u32,
    numeral, push_decimal,
};

verus! {

/// The greeting's bytes before the count.
pub open spec fn greeting_head() -> Seq<u8> {
    "I already told you ".spec_bytes()
}

/// The greeting's bytes behind the count.
pub open spec fn greeting_tail() -> Seq<u8> {
    " times Hello world!\n".spec_bytes()
}

/// The message for count `n`: the greeting with the decimal text of `n` in
/// it, closed by one zero byte.
pub open spec fn message_text(n: int) -> Seq<u8> {
    greeting_head() + decimal_text(n) + greeting_tail() + seq![0u8]
}

/// Appends `data` to `out`.
fn push_bytes(out: &mut Vec<u8>, data: &[u8])
    ensures
        final(out)@ == old(out)@ + data@,
{
    out.extend_from_slice(data);
    assert(out@ =~= old(out)@ + data@);
}

/// The most bytes that the message for a 32-bit count takes, the closing
/// zero included.
pub const MESSAGE_CAPACITY: usize = 51;

/// The greeting's fixed parts are nineteen and twenty ASCII bytes, none of
/// them zero.
pub proof fn lemma_greeting_bytes()
    ensures
        greeting_head().len() == 19,
        greeting_tail().len() == 20,
        forall|i: int| 0 <= i < 19 ==> 0 < #[trigger] greeting_head()[i] < 128,
        forall|i: int| 0 <= i < 20 ==> 0 < #[trigger] greeting_tail()[i] < 128,
{
    reveal_strlit("I already told you ");
    reveal_strlit(" times Hello world!\n");
    let head = "I already told you ";
    let tail = " times Hello world!\n";
    assert(is_ascii(head));
    assert(is_ascii(tail));
    is_ascii_spec_bytes(head);
    is_ascii_spec_bytes(tail);
}

/// A message is never longer than `MESSAGE_CAPACITY` where the count fits in
/// 32 bits.
pub proof fn lemma_message_len(n: int)
    requires
        i32::MIN <= n <= i32::MAX,
    ensures
        41 <= message_text(n).len() <= MESSAGE_CAPACITY,
{
    lemma_greeting_bytes();
    lemma_numeral_is_digits((if n < 0 { -n } else { n }) as nat);
    lemma_numeral_len_u32((if n < 0 { -n } else { n }) as nat);
}

/// Whether `bytes` end in their only zero byte.
pub open spec fn is_terminated(bytes: Seq<u8>) -> bool {
    &&& bytes.len() >= 1
    &&& bytes.last() == 0
    &&& forall|i: int| 0 <= i < bytes.len() - 1 ==> #[trigger] bytes[i] != 0
}

/// A message ends in its only zero byte.
pub proof fn lemma_message_terminated(n: int)
    ensures
        is_terminated(message_text(n)),
{
    lemma_greeting_bytes();
    let magnitude = (if n < 0 { -n } else { n }) as nat;
    lemma_numeral_is_digits(magnitude);
    let text = decimal_text(n);
    assert forall|i: int| 0 <= i < text.len() implies #[trigger] text[i] != 0 by {
        if n < 0 && i > 0 {
            assert(text[i] == numeral(magnitude)[i - 1]);
        }
    }
    let k = text.len() as int;
    assert forall|i: int| 0 <= i < message_text(n).len() - 1 implies #[trigger] message_text(
        n,
    )[i] != 0 by {
        if i < 19 {
            assert(message_text(n)[i] == greeting_head()[i]);
        } else if i < 19 + k {
            assert(message_text(n)[i] == text[i - 19]);
        } else {
            assert(message_text(n)[i] == greeting_tail()[i - 19 - k]);
        }
    }
}

/// The count can be read off a message: two messages agree only where their
/// counts do.
pub proof fn lemma_message_embeds_count(a: int, b: int)
    requires
        message_text(a) == message_text(b),
    ensures
        a == b,
{
    lemma_greeting_bytes();
    let ta = decimal_text(a);
    let tb = decimal_text(b);
    assert(message_text(a).len() == 40 + ta.len());
    assert(message_text(b).len() == 40 + tb.len());
    assert(ta =~= message_text(a).subrange(19, 19 + ta.len() as int));
    assert(tb =~= message_text(b).subrange(19, 19 + tb.len() as int));
    lemma_decimal_text_injective(a, b);
}

/// A session's message: the bytes that a read request hands out, the closing
/// zero byte included. It is fixed when the session is opened.
#[derive(Debug)]
pub struct Message {
    bytes: Vec<u8>,
}

impl View for Message {
    type V = Seq<u8>;

    closed spec fn view(&self) -> Seq<u8> {
        self.bytes@
    }
}

impl Message {
    #[verifier::type_invariant]
    spec fn is_rendered(&self) -> bool {
        exists|n: int| i32::MIN <= n <= i32::MAX && self.bytes@ == message_text(n)
    }

    /// Writes the message for count `n` into `storage`, whose former content
    /// is discarded.
    pub fn render(n: i32, storage: Vec<u8>) -> (message: Message)
        ensures
            message@ == message_text(n as int),
    {
        let mut bytes = storage;
        bytes.clear();
        push_bytes(&mut bytes, "I already told you ".as_bytes());
        push_decimal(&mut bytes, n);
        push_bytes(&mut bytes, " times Hello world!\n".as_bytes());
        bytes.push(0u8);
        assert(bytes@ =~= message_text(n as int));
        Message { bytes }
    }

    /// The message's bytes, the closing zero byte included.
    pub fn as_bytes_with_nul(&self) -> (bytes: &[u8])
        ensures
            bytes@ == self@,
            is_terminated(bytes@),
    {
        proof {
            use_type_invariant(self);
            let n = choose|n: int| i32::MIN <= n <= i32::MAX && self.bytes@ == message_text(n);
            lemma_message_terminated(n);
        }
        self.bytes.as_slice()
    }

    /// The number of bytes, the closing zero byte included.
    pub fn len(&self) -> (len: usize)
        ensures
            len == self@.len(),
            41 <= len <= MESSAGE_CAPACITY,
    {
        proof {
            use_type_invariant(self);
            let n = choose|n: int| i32::MIN <= n <= i32::MAX && self.bytes@ == message_text(n);
            lemma_message_len(n);
        }
        self.bytes.len()
    }
}

} // verus!
