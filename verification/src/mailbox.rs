//! The mailbox: a 4096-byte segment whose first four bytes name the producer
//! (little-endian) and whose remaining 4092 bytes carry the message, ended by
//! the first NUL byte or else by the end of the field.

use vstd::prelude::*;
use vstd::slice::*;
use vstd::utf8::*;
use crate::text::decode_text;
use crate::winapi::{DBWinBuffer, BUF_SIZE, PAYLOAD_SIZE};

verus! {

/// The number that four bytes spell in little-endian order.
pub open spec fn le_u32(bytes: Seq<u8>) -> int
    recommends
        bytes.len() == 4,
{
    bytes[0] + 0x100 * bytes[1] + 0x1_0000 * bytes[2] + 0x100_0000 * bytes[3]
}

/// Length of the message held by a payload field: the index of its first
/// NUL byte, or the length of the field if it holds none.
pub open spec fn payload_len(field: Seq<u8>) -> nat
    decreases field.len(),
{
    if field.len() == 0 || field[0] == 0 {
        0
    } else {
        1 + payload_len(field.drop_first())
    }
}

/// The message bytes held by a payload field. Whatever follows the first
/// NUL is no part of them.
pub open spec fn payload(field: Seq<u8>) -> Seq<u8> {
    field.take(payload_len(field) as int)
}

/// The message held by a payload field as text, where its bytes are text.
pub open spec fn message_text(field: Seq<u8>) -> Option<Seq<char>> {
    if valid_utf8(payload(field)) {
        Some(decode_utf8(payload(field)))
    } else {
        None
    }
}

/// `payload_len` is the one position that ends the message: no NUL before
/// it, and a NUL at it unless it is the end of the field.
pub proof fn lemma_payload_len(field: Seq<u8>)
    ensures
        payload_len(field) <= field.len(),
        forall|i: int| 0 <= i < payload_len(field) ==> field[i] != 0,
        payload_len(field) < field.len() ==> field[payload_len(field) as int] == 0,
    decreases field.len(),
{
    if field.len() == 0 || field[0] == 0 {
    } else {
        let rest = field.drop_first();
        lemma_payload_len(rest);
        assert forall|i: int| 0 <= i < payload_len(field) implies field[i] != 0 by {
            if i > 0 {
                assert(field[i] == rest[i - 1]);
            }
        }
    }
}

/// A position with no NUL before it, and with a NUL at it unless it is the
/// end of the field, is `payload_len`.
pub proof fn lemma_payload_len_unique(field: Seq<u8>, len: int)
    requires
        0 <= len <= field.len(),
        forall|i: int| 0 <= i < len ==> field[i] != 0,
        len < field.len() ==> field[len] == 0,
    ensures
        payload_len(field) == len,
{
    lemma_payload_len(field);
}

/// A message that holds no NUL byte, is well-formed UTF-8 and is followed in
/// the field by a NUL byte is read back exactly: the payload is the message,
/// byte for byte, and its text encodes to those same bytes. In a field of
/// 4092 bytes this covers every such message of up to 4091 bytes.
pub proof fn lemma_terminated_message_round_trip(field: Seq<u8>, message: Seq<u8>)
    requires
        message.len() < field.len(),
        forall|i: int| 0 <= i < message.len() ==> message[i] != 0,
        valid_utf8(message),
        field.take(message.len() as int) == message,
        field[message.len() as int] == 0,
    ensures
        payload(field) == message,
        message_text(field) == Some(decode_utf8(message)),
        encode_utf8(decode_utf8(message)) == message,
{
    assert forall|i: int| 0 <= i < message.len() implies field[i] != 0 by {
        assert(field[i] == field.take(message.len() as int)[i]);
    }
    lemma_payload_len_unique(field, message.len() as int);
    decode_utf8_encode_utf8(message);
}

/// A field that holds no NUL byte is one message from its first byte to its
/// last: nothing is cut off, and where the field is well-formed UTF-8 the
/// message is its text.
pub proof fn lemma_unterminated_message_fills_field(field: Seq<u8>)
    requires
        forall|i: int| 0 <= i < field.len() ==> field[i] != 0,
    ensures
        payload(field) == field,
        valid_utf8(field) ==> message_text(field) == Some(decode_utf8(field)),
{
    lemma_payload_len_unique(field, field.len() as int);
}

/// What follows the first NUL byte does not count: two fields of one length
/// that agree up to and including the end of the message of the first hold
/// the same message.
pub proof fn lemma_bytes_after_terminator_are_ignored(field: Seq<u8>, other: Seq<u8>)
    requires
        field.len() == other.len(),
        forall|i: int|
            0 <= i <= payload_len(field) && i < field.len() ==> #[trigger] field[i] == other[i],
    ensures
        payload(other) == payload(field),
        message_text(other) == message_text(field),
{
    lemma_payload_len(field);
    let len = payload_len(field) as int;
    assert forall|i: int| 0 <= i < len implies other[i] != 0 by {
        assert(field[i] == other[i]);
    }
    lemma_payload_len_unique(other, len);
}

impl DBWinBuffer {
    /// Reads a mailbox segment: bytes 0 to 3 are the producer's identifier
    /// in little-endian order, bytes 4 to 4095 the payload field.
    pub fn from_segment(segment: &[u8; BUF_SIZE]) -> (mailbox: DBWinBuffer)
        ensures
            mailbox.process_id == le_u32(segment@.subrange(0, 4)),
            mailbox.data@ == segment@.subrange(4, BUF_SIZE as int),
    {
        let process_id: u32 = (segment[0] as u32) + 0x100 * (segment[1] as u32)
            + 0x1_0000 * (segment[2] as u32) + 0x100_0000 * (segment[3] as u32);
        let mut data = [0u8; PAYLOAD_SIZE];
        let mut i: usize = 0;
        while i < PAYLOAD_SIZE
            invariant
                i <= PAYLOAD_SIZE,
                forall|j: int| 0 <= j < i ==> data@[j] == segment@[j + 4],
            decreases PAYLOAD_SIZE - i,
        {
            data[i] = segment[i + 4];
            i += 1;
        }
        DBWinBuffer { process_id, data }
    }

    /// Identifier of the process that posted the message.
    pub fn producer_id(&self) -> (id: u32)
        ensures
            id == self.process_id,
    {
        self.process_id
    }

    /// The message bytes: the payload field up to its first NUL byte, or the
    /// whole field if it holds none.
    pub fn payload_slice(&self) -> (bytes: &[u8])
        ensures
            bytes@ == payload(self.data@),
    {
        let mut len: usize = 0;
        while len < PAYLOAD_SIZE && self.data[len] != 0
            invariant
                len <= PAYLOAD_SIZE,
                forall|j: int| 0 <= j < len ==> self.data@[j] != 0,
            decreases PAYLOAD_SIZE - len,
        {
            len += 1;
        }
        proof {
            lemma_payload_len_unique(self.data@, len as int);
        }
        slice_subrange(self.data.as_slice(), 0, len)
    }

    /// The message as text, or `None` where its bytes are not well-formed
    /// UTF-8.
    pub fn text(&self) -> (text: Option<&str>)
        ensures
            text is Some <==> message_text(self.data@) is Some,
            text matches Some(s) ==> Some(s@) == message_text(self.data@),
    {
        decode_text(self.payload_slice())
    }
}

} // verus!
