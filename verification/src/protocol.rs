//! The control protocol: the messages that a client sends to a running
//! daemon, and their form on the wire.
//!
//! A message travels as one datagram: the variant's index as four bytes,
//! then its field as eight, both little-endian. Bytes after those twelve
//! are ignored, so a receive buffer may be handed over whole.

use vstd::prelude::*;
use vstd::bytes::{
    lemma_auto_spec_u32_to_from_le_bytes, lemma_auto_spec_u64_to_from_le_bytes,
    spec_u32_from_le_bytes, spec_u32_to_le_bytes, spec_u64_from_le_bytes, spec_u64_to_le_bytes,
};

verus! {

/// Length of an encoded message.
pub const MESSAGE_LEN: usize = 12;

/// Size of the buffer into which a daemon receives: room for the largest
/// message.
pub const RECEIVE_BUFFER_LEN: usize = 64;

/// Index of `SetGamma` among the variants of a message.
pub const TAG_SET_GAMMA: u32 = 0;

/// A request to a running daemon.
#[derive(Debug, Clone, Copy, PartialEq, Eq, Structural)]
pub enum Message {
    /// Rebuild the gamma curve with this exponent, given as the bit pattern
    /// of a 64-bit IEEE-754 number.
    SetGamma(u64),
}

/// Why a datagram is no message.
#[derive(Debug, Clone, Copy, PartialEq, Eq, Structural)]
pub enum DecodeError {
    /// Fewer than twelve bytes arrived.
    Truncated,
    /// The variant index names no known message.
    UnknownVariant(u32),
}

/// `bincode::ErrorKind`, the error of bincode's calls; nothing is said of
/// what is in it.
#[verifier::external_type_specification]
#[verifier::external_body]
pub struct ExErrorKind(bincode::ErrorKind);

/// A variant index followed by one field, as they stand on the wire.
pub open spec fn frame(tag: u32, field: u64) -> Seq<u8> {
    spec_u32_to_le_bytes(tag) + spec_u64_to_le_bytes(field)
}

/// The bytes of `m` on the wire.
pub open spec fn encoding(m: Message) -> Seq<u8> {
    match m {
        Message::SetGamma(bits) => frame(TAG_SET_GAMMA, bits),
    }
}

/// The variant index that a datagram of at least four bytes starts with.
pub open spec fn tag_of(bytes: Seq<u8>) -> u32 {
    spec_u32_from_le_bytes(bytes.subrange(0, 4))
}

/// The field that a datagram of at least twelve bytes carries.
pub open spec fn field_of(bytes: Seq<u8>) -> u64 {
    spec_u64_from_le_bytes(bytes.subrange(4, MESSAGE_LEN as int))
}

/// What a datagram decodes to.
pub open spec fn decode_spec(bytes: Seq<u8>) -> Result<Message, DecodeError> {
    if bytes.len() < MESSAGE_LEN {
        Err(DecodeError::Truncated)
    } else if tag_of(bytes) != TAG_SET_GAMMA {
        Err(DecodeError::UnknownVariant(tag_of(bytes)))
    } else {
        Ok(Message::SetGamma(field_of(bytes)))
    }
}

/// `bincode::serialize` on a pair of a `u32` and a `u64`. With bincode's
/// fixed-width little-endian integers the result is the four bytes of the
/// first followed by the eight of the second; writing integers into a
/// vector with no size limit has no way to fail.
#[verifier::external_body]
fn serialize_fields(tag: u32, field: u64) -> (r: Result<Vec<u8>, Box<bincode::ErrorKind>>)
    ensures
        r is Ok,
        r matches Ok(bytes) ==> bytes@ == frame(tag, field),
{
    bincode::serialize(&(tag, field))
}

/// `bincode::deserialize` to a pair of a `u32` and a `u64`. It reads the
/// first twelve bytes, little-endian, ignores what follows them, and fails
/// exactly when fewer than twelve are there.
#[verifier::external_body]
fn deserialize_fields(bytes: &[u8]) -> (r: Result<(u32, u64), Box<bincode::ErrorKind>>)
    ensures
        r is Ok <==> bytes@.len() >= MESSAGE_LEN,
        r matches Ok(fields) ==> fields.0 == tag_of(bytes@) && fields.1 == field_of(bytes@),
{
    bincode::deserialize::<(u32, u64)>(bytes)
}

impl Message {
    /// Encodes the message as one datagram.
    pub fn encode(&self) -> (bytes: Vec<u8>)
        ensures
            bytes@ == encoding(*self),
    {
        match self {
            Message::SetGamma(bits) => {
                match serialize_fields(TAG_SET_GAMMA, *bits) {
                    Ok(bytes) => bytes,
                    Err(_) => Vec::new(),
                }
            },
        }
    }

    /// Decodes a datagram.
    pub fn decode(bytes: &[u8]) -> (r: Result<Message, DecodeError>)
        ensures
            r == decode_spec(bytes@),
    {
        match deserialize_fields(bytes) {
            Err(_) => Err(DecodeError::Truncated),
            Ok((tag, field)) => {
                if tag == TAG_SET_GAMMA {
                    Ok(Message::SetGamma(field))
                } else {
                    Err(DecodeError::UnknownVariant(tag))
                }
            },
        }
    }
}

/// Every message takes twelve bytes, which fit the receive buffer.
pub proof fn lemma_encoding_len(m: Message)
    ensures
        encoding(m).len() == MESSAGE_LEN,
        encoding(m).len() <= RECEIVE_BUFFER_LEN,
{
    lemma_auto_spec_u32_to_from_le_bytes();
    lemma_auto_spec_u64_to_from_le_bytes();
}

/// Decoding what was encoded gives the message back, field for field and
/// bit for bit, whatever bytes follow it in the buffer.
pub proof fn lemma_round_trip(m: Message, rest: Seq<u8>)
    ensures
        decode_spec(encoding(m)) == Ok::<Message, DecodeError>(m),
        decode_spec(encoding(m) + rest) == Ok::<Message, DecodeError>(m),
{
    lemma_auto_spec_u32_to_from_le_bytes();
    lemma_auto_spec_u64_to_from_le_bytes();
    let Message::SetGamma(bits) = m;
    let head = spec_u32_to_le_bytes(TAG_SET_GAMMA);
    let tail = spec_u64_to_le_bytes(bits);
    let bytes = encoding(m);
    assert(bytes.subrange(0, 4) =~= head);
    assert(bytes.subrange(4, 12) =~= tail);
    let longer = bytes + rest;
    assert(longer.subrange(0, 4) =~= head);
    assert(longer.subrange(4, 12) =~= tail);
}

} // verus!
