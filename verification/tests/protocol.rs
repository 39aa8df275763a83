use fanservice::protocol::{DecodeError, Message, MESSAGE_LEN, RECEIVE_BUFFER_LEN};
use serde::ser::{Serialize, Serializer};

/// The message as a program with floating point would hold it.
enum FloatMessage {
    SetGamma(f64),
}

impl Serialize for FloatMessage {
    fn serialize<S: Serializer>(&self, serializer: S) -> Result<S::Ok, S::Error> {
        match self {
            FloatMessage::SetGamma(g) => {
                serializer.serialize_newtype_variant("Message", 0, "SetGamma", g)
            }
        }
    }
}

#[test]
fn set_gamma_round_trips_bit_for_bit() {
    for gamma in [0.1f64, 1.0, 2.2] {
        let sent = Message::SetGamma(gamma.to_bits());
        let got = Message::decode(&sent.encode()).unwrap();
        assert_eq!(got, sent);
        let Message::SetGamma(bits) = got;
        assert_eq!(f64::from_bits(bits).to_bits(), gamma.to_bits());
    }
}

#[test]
fn every_bit_pattern_round_trips() {
    for bits in [0u64, 1, u64::MAX, 0x0123_4567_89ab_cdef, f64::NAN.to_bits()] {
        let sent = Message::SetGamma(bits);
        assert_eq!(Message::decode(&sent.encode()), Ok(sent));
    }
}

#[test]
fn encoding_is_index_then_field_little_endian() {
    let bytes = Message::SetGamma(1.0f64.to_bits()).encode();
    assert_eq!(bytes, vec![0, 0, 0, 0, 0, 0, 0, 0, 0, 0, 0xf0, 0x3f]);
    let bytes = Message::SetGamma(0x0102_0304_0506_0708).encode();
    assert_eq!(bytes, vec![0, 0, 0, 0, 8, 7, 6, 5, 4, 3, 2, 1]);
    assert_eq!(bytes.len(), MESSAGE_LEN);
    assert!(bytes.len() <= RECEIVE_BUFFER_LEN);
}

#[test]
fn encoding_is_what_a_float_message_serializes_to() {
    for gamma in [0.1f64, 1.0, 2.2, -3.5, f64::INFINITY] {
        let expected = bincode::serialize(&FloatMessage::SetGamma(gamma)).unwrap();
        assert_eq!(Message::SetGamma(gamma.to_bits()).encode(), expected);
    }
}

#[test]
fn decode_reads_a_known_datagram() {
    let datagram = [0u8, 0, 0, 0, 0x9a, 0x99, 0x99, 0x99, 0x99, 0x99, 0x01, 0x40];
    assert_eq!(Message::decode(&datagram), Ok(Message::SetGamma(2.2f64.to_bits())));
}

#[test]
fn decode_ignores_what_follows_the_message() {
    let mut buffer = Message::SetGamma(2.2f64.to_bits()).encode();
    buffer.extend_from_slice(&[0xaa; 52]);
    assert_eq!(buffer.len(), RECEIVE_BUFFER_LEN);
    assert_eq!(Message::decode(&buffer), Ok(Message::SetGamma(2.2f64.to_bits())));
}

#[test]
fn decode_refuses_short_datagrams() {
    let bytes = Message::SetGamma(7).encode();
    for len in 0..MESSAGE_LEN {
        assert_eq!(Message::decode(&bytes[..len]), Err(DecodeError::Truncated));
    }
}

#[test]
fn decode_refuses_unknown_variants() {
    let mut bytes = Message::SetGamma(7).encode();
    bytes[0] = 1;
    assert_eq!(Message::decode(&bytes), Err(DecodeError::UnknownVariant(1)));
    bytes[0] = 0;
    bytes[3] = 0x80;
    assert_eq!(Message::decode(&bytes), Err(DecodeError::UnknownVariant(0x8000_0000)));
}
