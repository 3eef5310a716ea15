//! The chain envelope: a protobuf message whose first field, a byte string,
//! holds the transaction.

use vstd::prelude::*;

verus! {

/// The error that prost gives for bytes that are no message.
#[verifier::external_type_specification]
#[verifier::external_body]
pub struct ExDecodeError(prost::DecodeError);

/// What prost decodes `raw` to, read as a message with one field of bytes at
/// tag 1: the field's bytes, or `None` where `raw` is no such message.
pub uninterp spec fn bytes_message(raw: Seq<u8>) -> Option<Seq<u8>>;

/// Calls prost's `Message::decode` for `Vec<u8>`, which prost reads as a
/// message with one field of bytes at tag 1. The result is a function of the
/// bytes alone: `Ok` with the field's bytes, or prost's error.
#[verifier::external_body]
fn decode_bytes_message(raw: &[u8]) -> (decoded: Result<Vec<u8>, prost::DecodeError>)
    ensures
        decoded is Ok == bytes_message(raw@) is Some,
        decoded matches Ok(payload) ==> bytes_message(raw@) == Some(payload@),
{
    prost::Message::decode(raw)
}

/// Opens the envelope round a transaction: the payload that the envelope
/// holds, or `None` where the bytes are no envelope.
pub fn open_envelope(raw: &[u8]) -> (payload: Option<Vec<u8>>)
    ensures
        payload is Some == bytes_message(raw@) is Some,
        payload matches Some(found) ==> bytes_message(raw@) == Some(found@),
{
    match decode_bytes_message(raw) {
        Ok(found) => Some(found),
        Err(_) => None,
    }
}

} // verus!
