//! What every payload offers.

use vstd::prelude::*;

use crate::error::DecodeError;
use crate::header::payload_type::PayloadType;

verus! {

/// A payload: the body of a frame, after the header.
///
/// The mathematical value of a payload is its view. `spec_to_bytes` and
/// `spec_from_bytes` define the wire format of the payload over that value,
/// and the executable methods are held to them.
pub trait DoipPayload: View + Sized {
    /// The payload type under which the payload travels.
    spec fn spec_payload_type() -> PayloadType;

    /// The bytes of a payload: its fields in order, without padding.
    spec fn spec_to_bytes(value: Self::V) -> Seq<u8>;

    /// The payload that `bytes` hold, or the reason why they hold none.
    /// `bytes` are what follows the header, cut to the declared payload
    /// length.
    spec fn spec_from_bytes(bytes: Seq<u8>) -> Result<Self::V, DecodeError>;

    /// The payload type under which the payload travels.
    fn payload_type(&self) -> (kind: PayloadType)
        ensures
            kind == Self::spec_payload_type(),
    ;

    /// The bytes of the payload.
    fn to_bytes(&self) -> (bytes: Vec<u8>)
        ensures
            bytes@ == Self::spec_to_bytes(self@),
    ;

    /// Reads a payload from the bytes that follow the header.
    fn from_bytes(bytes: &[u8]) -> (r: Result<Self, DecodeError>)
        ensures
            match r {
                Ok(payload) => Self::spec_from_bytes(bytes@) == Ok::<Self::V, DecodeError>(
                    payload@,
                ),
                Err(e) => Self::spec_from_bytes(bytes@) == Err::<Self::V, DecodeError>(e),
            },
    ;

    /// Every payload is read back from its own bytes.
    proof fn lemma_round_trip(value: Self::V)
        ensures
            Self::spec_from_bytes(Self::spec_to_bytes(value)) == Ok::<Self::V, DecodeError>(value),
    ;
}

} // verus!
