//! Alive check request.

use vstd::prelude::*;
use vstd::slice::slice_subrange;

use crate::definitions::DOIP_HEADER_LEN;
use crate::error::{DecodeError, EncodeError};
use crate::header::payload_type::PayloadType;
use crate::payload::Payload;
use crate::payload::PayloadView;
use crate::payload::doip_payload::DoipPayload;

verus! {

/// Asks a tester whether its connection is still in use. It has no fields.
#[derive(Clone, Copy, Debug, PartialEq, Eq)]
pub struct AliveCheckRequest {}

impl View for AliveCheckRequest {
    type V = AliveCheckRequest;

    open spec fn view(&self) -> AliveCheckRequest {
        *self
    }
}

impl DoipPayload for AliveCheckRequest {
    open spec fn spec_payload_type() -> PayloadType {
        PayloadType::AliveCheckRequest
    }

    open spec fn spec_to_bytes(value: AliveCheckRequest) -> Seq<u8> {
        Seq::empty()
    }

    open spec fn spec_from_bytes(bytes: Seq<u8>) -> Result<AliveCheckRequest, DecodeError> {
        Ok(AliveCheckRequest {  })
    }

    fn payload_type(&self) -> (kind: PayloadType) {
        PayloadType::AliveCheckRequest
    }

    fn to_bytes(&self) -> (bytes: Vec<u8>) {
        Vec::new()
    }

    fn from_bytes(_bytes: &[u8]) -> (r: Result<AliveCheckRequest, DecodeError>) {
        Ok(AliveCheckRequest {  })
    }

    proof fn lemma_round_trip(value: AliveCheckRequest) {
    }
}

/// Writes and reads alive check requests.
#[derive(Clone, Copy, Debug)]
pub struct AliveCheckRequestCodec;

impl AliveCheckRequestCodec {
    /// The payload of a frame, header included, that holds nothing but the
    /// frame: what follows the header is read as the payload.
    pub open spec fn spec_decode(src: Seq<u8>) -> Result<AliveCheckRequest, DecodeError> {
        if src.len() < DOIP_HEADER_LEN {
            Err(DecodeError::TooShort)
        } else {
            AliveCheckRequest::spec_from_bytes(src.skip(DOIP_HEADER_LEN as int))
        }
    }

    /// Appends the payload's bytes to `dst`. Never fails.
    pub fn to_bytes(&self, item: AliveCheckRequest, dst: &mut Vec<u8>) -> (r: Result<
        (),
        EncodeError,
    >)
        ensures
            r is Ok,
            final(dst)@ == old(dst)@ + AliveCheckRequest::spec_to_bytes(item@),
    {
        let bytes: Vec<u8> = item.to_bytes();
        dst.extend_from_slice(bytes.as_slice());
        assert(dst@ =~= old(dst)@ + AliveCheckRequest::spec_to_bytes(item@));
        Ok(())
    }

    /// Reads the payload of the frame that `src` holds, header included. The
    /// header itself is not read. The result is never `Ok(None)`.
    pub fn decode_from_bytes(&self, src: &[u8]) -> (r: Result<Option<Payload>, DecodeError>)
        ensures
            match Self::spec_decode(src@) {
                Ok(value) => r matches Ok(Some(payload)) && payload@
                    == PayloadView::AliveCheckRequest(value),
                Err(e) => r == Err::<Option<Payload>, DecodeError>(e),
            },
    {
        if src.len() < DOIP_HEADER_LEN {
            return Err(DecodeError::TooShort);
        }
        match AliveCheckRequest::from_bytes(slice_subrange(src, DOIP_HEADER_LEN, src.len())) {
            Ok(item) => Ok(Some(Payload::AliveCheckRequest(item))),
            Err(e) => Err(e),
        }
    }
}

} // verus!
