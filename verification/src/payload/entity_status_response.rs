//! Entity status response.

use vstd::prelude::*;
use vstd::slice::slice_subrange;

use crate::definitions::{DOIP_ENTITY_STATUS_RESPONSE_LEN, DOIP_HEADER_LEN};
use crate::error::{DecodeError, EncodeError};
use crate::header::payload_type::PayloadType;
use crate::payload::Payload;
use crate::payload::PayloadView;
use crate::payload::doip_payload::DoipPayload;
use crate::payload::node_type::NodeType;

verus! {

/// Answers an entity status request.
#[derive(Clone, Copy, Debug, PartialEq, Eq)]
pub struct EntityStatusResponse {
    /// Kind of entity.
    pub node_type: NodeType,
    /// Number of sockets that the entity can serve at once.
    pub max_concurrent_sockets: [u8; 1],
    /// Number of sockets that are open.
    pub currently_open_sockets: [u8; 1],
    /// Largest request that the entity accepts, in bytes.
    pub max_data_size: [u8; 4],
}

impl View for EntityStatusResponse {
    type V = EntityStatusResponse;

    open spec fn view(&self) -> EntityStatusResponse {
        *self
    }
}

impl DoipPayload for EntityStatusResponse {
    open spec fn spec_payload_type() -> PayloadType {
        PayloadType::EntityStatusResponse
    }

    open spec fn spec_to_bytes(value: EntityStatusResponse) -> Seq<u8> {
        seq![value.node_type.code()]
            + value.max_concurrent_sockets@
            + value.currently_open_sockets@
            + value.max_data_size@
    }

    open spec fn spec_from_bytes(bytes: Seq<u8>) -> Result<EntityStatusResponse, DecodeError> {
        if bytes.len() < DOIP_ENTITY_STATUS_RESPONSE_LEN {
            Err(DecodeError::TooShort)
        } else {
            match NodeType::from_code(bytes[0]) {
                None => Err(DecodeError::InvalidNodeType),
                Some(node_type) => Ok(
                    EntityStatusResponse {
                        node_type,
                        max_concurrent_sockets: [bytes[1]],
                        currently_open_sockets: [bytes[2]],
                        max_data_size: [bytes[3], bytes[4], bytes[5], bytes[6]],
                    },
                ),
            }
        }
    }

    fn payload_type(&self) -> (kind: PayloadType) {
        PayloadType::EntityStatusResponse
    }

    fn to_bytes(&self) -> (bytes: Vec<u8>) {
        let mut bytes: Vec<u8> = Vec::new();
        let node_type_bytes: Vec<u8> = self.node_type.to_bytes();
        bytes.extend_from_slice(node_type_bytes.as_slice());
        bytes.extend_from_slice(&self.max_concurrent_sockets);
        bytes.extend_from_slice(&self.currently_open_sockets);
        bytes.extend_from_slice(&self.max_data_size);
        assert(bytes@ =~= Self::spec_to_bytes(self@));
        bytes
    }

    fn from_bytes(bytes: &[u8]) -> (r: Result<EntityStatusResponse, DecodeError>) {
        if bytes.len() < DOIP_ENTITY_STATUS_RESPONSE_LEN {
            return Err(DecodeError::TooShort);
        }
        let node_type = match NodeType::from_bytes(slice_subrange(bytes, 0, 1)) {
            Some(value) => value,
            None => {
                return Err(DecodeError::InvalidNodeType);
            },
        };
        let max_concurrent_sockets: [u8; 1] = [bytes[1]];
        let currently_open_sockets: [u8; 1] = [bytes[2]];
        let max_data_size: [u8; 4] = [bytes[3], bytes[4], bytes[5], bytes[6]];
        Ok(
            EntityStatusResponse {
                node_type,
                max_concurrent_sockets,
                currently_open_sockets,
                max_data_size,
            },
        )
    }

    proof fn lemma_round_trip(value: EntityStatusResponse) {
        NodeType::lemma_code_bijection(value.node_type, 0);
        let decoded = Self::spec_from_bytes(Self::spec_to_bytes(value))->Ok_0;
        assert(decoded.max_concurrent_sockets =~= value.max_concurrent_sockets);
        assert(decoded.currently_open_sockets =~= value.currently_open_sockets);
        assert(decoded.max_data_size =~= value.max_data_size);
    }
}

/// Writes and reads entity status responses.
#[derive(Clone, Copy, Debug)]
pub struct EntityStatusResponseCodec;

impl EntityStatusResponseCodec {
    /// The payload of a frame, header included, that holds nothing but the
    /// frame: what follows the header is read as the payload.
    pub open spec fn spec_decode(src: Seq<u8>) -> Result<EntityStatusResponse, DecodeError> {
        if src.len() < DOIP_HEADER_LEN + DOIP_ENTITY_STATUS_RESPONSE_LEN {
            Err(DecodeError::TooShort)
        } else {
            EntityStatusResponse::spec_from_bytes(src.skip(DOIP_HEADER_LEN as int))
        }
    }

    /// Appends the payload's bytes to `dst`. Never fails.
    pub fn to_bytes(&self, item: EntityStatusResponse, dst: &mut Vec<u8>) -> (r: Result<
        (),
        EncodeError,
    >)
        ensures
            r is Ok,
            final(dst)@ == old(dst)@ + EntityStatusResponse::spec_to_bytes(item@),
    {
        let bytes: Vec<u8> = item.to_bytes();
        dst.extend_from_slice(bytes.as_slice());
        assert(dst@ =~= old(dst)@ + EntityStatusResponse::spec_to_bytes(item@));
        Ok(())
    }

    /// Reads the payload of the frame that `src` holds, header included. The
    /// header itself is not read. The result is never `Ok(None)`.
    pub fn decode_from_bytes(&self, src: &[u8]) -> (r: Result<Option<Payload>, DecodeError>)
        ensures
            match Self::spec_decode(src@) {
                Ok(value) => r matches Ok(Some(payload)) && payload@
                    == PayloadView::EntityStatusResponse(value),
                Err(e) => r == Err::<Option<Payload>, DecodeError>(e),
            },
    {
        if src.len() < DOIP_HEADER_LEN + DOIP_ENTITY_STATUS_RESPONSE_LEN {
            return Err(DecodeError::TooShort);
        }
        match EntityStatusResponse::from_bytes(slice_subrange(src, DOIP_HEADER_LEN, src.len())) {
            Ok(item) => Ok(Some(Payload::EntityStatusResponse(item))),
            Err(e) => Err(e),
        }
    }
}

} // verus!
