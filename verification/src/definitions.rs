//! Sizes, offsets and codes of the wire format.

use vstd::prelude::*;

verus! {

/// Number of bytes in the fixed frame header.
pub const DOIP_HEADER_LEN: usize = 8;

/// Offset of the protocol version byte.
pub const DOIP_VERSION_OFFSET: usize = 0;

/// Offset of the inverse protocol version byte.
pub const DOIP_INV_VERSION_OFFSET: usize = 1;

/// Offset of the two byte payload type code.
pub const DOIP_TYPE_OFFSET: usize = 2;

/// Width of the payload type code.
pub const DOIP_TYPE_LEN: usize = 2;

/// Offset of the four byte payload length.
pub const DOIP_LENGTH_OFFSET: usize = 4;

/// Largest buffer, and largest frame, that the framing decoders accept.
pub const MAX_FRAME_LEN: usize = 8 * 1024 * 1024;

/// Payload length of a generic negative acknowledgement.
pub const DOIP_GENERIC_NACK_LEN: usize = 1;

/// Width of a vehicle identification number.
pub const DOIP_COMMON_VIN_LEN: usize = 17;

/// Width of an entity identifier.
pub const DOIP_COMMON_EID_LEN: usize = 6;

/// Payload length of a vehicle announcement without a synchronisation status.
pub const DOIP_VEHICLE_ANNOUNCEMENT_LEN_SHORT: usize = 32;

/// Payload length of a vehicle announcement with a synchronisation status.
pub const DOIP_VEHICLE_ANNOUNCEMENT_LEN_LONG: usize = 33;

/// Payload length of a routing activation request.
pub const DOIP_ROUTING_ACTIVATION_REQ_LEN: usize = 7;

/// Payload length of a routing activation response.
pub const DOIP_ROUTING_ACTIVATION_RES_LEN: usize = 9;

/// Payload length of an alive check response.
pub const DOIP_ALIVE_CHECK_RESPONSE_SOURCE_LEN: usize = 2;

/// Payload length of an entity status response.
pub const DOIP_ENTITY_STATUS_RESPONSE_LEN: usize = 7;

/// Payload length of a power information response.
pub const DOIP_POWER_MODE_LEN: usize = 1;

/// Width of the source and target addresses that open the diagnostic payloads.
pub const DOIP_DIAG_COMMON_LEN: usize = 4;

/// Payload length of a diagnostic message acknowledgement.
pub const DOIP_DIAG_MESSAGE_ACK_LEN: usize = 5;

/// Payload length of a diagnostic message negative acknowledgement.
pub const DOIP_DIAG_MESSAGE_NACK_LEN: usize = 5;

} // verus!
