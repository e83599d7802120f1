//! The fixed eight byte header of a frame.

pub mod doip_header;
pub mod payload_type;
pub mod payload_type_codec;
pub mod version;
