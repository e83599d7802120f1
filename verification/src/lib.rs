//! Encoding and decoding of Diagnostics over Internet Protocol (DoIP) frames.
//!
//! A frame is an eight byte header followed by a payload whose layout depends
//! on the payload type named in the header. The crate turns messages into
//! their exact wire bytes and finds, validates and extracts messages from a
//! byte stream that arrives piece by piece.
//!
//! - [`header`] and [`payload`] hold the data types and the wire format of
//!   each of them: a specification function from value to bytes and one from
//!   bytes to value, and executable functions that are proved to compute them.
//! - [`message`] joins header and payload.
//! - [`codec`] writes and reads whole frames, into and from a `Vec` or slice,
//!   the growable buffer of the transport ([`stream`]) and a buffer of fixed
//!   capacity ([`fixed_buffer`]).
//!
//! Every executable function is verified against its contract. What is taken
//! on trust is stated in [`stream`].

pub mod codec;
pub mod definitions;
pub mod endian;
pub mod error;
pub mod fixed_buffer;
pub mod header;
pub mod message;
pub mod payload;
pub mod stream;
