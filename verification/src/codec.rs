//! The codec for whole frames.

pub mod decoder;
pub mod encoder;

use vstd::prelude::*;

verus! {

/// Writes messages as frames and reads frames as messages.
#[derive(Clone, Copy, Debug)]
pub struct DoipCodec {}

} // verus!
