//! Delay-based and model-based congestion controllers for a datagram transport.

use vstd::prelude::*;

pub mod bbr2;
pub mod copa;
pub mod scalar;
pub mod sprout;
pub mod time;

verus! {

/// The datagram size, in bytes, that every path is expected to carry.
pub const BASE_DATAGRAM_SIZE: u64 = 1200;

} // verus!
