//! The source of random bytes for CXNN.
use vstd::prelude::*;

verus! {

/// Relies on `rand::thread_rng` and `rand::Rng::gen::<u8>`: a uniformly
/// random byte, the low byte of the thread-local generator's next `u32`.
/// Nothing is promised of its value. It panics only when the operating
/// system's random source fails, either when the thread-local generator is
/// first seeded or when it is later reseeded.
#[verifier::external_body]
pub(crate) fn random_byte() -> (r: u8) {
    rand::Rng::gen::<u8>(&mut rand::thread_rng())
}

} // verus!
