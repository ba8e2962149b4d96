//! The process-wide random source that fresh identifiers draw from.

use rand::rngs::ThreadRng;
use rand::Rng;
use vstd::prelude::*;

verus! {

/// `rand::rngs::ThreadRng`, a handle to the generator of the current thread.
/// Nothing inside it is visible here.
#[verifier::external_type_specification]
#[verifier::external_body]
pub struct ExThreadRng(rand::rngs::ThreadRng);

/// `rand::thread_rng` hands out the handle to the lazily seeded generator of
/// the current thread. Nothing is claimed of the handle. The first call in a
/// thread panics when the operating system cannot seed the generator, or
/// when the handler that notices a fork cannot be registered.
pub assume_specification[ rand::thread_rng ]() -> (rng: ThreadRng);

/// One sample from the generator, by `Rng::gen::<usize>`. The value is
/// random, so nothing is claimed of it beyond its type.
///
/// The call can panic. The generator reseeds itself from the operating
/// system after 64 KiB of output and after a fork; where the system then
/// gives no entropy, the draw panics. No argument decides this, so no
/// precondition can leave it out.
#[verifier::external_body]
pub(crate) fn sample(rng: &mut ThreadRng) -> (drawn: usize) {
    rng.gen::<usize>()
}

} // verus!
