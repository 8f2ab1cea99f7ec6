//! The source of randomness: the thread-local generator of the `rand` crate.
//!
//! Nothing here is proved. The contracts say what `rand` documents, and the
//! rest of the library is proved for every value that a draw may return.

use vstd::prelude::*;
use rand::Rng;
use rand::rngs::ThreadRng;

verus! {

/// `rand::rngs::ThreadRng`, a handle to the generator of the current thread.
/// Its state is hidden: a draw is described by its range alone.
#[verifier::external_type_specification]
#[verifier::external_body]
pub struct ExThreadRng(rand::rngs::ThreadRng);

/// `rand::thread_rng` hands out the handle. Nothing is claimed of it.
pub assume_specification[ rand::thread_rng ]() -> (rng: ThreadRng);

/// `Rng::gen_range` on the half-open range `0..bound`. It panics on an empty
/// range, which `requires` leaves out; on any other it returns a value of the
/// range. Which value is left open: two draws may differ.
#[verifier::external_body]
pub(crate) fn draw_below(rng: &mut ThreadRng, bound: i32) -> (r: i32)
    requires
        0 < bound,
    ensures
        0 <= r < bound,
{
    rng.gen_range(0..bound)
}

} // verus!
