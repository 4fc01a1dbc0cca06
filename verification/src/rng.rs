//! The engine's seeded random source: rand's `SmallRng`, owned by the game
//! state and advanced by every draw. The engine never relies on particular
//! draw values, only on the bounds stated here; all decision logic is
//! verified for every value a draw may return.

use vstd::prelude::*;
use rand::Rng;
use rand::SeedableRng;

verus! {

#[verifier::external_type_specification]
#[verifier::external_body]
pub struct ExSmallRng(rand::rngs::SmallRng);

/// Relies on rand's `SmallRng::seed_from_u64`: constructs the generator
/// deterministically from a 64-bit seed.
#[verifier::external_body]
pub(crate) fn rng_new(seed: u64) -> rand::rngs::SmallRng {
    rand::rngs::SmallRng::seed_from_u64(seed)
}

/// Relies on rand's `Rng::random_range` over the inclusive range `lo..=hi`:
/// returns a value inside the range and panics only when the range is
/// empty, which the precondition excludes.
#[verifier::external_body]
pub(crate) fn rng_range(rng: &mut rand::rngs::SmallRng, lo: i64, hi: i64) -> (r: i64)
    requires
        lo <= hi,
    ensures
        lo <= r <= hi,
{
    rng.random_range(lo..=hi)
}

/// Relies on rand's `Rng::random_ratio`: returns true with probability
/// `num/den`; always true when `num == den` and always false when
/// `num == 0`, as its documentation states. Panics only when `den == 0` or
/// `num > den`, which the precondition excludes.
#[verifier::external_body]
pub(crate) fn rng_ratio(rng: &mut rand::rngs::SmallRng, num: u32, den: u32) -> (r: bool)
    requires
        0 < den,
        num <= den,
    ensures
        num == den ==> r,
        num == 0 ==> !r,
{
    rng.random_ratio(num, den)
}

/// A uniformly drawn index below `n` (uniform for every collection the
/// engine actually builds; astronomically large collections would be drawn
/// from their first two billion entries).
pub(crate) fn rng_index(rng: &mut rand::rngs::SmallRng, n: usize) -> (r: usize)
    requires
        n >= 1,
    ensures
        r < n,
{
    let hi: i64 = if n - 1 > 0x7fff_ffff { 0x7fff_ffff } else { (n - 1) as i64 };
    rng_range(rng, 0, hi) as usize
}

} // verus!
