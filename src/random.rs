use rand::rngs::StdRng;
use rand::seq::SliceRandom;
use rand::{Rng, SeedableRng};
use vstd::prelude::*;

use crate::grid::Location;

verus! {

/// rand's standard generator, carried through the engine as an opaque value.
#[verifier::external_type_specification]
#[verifier::external_body]
pub struct ExStdRng(StdRng);

/// Relies on rand's `SeedableRng::from_entropy`: a generator seeded by the
/// operating system (it panics only where the system gives no entropy).
#[verifier::external_body]
pub(crate) fn entropy_rng() -> (r: StdRng) {
    StdRng::from_entropy()
}

/// Relies on rand's `SeedableRng::seed_from_u64`: a generator fixed by `seed`.
#[verifier::external_body]
pub(crate) fn seeded_rng(seed: u64) -> (r: StdRng) {
    StdRng::seed_from_u64(seed)
}

/// Relies on rand's `Rng::gen_range` over `0..n`: a value below `n`
/// (it panics only on an empty range, which `requires` rules out).
#[verifier::external_body]
pub(crate) fn draw_below(rng: &mut StdRng, n: usize) -> (r: usize)
    requires
        n > 0,
    ensures
        r < n,
{
    rng.gen_range(0..n)
}

/// Relies on rand's `SliceRandom::choose`: `None` for an empty slice, else
/// one of its elements.
#[verifier::external_body]
pub(crate) fn choose_location(rng: &mut StdRng, candidates: &Vec<Location>) -> (r: Option<Location>)
    ensures
        r is None <==> candidates@.len() == 0,
        r matches Some(l) ==> candidates@.contains(l),
{
    candidates.as_slice().choose(rng).copied()
}

} // verus!
