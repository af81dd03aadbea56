use rand::rngs::StdRng;
use vstd::prelude::*;

use crate::battle::Fighter;

verus! {

/// Fighters that can be drawn at random to populate a grid.
pub trait GenerateRandomly: Fighter {
    /// A fresh fighter of a kind drawn uniformly from `rng`.
    fn generate_randomly(rng: &mut StdRng) -> (r: Self)
        ensures
            r.valid(),
    ;
}

/// Fighters that show as a colour.
pub trait Colored {
    /// The fighter's colour as red, green and blue.
    fn color(&self) -> [u8; 3];
}

} // verus!
