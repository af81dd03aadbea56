use rand::rngs::StdRng;
use vstd::prelude::*;

use crate::battle::Fighter;
use crate::random::draw_below;
use crate::types::{Colored, GenerateRandomly};

verus! {

/// `channel` after an attack of strength `by`: it loses `by`, down to 0.
pub open spec fn drain(channel: u8, by: u8) -> u8 {
    if by < channel {
        (channel - by) as u8
    } else {
        0
    }
}

/// The colour `color` after an attack by the colour `by`, channel by channel.
pub open spec fn drained(color: [u8; 3], by: [u8; 3]) -> Seq<u8> {
    seq![drain(color[0], by[0]), drain(color[1], by[1]), drain(color[2], by[2])]
}

/// Whether some channel of `color` is 0.
pub open spec fn has_empty_channel(color: Seq<u8>) -> bool {
    color[0] == 0 || color[1] == 0 || color[2] == 0
}

/// A fighter that is a colour: an attack drains each channel by the
/// attacker's value for it, and the fighter dies when a channel runs empty.
#[derive(Clone, Copy, Debug)]
pub struct ColorFighter {
    pub color: [u8; 3],
}

impl Default for ColorFighter {
    fn default() -> (r: Self)
        ensures
            r.color@ == seq![0u8, 0u8, 0u8],
    {
        Self::new()
    }
}

impl ColorFighter {
    /// A black fighter.
    pub fn new() -> (r: Self)
        ensures
            r.color@ == seq![0u8, 0u8, 0u8],
    {
        ColorFighter { color: [0, 0, 0] }
    }

    /// Takes the colour `color`.
    pub fn reset(&mut self, color: &[u8; 3])
        ensures
            final(self).color@ == color@,
    {
        self.color = *color;
    }

    /// Drains each channel by the one of `color`; returns whether a channel
    /// is now empty.
    pub fn take_damage(&mut self, color: &[u8; 3]) -> (dead: bool)
        ensures
            final(self).color@ == drained(old(self).color, *color),
            dead == has_empty_channel(final(self).color@),
    {
        let c = self.color;
        let red = if color[0] < c[0] {
            c[0] - color[0]
        } else {
            0
        };
        let green = if color[1] < c[1] {
            c[1] - color[1]
        } else {
            0
        };
        let blue = if color[2] < c[2] {
            c[2] - color[2]
        } else {
            0
        };
        self.color = [red, green, blue];
        red == 0 || green == 0 || blue == 0
    }
}

impl Fighter for ColorFighter {
    open spec fn valid(&self) -> bool {
        true
    }

    /// The attacker dominates the defender in at least one channel.
    open spec fn spec_should_fight(&self, defender: &Self) -> bool {
        self.color[0] >= defender.color[0] || self.color[1] >= defender.color[1] || self.color[2]
            >= defender.color[2]
    }

    open spec fn spec_effectiveness(&self, defender: &Self) -> int {
        1
    }

    /// The defender is drained by the attacker's colour; where a channel
    /// runs empty it takes the attacker's colour.
    open spec fn spec_fight(&self, defender: &Self, roll: int) -> (ColorFighter, bool) {
        let after = drained(defender.color, self.color);
        if has_empty_channel(after) {
            (ColorFighter { color: self.color }, true)
        } else {
            (ColorFighter { color: [after[0], after[1], after[2]] }, false)
        }
    }

    fn should_fight(&self, defender: &Self) -> (r: bool) {
        let mut i: usize = 0;
        while i < 3
            invariant
                i <= 3,
                forall|j: int| 0 <= j < i ==> self.color[j] < defender.color[j],
            decreases 3 - i,
        {
            if self.color[i] >= defender.color[i] {
                return true;
            }
            i = i + 1;
        }
        false
    }

    fn get_effectiveness(&self, defender: &Self) -> (r: i32) {
        1
    }

    fn fight(&self, defender: &mut Self, roll: u8) -> (dead: bool) {
        let is_dead = defender.take_damage(&self.color);
        if is_dead {
            defender.reset(&self.color);
            assert(defender.color =~= self.color);
        } else {
            let ghost after = drained(old(defender).color, self.color);
            assert(defender.color =~= [after[0], after[1], after[2]]);
        }
        is_dead
    }
}

impl GenerateRandomly for ColorFighter {
    fn generate_randomly(rng: &mut StdRng) -> (r: Self) {
        let red = draw_below(rng, 256) as u8;
        let green = draw_below(rng, 256) as u8;
        let blue = draw_below(rng, 256) as u8;
        ColorFighter { color: [red, green, blue] }
    }
}

impl Colored for ColorFighter {
    fn color(&self) -> (r: [u8; 3])
        ensures
            r@ == self.color@,
    {
        self.color
    }
}

} // verus!
