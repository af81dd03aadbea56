use rand::rngs::StdRng;
use vstd::prelude::*;

use crate::battle::Fighter;
use crate::random::draw_below;
use crate::types::{Colored, GenerateRandomly};

verus! {

/// Number of rock-paper-scissors kinds.
pub const RPS_TYPE_COUNT: usize = 3;

/// Health a rock-paper-scissors fighter starts with.
pub const RPS_HEALTH: i32 = 100;

/// Damage a rock-paper-scissors fighter deals on a win.
pub const RPS_DAMAGE: i32 = 100;

#[derive(Clone, Copy, Debug, PartialEq, Eq, Structural)]
pub enum RPSType {
    Rock,
    Paper,
    Scissor,
}

impl RPSType {
    /// Position of the kind in declaration order.
    pub open spec fn index(self) -> nat {
        match self {
            RPSType::Rock => 0,
            RPSType::Paper => 1,
            RPSType::Scissor => 2,
        }
    }

    /// The kind at position `repr` in declaration order, if any.
    pub fn from_repr(repr: usize) -> (r: Option<RPSType>)
        ensures
            r is Some <==> repr < 3,
            r matches Some(k) ==> k.index() == repr,
    {
        match repr {
            0 => Some(RPSType::Rock),
            1 => Some(RPSType::Paper),
            2 => Some(RPSType::Scissor),
            _ => None,
        }
    }

    /// Position of the kind in declaration order.
    pub fn to_index(self) -> (r: usize)
        ensures
            r == self.index(),
    {
        match self {
            RPSType::Rock => 0,
            RPSType::Paper => 1,
            RPSType::Scissor => 2,
        }
    }
    /// The kind's display colour.
    pub open spec fn spec_color(self) -> Seq<u8> {
        match self {
            RPSType::Rock => seq![128, 0, 0],
            RPSType::Paper => seq![0, 0, 128],
            RPSType::Scissor => seq![0, 128, 0],
        }
    }

    /// The kind's display colour as red, green and blue.
    pub fn color(self) -> (r: [u8; 3])
        ensures
            r@ == self.spec_color(),
    {
        match self {
            RPSType::Rock => [128, 0, 0],
            RPSType::Paper => [0, 0, 128],
            RPSType::Scissor => [0, 128, 0],
        }
    }
}

/// The row of `attacker` in the effectiveness table, indexed by defender.
pub open spec fn rps_row(attacker: RPSType) -> Seq<i32> {
    match attacker {
        RPSType::Rock => seq![  0,   0, 100],
        RPSType::Paper => seq![100,   0,   0],
        RPSType::Scissor => seq![  0, 100,   0],
    }
}

fn rps_row_of(attacker: RPSType) -> (r: [i32; 3])
    ensures
        r@ == rps_row(attacker),
{
    match attacker {
        RPSType::Rock => [  0,   0, 100],
        RPSType::Paper => [100,   0,   0],
        RPSType::Scissor => [  0, 100,   0],
    }
}

/// The effectiveness of `attacker` on `defender`: 100 where the attacker
/// beats the defender, 0 otherwise.
pub open spec fn rps_chart(attacker: RPSType, defender: RPSType) -> int {
    rps_row(attacker)[defender.index() as int] as int
}

/// Each kind beats exactly the one that comes before it in the cycle
/// rock, paper, scissor.
pub proof fn lemma_rps_chart_cyclic(attacker: RPSType, defender: RPSType)
    ensures
        rps_chart(attacker, defender) == (if (attacker.index() + 2) % 3 == defender.index() {
            100int
        } else {
            0int
        }),
{
}

fn get_effectiveness(attacker: RPSType, defender: RPSType) -> (r: i32)
    ensures
        r == rps_chart(attacker, defender),
{
    let row = rps_row_of(attacker);
    row[defender.to_index()]
}

/// A rock-paper-scissors fighter.
#[derive(Clone, Copy, Debug, PartialEq, Eq, Structural)]
pub struct RPS {
    pub health: i32,
    pub damage: i32,
    pub kind: RPSType,
}

impl RPS {
    /// A fighter of the given kind at full health.
    pub open spec fn fresh(kind: RPSType) -> RPS {
        RPS { health: RPS_HEALTH, damage: RPS_DAMAGE, kind }
    }

    pub fn new(kind: RPSType) -> (r: Self)
        ensures
            r == RPS::fresh(kind),
    {
        RPS { health: RPS_HEALTH, damage: RPS_DAMAGE, kind }
    }

    /// Turns this fighter into a fresh one of kind `kind`.
    pub fn reset(&mut self, kind: RPSType)
        ensures
            *final(self) == RPS::fresh(kind),
    {
        self.health = RPS_HEALTH;
        self.damage = RPS_DAMAGE;
        self.kind = kind;
    }

    /// Subtracts `damage` from the health; returns whether none is left.
    pub fn take_damage(&mut self, damage: i32) -> (dead: bool)
        requires
            i32::MIN <= old(self).health - damage <= i32::MAX,
        ensures
            final(self).health == old(self).health - damage,
            final(self).damage == old(self).damage,
            final(self).kind == old(self).kind,
            dead == (final(self).health <= 0),
    {
        self.health = self.health - damage;
        self.health <= 0
    }
}

impl Fighter for RPS {
    open spec fn valid(&self) -> bool {
        0 < self.health <= RPS_HEALTH && self.damage == RPS_DAMAGE
    }

    open spec fn spec_should_fight(&self, defender: &Self) -> bool {
        self.kind != defender.kind
    }

    open spec fn spec_effectiveness(&self, defender: &Self) -> int {
        rps_chart(self.kind, defender.kind)
    }

    /// The attack deals `damage * effectiveness / 100`; a defender left with
    /// no health becomes a fresh fighter of the attacker's kind.
    open spec fn spec_fight(&self, defender: &Self, roll: int) -> (RPS, bool) {
        let health = defender.health - self.damage * rps_chart(self.kind, defender.kind) / 100;
        if health <= 0 {
            (RPS::fresh(self.kind), true)
        } else {
            (RPS { health: health as i32, damage: defender.damage, kind: defender.kind }, false)
        }
    }

    fn should_fight(&self, defender: &Self) -> (r: bool) {
        self.kind != defender.kind
    }

    fn get_effectiveness(&self, defender: &Self) -> (r: i32) {
        get_effectiveness(self.kind, defender.kind)
    }

    fn fight(&self, defender: &mut Self, roll: u8) -> (dead: bool) {
        let effectiveness = self.get_effectiveness(defender);
        let damage = self.damage * effectiveness / 100;
        let is_dead = defender.take_damage(damage);
        if is_dead {
            defender.reset(self.kind);
        }
        is_dead
    }
}

impl GenerateRandomly for RPS {
    /// A fighter of a random kind, at full health.
    fn generate_randomly(rng: &mut StdRng) -> (r: Self)
        ensures
            r == RPS::fresh(r.kind),
    {
        let t = draw_below(rng, RPS_TYPE_COUNT);
        let kind = RPSType::from_repr(t).unwrap();
        RPS::new(kind)
    }
}

impl Colored for RPS {
    fn color(&self) -> (r: [u8; 3])
        ensures
            r@ == self.kind.spec_color(),
    {
        self.kind.color()
    }
}

} // verus!
