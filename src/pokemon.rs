use rand::rngs::StdRng;
use vstd::prelude::*;

use crate::battle::Fighter;
use crate::random::draw_below;
use crate::types::{Colored, GenerateRandomly};

verus! {

/// Number of Pokémon types.
pub const POKEMON_TYPE_COUNT: usize = 18;

/// Health a Pokémon starts with.
pub const POKEMON_HEALTH: i32 = 80;

/// Damage a Pokémon deals at neutral effectiveness.
pub const POKEMON_DAMAGE: i32 = 40;

#[derive(Clone, Copy, Debug, PartialEq, Eq, Structural)]
pub enum PokemonType {
    Normal,
    Fire,
    Water,
    Electric,
    Grass,
    Ice,
    Fighting,
    Poison,
    Ground,
    Flying,
    Psychic,
    Bug,
    Rock,
    GhostType,
    Dragon,
    Dark,
    Steel,
    Fairy,
}

impl PokemonType {
    /// Position of the kind in declaration order.
    pub open spec fn index(self) -> nat {
        match self {
            PokemonType::Normal => 0,
            PokemonType::Fire => 1,
            PokemonType::Water => 2,
            PokemonType::Electric => 3,
            PokemonType::Grass => 4,
            PokemonType::Ice => 5,
            PokemonType::Fighting => 6,
            PokemonType::Poison => 7,
            PokemonType::Ground => 8,
            PokemonType::Flying => 9,
            PokemonType::Psychic => 10,
            PokemonType::Bug => 11,
            PokemonType::Rock => 12,
            PokemonType::GhostType => 13,
            PokemonType::Dragon => 14,
            PokemonType::Dark => 15,
            PokemonType::Steel => 16,
            PokemonType::Fairy => 17,
        }
    }

    /// The kind at position `repr` in declaration order, if any.
    pub fn from_repr(repr: usize) -> (r: Option<PokemonType>)
        ensures
            r is Some <==> repr < 18,
            r matches Some(k) ==> k.index() == repr,
    {
        match repr {
            0 => Some(PokemonType::Normal),
            1 => Some(PokemonType::Fire),
            2 => Some(PokemonType::Water),
            3 => Some(PokemonType::Electric),
            4 => Some(PokemonType::Grass),
            5 => Some(PokemonType::Ice),
            6 => Some(PokemonType::Fighting),
            7 => Some(PokemonType::Poison),
            8 => Some(PokemonType::Ground),
            9 => Some(PokemonType::Flying),
            10 => Some(PokemonType::Psychic),
            11 => Some(PokemonType::Bug),
            12 => Some(PokemonType::Rock),
            13 => Some(PokemonType::GhostType),
            14 => Some(PokemonType::Dragon),
            15 => Some(PokemonType::Dark),
            16 => Some(PokemonType::Steel),
            17 => Some(PokemonType::Fairy),
            _ => None,
        }
    }

    /// Position of the kind in declaration order.
    pub fn to_index(self) -> (r: usize)
        ensures
            r == self.index(),
    {
        match self {
            PokemonType::Normal => 0,
            PokemonType::Fire => 1,
            PokemonType::Water => 2,
            PokemonType::Electric => 3,
            PokemonType::Grass => 4,
            PokemonType::Ice => 5,
            PokemonType::Fighting => 6,
            PokemonType::Poison => 7,
            PokemonType::Ground => 8,
            PokemonType::Flying => 9,
            PokemonType::Psychic => 10,
            PokemonType::Bug => 11,
            PokemonType::Rock => 12,
            PokemonType::GhostType => 13,
            PokemonType::Dragon => 14,
            PokemonType::Dark => 15,
            PokemonType::Steel => 16,
            PokemonType::Fairy => 17,
        }
    }
    /// The kind's display colour.
    pub open spec fn spec_color(self) -> Seq<u8> {
        match self {
            PokemonType::Normal => seq![168, 168, 120],
            PokemonType::Fire => seq![240, 128, 48],
            PokemonType::Water => seq![104, 144, 240],
            PokemonType::Electric => seq![248, 208, 48],
            PokemonType::Grass => seq![120, 200, 80],
            PokemonType::Ice => seq![152, 216, 216],
            PokemonType::Fighting => seq![192, 48, 40],
            PokemonType::Poison => seq![160, 64, 160],
            PokemonType::Ground => seq![224, 192, 104],
            PokemonType::Flying => seq![168, 144, 240],
            PokemonType::Psychic => seq![248, 88, 136],
            PokemonType::Bug => seq![168, 184, 32],
            PokemonType::Rock => seq![184, 160, 56],
            PokemonType::GhostType => seq![112, 88, 152],
            PokemonType::Dragon => seq![112, 56, 248],
            PokemonType::Dark => seq![112, 88, 72],
            PokemonType::Steel => seq![184, 184, 208],
            PokemonType::Fairy => seq![240, 182, 188],
        }
    }

    /// The kind's display colour as red, green and blue.
    pub fn color(self) -> (r: [u8; 3])
        ensures
            r@ == self.spec_color(),
    {
        match self {
            PokemonType::Normal => [168, 168, 120],
            PokemonType::Fire => [240, 128, 48],
            PokemonType::Water => [104, 144, 240],
            PokemonType::Electric => [248, 208, 48],
            PokemonType::Grass => [120, 200, 80],
            PokemonType::Ice => [152, 216, 216],
            PokemonType::Fighting => [192, 48, 40],
            PokemonType::Poison => [160, 64, 160],
            PokemonType::Ground => [224, 192, 104],
            PokemonType::Flying => [168, 144, 240],
            PokemonType::Psychic => [248, 88, 136],
            PokemonType::Bug => [168, 184, 32],
            PokemonType::Rock => [184, 160, 56],
            PokemonType::GhostType => [112, 88, 152],
            PokemonType::Dragon => [112, 56, 248],
            PokemonType::Dark => [112, 88, 72],
            PokemonType::Steel => [184, 184, 208],
            PokemonType::Fairy => [240, 182, 188],
        }
    }
}

/// The row of `attacker` in the effectiveness table, indexed by defender.
pub open spec fn type_chart_row(attacker: PokemonType) -> Seq<i32> {
    match attacker {
        PokemonType::Normal => seq![100, 100, 100, 100, 100, 100, 100, 100, 100, 100, 100, 100,  50,   0, 100, 100,  50, 100],
        PokemonType::Fire => seq![100,  50,  50, 100, 200, 200, 100, 100, 100, 100, 100, 200,  50, 100,  50, 100, 200, 100],
        PokemonType::Water => seq![100, 200,  50, 100,  50, 100, 100, 100, 200, 100, 100, 100, 200, 100,  50, 100, 100, 100],
        PokemonType::Electric => seq![100, 100, 200,  50,  50, 100, 100, 100,   0, 200, 100, 100, 100, 100,  50, 100, 100, 100],
        PokemonType::Grass => seq![100,  50, 200, 100,  50, 100, 100,  50, 200,  50, 100,  50, 200, 100,  50, 100,  50, 100],
        PokemonType::Ice => seq![100,  50,  50, 100, 200,  50, 100, 100, 200, 200, 100, 100, 100, 100, 200, 100,  50, 100],
        PokemonType::Fighting => seq![200, 100, 100, 100, 100, 200, 100,  50, 100,  50,  50,  50, 200,   0, 100, 200, 200,  50],
        PokemonType::Poison => seq![100, 100, 100, 100, 200, 100, 100,  50,  50, 100, 100, 100,  50,  50, 100, 100,   0, 200],
        PokemonType::Ground => seq![100, 200, 100, 200,  50, 100, 100, 200, 100,   0, 100,  50, 200, 100, 100, 100, 200, 100],
        PokemonType::Flying => seq![100, 100, 100,  50, 200, 100, 200, 100, 100, 100, 100, 200,  50, 100, 100, 100,  50, 100],
        PokemonType::Psychic => seq![100, 100, 100, 100, 100, 100, 200, 200, 100, 100,  50, 100, 100, 100, 100,   0,  50, 100],
        PokemonType::Bug => seq![100,  50, 100, 100, 200, 100,  50,  50, 100,  50, 200, 100, 100,  50, 100, 200,  50,  50],
        PokemonType::Rock => seq![100, 200, 100, 100, 100, 200,  50, 100,  50, 200, 100, 200, 100, 100, 100, 100,  50, 100],
        PokemonType::GhostType => seq![  0, 100, 100, 100, 100, 100, 100, 100, 100, 100, 200, 100, 100, 200, 100,  50, 100, 100],
        PokemonType::Dragon => seq![100, 100, 100, 100, 100, 100, 100, 100, 100, 100, 100, 100, 100, 100, 200, 100,  50,   0],
        PokemonType::Dark => seq![100, 100, 100, 100, 100, 100,  50, 100, 100, 100, 200, 100, 100, 200, 100,  50, 100,  50],
        PokemonType::Steel => seq![100,  50,  50,  50, 100, 200, 100, 100, 100, 100, 100, 100, 200, 100, 100, 100,  50, 200],
        PokemonType::Fairy => seq![100,  50, 100, 100, 100, 100, 200,  50, 100, 100, 100, 100, 100, 100, 200, 200,  50, 100],
    }
}

fn type_chart_row_of(attacker: PokemonType) -> (r: [i32; 18])
    ensures
        r@ == type_chart_row(attacker),
{
    match attacker {
        PokemonType::Normal => [100, 100, 100, 100, 100, 100, 100, 100, 100, 100, 100, 100,  50,   0, 100, 100,  50, 100],
        PokemonType::Fire => [100,  50,  50, 100, 200, 200, 100, 100, 100, 100, 100, 200,  50, 100,  50, 100, 200, 100],
        PokemonType::Water => [100, 200,  50, 100,  50, 100, 100, 100, 200, 100, 100, 100, 200, 100,  50, 100, 100, 100],
        PokemonType::Electric => [100, 100, 200,  50,  50, 100, 100, 100,   0, 200, 100, 100, 100, 100,  50, 100, 100, 100],
        PokemonType::Grass => [100,  50, 200, 100,  50, 100, 100,  50, 200,  50, 100,  50, 200, 100,  50, 100,  50, 100],
        PokemonType::Ice => [100,  50,  50, 100, 200,  50, 100, 100, 200, 200, 100, 100, 100, 100, 200, 100,  50, 100],
        PokemonType::Fighting => [200, 100, 100, 100, 100, 200, 100,  50, 100,  50,  50,  50, 200,   0, 100, 200, 200,  50],
        PokemonType::Poison => [100, 100, 100, 100, 200, 100, 100,  50,  50, 100, 100, 100,  50,  50, 100, 100,   0, 200],
        PokemonType::Ground => [100, 200, 100, 200,  50, 100, 100, 200, 100,   0, 100,  50, 200, 100, 100, 100, 200, 100],
        PokemonType::Flying => [100, 100, 100,  50, 200, 100, 200, 100, 100, 100, 100, 200,  50, 100, 100, 100,  50, 100],
        PokemonType::Psychic => [100, 100, 100, 100, 100, 100, 200, 200, 100, 100,  50, 100, 100, 100, 100,   0,  50, 100],
        PokemonType::Bug => [100,  50, 100, 100, 200, 100,  50,  50, 100,  50, 200, 100, 100,  50, 100, 200,  50,  50],
        PokemonType::Rock => [100, 200, 100, 100, 100, 200,  50, 100,  50, 200, 100, 200, 100, 100, 100, 100,  50, 100],
        PokemonType::GhostType => [  0, 100, 100, 100, 100, 100, 100, 100, 100, 100, 200, 100, 100, 200, 100,  50, 100, 100],
        PokemonType::Dragon => [100, 100, 100, 100, 100, 100, 100, 100, 100, 100, 100, 100, 100, 100, 200, 100,  50,   0],
        PokemonType::Dark => [100, 100, 100, 100, 100, 100,  50, 100, 100, 100, 200, 100, 100, 200, 100,  50, 100,  50],
        PokemonType::Steel => [100,  50,  50,  50, 100, 200, 100, 100, 100, 100, 100, 100, 200, 100, 100, 100,  50, 200],
        PokemonType::Fairy => [100,  50, 100, 100, 100, 100, 200,  50, 100, 100, 100, 100, 100, 100, 200, 200,  50, 100],
    }
}

/// The type chart: the effectiveness, in percent, of an attack of type
/// `attacker` on a Pokémon of type `defender`.
pub open spec fn type_chart(attacker: PokemonType, defender: PokemonType) -> int {
    type_chart_row(attacker)[defender.index() as int] as int
}

/// Every entry of the type chart is 0, 50, 100 or 200.
pub proof fn lemma_type_chart_values(attacker: PokemonType, defender: PokemonType)
    ensures
        type_chart(attacker, defender) == 0 || type_chart(attacker, defender) == 50
            || type_chart(attacker, defender) == 100 || type_chart(attacker, defender) == 200,
{
}

/// Looks up the type chart.
pub fn get_effectiveness(attacker: PokemonType, defender: PokemonType) -> (r: i32)
    ensures
        r == type_chart(attacker, defender),
{
    let row = type_chart_row_of(attacker);
    row[defender.to_index()]
}

/// A fighter of one Pokémon type, with health and a base damage.
#[derive(Clone, Copy, Debug, PartialEq, Eq, Structural)]
pub struct Pokemon {
    pub health: i32,
    pub damage: i32,
    pub kind: PokemonType,
}

impl Pokemon {
    /// A Pokémon of the given type at full health.
    pub open spec fn fresh(kind: PokemonType) -> Pokemon {
        Pokemon { health: POKEMON_HEALTH, damage: POKEMON_DAMAGE, kind }
    }

    pub fn new(kind: PokemonType) -> (r: Self)
        ensures
            r == Pokemon::fresh(kind),
    {
        Pokemon { health: POKEMON_HEALTH, damage: POKEMON_DAMAGE, kind }
    }

    /// Turns this Pokémon into a fresh one of type `kind`.
    pub fn reset(&mut self, kind: PokemonType)
        ensures
            *final(self) == Pokemon::fresh(kind),
    {
        self.health = POKEMON_HEALTH;
        self.damage = POKEMON_DAMAGE;
        self.kind = kind;
    }

    /// Subtracts `damage` from the health; returns whether none is left.
    pub fn take_damage(&mut self, damage: i32) -> (dead: bool)
        requires
            i32::MIN <= old(self).health - damage <= i32::MAX,
        ensures
            final(self).health == old(self).health - damage,
            final(self).damage == old(self).damage,
            final(self).kind == old(self).kind,
            dead == (final(self).health <= 0),
    {
        self.health = self.health - damage;
        self.health <= 0
    }
}

impl Fighter for Pokemon {
    open spec fn valid(&self) -> bool {
        0 < self.health <= POKEMON_HEALTH && self.damage == POKEMON_DAMAGE
    }

    open spec fn spec_should_fight(&self, defender: &Self) -> bool {
        self.kind != defender.kind
    }

    open spec fn spec_effectiveness(&self, defender: &Self) -> int {
        type_chart(self.kind, defender.kind)
    }

    /// The attack deals `damage * effectiveness / 100`; a defender left with
    /// no health becomes a fresh Pokémon of the attacker's type.
    open spec fn spec_fight(&self, defender: &Self, roll: int) -> (Pokemon, bool) {
        let health = defender.health - self.damage * type_chart(self.kind, defender.kind) / 100;
        if health <= 0 {
            (Pokemon::fresh(self.kind), true)
        } else {
            (Pokemon { health: health as i32, damage: defender.damage, kind: defender.kind }, false)
        }
    }

    fn should_fight(&self, defender: &Self) -> (r: bool) {
        self.kind != defender.kind
    }

    fn get_effectiveness(&self, defender: &Self) -> (r: i32) {
        get_effectiveness(self.kind, defender.kind)
    }

    fn fight(&self, defender: &mut Self, roll: u8) -> (dead: bool) {
        let effectiveness = self.get_effectiveness(defender);
        proof {
            lemma_type_chart_values(self.kind, defender.kind);
        }
        let damage = self.damage * effectiveness / 100;
        let is_dead = defender.take_damage(damage);
        if is_dead {
            defender.reset(self.kind);
        }
        is_dead
    }
}

impl GenerateRandomly for Pokemon {
    /// A fighter of a random kind, at full health.
    fn generate_randomly(rng: &mut StdRng) -> (r: Self)
        ensures
            r == Pokemon::fresh(r.kind),
    {
        let t = draw_below(rng, POKEMON_TYPE_COUNT);
        let kind = PokemonType::from_repr(t).unwrap();
        Pokemon::new(kind)
    }
}

impl Colored for Pokemon {
    fn color(&self) -> (r: [u8; 3])
        ensures
            r@ == self.kind.spec_color(),
    {
        self.kind.color()
    }
}

} // verus!
