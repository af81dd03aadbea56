use rand::rngs::StdRng;
use vstd::prelude::*;

use crate::battle::Fighter;
use crate::pokemon::{get_effectiveness, lemma_type_chart_values, type_chart, PokemonType};
use crate::random::draw_below;
use crate::types::Colored;

verus! {

/// Largest base stat a Pokémon can have.
pub const MAX_BASE_STAT: i32 = 255;

/// The base stats of a Pokémon as a Pokédex lists them.
#[derive(Clone, Copy, Debug, PartialEq, Eq, Structural)]
pub struct BaseStats {
    pub hp: i32,
    pub attack: i32,
    pub defense: i32,
    pub sp_attack: i32,
    pub sp_defense: i32,
    pub speed: i32,
}

/// A Pokémon of the Pokédex: a name, one or two types and base stats.
#[derive(Clone, Debug, PartialEq)]
pub struct RealPokemon {
    pub name: String,
    pub type1: PokemonType,
    pub type2: Option<PokemonType>,
    pub hp: i32,
    pub attack: i32,
    pub defense: i32,
    pub sp_attack: i32,
    pub sp_defense: i32,
    pub speed: i32,
}

/// A base stat from 1 to `MAX_BASE_STAT`.
pub open spec fn is_base_stat(v: i32) -> bool {
    1 <= v <= MAX_BASE_STAT
}

/// The effectiveness, in hundredths of a percent, of an attack of the
/// attacker's first type on both types of the defender (a missing second
/// type counts as neutral, 100).
pub open spec fn dual_effectiveness(attacker: RealPokemon, defender: RealPokemon) -> int {
    let second = match defender.type2 {
        Some(t) => type_chart(attacker.type1, t),
        None => 100,
    };
    type_chart(attacker.type1, defender.type1) * second
}

/// The damage of one hit: a level-5, power-40 move of the attacker's first
/// type, on the better of its physical and special attack-to-defence ratios
/// (in thousandths), scaled by the dual effectiveness, plus 2.
pub open spec fn hit_damage(attacker: RealPokemon, defender: RealPokemon) -> int {
    let physical = 1000 * attacker.attack / defender.defense as int;
    let special = 1000 * attacker.sp_attack / defender.sp_defense as int;
    let ratio = if physical >= special {
        physical
    } else {
        special
    };
    4 * 40 * ratio / 50000 * dual_effectiveness(attacker, defender) / 10000 + 2
}

/// The hit points left to `a` and `d` after they exchange hits, `a` first,
/// from `a_hp` and `d_hp`, until one of them falls below 0.
pub open spec fn exchange(a: RealPokemon, d: RealPokemon, a_hp: int, d_hp: int) -> (int, int)
    decreases d_hp,
    when hit_damage(a, d) > 0
{
    if a_hp < 0 || d_hp < 0 {
        (a_hp, d_hp)
    } else if d_hp - hit_damage(a, d) < 0 {
        (a_hp, d_hp - hit_damage(a, d))
    } else {
        exchange(a, d, a_hp - hit_damage(d, a), d_hp - hit_damage(a, d))
    }
}

/// The outcome of `attacker` taking on `defender`: both start from the
/// attacker's hit points, a strictly faster defender strikes first, then
/// they exchange hits; the defender dies when its hit points fall below 0.
pub open spec fn duel_won(attacker: RealPokemon, defender: RealPokemon) -> bool {
    let first = if defender.speed > attacker.speed {
        attacker.hp - hit_damage(defender, attacker)
    } else {
        attacker.hp as int
    };
    exchange(attacker, defender, first, attacker.hp as int).1 < 0
}

/// A hit between Pokémon with base stats does from 2 to 3266 damage.
proof fn lemma_hit_damage_bounds(attacker: RealPokemon, defender: RealPokemon)
    requires
        attacker.valid(),
        defender.valid(),
    ensures
        0 <= dual_effectiveness(attacker, defender) <= 40000,
        2 <= hit_damage(attacker, defender) <= 3266,
{
    let physical = 1000 * attacker.attack / defender.defense as int;
    let special = 1000 * attacker.sp_attack / defender.sp_defense as int;
    assert(0 <= physical <= 255000) by (nonlinear_arith)
        requires
            physical == 1000 * attacker.attack / defender.defense as int,
            1 <= attacker.attack <= 255,
            1 <= defender.defense <= 255,
    ;
    assert(0 <= special <= 255000) by (nonlinear_arith)
        requires
            special == 1000 * attacker.sp_attack / defender.sp_defense as int,
            1 <= attacker.sp_attack <= 255,
            1 <= defender.sp_defense <= 255,
    ;
    let ratio = if physical >= special {
        physical
    } else {
        special
    };
    lemma_type_chart_values(attacker.type1, defender.type1);
    if let Some(t) = defender.type2 {
        lemma_type_chart_values(attacker.type1, t);
    }
    let e = dual_effectiveness(attacker, defender);
    assert(0 <= e <= 40000) by (nonlinear_arith)
        requires
            e == type_chart(attacker.type1, defender.type1) * (match defender.type2 {
                Some(t) => type_chart(attacker.type1, t),
                None => 100,
            }),
            0 <= type_chart(attacker.type1, defender.type1) <= 200,
            0 <= (match defender.type2 {
                Some(t) => type_chart(attacker.type1, t),
                None => 100,
            }) <= 200,
    ;
    let scaled = 4 * 40 * ratio / 50000;
    assert(0 <= scaled <= 816) by (nonlinear_arith)
        requires
            scaled == 4 * 40 * ratio / 50000,
            0 <= ratio <= 255000,
    ;
    assert(0 <= scaled * e / 10000 <= 3264) by (nonlinear_arith)
        requires
            0 <= scaled <= 816,
            0 <= e <= 40000,
    ;
}

impl RealPokemon {
    /// A copy of this Pokémon.
    pub fn duplicate(&self) -> (r: Self)
        ensures
            r == *self,
    {
        RealPokemon {
            name: self.name.clone(),
            type1: self.type1,
            type2: self.type2,
            hp: self.hp,
            attack: self.attack,
            defense: self.defense,
            sp_attack: self.sp_attack,
            sp_defense: self.sp_defense,
            speed: self.speed,
        }
    }
}

/// Takes one hit of `attacker` on `defender` off `defender_hp`.
fn strike(attacker: &RealPokemon, defender: &RealPokemon, defender_hp: &mut i32)
    requires
        attacker.valid(),
        defender.valid(),
        *old(defender_hp) >= -3266,
    ensures
        *final(defender_hp) == *old(defender_hp) - hit_damage(*attacker, *defender),
{
    proof {
        lemma_hit_damage_bounds(*attacker, *defender);
    }
    let physical = 1000 * attacker.attack / defender.defense;
    let special = 1000 * attacker.sp_attack / defender.sp_defense;
    let ratio = physical.max(special);
    let effectiveness = attacker.get_effectiveness(defender);
    assert(0 <= 4 * 40 * ratio <= 40800000) by (nonlinear_arith)
        requires
            0 <= ratio <= 255000,
    ;
    let scaled = 4 * 40 * ratio / 50000;
    assert(0 <= scaled * effectiveness <= 32640000) by (nonlinear_arith)
        requires
            0 <= scaled <= 816,
            0 <= effectiveness <= 40000,
    ;
    let damage = scaled * effectiveness / 10000 + 2;
    *defender_hp = *defender_hp - damage;
}

impl Fighter for RealPokemon {
    /// Every base stat lies from 1 to `MAX_BASE_STAT`.
    open spec fn valid(&self) -> bool {
        &&& is_base_stat(self.hp)
        &&& is_base_stat(self.attack)
        &&& is_base_stat(self.defense)
        &&& is_base_stat(self.sp_attack)
        &&& is_base_stat(self.sp_defense)
        &&& is_base_stat(self.speed)
    }

    open spec fn spec_should_fight(&self, defender: &Self) -> bool {
        self.name@ != defender.name@
    }

    open spec fn spec_effectiveness(&self, defender: &Self) -> int {
        dual_effectiveness(*self, *defender)
    }

    /// A defender that loses the duel becomes a copy of the attacker.
    open spec fn spec_fight(&self, defender: &Self, roll: int) -> (RealPokemon, bool) {
        if duel_won(*self, *defender) {
            (*self, true)
        } else {
            (*defender, false)
        }
    }

    fn should_fight(&self, defender: &Self) -> (r: bool) {
        self.name != defender.name
    }

    fn get_effectiveness(&self, defender: &Self) -> (r: i32) {
        proof {
            lemma_type_chart_values(self.type1, defender.type1);
            if let Some(t) = defender.type2 {
                lemma_type_chart_values(self.type1, t);
            }
        }
        let second = match defender.type2 {
            Some(t) => get_effectiveness(self.type1, t),
            None => 100,
        };
        let first = get_effectiveness(self.type1, defender.type1);
        assert(0 <= first * second <= 40000) by (nonlinear_arith)
            requires
                0 <= first <= 200,
                0 <= second <= 200,
        ;
        first * second
    }

    fn fight(&self, defender: &mut Self, roll: u8) -> (dead: bool) {
        proof {
            lemma_hit_damage_bounds(*self, *defender);
            lemma_hit_damage_bounds(*defender, *self);
        }
        let ghost opponent = *defender;
        let mut attacker_hp = self.hp;
        let mut defender_hp = self.hp;
        if defender.speed > self.speed {
            strike(defender, self, &mut attacker_hp);
        }
        let ghost outcome = exchange(*self, opponent, attacker_hp as int, defender_hp as int);
        while attacker_hp >= 0 && defender_hp >= 0
            invariant
                *defender == opponent,
                self.valid(),
                opponent.valid(),
                2 <= hit_damage(*self, opponent) <= 3266,
                2 <= hit_damage(opponent, *self) <= 3266,
                -3266 <= attacker_hp <= MAX_BASE_STAT,
                -3266 <= defender_hp <= MAX_BASE_STAT,
                exchange(*self, opponent, attacker_hp as int, defender_hp as int) == outcome,
            decreases defender_hp + 3266,
        {
            strike(self, defender, &mut defender_hp);
            if defender_hp >= 0 {
                strike(defender, self, &mut attacker_hp);
            }
        }
        if defender_hp < 0 {
            *defender = self.duplicate();
            true
        } else {
            false
        }
    }
}

impl Colored for RealPokemon {
    fn color(&self) -> (r: [u8; 3])
        ensures
            r@ == self.type1.spec_color(),
    {
        self.type1.color()
    }
}

/// A Pokédex entry turned into a fighter: `None` without base stats or
/// without a type; a second listed type becomes the second type.
pub fn map_pokemon(name: String, types: &Vec<PokemonType>, base: Option<BaseStats>) -> (r: Option<
    RealPokemon,
>)
    ensures
        r is Some <==> base is Some && types@.len() > 0,
        r matches Some(p) ==> {
            &&& p.name == name
            &&& p.type1 == types@[0]
            &&& p.type2 == (if types@.len() > 1 {
                Some(types@[1])
            } else {
                None::<PokemonType>
            })
            &&& base matches Some(b) && p.hp == b.hp && p.attack == b.attack && p.defense
                == b.defense && p.sp_attack == b.sp_attack && p.sp_defense == b.sp_defense
                && p.speed == b.speed
        },
{
    let base = match base {
        Some(b) => b,
        None => {
            return None;
        },
    };
    if types.len() == 0 {
        return None;
    }
    let type1 = types[0];
    let type2 = if types.len() > 1 {
        Some(types[1])
    } else {
        None
    };
    Some(
        RealPokemon {
            name,
            type1,
            type2,
            hp: base.hp,
            attack: base.attack,
            defense: base.defense,
            sp_attack: base.sp_attack,
            sp_defense: base.sp_defense,
            speed: base.speed,
        },
    )
}

/// Draws fighters from a roster of Pokédex entries.
pub struct RealPokemonGenerator {
    pokemons: Vec<RealPokemon>,
}

impl RealPokemonGenerator {
    pub closed spec fn roster(&self) -> Seq<RealPokemon> {
        self.pokemons@
    }

    pub fn new(pokemons: Vec<RealPokemon>) -> (r: Self)
        ensures
            r.roster() == pokemons@,
    {
        RealPokemonGenerator { pokemons }
    }

    /// A copy of an entry of the roster drawn at random; `None` for an
    /// empty roster.
    pub fn generate_randomly(&self, rng: &mut StdRng) -> (r: Option<RealPokemon>)
        ensures
            r is Some <==> self.roster().len() > 0,
            r matches Some(p) ==> self.roster().contains(p),
    {
        let count = self.pokemons.len();
        if count == 0 {
            return None;
        }
        let i = draw_below(rng, count);
        let p = self.pokemons[i].duplicate();
        assert(self.roster()[i as int] == p);
        Some(p)
    }
}

} // verus!
