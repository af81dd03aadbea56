use poke_fighting_rust::real_pokemons::{map_pokemon, BaseStats, RealPokemonGenerator};
use poke_fighting_rust::{Colored, Fighter, PokemonType, RealPokemon};
use rand::rngs::StdRng;
use rand::SeedableRng;

fn entry(name: &str, types: Vec<PokemonType>, stats: [i32; 6]) -> RealPokemon {
    let [hp, attack, defense, sp_attack, sp_defense, speed] = stats;
    let base = BaseStats { hp, attack, defense, sp_attack, sp_defense, speed };
    map_pokemon(name.to_string(), &types, Some(base)).unwrap()
}

fn bulbasaur() -> RealPokemon {
    entry("Bulbasaur", vec![PokemonType::Grass, PokemonType::Poison], [45, 49, 49, 65, 65, 45])
}

fn charmander() -> RealPokemon {
    entry("Charmander", vec![PokemonType::Fire], [39, 52, 43, 60, 50, 65])
}

fn squirtle() -> RealPokemon {
    entry("Squirtle", vec![PokemonType::Water], [44, 48, 65, 50, 64, 43])
}

#[test]
fn map_pokemon_reads_types_and_stats() {
    let b = bulbasaur();
    assert_eq!(b.name, "Bulbasaur");
    assert_eq!(b.type1, PokemonType::Grass);
    assert_eq!(b.type2, Some(PokemonType::Poison));
    assert_eq!((b.hp, b.attack, b.defense), (45, 49, 49));
    assert_eq!((b.sp_attack, b.sp_defense, b.speed), (65, 65, 45));
    assert_eq!(charmander().type2, None);
}

#[test]
fn map_pokemon_needs_base_stats_and_a_type() {
    let base = BaseStats { hp: 1, attack: 1, defense: 1, sp_attack: 1, sp_defense: 1, speed: 1 };
    assert!(map_pokemon("Nothing".to_string(), &vec![], Some(base)).is_none());
    assert!(map_pokemon("Nothing".to_string(), &vec![PokemonType::Normal], None).is_none());
}

#[test]
fn dual_type_effectiveness_multiplies() {
    assert_eq!(charmander().get_effectiveness(&bulbasaur()), 20000);
    assert_eq!(bulbasaur().get_effectiveness(&charmander()), 5000);
    assert_eq!(squirtle().get_effectiveness(&charmander()), 20000);
}

#[test]
fn duel_winner_converts_the_defender() {
    let attacker = charmander();
    let mut defender = bulbasaur();
    assert!(attacker.fight(&mut defender, 0));
    assert_eq!(defender, charmander());
}

#[test]
fn duel_loser_leaves_the_defender_alone() {
    let attacker = bulbasaur();
    let mut defender = charmander();
    assert!(!attacker.fight(&mut defender, 0));
    assert_eq!(defender, charmander());
}

#[test]
fn real_pokemon_fights_other_names_and_shows_first_type() {
    assert!(charmander().should_fight(&bulbasaur()));
    assert!(!charmander().should_fight(&charmander()));
    assert_eq!(charmander().color(), [240, 128, 48]);
}

#[test]
fn generator_draws_from_the_roster() {
    let mut rng = StdRng::seed_from_u64(9);
    let empty = RealPokemonGenerator::new(vec![]);
    assert!(empty.generate_randomly(&mut rng).is_none());

    let roster = vec![bulbasaur(), charmander(), squirtle()];
    let generator = RealPokemonGenerator::new(roster.clone());
    for _ in 0..20 {
        let drawn = generator.generate_randomly(&mut rng).unwrap();
        assert!(roster.contains(&drawn));
    }
}
