use poke_fighting_rust::pokemon::get_effectiveness;
use poke_fighting_rust::{Colored, Fighter, Pokemon, PokemonType};

#[test]
fn pokemon_convert_type_from_usize() {
    assert_eq!(PokemonType::from_repr(0).unwrap(), PokemonType::Normal);
    assert_eq!(PokemonType::from_repr(17).unwrap(), PokemonType::Fairy);
}

#[test]
fn pokemon_from_repr_past_last_type_is_none() {
    assert_eq!(PokemonType::from_repr(18), None);
    assert_eq!(PokemonType::Fairy.to_index(), 17);
}

#[test]
fn pokemon_test_get_effectiveness() {
    assert_eq!(
        Pokemon::new(PokemonType::Normal).get_effectiveness(&Pokemon::new(PokemonType::Normal)),
        100
    );
    assert_eq!(
        Pokemon::new(PokemonType::Fire).get_effectiveness(&Pokemon::new(PokemonType::Steel)),
        200
    );
    assert_eq!(
        Pokemon::new(PokemonType::Water).get_effectiveness(&Pokemon::new(PokemonType::Grass)),
        50
    );
}

#[test]
fn type_chart_is_not_symmetric() {
    assert_eq!(get_effectiveness(PokemonType::Fire, PokemonType::Steel), 200);
    assert_eq!(get_effectiveness(PokemonType::Steel, PokemonType::Fire), 50);
    assert_eq!(get_effectiveness(PokemonType::Normal, PokemonType::GhostType), 0);
}

#[test]
fn pokemon_test_get_color() {
    assert_eq!(Pokemon::new(PokemonType::Normal).color(), [168, 168, 120]);
    assert_eq!(Pokemon::new(PokemonType::Fairy).color(), [240, 182, 188]);
}

#[test]
fn pokemon_test_damage() {
    let mut fighter = Pokemon::new(PokemonType::Normal);
    let health = fighter.health;
    let dead = fighter.take_damage(40);

    assert_ne!(health, fighter.health);
    assert!(!dead);

    let health = fighter.health;
    let dead = fighter.take_damage(40);

    assert_ne!(health, fighter.health);
    assert!(dead);
}

#[test]
fn pokemon_test_reset() {
    let mut fighter = Pokemon::new(PokemonType::Normal);
    fighter.reset(PokemonType::Fire);
    assert_eq!(fighter.kind, PokemonType::Fire);

    let dead = fighter.take_damage(80);
    assert!(dead);

    fighter.reset(PokemonType::Dragon);
    assert_eq!(fighter.kind, PokemonType::Dragon);

    let dead = fighter.take_damage(40);
    assert!(!dead);
}

#[test]
fn super_effective_fight_kills_and_converts() {
    let attacker = Pokemon::new(PokemonType::Fire);
    let mut defender = Pokemon::new(PokemonType::Steel);
    assert_eq!(attacker.get_effectiveness(&defender), 200);
    let dead = attacker.fight(&mut defender, 0);
    assert!(dead);
    assert_eq!(defender.kind, PokemonType::Fire);
    assert_eq!(defender.health, 80);
    assert_eq!(defender.damage, 40);
    assert_eq!(attacker, Pokemon::new(PokemonType::Fire));
}

#[test]
fn not_very_effective_fight_wounds() {
    let attacker = Pokemon::new(PokemonType::Water);
    let mut defender = Pokemon::new(PokemonType::Grass);
    let dead = attacker.fight(&mut defender, 99);
    assert!(!dead);
    assert_eq!(defender.kind, PokemonType::Grass);
    assert_eq!(defender.health, 80 - 40 * 50 / 100);
}

#[test]
fn immune_defender_takes_no_damage() {
    let attacker = Pokemon::new(PokemonType::Normal);
    let mut defender = Pokemon::new(PokemonType::GhostType);
    assert!(!attacker.fight(&mut defender, 0));
    assert_eq!(defender.health, 80);
}

#[test]
fn pokemon_fights_only_other_types_when_filtered() {
    let fire = Pokemon::new(PokemonType::Fire);
    assert!(!fire.should_fight(&Pokemon::new(PokemonType::Fire)));
    assert!(fire.should_fight(&Pokemon::new(PokemonType::Water)));
}
