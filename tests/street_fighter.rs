use poke_fighting_rust::{Colored, Fighter, StreetFighter, StreetFighterType};

#[test]
fn street_fighter_test_get_effectiveness() {
    let seth = StreetFighter::new(StreetFighterType::Seth);
    assert_eq!(seth.get_effectiveness(&StreetFighter::new(StreetFighterType::Seth)), 0);
    assert_eq!(seth.get_effectiveness(&StreetFighter::new(StreetFighterType::CViper)), 40);
    assert_eq!(
        StreetFighter::new(StreetFighterType::CViper)
            .get_effectiveness(&StreetFighter::new(StreetFighterType::Seth)),
        60
    );
    assert_eq!(
        StreetFighter::new(StreetFighterType::THawk)
            .get_effectiveness(&StreetFighter::new(StreetFighterType::Blanka)),
        20
    );
}

#[test]
fn street_fighter_test_get_color() {
    assert_eq!(StreetFighter::new(StreetFighterType::Seth).color(), [100, 122, 4]);
    assert_eq!(StreetFighter::new(StreetFighterType::Dan).color(), [136, 51, 0]);
}

#[test]
fn street_fighter_test_damage() {
    let attacker = StreetFighter::new(StreetFighterType::CViper);
    let mut defender = StreetFighter::new(StreetFighterType::Seth);
    assert!(attacker.fight(&mut defender, 59));
    assert_eq!(defender.kind, StreetFighterType::CViper);

    let mut defender = StreetFighter::new(StreetFighterType::Seth);
    assert!(!attacker.fight(&mut defender, 60));
    assert_eq!(defender.kind, StreetFighterType::Seth);
}

#[test]
fn street_fighter_test_reset() {
    let mut fighter = StreetFighter::new(StreetFighterType::Ryu);
    fighter.reset(StreetFighterType::Ken);
    assert_eq!(fighter.kind, StreetFighterType::Ken);
}

#[test]
fn zero_win_chance_never_kills() {
    let attacker = StreetFighter::new(StreetFighterType::Dan);
    for roll in 0..100u8 {
        let mut defender = StreetFighter::new(StreetFighterType::Dan);
        assert!(!attacker.fight(&mut defender, roll));
        assert_eq!(defender.kind, StreetFighterType::Dan);
    }
}

#[test]
fn street_fighter_from_repr_bounds() {
    assert_eq!(StreetFighterType::from_repr(0), Some(StreetFighterType::Seth));
    assert_eq!(StreetFighterType::from_repr(38), Some(StreetFighterType::Dan));
    assert_eq!(StreetFighterType::from_repr(39), None);
}
