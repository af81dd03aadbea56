use poke_fighting_rust::{ColorFighter, Colored, Fighter};

#[test]
fn color_fight_convert_type_from_usize() {
    assert_eq!(ColorFighter::new().color(), [0, 0, 0]);
}

#[test]
fn color_fight_test_get_effectiveness() {
    let a = ColorFighter { color: [10, 20, 30] };
    let b = ColorFighter { color: [200, 0, 5] };
    assert_eq!(a.get_effectiveness(&b), 1);
    assert_eq!(b.get_effectiveness(&a), 1);
}

#[test]
fn color_fight_test_get_color() {
    assert_eq!(ColorFighter { color: [1, 2, 3] }.color(), [1, 2, 3]);
}

#[test]
fn color_fight_test_damage() {
    let mut fighter = ColorFighter { color: [100, 50, 20] };
    let dead = fighter.take_damage(&[30, 10, 5]);
    assert!(!dead);
    assert_eq!(fighter.color, [70, 40, 15]);
    let dead = fighter.take_damage(&[10, 200, 1]);
    assert!(dead);
    assert_eq!(fighter.color, [60, 0, 14]);
}

#[test]
fn color_fight_test_reset() {
    let mut fighter = ColorFighter::default();
    fighter.reset(&[9, 8, 7]);
    assert_eq!(fighter.color, [9, 8, 7]);
}

#[test]
fn color_fight_takes_attacker_color_on_death() {
    let attacker = ColorFighter { color: [255, 1, 1] };
    let mut defender = ColorFighter { color: [100, 100, 100] };
    assert!(attacker.fight(&mut defender, 0));
    assert_eq!(defender.color, [255, 1, 1]);

    let mut survivor = ColorFighter { color: [100, 100, 100] };
    let weak = ColorFighter { color: [1, 2, 3] };
    assert!(!weak.fight(&mut survivor, 0));
    assert_eq!(survivor.color, [99, 98, 97]);
}

#[test]
fn color_should_fight_needs_one_dominant_channel() {
    let a = ColorFighter { color: [10, 20, 30] };
    assert!(a.should_fight(&ColorFighter { color: [11, 21, 30] }));
    assert!(!a.should_fight(&ColorFighter { color: [11, 21, 31] }));
}
