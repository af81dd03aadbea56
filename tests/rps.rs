use poke_fighting_rust::{Colored, Fighter, RPSType, RPS};

#[test]
fn rps_test_get_effectiveness() {
    assert_eq!(
        RPS::new(RPSType::Rock).get_effectiveness(&RPS::new(RPSType::Scissor)),
        100
    );
    assert_eq!(
        RPS::new(RPSType::Paper).get_effectiveness(&RPS::new(RPSType::Rock)),
        100
    );
    assert_eq!(
        RPS::new(RPSType::Scissor).get_effectiveness(&RPS::new(RPSType::Paper)),
        100
    );

    assert_eq!(
        RPS::new(RPSType::Scissor).get_effectiveness(&RPS::new(RPSType::Rock)),
        0
    );
    assert_eq!(
        RPS::new(RPSType::Rock).get_effectiveness(&RPS::new(RPSType::Paper)),
        0
    );
    assert_eq!(
        RPS::new(RPSType::Paper).get_effectiveness(&RPS::new(RPSType::Scissor)),
        0
    );

    assert_eq!(
        RPS::new(RPSType::Scissor).get_effectiveness(&RPS::new(RPSType::Scissor)),
        0
    );
    assert_eq!(
        RPS::new(RPSType::Rock).get_effectiveness(&RPS::new(RPSType::Rock)),
        0
    );
    assert_eq!(
        RPS::new(RPSType::Paper).get_effectiveness(&RPS::new(RPSType::Paper)),
        0
    );
}

#[test]
fn rps_test_get_color() {
    assert_eq!(RPS::new(RPSType::Rock).color(), [128, 0, 0]);
    assert_eq!(RPS::new(RPSType::Paper).color(), [0, 0, 128]);
    assert_eq!(RPS::new(RPSType::Scissor).color(), [0, 128, 0]);
}

#[test]
fn rps_test_damage() {
    let mut fighter = RPS::new(RPSType::Rock);
    let health = fighter.health;
    let dead = fighter.take_damage(0);

    assert_eq!(health, fighter.health);
    assert!(!dead);

    let health = fighter.health;
    let dead = fighter.take_damage(100);

    assert_ne!(health, fighter.health);
    assert!(dead);
}

#[test]
fn rps_test_reset() {
    let mut fighter = RPS::new(RPSType::Rock);
    fighter.reset(RPSType::Paper);
    assert_eq!(fighter.kind, RPSType::Paper);

    let dead = fighter.take_damage(100);
    assert!(dead);

    fighter.reset(RPSType::Scissor);
    assert_eq!(fighter.kind, RPSType::Scissor);

    let dead = fighter.take_damage(0);
    assert!(!dead);
}

#[test]
fn rock_beats_scissor_in_one_fight() {
    let rock = RPS::new(RPSType::Rock);
    let mut scissor = RPS::new(RPSType::Scissor);
    assert!(rock.fight(&mut scissor, 50));
    assert_eq!(scissor, RPS::new(RPSType::Rock));

    let mut paper = RPS::new(RPSType::Paper);
    assert!(!rock.fight(&mut paper, 50));
    assert_eq!(paper, RPS::new(RPSType::Paper));
}

#[test]
fn rps_from_repr_covers_three_kinds() {
    assert_eq!(RPSType::from_repr(0), Some(RPSType::Rock));
    assert_eq!(RPSType::from_repr(2), Some(RPSType::Scissor));
    assert_eq!(RPSType::from_repr(3), None);
}
