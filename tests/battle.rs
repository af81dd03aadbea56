use poke_fighting_rust::{
    neighbours, Battle, Grid2D, Pokemon, PokemonType, SelectionAlgorithm, StreetFighter,
    StreetFighterType, RPSType, RPS,
};

fn pokemon_grid(kinds: Vec<PokemonType>, size: (usize, usize)) -> Grid2D<Pokemon> {
    Grid2D::from_cells(size, kinds.into_iter().map(Pokemon::new).collect()).unwrap()
}

fn fire_water_grass_water() -> Grid2D<Pokemon> {
    pokemon_grid(
        vec![
            PokemonType::Fire,
            PokemonType::Water,
            PokemonType::Grass,
            PokemonType::Water,
        ],
        (2, 2),
    )
}

#[test]
fn neighbours_of_corner_wrap_around() {
    assert_eq!(neighbours((0, 0), (4, 4)), [(0, 3), (1, 0), (0, 1), (3, 0)]);
    assert_eq!(neighbours((3, 3), (4, 4)), [(3, 2), (0, 3), (3, 0), (2, 3)]);
    assert_eq!(neighbours((1, 2), (4, 4)), [(1, 1), (2, 2), (1, 3), (0, 2)]);
}

#[test]
fn neighbours_coincide_on_small_grids() {
    assert_eq!(neighbours((0, 0), (1, 1)), [(0, 0), (0, 0), (0, 0), (0, 0)]);
    assert_eq!(neighbours((1, 0), (2, 2)), [(1, 1), (0, 0), (1, 1), (0, 0)]);
}

#[test]
fn weakest_neighbour_picks_highest_effectiveness() {
    let battle = Battle::with_fighters(
        fire_water_grass_water(),
        SelectionAlgorithm::WeakestNeighbour,
        false,
        1,
    );
    // Fire's neighbours are Grass (up, down) and Water (right, left); Grass
    // scores 200 and the later of the two ties wins.
    assert_eq!(battle.weakest_neighbour((0, 0)), Some((0, 1)));
    // Water at (1, 0): Water (up, down) 50, Fire (right, left) 200.
    assert_eq!(battle.weakest_neighbour((1, 0)), Some((0, 0)));
}

#[test]
fn tick_fight_on_two_by_two_grid_touches_only_the_defender() {
    let mut battle = Battle::with_fighters(
        fire_water_grass_water(),
        SelectionAlgorithm::WeakestNeighbour,
        false,
        1,
    );
    let target = battle.select_defender((0, 0)).unwrap();
    assert_eq!(target, (0, 1));
    battle.fight_with_roll((0, 0), target, 0);
    assert_eq!(battle.fighter((0, 1)), Some(&Pokemon::new(PokemonType::Fire)));
    assert_eq!(battle.fighter((0, 0)), Some(&Pokemon::new(PokemonType::Fire)));
    assert_eq!(battle.fighter((1, 0)), Some(&Pokemon::new(PokemonType::Water)));
    assert_eq!(battle.fighter((1, 1)), Some(&Pokemon::new(PokemonType::Water)));
}

#[test]
fn fight_between_same_location_is_a_no_op() {
    let mut battle = Battle::with_fighters(
        fire_water_grass_water(),
        SelectionAlgorithm::WeakestNeighbour,
        false,
        1,
    );
    battle.fight((1, 1), (1, 1));
    battle.fight((0, 0), (5, 5));
    assert_eq!(battle.fighter((1, 1)), Some(&Pokemon::new(PokemonType::Water)));
    assert_eq!(battle.fighter((0, 0)), Some(&Pokemon::new(PokemonType::Fire)));
    assert_eq!(battle.fighter((5, 5)), None);
}

#[test]
fn filtered_selection_finds_nothing_among_own_kind() {
    let mut battle = Battle::with_fighters(
        pokemon_grid(vec![PokemonType::Ice; 9], (3, 3)),
        SelectionAlgorithm::RandomNeighbour,
        true,
        3,
    );
    assert_eq!(battle.weakest_neighbour_filtered((1, 1)), None);
    assert_eq!(battle.random_neighbour_filtered((1, 1)), None);
    assert_eq!(battle.select_defender((1, 1)), None);
    assert!(battle.weakest_neighbour((1, 1)).is_some());
}

#[test]
fn random_neighbour_is_one_of_the_four() {
    let mut battle = Battle::with_fighters(
        pokemon_grid(vec![PokemonType::Ice; 25], (5, 5)),
        SelectionAlgorithm::RandomNeighbour,
        false,
        11,
    );
    let around = neighbours((2, 2), (5, 5));
    for _ in 0..50 {
        let picked = battle.random_neighbour((2, 2)).unwrap();
        assert!(around.contains(&picked));
    }
}

#[test]
fn random_filtered_picks_only_other_kinds() {
    let mut kinds = vec![PokemonType::Ice; 9];
    kinds[1] = PokemonType::Fire;
    let mut battle = Battle::with_fighters(
        pokemon_grid(kinds, (3, 3)),
        SelectionAlgorithm::RandomNeighbour,
        true,
        5,
    );
    for _ in 0..20 {
        assert_eq!(battle.random_neighbour_filtered((1, 1)), Some((1, 0)));
    }
}

#[test]
fn same_seed_gives_same_random_picks() {
    let make = || {
        Battle::with_fighters(
            pokemon_grid(vec![PokemonType::Ice; 16], (4, 4)),
            SelectionAlgorithm::RandomNeighbour,
            false,
            42,
        )
    };
    let mut a = make();
    let mut b = make();
    for _ in 0..20 {
        assert_eq!(a.random_neighbour((1, 1)), b.random_neighbour((1, 1)));
    }
}

#[test]
fn sweep_with_coprime_stride_visits_every_cell() {
    let mut battle = Battle::with_fighters(
        pokemon_grid(vec![PokemonType::Ice; 16], (4, 4)),
        SelectionAlgorithm::WeakestNeighbour,
        true,
        0,
    );
    assert_eq!(battle.sweep(3, 48817), 16);
    assert_eq!(battle.sweep(0, 1), 16);
}

#[test]
fn sweep_with_shared_factor_visits_part_of_the_grid() {
    let mut battle = Battle::with_fighters(
        pokemon_grid(vec![PokemonType::Ice; 16], (4, 4)),
        SelectionAlgorithm::WeakestNeighbour,
        true,
        0,
    );
    assert_eq!(battle.sweep(0, 4), 4);
    assert_eq!(battle.sweep(1, 6), 8);
    assert_eq!(battle.sweep(5, 16), 1);
}

#[test]
fn stride_two_sweep_gives_turns_to_even_cells_only() {
    // A stride of 2 on 4 cells visits only the even indices, (0, 0) and
    // (0, 1), both Rock; the Paper cells never attack, so Rock survives.
    let kinds = vec![RPSType::Rock, RPSType::Paper, RPSType::Rock, RPSType::Paper];
    let grid = Grid2D::from_cells((2, 2), kinds.into_iter().map(RPS::new).collect()).unwrap();
    let mut battle = Battle::with_fighters(grid, SelectionAlgorithm::WeakestNeighbour, true, 0);
    assert_eq!(battle.sweep(0, 2), 2);
    assert_eq!(battle.fighter((1, 0)), Some(&RPS::new(RPSType::Paper)));
    assert_eq!(battle.fighter((1, 1)), Some(&RPS::new(RPSType::Paper)));
    assert_eq!(battle.fighter((0, 0)), Some(&RPS::new(RPSType::Rock)));
    assert_eq!(battle.fighter((0, 1)), Some(&RPS::new(RPSType::Rock)));
}

#[test]
fn random_battle_runs_ticks() {
    let mut battle: Battle<StreetFighter> =
        Battle::new(32, 40, SelectionAlgorithm::RandomNeighbour, true);
    assert_eq!(battle.size(), (32, 40));
    for _ in 0..3 {
        battle.action();
    }
    assert!(battle.fighter((31, 39)).is_some());
    assert!(battle.fighter((32, 0)).is_none());
    assert!(battle.fighter((0, 40)).is_none());
}

#[test]
fn chance_fighters_convert_on_a_low_roll() {
    let grid = Grid2D::from_cells(
        (2, 1),
        vec![
            StreetFighter::new(StreetFighterType::CViper),
            StreetFighter::new(StreetFighterType::Seth),
        ],
    )
    .unwrap();
    let mut battle = Battle::with_fighters(grid, SelectionAlgorithm::WeakestNeighbour, false, 0);
    battle.fight_with_roll((0, 0), (1, 0), 59);
    assert_eq!(battle.fighter((1, 0)).unwrap().kind, StreetFighterType::CViper);
}

#[test]
fn one_tick_on_two_by_two_grid_in_index_order() {
    let mut battle = Battle::with_fighters(
        fire_water_grass_water(),
        SelectionAlgorithm::WeakestNeighbour,
        false,
        1,
    );
    // Fire takes Grass; Water then takes that Fire back from (1, 0); the new
    // Fire at (0, 1) wounds the Water at (1, 1), which in turn takes it.
    assert_eq!(battle.sweep(0, 1), 4);
    let water = Pokemon::new(PokemonType::Water);
    assert_eq!(battle.fighter((0, 0)), Some(&water));
    assert_eq!(battle.fighter((1, 0)), Some(&water));
    assert_eq!(battle.fighter((0, 1)), Some(&water));
    let wounded = Pokemon { health: 60, ..water };
    assert_eq!(battle.fighter((1, 1)), Some(&wounded));
}
