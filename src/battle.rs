use rand::rngs::StdRng;
use vstd::arithmetic::div_mod::{
    lemma_fundamental_div_mod_converse, lemma_multiply_divide_lt, lemma_small_mod,
};
use vstd::prelude::*;

use crate::grid::{lemma_linear_index, linear_index, Grid2D, Location, Size};
use crate::random::{choose_location, draw_below, entropy_rng, seeded_rng};
use crate::traversal::{
    gcd, lemma_orbit_full_circle, lemma_orbit_step, lemma_walk_cycle, next_index, orbit, returns_at,
    visited,
};
use crate::types::GenerateRandomly;

verus! {

/// How an attacker picks its opponent among its four neighbours.
#[derive(Clone, Copy, Debug, PartialEq, Eq, Structural)]
pub enum SelectionAlgorithm {
    /// The neighbour it is most effective against.
    WeakestNeighbour,
    /// A neighbour drawn at random.
    RandomNeighbour,
}

/// The selection policy a battle is bound to: an algorithm, and whether
/// candidates are first filtered by `should_fight`.
#[derive(Clone, Copy, Debug, PartialEq, Eq, Structural)]
pub enum Selection {
    WeakestNeighbour,
    WeakestNeighbourFiltered,
    RandomNeighbour,
    RandomNeighbourFiltered,
}

/// The policy for an algorithm and a filtering choice.
pub open spec fn selection_for(algorithm: SelectionAlgorithm, filtered: bool) -> Selection {
    match (algorithm, filtered) {
        (SelectionAlgorithm::WeakestNeighbour, false) => Selection::WeakestNeighbour,
        (SelectionAlgorithm::WeakestNeighbour, true) => Selection::WeakestNeighbourFiltered,
        (SelectionAlgorithm::RandomNeighbour, false) => Selection::RandomNeighbour,
        (SelectionAlgorithm::RandomNeighbour, true) => Selection::RandomNeighbourFiltered,
    }
}

/// The contract every kind of fighter meets.
pub trait Fighter: Sized {
    /// A state that a fighter of this kind can be in.
    spec fn valid(&self) -> bool;

    /// Whether `self` picks `defender` as an opponent when candidates are filtered.
    spec fn spec_should_fight(&self, defender: &Self) -> bool;

    /// The score of `self` attacking `defender`.
    spec fn spec_effectiveness(&self, defender: &Self) -> int;

    /// What becomes of `defender` when `self` attacks it with a roll
    /// drawn from `0..100`, and whether it died.
    spec fn spec_fight(&self, defender: &Self, roll: int) -> (Self, bool);

    fn should_fight(&self, defender: &Self) -> (r: bool)
        ensures
            r == self.spec_should_fight(defender),
    ;

    fn get_effectiveness(&self, defender: &Self) -> (r: i32)
        ensures
            r == self.spec_effectiveness(defender),
    ;

    /// Attacks `defender`, which is overwritten in place; returns whether it died.
    fn fight(&self, defender: &mut Self, roll: u8) -> (dead: bool)
        requires
            self.valid(),
            old(defender).valid(),
            roll < 100,
        ensures
            final(defender).valid(),
            (*final(defender), dead) == self.spec_fight(old(defender), roll as int),
    ;
}


/// A value below `2 * m` wraps below `m` by at most one subtraction.
proof fn lemma_wrap_once(v: int, m: int)
    requires
        0 < m,
        0 <= v < 2 * m,
    ensures
        v % m == (if v < m {
            v
        } else {
            v - m
        }),
{
    if v < m {
        lemma_fundamental_div_mod_converse(v, m, 0, v);
    } else {
        lemma_fundamental_div_mod_converse(v, m, 1, v - m);
    }
}

/// The four neighbours of `location` on a torus of the given size, in the
/// order up, right, down, left.
pub open spec fn spec_neighbours(location: Location, size: Size) -> Seq<Location> {
    let (x, y) = location;
    let (w, h) = size;
    seq![
        (x, ((y + h - 1) % (h as int)) as usize),
        (((x + 1) % (w as int)) as usize, y),
        (x, ((y + 1) % (h as int)) as usize),
        (((x + w - 1) % (w as int)) as usize, y),
    ]
}

/// On a torus every location has four neighbours, all on the grid; where
/// both sides are longer than 2 they are four distinct locations.
pub proof fn lemma_neighbours_on_torus(location: Location, size: Size)
    requires
        location.0 < size.0,
        location.1 < size.1,
    ensures
        spec_neighbours(location, size).len() == 4,
        forall|i: int|
            0 <= i < 4 ==> #[trigger] spec_neighbours(location, size)[i].0 < size.0
                && spec_neighbours(location, size)[i].1 < size.1,
        size.0 > 2 && size.1 > 2 ==> forall|i: int, j: int|
            0 <= i < j < 4 ==> spec_neighbours(location, size)[i] != spec_neighbours(
                location,
                size,
            )[j],
{
    let (x, y) = location;
    let (w, h) = size;
    lemma_wrap_once(y + h - 1, h as int);
    lemma_wrap_once(y + 1, h as int);
    lemma_wrap_once(x + w - 1, w as int);
    lemma_wrap_once(x + 1, w as int);
}

/// The four torus neighbours of `location`: up, right, down, left.
pub fn neighbours(location: Location, size: Size) -> (r: [Location; 4])
    requires
        location.0 < size.0,
        location.1 < size.1,
    ensures
        r@ == spec_neighbours(location, size),
{
    let (x, y) = location;
    let (w, h) = size;
    let up = if y == 0 {
        h - 1
    } else {
        y - 1
    };
    let right = if x + 1 == w {
        0
    } else {
        x + 1
    };
    let down = if y + 1 == h {
        0
    } else {
        y + 1
    };
    let left = if x == 0 {
        w - 1
    } else {
        x - 1
    };
    proof {
        lemma_wrap_once(y + h - 1, h as int);
        lemma_wrap_once(y + 1, h as int);
        lemma_wrap_once(x + w - 1, w as int);
        lemma_wrap_once(x + 1, w as int);
    }
    assert(up == (y + h - 1) % (h as int));
    assert(right == (x + 1) % (w as int));
    assert(down == (y + 1) % (h as int));
    assert(left == (x + w - 1) % (w as int));
    let r = [(x, up), (right, y), (x, down), (left, y)];
    assert(r@ =~= spec_neighbours(location, size));
    r
}


/// The width and height of a grid, as a `Size`.
pub open spec fn grid_size<T>(grid: Grid2D<T>) -> Size {
    (grid.width() as usize, grid.height() as usize)
}

/// The fighters at the four neighbours of `origin`, in neighbour order.
pub open spec fn neighbour_cells<T>(grid: Grid2D<T>, origin: Location) -> Seq<T> {
    spec_neighbours(origin, grid_size(grid)).map_values(|l: Location| grid.cell(l))
}

/// Whether `attacker` may pick `defender`: always when unfiltered, else
/// only where it wants to fight it.
pub open spec fn eligible<T: Fighter>(attacker: T, defender: T, filtered: bool) -> bool {
    !filtered || attacker.spec_should_fight(&defender)
}

/// Among the first `n` of `defenders`, position `k` is eligible, as
/// effective as any eligible one, and more effective than every eligible
/// one after it.
pub open spec fn weakest_upto<T: Fighter>(
    attacker: T,
    defenders: Seq<T>,
    filtered: bool,
    k: int,
    n: int,
) -> bool {
    &&& 0 <= k < n <= defenders.len()
    &&& eligible(attacker, defenders[k], filtered)
    &&& forall|j: int|
        0 <= j < n && eligible(attacker, #[trigger] defenders[j], filtered)
            ==> attacker.spec_effectiveness(&defenders[j]) <= attacker.spec_effectiveness(
            &defenders[k],
        )
    &&& forall|j: int|
        k < j < n && eligible(attacker, #[trigger] defenders[j], filtered)
            ==> attacker.spec_effectiveness(&defenders[j]) < attacker.spec_effectiveness(
            &defenders[k],
        )
}

/// Position `k` holds the weakest-neighbour pick: the last eligible
/// defender of greatest effectiveness.
pub open spec fn is_weakest_pick<T: Fighter>(
    attacker: T,
    defenders: Seq<T>,
    filtered: bool,
    k: int,
) -> bool {
    weakest_upto(attacker, defenders, filtered, k, defenders.len() as int)
}

/// There is at most one weakest-neighbour pick.
pub proof fn lemma_weakest_pick_unique<T: Fighter>(
    attacker: T,
    defenders: Seq<T>,
    filtered: bool,
    k1: int,
    k2: int,
)
    requires
        is_weakest_pick(attacker, defenders, filtered, k1),
        is_weakest_pick(attacker, defenders, filtered, k2),
    ensures
        k1 == k2,
{
    let n = defenders.len() as int;
    if k1 < k2 {
        assert(eligible(attacker, defenders[k2], filtered));
    } else if k2 < k1 {
        assert(eligible(attacker, defenders[k1], filtered));
    }
}

/// The defender the weakest-neighbour policy picks around `origin`, if any.
pub open spec fn weakest_target<T: Fighter>(
    grid: Grid2D<T>,
    origin: Location,
    filtered: bool,
) -> Option<Location> {
    let defenders = neighbour_cells(grid, origin);
    if exists|k: int| is_weakest_pick(grid.cell(origin), defenders, filtered, k) {
        let k = choose|k: int| is_weakest_pick(grid.cell(origin), defenders, filtered, k);
        Some(spec_neighbours(origin, grid_size(grid))[k])
    } else {
        None
    }
}

/// `target` is a possible pick of the random-neighbour policy around
/// `origin`: `None` exactly when no neighbour is eligible, else an eligible
/// neighbour.
pub open spec fn random_target<T: Fighter>(
    grid: Grid2D<T>,
    origin: Location,
    filtered: bool,
    target: Option<Location>,
) -> bool {
    let defenders = neighbour_cells(grid, origin);
    let locations = spec_neighbours(origin, grid_size(grid));
    &&& target is None <==> forall|k: int|
        0 <= k < 4 ==> !eligible(grid.cell(origin), #[trigger] defenders[k], filtered)
    &&& target matches Some(l) ==> exists|k: int|
        0 <= k < 4 && eligible(grid.cell(origin), #[trigger] defenders[k], filtered)
            && locations[k] == l
}

/// `target` is a pick that `selection` may make around `origin`.
pub open spec fn admissible_target<T: Fighter>(
    grid: Grid2D<T>,
    origin: Location,
    selection: Selection,
    target: Option<Location>,
) -> bool {
    match selection {
        Selection::WeakestNeighbour => target == weakest_target(grid, origin, false),
        Selection::WeakestNeighbourFiltered => target == weakest_target(grid, origin, true),
        Selection::RandomNeighbour => random_target(grid, origin, false, target),
        Selection::RandomNeighbourFiltered => random_target(grid, origin, true, target),
    }
}

/// `after` is `before` once the fighter at `attacker` has attacked the one
/// at `defender` with `roll`; nothing changes unless both are on the grid
/// and distinct.
pub open spec fn fought<T: Fighter>(
    before: Grid2D<T>,
    after: Grid2D<T>,
    attacker: Location,
    defender: Location,
    roll: int,
) -> bool {
    &&& after.width() == before.width()
    &&& after.height() == before.height()
    &&& if before.in_bounds(attacker) && before.in_bounds(defender) && attacker != defender {
        after@ == before@.update(
            linear_index(defender, before.width()),
            before.cell(attacker).spec_fight(&before.cell(defender), roll).0,
        )
    } else {
        after@ == before@
    }
}

/// `after` is `before` once the fighter at `origin` has picked `target`
/// under `selection` and, where there is one, fought it with `roll`.
pub open spec fn turn_with<T: Fighter>(
    before: Grid2D<T>,
    after: Grid2D<T>,
    origin: Location,
    selection: Selection,
    target: Option<Location>,
    roll: int,
) -> bool {
    &&& 0 <= roll < 100
    &&& admissible_target(before, origin, selection, target)
    &&& match target {
        None => after == before,
        Some(defender) => fought(before, after, origin, defender, roll),
    }
}

/// `after` is `before` once the fighter at `origin` has taken its turn: a
/// pick admissible under `selection` and, where there is one, a fight with
/// some roll in `0..100`.
#[verifier::opaque]
pub open spec fn turn<T: Fighter>(
    before: Grid2D<T>,
    after: Grid2D<T>,
    origin: Location,
    selection: Selection,
) -> bool {
    exists|target: Option<Location>, roll: int|
        #[trigger] turn_with(before, after, origin, selection, target, roll)
}

/// The location of the row-major `index` in a grid of the given width.
pub open spec fn location_of(index: nat, width: nat) -> Location {
    ((index % width) as usize, (index / width) as usize)
}

/// The strides a tick may walk the grid with.
pub open spec fn traversal_offsets() -> Seq<usize> {
    seq![48817, 58099, 89867, 105407, 126943, 200723, 221021, 231677]
}

/// `after` is `before` once a tick has walked from `start` in steps of
/// `offset`: `turns` is the number of steps until the walk is first back
/// at `start`, and each index on the way took one turn, in walk order.
pub open spec fn swept<T: Fighter>(
    before: Grid2D<T>,
    after: Grid2D<T>,
    selection: Selection,
    start: nat,
    offset: nat,
    turns: nat,
) -> bool {
    let n = before.width() * before.height();
    &&& returns_at(start, offset, n, turns)
    &&& forall|j: nat| 0 < j < turns ==> !#[trigger] returns_at(start, offset, n, j)
    &&& exists|states: Seq<Grid2D<T>>|
        {
            &&& states.len() == turns + 1
            &&& states[0] == before
            &&& #[trigger] states[turns as int] == after
            &&& forall|k: int|
                0 <= k < turns ==> turn(
                    #[trigger] states[k],
                    states[k + 1],
                    location_of(orbit(start, offset, n, k as nat), before.width()),
                    selection,
                )
        }
}

/// A tick that walked the grid's `n` cells with stride `offset` took
/// exactly `n / gcd(offset, n)` turns, at pairwise distinct cells; with a
/// stride coprime to `n` that is one turn at every cell.
pub proof fn lemma_tick_coverage<T: Fighter>(
    before: Grid2D<T>,
    after: Grid2D<T>,
    selection: Selection,
    start: nat,
    offset: nat,
    turns: nat,
)
    requires
        start < before.width() * before.height(),
        swept(before, after, selection, start, offset, turns),
    ensures
        turns == (before.width() * before.height()) / gcd(offset, before.width() * before.height()),
        forall|i: nat, j: nat|
            i < j < turns ==> #[trigger] orbit(start, offset, before.width() * before.height(), i)
                != #[trigger] orbit(start, offset, before.width() * before.height(), j),
        gcd(offset, before.width() * before.height()) == 1 ==> {
            &&& turns == before.width() * before.height()
            &&& forall|t: nat|
                t < before.width() * before.height() ==> #[trigger] visited(
                    start,
                    offset,
                    before.width() * before.height(),
                    t,
                )
        },
{
    let n = before.width() * before.height();
    let p = n / gcd(offset, n);
    lemma_walk_cycle(start, offset, n);
    if turns < p {
        assert(returns_at(start, offset, n, turns));
    } else if p < turns {
        assert(returns_at(start, offset, n, p));
    }
    if gcd(offset, n) == 1 {
        vstd::arithmetic::div_mod::lemma_div_basics(n as int);
    }
}

/// A grid of fighters, a random source and a selection policy.
pub struct Battle<T> {
    fighters: Grid2D<T>,
    rng: StdRng,
    selection: Selection,
}

impl<T: Fighter> Battle<T> {
    pub closed spec fn fighters(&self) -> Grid2D<T> {
        self.fighters
    }

    pub closed spec fn selection(&self) -> Selection {
        self.selection
    }

    /// A non-empty grid of valid fighters.
    pub open spec fn wf(&self) -> bool {
        &&& self.fighters().wf()
        &&& self.fighters().width() > 0
        &&& self.fighters().height() > 0
        &&& forall|i: int|
            0 <= i < self.fighters()@.len() ==> (#[trigger] self.fighters()@[i]).valid()
    }

    /// A battle over the given fighters, its random source seeded by `seed`.
    pub fn with_fighters(
        fighters: Grid2D<T>,
        selection_algorithm: SelectionAlgorithm,
        filter_fight_candidates: bool,
        seed: u64,
    ) -> (r: Self)
        requires
            fighters.wf(),
            fighters.width() > 0,
            fighters.height() > 0,
            forall|i: int| 0 <= i < fighters@.len() ==> (#[trigger] fighters@[i]).valid(),
        ensures
            r.wf(),
            r.fighters() == fighters,
            r.selection() == selection_for(selection_algorithm, filter_fight_candidates),
    {
        Battle {
            fighters,
            rng: seeded_rng(seed),
            selection: Self::bind_selection(selection_algorithm, filter_fight_candidates),
        }
    }

    fn bind_selection(selection_algorithm: SelectionAlgorithm, filter_fight_candidates: bool) -> (r:
        Selection)
        ensures
            r == selection_for(selection_algorithm, filter_fight_candidates),
    {
        match (selection_algorithm, filter_fight_candidates) {
            (SelectionAlgorithm::WeakestNeighbour, false) => Selection::WeakestNeighbour,
            (SelectionAlgorithm::WeakestNeighbour, true) => Selection::WeakestNeighbourFiltered,
            (SelectionAlgorithm::RandomNeighbour, false) => Selection::RandomNeighbour,
            (SelectionAlgorithm::RandomNeighbour, true) => Selection::RandomNeighbourFiltered,
        }
    }

    /// The fighter at `location`, or `None` off the grid.
    pub fn fighter(&self, location: Location) -> (r: Option<&T>)
        requires
            self.wf(),
        ensures
            r is Some <==> self.fighters().in_bounds(location),
            r matches Some(f) ==> *f == self.fighters().cell(location),
    {
        self.fighters.get(location)
    }

    /// The grid's width and height.
    pub fn size(&self) -> (r: Size)
        ensures
            r == grid_size(self.fighters()),
    {
        self.fighters.size()
    }

    /// The weakest-neighbour pick around `origin`, among all four neighbours.
    pub fn weakest_neighbour(&self, origin: Location) -> (r: Option<Location>)
        requires
            self.wf(),
            self.fighters().in_bounds(origin),
        ensures
            r == weakest_target(self.fighters(), origin, false),
    {
        self.pick_weakest(origin, false)
    }

    /// The weakest-neighbour pick around `origin`, among the neighbours its
    /// fighter wants to fight.
    pub fn weakest_neighbour_filtered(&self, origin: Location) -> (r: Option<Location>)
        requires
            self.wf(),
            self.fighters().in_bounds(origin),
        ensures
            r == weakest_target(self.fighters(), origin, true),
    {
        self.pick_weakest(origin, true)
    }

    fn pick_weakest(&self, origin: Location, filtered: bool) -> (r: Option<Location>)
        requires
            self.wf(),
            self.fighters().in_bounds(origin),
        ensures
            r == weakest_target(self.fighters(), origin, filtered),
    {
        let ghost grid = self.fighters();
        let ghost defenders = neighbour_cells(grid, origin);
        let size = self.fighters.size();
        let around = neighbours(origin, size);
        proof {
            lemma_neighbours_on_torus(origin, size);
        }
        let attacker = self.fighters.get(origin).unwrap();
        let mut best: Option<usize> = None;
        let mut best_score: i32 = 0;
        let mut k: usize = 0;
        while k < 4
            invariant
                k <= 4,
                grid == self.fighters(),
                self.wf(),
                size == grid_size(grid),
                around@ == spec_neighbours(origin, size),
                defenders == neighbour_cells(grid, origin),
                *attacker == grid.cell(origin),
                forall|i: int| 0 <= i < 4 ==> grid.in_bounds(#[trigger] around@[i]),
                best is None ==> forall|j: int|
                    0 <= j < k ==> !eligible(*attacker, #[trigger] defenders[j], filtered),
                best matches Some(b) ==> weakest_upto(
                    *attacker,
                    defenders,
                    filtered,
                    b as int,
                    k as int,
                ) && best_score == attacker.spec_effectiveness(&defenders[b as int]),
            decreases 4 - k,
        {
            let defender = self.fighters.get(around[k]).unwrap();
            assert(*defender == defenders[k as int]);
            if !filtered || attacker.should_fight(defender) {
                let score = attacker.get_effectiveness(defender);
                match best {
                    None => {
                        best = Some(k);
                        best_score = score;
                    },
                    Some(_) => {
                        if score >= best_score {
                            best = Some(k);
                            best_score = score;
                        }
                    },
                }
            }
            k = k + 1;
        }
        match best {
            None => {
                assert(!exists|k: int| is_weakest_pick(*attacker, defenders, filtered, k));
                None
            },
            Some(b) => {
                assert(is_weakest_pick(*attacker, defenders, filtered, b as int));
                let ghost c = choose|k: int| is_weakest_pick(*attacker, defenders, filtered, k);
                proof {
                    lemma_weakest_pick_unique(*attacker, defenders, filtered, b as int, c);
                }
                Some(around[b])
            },
        }
    }

    /// A neighbour of `origin` drawn at random.
    pub fn random_neighbour(&mut self, origin: Location) -> (r: Option<Location>)
        requires
            old(self).wf(),
            old(self).fighters().in_bounds(origin),
        ensures
            final(self).fighters() == old(self).fighters(),
            final(self).selection() == old(self).selection(),
            random_target(old(self).fighters(), origin, false, r),
    {
        self.pick_random(origin, false)
    }

    /// A neighbour of `origin` drawn at random among those its fighter wants
    /// to fight; `None` where there is none.
    pub fn random_neighbour_filtered(&mut self, origin: Location) -> (r: Option<Location>)
        requires
            old(self).wf(),
            old(self).fighters().in_bounds(origin),
        ensures
            final(self).fighters() == old(self).fighters(),
            final(self).selection() == old(self).selection(),
            random_target(old(self).fighters(), origin, true, r),
    {
        self.pick_random(origin, true)
    }

    fn pick_random(&mut self, origin: Location, filtered: bool) -> (r: Option<Location>)
        requires
            old(self).wf(),
            old(self).fighters().in_bounds(origin),
        ensures
            final(self).fighters() == old(self).fighters(),
            final(self).selection() == old(self).selection(),
            random_target(old(self).fighters(), origin, filtered, r),
    {
        let ghost grid = self.fighters();
        let ghost defenders = neighbour_cells(grid, origin);
        let size = self.fighters.size();
        let around = neighbours(origin, size);
        proof {
            lemma_neighbours_on_torus(origin, size);
        }
        let mut candidates: Vec<Location> = Vec::new();
        let mut k: usize = 0;
        while k < 4
            invariant
                k <= 4,
                grid == self.fighters(),
                self.wf(),
                size == grid_size(grid),
                around@ == spec_neighbours(origin, size),
                defenders == neighbour_cells(grid, origin),
                grid.in_bounds(origin),
                forall|i: int| 0 <= i < 4 ==> grid.in_bounds(#[trigger] around@[i]),
                candidates@.len() == 0 <==> forall|j: int|
                    0 <= j < k ==> !eligible(grid.cell(origin), #[trigger] defenders[j], filtered),
                forall|l: Location|
                    #[trigger] candidates@.contains(l) ==> exists|j: int|
                        0 <= j < k && eligible(grid.cell(origin), #[trigger] defenders[j], filtered)
                            && around@[j] == l,
            decreases 4 - k,
        {
            let attacker = self.fighters.get(origin).unwrap();
            let defender = self.fighters.get(around[k]).unwrap();
            assert(*defender == defenders[k as int]);
            if !filtered || attacker.should_fight(defender) {
                let ghost before = candidates@;
                candidates.push(around[k]);
                assert forall|l: Location| #[trigger] candidates@.contains(l) implies exists|j: int|
                    0 <= j < k + 1 && eligible(grid.cell(origin), #[trigger] defenders[j], filtered)
                        && around@[j] == l by {
                    if l != around@[k as int] {
                        assert(before.contains(l));
                    } else {
                        assert(eligible(grid.cell(origin), defenders[k as int], filtered));
                    }
                }
            }
            k = k + 1;
        }
        choose_location(&mut self.rng, &candidates)
    }

    /// The pick of the battle's selection policy around `origin`.
    pub fn select_defender(&mut self, origin: Location) -> (r: Option<Location>)
        requires
            old(self).wf(),
            old(self).fighters().in_bounds(origin),
        ensures
            final(self).fighters() == old(self).fighters(),
            final(self).selection() == old(self).selection(),
            admissible_target(old(self).fighters(), origin, old(self).selection(), r),
    {
        match self.selection {
            Selection::WeakestNeighbour => self.weakest_neighbour(origin),
            Selection::WeakestNeighbourFiltered => self.weakest_neighbour_filtered(origin),
            Selection::RandomNeighbour => self.random_neighbour(origin),
            Selection::RandomNeighbourFiltered => self.random_neighbour_filtered(origin),
        }
    }

    /// Lets the fighter at `attacker_loc` attack the one at `defender_loc`
    /// with the given roll; nothing happens unless both are on the grid and
    /// distinct.
    pub fn fight_with_roll(&mut self, attacker_loc: Location, defender_loc: Location, roll: u8)
        requires
            old(self).wf(),
            roll < 100,
        ensures
            final(self).wf(),
            final(self).selection() == old(self).selection(),
            fought(old(self).fighters(), final(self).fighters(), attacker_loc, defender_loc, roll as int),
    {
        let ghost before = self.fighters@;
        let ghost w = self.fighters.width();
        let ghost h = self.fighters.height();
        match self.fighters.get_pair_mut(attacker_loc, defender_loc) {
            Some((attacker, defender)) => {
                proof {
                    lemma_linear_index(attacker_loc, defender_loc, w, h);
                    lemma_linear_index(defender_loc, attacker_loc, w, h);
                }
                attacker.fight(defender, roll);
            },
            None => {},
        }
        proof {
            if self.fighters().in_bounds(attacker_loc) && self.fighters().in_bounds(defender_loc)
                && attacker_loc != defender_loc {
                assert(self.fighters@ =~= before.update(
                    linear_index(defender_loc, w),
                    before[linear_index(attacker_loc, w)].spec_fight(
                        &before[linear_index(defender_loc, w)],
                        roll as int,
                    ).0,
                ));
            }
        }
    }

    /// Lets the fighter at `attacker_loc` attack the one at `defender_loc`,
    /// with a roll drawn from `0..100`.
    pub fn fight(&mut self, attacker_loc: Location, defender_loc: Location)
        requires
            old(self).wf(),
        ensures
            final(self).wf(),
            final(self).selection() == old(self).selection(),
            exists|roll: int|
                0 <= roll < 100 && #[trigger] fought(
                    old(self).fighters(),
                    final(self).fighters(),
                    attacker_loc,
                    defender_loc,
                    roll,
                ),
    {
        let roll = draw_below(&mut self.rng, 100) as u8;
        self.fight_with_roll(attacker_loc, defender_loc, roll);
    }

    /// The turn of the fighter at `origin`: it picks a defender under the
    /// battle's policy and, where it found one, fights it.
    pub fn attack_from(&mut self, origin: Location)
        requires
            old(self).wf(),
            old(self).fighters().in_bounds(origin),
        ensures
            final(self).wf(),
            final(self).selection() == old(self).selection(),
            final(self).fighters().width() == old(self).fighters().width(),
            final(self).fighters().height() == old(self).fighters().height(),
            turn(old(self).fighters(), final(self).fighters(), origin, old(self).selection()),
    {
        let ghost before = self.fighters();
        reveal(turn);
        let target = self.select_defender(origin);
        match target {
            Some(defender_loc) => {
                self.fight(origin, defender_loc);
                let ghost roll = choose|roll: int|
                    0 <= roll < 100 && #[trigger] fought(
                        before,
                        self.fighters(),
                        origin,
                        defender_loc,
                        roll,
                    );
                assert(turn_with(before, self.fighters(), origin, self.selection(), target, roll));
            },
            None => {
                assert(turn_with(before, self.fighters(), origin, self.selection(), target, 0));
            },
        }
    }

    /// One tick walked from `start` in steps of `offset` around the grid's
    /// row-major indices: each index on the walk takes its turn, until the
    /// walk is back at `start`. Returns the number of turns.
    #[verifier::spinoff_prover]
    #[verifier::rlimit(60)]
    pub fn sweep(&mut self, start: usize, offset: usize) -> (turns: usize)
        requires
            old(self).wf(),
            start < old(self).fighters().width() * old(self).fighters().height(),
        ensures
            final(self).wf(),
            final(self).selection() == old(self).selection(),
            swept(
                old(self).fighters(),
                final(self).fighters(),
                old(self).selection(),
                start as nat,
                offset as nat,
                turns as nat,
            ),
    {
        let ghost before = self.fighters();
        let ghost selection = self.selection();
        let (w, _) = self.fighters.size();
        let n = self.fighters.count();
        let mut current = start;
        let mut turns: usize = 0;
        let ghost mut states: Seq<Grid2D<T>> = seq![before];
        proof {
            lemma_small_mod(start as nat, n as nat);
        }
        loop
            invariant_except_break
                turns < n,
                forall|j: nat| 0 < j <= turns ==> !#[trigger] returns_at(start as nat, offset as nat, n as nat, j),
            invariant
                self.wf(),
                self.selection() == selection,
                self.fighters().width() == before.width(),
                self.fighters().height() == before.height(),
                w == before.width(),
                n == before.width() * before.height(),
                start < n,
                current == orbit(start as nat, offset as nat, n as nat, turns as nat),
                states.len() == turns + 1,
                states[0] == before,
                states[turns as int] == self.fighters(),
                forall|k: int|
                    0 <= k < turns ==> turn(
                        #[trigger] states[k],
                        states[k + 1],
                        location_of(orbit(start as nat, offset as nat, n as nat, k as nat), w as nat),
                        selection,
                    ),
            ensures
                self.wf(),
                self.selection() == selection,
                returns_at(start as nat, offset as nat, n as nat, turns as nat),
                forall|j: nat| 0 < j < turns ==> !#[trigger] returns_at(start as nat, offset as nat, n as nat, j),
                states.len() == turns + 1,
                states[0] == before,
                states[turns as int] == self.fighters(),
                forall|k: int|
                    0 <= k < turns ==> turn(
                        #[trigger] states[k],
                        states[k + 1],
                        location_of(orbit(start as nat, offset as nat, n as nat, k as nat), w as nat),
                        selection,
                    ),
            decreases n - turns,
        {
            proof {
                lemma_multiply_divide_lt(current as int, w as int, before.height() as int);
            }
            let origin = (current % w, current / w);
            assert(origin == location_of(current as nat, w as nat));
            let ghost prev = states;
            self.attack_from(origin);
            proof {
                states = states.push(self.fighters());
                assert forall|k: int| 0 <= k < turns + 1 implies turn(
                    #[trigger] states[k],
                    states[k + 1],
                    location_of(orbit(start as nat, offset as nat, n as nat, k as nat), w as nat),
                    selection,
                ) by {
                    if k < turns {
                        assert(states[k] == prev[k] && states[k + 1] == prev[k + 1]);
                    } else {
                        assert(states[k] == prev[turns as int]);
                    }
                }
                lemma_orbit_step(start as nat, offset as nat, n as nat, turns as nat);
            }
            current = next_index(current, offset, n);
            turns = turns + 1;
            if current == start {
                break;
            }
            proof {
                if turns == n {
                    lemma_orbit_full_circle(start as nat, offset as nat, n as nat);
                }
            }
        }
        turns
    }

    /// One tick: a walk from a random start with a stride drawn from
    /// `traversal_offsets`, as `sweep` describes.
    pub fn action(&mut self)
        requires
            old(self).wf(),
        ensures
            final(self).wf(),
            final(self).selection() == old(self).selection(),
            exists|start: nat, offset: nat, turns: nat|
                start < old(self).fighters().width() * old(self).fighters().height()
                    && traversal_offsets().contains(offset as usize) && #[trigger] swept(
                    old(self).fighters(),
                    final(self).fighters(),
                    old(self).selection(),
                    start,
                    offset,
                    turns,
                ),
    {
        let offsets: [usize; 8] = [48817, 58099, 89867, 105407, 126943, 200723, 221021, 231677];
        assert(offsets@ == traversal_offsets());
        let n = self.fighters.count();
        proof {
            vstd::arithmetic::mul::lemma_mul_strictly_positive(
                self.fighters().width() as int,
                self.fighters().height() as int,
            );
        }
        let start = draw_below(&mut self.rng, n);
        let offset = offsets[draw_below(&mut self.rng, 8)];
        let turns = self.sweep(start, offset);
        assert(traversal_offsets().contains(offset));
    }
}

impl<T: GenerateRandomly> Battle<T> {
    /// A `img_width` x `img_height` battle of fighters drawn at random, with
    /// a random source seeded by the system.
    pub fn new(
        img_width: usize,
        img_height: usize,
        selection_algorithm: SelectionAlgorithm,
        filter_fight_candidates: bool,
    ) -> (r: Self)
        requires
            img_width > 0,
            img_height > 0,
            img_width * img_height <= usize::MAX,
        ensures
            r.wf(),
            r.fighters().width() == img_width,
            r.fighters().height() == img_height,
            r.selection() == selection_for(selection_algorithm, filter_fight_candidates),
    {
        let mut rng = entropy_rng();
        let count = img_width * img_height;
        let mut cells: Vec<T> = Vec::new();
        let mut i: usize = 0;
        while i < count
            invariant
                i <= count,
                cells@.len() == i,
                forall|j: int| 0 <= j < cells@.len() ==> (#[trigger] cells@[j]).valid(),
            decreases count - i,
        {
            cells.push(T::generate_randomly(&mut rng));
            i = i + 1;
        }
        let fighters = Grid2D::from_cells((img_width, img_height), cells).unwrap();
        Battle {
            fighters,
            rng,
            selection: Self::bind_selection(selection_algorithm, filter_fight_candidates),
        }
    }
}

} // verus!
