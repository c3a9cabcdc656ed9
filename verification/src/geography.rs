//! The land: a grid of plots, what stands on them, and how to move
//! across it.
use vstd::prelude::*;
use crate::chance::roll_between;
use crate::creatures::{entity, Bureaucrat, PersonalTrainer, UberDriver};
use crate::text::same_text;

verus! {

/// Number of plots along the x axis.
pub const LAND_WIDTH_X: usize = 10;

/// Number of plots along the y axis.
pub const LAND_WIDTH_Y: usize = 10;

/// A position on the land: (x, y).
pub type Coord = (usize, usize);

/// Whether a signed position lies on the land.
pub open spec fn spec_in_bounds(c: (isize, isize)) -> bool {
    0 <= c.0 < LAND_WIDTH_X && 0 <= c.1 < LAND_WIDTH_Y
}

/// Whether the signed position `c` lies on the land.
pub fn in_bounds(c: (isize, isize)) -> (r: bool)
    ensures
        r == spec_in_bounds(c),
{
    c.0 >= 0 && c.1 >= 0 && c.0 < (LAND_WIDTH_X as isize) && c.1 < (LAND_WIDTH_Y as isize)
}

} // verus!

verus! {

#[derive(Copy, Clone, Debug, PartialEq, Eq, Structural)]
pub enum Jurisdiction {
    Mountains,
    Islands,
    Tundra,
    Desert,
}

} // verus!

verus! {

/// Out of a thousand plots, how many hold money.
pub const ZENI_GEN_PERMILLE: u64 = 300;

/// Out of a thousand plots, how many hold an enemy.
pub const ENEMY_GEN_PERMILLE: u64 = 200;

/// Number of plots on the land.
pub const LAND_PLOTS: usize = 100;

#[derive(Clone, Copy, Debug, PartialEq, Eq, Structural)]
pub enum Cardinal {
    North,
    East,
    South,
    West,
}

/// The direction a word names, if any.
pub open spec fn cardinal_named(s: Seq<char>) -> Option<Cardinal> {
    if s == "north"@ {
        Some(Cardinal::North)
    } else if s == "east"@ {
        Some(Cardinal::East)
    } else if s == "south"@ {
        Some(Cardinal::South)
    } else if s == "west"@ {
        Some(Cardinal::West)
    } else {
        None
    }
}

/// How a direction is written when shown (its `Debug` form).
pub open spec fn cardinal_label(d: Cardinal) -> Seq<char> {
    match d {
        Cardinal::North => "North"@,
        Cardinal::East => "East"@,
        Cardinal::South => "South"@,
        Cardinal::West => "West"@,
    }
}

impl Cardinal {
    /// The direction named by `s` ("north", "east", "south" or "west").
    pub fn from_name(s: &str) -> (r: Result<Cardinal, ()>)
        ensures
            match cardinal_named(s@) {
                Some(d) => r == Ok::<Cardinal, ()>(d),
                None => r is Err,
            },
    {
        if same_text(s, "north") {
            Ok(Cardinal::North)
        } else if same_text(s, "east") {
            Ok(Cardinal::East)
        } else if same_text(s, "south") {
            Ok(Cardinal::South)
        } else if same_text(s, "west") {
            Ok(Cardinal::West)
        } else {
            Err(())
        }
    }

    /// How the direction is written when shown.
    pub fn label(&self) -> (r: &'static str)
        ensures
            r@ == cardinal_label(*self),
    {
        match self {
            Cardinal::North => "North",
            Cardinal::East => "East",
            Cardinal::South => "South",
            Cardinal::West => "West",
        }
    }
}

impl std::str::FromStr for Cardinal {
    type Err = ();

    fn from_str(s: &str) -> (r: Result<Cardinal, ()>)
        ensures
            match cardinal_named(s@) {
                Some(d) => r == Ok::<Cardinal, ()>(d),
                None => r is Err,
            },
    {
        Cardinal::from_name(s)
    }
}

#[derive(Clone, Copy, Debug, PartialEq, Eq, Structural)]
pub struct Plot {
    pub dosh: u64,
    pub enemy: Option<Bureaucrat>,
    pub driver: Option<UberDriver>,
    pub trainer: Option<PersonalTrainer>,
}

/// Where the land lists its taxis and its enemies.
#[derive(Debug)]
pub struct EntityLocations {
    pub taxis: Vec<Coord>,
    pub enemies: Vec<Coord>,
}

impl EntityLocations {
    /// The positions listed under `name`: [`entity::TAXI`] or
    /// [`entity::ENEMY`]; nothing is listed under any other name.
    pub fn get(&self, name: &str) -> (r: Option<&Vec<Coord>>)
        ensures
            name@ == entity::TAXI@ ==> r == Some(&self.taxis),
            name@ == entity::ENEMY@ ==> r == Some(&self.enemies),
            name@ != entity::TAXI@ && name@ != entity::ENEMY@ ==> r is None,
    {
        proof {
            reveal_strlit("taxi");
            reveal_strlit("enemy");
            assert(entity::TAXI@ == "taxi"@);
            assert(entity::TAXI@.len() == 4);
            assert(entity::TAXI@ != entity::ENEMY@);
        }
        if same_text(name, entity::TAXI) {
            Some(&self.taxis)
        } else if same_text(name, entity::ENEMY) {
            Some(&self.enemies)
        } else {
            None
        }
    }
}

#[derive(Debug)]
pub struct Land {
    /// The plots, row by row: the plot at (x, y) is at `x * LAND_WIDTH_Y + y`.
    pub plots: Option<Vec<Plot>>,
    pub entity_locations: Option<EntityLocations>,
}

/// Where the plot at `c` is kept.
pub open spec fn plot_index(c: Coord) -> int {
    c.0 * LAND_WIDTH_Y + c.1
}

/// The position of the plot kept at index `k`.
pub open spec fn index_coord(k: int) -> Coord {
    ((k / LAND_WIDTH_Y as int) as usize, (k % LAND_WIDTH_Y as int) as usize)
}

/// Whether a position lies on the land.
pub open spec fn on_land(c: Coord) -> bool {
    c.0 < LAND_WIDTH_X && c.1 < LAND_WIDTH_Y
}

/// The plot that two draws out of a thousand make: money when the first is
/// below [`ZENI_GEN_PERMILLE`], a tenth of it in hundreds; an enemy of the
/// Islands when the second is below [`ENEMY_GEN_PERMILLE`], holding a
/// twentieth of it.
pub open spec fn plot_from_rolls(zeni_roll: u64, enemy_roll: u64) -> Plot {
    Plot {
        dosh: if zeni_roll < ZENI_GEN_PERMILLE {
            (zeni_roll / 100) as u64
        } else {
            0
        },
        enemy: if enemy_roll < ENEMY_GEN_PERMILLE {
            Some(Bureaucrat { dough: (enemy_roll / 20) as u64, jurisdiction: Jurisdiction::Islands })
        } else {
            None
        },
        driver: None,
        trainer: None,
    }
}

/// The positions, in row order, of the first `n` plots whose enemy draw
/// places an enemy.
pub open spec fn enemy_cells(rolls: Seq<(u64, u64)>, n: nat) -> Seq<Coord>
    decreases n,
{
    if n == 0 {
        Seq::<Coord>::empty()
    } else {
        let before = enemy_cells(rolls, (n - 1) as nat);
        if rolls[n - 1].1 < ENEMY_GEN_PERMILLE {
            before.push(index_coord(n - 1))
        } else {
            before
        }
    }
}

/// Whether `land` is the land that the draws `rolls` (two per plot, in row
/// order) and the taxi position `uber` make.
pub open spec fn seeded_land(rolls: Seq<(u64, u64)>, uber: Coord, land: Land) -> bool {
    &&& land.plots matches Some(plots)
    &&& plots@.len() == LAND_PLOTS
    &&& forall|k: int|
        0 <= k < LAND_PLOTS ==> #[trigger] plots@[k] == (if k == plot_index(uber) {
            Plot { driver: Some(UberDriver { fee: 0 }), ..plot_from_rolls(rolls[k].0, rolls[k].1) }
        } else {
            plot_from_rolls(rolls[k].0, rolls[k].1)
        })
    &&& land.entity_locations matches Some(locations)
    &&& locations.taxis@ == seq![uber]
    &&& locations.enemies@ == enemy_cells(rolls, LAND_PLOTS as nat)
}

/// Whether every draw in `rolls` is a draw out of a thousand.
pub open spec fn rolls_in_range(rolls: Seq<(u64, u64)>) -> bool {
    forall|k: int| 0 <= k < rolls.len() ==> #[trigger] rolls[k].0 < 1000 && rolls[k].1 < 1000
}

impl Land {
    /// A land whose plots are not laid out yet.
    pub fn new() -> (land: Land)
        ensures
            land.plots is None,
            land.entity_locations is None,
    {
        Land { plots: None, entity_locations: None }
    }

    /// The land that the draws `rolls` (two per plot, in row order) and the
    /// taxi position `uber` make.
    pub fn seeded(rolls: &Vec<(u64, u64)>, uber: Coord) -> (land: Land)
        requires
            rolls@.len() == LAND_PLOTS,
            on_land(uber),
        ensures
            seeded_land(rolls@, uber, land),
    {
        let mut plots: Vec<Plot> = Vec::new();
        let mut enemies: Vec<Coord> = Vec::new();
        let uber_index = uber.0 * LAND_WIDTH_Y + uber.1;
        let mut k: usize = 0;
        while k < LAND_PLOTS
            invariant
                rolls@.len() == LAND_PLOTS,
                on_land(uber),
                uber_index == plot_index(uber),
                k <= LAND_PLOTS,
                plots@.len() == k,
                forall|i: int|
                    0 <= i < k ==> #[trigger] plots@[i] == (if i == plot_index(uber) {
                        Plot {
                            driver: Some(UberDriver { fee: 0 }),
                            ..plot_from_rolls(rolls@[i].0, rolls@[i].1)
                        }
                    } else {
                        plot_from_rolls(rolls@[i].0, rolls@[i].1)
                    }),
                enemies@ == enemy_cells(rolls@, k as nat),
            decreases LAND_PLOTS - k,
        {
            let (zeni_roll, enemy_roll) = rolls[k];
            let dosh = if zeni_roll < ZENI_GEN_PERMILLE {
                zeni_roll / 100
            } else {
                0
            };
            let enemy = if enemy_roll < ENEMY_GEN_PERMILLE {
                enemies.push((k / LAND_WIDTH_Y, k % LAND_WIDTH_Y));
                Some(Bureaucrat::new(enemy_roll / 20, Jurisdiction::Islands))
            } else {
                None
            };
            let driver = if k == uber_index {
                Some(UberDriver::default())
            } else {
                None
            };
            plots.push(Plot { dosh, enemy, driver, trainer: None });
            k = k + 1;
        }
        let mut taxis: Vec<Coord> = Vec::new();
        taxis.push(uber);
        assert(taxis@ =~= seq![uber]);
        Land { plots: Some(plots), entity_locations: Some(EntityLocations { taxis, enemies }) }
    }

    /// Lays out the plots at random: each plot draws twice out of a
    /// thousand (see [`plot_from_rolls`]), in row order, and then a taxi is
    /// put on a random plot.
    pub fn init_plots(&mut self)
        ensures
            exists|rolls: Seq<(u64, u64)>, uber: Coord|
                rolls.len() == LAND_PLOTS && rolls_in_range(rolls) && on_land(uber)
                    && seeded_land(rolls, uber, *final(self)),
    {
        let mut rolls: Vec<(u64, u64)> = Vec::new();
        let mut k: usize = 0;
        while k < LAND_PLOTS
            invariant
                k <= LAND_PLOTS,
                rolls@.len() == k,
                rolls_in_range(rolls@),
            decreases LAND_PLOTS - k,
        {
            let zeni_roll = roll_between(0, 1000);
            let enemy_roll = roll_between(0, 1000);
            rolls.push((zeni_roll, enemy_roll));
            k = k + 1;
        }
        let uber_x = roll_between(0, LAND_WIDTH_X as u64);
        let uber_y = roll_between(0, LAND_WIDTH_Y as u64);
        let uber: Coord = (uber_x as usize, uber_y as usize);
        *self = Land::seeded(&rolls, uber);
    }
}

} // verus!

verus! {

/// The money a plot holds: what lies on it, what its enemy holds and what
/// its trainer holds.
pub open spec fn plot_worth(p: Plot) -> nat {
    p.dosh as nat + match p.enemy {
        Some(b) => b.dough as nat,
        None => 0nat,
    } + match p.trainer {
        Some(t) => t.dough as nat,
        None => 0nat,
    }
}

/// The money all the given plots hold together.
pub open spec fn worth(s: Seq<Plot>) -> nat
    decreases s.len(),
{
    if s.len() == 0 {
        0
    } else {
        worth(s.drop_last()) + plot_worth(s.last())
    }
}

/// Replacing one plot changes the money all plots hold by the difference.
pub proof fn lemma_worth_update(s: Seq<Plot>, k: int, p: Plot)
    requires
        0 <= k < s.len(),
    ensures
        worth(s.update(k, p)) == worth(s) - plot_worth(s[k]) + plot_worth(p),
        plot_worth(s[k]) <= worth(s),
    decreases s.len(),
{
    let t = s.update(k, p);
    if k == s.len() - 1 {
        assert(t.drop_last() =~= s.drop_last());
    } else {
        lemma_worth_update(s.drop_last(), k, p);
        assert(t.drop_last() =~= s.drop_last().update(k, p));
    }
}

/// Whether the plots of `land` are laid out, one for each position.
pub open spec fn has_plots(land: Land) -> bool {
    &&& land.plots matches Some(plots)
    &&& plots@.len() == LAND_PLOTS
}

/// Whether the plots of `land` are laid out and listed.
pub open spec fn laid_out(land: Land) -> bool {
    &&& has_plots(land)
    &&& land.entity_locations is Some
}

/// The plots of a laid-out land, row by row.
pub open spec fn plots_of(land: Land) -> Seq<Plot> {
    land.plots.unwrap()@
}

/// The plot at `c`.
pub open spec fn plot_at(land: Land, c: Coord) -> Plot {
    plots_of(land)[plot_index(c)]
}

/// The money all plots of a laid-out land hold together.
pub open spec fn land_worth(land: Land) -> nat {
    worth(plots_of(land))
}

/// Whether `after` is `before` with the plot at `c` replaced by `p`.
pub open spec fn plot_replaced(before: Land, c: Coord, p: Plot, after: Land) -> bool {
    &&& after.plots matches Some(plots)
    &&& plots@ == plots_of(before).update(plot_index(c), p)
    &&& after.entity_locations == before.entity_locations
}

impl Land {
    /// The plot at `c`.
    pub fn plot(&self, c: Coord) -> (p: Plot)
        requires
            has_plots(*self),
            on_land(c),
        ensures
            p == plot_at(*self, c),
    {
        let plots = self.plots.as_ref().unwrap();
        plots[c.0 * LAND_WIDTH_Y + c.1]
    }

    /// Puts `p` at `c`.
    pub fn set_plot(&mut self, c: Coord, p: Plot)
        requires
            has_plots(*old(self)),
            on_land(c),
        ensures
            plot_replaced(*old(self), c, p, *final(self)),
            has_plots(*final(self)),
            laid_out(*old(self)) ==> laid_out(*final(self)),
            land_worth(*final(self)) == land_worth(*old(self)) - plot_worth(plot_at(*old(self), c))
                + plot_worth(p),
    {
        proof {
            lemma_worth_update(plots_of(*self), plot_index(c), p);
        }
        let k = c.0 * LAND_WIDTH_Y + c.1;
        match &mut self.plots {
            Some(plots) => {
                plots.set(k, p);
            },
            None => {},
        }
    }
}

} // verus!

verus! {

/// The money one plot holds is part of the money the whole land holds.
pub proof fn lemma_plot_within_land(land: Land, c: Coord)
    requires
        has_plots(land),
        on_land(c),
    ensures
        plot_worth(plot_at(land, c)) <= land_worth(land),
{
    lemma_worth_update(plots_of(land), plot_index(c), plot_at(land, c));
}

/// Plots that each hold at most `m` hold at most `m` times their number.
pub proof fn lemma_worth_bound(s: Seq<Plot>, m: nat)
    requires
        forall|k: int| 0 <= k < s.len() ==> plot_worth(#[trigger] s[k]) <= m,
    ensures
        worth(s) <= m * s.len(),
    decreases s.len(),
{
    if s.len() > 0 {
        let init = s.drop_last();
        assert forall|k: int| 0 <= k < init.len() implies plot_worth(#[trigger] init[k]) <= m by {
            assert(init[k] == s[k]);
        }
        lemma_worth_bound(init, m);
        assert(plot_worth(s.last()) <= m);
        assert(m * s.len() == m * init.len() + m) by (nonlinear_arith)
            requires
                s.len() == init.len() + 1,
        ;
    }
}

/// A freshly laid-out land holds at most two on each plot and nine with
/// each enemy: eleven a plot at most.
pub proof fn lemma_seeded_worth(rolls: Seq<(u64, u64)>, uber: Coord, land: Land)
    requires
        seeded_land(rolls, uber, land),
    ensures
        land_worth(land) <= 11 * LAND_PLOTS,
{
    let s = plots_of(land);
    assert forall|k: int| 0 <= k < s.len() implies plot_worth(#[trigger] s[k]) <= 11 by {
        let z = rolls[k].0;
        let e = rolls[k].1;
        assert(z < ZENI_GEN_PERMILLE ==> z / 100 <= 2);
        assert(e < ENEMY_GEN_PERMILLE ==> e / 20 <= 9);
    }
    lemma_worth_bound(s, 11);
}

} // verus!

verus! {

proof fn lemma_enemy_cells(rolls: Seq<(u64, u64)>, n: nat, c: Coord)
    requires
        on_land(c),
        n <= rolls.len(),
        n <= LAND_PLOTS,
    ensures
        enemy_cells(rolls, n).contains(c) <==> (plot_index(c) < n && rolls[plot_index(
            c,
        )].1 < ENEMY_GEN_PERMILLE),
    decreases n,
{
    if n > 0 {
        lemma_enemy_cells(rolls, (n - 1) as nat, c);
        let before = enemy_cells(rolls, (n - 1) as nat);
        let k = n - 1;
        let x = c.0 as int;
        let y = c.1 as int;
        assert((k / 10 == x && k % 10 == y) <==> x * 10 + y == k) by (nonlinear_arith)
            requires
                0 <= y < 10,
                0 <= x < 10,
                0 <= k < 100,
        ;
        assert(index_coord(k) == c <==> plot_index(c) == k);
        if rolls[k].1 < ENEMY_GEN_PERMILLE {
            assert(enemy_cells(rolls, n) == before.push(index_coord(k)));
            assert(enemy_cells(rolls, n).contains(c) <==> (before.contains(c) || index_coord(k)
                == c)) by {
                if before.contains(c) {
                    let i = choose|i: int| 0 <= i < before.len() && before[i] == c;
                    assert(before.push(index_coord(k))[i] == c);
                }
                if index_coord(k) == c {
                    assert(before.push(index_coord(k))[before.len() as int] == c);
                }
            }
        }
    }
}

/// A freshly laid-out land lists exactly the positions where enemies stand,
/// and exactly the one position where the taxi stands.
pub proof fn lemma_listed_positions(rolls: Seq<(u64, u64)>, uber: Coord, land: Land, c: Coord)
    requires
        rolls.len() == LAND_PLOTS,
        on_land(uber),
        on_land(c),
        seeded_land(rolls, uber, land),
    ensures
        land.entity_locations.unwrap().enemies@.contains(c) <==> plot_at(land, c).enemy is Some,
        land.entity_locations.unwrap().taxis@.contains(c) <==> plot_at(land, c).driver is Some,
{
    lemma_enemy_cells(rolls, LAND_PLOTS as nat, c);
    let k = plot_index(c);
    assert(plots_of(land)[k] == plot_at(land, c));
    assert(plot_index(c) == plot_index(uber) <==> c == uber);
    let taxis = land.entity_locations.unwrap().taxis@;
    assert(taxis.contains(c) <==> c == uber) by {
        if c == uber {
            assert(taxis[0] == c);
        }
    }
}

} // verus!

verus! {

/// The word a label stands for: the label with its first letter, when it
/// is a capital, in small type.
pub open spec fn uncapitalised(s: Seq<char>) -> Seq<char> {
    if s.len() > 0 && 'A' <= s[0] <= 'Z' {
        s.update(0, ((s[0] as u32) + 32) as char)
    } else {
        s
    }
}

/// The label shown for a direction is the word that names that direction,
/// capitalised: reading a label back gives the same direction, so no two
/// directions are shown alike.
pub proof fn lemma_label_names_direction(d: Cardinal)
    ensures
        cardinal_named(uncapitalised(cardinal_label(d))) == Some(d),
{
    reveal_strlit("North");
    reveal_strlit("East");
    reveal_strlit("South");
    reveal_strlit("West");
    reveal_strlit("north");
    reveal_strlit("east");
    reveal_strlit("south");
    reveal_strlit("west");
    match d {
        Cardinal::North => {
            assert(uncapitalised("North"@) =~= "north"@);
        },
        Cardinal::East => {
            assert(uncapitalised("East"@) =~= "east"@);
            assert("east"@ != "north"@);
        },
        Cardinal::South => {
            assert(uncapitalised("South"@) =~= "south"@);
            assert("south"@[0] != "north"@[0]);
            assert("south"@ != "east"@);
        },
        Cardinal::West => {
            assert(uncapitalised("West"@) =~= "west"@);
            assert("west"@ != "north"@);
            assert("west"@[0] != "east"@[0]);
            assert("west"@ != "south"@);
        },
    }
}

/// Different directions are shown differently.
pub proof fn lemma_labels_differ(d1: Cardinal, d2: Cardinal)
    requires
        d1 != d2,
    ensures
        cardinal_label(d1) != cardinal_label(d2),
{
    lemma_label_names_direction(d1);
    lemma_label_names_direction(d2);
}

} // verus!

verus! {

/// On a land laid out from draws out of a thousand, a plot holds money
/// exactly when its money draw lies from 100 to 299, and an enemy exactly
/// when its enemy draw lies below 200.
pub proof fn lemma_seeded_plot_contents(rolls: Seq<(u64, u64)>, uber: Coord, land: Land, c: Coord)
    requires
        seeded_land(rolls, uber, land),
        on_land(c),
    ensures
        plot_at(land, c).dosh != 0 <==> 100 <= rolls[plot_index(c)].0 < 300,
        plot_at(land, c).enemy is Some <==> rolls[plot_index(c)].1 < 200,
{
    let k = plot_index(c);
    assert(0 <= k < LAND_PLOTS);
    assert(plots_of(land)[k] == plot_at(land, c));
}

} // verus!
