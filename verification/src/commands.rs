//! What the player types, and what each typed command does to the
//! character and the land.
use vstd::prelude::*;
use crate::creatures::{
    fight_lines,
    fight_result,
    taunt_text,
    Bureaucrat,
    Character,
    Monetary,
    Sex,
    Stats,
    FIGHT_WIN_PERCENT,
};
use crate::geography::{
    cardinal_label,
    cardinal_named,
    lemma_worth_update,
    has_plots,
    laid_out,
    land_worth,
    on_land,
    plot_at,
    plot_index,
    plot_replaced,
    plot_worth,
    plots_of,
    Cardinal,
    Coord,
    Land,
    Plot,
    LAND_WIDTH_X,
    LAND_WIDTH_Y,
};
use crate::text::{
    coords_list_text,
    coords_text,
    decimal,
    decimal_text,
    lemma_split_nonempty,
    lowercase,
    repeat_text,
    repeated,
    same_text,
    split_on_spaces,
    split_spaces,
    texts,
    to_lowercase,
};

verus! {

/// Every answer that counts as agreeing.
pub const YES_VALUES: [&'static str; 17] = [
    "y",
    "yes",
    "yea",
    "yeah",
    "uh huh",
    "yeh",
    "sure",
    "why not",
    "totally",
    "okay",
    "ok",
    "i guess",
    "whatever",
    "hell yeah",
    "fuck yeah",
    "fuck yes",
    "yes oh lord",
];

/// Whether `answer` is one of the agreeing answers, exactly as written.
pub open spec fn is_yes_word(answer: Seq<char>) -> bool {
    exists|i: int| 0 <= i < 17 && #[trigger] YES_VALUES[i]@ == answer
}

/// Whether an already lower-cased answer is one of the agreeing answers.
pub fn is_yes(answer: &str) -> (r: bool)
    ensures
        r == is_yes_word(answer@),
{
    let mut i: usize = 0;
    while i < 17
        invariant
            i <= 17,
            forall|k: int| 0 <= k < i ==> YES_VALUES[k]@ != answer@,
        decreases 17 - i,
    {
        if same_text(YES_VALUES[i], answer) {
            return true;
        }
        i = i + 1;
    }
    false
}

/// Whether the player agreed: the answer, lower-cased, is one of the
/// agreeing answers.
pub fn confirm(answer: &str) -> (r: bool)
    ensures
        r == is_yes_word(lowercase(answer@)),
{
    let lowered = to_lowercase(answer);
    is_yes(lowered.as_str())
}

} // verus!

verus! {

/// What the player wants to do.
#[derive(Clone, Copy, Debug, PartialEq, Eq, Structural)]
pub enum Command {
    Combat,
    Movement,
    Repeat,
    Riding,
    System,
    Train,
    Debug,
}

/// A command and the words it was typed with (the command word first).
pub struct Desire {
    pub command: Command,
    pub args: Vec<String>,
}

/// The command a first word asks for, if any. (The two-word entries can
/// never be a first word, since the input is cut at spaces.)
pub open spec fn command_for(root: Seq<char>) -> Option<Command> {
    if root == "walk"@ || root == "go"@ || root == "run"@ {
        Some(Command::Movement)
    } else if root == "take"@ || root == "ride"@ || root == "get in"@ {
        Some(Command::Riding)
    } else if root == "punch"@ || root == "fight"@ || root == "lick"@ {
        Some(Command::Combat)
    } else if root == "train"@ || root == "lift"@ || root == "exercise"@ || root == "workout"@
        || root == "work out"@ {
        Some(Command::Train)
    } else if root == "quit"@ || root == "bounce"@ {
        Some(Command::System)
    } else if root == "debug"@ || root == "dbg"@ || root == "p"@ {
        Some(Command::Debug)
    } else if root == ""@ {
        Some(Command::Repeat)
    } else {
        None
    }
}

/// The command a first word asks for, if any.
pub fn command_named(root: &str) -> (r: Option<Command>)
    ensures
        r == command_for(root@),
{
    if same_text(root, "walk") || same_text(root, "go") || same_text(root, "run") {
        Some(Command::Movement)
    } else if same_text(root, "take") || same_text(root, "ride") || same_text(root, "get in") {
        Some(Command::Riding)
    } else if same_text(root, "punch") || same_text(root, "fight") || same_text(root, "lick") {
        Some(Command::Combat)
    } else if same_text(root, "train") || same_text(root, "lift") || same_text(root, "exercise")
        || same_text(root, "workout") || same_text(root, "work out") {
        Some(Command::Train)
    } else if same_text(root, "quit") || same_text(root, "bounce") {
        Some(Command::System)
    } else if same_text(root, "debug") || same_text(root, "dbg") || same_text(root, "p") {
        Some(Command::Debug)
    } else if same_text(root, "") {
        Some(Command::Repeat)
    } else {
        None
    }
}

/// Reads what the player typed: the input is cut at every space; the first
/// piece names the command, and all the pieces are its words.
pub fn this_guy_wants_to(input: &str) -> (r: Result<Desire, &'static str>)
    ensures
        match command_for(split_spaces(input@)[0]) {
            Some(c) => r matches Ok(d) && d.command == c && texts(d.args@) == split_spaces(
                input@,
            ),
            None => r matches Err(e) && e@ == "Tf?"@,
        },
{
    let components = split_on_spaces(input);
    proof {
        lemma_split_nonempty(input@);
        assert(components@[0]@ == texts(components@)[0]);
    }
    match command_named(components[0].as_str()) {
        Some(command) => Ok(Desire { command, args: components }),
        None => Err("Tf?"),
    }
}

/// The signed position one step from `wb` in direction `d` (north and east
/// count up).
pub open spec fn step_target(d: Cardinal, wb: Coord) -> (isize, isize) {
    match d {
        Cardinal::North => ((wb.0 as isize), ((wb.1 as isize) + 1) as isize),
        Cardinal::East => (((wb.0 as isize) + 1) as isize, (wb.1 as isize)),
        Cardinal::South => ((wb.0 as isize), ((wb.1 as isize) - 1) as isize),
        Cardinal::West => (((wb.0 as isize) - 1) as isize, (wb.1 as isize)),
    }
}

/// Whether the step from `wb` in direction `d` can be counted in `isize`.
pub open spec fn step_fits(d: Cardinal, wb: Coord) -> bool {
    match d {
        Cardinal::North => (wb.1 as isize) < isize::MAX,
        Cardinal::East => (wb.0 as isize) < isize::MAX,
        Cardinal::South => (wb.1 as isize) > isize::MIN,
        Cardinal::West => (wb.0 as isize) > isize::MIN,
    }
}

/// Where a step from `wb` in direction `d` leads, or `None` at a wall.
pub open spec fn destination(d: Cardinal, wb: Coord) -> Option<Coord> {
    let t = step_target(d, wb);
    if crate::geography::spec_in_bounds(t) {
        Some((t.0 as usize, t.1 as usize))
    } else {
        None
    }
}

/// Where a step from `wb` in direction `direction` leads; a step off the
/// land hits a wall.
pub fn yo_whered_i_move_to(direction: &Cardinal, wb: Coord) -> (r: Result<Coord, &'static str>)
    requires
        step_fits(*direction, wb),
    ensures
        match destination(*direction, wb) {
            Some(c) => r == Ok::<Coord, &'static str>(c),
            None => r matches Err(e) && e@ == "You hit a wall."@,
        },
{
    let i_moved_here: (isize, isize) = match direction {
        Cardinal::North => (wb.0 as isize, wb.1 as isize + 1),
        Cardinal::East => (wb.0 as isize + 1, wb.1 as isize),
        Cardinal::South => (wb.0 as isize, wb.1 as isize - 1),
        Cardinal::West => (wb.0 as isize - 1, wb.1 as isize),
    };
    if !crate::geography::in_bounds(i_moved_here) {
        Err("You hit a wall.")
    } else {
        Ok((i_moved_here.0 as usize, i_moved_here.1 as usize))
    }
}

/// The character a game starts with when none is made: Bobby Hill, a boy
/// with nothing.
pub fn get_default_character() -> (c: Character)
    ensures
        c.name@ == "Bobby Hill"@,
        c.sex == Sex::Boy,
        c.whereabouts is None,
        c.skril == 0,
        c.stats == (Stats { muscles: 0, brains: 0, mojo: 0 }),
{
    let name = "Bobby Hill".to_owned();
    Character {
        name,
        sex: Sex::Boy,
        whereabouts: None,
        skril: 0,
        stats: Stats { muscles: 0, brains: 0, mojo: 0 },
    }
}

/// The lines of a result, or its error.
pub open spec fn outcome_texts(r: Result<Vec<String>, String>) -> Result<Seq<Seq<char>>, Seq<char>> {
    match r {
        Ok(lines) => Ok(texts(lines@)),
        Err(e) => Err(e@),
    }
}

/// Whether the character stands on a laid-out land, and all the money in
/// play can be counted in a `u64`.
pub open spec fn in_play(c: Character, land: Land) -> bool {
    &&& laid_out(land)
    &&& c.whereabouts matches Some(wb)
    &&& on_land(wb)
    &&& c.skril + land_worth(land) <= u64::MAX
}

/// Where the character stands.
pub open spec fn position(c: Character) -> Coord {
    c.whereabouts.unwrap()
}

/// Whether the character stands somewhere on a land whose plots are laid
/// out.
pub open spec fn stands_on_plots(c: Character, land: Land) -> bool {
    &&& c.whereabouts matches Some(wb)
    &&& on_land(wb)
    &&& has_plots(land)
}

/// What walking with the words `args` needs: with two words the character
/// stands somewhere; with a direction the step can be counted; and a step
/// that stays on the land leads onto laid-out plots, where the money lying
/// there can be added to the character's.
pub open spec fn walk_needs(c: Character, land: Land, args: Seq<Seq<char>>) -> bool {
    args.len() == 2 ==> {
        &&& c.whereabouts is Some
        &&& match cardinal_named(args[1]) {
            None => true,
            Some(d) => {
                &&& step_fits(d, position(c))
                &&& match destination(d, position(c)) {
                    None => true,
                    Some(t) => has_plots(land) && c.skril + plot_at(land, t).dosh <= u64::MAX,
                }
            },
        }
    }
}

/// The lines shown on walking in direction `d` onto plot `p`.
pub open spec fn walk_lines(d: Cardinal, p: Plot) -> Seq<Seq<char>> {
    seq!["You walk "@ + cardinal_label(d) + "."@] + (if p.dosh != 0 {
        seq!["You found "@ + decimal(p.dosh as nat) + " zeni boi"@]
    } else {
        Seq::<Seq<char>>::empty()
    }) + (if p.enemy is Some {
        seq!["uh oh there's a baddie here 🤪"@]
    } else {
        Seq::<Seq<char>>::empty()
    }) + (if p.driver is Some {
        seq!["oh look an uber"@]
    } else {
        Seq::<Seq<char>>::empty()
    }) + (if p.trainer is Some {
        seq!["is that a personal trainer? he looks small and poor"@]
    } else {
        Seq::<Seq<char>>::empty()
    })
}

/// What walking with the words `args` shows: the lines of the walk, or
/// why there was none.
pub open spec fn walk_result(c0: Character, l0: Land, args: Seq<Seq<char>>) -> Result<
    Seq<Seq<char>>,
    Seq<char>,
> {
    if args.len() != 2 {
        Err("I just need a direction hoss."@)
    } else {
        match cardinal_named(args[1]) {
            None => Err("go "@ + args[1] + "? what the fuck"@),
            Some(d) => match destination(d, position(c0)) {
                None => Err("You hit a wall."@),
                Some(t) => Ok(walk_lines(d, plot_at(l0, t))),
            },
        }
    }
}

/// What walking with the words `args` does. With a direction that stays on
/// the land, the character moves there and picks up the money lying there;
/// otherwise nothing changes.
pub open spec fn walked(c0: Character, l0: Land, args: Seq<Seq<char>>, c1: Character, l1: Land) -> bool {
    match walk_result(c0, l0, args) {
        Err(_) => c1 == c0 && l1 == l0,
        Ok(_) => {
            let t = destination(cardinal_named(args[1]).unwrap(), position(c0)).unwrap();
            let p = plot_at(l0, t);
            &&& c1.name == c0.name
            &&& c1.sex == c0.sex
            &&& c1.stats == c0.stats
            &&& c1.whereabouts == Some(t)
            &&& c1.skril == c0.skril + p.dosh
            &&& plot_replaced(l0, t, Plot { dosh: 0, ..p }, l1)
        },
    }
}

/// Walks in the direction named by the second word; see [`walked`].
pub fn command_move_character(character: &mut Character, land: &mut Land, args: Vec<String>) -> (r:
    Result<Vec<String>, String>)
    requires
        walk_needs(*old(character), *old(land), texts(args@)),
    ensures
        outcome_texts(r) == walk_result(*old(character), *old(land), texts(args@)),
        walked(*old(character), *old(land), texts(args@), *final(character), *final(land)),
        in_play(*old(character), *old(land)) ==> in_play(*final(character), *final(land)),
        has_plots(*old(land)) ==> final(character).skril + land_worth(*final(land))
            == old(character).skril + land_worth(*old(land)),
{
    if args.len() != 2 {
        return Err("I just need a direction hoss.".to_owned());
    }
    let direction_str = &args[1];
    let starting_wb = character.whereabouts.unwrap();
    assert(texts(args@)[1] == direction_str@);
    match Cardinal::from_name(direction_str.as_str()) {
        Ok(direction) => {
            let i_moved_here = match yo_whered_i_move_to(&direction, starting_wb) {
                Ok(c) => c,
                Err(e) => {
                    return Err(e.to_owned());
                },
            };
            let mut lines: Vec<String> = Vec::new();
            let mut walk = "You walk ".to_owned();
            walk.append(direction.label());
            walk.append(".");
            lines.push(walk);
            character.whereabouts = Some(i_moved_here);
            let old_plot = land.plot(i_moved_here);
            let mut new_plot = old_plot;
            proof {
                lemma_worth_update(plots_of(*land), plot_index(i_moved_here), new_plot);
            }
            if new_plot.dosh != 0 {
                let mut found = "You found ".to_owned();
                found.append(decimal_text(new_plot.dosh).as_str());
                found.append(" zeni boi");
                lines.push(found);
                character.skril = character.skril + new_plot.dosh;
                new_plot.dosh = 0;
            }
            land.set_plot(i_moved_here, new_plot);
            if new_plot.enemy.is_some() {
                lines.push("uh oh there's a baddie here 🤪".to_owned());
            }
            if new_plot.driver.is_some() {
                lines.push("oh look an uber".to_owned());
            }
            if new_plot.trainer.is_some() {
                lines.push("is that a personal trainer? he looks small and poor".to_owned());
            }
            assert(texts(lines@) =~= walk_lines(direction, old_plot));
            Ok(lines)
        },
        Err(_) => {
            let mut complaint = "go ".to_owned();
            complaint.append(direction_str.as_str());
            complaint.append("? what the fuck");
            Err(complaint)
        },
    }
}

} // verus!

verus! {

/// A bureaucrat after a fight: the player, on winning, took all his money.
pub open spec fn fought(b: Bureaucrat, won: bool) -> Bureaucrat {
    if won {
        Bureaucrat { dough: 0, ..b }
    } else {
        b
    }
}

/// What fighting where the character stands shows, with the given roll of
/// a hundred-sided die: the taunt and [`fight_lines`] when an enemy is
/// there.
pub open spec fn fight_outcome(c0: Character, l0: Land, roll: u64) -> Result<
    Seq<Seq<char>>,
    Seq<char>,
> {
    match plot_at(l0, position(c0)).enemy {
        None => Err("Ain't nobody around pal..."@),
        Some(b) => Ok(seq![taunt_text()] + fight_lines(b, roll < FIGHT_WIN_PERCENT)),
    }
}

/// What fighting where the character stands does, with the given roll: with
/// an enemy there, see [`fight_result`]; without one, nothing changes.
pub open spec fn fought_here(c0: Character, l0: Land, roll: u64, c1: Character, l1: Land) -> bool {
    let p = plot_at(l0, position(c0));
    match p.enemy {
        None => c1 == c0 && l1 == l0,
        Some(b) => {
            let won = roll < FIGHT_WIN_PERCENT;
            &&& fight_result(b, c0, won, fought(b, won), c1, seq![taunt_text()] + fight_lines(b, won))
            &&& plot_replaced(l0, position(c0), Plot { enemy: Some(fought(b, won)), ..p }, l1)
        },
    }
}

/// Fights the enemy where the character stands, with the given roll; see
/// [`fought_here`].
pub fn command_fight_enemy(character: &mut Character, land: &mut Land, roll: u64) -> (r: Result<
    Vec<String>,
    String,
>)
    requires
        stands_on_plots(*old(character), *old(land)),
        match plot_at(*old(land), position(*old(character))).enemy {
            Some(b) => roll < FIGHT_WIN_PERCENT ==> old(character).skril + b.dough <= u64::MAX,
            None => true,
        },
    ensures
        outcome_texts(r) == fight_outcome(*old(character), *old(land), roll),
        fought_here(*old(character), *old(land), roll, *final(character), *final(land)),
        in_play(*old(character), *old(land)) ==> in_play(*final(character), *final(land)),
        final(character).skril + land_worth(*final(land)) == old(character).skril + land_worth(
            *old(land),
        ),
{
    let wb = character.whereabouts.unwrap();
    let plot = land.plot(wb);
    match plot.enemy {
        Some(enemy) => {
            proof {
                lemma_worth_update(plots_of(*land), plot_index(wb), plot);
            }
            let mut enemy = enemy;
            let lines = enemy.fight_with_roll(character, roll);
            land.set_plot(wb, Plot { enemy: Some(enemy), ..plot });
            Ok(lines)
        },
        None => Err("Ain't nobody around pal...".to_owned()),
    }
}

/// What riding from where the character stands gives: with a taxi there,
/// the ride goes when the character's money covers the fee.
pub open spec fn ride_outcome(c: Character, land: Land) -> Result<Seq<char>, Seq<char>> {
    match plot_at(land, position(c)).driver {
        Some(driver) => if c.skril >= driver.fee {
            Ok("Uber driver got slightly richer"@)
        } else {
            Err("TOO POOR"@)
        },
        None => Err("gotta find a taxi first bub"@),
    }
}

/// Takes the taxi where the character stands; see [`ride_outcome`].
pub fn command_rideshare(character: &Character, land: &Land) -> (r: Result<String, String>)
    requires
        stands_on_plots(*character, *land),
    ensures
        match r {
            Ok(msg) => ride_outcome(*character, *land) == Ok::<Seq<char>, Seq<char>>(msg@),
            Err(msg) => ride_outcome(*character, *land) == Err::<Seq<char>, Seq<char>>(msg@),
        },
{
    let wb = character.whereabouts.unwrap();
    match land.plot(wb).driver {
        Some(driver) => driver.initiate_ride(character.skril),
        None => Err("gotta find a taxi first bub".to_owned()),
    }
}

/// What asking for the list named by the second word shows.
pub open spec fn debug_outcome(land: Land, args: Seq<Seq<char>>) -> Result<Seq<Seq<char>>, Seq<char>> {
    let locations = land.entity_locations.unwrap();
    if args.len() != 2 {
        Err("gotta tell me what to print out hoss"@)
    } else if args[1] == crate::creatures::entity::TAXI@ {
        Ok(seq![coords_list_text(locations.taxis@)])
    } else if args[1] == crate::creatures::entity::ENEMY@ {
        Ok(seq![coords_list_text(locations.enemies@)])
    } else {
        Ok(seq!["None of whatever those are around."@])
    }
}

/// Shows where the things named by the second word stand; see
/// [`debug_outcome`].
pub fn command_debug_info(land: &Land, args: Vec<String>) -> (r: Result<Vec<String>, String>)
    requires
        args.len() == 2 ==> land.entity_locations is Some,
    ensures
        outcome_texts(r) == debug_outcome(*land, texts(args@)),
{
    if args.len() != 2 {
        return Err("gotta tell me what to print out hoss".to_owned());
    }
    let obj = &args[1];
    assert(texts(args@)[1] == obj@);
    let mut lines: Vec<String> = Vec::new();
    match land.entity_locations.as_ref().unwrap().get(obj.as_str()) {
        Some(entities) => lines.push(coords_text(entities)),
        None => lines.push("None of whatever those are around.".to_owned()),
    }
    proof {
        reveal_strlit("taxi");
        reveal_strlit("enemy");
        assert(crate::creatures::entity::TAXI@ == "taxi"@);
        assert(crate::creatures::entity::TAXI@.len() == 4);
        assert(crate::creatures::entity::TAXI@ != crate::creatures::entity::ENEMY@);
    }
    assert(texts(lines@) =~= debug_outcome(*land, texts(args@))->Ok_0);
    Ok(lines)
}

} // verus!

verus! {

/// Whether `r` is the whole part of the square root of `n`.
pub open spec fn is_floor_sqrt(n: nat, r: nat) -> bool {
    r * r <= n < (r + 1) * (r + 1)
}

/// The whole part of the square root of `n`.
pub fn floor_sqrt(n: u64) -> (r: u64)
    ensures
        is_floor_sqrt(n as nat, r as nat),
{
    let mut lo: u64 = 0;
    let mut hi: u64 = 0x1_0000_0000;
    assert(n < hi * hi) by (nonlinear_arith)
        requires
            hi == 0x1_0000_0000,
            n <= u64::MAX,
    ;
    while hi - lo > 1
        invariant
            lo < hi <= 0x1_0000_0000,
            lo * lo <= n,
            n < hi * hi,
        decreases hi - lo,
    {
        let mid = lo + (hi - lo) / 2;
        assert(mid * mid <= 0xFFFF_FFFE_0000_0001) by (nonlinear_arith)
            requires
                mid <= 0xFFFF_FFFF,
        ;
        if mid * mid <= n {
            lo = mid;
        } else {
            hi = mid;
        }
    }
    assert(hi == lo + 1);
    lo
}

/// The sum of the three stats.
pub open spec fn stats_total(s: Stats) -> nat {
    s.muscles as nat + s.brains as nat + s.mojo as nat
}

/// What a training session costs: the whole part of the square root of the
/// sum of the stats.
pub open spec fn is_training_cost(s: Stats, cost: nat) -> bool {
    is_floor_sqrt(stats_total(s), cost)
}

/// The line that offers a session at `cost`.
pub open spec fn offer_text(cost: nat) -> Seq<char> {
    if cost == 0 {
        "First session's free, you ready?"@
    } else {
        "You can train but it'll cost you "@ + decimal(cost) + ", capiche?"@
    }
}

/// Looks for a trainer where the character stands: with one there, returns
/// the price of a session and the line that offers it.
pub fn command_train(character: &Character, land: &Land) -> (r: Result<(u64, String), String>)
    requires
        stands_on_plots(*character, *land),
        plot_at(*land, position(*character)).trainer is Some ==> stats_total(character.stats)
            <= u64::MAX,
    ensures
        match r {
            Ok((cost, offer)) => {
                &&& plot_at(*land, position(*character)).trainer is Some
                &&& is_training_cost(character.stats, cost as nat)
                &&& offer@ == offer_text(cost as nat)
            },
            Err(msg) => {
                &&& plot_at(*land, position(*character)).trainer is None
                &&& msg@ == "No gains to be found here bub"@
            },
        },
{
    let wb = character.whereabouts.unwrap();
    match land.plot(wb).trainer {
        Some(_) => {
            let stats = character.stats;
            let cost = floor_sqrt(stats.muscles + stats.mojo + stats.brains);
            let offer = if cost == 0 {
                "First session's free, you ready?".to_owned()
            } else {
                let mut offer = "You can train but it'll cost you ".to_owned();
                offer.append(decimal_text(cost).as_str());
                offer.append(", capiche?");
                offer
            };
            Ok((cost, offer))
        },
        None => Err("No gains to be found here bub".to_owned()),
    }
}

/// The line that shows muscles going from `before` up by `gain`.
pub open spec fn gain_text(before: nat, gain: nat) -> Seq<char> {
    repeated("💪"@, gain) + " "@ + "Muscles "@ + decimal(before) + " -> "@ + decimal(before + gain)
        + " "@ + repeated("💪"@, gain)
}

/// The lines the end of a training session shows.
pub open spec fn training_lines(c0: Character, cost: u64, agreed: bool, gain: u64) -> Seq<Seq<char>> {
    if !agreed {
        Seq::<Seq<char>>::empty()
    } else if c0.skril < cost {
        seq!["You can't afford this. Get a job."@]
    } else {
        seq![
            "Personal trainer got paid, but money can't buy gains"@,
            gain_text(c0.stats.muscles as nat, gain as nat),
        ]
    }
}

/// What the end of a training session does: when the player agreed and
/// can pay, the money goes to the trainer where the character stands and
/// the muscles grow by `gain`; otherwise nothing changes.
pub open spec fn trained(
    c0: Character,
    l0: Land,
    cost: u64,
    agreed: bool,
    gain: u64,
    c1: Character,
    l1: Land,
) -> bool {
    let p = plot_at(l0, position(c0));
    if !agreed || c0.skril < cost {
        c1 == c0 && l1 == l0
    } else {
        let trainer = p.trainer.unwrap();
        &&& c1.name == c0.name
        &&& c1.sex == c0.sex
        &&& c1.whereabouts == c0.whereabouts
        &&& c1.skril == c0.skril - cost
        &&& c1.stats == Stats { muscles: (c0.stats.muscles + gain) as u64, ..c0.stats }
        &&& plot_replaced(
            l0,
            position(c0),
            Plot {
                trainer: Some(crate::creatures::PersonalTrainer { dough: (trainer.dough + cost) as u64 }),
                ..p
            },
            l1,
        )
    }
}

/// Ends a training session at `cost` where the character stands: `agreed`
/// is whether the player said yes, and `gain` how much the muscles grow;
/// see [`trained`].
pub fn finish_training(
    character: &mut Character,
    land: &mut Land,
    cost: u64,
    agreed: bool,
    gain: u64,
) -> (lines: Vec<String>)
    requires
        stands_on_plots(*old(character), *old(land)),
        plot_at(*old(land), position(*old(character))).trainer is Some,
        agreed && old(character).skril >= cost ==> {
            &&& plot_at(*old(land), position(*old(character))).trainer.unwrap().dough + cost
                <= u64::MAX
            &&& old(character).stats.muscles + gain <= u64::MAX
        },
    ensures
        texts(lines@) == training_lines(*old(character), cost, agreed, gain),
        trained(*old(character), *old(land), cost, agreed, gain, *final(character), *final(land)),
        in_play(*old(character), *old(land)) ==> in_play(*final(character), *final(land)),
        final(character).skril + land_worth(*final(land)) == old(character).skril + land_worth(
            *old(land),
        ),
{
    let mut lines: Vec<String> = Vec::new();
    if !agreed {
        return lines;
    }
    if character.skril < cost {
        lines.push("You can't afford this. Get a job.".to_owned());
        assert(texts(lines@) =~= seq!["You can't afford this. Get a job."@]);
        return lines;
    }
    let wb = character.whereabouts.unwrap();
    let plot = land.plot(wb);
    proof {
        lemma_worth_update(plots_of(*land), plot_index(wb), plot);
    }
    let mut trainer = plot.trainer.unwrap();
    lines.push(trainer.take_payment(cost));
    land.set_plot(wb, Plot { trainer: Some(trainer), ..plot });
    character.skril = character.skril - cost;
    let before = character.stats.muscles;
    let mut gained = repeat_text("💪", gain);
    gained.append(" ");
    gained.append("Muscles ");
    gained.append(decimal_text(before).as_str());
    gained.append(" -> ");
    gained.append(decimal_text(before + gain).as_str());
    gained.append(" ");
    gained.append(repeat_text("💪", gain).as_str());
    lines.push(gained);
    character.stats.muscles = before + gain;
    assert(texts(lines@) =~= seq![
        "Personal trainer got paid, but money can't buy gains"@,
        gain_text(before as nat, gain as nat),
    ]);
    lines
}

} // verus!

verus! {

/// The direction that leads back.
pub open spec fn opposite(d: Cardinal) -> Cardinal {
    match d {
        Cardinal::North => Cardinal::South,
        Cardinal::East => Cardinal::West,
        Cardinal::South => Cardinal::North,
        Cardinal::West => Cardinal::East,
    }
}

/// A step that stays on the land can be undone: from where it leads, the
/// step in the opposite direction leads back.
pub proof fn lemma_step_back(d: Cardinal, wb: Coord)
    requires
        on_land(wb),
        destination(d, wb) is Some,
    ensures
        step_fits(opposite(d), destination(d, wb).unwrap()),
        destination(opposite(d), destination(d, wb).unwrap()) == Some(wb),
{
}

} // verus!

verus! {

/// A session the player agreed to goes ahead whenever the player holds at
/// least its cost (so a free session always does): the money drops by
/// exactly the cost, the muscles grow by exactly the gain, and the player
/// hears the trainer's note and the gain, not a refusal.
pub proof fn lemma_training_goes_ahead(
    c0: Character,
    l0: Land,
    cost: u64,
    gain: u64,
    c1: Character,
    l1: Land,
)
    requires
        c0.skril >= cost,
        c0.stats.muscles + gain <= u64::MAX,
        trained(c0, l0, cost, true, gain, c1, l1),
    ensures
        c1.skril == c0.skril - cost,
        c1.stats.muscles == c0.stats.muscles + gain,
        c1.stats.brains == c0.stats.brains,
        c1.stats.mojo == c0.stats.mojo,
        training_lines(c0, cost, true, gain).len() == 2,
        training_lines(c0, cost, true, gain)[0]
            == "Personal trainer got paid, but money can't buy gains"@,
{
}

/// The player is told to get a job only after agreeing to a session that
/// costs more than the player holds; and then nothing changes.
pub proof fn lemma_refused_only_when_short(
    c0: Character,
    l0: Land,
    cost: u64,
    agreed: bool,
    gain: u64,
    c1: Character,
    l1: Land,
)
    requires
        trained(c0, l0, cost, agreed, gain, c1, l1),
        training_lines(c0, cost, agreed, gain) == seq!["You can't afford this. Get a job."@],
    ensures
        agreed,
        c0.skril < cost,
        c1 == c0,
        l1 == l0,
{
    reveal_strlit("You can't afford this. Get a job.");
    reveal_strlit("Personal trainer got paid, but money can't buy gains");
    let lines = training_lines(c0, cost, agreed, gain);
    assert(lines.len() == 1);
    if !agreed {
        assert(lines.len() == 0);
    } else if c0.skril >= cost {
        assert(lines.len() == 2);
    }
}

} // verus!
