//! The game itself, as a machine that takes what the player types and
//! answers with the lines to show.
use vstd::prelude::*;
use crate::chance::roll_between;
use crate::commands::{
    walk_needs,
    command_debug_info,
    command_fight_enemy,
    command_for,
    command_move_character,
    command_rideshare,
    command_train,
    destination,
    confirm,
    debug_outcome,
    fight_outcome,
    finish_training,
    fought_here,
    in_play,
    is_training_cost,
    is_yes_word,
    offer_text,
    position,
    ride_outcome,
    stats_total,
    this_guy_wants_to,
    trained,
    training_lines,
    walk_result,
    walked,
    Command,
};
use crate::creatures::{sex_label, Character};
use crate::geography::{
    cardinal_named,
    land_worth,
    laid_out,
    lemma_plot_within_land,
    on_land,
    plot_at,
    plot_from_rolls,
    plot_index,
    plot_worth,
    rolls_in_range,
    seeded_land,
    worth,
    Land,
    Plot,
    LAND_PLOTS,
};
use crate::text::{lowercase, split_spaces, texts, to_lowercase};

verus! {

/// The most money a freshly laid-out land holds: two on each plot and nine
/// with each enemy.
pub const MAX_START_WORTH: u64 = 1100;

/// What the game waits for.
pub enum Phase {
    /// A command.
    Exploring,
    /// An answer to the offer of a training session at `cost`; `command` is
    /// the command that asked for it.
    Training { cost: u64, command: String },
    /// Nothing: the game is over.
    Over,
}

/// The dice a turn may need: a hundred-sided die for a fight, and how much
/// a training session adds to the muscles.
#[derive(Clone, Copy, Debug, PartialEq, Eq, Structural)]
pub struct Dice {
    pub fight_roll: u64,
    pub muscle_gain: u64,
}

/// Whether the dice show what they can show: a fight roll below a hundred
/// and a gain from three to eleven.
pub open spec fn dice_in_range(d: Dice) -> bool {
    d.fight_roll < 100 && 3 <= d.muscle_gain < 12
}

/// Whether the three stats can be summed in a `u64`.
fn stats_fit(s: crate::creatures::Stats) -> (r: bool)
    ensures
        r == (stats_total(s) <= u64::MAX),
{
    s.muscles <= u64::MAX - s.brains && s.mojo <= u64::MAX - s.muscles - s.brains
}

/// A game under way.
pub struct Adventure {
    pub character: Character,
    pub land: Land,
    /// Once the character holds more than this, the way out is open.
    pub key_price: u64,
    /// Whether the player was told the way out is open.
    pub alerted_exit: bool,
    /// The commands carried out so far, lower-cased, oldest first.
    pub previous_commands: Vec<String>,
    pub phase: Phase,
}

/// Whether a typed command asks to repeat the last one.
pub open spec fn is_repeat(command: Seq<char>) -> bool {
    command_for(split_spaces(command)[0]) == Some(Command::Repeat)
}

/// The line telling the player the way out is open, when the character
/// holds more than the key price and the player was not told yet.
pub open spec fn exit_lines(skril: u64, key_price: u64, alerted: bool) -> Seq<Seq<char>> {
    if skril > key_price && !alerted {
        seq!["You can get outa here now"@]
    } else {
        Seq::<Seq<char>>::empty()
    }
}

/// The lines of a result, or its error as the only line.
pub open spec fn shown(r: Result<Seq<Seq<char>>, Seq<char>>) -> Seq<Seq<char>> {
    match r {
        Ok(lines) => lines,
        Err(e) => seq![e],
    }
}

/// How a command ends when the game goes on: the player may be told the way
/// out is open, and the command joins the history.
pub open spec fn settled(
    a0: Adventure,
    history: Seq<Seq<char>>,
    command: Seq<char>,
    lines: Seq<Seq<char>>,
    a1: Adventure,
    out: Seq<Seq<char>>,
) -> bool {
    &&& a1.phase == Phase::Exploring
    &&& a1.key_price == a0.key_price
    &&& a1.alerted_exit == (a0.alerted_exit || a1.character.skril > a0.key_price)
    &&& texts(a1.previous_commands@) == history.push(command)
    &&& out == lines + exit_lines(a1.character.skril, a0.key_price, a0.alerted_exit)
}

/// Whether the key price and the alert stay, and the history is `history`.
pub open spec fn kept(a0: Adventure, history: Seq<Seq<char>>, a1: Adventure) -> bool {
    &&& a1.key_price == a0.key_price
    &&& a1.alerted_exit == a0.alerted_exit
    &&& texts(a1.previous_commands@) == history
}

/// Whether the character and the land are as they were.
pub open spec fn untouched(a0: Adventure, a1: Adventure) -> bool {
    a1.character == a0.character && a1.land == a0.land
}

/// What carrying out `command` does, `history` being the history before it.
pub open spec fn acted(
    a0: Adventure,
    history: Seq<Seq<char>>,
    command: Seq<char>,
    dice: Dice,
    a1: Adventure,
    out: Seq<Seq<char>>,
) -> bool {
    let args = split_spaces(command);
    let c0 = a0.character;
    let l0 = a0.land;
    match command_for(args[0]) {
        None => untouched(a0, a1) && settled(a0, history, command, seq!["Tf?"@], a1, out),
        Some(Command::Movement) => {
            &&& walked(c0, l0, args, a1.character, a1.land)
            &&& settled(a0, history, command, shown(walk_result(c0, l0, args)), a1, out)
        },
        Some(Command::Combat) => {
            &&& fought_here(c0, l0, dice.fight_roll, a1.character, a1.land)
            &&& settled(a0, history, command, shown(fight_outcome(c0, l0, dice.fight_roll)), a1, out)
        },
        Some(Command::Riding) => match ride_outcome(c0, l0) {
            Ok(msg) => untouched(a0, a1) && kept(a0, history, a1) && a1.phase == Phase::Over && out == seq![
                msg,
                "GAME OVER - YOU WIN"@,
            ],
            Err(msg) => untouched(a0, a1) && settled(a0, history, command, seq![msg], a1, out),
        },
        Some(Command::Train) => if plot_at(l0, position(c0)).trainer is Some {
            &&& untouched(a0, a1)
            &&& kept(a0, history, a1)
            &&& a1.phase matches Phase::Training { cost, command: waiting }
            &&& waiting@ == command
            &&& is_training_cost(c0.stats, cost as nat)
            &&& out == seq![offer_text(cost as nat)]
        } else {
            untouched(a0, a1) && settled(
                a0,
                history,
                command,
                seq!["No gains to be found here bub"@],
                a1,
                out,
            )
        },
        Some(Command::System) => untouched(a0, a1) && kept(a0, history, a1) && a1.phase
            == Phase::Over && out.len() == 0,
        Some(Command::Debug) => untouched(a0, a1) && settled(
            a0,
            history,
            command,
            shown(debug_outcome(l0, args)),
            a1,
            out,
        ),
        Some(Command::Repeat) => false,
    }
}

/// The command a turn carries out while the game waits for a command: the
/// last one again when the input asks for a repeat, else the input
/// lower-cased.
pub open spec fn turn_command(a: Adventure, input: Seq<char>) -> Seq<char> {
    let lowered = lowercase(input);
    if is_repeat(lowered) {
        texts(a.previous_commands@).last()
    } else {
        lowered
    }
}

/// What one turn does with what the player typed (`input`) and the dice.
/// Waiting for a command, the input is lower-cased and read; an empty first
/// word repeats the last command, taking it off the history first. Waiting
/// for an answer to a training offer, the input says yes or no.
pub open spec fn advanced(a0: Adventure, input: Seq<char>, dice: Dice, a1: Adventure, out: Seq<
    Seq<char>,
>) -> bool {
    match a0.phase {
        Phase::Exploring => {
            let lowered = lowercase(input);
            let history = texts(a0.previous_commands@);
            if is_repeat(lowered) {
                acted(a0, history.drop_last(), history.last(), dice, a1, out)
            } else {
                acted(a0, history, lowered, dice, a1, out)
            }
        },
        Phase::Training { cost, command } => {
            let agreed = is_yes_word(lowercase(input));
            &&& trained(a0.character, a0.land, cost, agreed, dice.muscle_gain, a1.character, a1.land)
            &&& settled(
                a0,
                texts(a0.previous_commands@),
                command@,
                training_lines(a0.character, cost, agreed, dice.muscle_gain),
                a1,
                out,
            )
        },
        Phase::Over => false,
    }
}

/// The lines a game opens with.
pub open spec fn intro_lines(c: Character) -> Seq<Seq<char>> {
    seq![
        c.name@ + ", "@ + sex_label(c.sex) + ", you wake up in an unfamiliar land."@,
        "You have no food nor water. You are naked."@,
        "Your leg hurts."@,
        "Cha wanna do now?"@,
    ]
}

/// All the money in the game: the character's and the land's.
pub open spec fn total_money(a: Adventure) -> nat {
    a.character.skril as nat + land_worth(a.land)
}

impl Adventure {
    /// Whether the game is in a state it can reach: the character stands on
    /// the laid-out land, all money can be counted in a `u64`, no command in
    /// the history asks for a repeat, and a pending training offer stands
    /// where a trainer is.
    pub open spec fn well_formed(&self) -> bool {
        &&& in_play(self.character, self.land)
        &&& forall|k: int|
            0 <= k < self.previous_commands@.len() ==> !is_repeat(
                #[trigger] self.previous_commands@[k]@,
            )
        &&& self.phase matches Phase::Training { command, .. } ==> {
            &&& plot_at(self.land, position(self.character)).trainer is Some
            &&& command_for(split_spaces(command@)[0]) == Some(Command::Train)
        }
    }

    /// Whether a turn with `input`, in which a training session adds `gain`
    /// to the muscles, stays within what the game can count: a repeat needs
    /// a command to repeat; pricing a session where a trainer stands needs
    /// the sum of the stats; a paid session needs room for the gain.
    pub open spec fn within_counts(&self, input: Seq<char>, gain: nat) -> bool {
        match self.phase {
            Phase::Exploring => {
                &&& is_repeat(lowercase(input)) ==> self.previous_commands@.len() > 0
                &&& command_for(split_spaces(turn_command(*self, input))[0]) == Some(Command::Train)
                    && plot_at(self.land, position(self.character)).trainer is Some
                    ==> stats_total(self.character.stats) <= u64::MAX
            },
            Phase::Training { cost, .. } => is_yes_word(lowercase(input))
                && self.character.skril >= cost ==> self.character.stats.muscles + gain
                <= u64::MAX,
            Phase::Over => true,
        }
    }

    /// Whether a turn with `input` stays within what the game can count,
    /// whatever a training session adds to the muscles (at most eleven).
    pub open spec fn can_advance(&self, input: Seq<char>) -> bool {
        self.within_counts(input, 11)
    }

    /// Ends a command while the game goes on: tells the player, once, that
    /// the way out is open, and adds the command to the history.
    fn settle(&mut self, command: String, lines: Vec<String>) -> (out: Vec<String>)
        ensures
            settled(
                *old(self),
                texts(old(self).previous_commands@),
                command@,
                texts(lines@),
                *final(self),
                texts(out@),
            ),
            untouched(*old(self), *final(self)),
            final(self).previous_commands@ == old(self).previous_commands@.push(command),
    {
        let mut out = lines;
        let ghost shown_lines = texts(out@);
        let ghost before = *self;
        if self.character.skril > self.key_price && !self.alerted_exit {
            out.push("You can get outa here now".to_owned());
            self.alerted_exit = true;
        }
        assert(texts(out@) =~= shown_lines + exit_lines(
            self.character.skril,
            self.key_price,
            before.alerted_exit,
        ));
        let ghost history = texts(self.previous_commands@);
        self.previous_commands.push(command);
        assert(texts(self.previous_commands@) =~= history.push(command@));
        self.phase = Phase::Exploring;
        out
    }

    /// Carries out `command`, which does not ask for a repeat.
    fn act(&mut self, command: String, dice: Dice) -> (out: Vec<String>)
        requires
            old(self).well_formed(),
            old(self).phase is Exploring,
            !is_repeat(command@),
            command_for(split_spaces(command@)[0]) == Some(Command::Train) && plot_at(
                old(self).land,
                position(old(self).character),
            ).trainer is Some ==> stats_total(old(self).character.stats) <= u64::MAX,
        ensures
            acted(
                *old(self),
                texts(old(self).previous_commands@),
                command@,
                dice,
                *final(self),
                texts(out@),
            ),
            final(self).well_formed(),
            total_money(*final(self)) == total_money(*old(self)),
    {
        let ghost a0 = *self;
        proof {
            crate::text::lemma_split_nonempty(command@);
        }
        match this_guy_wants_to(command.as_str()) {
            Err(e) => {
                let mut lines: Vec<String> = Vec::new();
                lines.push(e.to_owned());
                assert(texts(lines@) =~= seq!["Tf?"@]);
                self.settle(command, lines)
            },
            Ok(desire) => {
                let args = desire.args;
                match desire.command {
                    Command::Movement => {
                        proof {
                            lemma_in_play_walks(a0.character, a0.land, texts(args@));
                        }
                        let r = command_move_character(&mut self.character, &mut self.land, args);
                        let lines = match r {
                            Ok(lines) => lines,
                            Err(e) => {
                                let mut lines: Vec<String> = Vec::new();
                                lines.push(e);
                                lines
                            },
                        };
                        assert(texts(lines@) =~= shown(walk_result(a0.character, a0.land, split_spaces(command@))));
                        self.settle(command, lines)
                    },
                    Command::Combat => {
                        proof {
                            lemma_plot_within_land(a0.land, position(a0.character));
                        }
                        let r = command_fight_enemy(&mut self.character, &mut self.land, dice.fight_roll);
                        let lines = match r {
                            Ok(lines) => lines,
                            Err(e) => {
                                let mut lines: Vec<String> = Vec::new();
                                lines.push(e);
                                lines
                            },
                        };
                        assert(texts(lines@) =~= shown(fight_outcome(a0.character, a0.land, dice.fight_roll)));
                        self.settle(command, lines)
                    },
                    Command::Riding => {
                        match command_rideshare(&self.character, &self.land) {
                            Ok(msg) => {
                                let mut out: Vec<String> = Vec::new();
                                out.push(msg);
                                out.push("GAME OVER - YOU WIN".to_owned());
                                self.phase = Phase::Over;
                                assert(texts(out@) =~= seq![out@[0]@, "GAME OVER - YOU WIN"@]);
                                out
                            },
                            Err(msg) => {
                                let mut lines: Vec<String> = Vec::new();
                                lines.push(msg);
                                assert(texts(lines@) =~= seq![lines@[0]@]);
                                self.settle(command, lines)
                            },
                        }
                    },
                    Command::Train => {
                        match command_train(&self.character, &self.land) {
                            Ok((cost, offer)) => {
                                let mut out: Vec<String> = Vec::new();
                                out.push(offer);
                                assert(texts(out@) =~= seq![offer_text(cost as nat)]);
                                self.phase = Phase::Training { cost, command };
                                out
                            },
                            Err(msg) => {
                                let mut lines: Vec<String> = Vec::new();
                                lines.push(msg);
                                assert(texts(lines@) =~= seq!["No gains to be found here bub"@]);
                                self.settle(command, lines)
                            },
                        }
                    },
                    Command::System => {
                        self.phase = Phase::Over;
                        Vec::new()
                    },
                    Command::Debug => {
                        let r = command_debug_info(&self.land, args);
                        let lines = match r {
                            Ok(lines) => lines,
                            Err(e) => {
                                let mut lines: Vec<String> = Vec::new();
                                lines.push(e);
                                lines
                            },
                        };
                        assert(texts(lines@) =~= shown(debug_outcome(a0.land, split_spaces(command@))));
                        self.settle(command, lines)
                    },
                    Command::Repeat => {
                        assert(false);
                        Vec::new()
                    },
                }
            },
        }
    }

    /// Plays one turn with what the player typed and the given dice; see
    /// [`advanced`]. The money in the game stays the same; it only changes
    /// hands.
    pub fn advance(&mut self, input: &str, dice: Dice) -> (out: Vec<String>)
        requires
            old(self).well_formed(),
            !(old(self).phase is Over),
            old(self).within_counts(input@, dice.muscle_gain as nat),
            dice_in_range(dice),
        ensures
            advanced(*old(self), input@, dice, *final(self), texts(out@)),
            final(self).well_formed(),
            total_money(*final(self)) == total_money(*old(self)),
            final(self).key_price == old(self).key_price,
            old(self).alerted_exit ==> final(self).alerted_exit,
    {
        let mut phase = Phase::Exploring;
        std::mem::swap(&mut phase, &mut self.phase);
        let ghost a0 = *self;
        match phase {
            Phase::Exploring => {
                let lowered = to_lowercase(input);
                proof {
                    crate::text::lemma_split_nonempty(lowered@);
                }
                let repeat = match this_guy_wants_to(lowered.as_str()) {
                    Ok(desire) => desire.command == Command::Repeat,
                    Err(_) => false,
                };
                if repeat {
                    let ghost history = texts(self.previous_commands@);
                    let command = self.previous_commands.pop().unwrap();
                    proof {
                        assert(texts(self.previous_commands@) =~= history.drop_last());
                        assert(!is_repeat(a0.previous_commands@[a0.previous_commands@.len() - 1]@));
                    }
                    self.act(command, dice)
                } else {
                    self.act(lowered, dice)
                }
            },
            Phase::Training { cost, command } => {
                proof {
                    lemma_plot_within_land(a0.land, position(a0.character));
                }
                let agreed = confirm(input);
                let lines = finish_training(
                    &mut self.character,
                    &mut self.land,
                    cost,
                    agreed,
                    dice.muscle_gain,
                );
                self.settle(command, lines)
            },
            Phase::Over => {
                assert(false);
                Vec::new()
            },
        }
    }

    /// Plays one turn with what the player typed, rolling the dice; see
    /// [`advanced`]: the turn is the one some dice in range would give.
    pub fn step(&mut self, input: &str) -> (out: Vec<String>)
        requires
            old(self).well_formed(),
            !(old(self).phase is Over),
            old(self).can_advance(input@),
        ensures
            exists|dice: Dice|
                dice_in_range(dice) && advanced(*old(self), input@, dice, *final(self), texts(out@)),
            final(self).well_formed(),
            total_money(*final(self)) == total_money(*old(self)),
    {
        let fight_roll = roll_between(0, 100);
        let muscle_gain = roll_between(3, 12);
        let dice = Dice { fight_roll, muscle_gain };
        self.advance(input, dice)
    }

    /// Plays one turn when the game can: not when it is over, and not when
    /// the turn would go beyond what the game can count (see
    /// [`Adventure::can_advance`]). Returns `None` then, with nothing changed.
    pub fn try_step(&mut self, input: &str) -> (out: Option<Vec<String>>)
        requires
            old(self).well_formed(),
        ensures
            match out {
                Some(lines) => {
                    &&& !(old(self).phase is Over)
                    &&& old(self).can_advance(input@)
                    &&& exists|dice: Dice|
                        dice_in_range(dice) && advanced(
                            *old(self),
                            input@,
                            dice,
                            *final(self),
                            texts(lines@),
                        )
                },
                None => {
                    &&& (old(self).phase is Over || !old(self).can_advance(input@))
                    &&& *final(self) == *old(self)
                },
            },
            final(self).well_formed(),
    {
        if self.is_over() {
            return None;
        }
        if !self.fits(input) {
            return None;
        }
        Some(self.step(input))
    }

    /// Whether a turn with `input` stays within what the game can count.
    fn fits(&self, input: &str) -> (r: bool)
        requires
            self.well_formed(),
        ensures
            r == self.can_advance(input@),
    {
        match self.phase {
            Phase::Over => true,
            Phase::Training { cost, .. } => {
                !(confirm(input) && self.character.skril >= cost) || self.character.stats.muscles
                    <= u64::MAX - 11
            },
            Phase::Exploring => {
                let lowered = to_lowercase(input);
                proof {
                    crate::text::lemma_split_nonempty(lowered@);
                }
                let repeat = match this_guy_wants_to(lowered.as_str()) {
                    Ok(desire) => desire.command == Command::Repeat,
                    Err(_) => false,
                };
                let n = self.previous_commands.len();
                if repeat && n == 0 {
                    return false;
                }
                let train = if repeat {
                    let last = &self.previous_commands[n - 1];
                    proof {
                        crate::text::lemma_split_nonempty(last@);
                        assert(texts(self.previous_commands@).last() == last@);
                    }
                    match this_guy_wants_to(last.as_str()) {
                        Ok(desire) => desire.command == Command::Train,
                        Err(_) => false,
                    }
                } else {
                    match this_guy_wants_to(lowered.as_str()) {
                        Ok(desire) => desire.command == Command::Train,
                        Err(_) => false,
                    }
                };
                if !train {
                    return true;
                }
                let wb = self.character.whereabouts.unwrap();
                let here = self.land.plot(wb);
                here.trainer.is_none() || stats_fit(self.character.stats)
            },
        }
    }

    /// Whether the game is over.
    pub fn is_over(&self) -> (r: bool)
        ensures
            r == self.phase is Over,
    {
        match self.phase {
            Phase::Over => true,
            _ => false,
        }
    }


    /// Starts a game for `character`: the plots are laid out at random (see
    /// [`Land::init_plots`]) and the character stands at (0, 0).
    pub fn begin(character: Character, key_price: u64) -> (r: (Adventure, Vec<String>))
        requires
            character.skril + MAX_START_WORTH <= u64::MAX,
        ensures
            r.0.well_formed(),
            r.0.phase == Phase::Exploring,
            r.0.key_price == key_price,
            !r.0.alerted_exit,
            r.0.previous_commands@.len() == 0,
            r.0.character.name == character.name,
            r.0.character.sex == character.sex,
            r.0.character.skril == character.skril,
            r.0.character.stats == character.stats,
            r.0.character.whereabouts == Some((0usize, 0usize)),
            exists|rolls: Seq<(u64, u64)>, uber: crate::geography::Coord|
                rolls.len() == LAND_PLOTS && rolls_in_range(rolls) && on_land(uber)
                    && seeded_land(rolls, uber, r.0.land),
            texts(r.1@) == intro_lines(character),
    {
        let mut lines: Vec<String> = Vec::new();
        let mut woke = character.name.clone();
        woke.append(", ");
        woke.append(character.sex.label());
        woke.append(", you wake up in an unfamiliar land.");
        lines.push(woke);
        lines.push("You have no food nor water. You are naked.".to_owned());
        lines.push("Your leg hurts.".to_owned());
        let mut land = Land::new();
        land.init_plots();
        proof {
            let (rolls, uber) = choose|rolls: Seq<(u64, u64)>, uber: crate::geography::Coord|
                rolls.len() == LAND_PLOTS && rolls_in_range(rolls) && on_land(uber)
                    && seeded_land(rolls, uber, land);
            crate::geography::lemma_seeded_worth(rolls, uber, land);
        }
        let mut character = character;
        character.whereabouts = Some((0, 0));
        lines.push("Cha wanna do now?".to_owned());
        let adventure = Adventure {
            character,
            land,
            key_price,
            alerted_exit: false,
            previous_commands: Vec::new(),
            phase: Phase::Exploring,
        };
        (adventure, lines)
    }
}

} // verus!

verus! {

/// In a game under way, every walk has what it needs.
proof fn lemma_in_play_walks(c: Character, land: Land, args: Seq<Seq<char>>)
    requires
        in_play(c, land),
    ensures
        walk_needs(c, land, args),
{
    if args.len() == 2 {
        if let Some(d) = cardinal_named(args[1]) {
            if let Some(t) = destination(d, position(c)) {
                lemma_plot_within_land(land, t);
            }
        }
    }
}

/// Repeating the last command leaves the history as it was, whenever the
/// game goes on to wait for the next command: the command is taken off the
/// history and put back once it is done.
pub proof fn lemma_repeat_keeps_history(
    a0: Adventure,
    input: Seq<char>,
    dice: Dice,
    a1: Adventure,
    out: Seq<Seq<char>>,
)
    requires
        a0.phase is Exploring,
        a0.previous_commands@.len() > 0,
        is_repeat(lowercase(input)),
        advanced(a0, input, dice, a1, out),
        a1.phase is Exploring,
    ensures
        texts(a1.previous_commands@) == texts(a0.previous_commands@),
{
    let history = texts(a0.previous_commands@);
    assert(history.drop_last().push(history.last()) =~= history);
}

} // verus!
