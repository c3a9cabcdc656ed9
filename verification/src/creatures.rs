//! The characters of the game: the player, bureaucrats who fight, and
//! the people who take money.
use vstd::prelude::*;
use crate::chance::roll_between;
use crate::geography::{Coord, Jurisdiction};
use crate::text::decimal;

pub mod entity;

verus! {

/// Out of a hundred fights with a bureaucrat, how many the player wins.
pub const FIGHT_WIN_PERCENT: u64 = 80;

#[derive(Debug, Clone, Copy, PartialEq, Eq, Structural)]
pub enum Sex {
    Boy,
    Girl,
}

/// How a sex is shown (its `Debug` form).
pub open spec fn sex_label(s: Sex) -> Seq<char> {
    match s {
        Sex::Boy => "Boy"@,
        Sex::Girl => "Girl"@,
    }
}

impl Sex {
    /// How the sex is shown.
    pub fn label(&self) -> (r: &'static str)
        ensures
            r@ == sex_label(*self),
    {
        match self {
            Sex::Boy => "Boy",
            Sex::Girl => "Girl",
        }
    }
}

#[derive(Debug, Clone, Copy, PartialEq, Eq, Structural)]
pub struct Stats {
    pub muscles: u64,
    pub brains: u64,
    pub mojo: u64,
}

#[derive(Debug)]
pub struct Character {
    pub name: String,
    pub sex: Sex,
    pub whereabouts: Option<Coord>,
    pub skril: u64,
    pub stats: Stats,
}

/// Whether `after` is `before` with nothing but the money changed.
pub open spec fn same_but_skril(before: Character, after: Character) -> bool {
    &&& after.name == before.name
    &&& after.sex == before.sex
    &&& after.whereabouts == before.whereabouts
    &&& after.stats == before.stats
}

/// Someone the player can fight.
pub trait Intimidating {
    /// The money the player takes away on winning a fight.
    spec fn loot(&self) -> nat;

    /// What it says to scare the player.
    fn intimidate(&self) -> (taunt: String);

    /// Fights the player; returns the lines to show, in order.
    fn fight(&mut self, character: &mut Character) -> (lines: Vec<String>)
        requires
            old(character).skril + old(self).loot() <= u64::MAX,
    ;
}

/// Someone who holds money and can be paid.
pub trait Monetary {
    /// The money held.
    spec fn balance(&self) -> nat;

    /// How much money is held.
    fn dough(&self) -> (d: u64)
        ensures
            d == self.balance(),
    ;

    /// Receives `amount`; returns the line to show.
    fn take_payment(&mut self, amount: u64) -> (note: String)
        requires
            old(self).balance() + amount <= u64::MAX,
        ensures
            final(self).balance() == old(self).balance() + amount,
    ;
}

#[derive(Clone, Copy, Debug, PartialEq, Eq, Structural)]
pub struct Bureaucrat {
    pub dough: u64,
    pub jurisdiction: Jurisdiction,
}

/// The line a bureaucrat says before a fight.
pub open spec fn taunt_text() -> Seq<char> {
    "I'm gon raise yo taxes boy"@
}

/// The lines a fight with `b` shows, after the taunt: `won` is whether the
/// player won.
pub open spec fn fight_lines(b: Bureaucrat, won: bool) -> Seq<Seq<char>> {
    if !won {
        seq!["u fokin lost m8"@]
    } else if b.dough == 0 {
        seq!["this dude broke af lol"@]
    } else {
        seq![
            "This guy just gave you his life savings ("@ + decimal(b.dough as nat) + ")"@,
            "say thank you sir"@,
        ]
    }
}

/// What a fight does: the player, on winning, takes all of the bureaucrat's
/// money; on losing nothing changes. The lines are the taunt and then
/// [`fight_lines`].
pub open spec fn fight_result(
    b0: Bureaucrat,
    c0: Character,
    won: bool,
    b1: Bureaucrat,
    c1: Character,
    lines: Seq<Seq<char>>,
) -> bool {
    &&& same_but_skril(c0, c1)
    &&& b1.jurisdiction == b0.jurisdiction
    &&& lines == seq![taunt_text()] + fight_lines(b0, won)
    &&& if won {
        &&& c1.skril == c0.skril + b0.dough
        &&& b1.dough == 0
    } else {
        &&& c1.skril == c0.skril
        &&& b1.dough == b0.dough
    }
}

/// The characters of each line.
pub open spec fn line_texts(lines: Seq<String>) -> Seq<Seq<char>> {
    lines.map_values(|t: String| t@)
}

impl Bureaucrat {
    /// A bureaucrat holding `dough` in `jurisdiction`.
    pub fn new(dough: u64, jurisdiction: Jurisdiction) -> (b: Bureaucrat)
        ensures
            b.dough == dough,
            b.jurisdiction == jurisdiction,
    {
        Bureaucrat { dough, jurisdiction }
    }

    /// Fights the player with the given roll of a hundred-sided die: the
    /// player wins when the roll is below [`FIGHT_WIN_PERCENT`].
    pub fn fight_with_roll(&mut self, character: &mut Character, roll: u64) -> (lines: Vec<
        String,
    >)
        requires
            roll < FIGHT_WIN_PERCENT ==> old(character).skril + old(self).dough <= u64::MAX,
        ensures
            fight_result(
                *old(self),
                *old(character),
                roll < FIGHT_WIN_PERCENT,
                *final(self),
                *final(character),
                line_texts(lines@),
            ),
    {
        let mut lines: Vec<String> = Vec::new();
        lines.push(self.intimidate());
        if roll < FIGHT_WIN_PERCENT {
            character.skril = character.skril + self.dough;
            if self.dough == 0 {
                lines.push("this dude broke af lol".to_owned());
            } else {
                let mut gift = "This guy just gave you his life savings (".to_owned();
                gift.append(crate::text::decimal_text(self.dough).as_str());
                gift.append(")");
                lines.push(gift);
                self.dough = 0;
                lines.push("say thank you sir".to_owned());
            }
        } else {
            lines.push("u fokin lost m8".to_owned());
        }
        assert(line_texts(lines@) =~= seq![taunt_text()] + fight_lines(
            *old(self),
            roll < FIGHT_WIN_PERCENT,
        ));
        lines
    }
}

impl Intimidating for Bureaucrat {
    open spec fn loot(&self) -> nat {
        self.dough as nat
    }

    fn intimidate(&self) -> (taunt: String)
        ensures
            taunt@ == taunt_text(),
    {
        "I'm gon raise yo taxes boy".to_owned()
    }

    fn fight(&mut self, character: &mut Character) -> (lines: Vec<String>)
        ensures
            fight_result(
                *old(self),
                *old(character),
                true,
                *final(self),
                *final(character),
                line_texts(lines@),
            ) || fight_result(
                *old(self),
                *old(character),
                false,
                *final(self),
                *final(character),
                line_texts(lines@),
            ),
    {
        let roll = roll_between(0, 100);
        self.fight_with_roll(character, roll)
    }
}

impl Monetary for Bureaucrat {
    open spec fn balance(&self) -> nat {
        self.dough as nat
    }

    fn dough(&self) -> (d: u64) {
        self.dough
    }

    fn take_payment(&mut self, amount: u64) -> (note: String)
        ensures
            final(self).jurisdiction == old(self).jurisdiction,
            note@ == "Bureaucrat got more money... 😞"@,
    {
        self.dough = self.dough + amount;
        "Bureaucrat got more money... 😞".to_owned()
    }
}

#[derive(Clone, Copy, Debug, PartialEq, Eq, Structural)]
pub struct PersonalTrainer {
    pub dough: u64,
}

impl Default for PersonalTrainer {
    fn default() -> (t: PersonalTrainer)
        ensures
            t.dough == 0,
    {
        PersonalTrainer { dough: 0 }
    }
}

impl Monetary for PersonalTrainer {
    open spec fn balance(&self) -> nat {
        self.dough as nat
    }

    fn dough(&self) -> (d: u64) {
        self.dough
    }

    fn take_payment(&mut self, amount: u64) -> (note: String)
        ensures
            note@ == "Personal trainer got paid, but money can't buy gains"@,
    {
        self.dough = self.dough + amount;
        "Personal trainer got paid, but money can't buy gains".to_owned()
    }
}

/// A taxi driver; the ride costs `fee`.
#[derive(Clone, Copy, Debug, PartialEq, Eq, Structural)]
pub struct UberDriver {
    pub fee: u64,
}

impl Default for UberDriver {
    fn default() -> (d: UberDriver)
        ensures
            d.fee == 0,
    {
        UberDriver { fee: 0 }
    }
}

impl UberDriver {
    /// Starts a ride for someone holding `amount`: it goes when the amount
    /// covers the fee.
    pub fn initiate_ride(&self, amount: u64) -> (r: Result<String, String>)
        ensures
            match r {
                Ok(msg) => amount >= self.fee && msg@ == "Uber driver got slightly richer"@,
                Err(msg) => amount < self.fee && msg@ == "TOO POOR"@,
            },
    {
        if amount >= self.fee {
            Ok("Uber driver got slightly richer".to_owned())
        } else {
            Err("TOO POOR".to_owned())
        }
    }
}

} // verus!
