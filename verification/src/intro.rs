//! Making the player's character: a short talk in which the player gives a
//! name, confirms it, and says whether the character is a boy.
use vstd::prelude::*;
use crate::commands::{confirm, is_yes_word};
use crate::creatures::{Character, Sex, Stats};
use crate::text::lowercase;

verus! {

/// What the talk shows: a line, or three dots shown slowly and then the end
/// of the line.
pub enum Output {
    Line(String),
    Dots,
}

/// The text of a line, or `None` for the dots.
pub open spec fn output_view(o: Output) -> Option<Seq<char>> {
    match o {
        Output::Line(t) => Some(t@),
        Output::Dots => None,
    }
}

/// What a list of outputs shows.
pub open spec fn outputs_view(s: Seq<Output>) -> Seq<Option<Seq<char>>> {
    s.map_values(|o: Output| output_view(o))
}

/// Where the talk stands.
pub enum Creation {
    /// Waiting for a name; `repeating` once a name was turned down.
    AskingName { repeating: bool },
    /// Waiting for the player to confirm `name`.
    ConfirmingName { name: String, repeating: bool },
    /// Waiting for the player to say whether the character is a boy.
    AskingSex { name: String },
    /// Waiting for a last answer, which is not used.
    Finishing { name: String, sex: Sex },
    /// The talk is over and made `character`.
    Done { character: Character },
}

/// The character the talk makes: it has nothing yet and stands nowhere.
pub open spec fn made(name: Seq<char>, sex: Sex, c: Character) -> bool {
    &&& c.name@ == name
    &&& c.sex == sex
    &&& c.whereabouts is None
    &&& c.skril == 0
    &&& c.stats == (Stats { muscles: 0, brains: 0, mojo: 0 })
}

/// What one answer (`input`, as typed) does to the talk.
pub open spec fn heard(s0: Creation, input: Seq<char>, s1: Creation, out: Seq<Option<Seq<char>>>) -> bool {
    match s0 {
        Creation::AskingName { repeating } => {
            &&& s1 matches Creation::ConfirmingName { name, repeating: r } && name@ == input && r
                == repeating
            &&& out == seq![
                Some(
                    if repeating {
                        "You sure?"@
                    } else {
                        input + "...? Really?"@
                    },
                ),
            ]
        },
        Creation::ConfirmingName { name, repeating } => if is_yes_word(lowercase(input)) {
            &&& s1 matches Creation::AskingSex { name: n } && n@ == name@
            &&& out == seq![Some("Got it, "@ + name@ + "."@), Some("And you're a boy... right?"@)]
        } else {
            &&& s1 == Creation::AskingName { repeating: true }
            &&& out == seq![None, Some("So what is it then."@)]
        },
        Creation::AskingSex { name } => {
            let sex = if is_yes_word(lowercase(input)) {
                Sex::Boy
            } else {
                Sex::Girl
            };
            &&& s1 matches Creation::Finishing { name: n, sex: s } && n@ == name@ && s == sex
            &&& out == seq![Some("...right."@), Some("If there's nothing else..."@)]
        },
        Creation::Finishing { name, sex } => {
            &&& s1 matches Creation::Done { character } && made(name@, sex, character)
            &&& out.len() == 0
        },
        Creation::Done { .. } => false,
    }
}

impl Creation {
    /// Starts the talk.
    pub fn start() -> (r: (Creation, Vec<Output>))
        ensures
            r.0 == (Creation::AskingName { repeating: false }),
            outputs_view(r.1@) == seq![
                Some("HEY!"@),
                Some("What did you say your name was again?"@),
            ],
    {
        let mut out: Vec<Output> = Vec::new();
        out.push(Output::Line("HEY!".to_owned()));
        out.push(Output::Line("What did you say your name was again?".to_owned()));
        assert(outputs_view(out@) =~= seq![
            Some("HEY!"@),
            Some("What did you say your name was again?"@),
        ]);
        (Creation::AskingName { repeating: false }, out)
    }

    /// Whether the talk is over.
    pub fn is_done(&self) -> (r: bool)
        ensures
            r == self is Done,
    {
        match self {
            Creation::Done { .. } => true,
            _ => false,
        }
    }

    /// Takes the player's next answer; see [`heard`].
    pub fn hear(self, input: &str) -> (r: (Creation, Vec<Output>))
        requires
            !(self is Done),
        ensures
            heard(self, input@, r.0, outputs_view(r.1@)),
    {
        let mut out: Vec<Output> = Vec::new();
        match self {
            Creation::AskingName { repeating } => {
                let name = input.to_owned();
                if !repeating {
                    let mut really = name.clone();
                    really.append("...? Really?");
                    out.push(Output::Line(really));
                } else {
                    out.push(Output::Line("You sure?".to_owned()));
                }
                proof {
                    assert(outputs_view(out@) =~= seq![
                        Some(
                            if repeating {
                                "You sure?"@
                            } else {
                                input@ + "...? Really?"@
                            },
                        ),
                    ]);
                }
                (Creation::ConfirmingName { name, repeating }, out)
            },
            Creation::ConfirmingName { name, repeating } => {
                if confirm(input) {
                    let mut got = "Got it, ".to_owned();
                    got.append(name.as_str());
                    got.append(".");
                    out.push(Output::Line(got));
                    out.push(Output::Line("And you're a boy... right?".to_owned()));
                    assert(outputs_view(out@) =~= seq![
                        Some("Got it, "@ + name@ + "."@),
                        Some("And you're a boy... right?"@),
                    ]);
                    (Creation::AskingSex { name }, out)
                } else {
                    out.push(Output::Dots);
                    out.push(Output::Line("So what is it then.".to_owned()));
                    assert(outputs_view(out@) =~= seq![None, Some("So what is it then."@)]);
                    (Creation::AskingName { repeating: true }, out)
                }
            },
            Creation::AskingSex { name } => {
                let sex = if confirm(input) {
                    Sex::Boy
                } else {
                    Sex::Girl
                };
                out.push(Output::Line("...right.".to_owned()));
                out.push(Output::Line("If there's nothing else...".to_owned()));
                assert(outputs_view(out@) =~= seq![
                    Some("...right."@),
                    Some("If there's nothing else..."@),
                ]);
                (Creation::Finishing { name, sex }, out)
            },
            Creation::Finishing { name, sex } => {
                let character = Character {
                    name,
                    sex,
                    whereabouts: None,
                    skril: 0,
                    stats: Stats { muscles: 0, brains: 0, mojo: 0 },
                };
                (Creation::Done { character }, out)
            },
            Creation::Done { character } => {
                assert(false);
                (Creation::Done { character }, out)
            },
        }
    }

    /// The character the talk made, once it is over.
    pub fn character(self) -> (r: Option<Character>)
        ensures
            match self {
                Creation::Done { character } => r == Some(character),
                _ => r is None,
            },
    {
        match self {
            Creation::Done { character } => Some(character),
            _ => None,
        }
    }
}

} // verus!
