use adventure::intro::{Creation, Output};
use adventure::creatures::{Sex, Stats};

fn texts(out: &[Output]) -> Vec<Option<String>> {
    out.iter()
        .map(|o| match o {
            Output::Line(t) => Some(t.clone()),
            Output::Dots => None,
        })
        .collect()
}

fn line(s: &str) -> Option<String> {
    Some(s.to_string())
}

#[test]
fn making_a_character_after_a_second_try() {
    let (c, out) = Creation::start();
    assert_eq!(texts(&out), vec![line("HEY!"), line("What did you say your name was again?")]);
    let (c, out) = c.hear("Dale");
    assert_eq!(texts(&out), vec![line("Dale...? Really?")]);
    let (c, out) = c.hear("no");
    assert_eq!(texts(&out), vec![None, line("So what is it then.")]);
    let (c, out) = c.hear("Rusty");
    assert_eq!(texts(&out), vec![line("You sure?")]);
    let (c, out) = c.hear("Sure");
    assert_eq!(
        texts(&out),
        vec![line("Got it, Rusty."), line("And you're a boy... right?")]
    );
    let (c, out) = c.hear("nope");
    assert_eq!(texts(&out), vec![line("...right."), line("If there's nothing else...")]);
    assert!(!c.is_done());
    let (c, out) = c.hear("whatever");
    assert!(out.is_empty());
    assert!(c.is_done());
    let character = c.character().unwrap();
    assert_eq!(character.name, "Rusty");
    assert_eq!(character.sex, Sex::Girl);
    assert_eq!(character.whereabouts, None);
    assert_eq!(character.skril, 0);
    assert_eq!(character.stats, Stats { muscles: 0, brains: 0, mojo: 0 });
}

#[test]
fn a_boy_on_the_first_try() {
    let (c, _) = Creation::start();
    let (c, _) = c.hear("Bobby");
    let (c, _) = c.hear("YES");
    let (c, _) = c.hear("uh huh");
    assert!(c.character().is_none());
    let (c, _) = Creation::start();
    let (c, _) = c.hear("Bobby");
    let (c, _) = c.hear("YES");
    let (c, _) = c.hear("uh huh");
    let (c, _) = c.hear("");
    let character = c.character().unwrap();
    assert_eq!(character.name, "Bobby");
    assert_eq!(character.sex, Sex::Boy);
}
