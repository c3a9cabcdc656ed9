use adventure::adventure::{Adventure, Dice, Phase};
use adventure::commands::get_default_character;
use adventure::creatures::{Bureaucrat, Character, PersonalTrainer, Sex, Stats};
use adventure::geography::{Jurisdiction, Land, Plot, LAND_PLOTS};

fn game_on(land: Land, key_price: u64) -> Adventure {
    let mut character = get_default_character();
    character.whereabouts = Some((0, 0));
    Adventure {
        character,
        land,
        key_price,
        alerted_exit: false,
        previous_commands: Vec::new(),
        phase: Phase::Exploring,
    }
}

fn quiet_land(uber: (usize, usize)) -> Land {
    Land::seeded(&vec![(999, 999); LAND_PLOTS], uber)
}

fn total_money(a: &Adventure) -> u64 {
    a.character.skril
        + a.land.plots.as_ref().unwrap().iter().map(|p| {
            p.dosh + p.enemy.map_or(0, |b| b.dough) + p.trainer.map_or(0, |t| t.dough)
        }).sum::<u64>()
}

const WIN: Dice = Dice { fight_roll: 0, muscle_gain: 5 };
const LOSE: Dice = Dice { fight_roll: 99, muscle_gain: 5 };

fn lines(v: &[&str]) -> Vec<String> {
    v.iter().map(|s| s.to_string()).collect()
}

#[test]
fn begin_opens_the_game() {
    let c = Character {
        name: "Peggy".to_string(),
        sex: Sex::Girl,
        whereabouts: None,
        skril: 3,
        stats: Stats { muscles: 1, brains: 2, mojo: 3 },
    };
    let (a, out) = Adventure::begin(c, 50);
    assert_eq!(
        out,
        lines(&[
            "Peggy, Girl, you wake up in an unfamiliar land.",
            "You have no food nor water. You are naked.",
            "Your leg hurts.",
            "Cha wanna do now?",
        ])
    );
    assert_eq!(a.character.whereabouts, Some((0, 0)));
    assert_eq!(a.character.skril, 3);
    assert_eq!(a.key_price, 50);
    assert!(!a.alerted_exit);
    assert!(a.previous_commands.is_empty());
    assert!(matches!(a.phase, Phase::Exploring));
    assert_eq!(a.land.plots.as_ref().unwrap().len(), 100);
    assert!(total_money(&a) <= 3 + 1100);
}

#[test]
fn walking_and_repeating() {
    let mut land = quiet_land((9, 9));
    land.set_plot((0, 1), Plot { dosh: 2, enemy: None, driver: None, trainer: None });
    land.set_plot((0, 2), Plot { dosh: 1, enemy: None, driver: None, trainer: None });
    let mut a = game_on(land, 100);
    let out = a.advance("Walk NORTH", WIN);
    assert_eq!(out, lines(&["You walk North.", "You found 2 zeni boi"]));
    assert_eq!(a.previous_commands, lines(&["walk north"]));
    let out = a.advance("", WIN);
    assert_eq!(out, lines(&["You walk North.", "You found 1 zeni boi"]));
    assert_eq!(a.previous_commands, lines(&["walk north"]));
    assert_eq!(a.character.whereabouts, Some((0, 2)));
    assert_eq!(a.character.skril, 3);
    let out = a.advance(" anything", WIN);
    assert_eq!(out, lines(&["You walk North."]));
    assert_eq!(a.previous_commands, lines(&["walk north"]));
}

#[test]
fn unknown_commands_are_kept_and_repeated() {
    let mut a = game_on(quiet_land((9, 9)), 100);
    assert_eq!(a.advance("dance", WIN), lines(&["Tf?"]));
    assert_eq!(a.advance("go", WIN), lines(&["I just need a direction hoss."]));
    assert_eq!(a.advance("go south", WIN), lines(&["You hit a wall."]));
    assert_eq!(a.advance("go up", WIN), lines(&["go up? what the fuck"]));
    assert_eq!(a.advance("", WIN), lines(&["go up? what the fuck"]));
    assert_eq!(a.previous_commands, lines(&["dance", "go", "go south", "go up"]));
    assert_eq!(a.advance("fight", WIN), lines(&["Ain't nobody around pal..."]));
    assert_eq!(a.advance("train", WIN), lines(&["No gains to be found here bub"]));
    assert_eq!(a.advance("ride", WIN), lines(&["gotta find a taxi first bub"]));
    assert_eq!(a.advance("debug", WIN), lines(&["gotta tell me what to print out hoss"]));
    assert_eq!(a.advance("debug taxi", WIN), lines(&["[(9, 9)]"]));
    assert_eq!(a.advance("debug enemy", WIN), lines(&["[]"]));
    assert!(matches!(a.phase, Phase::Exploring));
}

#[test]
fn repeat_with_nothing_to_repeat_is_refused() {
    let mut a = game_on(quiet_land((9, 9)), 100);
    assert!(a.try_step("").is_none());
    assert!(a.try_step("  ").is_none());
    assert!(a.previous_commands.is_empty());
    assert_eq!(a.try_step("dance"), Some(lines(&["Tf?"])));
    assert_eq!(a.try_step(""), Some(lines(&["Tf?"])));
}

#[test]
fn fights_and_the_way_out() {
    let mut land = quiet_land((9, 9));
    land.set_plot(
        (0, 0),
        Plot { dosh: 0, enemy: Some(Bureaucrat::new(9, Jurisdiction::Islands)), driver: None, trainer: None },
    );
    let mut a = game_on(land, 5);
    let before = total_money(&a);
    assert_eq!(
        a.advance("punch", LOSE),
        lines(&["I'm gon raise yo taxes boy", "u fokin lost m8"])
    );
    assert_eq!(
        a.advance("punch", WIN),
        lines(&[
            "I'm gon raise yo taxes boy",
            "This guy just gave you his life savings (9)",
            "say thank you sir",
            "You can get outa here now",
        ])
    );
    assert!(a.alerted_exit);
    assert_eq!(
        a.advance("lick", WIN),
        lines(&["I'm gon raise yo taxes boy", "this dude broke af lol"])
    );
    assert_eq!(total_money(&a), before);
    assert_eq!(a.character.skril, 9);
}

#[test]
fn training_waits_for_an_answer() {
    let mut land = quiet_land((9, 9));
    land.set_plot(
        (0, 0),
        Plot { dosh: 0, enemy: None, driver: None, trainer: Some(PersonalTrainer::default()) },
    );
    let mut a = game_on(land, 100);
    a.character.skril = 4;
    a.character.stats = Stats { muscles: 4, brains: 0, mojo: 0 };
    let before = total_money(&a);
    assert_eq!(a.advance("Train", WIN), lines(&["You can train but it'll cost you 2, capiche?"]));
    assert!(matches!(a.phase, Phase::Training { cost: 2, .. }));
    assert!(a.previous_commands.is_empty());
    assert_eq!(
        a.advance("OK", WIN),
        lines(&[
            "Personal trainer got paid, but money can't buy gains",
            "💪💪💪💪💪 Muscles 4 -> 9 💪💪💪💪💪",
        ])
    );
    assert_eq!(a.previous_commands, lines(&["train"]));
    assert_eq!(a.character.skril, 2);
    assert_eq!(total_money(&a), before);
    assert_eq!(a.advance("", WIN), lines(&["You can train but it'll cost you 3, capiche?"]));
    assert!(a.previous_commands.is_empty());
    assert_eq!(a.advance("yes", WIN), lines(&["You can't afford this. Get a job."]));
    assert_eq!(a.advance("lift", WIN), lines(&["You can train but it'll cost you 3, capiche?"]));
    assert_eq!(a.advance("nah", WIN), lines(&[]));
    assert_eq!(a.previous_commands, lines(&["train", "lift"]));
}

#[test]
fn the_taxi_ends_the_game() {
    let mut a = game_on(quiet_land((0, 1)), 100);
    assert_eq!(a.advance("go north", WIN), lines(&["You walk North.", "oh look an uber"]));
    assert_eq!(
        a.advance("take", WIN),
        lines(&["Uber driver got slightly richer", "GAME OVER - YOU WIN"])
    );
    assert!(a.is_over());
    assert!(a.try_step("walk south").is_none());
}

#[test]
fn quitting_ends_the_game() {
    let mut a = game_on(quiet_land((9, 9)), 100);
    assert_eq!(a.step("quit"), lines(&[]));
    assert!(a.is_over());
    let mut b = game_on(quiet_land((9, 9)), 100);
    assert_eq!(b.try_step("bounce now"), Some(vec![]));
    assert!(b.is_over());
}

#[test]
fn random_turns_keep_the_money() {
    let mut a = game_on(quiet_land((9, 9)), 1000);
    a.land.init_plots();
    let before = total_money(&a);
    for input in ["punch", "go north", "fight", "go east", "", "", "lick", "go north", "punch"] {
        let _ = a.step(input);
        assert_eq!(total_money(&a), before);
    }
}

#[test]
fn huge_stats_only_stop_training() {
    let mut land = quiet_land((9, 9));
    land.set_plot(
        (0, 1),
        Plot { dosh: 0, enemy: None, driver: None, trainer: Some(PersonalTrainer::default()) },
    );
    let mut a = game_on(land, 100);
    a.character.stats = Stats { muscles: u64::MAX, brains: 1, mojo: 0 };
    assert_eq!(a.try_step("train"), Some(lines(&["No gains to be found here bub"])));
    assert_eq!(
        a.try_step("go north"),
        Some(lines(&["You walk North.", "is that a personal trainer? he looks small and poor"]))
    );
    assert_eq!(a.try_step("debug"), Some(lines(&["gotta tell me what to print out hoss"])));
    assert_eq!(a.try_step("train"), None);
    assert_eq!(a.previous_commands, lines(&["train", "go north", "debug"]));
    a.character.stats = Stats { muscles: u64::MAX - 5, brains: 0, mojo: 0 };
    a.character.skril = 10_000_000_000;
    a.key_price = u64::MAX;
    assert_eq!(a.try_step("Train").map(|v| v.len()), Some(1));
    assert!(matches!(a.phase, Phase::Training { .. }));
    assert_eq!(a.try_step("yes"), None);
    assert_eq!(a.try_step("no"), Some(lines(&[])));
    assert_eq!(a.advance("lift", WIN).len(), 1);
    assert_eq!(
        a.advance("yes", Dice { fight_roll: 0, muscle_gain: 5 })[1],
        format!("💪💪💪💪💪 Muscles {} -> {} 💪💪💪💪💪", u64::MAX - 5, u64::MAX)
    );
}
