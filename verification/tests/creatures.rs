use adventure::creatures::{
    Bureaucrat, Character, Intimidating, Monetary, PersonalTrainer, Sex, Stats, UberDriver,
    FIGHT_WIN_PERCENT,
};
use adventure::geography::Jurisdiction;

fn bobby(skril: u64) -> Character {
    Character {
        name: "Bobby Hill".to_string(),
        sex: Sex::Boy,
        whereabouts: Some((1, 1)),
        skril,
        stats: Stats { muscles: 0, brains: 0, mojo: 0 },
    }
}

#[test]
fn bureaucrat_new_holds_its_fields() {
    let b = Bureaucrat::new(12, Jurisdiction::Tundra);
    assert_eq!(b.dough, 12);
    assert_eq!(b.jurisdiction, Jurisdiction::Tundra);
    assert_eq!(b.intimidate(), "I'm gon raise yo taxes boy");
}

#[test]
fn winning_a_fight_takes_the_life_savings() {
    let mut b = Bureaucrat::new(7, Jurisdiction::Islands);
    let mut c = bobby(5);
    let lines = b.fight_with_roll(&mut c, 0);
    assert_eq!(
        lines,
        vec![
            "I'm gon raise yo taxes boy".to_string(),
            "This guy just gave you his life savings (7)".to_string(),
            "say thank you sir".to_string(),
        ]
    );
    assert_eq!(c.skril, 12);
    assert_eq!(b.dough, 0);
    // a second win finds nothing left
    let lines = b.fight_with_roll(&mut c, FIGHT_WIN_PERCENT - 1);
    assert_eq!(
        lines,
        vec!["I'm gon raise yo taxes boy".to_string(), "this dude broke af lol".to_string()]
    );
    assert_eq!(c.skril, 12);
}

#[test]
fn losing_a_fight_changes_nothing() {
    let mut b = Bureaucrat::new(7, Jurisdiction::Islands);
    let mut c = bobby(5);
    let lines = b.fight_with_roll(&mut c, FIGHT_WIN_PERCENT);
    assert_eq!(
        lines,
        vec!["I'm gon raise yo taxes boy".to_string(), "u fokin lost m8".to_string()]
    );
    assert_eq!(c.skril, 5);
    assert_eq!(b.dough, 7);
    let _ = b.fight_with_roll(&mut c, 99);
    assert_eq!(c.skril, 5);
}

#[test]
fn random_fight_keeps_the_money() {
    for _ in 0..50 {
        let mut b = Bureaucrat::new(4, Jurisdiction::Desert);
        let mut c = bobby(3);
        let lines = b.fight(&mut c);
        assert_eq!(c.skril + b.dough, 7);
        assert_eq!(lines[0], "I'm gon raise yo taxes boy");
        assert!(lines.len() == 2 || lines.len() == 3);
    }
}

#[test]
fn payments_add_up() {
    let mut b = Bureaucrat::new(1, Jurisdiction::Mountains);
    assert_eq!(b.take_payment(4), "Bureaucrat got more money... 😞");
    assert_eq!(Monetary::dough(&b), 5);
    let mut t = PersonalTrainer::default();
    assert_eq!(t.dough(), 0);
    assert_eq!(t.take_payment(3), "Personal trainer got paid, but money can't buy gains");
    assert_eq!(t.dough(), 3);
}

#[test]
fn rides_go_when_the_fee_is_covered() {
    let free = UberDriver::default();
    assert_eq!(free.fee, 0);
    assert_eq!(free.initiate_ride(0), Ok("Uber driver got slightly richer".to_string()));
    let dear = UberDriver { fee: 10 };
    assert_eq!(dear.initiate_ride(9), Err("TOO POOR".to_string()));
    assert_eq!(dear.initiate_ride(10), Ok("Uber driver got slightly richer".to_string()));
}

#[test]
fn sexes_are_shown_by_name() {
    assert_eq!(Sex::Boy.label(), "Boy");
    assert_eq!(Sex::Girl.label(), "Girl");
}
