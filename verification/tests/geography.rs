use adventure::geography::{in_bounds, LAND_WIDTH_X, LAND_WIDTH_Y};

#[test]
fn test_coord_bounds() {
    let c1 = (0, 0);
    let c2 = (0, LAND_WIDTH_Y as isize - 1);
    let c3 = (LAND_WIDTH_X as isize - 1, 0);
    let c4 = (LAND_WIDTH_X as isize - 1, LAND_WIDTH_Y as isize - 1);
    let c5 = (0, LAND_WIDTH_Y as isize);
    let c6 = (LAND_WIDTH_X as isize, 0);
    let c7 = (LAND_WIDTH_X as isize, LAND_WIDTH_Y as isize);
    let c8 = (-1, 0);
    let c9 = (0, -1);

    assert_eq!(in_bounds(c1), true);
    assert_eq!(in_bounds(c2), true);
    assert_eq!(in_bounds(c3), true);
    assert_eq!(in_bounds(c4), true);

    assert_eq!(in_bounds(c5), false);
    assert_eq!(in_bounds(c6), false);
    assert_eq!(in_bounds(c7), false);
    assert_eq!(in_bounds(c8), false);
    assert_eq!(in_bounds(c9), false);
}

use adventure::creatures::entity;
use adventure::geography::{Cardinal, Jurisdiction, Land, Plot, LAND_PLOTS};

fn quiet_rolls() -> Vec<(u64, u64)> {
    vec![(999, 999); LAND_PLOTS]
}

#[test]
fn cardinal_names_are_read_and_shown() {
    assert_eq!(Cardinal::from_name("north"), Ok(Cardinal::North));
    assert_eq!(Cardinal::from_name("east"), Ok(Cardinal::East));
    assert_eq!(Cardinal::from_name("south"), Ok(Cardinal::South));
    assert_eq!(Cardinal::from_name("west"), Ok(Cardinal::West));
    assert_eq!(Cardinal::from_name("North"), Err(()));
    assert_eq!(Cardinal::from_name(""), Err(()));
    assert_eq!("west".parse::<Cardinal>(), Ok(Cardinal::West));
    assert_eq!(Cardinal::North.label(), "North");
    assert_eq!(Cardinal::West.label(), "West");
}

#[test]
fn new_land_is_empty() {
    let land = Land::new();
    assert!(land.plots.is_none());
    assert!(land.entity_locations.is_none());
}

#[test]
fn seeded_land_follows_the_rolls() {
    let mut rolls = quiet_rolls();
    rolls[0] = (0, 0);
    rolls[1] = (99, 199);
    rolls[12] = (100, 200);
    rolls[13] = (299, 19);
    rolls[14] = (300, 20);
    let land = Land::seeded(&rolls, (3, 4));
    let plots = land.plots.as_ref().unwrap();
    assert_eq!(plots.len(), 100);
    assert_eq!(plots[0].dosh, 0);
    assert_eq!(plots[0].enemy.unwrap().dough, 0);
    assert_eq!(plots[0].enemy.unwrap().jurisdiction, Jurisdiction::Islands);
    assert_eq!(plots[1].dosh, 0);
    assert_eq!(plots[1].enemy.unwrap().dough, 9);
    assert_eq!(plots[12].dosh, 1);
    assert!(plots[12].enemy.is_none());
    assert_eq!(plots[13].dosh, 2);
    assert_eq!(plots[13].enemy.unwrap().dough, 0);
    assert_eq!(plots[14].dosh, 0);
    assert_eq!(plots[14].enemy.unwrap().dough, 1);
    assert_eq!(plots[34].driver.unwrap().fee, 0);
    assert_eq!(plots.iter().filter(|p| p.driver.is_some()).count(), 1);
    assert!(plots.iter().all(|p| p.trainer.is_none()));
    let locations = land.entity_locations.as_ref().unwrap();
    assert_eq!(locations.taxis, vec![(3, 4)]);
    assert_eq!(locations.enemies, vec![(0, 0), (0, 1), (1, 3), (1, 4)]);
    assert_eq!(locations.get(entity::TAXI), Some(&vec![(3, 4)]));
    assert_eq!(locations.get(entity::ENEMY).unwrap().len(), 4);
    assert_eq!(locations.get(entity::PERSONAL_TRAINER), None);
    assert_eq!(locations.get("Taxi"), None);
}

#[test]
fn random_land_is_consistent() {
    for _ in 0..20 {
        let mut land = Land::new();
        land.init_plots();
        let plots = land.plots.as_ref().unwrap();
        assert_eq!(plots.len(), 100);
        let locations = land.entity_locations.as_ref().unwrap();
        assert_eq!(locations.taxis.len(), 1);
        let (tx, ty) = locations.taxis[0];
        assert!(plots[tx * 10 + ty].driver.is_some());
        for x in 0..10 {
            for y in 0..10 {
                let p: &Plot = &plots[x * 10 + y];
                assert!(p.dosh <= 2);
                if let Some(b) = p.enemy {
                    assert!(b.dough <= 9);
                }
                assert_eq!(locations.enemies.contains(&(x, y)), p.enemy.is_some());
            }
        }
    }
}

#[test]
fn set_plot_replaces_one_plot() {
    let mut land = Land::seeded(&quiet_rolls(), (0, 0));
    let p = Plot { dosh: 7, enemy: None, driver: None, trainer: None };
    land.set_plot((2, 5), p);
    assert_eq!(land.plot((2, 5)), p);
    assert_eq!(land.plots.as_ref().unwrap()[25], p);
    assert_eq!(land.plot((2, 6)).dosh, 0);
}
