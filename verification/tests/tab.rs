use rustcade::tab::{Tab, NUM_TABS};

#[test]
fn all_tabs_in_order() {
    assert_eq!(
        Tab::all(),
        &[
            Tab::Home,
            Tab::Frogger,
            Tab::Breakout,
            Tab::DinoRun,
            Tab::SpaceInvaders,
            Tab::JezzBall,
            Tab::Asteroids,
            Tab::Booster,
            Tab::Beam
        ]
    );
    assert_eq!(Tab::all().len(), NUM_TABS);
}

#[test]
fn index_is_the_place_in_all() {
    for (i, tab) in Tab::all().iter().enumerate() {
        assert_eq!(tab.index(), i);
    }
    assert_eq!(Tab::Home.index(), 0);
    assert_eq!(Tab::Beam.index(), 8);
}

#[test]
fn titles() {
    assert_eq!(Tab::Home.title(), " Home ");
    assert_eq!(Tab::Frogger.title(), " Frogger ");
    assert_eq!(Tab::Breakout.title(), " Breakout ");
    assert_eq!(Tab::DinoRun.title(), " Dino Run ");
    assert_eq!(Tab::SpaceInvaders.title(), " Invaders ");
    assert_eq!(Tab::JezzBall.title(), " JezzBall ");
    assert_eq!(Tab::Asteroids.title(), " Asteroids ");
    assert_eq!(Tab::Booster.title(), " Booster ");
    assert_eq!(Tab::Beam.title(), " Beam ");
}

#[test]
fn next_and_prev_wrap() {
    assert_eq!(Tab::Home.next(), Tab::Frogger);
    assert_eq!(Tab::Beam.next(), Tab::Home);
    assert_eq!(Tab::Home.prev(), Tab::Beam);
    assert_eq!(Tab::Booster.prev(), Tab::Asteroids);
    for tab in Tab::all() {
        assert_eq!(tab.next().prev(), *tab);
        assert_eq!(tab.prev().next(), *tab);
    }
}

#[test]
fn tab_of_a_game() {
    assert_eq!(Tab::of_game(0), Tab::Frogger);
    assert_eq!(Tab::of_game(6), Tab::Booster);
    assert_eq!(Tab::of_game(7), Tab::Beam);
    assert_eq!(Tab::of_game(8), Tab::Home);
    assert_eq!(Tab::of_game(usize::MAX), Tab::Home);
}
