use rustcade::scores::{game_name, HighScores, ScoreEntry, NAME_LEN, NUM_GAMES, SCORES_PER_GAME};

fn row(hs: &HighScores, game: usize) -> Vec<(String, u32)> {
    hs.top_scores(game).into_iter().map(|e| (e.name, e.score)).collect()
}

fn line(name: &str, score: u32) -> (String, u32) {
    (name.to_string(), score)
}

#[test]
fn new_table_is_empty() {
    let hs = HighScores::new();
    for g in 0..NUM_GAMES {
        assert_eq!(row(&hs, g), vec![line("", 0); SCORES_PER_GAME]);
        assert!(!hs.was_submitted(g));
    }
}

#[test]
fn empty_entry() {
    let e = ScoreEntry::empty();
    assert_eq!(e.name, "");
    assert_eq!(e.score, 0);
}

#[test]
fn zero_never_qualifies() {
    let hs = HighScores::new();
    assert!(!hs.qualifies(0, 0));
    assert!(hs.qualifies(0, 1));
}

#[test]
fn missing_game_never_qualifies() {
    let mut hs = HighScores::new();
    assert!(!hs.qualifies(8, 100));
    assert!(!hs.qualifies(usize::MAX, 100));
    assert!(!hs.submit(8, "ANN", 100));
    for g in 0..NUM_GAMES {
        assert_eq!(row(&hs, g), vec![line("", 0); SCORES_PER_GAME]);
    }
}

#[test]
fn scores_are_kept_best_first() {
    let mut hs = HighScores::new();
    assert!(hs.submit(6, "ANN", 50));
    assert!(hs.submit(6, "BOB", 70));
    assert!(hs.submit(6, "CAT", 60));
    assert_eq!(row(&hs, 6), vec![line("BOB", 70), line("CAT", 60), line("ANN", 50)]);
    assert!(hs.submit(6, "DAN", 65));
    assert_eq!(row(&hs, 6), vec![line("BOB", 70), line("DAN", 65), line("CAT", 60)]);
    assert!(!hs.submit(6, "EVE", 60));
    assert!(!hs.submit(6, "EVE", 10));
    assert_eq!(row(&hs, 6), vec![line("BOB", 70), line("DAN", 65), line("CAT", 60)]);
    assert_eq!(row(&hs, 5), vec![line("", 0); 3]);
}

#[test]
fn an_equal_score_goes_below_the_older_one() {
    let mut hs = HighScores::new();
    assert!(hs.submit(0, "OLD", 10));
    assert!(hs.submit(0, "NEW", 10));
    assert_eq!(row(&hs, 0), vec![line("OLD", 10), line("NEW", 10), line("", 0)]);
}

#[test]
fn qualifies_says_what_submit_does() {
    let mut hs = HighScores::new();
    for (i, score) in [30u32, 10, 20, 20, 5, 40, 40, 1, 100].iter().enumerate() {
        let expected = hs.qualifies(2, *score);
        assert_eq!(hs.submit(2, "P", *score), expected, "step {}", i);
    }
    assert_eq!(row(&hs, 2), vec![line("P", 100), line("P", 40), line("P", 40)]);
}

#[test]
fn names_are_cut_to_nine_characters() {
    let mut hs = HighScores::new();
    assert_eq!(NAME_LEN, 9);
    assert!(hs.submit(1, "ABCDEFGHIJKL", 5));
    assert!(hs.submit(1, "ABCDEFGHI", 4));
    assert!(hs.submit(1, "äöüßéèêçñXYZ", 3));
    assert_eq!(row(&hs, 1), vec![line("ABCDEFGHI", 5), line("ABCDEFGHI", 4), line("äöüßéèêçñ", 3)]);
}

#[test]
fn top_scores_of_a_missing_game_are_empty() {
    let mut hs = HighScores::new();
    hs.submit(0, "ANN", 5);
    assert_eq!(row(&hs, 8), vec![line("", 0); 3]);
}

#[test]
fn submitted_flags() {
    let mut hs = HighScores::new();
    hs.mark_submitted(3);
    assert!(hs.was_submitted(3));
    assert!(!hs.was_submitted(2));
    hs.mark_submitted(8);
    hs.clear_submitted(8);
    assert!(!hs.was_submitted(8));
    hs.clear_submitted(3);
    assert!(!hs.was_submitted(3));
    hs.mark_submitted(7);
    hs.submit(7, "ANN", 5);
    assert!(hs.was_submitted(7));
}

#[test]
fn names_of_the_games() {
    let names = ["Frogger", "Breakout", "Dino Run", "Pinball", "JezzBall", "Asteroids", "Booster", "Beam"];
    for (i, n) in names.iter().enumerate() {
        assert_eq!(game_name(i), *n);
    }
    assert_eq!(game_name(8), "");
}
