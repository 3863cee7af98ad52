use rustcade::input::{Key, Modifiers};
use rustcade::scores::HighScores;
use rustcade::shell::{capital, is_name_char, moved_selection, GameResult, KeyOutcome, Shell};
use rustcade::tab::Tab;

const RUNNING: GameResult = GameResult { game_over: false, score: 0 };
const FORWARD: KeyOutcome = KeyOutcome { forward: true, save: false };
const TAKEN: KeyOutcome = KeyOutcome { forward: false, save: false };

fn plain(shell: &mut Shell, key: Key) -> KeyOutcome {
    shell.on_key(key, Modifiers::none())
}

fn typed(shell: &mut Shell, text: &str) {
    for c in text.chars() {
        assert_eq!(plain(shell, Key::Char(c)), TAKEN);
    }
}

fn names(shell: &Shell, game: usize) -> Vec<(String, u32)> {
    shell.high_scores.top_scores(game).into_iter().map(|e| (e.name, e.score)).collect()
}

#[test]
fn starts_on_the_home_screen() {
    let shell = Shell::new(HighScores::new());
    assert_eq!(shell.current_tab, Tab::Home);
    assert_eq!(shell.selected_game, 0);
    assert!(!shell.should_quit);
    assert!(!shell.entering_name);
    assert!(!shell.show_high_scores);
    assert!(shell.ticks_games());
}

#[test]
fn tab_keys_go_round() {
    let mut shell = Shell::new(HighScores::new());
    assert_eq!(plain(&mut shell, Key::Tab), TAKEN);
    assert_eq!(shell.current_tab, Tab::Frogger);
    assert_eq!(plain(&mut shell, Key::BackTab), TAKEN);
    assert_eq!(plain(&mut shell, Key::BackTab), TAKEN);
    assert_eq!(shell.current_tab, Tab::Beam);
    let shift = Modifiers { control: false, shift: true, other: false };
    assert_eq!(shell.on_key(Key::Tab, shift), TAKEN);
    assert_eq!(shell.current_tab, Tab::Booster);
    assert_eq!(plain(&mut shell, Key::Tab), TAKEN);
    assert_eq!(plain(&mut shell, Key::Tab), TAKEN);
    assert_eq!(shell.current_tab, Tab::Home);
}

#[test]
fn quitting() {
    let mut shell = Shell::new(HighScores::new());
    let control = Modifiers { control: true, shift: false, other: false };
    shell.current_tab = Tab::Beam;
    // In a game, q belongs to the game.
    assert_eq!(plain(&mut shell, Key::Char('q')), FORWARD);
    assert!(!shell.should_quit);
    assert_eq!(shell.on_key(Key::Char('c'), control), TAKEN);
    assert!(shell.should_quit);
    let mut shell = Shell::new(HighScores::new());
    assert_eq!(plain(&mut shell, Key::Char('Q')), TAKEN);
    assert!(shell.should_quit);
}

#[test]
fn escape_goes_home_from_a_game() {
    let mut shell = Shell::new(HighScores::new());
    shell.current_tab = Tab::Booster;
    assert_eq!(plain(&mut shell, Key::Esc), TAKEN);
    assert_eq!(shell.current_tab, Tab::Home);
    assert_eq!(plain(&mut shell, Key::Esc), FORWARD);
    assert_eq!(shell.current_tab, Tab::Home);
}

#[test]
fn digits_open_the_games() {
    let tabs = [
        Tab::Frogger,
        Tab::Breakout,
        Tab::DinoRun,
        Tab::SpaceInvaders,
        Tab::JezzBall,
        Tab::Asteroids,
        Tab::Booster,
        Tab::Beam,
    ];
    for (i, tab) in tabs.iter().enumerate() {
        let mut shell = Shell::new(HighScores::new());
        let key = Key::Char(char::from_digit(i as u32 + 1, 10).unwrap());
        assert_eq!(plain(&mut shell, key), TAKEN);
        assert_eq!(shell.current_tab, *tab);
        // In a game, digits belong to the game.
        assert_eq!(plain(&mut shell, Key::Char('1')), FORWARD);
        assert_eq!(shell.current_tab, *tab);
    }
    let mut shell = Shell::new(HighScores::new());
    assert_eq!(plain(&mut shell, Key::Char('0')), FORWARD);
    assert_eq!(plain(&mut shell, Key::Char('9')), FORWARD);
    assert_eq!(shell.current_tab, Tab::Home);
    // With a modifier held, the home screen takes no key.
    let other = Modifiers { control: false, shift: false, other: true };
    assert_eq!(shell.on_key(Key::Char('1'), other), FORWARD);
    assert_eq!(shell.current_tab, Tab::Home);
}

#[test]
fn arrows_move_the_selection_in_two_rows_of_four() {
    assert_eq!(moved_selection(0, Key::Right), 1);
    assert_eq!(moved_selection(7, Key::Right), 0);
    assert_eq!(moved_selection(0, Key::Left), 7);
    assert_eq!(moved_selection(4, Key::Left), 3);
    assert_eq!(moved_selection(1, Key::Down), 5);
    assert_eq!(moved_selection(5, Key::Down), 1);
    assert_eq!(moved_selection(1, Key::Up), 5);
    assert_eq!(moved_selection(6, Key::Up), 2);
    assert_eq!(moved_selection(6, Key::Enter), 6);
    let mut shell = Shell::new(HighScores::new());
    assert_eq!(plain(&mut shell, Key::Right), TAKEN);
    assert_eq!(plain(&mut shell, Key::Right), TAKEN);
    assert_eq!(plain(&mut shell, Key::Down), TAKEN);
    assert_eq!(shell.selected_game, 6);
    assert_eq!(plain(&mut shell, Key::Enter), TAKEN);
    assert_eq!(shell.current_tab, Tab::Booster);
    assert_eq!(plain(&mut shell, Key::Right), FORWARD);
    assert_eq!(shell.selected_game, 6);
}

#[test]
fn h_shows_and_hides_the_table() {
    let mut shell = Shell::new(HighScores::new());
    assert_eq!(plain(&mut shell, Key::Char('h')), TAKEN);
    assert!(shell.show_high_scores);
    assert_eq!(plain(&mut shell, Key::Char('H')), TAKEN);
    assert!(!shell.show_high_scores);
}

#[test]
fn a_round_that_ends_with_a_high_score_asks_for_a_name() {
    let mut shell = Shell::new(HighScores::new());
    let mut results = [RUNNING; 8];
    shell.check_submit_scores(results);
    assert!(!shell.entering_name);
    results[6] = GameResult { game_over: true, score: 3500 };
    shell.check_submit_scores(results);
    assert!(shell.entering_name);
    assert!(!shell.ticks_games());
    assert_eq!(shell.name_game_idx, 6);
    assert_eq!(shell.name_score, 3500);
    assert!(shell.high_scores.was_submitted(6));
    typed(&mut shell, "ann b!");
    assert_eq!(shell.name_buffer, vec!['A', 'N', 'N', 'B', '!']);
    assert_eq!(plain(&mut shell, Key::Backspace), TAKEN);
    assert_eq!(plain(&mut shell, Key::Tab), TAKEN);
    assert_eq!(shell.current_tab, Tab::Home);
    assert_eq!(plain(&mut shell, Key::Enter), KeyOutcome { forward: false, save: true });
    assert!(!shell.entering_name);
    assert!(shell.name_buffer.is_empty());
    assert_eq!(names(&shell, 6)[0], ("ANNB".to_string(), 3500));
    // The same round does not hand in twice.
    shell.check_submit_scores(results);
    assert!(!shell.entering_name);
    // After a new round the game can hand in again.
    results[6] = RUNNING;
    shell.check_submit_scores(results);
    assert!(!shell.high_scores.was_submitted(6));
    results[6] = GameResult { game_over: true, score: 10 };
    shell.check_submit_scores(results);
    assert!(shell.entering_name);
    assert_eq!(plain(&mut shell, Key::Esc), KeyOutcome { forward: false, save: true });
    assert_eq!(names(&shell, 6), vec![("ANNB".to_string(), 3500), ("???".to_string(), 10), (String::new(), 0)]);
}

#[test]
fn a_name_has_at_most_nine_characters() {
    let mut shell = Shell::new(HighScores::new());
    let mut results = [RUNNING; 8];
    results[0] = GameResult { game_over: true, score: 1 };
    shell.check_submit_scores(results);
    typed(&mut shell, "abcdefghijkl");
    assert_eq!(shell.name_buffer.len(), 9);
    assert_eq!(plain(&mut shell, Key::Enter).save, true);
    assert_eq!(names(&shell, 0)[0], ("ABCDEFGHI".to_string(), 1));
}

#[test]
fn an_empty_name_is_entered_as_question_marks() {
    let mut shell = Shell::new(HighScores::new());
    let mut results = [RUNNING; 8];
    results[2] = GameResult { game_over: true, score: 8 };
    shell.check_submit_scores(results);
    typed(&mut shell, "x");
    plain(&mut shell, Key::Backspace);
    plain(&mut shell, Key::Backspace);
    assert_eq!(plain(&mut shell, Key::Enter), KeyOutcome { forward: false, save: true });
    assert_eq!(names(&shell, 2)[0], ("???".to_string(), 8));
}

#[test]
fn one_name_at_a_time() {
    let mut shell = Shell::new(HighScores::new());
    let mut results = [RUNNING; 8];
    results[1] = GameResult { game_over: true, score: 5 };
    results[4] = GameResult { game_over: true, score: 6 };
    results[5] = GameResult { game_over: true, score: 0 };
    shell.high_scores.mark_submitted(0);
    shell.check_submit_scores(results);
    assert_eq!((shell.name_game_idx, shell.name_score), (1, 5));
    // Game 0 is running again; game 4 waits for the next look.
    assert!(!shell.high_scores.was_submitted(0));
    assert!(shell.high_scores.was_submitted(1));
    assert!(!shell.high_scores.was_submitted(4));
    plain(&mut shell, Key::Enter);
    shell.check_submit_scores(results);
    assert_eq!((shell.name_game_idx, shell.name_score), (4, 6));
    assert!(shell.high_scores.was_submitted(4));
    // A round that ends without a score hands nothing in.
    assert!(!shell.high_scores.was_submitted(5));
}

#[test]
fn a_score_that_does_not_qualify_asks_for_no_name() {
    let mut hs = HighScores::new();
    hs.submit(7, "A", 30);
    hs.submit(7, "B", 20);
    hs.submit(7, "C", 10);
    let mut shell = Shell::new(hs);
    let mut results = [RUNNING; 8];
    results[7] = GameResult { game_over: true, score: 10 };
    shell.check_submit_scores(results);
    assert!(!shell.entering_name);
    assert!(shell.high_scores.was_submitted(7));
}

#[test]
fn name_characters() {
    assert!(is_name_char('!'));
    assert!(is_name_char('~'));
    assert!(is_name_char('a'));
    assert!(!is_name_char(' '));
    assert!(!is_name_char('\u{7f}'));
    assert!(!is_name_char('ä'));
    assert_eq!(capital('a'), 'A');
    assert_eq!(capital('z'), 'Z');
    assert_eq!(capital('A'), 'A');
    assert_eq!(capital('1'), '1');
    assert_eq!(capital('{'), '{');
    assert_eq!(capital('`'), '`');
    for u in 0..128u8 {
        let c = u as char;
        assert_eq!(is_name_char(c), c.is_ascii_graphic());
        assert_eq!(capital(c), c.to_ascii_uppercase());
    }
}
