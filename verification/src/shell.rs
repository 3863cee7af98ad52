//! The shell of the arcade: which tab is shown, which game is selected on
//! the home screen, and the entry of a name when a round has ended with a
//! score that belongs in the table.

use vstd::prelude::*;
use crate::input::{Key, Modifiers};
use crate::scores::{HighScores, NAME_LEN, NUM_GAMES};
use crate::tab::Tab;

verus! {

/// How a round of one game stands.
#[derive(Clone, Copy, PartialEq, Eq, Structural, Debug)]
pub struct GameResult {
    pub game_over: bool,
    pub score: u32,
}

/// What the host has to do after a key.
#[derive(Clone, Copy, PartialEq, Eq, Structural, Debug)]
pub struct KeyOutcome {
    /// Whether the key goes on to the game of the current tab.
    pub forward: bool,
    /// Whether the table has changed and is to be written to its file.
    pub save: bool,
}

/// The shell of the arcade.
pub struct Shell {
    pub should_quit: bool,
    pub current_tab: Tab,
    /// The game selected on the home screen, from 0.
    pub selected_game: usize,
    pub high_scores: HighScores,
    pub show_high_scores: bool,
    /// Whether the player is typing the name for a new high score.
    pub entering_name: bool,
    pub name_buffer: Vec<char>,
    /// The game whose score the name is for.
    pub name_game_idx: usize,
    /// The score that the name is for.
    pub name_score: u32,
}

/// Whether `c` can be typed into a name: a visible ASCII character.
pub open spec fn spec_is_name_char(c: char) -> bool {
    '!' <= c && c <= '~'
}

/// Whether `c` can be typed into a name.
#[verifier::when_used_as_spec(spec_is_name_char)]
pub fn is_name_char(c: char) -> (r: bool)
    ensures
        r == spec_is_name_char(c),
{
    '!' <= c && c <= '~'
}

/// `c` as a capital letter if it is a small ASCII letter, else `c` itself.
pub open spec fn spec_capital(c: char) -> char {
    if 'a' <= c && c <= 'z' {
        ((c as u32 - 32) as u8) as char
    } else {
        c
    }
}

/// `c` as a capital letter if it is a small ASCII letter, else `c` itself.
#[verifier::when_used_as_spec(spec_capital)]
pub fn capital(c: char) -> (r: char)
    ensures
        r == spec_capital(c),
{
    if 'a' <= c && c <= 'z' {
        ((c as u32 - 32) as u8) as char
    } else {
        c
    }
}

/// The name under which a score is entered when the player types none.
pub open spec fn default_name() -> Seq<char> {
    seq!['?', '?', '?']
}

/// The name that is entered for what the player has typed.
pub open spec fn name_for(typed: Seq<char>) -> Seq<char> {
    if typed.len() == 0 {
        default_name()
    } else {
        typed
    }
}

/// Makes a string of characters with `String::from_iter`.
///
/// Not proved: that the string holds the characters given, in their order.
#[verifier::external_body]
fn text_of(chars: &Vec<char>) -> (text: String)
    ensures
        text@ == chars@,
{
    String::from_iter(chars.iter())
}

/// The game selected after an arrow key on the home screen, where the games
/// stand in two rows of four: left and right go round all games, up and
/// down change the row.
pub open spec fn spec_moved_selection(selected: usize, key: Key) -> usize {
    match key {
        Key::Right => ((selected + 1) % 8) as usize,
        Key::Left => ((selected + 7) % 8) as usize,
        Key::Up | Key::Down => if selected < 4 {
            (selected + 4) as usize
        } else {
            (selected - 4) as usize
        },
        _ => selected,
    }
}

/// The game selected after an arrow key on the home screen.
#[verifier::when_used_as_spec(spec_moved_selection)]
pub fn moved_selection(selected: usize, key: Key) -> (r: usize)
    requires
        selected < NUM_GAMES,
    ensures
        r == spec_moved_selection(selected, key),
        r < NUM_GAMES,
{
    match key {
        Key::Right => (selected + 1) % 8,
        Key::Left => (selected + 7) % 8,
        Key::Up | Key::Down => if selected < 4 {
            selected + 4
        } else {
            selected - 4
        },
        _ => selected,
    }
}

impl Shell {
    /// What every method keeps true of the shell.
    pub open spec fn wf(&self) -> bool {
        &&& self.high_scores.wf()
        &&& self.selected_game < NUM_GAMES
    }

    /// The shell as the arcade starts: on the home screen, with the table
    /// given.
    pub fn new(high_scores: HighScores) -> (shell: Shell)
        requires
            high_scores.wf(),
        ensures
            shell.wf(),
            shell.high_scores == high_scores,
            !shell.should_quit,
            shell.current_tab == Tab::Home,
            shell.selected_game == 0,
            !shell.show_high_scores,
            !shell.entering_name,
            shell.name_buffer@.len() == 0,
            shell.name_game_idx == 0,
            shell.name_score == 0,
    {
        Shell {
            should_quit: false,
            current_tab: Tab::Home,
            selected_game: 0,
            high_scores,
            show_high_scores: false,
            entering_name: false,
            name_buffer: Vec::new(),
            name_game_idx: 0,
            name_score: 0,
        }
    }

    /// Whether a tick of the host moves the games: not while a name is being
    /// typed.
    pub fn ticks_games(&self) -> (r: bool)
        ensures
            r == !self.entering_name,
    {
        !self.entering_name
    }

    /// Whether the round of game `game` asks for a name: it is over with a
    /// score that has not been handed in and that belongs in the table.
    pub open spec fn wants_name(&self, results: [GameResult; 8], game: int) -> bool {
        &&& results@[game].game_over
        &&& results@[game].score > 0
        &&& !self.high_scores.submitted@[game]
        &&& self.high_scores.spec_qualifies(game as usize, results@[game].score)
    }

    /// The first game from `from` on whose round asks for a name; the number
    /// of games if none does.
    pub open spec fn first_wanting(&self, results: [GameResult; 8], from: int) -> int
        decreases NUM_GAMES - from,
    {
        if from < 0 || from >= NUM_GAMES {
            NUM_GAMES as int
        } else if self.wants_name(results, from) {
            from
        } else {
            self.first_wanting(results, from + 1)
        }
    }

    /// Whether game `game` counts as having handed in its score once its
    /// round has been looked at: a round that is over has, if it has a score
    /// or had handed in before; a round that is running has not.
    pub open spec fn noted(&self, results: [GameResult; 8], game: int) -> bool {
        if results@[game].game_over {
            self.high_scores.submitted@[game] || results@[game].score > 0
        } else {
            false
        }
    }

    /// Whether `after` is the shell after the rounds of all games were
    /// looked at.
    ///
    /// The games are looked at in order. A round that is over with a score
    /// hands the score in, once. If the score belongs in the table, the
    /// player is asked for a name, and the games after it wait for the next
    /// look. A round that is running can hand in again when it is over.
    pub open spec fn looks_to(&self, results: [GameResult; 8], after: &Shell) -> bool {
        let stop = self.first_wanting(results, 0);
        &&& after.high_scores.scores == self.high_scores.scores
        &&& forall|g: int|
            0 <= g < NUM_GAMES ==> #[trigger] after.high_scores.submitted@[g] == if g <= stop {
                self.noted(results, g)
            } else {
                self.high_scores.submitted@[g]
            }
        &&& if stop < NUM_GAMES {
            &&& after.name_buffer@.len() == 0
            &&& *after == (Shell {
                high_scores: after.high_scores,
                entering_name: true,
                name_buffer: after.name_buffer,
                name_game_idx: stop as usize,
                name_score: results@[stop].score,
                ..*self
            })
        } else {
            *after == (Shell { high_scores: after.high_scores, ..*self })
        }
    }

    /// Looks at the rounds of all games, after a tick has moved them.
    #[verifier::rlimit(50)]
    pub fn check_submit_scores(&mut self, results: [GameResult; 8])
        requires
            old(self).wf(),
        ensures
            final(self).wf(),
            old(self).looks_to(results, final(self)),
    {
        let mut idx: usize = 0;
        while idx < NUM_GAMES
            invariant
                idx <= NUM_GAMES,
                old(self).wf(),
                self.wf(),
                self.high_scores.scores == old(self).high_scores.scores,
                old(self).first_wanting(results, 0) == old(self).first_wanting(results, idx as int),
                forall|g: int|
                    0 <= g < NUM_GAMES ==> #[trigger] self.high_scores.submitted@[g] == if g < idx {
                        old(self).noted(results, g)
                    } else {
                        old(self).high_scores.submitted@[g]
                    },
                *self == (Shell { high_scores: self.high_scores, ..*old(self) }),
            decreases NUM_GAMES - idx,
        {
            let result = results[idx];
            if result.game_over && result.score > 0 && !self.high_scores.was_submitted(idx) {
                if self.high_scores.qualifies(idx, result.score) {
                    assert(old(self).wants_name(results, idx as int));
                    self.entering_name = true;
                    self.name_buffer.clear();
                    self.name_game_idx = idx;
                    self.name_score = result.score;
                    self.high_scores.mark_submitted(idx);
                    return;
                } else {
                    self.high_scores.mark_submitted(idx);
                }
            }
            if !result.game_over && self.high_scores.was_submitted(idx) {
                self.high_scores.clear_submitted(idx);
            }
            idx += 1;
        }
    }

    /// Whether `after` is the shell after the score waiting for a name was
    /// entered under `name`, and `saved` says whether it got into the table.
    pub open spec fn enters_to(&self, name: Seq<char>, after: &Shell, saved: bool) -> bool {
        let game = self.name_game_idx;
        &&& saved == self.high_scores.spec_qualifies(game, self.name_score)
        &&& after.high_scores.submitted == self.high_scores.submitted
        &&& forall|g: int|
            0 <= g < NUM_GAMES && !(saved && g == game) ==> after.high_scores.scores@[g]
                == self.high_scores.scores@[g]
        &&& saved ==> after.high_scores.row(game as int) == crate::scores::entered(
            self.high_scores.row(game as int),
            name,
            self.name_score,
        )
        &&& after.name_buffer@.len() == 0
        &&& *after == (Shell {
            high_scores: after.high_scores,
            entering_name: false,
            name_buffer: after.name_buffer,
            ..*self
        })
    }

    /// Whether `after` is the shell after a key while a name is being
    /// typed, and `saved` says whether the table has changed.
    ///
    /// Enter enters the score under the name typed, Escape under the name
    /// for none; either ends the typing. Backspace takes the last character
    /// away. A visible ASCII character is added as a capital, up to the
    /// length that the table keeps. No other key does anything.
    pub open spec fn types_to(&self, key: Key, after: &Shell, saved: bool) -> bool {
        match key {
            Key::Enter => self.enters_to(name_for(self.name_buffer@), after, saved),
            Key::Esc => self.enters_to(default_name(), after, saved),
            Key::Backspace => {
                &&& !saved
                &&& after.name_buffer@ == if self.name_buffer@.len() > 0 {
                    self.name_buffer@.drop_last()
                } else {
                    self.name_buffer@
                }
                &&& *after == (Shell { name_buffer: after.name_buffer, ..*self })
            },
            Key::Char(c) => {
                &&& !saved
                &&& after.name_buffer@ == if self.name_buffer@.len() < NAME_LEN && is_name_char(c) {
                    self.name_buffer@.push(capital(c))
                } else {
                    self.name_buffer@
                }
                &&& *after == (Shell { name_buffer: after.name_buffer, ..*self })
            },
            _ => !saved && *after == *self,
        }
    }

    fn enter_score(&mut self, typed: bool) -> (saved: bool)
        requires
            old(self).wf(),
        ensures
            final(self).wf(),
            old(self).enters_to(
                if typed {
                    name_for(old(self).name_buffer@)
                } else {
                    default_name()
                },
                final(self),
                saved,
            ),
    {
        let name = if typed && self.name_buffer.len() > 0 {
            text_of(&self.name_buffer)
        } else {
            let fallback = vec!['?', '?', '?'];
            assert(fallback@ =~= default_name());
            text_of(&fallback)
        };
        let saved = self.high_scores.submit(self.name_game_idx, name.as_str(), self.name_score);
        self.entering_name = false;
        self.name_buffer.clear();
        saved
    }

    /// Takes a key while a name is being typed, and says whether the table
    /// has changed.
    pub fn handle_name_input(&mut self, key: Key) -> (saved: bool)
        requires
            old(self).wf(),
        ensures
            final(self).wf(),
            old(self).types_to(key, final(self), saved),
    {
        match key {
            Key::Enter => self.enter_score(true),
            Key::Esc => self.enter_score(false),
            Key::Backspace => {
                if self.name_buffer.len() > 0 {
                    let _ = self.name_buffer.pop();
                }
                false
            },
            Key::Char(c) => {
                if self.name_buffer.len() < NAME_LEN && is_name_char(c) {
                    self.name_buffer.push(capital(c));
                }
                false
            },
            _ => false,
        }
    }

    /// The tab that a digit key opens from the home screen.
    pub open spec fn spec_shortcut(key: Key) -> Option<Tab> {
        match key.spec_digit() {
            Some(d) => if 1 <= d <= NUM_GAMES {
                Some(Tab::spec_of_game((d - 1) as usize))
            } else {
                None
            },
            None => None,
        }
    }

    /// The tab that a digit key opens from the home screen.
    #[verifier::when_used_as_spec(spec_shortcut)]
    pub fn shortcut(key: Key) -> (r: Option<Tab>)
        ensures
            r == Self::spec_shortcut(key),
    {
        match key.digit() {
            Some(d) => if 1 <= d && d <= NUM_GAMES {
                Some(Tab::of_game(d - 1))
            } else {
                None
            },
            None => None,
        }
    }

    /// Whether `key` changes the tab wherever the shell is: the tab keys
    /// always do, Escape does from a game.
    pub open spec fn changes_tab(&self, key: Key) -> bool {
        key == Key::Tab || key == Key::BackTab || (key == Key::Esc && self.current_tab != Tab::Home)
    }

    /// The tab that is shown after a key that changes the tab.
    pub open spec fn tab_after(&self, key: Key, modifiers: Modifiers) -> Tab {
        if key == Key::Esc {
            Tab::Home
        } else if key == Key::BackTab || modifiers.shift {
            self.current_tab.spec_prev()
        } else {
            self.current_tab.spec_next()
        }
    }

    /// Whether `after` is the shell after a key on the home screen that no
    /// rule before has taken, with no modifier held; `taken` says whether
    /// the home screen took the key.
    ///
    /// A digit opens the tab of its game, `h` shows or hides the table, the
    /// arrows move the selection, and Enter opens the game selected.
    pub open spec fn home_key_to(&self, key: Key, after: &Shell, taken: bool) -> bool {
        if Self::spec_shortcut(key) is Some {
            taken && *after == (Shell { current_tab: Self::spec_shortcut(key)->0, ..*self })
        } else if key.spec_is_letter('h', 'H') {
            taken && *after == (Shell { show_high_scores: !self.show_high_scores, ..*self })
        } else if key == Key::Right || key == Key::Left || key == Key::Up || key == Key::Down {
            taken && *after == (Shell {
                selected_game: spec_moved_selection(self.selected_game, key),
                ..*self
            })
        } else if key == Key::Enter {
            taken && *after == (Shell {
                current_tab: Tab::spec_of_game(self.selected_game),
                ..*self
            })
        } else {
            !taken && *after == *self
        }
    }

    fn home_key(&mut self, key: Key) -> (taken: bool)
        requires
            old(self).wf(),
        ensures
            final(self).wf(),
            old(self).home_key_to(key, final(self), taken),
    {
        match Self::shortcut(key) {
            Some(tab) => {
                self.current_tab = tab;
                return true;
            },
            None => {},
        }
        if key.is_letter('h', 'H') {
            self.show_high_scores = !self.show_high_scores;
            return true;
        }
        match key {
            Key::Right | Key::Left | Key::Up | Key::Down => {
                self.selected_game = moved_selection(self.selected_game, key);
                true
            },
            Key::Enter => {
                self.current_tab = Tab::of_game(self.selected_game);
                true
            },
            _ => false,
        }
    }

    /// Whether `after` is the shell after a key, and `outcome` what the host
    /// has to do.
    ///
    /// Control-C quits. While a name is being typed every other key goes to
    /// the typing. Otherwise `q` quits from the home screen, the tab keys go
    /// to the next or the previous tab, and Escape goes home from a game.
    /// On the home screen, keys without a modifier go to the home screen
    /// first. A key that nothing has taken goes on to the game of the
    /// current tab.
    pub open spec fn key_to(
        &self,
        key: Key,
        modifiers: Modifiers,
        after: &Shell,
        outcome: KeyOutcome,
    ) -> bool {
        if key == Key::Char('c') && modifiers.control {
            &&& outcome == (KeyOutcome { forward: false, save: false })
            &&& *after == (Shell { should_quit: true, ..*self })
        } else if self.entering_name {
            !outcome.forward && self.types_to(key, after, outcome.save)
        } else if key.spec_is_letter('q', 'Q') && self.current_tab == Tab::Home {
            &&& outcome == (KeyOutcome { forward: false, save: false })
            &&& *after == (Shell { should_quit: true, ..*self })
        } else if self.changes_tab(key) {
            &&& outcome == (KeyOutcome { forward: false, save: false })
            &&& *after == (Shell { current_tab: self.tab_after(key, modifiers), ..*self })
        } else if self.current_tab == Tab::Home && modifiers.spec_is_empty() {
            &&& !outcome.save
            &&& self.home_key_to(key, after, !outcome.forward)
        } else {
            &&& outcome == (KeyOutcome { forward: true, save: false })
            &&& *after == *self
        }
    }

    /// Takes a key and says what the host has to do about it.
    #[verifier::rlimit(50)]
    pub fn on_key(&mut self, key: Key, modifiers: Modifiers) -> (outcome: KeyOutcome)
        requires
            old(self).wf(),
        ensures
            final(self).wf(),
            old(self).key_to(key, modifiers, final(self), outcome),
    {
        let nothing = KeyOutcome { forward: false, save: false };
        if modifiers.control && key.is_letter('c', 'c') {
            self.should_quit = true;
            return nothing;
        }
        if self.entering_name {
            let save = self.handle_name_input(key);
            return KeyOutcome { forward: false, save };
        }
        let at_home = matches!(self.current_tab, Tab::Home);
        if at_home && key.is_letter('q', 'Q') {
            self.should_quit = true;
            return nothing;
        }
        match key {
            Key::Tab => {
                self.current_tab = if modifiers.shift {
                    self.current_tab.prev()
                } else {
                    self.current_tab.next()
                };
                return nothing;
            },
            Key::BackTab => {
                self.current_tab = self.current_tab.prev();
                return nothing;
            },
            Key::Esc => {
                if !at_home {
                    self.current_tab = Tab::Home;
                    return nothing;
                }
            },
            _ => {},
        }
        if at_home && modifiers.is_empty() {
            let taken = self.home_key(key);
            return KeyOutcome { forward: !taken, save: false };
        }
        KeyOutcome { forward: true, save: false }
    }
}

} // verus!
