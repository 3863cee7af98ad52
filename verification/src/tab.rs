//! The tabs of the arcade: the home screen and one tab per game.

use vstd::prelude::*;

verus! {

/// Number of tabs.
pub const NUM_TABS: usize = 9;

/// A tab of the arcade.
#[derive(Clone, Copy, PartialEq, Eq, Structural, Debug)]
pub enum Tab {
    Home,
    Frogger,
    Breakout,
    DinoRun,
    SpaceInvaders,
    JezzBall,
    Asteroids,
    Booster,
    Beam,
}

/// The tabs in the order in which they are shown.
pub open spec fn all_tabs() -> Seq<Tab> {
    seq![
        Tab::Home,
        Tab::Frogger,
        Tab::Breakout,
        Tab::DinoRun,
        Tab::SpaceInvaders,
        Tab::JezzBall,
        Tab::Asteroids,
        Tab::Booster,
        Tab::Beam,
    ]
}

impl Tab {
    /// The title of the tab, padded with a blank on either side.
    pub open spec fn spec_title(&self) -> Seq<char> {
        match *self {
            Tab::Home => " Home "@,
            Tab::Frogger => " Frogger "@,
            Tab::Breakout => " Breakout "@,
            Tab::DinoRun => " Dino Run "@,
            Tab::SpaceInvaders => " Invaders "@,
            Tab::JezzBall => " JezzBall "@,
            Tab::Asteroids => " Asteroids "@,
            Tab::Booster => " Booster "@,
            Tab::Beam => " Beam "@,
        }
    }

    /// The place of the tab in the order in which the tabs are shown.
    pub open spec fn spec_index(&self) -> usize {
        match *self {
            Tab::Home => 0,
            Tab::Frogger => 1,
            Tab::Breakout => 2,
            Tab::DinoRun => 3,
            Tab::SpaceInvaders => 4,
            Tab::JezzBall => 5,
            Tab::Asteroids => 6,
            Tab::Booster => 7,
            Tab::Beam => 8,
        }
    }

    /// The tab after this one; after the last comes the first.
    pub open spec fn spec_next(&self) -> Tab {
        all_tabs()[(self.spec_index() + 1) % (NUM_TABS as int)]
    }

    /// The tab before this one; before the first comes the last.
    pub open spec fn spec_prev(&self) -> Tab {
        all_tabs()[(self.spec_index() + NUM_TABS - 1) % (NUM_TABS as int)]
    }

    /// The tabs in the order in which they are shown.
    pub fn all() -> (r: &'static [Tab])
        ensures
            r@ == all_tabs(),
    {
        let r: &'static [Tab] = &[
            Tab::Home,
            Tab::Frogger,
            Tab::Breakout,
            Tab::DinoRun,
            Tab::SpaceInvaders,
            Tab::JezzBall,
            Tab::Asteroids,
            Tab::Booster,
            Tab::Beam,
        ];
        assert(r@ =~= all_tabs());
        r
    }

    /// The title of the tab.
    pub fn title(&self) -> (r: &'static str)
        ensures
            r@ == self.spec_title(),
    {
        match self {
            Tab::Home => " Home ",
            Tab::Frogger => " Frogger ",
            Tab::Breakout => " Breakout ",
            Tab::DinoRun => " Dino Run ",
            Tab::SpaceInvaders => " Invaders ",
            Tab::JezzBall => " JezzBall ",
            Tab::Asteroids => " Asteroids ",
            Tab::Booster => " Booster ",
            Tab::Beam => " Beam ",
        }
    }

    /// The place of the tab in the order in which the tabs are shown.
    #[verifier::when_used_as_spec(spec_index)]
    pub fn index(&self) -> (r: usize)
        ensures
            r == self.spec_index(),
            r < NUM_TABS,
            all_tabs()[r as int] == *self,
    {
        match self {
            Tab::Home => 0,
            Tab::Frogger => 1,
            Tab::Breakout => 2,
            Tab::DinoRun => 3,
            Tab::SpaceInvaders => 4,
            Tab::JezzBall => 5,
            Tab::Asteroids => 6,
            Tab::Booster => 7,
            Tab::Beam => 8,
        }
    }

    /// The tab after this one; after the last comes the first.
    #[verifier::when_used_as_spec(spec_next)]
    pub fn next(&self) -> (r: Tab)
        ensures
            r == self.spec_next(),
    {
        let tabs = Tab::all();
        tabs[(self.index() + 1) % tabs.len()]
    }

    /// The tab before this one; before the first comes the last.
    #[verifier::when_used_as_spec(spec_prev)]
    pub fn prev(&self) -> (r: Tab)
        ensures
            r == self.spec_prev(),
    {
        let tabs = Tab::all();
        tabs[(self.index() + tabs.len() - 1) % tabs.len()]
    }

    /// The tab of the game with number `game`, counted from 0 in the order
    /// of the tabs; the home tab for a number that no game has.
    pub open spec fn spec_of_game(game: usize) -> Tab {
        if game < NUM_TABS - 1 {
            all_tabs()[game + 1]
        } else {
            Tab::Home
        }
    }

    /// The tab of the game with number `game`.
    #[verifier::when_used_as_spec(spec_of_game)]
    pub fn of_game(game: usize) -> (r: Tab)
        ensures
            r == Self::spec_of_game(game),
    {
        if game < NUM_TABS - 1 {
            Tab::all()[game + 1]
        } else {
            Tab::Home
        }
    }
}

/// The index of a tab is its place in the list of all tabs, and the list
/// holds every tab exactly once.
pub proof fn lemma_index_is_place(tab: Tab, i: int)
    requires
        0 <= i < NUM_TABS,
    ensures
        all_tabs().len() == NUM_TABS,
        all_tabs()[tab.index() as int] == tab,
        all_tabs()[i].index() == i,
{
}

/// Going to the next tab and back, or back and on, changes nothing.
pub proof fn lemma_next_prev_inverse(tab: Tab)
    ensures
        tab.next().prev() == tab,
        tab.prev().next() == tab,
{
}

} // verus!
