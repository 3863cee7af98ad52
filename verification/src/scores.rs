//! The high-score table: the three best scores of every game, each with the
//! name of the player, and a note of which games have handed in the score
//! of their current round.

use vstd::prelude::*;
use vstd::string::{StrSliceExecFns, StringExecFns};

verus! {

/// Number of games that keep scores.
pub const NUM_GAMES: usize = 8;

/// Number of scores kept per game.
pub const SCORES_PER_GAME: usize = 3;

/// The most characters that a name is kept with.
pub const NAME_LEN: usize = 9;

/// The games that keep scores, in the order of their numbers.
pub open spec fn game_names() -> Seq<Seq<char>> {
    seq![
        "Frogger"@,
        "Breakout"@,
        "Dino Run"@,
        "Pinball"@,
        "JezzBall"@,
        "Asteroids"@,
        "Booster"@,
        "Beam"@,
    ]
}

/// The name of the game with number `game_idx`; empty for a number that no
/// game has.
pub fn game_name(game_idx: usize) -> (r: &'static str)
    ensures
        game_idx < NUM_GAMES ==> r@ == game_names()[game_idx as int],
        game_idx >= NUM_GAMES ==> r@ == ""@,
{
    if game_idx == 0 {
        "Frogger"
    } else if game_idx == 1 {
        "Breakout"
    } else if game_idx == 2 {
        "Dino Run"
    } else if game_idx == 3 {
        "Pinball"
    } else if game_idx == 4 {
        "JezzBall"
    } else if game_idx == 5 {
        "Asteroids"
    } else if game_idx == 6 {
        "Booster"
    } else if game_idx == 7 {
        "Beam"
    } else {
        ""
    }
}

/// One line of the table.
#[derive(Debug)]
pub struct ScoreEntry {
    pub name: String,
    pub score: u32,
}

/// What a line of the table says.
pub struct EntryView {
    pub name: Seq<char>,
    pub score: u32,
}

impl View for ScoreEntry {
    type V = EntryView;

    open spec fn view(&self) -> EntryView {
        EntryView { name: self.name@, score: self.score }
    }
}

/// The line that stands where no score has been made.
pub open spec fn empty_entry() -> EntryView {
    EntryView { name: Seq::empty(), score: 0 }
}

/// What the lines of one game say, best first.
pub open spec fn row_view(row: Seq<ScoreEntry>) -> Seq<EntryView> {
    row.map_values(|e: ScoreEntry| e@)
}

/// The place at which `score` enters `row`: the first line that it beats;
/// the length of the row if it beats none.
pub open spec fn entry_place(row: Seq<EntryView>, score: u32, from: int) -> int
    decreases row.len() - from,
{
    if from < 0 || from >= row.len() {
        row.len() as int
    } else if score > row[from].score {
        from
    } else {
        entry_place(row, score, from + 1)
    }
}

/// Whether the scores of `row` never go up from one line to the next.
pub open spec fn descending(row: Seq<EntryView>) -> bool {
    forall|i: int, j: int| 0 <= i <= j < row.len() ==> row[i].score >= row[j].score
}

/// `name` cut down to the length that the table keeps.
pub open spec fn kept_name(name: Seq<char>) -> Seq<char> {
    if name.len() > NAME_LEN {
        name.subrange(0, NAME_LEN as int)
    } else {
        name
    }
}

/// `row` after `score` was entered under `name`: the new line stands at its
/// place, the lines below it have moved down, and the last has dropped out.
pub open spec fn entered(row: Seq<EntryView>, name: Seq<char>, score: u32) -> Seq<EntryView> {
    row.insert(entry_place(row, score, 0), EntryView { name: kept_name(name), score }).subrange(
        0,
        row.len() as int,
    )
}

impl ScoreEntry {
    /// The line that stands where no score has been made.
    pub fn empty() -> (r: ScoreEntry)
        ensures
            r@ == empty_entry(),
    {
        ScoreEntry { name: String::new(), score: 0 }
    }

    /// A copy of the line.
    pub fn duplicate(&self) -> (r: ScoreEntry)
        ensures
            r@ == self@,
    {
        ScoreEntry { name: self.name.clone(), score: self.score }
    }
}

/// The high-score table.
pub struct HighScores {
    /// The lines of every game, best first.
    pub scores: Vec<Vec<ScoreEntry>>,
    /// Which games have handed in the score of their current round.
    pub submitted: [bool; 8],
}

impl HighScores {
    /// Every game has its full number of lines.
    pub open spec fn wf(&self) -> bool {
        &&& self.scores@.len() == NUM_GAMES
        &&& forall|g: int| 0 <= g < NUM_GAMES ==> (#[trigger] self.scores@[g])@.len() == SCORES_PER_GAME
    }

    /// What the lines of game `game` say, best first.
    pub open spec fn row(&self, game: int) -> Seq<EntryView> {
        row_view(self.scores@[game]@)
    }

    /// Whether `score` would enter the table of game `game_idx`: the game
    /// exists, the score is not zero, and it beats one of the lines.
    pub open spec fn spec_qualifies(&self, game_idx: usize, score: u32) -> bool {
        &&& game_idx < NUM_GAMES
        &&& score > 0
        &&& entry_place(self.row(game_idx as int), score, 0) < SCORES_PER_GAME
    }

    /// A table in which no score has been made and nothing handed in.
    pub fn new() -> (r: HighScores)
        ensures
            r.wf(),
            forall|g: int, s: int|
                0 <= g < NUM_GAMES && 0 <= s < SCORES_PER_GAME ==> #[trigger] r.row(g)[s]
                    == empty_entry(),
            forall|g: int| 0 <= g < NUM_GAMES ==> !#[trigger] r.submitted@[g],
    {
        let mut scores: Vec<Vec<ScoreEntry>> = Vec::new();
        let mut g: usize = 0;
        while g < NUM_GAMES
            invariant
                g <= NUM_GAMES,
                scores@.len() == g,
                forall|k: int| 0 <= k < g ==> (#[trigger] scores@[k])@.len() == SCORES_PER_GAME,
                forall|k: int, s: int|
                    0 <= k < g && 0 <= s < SCORES_PER_GAME ==> #[trigger] row_view(scores@[k]@)[s]
                        == empty_entry(),
            decreases NUM_GAMES - g,
        {
            let mut row: Vec<ScoreEntry> = Vec::new();
            row.push(ScoreEntry::empty());
            row.push(ScoreEntry::empty());
            row.push(ScoreEntry::empty());
            scores.push(row);
            g += 1;
        }
        HighScores { scores, submitted: [false; 8] }
    }

    fn place_for(&self, game_idx: usize, score: u32) -> (place: usize)
        requires
            self.wf(),
            game_idx < NUM_GAMES,
        ensures
            place == entry_place(self.row(game_idx as int), score, 0),
            place <= SCORES_PER_GAME,
    {
        let mut i: usize = 0;
        while i < SCORES_PER_GAME
            invariant
                i <= SCORES_PER_GAME,
                self.wf(),
                game_idx < NUM_GAMES,
                entry_place(self.row(game_idx as int), score, 0) == entry_place(
                    self.row(game_idx as int),
                    score,
                    i as int,
                ),
            decreases SCORES_PER_GAME - i,
        {
            if score > self.scores[game_idx][i].score {
                return i;
            }
            i += 1;
        }
        SCORES_PER_GAME
    }

    /// Whether `score` would enter the table of game `game_idx`. Changes
    /// nothing.
    #[verifier::when_used_as_spec(spec_qualifies)]
    pub fn qualifies(&self, game_idx: usize, score: u32) -> (r: bool)
        requires
            self.wf(),
        ensures
            r == self.spec_qualifies(game_idx, score),
    {
        if game_idx >= NUM_GAMES || score == 0 {
            return false;
        }
        self.place_for(game_idx, score) < SCORES_PER_GAME
    }

    /// Enters `score` under `name` into the table of game `game_idx`, if it
    /// qualifies, and says whether it did. The name is cut down to
    /// `NAME_LEN` characters. The new line stands above every line that it
    /// beats and below every line that it does not.
    pub fn submit(&mut self, game_idx: usize, name: &str, score: u32) -> (r: bool)
        requires
            old(self).wf(),
        ensures
            final(self).wf(),
            r == old(self).spec_qualifies(game_idx, score),
            final(self).submitted == old(self).submitted,
            forall|g: int|
                0 <= g < NUM_GAMES && !(r && g == game_idx) ==> final(self).scores@[g] == old(self).scores@[g],
            r ==> final(self).row(game_idx as int) == entered(
                old(self).row(game_idx as int),
                name@,
                score,
            ),
    {
        if game_idx >= NUM_GAMES || score == 0 {
            return false;
        }
        let place = self.place_for(game_idx, score);
        if place >= SCORES_PER_GAME {
            return false;
        }
        let count = name.unicode_len();
        let kept = if count > NAME_LEN {
            name.substring_char(0, NAME_LEN)
        } else {
            name
        };
        let entry = ScoreEntry { name: String::from_str(kept), score };
        let ghost before = self.scores@[game_idx as int]@;
        self.scores[game_idx].insert(place, entry);
        let _ = self.scores[game_idx].pop();
        proof {
            let after = self.scores@[game_idx as int]@;
            assert(after =~= before.insert(place as int, entry).subrange(0, 3));
            assert(row_view(after) =~= entered(row_view(before), name@, score));
        }
        true
    }

    /// A copy of the lines of game `game_idx`, best first; three empty
    /// lines for a game that does not exist.
    pub fn top_scores(&self, game_idx: usize) -> (r: Vec<ScoreEntry>)
        requires
            self.wf(),
        ensures
            r@.len() == SCORES_PER_GAME,
            game_idx < NUM_GAMES ==> row_view(r@) == self.row(game_idx as int),
            game_idx >= NUM_GAMES ==> forall|s: int|
                0 <= s < SCORES_PER_GAME ==> #[trigger] row_view(r@)[s] == empty_entry(),
    {
        let mut out: Vec<ScoreEntry> = Vec::new();
        let mut s: usize = 0;
        while s < SCORES_PER_GAME
            invariant
                s <= SCORES_PER_GAME,
                self.wf(),
                out@.len() == s,
                game_idx < NUM_GAMES ==> forall|k: int|
                    0 <= k < s ==> #[trigger] out@[k]@ == self.scores@[game_idx as int]@[k]@,
                game_idx >= NUM_GAMES ==> forall|k: int|
                    0 <= k < s ==> #[trigger] out@[k]@ == empty_entry(),
            decreases SCORES_PER_GAME - s,
        {
            if game_idx < NUM_GAMES {
                out.push(self.scores[game_idx][s].duplicate());
            } else {
                out.push(ScoreEntry::empty());
            }
            s += 1;
        }
        proof {
            if game_idx < NUM_GAMES {
                assert(row_view(out@) =~= self.row(game_idx as int));
            }
        }
        out
    }

    /// Whether game `game_idx` has handed in the score of its current round.
    /// A game that does not exist has not.
    pub fn was_submitted(&self, game_idx: usize) -> (r: bool)
        ensures
            r == (game_idx < NUM_GAMES && self.submitted@[game_idx as int]),
    {
        if game_idx >= NUM_GAMES {
            return false;
        }
        self.submitted[game_idx]
    }

    /// Notes that game `game_idx` has handed in the score of its current
    /// round. A game that does not exist is ignored.
    pub fn mark_submitted(&mut self, game_idx: usize)
        ensures
            final(self).scores == old(self).scores,
            final(self).submitted@ == if game_idx < NUM_GAMES {
                old(self).submitted@.update(game_idx as int, true)
            } else {
                old(self).submitted@
            },
    {
        if game_idx < NUM_GAMES {
            self.submitted[game_idx] = true;
        }
    }

    /// Notes that game `game_idx` has begun a new round. A game that does
    /// not exist is ignored.
    pub fn clear_submitted(&mut self, game_idx: usize)
        ensures
            final(self).scores == old(self).scores,
            final(self).submitted@ == if game_idx < NUM_GAMES {
                old(self).submitted@.update(game_idx as int, false)
            } else {
                old(self).submitted@
            },
    {
        if game_idx < NUM_GAMES {
            self.submitted[game_idx] = false;
        }
    }
}

/// A score that enters a row that is in descending order leaves it in
/// descending order, with as many lines as before.
#[verifier::rlimit(50)]
pub proof fn lemma_entered_stays_descending(row: Seq<EntryView>, name: Seq<char>, score: u32)
    requires
        descending(row),
    ensures
        entered(row, name, score).len() == row.len(),
        descending(entered(row, name, score)),
{
    lemma_entry_place(row, score, 0);
    let place = entry_place(row, score, 0);
    let grown = row.insert(place, EntryView { name: kept_name(name), score });
    let after = entered(row, name, score);
    assert forall|i: int, j: int| 0 <= i <= j < after.len() implies after[i].score
        >= after[j].score by {
        assert(after[i] == grown[i] && after[j] == grown[j]);
        if j < place {
            assert(grown[i] == row[i] && grown[j] == row[j]);
        } else if j == place {
            if i < place {
                assert(grown[i] == row[i]);
            }
        } else {
            assert(grown[j] == row[j - 1]);
            if i < place {
                assert(grown[i] == row[i]);
            } else if i > place {
                assert(grown[i] == row[i - 1]);
            } else {
                assert(row[place].score >= row[j - 1].score);
            }
        }
    }
}

/// The place at which a score enters lies within the row or just behind it;
/// the score beats the line at that place, if there is one, and none of the
/// lines before it.
#[verifier::rlimit(50)]
pub proof fn lemma_entry_place(row: Seq<EntryView>, score: u32, from: int)
    requires
        0 <= from <= row.len(),
    ensures
        from <= entry_place(row, score, from) <= row.len(),
        entry_place(row, score, from) < row.len() ==> score > row[entry_place(
            row,
            score,
            from,
        )].score,
        forall|i: int| from <= i < entry_place(row, score, from) ==> score <= row[i].score,
    decreases row.len() - from,
{
    if from < row.len() && score <= row[from].score {
        lemma_entry_place(row, score, from + 1);
    }
}

/// Where a score enters a row, the new line stands at its place, the lines
/// above it stay, and the lines below it have each moved down by one.
#[verifier::rlimit(50)]
pub proof fn lemma_entered_holds_score(row: Seq<EntryView>, name: Seq<char>, score: u32)
    requires
        entry_place(row, score, 0) < row.len(),
    ensures
        entered(row, name, score)[entry_place(row, score, 0)] == (EntryView {
            name: kept_name(name),
            score,
        }),
        forall|i: int|
            0 <= i < entry_place(row, score, 0) ==> entered(row, name, score)[i] == row[i],
        forall|i: int|
            entry_place(row, score, 0) < i < row.len() ==> entered(row, name, score)[i] == row[i
                - 1],
{
    lemma_entry_place(row, score, 0);
}

} // verus!
