//! The file that keeps the high-score table between runs.
//!
//! The file begins with four bytes that mark it. Then every line of the
//! table follows, game by game and best first: nine bytes of name, filled up
//! with zero bytes, and the score as four bytes, lowest first.

use vstd::prelude::*;
use vstd::bytes::{spec_u32_from_le_bytes, spec_u32_to_le_bytes, u32_from_le_bytes, u32_to_le_bytes};
use vstd::slice::slice_subrange;
use vstd::string::{StrSliceExecFns, StringExecFns};
use vstd::utf8::{decode_utf8, encode_utf8, valid_utf8};
use crate::scores::{
    empty_entry, row_view, EntryView, HighScores, ScoreEntry, NUM_GAMES, SCORES_PER_GAME,
};

verus! {

/// Number of bytes that a name takes in the file.
pub const NAME_BYTES: usize = 9;

/// Number of bytes that a line takes in the file.
pub const ENTRY_SIZE: usize = 13;

/// Number of bytes of the whole file.
pub const FILE_SIZE: usize = 316;

/// The bytes that every score file begins with: "RCS2".
pub open spec fn magic() -> Seq<u8> {
    seq![0x52u8, 0x43u8, 0x53u8, 0x32u8]
}

/// Where in the file the line of place `slot` of game `game` begins.
pub open spec fn entry_offset(game: int, slot: int) -> int {
    4 + (game * SCORES_PER_GAME + slot) * ENTRY_SIZE
}

/// The nine bytes that stand for `name` in the file: the first nine bytes
/// of its UTF-8 encoding, filled up with zero bytes.
pub open spec fn name_field(name: Seq<char>) -> Seq<u8> {
    let bytes = encode_utf8(name);
    Seq::new(
        NAME_BYTES as nat,
        |i: int|
            if i < bytes.len() {
                bytes[i]
            } else {
                0u8
            },
    )
}

/// The bytes that stand for one line in the file.
pub open spec fn entry_bytes(entry: EntryView) -> Seq<u8> {
    name_field(entry.name) + spec_u32_to_le_bytes(entry.score)
}

/// The text that `String::from_utf8_lossy` makes of `bytes`.
pub uninterp spec fn utf8_lossy(bytes: Seq<u8>) -> Seq<char>;

/// Reads `bytes` as text with `String::from_utf8_lossy`.
///
/// Not proved: that the text is the one named `utf8_lossy`, which depends on
/// the bytes alone, and that bytes which are valid UTF-8 are read as what
/// they encode. What the function puts in the place of invalid bytes is not
/// stated.
#[verifier::external_body]
fn lossy_text(bytes: &[u8]) -> (text: String)
    ensures
        text@ == utf8_lossy(bytes@),
        valid_utf8(bytes@) ==> text@ == decode_utf8(bytes@),
{
    String::from_utf8_lossy(bytes).into_owned()
}

/// Whether `c` is white space: one of the characters that have the Unicode
/// property of that name.
pub open spec fn spec_is_white_space(c: char) -> bool {
    let u = c as u32;
    (0x09 <= u <= 0x0d) || u == 0x20 || u == 0x85 || u == 0xa0 || u == 0x1680 || (0x2000 <= u
        <= 0x200a) || u == 0x2028 || u == 0x2029 || u == 0x202f || u == 0x205f || u == 0x3000
}

/// Whether `c` is white space.
#[verifier::when_used_as_spec(spec_is_white_space)]
pub fn is_white_space(c: char) -> (r: bool)
    ensures
        r == spec_is_white_space(c),
{
    let u = c as u32;
    (0x09 <= u && u <= 0x0d) || u == 0x20 || u == 0x85 || u == 0xa0 || u == 0x1680 || (0x2000 <= u
        && u <= 0x200a) || u == 0x2028 || u == 0x2029 || u == 0x202f || u == 0x205f || u == 0x3000
}

/// `s` without the zero characters at its end.
pub open spec fn without_trailing_zeros(s: Seq<char>) -> Seq<char>
    decreases s.len(),
{
    if s.len() > 0 && s.last() == '\0' {
        without_trailing_zeros(s.drop_last())
    } else {
        s
    }
}

/// `s` without the white space at its end.
pub open spec fn without_trailing_space(s: Seq<char>) -> Seq<char>
    decreases s.len(),
{
    if s.len() > 0 && is_white_space(s.last()) {
        without_trailing_space(s.drop_last())
    } else {
        s
    }
}

/// `text` as a name: without the zero characters that fill up its field and
/// without white space at its end.
pub open spec fn clean_name(text: Seq<char>) -> Seq<char> {
    without_trailing_space(without_trailing_zeros(text))
}

/// The name that the nine bytes `field` stand for.
pub open spec fn field_name(field: Seq<u8>) -> Seq<char> {
    clean_name(utf8_lossy(field))
}

/// The bytes of the name of the line that begins at `offset` of `data`.
pub open spec fn name_bytes_at(data: Seq<u8>, offset: int) -> Seq<u8> {
    data.subrange(offset, offset + ENTRY_SIZE).subrange(0, NAME_BYTES as int)
}

/// The line that the thirteen bytes `bytes` stand for.
pub open spec fn entry_of(bytes: Seq<u8>) -> EntryView {
    EntryView {
        name: field_name(bytes.subrange(0, NAME_BYTES as int)),
        score: spec_u32_from_le_bytes(bytes.subrange(NAME_BYTES as int, ENTRY_SIZE as int)),
    }
}

/// Whether `data` is long enough for a score file and begins as one.
pub open spec fn is_score_file(data: Seq<u8>) -> bool {
    data.len() >= FILE_SIZE && data.subrange(0, 4) == magic()
}

/// The line that `data` holds for place `slot` of game `game`; the empty
/// line if `data` is no score file.
pub open spec fn loaded_entry(data: Seq<u8>, game: int, slot: int) -> EntryView {
    if is_score_file(data) {
        entry_of(data.subrange(entry_offset(game, slot), entry_offset(game, slot) + ENTRY_SIZE))
    } else {
        empty_entry()
    }
}

/// The name that the text of a name field stands for: the text without
/// the zeros that fill the field at its end, and then without the white
/// space at its end.
pub fn trimmed(text: &str) -> (name: String)
    ensures
        name@ == clean_name(text@),
{
    let s = text;
    let len = s.unicode_len();
    let mut k: usize = len;
    assert(s@.subrange(0, len as int) =~= s@);
    while k > 0 && s.get_char(k - 1) == '\0'
        invariant
            k <= len,
            len == s@.len(),
            without_trailing_zeros(s@) == without_trailing_zeros(s@.subrange(0, k as int)),
        decreases k,
    {
        assert(s@.subrange(0, k as int).drop_last() =~= s@.subrange(0, k - 1));
        k -= 1;
    }
    assert(without_trailing_zeros(s@) == s@.subrange(0, k as int));
    let ghost cut = s@.subrange(0, k as int);
    while k > 0 && is_white_space(s.get_char(k - 1))
        invariant
            k <= len,
            len == s@.len(),
            without_trailing_space(cut) == without_trailing_space(s@.subrange(0, k as int)),
        decreases k,
    {
        assert(s@.subrange(0, k as int).drop_last() =~= s@.subrange(0, k - 1));
        k -= 1;
    }
    assert(without_trailing_space(cut) == s@.subrange(0, k as int));
    String::from_str(s.substring_char(0, k))
}

/// The line that the thirteen bytes `bytes` stand for: the name that its
/// first nine bytes hold as text, and the score that its last four bytes
/// hold, lowest byte first.
pub fn decode_entry(bytes: &[u8]) -> (entry: ScoreEntry)
    requires
        bytes@.len() == ENTRY_SIZE,
    ensures
        entry@ == entry_of(bytes@),
        valid_utf8(bytes@.subrange(0, NAME_BYTES as int)) ==> entry@.name == clean_name(
            decode_utf8(bytes@.subrange(0, NAME_BYTES as int)),
        ),
{
    let text = lossy_text(slice_subrange(bytes, 0, NAME_BYTES));
    let name = trimmed(text.as_str());
    let score = u32_from_le_bytes(slice_subrange(bytes, NAME_BYTES, ENTRY_SIZE));
    ScoreEntry { name, score }
}

fn encode_entry(entry: &ScoreEntry, out: &mut Vec<u8>)
    ensures
        final(out)@ == old(out)@ + entry_bytes(entry@),
{
    let ghost before = out@;
    let name_bytes = entry.name.as_str().as_bytes();
    let mut i: usize = 0;
    while i < NAME_BYTES
        invariant
            i <= NAME_BYTES,
            name_bytes@ == encode_utf8(entry.name@),
            out@ == before + name_field(entry.name@).subrange(0, i as int),
        decreases NAME_BYTES - i,
    {
        let b: u8 = if i < name_bytes.len() {
            name_bytes[i]
        } else {
            0
        };
        out.push(b);
        assert(out@ =~= before + name_field(entry.name@).subrange(0, i + 1));
        i += 1;
    }
    assert(name_field(entry.name@).subrange(0, NAME_BYTES as int) =~= name_field(entry.name@));
    let score_bytes = u32_to_le_bytes(entry.score);
    let ghost named = out@;
    let mut j: usize = 0;
    while j < 4
        invariant
            j <= 4,
            score_bytes@.len() == 4,
            out@ == named + score_bytes@.subrange(0, j as int),
        decreases 4 - j,
    {
        out.push(score_bytes[j]);
        assert(out@ =~= named + score_bytes@.subrange(0, j + 1));
        j += 1;
    }
    assert(score_bytes@.subrange(0, 4) =~= score_bytes@);
    assert(out@ =~= before + entry_bytes(entry@));
}

impl HighScores {
    /// The table that the bytes of a score file hold. Bytes that are too few
    /// or do not begin as a score file give the empty table. Nothing has
    /// been handed in.
    #[verifier::rlimit(50)]
    pub fn load(data: &[u8]) -> (table: HighScores)
        ensures
            table.wf(),
            forall|g: int, s: int|
                0 <= g < NUM_GAMES && 0 <= s < SCORES_PER_GAME ==> #[trigger] table.row(g)[s]
                    == loaded_entry(data@, g, s),
            forall|g: int, s: int|
                0 <= g < NUM_GAMES && 0 <= s < SCORES_PER_GAME && is_score_file(data@)
                    && valid_utf8(name_bytes_at(data@, entry_offset(g, s))) ==> (
                #[trigger] table.row(g)[s]).name == clean_name(
                    decode_utf8(name_bytes_at(data@, entry_offset(g, s))),
                ),
            forall|g: int| 0 <= g < NUM_GAMES ==> !#[trigger] table.submitted@[g],
    {
        let mut table = HighScores::new();
        if data.len() < FILE_SIZE {
            return table;
        }
        if data[0] != 0x52 || data[1] != 0x43 || data[2] != 0x53 || data[3] != 0x32 {
            assert(data@.subrange(0, 4)[0] == data@[0]);
            assert(data@.subrange(0, 4)[1] == data@[1]);
            assert(data@.subrange(0, 4)[2] == data@[2]);
            assert(data@.subrange(0, 4)[3] == data@[3]);
            return table;
        }
        assert(data@.subrange(0, 4) =~= magic());
        let mut scores: Vec<Vec<ScoreEntry>> = Vec::new();
        let mut g: usize = 0;
        while g < NUM_GAMES
            invariant
                g <= NUM_GAMES,
                is_score_file(data@),
                scores@.len() == g,
                forall|k: int| 0 <= k < g ==> (#[trigger] scores@[k])@.len() == SCORES_PER_GAME,
                forall|k: int, s: int|
                    0 <= k < g && 0 <= s < SCORES_PER_GAME ==> #[trigger] row_view(scores@[k]@)[s]
                        == loaded_entry(data@, k, s),
                forall|k: int, s: int|
                    0 <= k < g && 0 <= s < SCORES_PER_GAME && valid_utf8(
                        name_bytes_at(data@, entry_offset(k, s)),
                    ) ==> (#[trigger] row_view(scores@[k]@)[s]).name == clean_name(
                        decode_utf8(name_bytes_at(data@, entry_offset(k, s))),
                    ),
            decreases NUM_GAMES - g,
        {
            let mut row: Vec<ScoreEntry> = Vec::new();
            let mut s: usize = 0;
            while s < SCORES_PER_GAME
                invariant
                    s <= SCORES_PER_GAME,
                    g < NUM_GAMES,
                    is_score_file(data@),
                    row@.len() == s,
                    forall|k: int|
                        0 <= k < s ==> #[trigger] row@[k]@ == loaded_entry(data@, g as int, k),
                    forall|k: int|
                        0 <= k < s && valid_utf8(name_bytes_at(data@, entry_offset(g as int, k)))
                            ==> (#[trigger] row@[k]@).name == clean_name(
                            decode_utf8(name_bytes_at(data@, entry_offset(g as int, k))),
                        ),
                decreases SCORES_PER_GAME - s,
            {
                let offset = 4 + (g * SCORES_PER_GAME + s) * ENTRY_SIZE;
                row.push(decode_entry(slice_subrange(data, offset, offset + ENTRY_SIZE)));
                s += 1;
            }
            scores.push(row);
            g += 1;
        }
        table.scores = scores;
        table
    }

    /// The bytes of the score file that holds this table.
    #[verifier::rlimit(50)]
    pub fn to_bytes(&self) -> (bytes: Vec<u8>)
        requires
            self.wf(),
        ensures
            bytes@.len() == FILE_SIZE,
            bytes@.subrange(0, 4) == magic(),
            forall|g: int, s: int|
                0 <= g < NUM_GAMES && 0 <= s < SCORES_PER_GAME ==> #[trigger] bytes@.subrange(
                    entry_offset(g, s),
                    entry_offset(g, s) + ENTRY_SIZE,
                ) == entry_bytes(self.row(g)[s]),
    {
        let mut out: Vec<u8> = Vec::new();
        out.push(0x52);
        out.push(0x43);
        out.push(0x53);
        out.push(0x32);
        assert(out@ =~= magic());
        let mut n: usize = 0;
        while n < NUM_GAMES * SCORES_PER_GAME
            invariant
                n <= NUM_GAMES * SCORES_PER_GAME,
                self.wf(),
                out@.len() == 4 + n * ENTRY_SIZE,
                out@.subrange(0, 4) == magic(),
                forall|k: int|
                    0 <= k < n ==> #[trigger] out@.subrange(
                        4 + k * ENTRY_SIZE,
                        4 + k * ENTRY_SIZE + ENTRY_SIZE,
                    ) == entry_bytes(self.row(k / 3)[k % 3]),
            decreases NUM_GAMES * SCORES_PER_GAME - n,
        {
            let ghost before = out@;
            let entry = &self.scores[n / SCORES_PER_GAME][n % SCORES_PER_GAME];
            encode_entry(entry, &mut out);
            proof {
                let piece = entry_bytes(entry@);
                vstd::bytes::lemma_auto_spec_u32_to_from_le_bytes();
                assert(piece.len() == ENTRY_SIZE);
                assert(out@.subrange(0, 4) =~= before.subrange(0, 4));
                assert(out@.subrange(4 + n * ENTRY_SIZE, 4 + n * ENTRY_SIZE + ENTRY_SIZE) =~= piece);
                assert(self.row(n as int / 3)[n as int % 3] == entry@);
                assert forall|k: int| 0 <= k < n implies #[trigger] out@.subrange(
                    4 + k * ENTRY_SIZE,
                    4 + k * ENTRY_SIZE + ENTRY_SIZE,
                ) == entry_bytes(self.row(k / 3)[k % 3]) by {
                    assert(out@.subrange(4 + k * ENTRY_SIZE, 4 + k * ENTRY_SIZE + ENTRY_SIZE)
                        =~= before.subrange(4 + k * ENTRY_SIZE, 4 + k * ENTRY_SIZE + ENTRY_SIZE));
                }
            }
            n += 1;
        }
        proof {
            assert forall|g: int, s: int|
                0 <= g < NUM_GAMES && 0 <= s < SCORES_PER_GAME implies #[trigger] out@.subrange(
                entry_offset(g, s),
                entry_offset(g, s) + ENTRY_SIZE,
            ) == entry_bytes(self.row(g)[s]) by {
                let k = g * 3 + s;
                assert(k / 3 == g && k % 3 == s);
                assert(entry_offset(g, s) == 4 + k * ENTRY_SIZE);
            }
        }
        out
    }
}

/// `name` followed by `count` zero characters.
pub open spec fn filled_up(name: Seq<char>, count: nat) -> Seq<char> {
    name + Seq::new(count, |i: int| '\0')
}

/// Whether `name` is written to the file and read back without change: it
/// is ASCII, fits its field, and ends neither in a zero character nor in
/// white space.
pub open spec fn keeps_in_file(name: Seq<char>) -> bool {
    &&& name.len() <= NAME_BYTES
    &&& vstd::utf8::is_ascii_chars(name)
    &&& name.len() > 0 ==> name.last() != '\0' && !is_white_space(name.last())
}

proof fn lemma_filling_is_stripped(name: Seq<char>, count: nat)
    ensures
        without_trailing_zeros(filled_up(name, count)) == without_trailing_zeros(name),
    decreases count,
{
    if count == 0 {
        assert(filled_up(name, 0) =~= name);
    } else {
        let full = filled_up(name, count);
        assert(full.last() == '\0');
        assert(full.drop_last() =~= filled_up(name, (count - 1) as nat));
        lemma_filling_is_stripped(name, (count - 1) as nat);
    }
}

/// What is written is read back: the field of a name that keeps in the
/// file is valid UTF-8 and stands for that name, and the bytes of a score
/// stand for that score.
#[verifier::rlimit(50)]
pub proof fn lemma_written_is_read_back(name: Seq<char>, score: u32)
    requires
        keeps_in_file(name),
    ensures
        valid_utf8(name_field(name)),
        clean_name(decode_utf8(name_field(name))) == name,
        spec_u32_to_le_bytes(score).len() == 4,
        spec_u32_from_le_bytes(spec_u32_to_le_bytes(score)) == score,
{
    let count = (NAME_BYTES - name.len()) as nat;
    let full = filled_up(name, count);
    assert(vstd::utf8::is_ascii_chars(full));
    vstd::utf8::is_ascii_chars_encode_utf8(name);
    vstd::utf8::is_ascii_chars_encode_utf8(full);
    assert(name_field(name) =~= encode_utf8(full)) by {
        assert forall|i: int| 0 <= i < NAME_BYTES implies name_field(name)[i] == encode_utf8(
            full,
        )[i] by {
            if i < name.len() {
                assert(full[i] == name[i]);
            } else {
                assert(full[i] == '\0');
            }
        }
    }
    vstd::utf8::encode_utf8_valid_utf8(full);
    vstd::utf8::encode_utf8_decode_utf8(full);
    lemma_filling_is_stripped(name, count);
    vstd::bytes::lemma_auto_spec_u32_to_from_le_bytes();
}

} // verus!
