use rustcade::score_file::{
    decode_entry, is_white_space, trimmed, ENTRY_SIZE, FILE_SIZE, NAME_BYTES,
};
use rustcade::scores::{HighScores, NUM_GAMES, SCORES_PER_GAME};

fn rows(hs: &HighScores) -> Vec<Vec<(String, u32)>> {
    (0..NUM_GAMES).map(|g| hs.top_scores(g).into_iter().map(|e| (e.name, e.score)).collect()).collect()
}

fn empty_rows() -> Vec<Vec<(String, u32)>> {
    vec![vec![(String::new(), 0); SCORES_PER_GAME]; NUM_GAMES]
}

#[test]
fn sizes() {
    assert_eq!(NAME_BYTES, 9);
    assert_eq!(ENTRY_SIZE, 13);
    assert_eq!(FILE_SIZE, 4 + 8 * 3 * 13);
}

#[test]
fn empty_table_as_bytes() {
    let bytes = HighScores::new().to_bytes();
    assert_eq!(bytes.len(), FILE_SIZE);
    assert_eq!(&bytes[0..4], b"RCS2");
    assert!(bytes[4..].iter().all(|b| *b == 0));
}

#[test]
fn lines_stand_game_by_game() {
    let mut hs = HighScores::new();
    hs.submit(0, "ANN", 0x01020304);
    hs.submit(0, "BOB", 5);
    hs.submit(7, "LONGNAMEXYZ", 70_000);
    let bytes = hs.to_bytes();
    assert_eq!(bytes.len(), FILE_SIZE);
    assert_eq!(&bytes[4..17], b"ANN\0\0\0\0\0\0\x04\x03\x02\x01");
    assert_eq!(&bytes[17..30], b"BOB\0\0\0\0\0\0\x05\0\0\0");
    assert_eq!(&bytes[30..43], &[0u8; 13]);
    let last_game = 4 + 7 * 3 * 13;
    assert_eq!(&bytes[last_game..last_game + 13], b"LONGNAMEX\x70\x11\x01\0");
}

#[test]
fn what_is_written_is_read_back() {
    let mut hs = HighScores::new();
    hs.submit(0, "ANN", 300);
    hs.submit(0, "BOB", 500);
    hs.submit(3, "C D", 1);
    hs.submit(6, "???", u32::MAX);
    hs.submit(7, "NINECHARS", 9);
    hs.mark_submitted(2);
    let back = HighScores::load(&hs.to_bytes());
    assert_eq!(rows(&back), rows(&hs));
    assert_eq!(rows(&back)[0][0], ("BOB".to_string(), 500));
    assert_eq!(rows(&back)[6][0], ("???".to_string(), u32::MAX));
    // What has been handed in is not kept in the file.
    assert!(!back.was_submitted(2));
    assert_eq!(back.to_bytes(), hs.to_bytes());
}

#[test]
fn what_is_no_score_file_gives_the_empty_table() {
    assert_eq!(rows(&HighScores::load(&[])), empty_rows());
    assert_eq!(rows(&HighScores::load(b"RCS2")), empty_rows());
    let mut hs = HighScores::new();
    hs.submit(0, "ANN", 300);
    let good = hs.to_bytes();
    assert_eq!(rows(&HighScores::load(&good[..FILE_SIZE - 1])), empty_rows());
    let mut bad = good.clone();
    bad[3] = b'1';
    assert_eq!(rows(&HighScores::load(&bad)), empty_rows());
    let mut bad = good.clone();
    bad[0] = b'r';
    assert_eq!(rows(&HighScores::load(&bad)), empty_rows());
    // Bytes behind the table are ignored.
    let mut long = good.clone();
    long.extend_from_slice(b"more");
    assert_eq!(rows(&HighScores::load(&long)), rows(&hs));
}

#[test]
fn names_lose_their_filling_and_trailing_space() {
    let mut data = HighScores::new().to_bytes();
    data[4..13].copy_from_slice(b"AB \0\0\0\0\0\0");
    data[13..17].copy_from_slice(&7u32.to_le_bytes());
    data[17..26].copy_from_slice(b" C\0D\t \0\0\0");
    data[26..30].copy_from_slice(&6u32.to_le_bytes());
    data[30..39].copy_from_slice(b"\0\0\0\0\0\0\0\0 ");
    let hs = HighScores::load(&data);
    let r = &rows(&hs)[0];
    assert_eq!(r[0], ("AB".to_string(), 7));
    assert_eq!(r[1], (" C\0D".to_string(), 6));
    assert_eq!(r[2], ("\0\0\0\0\0\0\0\0".to_string(), 0));
}

#[test]
fn bytes_that_are_no_text_are_replaced() {
    let mut data = HighScores::new().to_bytes();
    data[4..13].copy_from_slice(b"A\xffB\0\0\0\0\0\0");
    // A name of more than nine bytes is cut, perhaps within a character.
    let mut hs = HighScores::load(&data);
    assert_eq!(rows(&hs)[0][0], ("A\u{fffd}B".to_string(), 0));
    hs.submit(1, "ääääääää", 5);
    let bytes = hs.to_bytes();
    let game = 4 + 3 * 13;
    assert_eq!(&bytes[game..game + 9], &"ääääääää".as_bytes()[..9]);
    let back = HighScores::load(&bytes);
    assert_eq!(rows(&back)[1][0], ("ääää\u{fffd}".to_string(), 5));
}

#[test]
fn white_space() {
    for c in [' ', '\t', '\n', '\r', '\u{0b}', '\u{0c}', '\u{85}', '\u{a0}', '\u{1680}', '\u{2000}', '\u{200a}', '\u{2028}', '\u{2029}', '\u{202f}', '\u{205f}', '\u{3000}'] {
        assert!(is_white_space(c));
    }
    for c in ['a', '\0', '\u{200b}', '\u{08}', '\u{0e}', '_', '\u{feff}'] {
        assert!(!is_white_space(c));
    }
    // The same characters as the standard library calls white space.
    for u in 0..0x11_0000u32 {
        if let Some(c) = char::from_u32(u) {
            assert_eq!(is_white_space(c), c.is_whitespace(), "U+{:04X}", u);
        }
    }
}

#[test]
fn trimming_takes_zeros_and_then_white_space_from_the_end() {
    assert_eq!(trimmed("ABC\0\0\0\0\0\0"), "ABC");
    assert_eq!(trimmed("ABC"), "ABC");
    assert_eq!(trimmed("AB  \0\0"), "AB");
    assert_eq!(trimmed("A B\t\n \u{a0}\u{3000}"), "A B");
    assert_eq!(trimmed(""), "");
    assert_eq!(trimmed("\0\0\0"), "");
    assert_eq!(trimmed("  \0"), "");
    // What stands before the name stays, and so does a zero inside it.
    assert_eq!(trimmed(" A\0B \0"), " A\0B");
    // Zeros are taken first, and once: behind white space they stay.
    assert_eq!(trimmed("A\0 "), "A\0");
    assert_eq!(trimmed("\u{e9}t\u{e9}\0"), "\u{e9}t\u{e9}");
}

#[test]
fn a_line_is_a_name_and_a_score() {
    let e = decode_entry(b"ZOE \0\0\0\0\0\x39\x30\0\0");
    assert_eq!((e.name.as_str(), e.score), ("ZOE", 12_345));
    let e = decode_entry(&[0u8; 13]);
    assert_eq!((e.name.as_str(), e.score), ("", 0));
    let e = decode_entry(b"ABCDEFGHI\xff\xff\xff\xff");
    assert_eq!((e.name.as_str(), e.score), ("ABCDEFGHI", u32::MAX));
}
