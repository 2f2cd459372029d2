//! Tests for text splitting and song-text parsing.

use songbeam::song::Song;
use songbeam::song::SongAddition;
use songbeam::song::Verse;
use songbeam::song::song_text_to_verses;
use songbeam::text::split_lines;
use songbeam::text::split_string;

fn lines_of(verses: &[Verse]) -> Vec<Vec<String>> {
    verses.iter().map(|v| v.lines.clone()).collect()
}

#[test]
fn split_lines_handles_carriage_returns_and_final_newline() {
    assert_eq!(split_lines("a\r\nb\nc"), vec!["a", "b", "c"]);
    assert_eq!(split_lines("a\n"), vec!["a"]);
    assert_eq!(split_lines(""), Vec::<String>::new());
    assert_eq!(split_lines("a\n\n"), vec!["a", ""]);
    assert_eq!(split_lines("a\n\r"), vec!["a", "\r"]);
    assert_eq!(split_lines("\r\n"), vec![""]);
}

#[test]
fn split_string_keeps_empty_pieces() {
    assert_eq!(split_string("a<br>b<br>", "<br>"), vec!["a", "b", ""]);
    assert_eq!(split_string("x", "<br>"), vec!["x"]);
    assert_eq!(split_string("<br>", "<br>"), vec!["", ""]);
    assert_eq!(split_string("a<br><br><br>b", "<br><br>"), vec!["a", "<br>b"]);
}

#[test]
fn song_text_splits_verses_at_empty_lines() {
    let verses = song_text_to_verses("line1\nline2\n\nverse2line".to_string());
    assert_eq!(
        lines_of(&verses),
        vec![
            vec!["line1".to_string(), "line2".to_string()],
            vec!["verse2line".to_string()],
        ]
    );
}

#[test]
fn song_text_keeps_empty_verses_between_blank_lines() {
    let verses = song_text_to_verses("a\n\n\nb".to_string());
    assert_eq!(
        lines_of(&verses),
        vec![vec!["a".to_string()], Vec::<String>::new(), vec!["b".to_string()]]
    );
}

#[test]
fn empty_song_text_yields_one_empty_verse() {
    let verses = song_text_to_verses(String::new());
    assert_eq!(verses.len(), 1);
    assert!(verses[0].is_empty());
}

#[test]
fn windows_line_endings_parse_like_plain_ones() {
    let verses = song_text_to_verses("a\r\nb\r\n\r\nc".to_string());
    assert_eq!(
        lines_of(&verses),
        vec![vec!["a".to_string(), "b".to_string()], vec!["c".to_string()]]
    );
}

#[test]
fn verse_new_and_is_empty() {
    let v = Verse::new(vec!["x".to_string()]);
    assert!(!v.is_empty());
    assert!(Verse::new(Vec::new()).is_empty());
}

#[test]
fn song_from_addition_parses_its_text() {
    let song = Song::from_song_addition(SongAddition {
        title: "T".to_string(),
        author: "A".to_string(),
        song_text: "one\n\ntwo".to_string(),
    });
    assert_eq!(song.title, "T");
    assert_eq!(song.author, "A");
    assert_eq!(song.num_verses(), 2);
    assert_eq!(song.verses[0].lines, vec!["one".to_string()]);
    assert_eq!(song.verses[1].lines, vec!["two".to_string()]);
}
