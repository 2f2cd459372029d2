//! Scenarios for the display-selection state machine.

use songbeam::display_selection::DisplaySelection;
use songbeam::song::Song;
use songbeam::song::SongList;
use songbeam::song::SongSlot;
use songbeam::song::SongSlotType;
use songbeam::song::Verse;

fn song(title: &str, verse_lines: &[&[&str]]) -> Song {
    let verses: Vec<Verse> = verse_lines
        .iter()
        .map(|lines| Verse::new(lines.iter().map(|l| l.to_string()).collect()))
        .collect();
    Song::new(title, "author", verses)
}

fn catalog(entries: Vec<(u64, Song)>) -> SongList {
    let mut list = SongList::new();
    let slots: Vec<SongSlot> = entries
        .into_iter()
        .map(|(id, song)| SongSlot { id, slot: SongSlotType::Song(song) })
        .collect();
    list.replace_all(slots);
    list
}

fn assert_at(sel: &DisplaySelection, id: u64, pos: usize, verse: usize) {
    assert_eq!(sel.slot_id(), id);
    assert_eq!(sel.slot_position(), pos);
    assert_eq!(sel.verse_num(), verse);
}

#[test]
fn advance_on_single_empty_slot_clamps_to_itself() {
    let list = SongList::new();
    let mut sel = DisplaySelection::new(&list, 0, None);
    assert_at(&sel, 0, 0, 0);
    sel.next(&list);
    assert_at(&sel, 0, 0, 0);
}

#[test]
fn advance_crosses_to_next_slot_then_clamps_at_end() {
    let list = catalog(vec![
        (1, song("A", &[&["a1"], &["a2"]])),
        (2, song("B", &[&["b1"]])),
    ]);
    let mut sel = DisplaySelection::new(&list, 0, Some(1));
    assert_at(&sel, 1, 0, 1);
    sel.next(&list);
    assert_at(&sel, 2, 1, 0);
    assert_eq!(sel.current_song().title, "B");
    sel.next(&list);
    assert_at(&sel, 2, 1, 0);
}

#[test]
fn retreat_at_start_of_first_slot_stays_put() {
    let list = catalog(vec![(1, song("A", &[&["a1"], &["a2"], &["a3"]]))]);
    let mut sel = DisplaySelection::new(&list, 0, Some(0));
    sel.previous(&list);
    assert_at(&sel, 1, 0, 0);
}

#[test]
fn advance_walks_through_whole_song_to_next_slot() {
    let list = catalog(vec![
        (1, song("A", &[&["a1"], &["a2"]])),
        (2, song("B", &[&["b1"], &["b2"]])),
    ]);
    let mut sel = DisplaySelection::new(&list, 0, None);
    sel.next(&list);
    assert_at(&sel, 1, 0, 1);
    sel.next(&list);
    assert_at(&sel, 2, 1, 0);
}

#[test]
fn retreat_right_after_advance_returns_to_prior_verse() {
    let list = catalog(vec![(1, song("A", &[&["a1"], &["a2"], &["a3"]]))]);
    let mut sel = DisplaySelection::new(&list, 0, None);
    sel.next(&list);
    assert_at(&sel, 1, 0, 1);
    sel.previous(&list);
    assert_at(&sel, 1, 0, 0);
}

#[test]
fn retreat_crosses_backward_to_last_verse_of_previous_slot() {
    let list = catalog(vec![
        (1, song("A", &[&["a1"], &["a2"]])),
        (2, song("B", &[&["b1"]])),
    ]);
    let mut sel = DisplaySelection::new(&list, 1, None);
    assert_at(&sel, 2, 1, 0);
    sel.previous(&list);
    assert_at(&sel, 1, 0, 1);
}

#[test]
fn retreat_crossing_into_empty_slot_lands_on_its_single_verse() {
    let mut list = SongList::new();
    let mut next_id: u64 = 1;
    list.append(&mut next_id, song("A", &[&["a1"]]));
    let mut sel = DisplaySelection::new(&list, 1, None);
    sel.previous(&list);
    assert_at(&sel, 0, 0, 0);
    assert_eq!(sel.current_song().title, "Empty Panel");
}

#[test]
fn removed_slot_advance_lands_on_slot_at_cached_position() {
    let list = catalog(vec![
        (1, song("A", &[&["a1"]])),
        (2, song("B", &[&["b1"], &["b2"]])),
    ]);
    let mut sel = DisplaySelection::new(&list, 0, None);
    assert_at(&sel, 1, 0, 0);
    // The selected slot is removed before the next advance.
    let shrunk = catalog(vec![(2, song("B", &[&["b1"], &["b2"]]))]);
    sel.next(&shrunk);
    assert_at(&sel, 2, 0, 0);
}

#[test]
fn removed_slot_advance_clamps_to_end_when_position_is_gone() {
    let list = catalog(vec![
        (1, song("A", &[&["a1"]])),
        (2, song("B", &[&["b1"]])),
    ]);
    let mut sel = DisplaySelection::new(&list, 1, None);
    assert_at(&sel, 2, 1, 0);
    let shrunk = catalog(vec![(1, song("A", &[&["a1"]]))]);
    sel.next(&shrunk);
    assert_at(&sel, 1, 0, 0);
}

#[test]
fn advance_on_empty_catalog_detaches() {
    let mut list = catalog(vec![(1, song("A", &[&["a1"]]))]);
    let mut sel = DisplaySelection::new(&list, 0, None);
    list.replace_all(Vec::new());
    sel.next(&list);
    assert_at(&sel, 0, 0, 0);
    assert_eq!(sel.current_song().title, "Empty Panel");
    assert_eq!(sel.current_verse().lines.len(), 0);
}

#[test]
fn retreat_on_empty_catalog_detaches() {
    let mut list = catalog(vec![(1, song("A", &[&["a1"]]))]);
    let mut sel = DisplaySelection::new(&list, 0, None);
    list.replace_all(Vec::new());
    sel.previous(&list);
    assert_at(&sel, 0, 0, 0);
    assert_eq!(sel.current_song().title, "Empty Panel");
}

#[test]
fn current_verse_reads_the_selected_verse() {
    let list = catalog(vec![(1, song("A", &[&["a1", "a1b"], &["a2"]]))]);
    let mut sel = DisplaySelection::new(&list, 0, None);
    assert_eq!(sel.current_verse().lines, vec!["a1".to_string(), "a1b".to_string()]);
    sel.next(&list);
    assert_eq!(sel.current_verse().lines, vec!["a2".to_string()]);
}

#[test]
fn unwrap_or_song_synthesizes_the_placeholder() {
    let song = DisplaySelection::unwrap_or_song(&SongSlotType::Empty);
    assert_eq!(song.title, "Empty Panel");
    assert_eq!(song.author, "None");
    assert_eq!(song.num_verses(), 1);
    assert!(song.verses[0].lines.is_empty());
}

#[test]
fn verse_numbers_stay_in_bounds_over_many_moves() {
    let list = catalog(vec![
        (1, song("A", &[&["a1"], &["a2"]])),
        (2, song("B", &[&["b1"]])),
        (3, song("C", &[&["c1"], &["c2"], &["c3"]])),
    ]);
    let mut sel = DisplaySelection::new(&list, 0, None);
    for step in 0..12 {
        if step % 3 == 2 {
            sel.previous(&list);
        } else {
            sel.next(&list);
        }
        let shown = sel.current_verse();
        assert!(sel.verse_num() < sel.current_song().num_verses());
        let _ = shown.lines.len();
    }
}
