//! Tests for the slot catalog.

use songbeam::song::Song;
use songbeam::song::SongList;
use songbeam::song::SongSlot;
use songbeam::song::SongSlotType;
use songbeam::song::Verse;

fn one_verse_song(title: &str) -> Song {
    Song::new(title, "author", vec![Verse::new(vec!["line".to_string()])])
}

#[test]
fn a_new_catalog_holds_one_empty_slot_with_id_zero() {
    let list = SongList::new();
    assert_eq!(list.len(), 1);
    let slot = list.get(0).unwrap();
    assert_eq!(slot.id, 0);
    assert!(matches!(slot.slot, SongSlotType::Empty));
    assert_eq!(slot.slot.num_verses(), 0);
}

#[test]
fn append_assigns_fresh_ids_and_advances_the_counter() {
    let mut list = SongList::new();
    let mut next_id: u64 = 1;
    list.append(&mut next_id, one_verse_song("A"));
    list.append(&mut next_id, one_verse_song("B"));
    assert_eq!(next_id, 3);
    assert_eq!(list.len(), 3);
    assert_eq!(list.get(1).unwrap().id, 1);
    assert_eq!(list.get(2).unwrap().id, 2);
    match &list.get(2).unwrap().slot {
        SongSlotType::Song(song) => assert_eq!(song.title, "B"),
        SongSlotType::Empty => panic!("expected a song"),
    }
}

#[test]
fn replace_all_swaps_the_whole_catalog() {
    let mut list = SongList::new();
    list.replace_all(vec![
        SongSlot { id: 5, slot: SongSlotType::Song(one_verse_song("X")) },
        SongSlot { id: 9, slot: SongSlotType::Empty },
    ]);
    assert_eq!(list.len(), 2);
    assert_eq!(list.get(0).unwrap().id, 5);
    assert_eq!(list.get(1).unwrap().id, 9);
    assert!(list.get(2).is_none());
}

#[test]
fn find_position_finds_the_first_slot_with_the_id() {
    let mut list = SongList::new();
    let mut next_id: u64 = 1;
    list.append(&mut next_id, one_verse_song("A"));
    list.append(&mut next_id, one_verse_song("B"));
    assert_eq!(list.find_position(0), Some(0));
    assert_eq!(list.find_position(2), Some(2));
    assert_eq!(list.find_position(7), None);
}

#[test]
fn snapshot_copies_the_catalog() {
    let mut list = SongList::new();
    let mut next_id: u64 = 1;
    list.append(&mut next_id, one_verse_song("A"));
    let copy = list.snapshot();
    assert_eq!(copy.len(), 2);
    assert_eq!(copy.get(1).unwrap().id, 1);
    match &copy.get(1).unwrap().slot {
        SongSlotType::Song(song) => assert_eq!(song.verses[0].lines, vec!["line".to_string()]),
        SongSlotType::Empty => panic!("expected a song"),
    }
}

#[test]
fn find_position_takes_the_first_of_two_equal_ids() {
    let mut list = SongList::new();
    list.replace_all(vec![
        SongSlot { id: 4, slot: SongSlotType::Empty },
        SongSlot { id: 4, slot: SongSlotType::Song(one_verse_song("twin")) },
    ]);
    assert_eq!(list.find_position(4), Some(0));
}

#[test]
fn soundness_check_rejects_songs_without_verses() {
    let mut list = SongList::new();
    assert!(list.is_sound());
    list.replace_all(vec![SongSlot {
        id: 1,
        slot: SongSlotType::Song(Song::new("bad", "author", Vec::new())),
    }]);
    assert!(!list.is_sound());
}
