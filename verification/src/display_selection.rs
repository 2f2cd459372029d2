//! The display selection: a cursor over the catalog that tracks which verse
//! of which slot is currently shown.
//!
//! The cursor follows a slot by its id, not by its position: on every move
//! across a slot boundary it searches the catalog for the id again, so the
//! selection survives edits of the list.  The selected song is a snapshot
//! taken when the cursor lands on a slot; only slot existence and position
//! are resynchronized on the next move.

use vstd::prelude::*;

use crate::song::Song;
use crate::song::SongList;
use crate::song::SongSlotType;
use crate::song::SongSlotView;
use crate::song::SongView;
use crate::song::Verse;
use crate::song::catalog_ids_unique;
use crate::song::catalog_sound;
use crate::song::effective_song_view;
use crate::song::find_index;
use crate::song::lemma_find_index_from_bounds;
use crate::song::lemma_find_index_unique;
use crate::song::placeholder_song_view;

verus! {

/// Mathematical model of a selection.
#[verifier::ext_equal]
pub struct SelectionView {
    pub slot_id: u64,
    pub slot_position: nat,
    pub verse_num: nat,
    pub song: SongView,
}

/// The selected verse always exists in the snapshot song.
pub open spec fn selection_wf(s: SelectionView) -> bool {
    s.verse_num < s.song.verses.len()
}

/// The selection used when the catalog is empty: a detached placeholder at
/// id 0, position 0, verse 0.
pub open spec fn detached_selection() -> SelectionView {
    SelectionView { slot_id: 0, slot_position: 0, verse_num: 0, song: placeholder_song_view() }
}

/// Landing on slot `pos` at verse `verse`: the slot's effective song is
/// snapshotted and id and position are resynchronized.
pub open spec fn landed(songs: Seq<SongSlotView>, pos: int, verse: nat) -> SelectionView {
    SelectionView {
        slot_id: songs[pos].id,
        slot_position: pos as nat,
        verse_num: verse,
        song: effective_song_view(songs[pos].slot),
    }
}

/// The index of the last verse of a song.
pub open spec fn last_verse_of(song: SongView) -> nat {
    (song.verses.len() - 1) as nat
}

/// What advancing to the next verse does.  Within the snapshot song the verse
/// number just increments.  At the last verse the cursor moves one slot
/// forward from wherever the slot's id is found now; if the id is gone, the
/// cached position itself is the target, so the slot that slid into that
/// position is selected.  Past the end the cursor clamps to the last slot at
/// verse 0, and on an empty catalog it detaches.
pub open spec fn spec_next(songs: Seq<SongSlotView>, s: SelectionView) -> SelectionView {
    if s.verse_num + 1 < s.song.verses.len() {
        SelectionView { verse_num: s.verse_num + 1, ..s }
    } else {
        let target = match find_index(songs, s.slot_id) {
            Some(p) => p + 1,
            None => s.slot_position as int,
        };
        if target < songs.len() {
            landed(songs, target, 0)
        } else if songs.len() > 0 {
            landed(songs, songs.len() - 1, 0)
        } else {
            detached_selection()
        }
    }
}

/// What retreating to the previous verse does.  Within the snapshot song the
/// verse number just decrements.  At verse 0 the cursor moves one slot
/// backward and lands on the last verse there, since "previous" from the
/// start of a song means the end of the one before; from the first slot it
/// stays put rather than wrapping around.  If the id is gone, the cached
/// position is the target; past the end the cursor clamps to the last slot,
/// and on an empty catalog it detaches.
pub open spec fn spec_prev(songs: Seq<SongSlotView>, s: SelectionView) -> SelectionView {
    if s.verse_num > 0 {
        SelectionView { verse_num: (s.verse_num - 1) as nat, ..s }
    } else {
        match find_index(songs, s.slot_id) {
            Some(p) => {
                if p == 0 {
                    s
                } else {
                    landed(songs, p - 1, last_verse_of(effective_song_view(songs[p - 1].slot)))
                }
            },
            None => {
                let target = s.slot_position as int;
                if target < songs.len() {
                    landed(songs, target, last_verse_of(effective_song_view(songs[target].slot)))
                } else if songs.len() > 0 {
                    landed(songs, songs.len() - 1, 0)
                } else {
                    detached_selection()
                }
            },
        }
    }
}

/// The cursor: which slot, by id and by last known position, and which verse
/// of the snapshot song.
#[derive(Debug)]
pub struct DisplaySelection {
    slot_id: u64,
    slot_position: usize,
    verse_num: usize,
    song: Song,
}

impl View for DisplaySelection {
    type V = SelectionView;

    closed spec fn view(&self) -> SelectionView {
        SelectionView {
            slot_id: self.slot_id,
            slot_position: self.slot_position as nat,
            verse_num: self.verse_num as nat,
            song: self.song@,
        }
    }
}

impl Clone for DisplaySelection {
    fn clone(&self) -> (r: Self)
        ensures
            r@ == self@,
    {
        DisplaySelection {
            slot_id: self.slot_id,
            slot_position: self.slot_position,
            verse_num: self.verse_num,
            song: self.song.clone(),
        }
    }
}

impl DisplaySelection {
    /// Builds the cursor at `song_position`, at the given verse or at verse 0.
    /// Callers must address an existing slot and an existing verse of its
    /// effective song; an out-of-range verse is a caller bug, not a
    /// recoverable state.
    pub fn new(song_list: &SongList, song_position: usize, verse_num: Option<usize>) -> (r: Self)
        requires
            song_position < song_list@.len(),
            (match verse_num {
                Some(v) => v < effective_song_view(
                    song_list@[song_position as int].slot,
                ).verses.len(),
                None => effective_song_view(song_list@[song_position as int].slot).verses.len()
                    > 0,
            }),
        ensures
            r@ == (SelectionView {
                slot_id: song_list@[song_position as int].id,
                slot_position: song_position as nat,
                verse_num: match verse_num {
                    Some(v) => v as nat,
                    None => 0nat,
                },
                song: effective_song_view(song_list@[song_position as int].slot),
            }),
            selection_wf(r@),
    {
        let verse_num = match verse_num {
            Some(v) => v,
            None => 0,
        };
        let song_slot = &song_list.songs[song_position];
        let slot_id = song_slot.id;
        let song = Self::unwrap_or_song(&song_slot.slot);
        Self { slot_id, slot_position: song_position, verse_num, song }
    }

    /// The verse currently shown.  Never out of bounds: the selection keeps
    /// `verse_num` below the verse count of its snapshot song.
    pub fn current_verse(&self) -> (r: &Verse)
        requires
            selection_wf(self@),
        ensures
            r@ == self@.song.verses[self@.verse_num as int],
    {
        &self.song.verses[self.verse_num]
    }

    pub fn slot_id(&self) -> (r: u64)
        ensures
            r == self@.slot_id,
    {
        self.slot_id
    }

    pub fn slot_position(&self) -> (r: usize)
        ensures
            r == self@.slot_position,
    {
        self.slot_position
    }

    pub fn verse_num(&self) -> (r: usize)
        ensures
            r == self@.verse_num,
    {
        self.verse_num
    }

    /// The snapshot song the cursor currently reads from.
    pub fn current_song(&self) -> (r: &Song)
        ensures
            r@ == self@.song,
    {
        &self.song
    }

    /// Moves to the previous verse, reading the catalog to resynchronize when
    /// crossing a slot boundary backward.
    pub fn previous(&mut self, song_list: &SongList)
        requires
            selection_wf(old(self)@),
            catalog_sound(song_list@),
        ensures
            final(self)@ == spec_prev(song_list@, old(self)@),
            selection_wf(final(self)@),
    {
        if self.verse_num > 0 {
            self.verse_num = self.verse_num - 1;
        } else {
            let current_position = song_list.find_position(self.slot_id);
            proof {
                lemma_find_index_from_bounds(song_list@, self.slot_id, 0);
            }
            match current_position {
                Some(p) => {
                    if p > 0 {
                        let new_position = p - 1;
                        let prev_slot = &song_list.songs[new_position];
                        proof {
                            assert(effective_song_view(
                                song_list@[new_position as int].slot,
                            ).verses.len() > 0);
                        }
                        let verse_num = match &prev_slot.slot {
                            SongSlotType::Empty => 0,
                            SongSlotType::Song(song) => song.num_verses() - 1,
                        };
                        self.slot_id = prev_slot.id;
                        self.slot_position = new_position;
                        self.verse_num = verse_num;
                        self.song = Self::unwrap_or_song(&prev_slot.slot);
                    }
                    // At the very first slot there is no previous verse: the
                    // cursor clamps to the start instead of wrapping around.
                },
                None => {
                    let new_position = self.slot_position;
                    if new_position < song_list.songs.len() {
                        let prev_slot = &song_list.songs[new_position];
                        proof {
                            assert(effective_song_view(
                                song_list@[new_position as int].slot,
                            ).verses.len() > 0);
                        }
                        let verse_num = match &prev_slot.slot {
                            SongSlotType::Empty => 0,
                            SongSlotType::Song(song) => song.num_verses() - 1,
                        };
                        self.slot_id = prev_slot.id;
                        self.slot_position = new_position;
                        self.verse_num = verse_num;
                        self.song = Self::unwrap_or_song(&prev_slot.slot);
                    } else if song_list.songs.len() > 0 {
                        let last_position = song_list.songs.len() - 1;
                        let last_slot = &song_list.songs[last_position];
                        proof {
                            assert(effective_song_view(
                                song_list@[last_position as int].slot,
                            ).verses.len() > 0);
                        }
                        self.slot_id = last_slot.id;
                        self.slot_position = last_position;
                        self.verse_num = 0;
                        self.song = Self::unwrap_or_song(&last_slot.slot);
                    } else {
                        self.slot_id = 0;
                        self.slot_position = 0;
                        self.verse_num = 0;
                        self.song = Self::unwrap_or_song(&SongSlotType::Empty);
                    }
                },
            }
        }
    }

    /// Moves to the next verse, reading the catalog to resynchronize when
    /// crossing a slot boundary forward.
    pub fn next(&mut self, song_list: &SongList)
        requires
            selection_wf(old(self)@),
            catalog_sound(song_list@),
        ensures
            final(self)@ == spec_next(song_list@, old(self)@),
            selection_wf(final(self)@),
    {
        if self.verse_num < self.song.verses.len() - 1 {
            // The next verse of the same song is there: go to it.
            self.verse_num = self.verse_num + 1;
        } else {
            // Go to the next slot.  If the slot was removed, the slot now at
            // the cached position is the target.
            let catalog_len = song_list.songs.len();
            let current_position = song_list.find_position(self.slot_id);
            proof {
                lemma_find_index_from_bounds(song_list@, self.slot_id, 0);
            }
            let new_position = match current_position {
                Some(p) => p + 1,
                None => self.slot_position,
            };
            if new_position < catalog_len {
                let next_slot = &song_list.songs[new_position];
                proof {
                    assert(effective_song_view(
                        song_list@[new_position as int].slot,
                    ).verses.len() > 0);
                }
                self.slot_id = next_slot.id;
                self.slot_position = new_position;
                self.verse_num = 0;
                self.song = Self::unwrap_or_song(&next_slot.slot);
            } else if catalog_len > 0 {
                // Past the end: clamp to the last slot.
                let last_position = catalog_len - 1;
                let last_slot = &song_list.songs[last_position];
                proof {
                    assert(effective_song_view(
                        song_list@[last_position as int].slot,
                    ).verses.len() > 0);
                }
                self.slot_id = last_slot.id;
                self.slot_position = last_position;
                self.verse_num = 0;
                self.song = Self::unwrap_or_song(&last_slot.slot);
            } else {
                // Empty catalog: detach onto the placeholder.
                self.slot_id = 0;
                self.slot_position = 0;
                self.verse_num = 0;
                self.song = Self::unwrap_or_song(&SongSlotType::Empty);
            }
        }
    }

    /// The effective song of a slot: an empty slot shows as a one-verse
    /// placeholder.
    pub fn unwrap_or_song(slot_type: &SongSlotType) -> (r: Song)
        ensures
            r@ == effective_song_view(slot_type@),
    {
        match slot_type {
            SongSlotType::Empty => {
                let mut verses: Vec<Verse> = Vec::new();
                verses.push(Verse::new(Vec::new()));
                let song = Song::new("Empty Panel", "None", verses);
                proof {
                    assert(song@.verses =~~= placeholder_song_view().verses);
                    assert(song@ =~~= placeholder_song_view());
                }
                song
            },
            SongSlotType::Song(song) => song.clone(),
        }
    }
}

/// The selection after `k` consecutive advances.
pub open spec fn advance_n(songs: Seq<SongSlotView>, s: SelectionView, k: nat) -> SelectionView
    decreases k,
{
    if k == 0 {
        s
    } else {
        advance_n(songs, spec_next(songs, s), (k - 1) as nat)
    }
}

/// The selection agrees with the catalog: ids are unique, the selected id
/// stands at the cached position, and the snapshot is that slot's effective
/// song.  This is what holds right after the cursor lands on a slot of an
/// unedited catalog.
pub open spec fn selection_synced(songs: Seq<SongSlotView>, s: SelectionView) -> bool {
    &&& catalog_ids_unique(songs)
    &&& s.slot_position < songs.len()
    &&& songs[s.slot_position as int].id == s.slot_id
    &&& s.song == effective_song_view(songs[s.slot_position as int].slot)
}

/// One advance keeps the selected verse inside the snapshot song, on any
/// sound catalog.
pub proof fn lemma_next_keeps_wf(songs: Seq<SongSlotView>, s: SelectionView)
    requires
        catalog_sound(songs),
        selection_wf(s),
    ensures
        selection_wf(spec_next(songs, s)),
{
    lemma_find_index_from_bounds(songs, s.slot_id, 0);
}

/// One retreat keeps the selected verse inside the snapshot song, on any
/// sound catalog.
pub proof fn lemma_prev_keeps_wf(songs: Seq<SongSlotView>, s: SelectionView)
    requires
        catalog_sound(songs),
        selection_wf(s),
    ensures
        selection_wf(spec_prev(songs, s)),
{
    lemma_find_index_from_bounds(songs, s.slot_id, 0);
}

/// The selected verse never leaves its song, however many advances run on a
/// sound catalog: `current_verse` can always be read.
pub proof fn lemma_advance_n_keeps_wf(songs: Seq<SongSlotView>, s: SelectionView, k: nat)
    requires
        catalog_sound(songs),
        selection_wf(s),
    ensures
        selection_wf(advance_n(songs, s, k)),
    decreases k,
{
    if k > 0 {
        lemma_next_keeps_wf(songs, s);
        lemma_advance_n_keeps_wf(songs, spec_next(songs, s), (k - 1) as nat);
    }
}

/// Advancing through the rest of the selected song, verse by verse, lands at
/// verse 0 of the next slot; from the last slot it clamps there at verse 0.
pub proof fn lemma_advance_through_song(songs: Seq<SongSlotView>, s: SelectionView, k: nat)
    requires
        catalog_sound(songs),
        selection_wf(s),
        selection_synced(songs, s),
        k == s.song.verses.len() - s.verse_num,
    ensures
        advance_n(songs, s, k) == (if s.slot_position + 1 < songs.len() {
            landed(songs, s.slot_position as int + 1, 0)
        } else {
            landed(songs, songs.len() - 1, 0)
        }),
    decreases k,
{
    lemma_find_index_unique(songs, s.slot_position as int);
    if k == 1 {
        let next = spec_next(songs, s);
        assert(advance_n(songs, next, 0) == next);
    } else {
        let next = spec_next(songs, s);
        assert(next == (SelectionView { verse_num: s.verse_num + 1, ..s }));
        lemma_advance_through_song(songs, next, (k - 1) as nat);
    }
}

/// Retreating right after advancing within a song returns the exact prior
/// selection: same slot id, same verse.
pub proof fn lemma_retreat_after_advance(songs: Seq<SongSlotView>, s: SelectionView)
    requires
        selection_wf(s),
        s.verse_num + 1 < s.song.verses.len(),
    ensures
        spec_prev(songs, spec_next(songs, s)) == s,
{
    let next = spec_next(songs, s);
    assert(next.verse_num == s.verse_num + 1);
    assert(spec_prev(songs, next) =~= s);
}

/// When the selected slot was removed, advancing from its last verse lands on
/// whatever slot now occupies the cached position, or on the end of the
/// catalog; the id it selects exists in the catalog.
pub proof fn lemma_advance_after_removal(songs: Seq<SongSlotView>, s: SelectionView)
    requires
        catalog_sound(songs),
        selection_wf(s),
        find_index(songs, s.slot_id) is None,
        s.verse_num + 1 == s.song.verses.len(),
        songs.len() > 0,
    ensures
        spec_next(songs, s) == (if (s.slot_position as int) < songs.len() {
            landed(songs, s.slot_position as int, 0)
        } else {
            landed(songs, songs.len() - 1, 0)
        }),
        spec_next(songs, s).slot_position < songs.len(),
        songs[spec_next(songs, s).slot_position as int].id == spec_next(songs, s).slot_id,
        find_index(songs, spec_next(songs, s).slot_id) is Some,
{
    let r = spec_next(songs, s);
    lemma_find_index_from_bounds(songs, r.slot_id, 0);
    if find_index(songs, r.slot_id) is None {
        assert(songs[r.slot_position as int].id != r.slot_id);
    }
}

} // verus!
