//! The song data model: verses, songs, slots, and the slot catalog.
//!
//! A catalog (`SongList`) is an ordered list of slots.  Each slot is either
//! empty or holds a song; slots carry a stable numeric id, assigned from a
//! monotone counter and never reused, so that a selection can follow a slot
//! across edits of the list.

use vstd::prelude::*;

use crate::text::spec_lines;
use crate::text::split_lines;

verus! {

/// One verse: an ordered list of text lines.
#[derive(Debug)]
pub struct Verse {
    pub lines: Vec<String>,
}

/// A song: a title, an author, and an ordered list of verses.
#[derive(Debug)]
pub struct Song {
    pub title: String,
    pub author: String,
    pub verses: Vec<Verse>,
}

/// What a slot holds: nothing, or a song.
#[derive(Debug)]
pub enum SongSlotType {
    Empty,
    Song(Song),
}

/// A catalog entry: a stable id together with its contents.
#[derive(Debug)]
pub struct SongSlot {
    pub id: u64,
    pub slot: SongSlotType,
}

/// The catalog: an ordered list of slots.  Order is display order.
#[derive(Debug)]
pub struct SongList {
    pub songs: Vec<SongSlot>,
}

/// Raw material for a new song: the verses still unparsed, as one text.
#[derive(Debug)]
pub struct SongAddition {
    pub title: String,
    pub author: String,
    pub song_text: String,
}

/// Mathematical model of a song.
#[verifier::ext_equal]
pub struct SongView {
    pub title: Seq<char>,
    pub author: Seq<char>,
    pub verses: Seq<Seq<Seq<char>>>,
}

/// Mathematical model of a slot's contents.
#[verifier::ext_equal]
pub enum SongSlotTypeView {
    Empty,
    Song(SongView),
}

/// Mathematical model of a catalog entry.
#[verifier::ext_equal]
pub struct SongSlotView {
    pub id: u64,
    pub slot: SongSlotTypeView,
}

impl View for Verse {
    type V = Seq<Seq<char>>;

    open spec fn view(&self) -> Seq<Seq<char>> {
        self.lines.deep_view()
    }
}

impl DeepView for Verse {
    type V = Seq<Seq<char>>;

    open spec fn deep_view(&self) -> Seq<Seq<char>> {
        self.view()
    }
}

impl View for Song {
    type V = SongView;

    open spec fn view(&self) -> SongView {
        SongView { title: self.title@, author: self.author@, verses: self.verses.deep_view() }
    }
}

impl DeepView for Song {
    type V = SongView;

    open spec fn deep_view(&self) -> SongView {
        self.view()
    }
}

impl View for SongSlotType {
    type V = SongSlotTypeView;

    open spec fn view(&self) -> SongSlotTypeView {
        match self {
            SongSlotType::Empty => SongSlotTypeView::Empty,
            SongSlotType::Song(song) => SongSlotTypeView::Song(song@),
        }
    }
}

impl DeepView for SongSlotType {
    type V = SongSlotTypeView;

    open spec fn deep_view(&self) -> SongSlotTypeView {
        self.view()
    }
}

impl View for SongSlot {
    type V = SongSlotView;

    open spec fn view(&self) -> SongSlotView {
        SongSlotView { id: self.id, slot: self.slot@ }
    }
}

impl DeepView for SongSlot {
    type V = SongSlotView;

    open spec fn deep_view(&self) -> SongSlotView {
        self.view()
    }
}

impl View for SongList {
    type V = Seq<SongSlotView>;

    open spec fn view(&self) -> Seq<SongSlotView> {
        self.songs.deep_view()
    }
}

impl Verse {
    pub fn new(lines: Vec<String>) -> (r: Self)
        ensures
            r@ == lines.deep_view(),
    {
        Self { lines }
    }

    pub fn is_empty(&self) -> (r: bool)
        ensures
            r == (self@.len() == 0),
    {
        self.lines.is_empty()
    }
}

impl Default for Verse {
    /// An empty verse: a valid placeholder with no lines.
    fn default() -> (r: Self)
        ensures
            r@ == Seq::<Seq<char>>::empty(),
    {
        Self { lines: Vec::new() }
    }
}

impl Clone for Verse {
    fn clone(&self) -> (r: Self)
        ensures
            r@ == self@,
    {
        let r = Verse { lines: self.lines.clone() };
        proof {
            assert(r@ =~= self@);
        }
        r
    }
}

impl Song {
    pub fn new(title: &str, author: &str, verses: Vec<Verse>) -> (r: Self)
        ensures
            r@.title == title@,
            r@.author == author@,
            r@.verses == verses.deep_view(),
    {
        Self { title: title.to_owned(), author: author.to_owned(), verses }
    }

    pub fn num_verses(&self) -> (r: usize)
        ensures
            r == self@.verses.len(),
    {
        self.verses.len()
    }

    /// A song with no verses gains one empty placeholder verse, so that a
    /// selection can always land on it; any other song stays as it is.
    pub fn ensure_has_verse(&mut self)
        ensures
            old(self)@.verses.len() > 0 ==> final(self)@ == old(self)@,
            old(self)@.verses.len() == 0 ==> final(self)@.verses
                == placeholder_song_view().verses,
            final(self)@.title == old(self)@.title,
            final(self)@.author == old(self)@.author,
            final(self)@.verses.len() > 0,
    {
        if self.verses.len() == 0 {
            let mut verses: Vec<Verse> = Vec::new();
            verses.push(Verse::new(Vec::new()));
            self.verses = verses;
            proof {
                assert(self.verses.deep_view() =~~= placeholder_song_view().verses);
            }
        }
    }

    /// Builds a song from raw material, parsing the text into verses.
    pub fn from_song_addition(addition: SongAddition) -> (r: Self)
        ensures
            r@.title == addition.title@,
            r@.author == addition.author@,
            r@.verses == spec_song_text_to_verses(addition.song_text@),
            r@.verses.len() >= 1,
    {
        Self {
            title: addition.title,
            author: addition.author,
            verses: song_text_to_verses(addition.song_text),
        }
    }
}

impl Clone for Song {
    fn clone(&self) -> (r: Self)
        ensures
            r@ == self@,
    {
        let r = Song {
            title: self.title.clone(),
            author: self.author.clone(),
            verses: self.verses.clone(),
        };
        proof {
            assert(r.verses.deep_view() =~= self.verses.deep_view());
        }
        r
    }
}

impl SongSlotType {
    /// The number of verses the slot holds; an empty slot holds none.
    pub fn num_verses(&self) -> (r: usize)
        ensures
            r == match self@ {
                SongSlotTypeView::Empty => 0int,
                SongSlotTypeView::Song(song) => song.verses.len() as int,
            },
    {
        match self {
            Self::Empty => 0,
            Self::Song(song) => song.num_verses(),
        }
    }
}

impl Clone for SongSlotType {
    fn clone(&self) -> (r: Self)
        ensures
            r@ == self@,
    {
        match self {
            SongSlotType::Empty => SongSlotType::Empty,
            SongSlotType::Song(song) => SongSlotType::Song(song.clone()),
        }
    }
}

impl Clone for SongSlot {
    fn clone(&self) -> (r: Self)
        ensures
            r@ == self@,
    {
        SongSlot { id: self.id, slot: self.slot.clone() }
    }
}

/// The effective song of a slot: an empty slot navigates as a one-verse
/// placeholder song with a single empty verse.
pub open spec fn placeholder_song_view() -> SongView {
    SongView {
        title: "Empty Panel"@,
        author: "None"@,
        verses: seq![Seq::<Seq<char>>::empty()],
    }
}

pub open spec fn effective_song_view(slot: SongSlotTypeView) -> SongView {
    match slot {
        SongSlotTypeView::Empty => placeholder_song_view(),
        SongSlotTypeView::Song(song) => song,
    }
}

/// Every slot's effective song has at least one verse, so a selection can
/// always land on some verse of it.  Callers that replace the catalog
/// wholesale must keep this; songs built by this crate's parsers always have
/// at least one verse.
pub open spec fn catalog_sound(songs: Seq<SongSlotView>) -> bool {
    forall|i: int|
        0 <= i < songs.len() ==> effective_song_view(#[trigger] songs[i].slot).verses.len() > 0
}

/// No two slots share an id.
pub open spec fn catalog_ids_unique(songs: Seq<SongSlotView>) -> bool {
    forall|i: int, j: int|
        #![trigger songs[i].id, songs[j].id]
        0 <= i < j < songs.len() ==> songs[i].id != songs[j].id
}

/// Every id in the catalog is below `bound`; the id counter keeps this, so a
/// freshly assigned id is never a duplicate.
pub open spec fn catalog_ids_below(songs: Seq<SongSlotView>, bound: u64) -> bool {
    forall|i: int| 0 <= i < songs.len() ==> #[trigger] songs[i].id < bound
}

impl SongList {
    /// The initial catalog: one empty slot with id 0.  The id counter then
    /// starts at 1.
    pub fn new() -> (r: Self)
        ensures
            r@ =~= seq![SongSlotView { id: 0u64, slot: SongSlotTypeView::Empty }],
            catalog_sound(r@),
            catalog_ids_unique(r@),
            catalog_ids_below(r@, 1),
    {
        let songs = vec![SongSlot { id: 0u64, slot: SongSlotType::Empty }];
        let r = SongList { songs };
        proof {
            assert(r@ =~= seq![SongSlotView { id: 0u64, slot: SongSlotTypeView::Empty }]);
        }
        r
    }

    pub fn len(&self) -> (r: usize)
        ensures
            r == self@.len(),
    {
        self.songs.len()
    }

    /// Lookup by position.
    pub fn get(&self, position: usize) -> (r: Option<&SongSlot>)
        ensures
            match r {
                Some(slot) => position < self@.len() && slot@ == self@[position as int],
                None => position >= self@.len(),
            },
    {
        if position < self.songs.len() {
            Some(&self.songs[position])
        } else {
            None
        }
    }

    /// Appends `song` at the end under the next unused id and advances the id
    /// counter.
    pub fn append(&mut self, next_id: &mut u64, song: Song)
        requires
            *old(next_id) < u64::MAX,
            song@.verses.len() > 0,
        ensures
            final(self)@ == old(self)@.push(
                SongSlotView { id: *old(next_id), slot: SongSlotTypeView::Song(song@) },
            ),
            *final(next_id) == *old(next_id) + 1,
            catalog_sound(old(self)@) ==> catalog_sound(final(self)@),
            catalog_ids_below(old(self)@, *old(next_id)) ==> catalog_ids_below(
                final(self)@,
                *final(next_id),
            ),
            catalog_ids_below(old(self)@, *old(next_id)) && catalog_ids_unique(old(self)@)
                ==> catalog_ids_unique(final(self)@),
    {
        let ghost old_list = self@;
        let ghost id = *next_id;
        let ghost song_view = song@;
        self.songs.push(SongSlot { id: *next_id, slot: SongSlotType::Song(song) });
        *next_id = *next_id + 1;
        proof {
            let pushed = SongSlotView { id: id, slot: SongSlotTypeView::Song(song_view) };
            assert(self@ =~= old_list.push(pushed));
        }
    }

    /// Wholesale replacement by an externally edited list.  No validation
    /// happens here: the editor is trusted to keep ids unique, and navigation
    /// demands a sound catalog.
    pub fn replace_all(&mut self, entries: Vec<SongSlot>)
        ensures
            final(self)@ == entries.deep_view(),
    {
        self.songs = entries;
    }

    /// A read-only copy of the catalog for display or external editing.
    pub fn snapshot(&self) -> (r: SongList)
        ensures
            r@ == self@,
    {
        self.clone()
    }

    /// Whether every slot's effective song has at least one verse; navigation
    /// requires this, so callers can test it after a wholesale replacement.
    pub fn is_sound(&self) -> (r: bool)
        ensures
            r == catalog_sound(self@),
    {
        let mut i: usize = 0;
        while i < self.songs.len()
            invariant
                i <= self.songs.len(),
                forall|k: int|
                    0 <= k < i ==> effective_song_view(
                        #[trigger] self@[k].slot,
                    ).verses.len() > 0,
            decreases self.songs.len() - i,
        {
            let ok = match &self.songs[i].slot {
                SongSlotType::Empty => true,
                SongSlotType::Song(song) => song.num_verses() > 0,
            };
            if !ok {
                assert(effective_song_view(self@[i as int].slot).verses.len() == 0);
                return false;
            }
            i = i + 1;
        }
        true
    }

    /// The position of the slot with the given id, if it is still present;
    /// the first such position if ids are not unique.
    pub fn find_position(&self, id: u64) -> (r: Option<usize>)
        ensures
            match r {
                Some(p) => find_index(self@, id) == Some(p as int),
                None => find_index(self@, id) is None,
            },
    {
        let mut i: usize = 0;
        while i < self.songs.len()
            invariant
                i <= self.songs.len(),
                find_index(self@, id) == find_index_from(self@, id, i as int),
            decreases self.songs.len() - i,
        {
            if self.songs[i].id == id {
                return Some(i);
            }
            i = i + 1;
        }
        None
    }
}

impl Clone for SongList {
    fn clone(&self) -> (r: Self)
        ensures
            r@ == self@,
    {
        let mut songs: Vec<SongSlot> = Vec::new();
        let mut i: usize = 0;
        while i < self.songs.len()
            invariant
                i <= self.songs.len(),
                songs.len() == i,
                forall|k: int| 0 <= k < i ==> songs.deep_view()[k] == self@[k],
            decreases self.songs.len() - i,
        {
            let ghost pre = songs.deep_view();
            songs.push(self.songs[i].clone());
            proof {
                assert(forall|k: int| 0 <= k < i ==> songs.deep_view()[k] == pre[k]);
                assert(songs.deep_view()[i as int] == self@[i as int]);
            }
            i = i + 1;
        }
        let r = SongList { songs };
        proof {
            assert(r@ =~= self@);
        }
        r
    }
}

/// The position of the first slot at or after `from` whose id is `id`.
pub open spec fn find_index_from(songs: Seq<SongSlotView>, id: u64, from: int) -> Option<int>
    decreases songs.len() - from,
{
    if from < 0 || from >= songs.len() {
        None
    } else if songs[from].id == id {
        Some(from)
    } else {
        find_index_from(songs, id, from + 1)
    }
}

/// The position of the first slot whose id is `id`, if any.
pub open spec fn find_index(songs: Seq<SongSlotView>, id: u64) -> Option<int> {
    find_index_from(songs, id, 0)
}

/// The position of the first empty line at or after `from`.
pub open spec fn find_empty_line_from(lines: Seq<Seq<char>>, from: int) -> Option<int>
    decreases lines.len() - from,
{
    if from < 0 || from >= lines.len() {
        None
    } else if lines[from].len() == 0 {
        Some(from)
    } else {
        find_empty_line_from(lines, from + 1)
    }
}

pub proof fn lemma_find_empty_line_from_bounds(lines: Seq<Seq<char>>, from: int)
    requires
        0 <= from,
    ensures
        match find_empty_line_from(lines, from) {
            Some(i) => {
                &&& from <= i < lines.len()
                &&& lines[i].len() == 0
                &&& forall|k: int| from <= k < i ==> lines[k].len() != 0
            },
            None => forall|k: int| from <= k < lines.len() ==> lines[k].len() != 0,
        },
    decreases lines.len() - from,
{
    if from < lines.len() && lines[from].len() != 0 {
        lemma_find_empty_line_from_bounds(lines, from + 1);
    }
}

/// Groups lines into verses: each empty line separates two verses, and every
/// group is kept, also an empty one.
pub open spec fn verses_from(lines: Seq<Seq<char>>, from: int) -> Seq<Seq<Seq<char>>>
    decreases lines.len() - from,
    when 0 <= from
    via verses_from_decreases
{
    match find_empty_line_from(lines, from) {
        Some(i) => seq![lines.subrange(from, i)] + verses_from(lines, i + 1),
        None => seq![lines.subrange(from, lines.len() as int)],
    }
}

#[via_fn]
proof fn verses_from_decreases(lines: Seq<Seq<char>>, from: int) {
    lemma_find_empty_line_from_bounds(lines, from);
}

pub open spec fn spec_group_verses(lines: Seq<Seq<char>>) -> Seq<Seq<Seq<char>>> {
    verses_from(lines, 0)
}

/// What parsing a song text means: split it into lines, then group the lines
/// into verses at empty lines.
pub open spec fn spec_song_text_to_verses(s: Seq<char>) -> Seq<Seq<Seq<char>>> {
    spec_group_verses(spec_lines(s))
}

/// The position of the first empty line at or after `from`.
fn find_empty_line(lines: &Vec<String>, from: usize) -> (r: Option<usize>)
    requires
        from <= lines@.len(),
    ensures
        match r {
            Some(i) => from <= i < lines@.len() && find_empty_line_from(
                lines.deep_view(),
                from as int,
            ) == Some(i as int),
            None => find_empty_line_from(lines.deep_view(), from as int) is None,
        },
{
    let mut i: usize = from;
    while i < lines.len()
        invariant
            from <= i <= lines@.len(),
            find_empty_line_from(lines.deep_view(), from as int) == find_empty_line_from(
                lines.deep_view(),
                i as int,
            ),
        decreases lines@.len() - i,
    {
        if lines[i].as_str().is_empty() {
            return Some(i);
        }
        i = i + 1;
    }
    None
}

/// A copy of the lines in `[from, to)`.
fn copy_lines(lines: &Vec<String>, from: usize, to: usize) -> (r: Vec<String>)
    requires
        from <= to <= lines@.len(),
    ensures
        r.deep_view() == lines.deep_view().subrange(from as int, to as int),
{
    let mut r: Vec<String> = Vec::new();
    let mut i: usize = from;
    while i < to
        invariant
            from <= i <= to <= lines@.len(),
            r.deep_view() =~= lines.deep_view().subrange(from as int, i as int),
        decreases to - i,
    {
        let ghost pre = r.deep_view();
        let line = lines[i].clone();
        proof {
            assert(line@ == lines.deep_view()[i as int]);
        }
        r.push(line);
        proof {
            assert(forall|k: int| 0 <= k < pre.len() ==> r.deep_view()[k] == pre[k]);
            assert(r.deep_view()[pre.len() as int] == lines.deep_view()[i as int]);
            assert(r.deep_view() =~= lines.deep_view().subrange(from as int, i + 1));
        }
        i = i + 1;
    }
    r
}

/// Parses a song text into verses: lines are gathered into the current verse,
/// and each empty line closes it and starts the next.  Always yields at least
/// one verse.
pub fn song_text_to_verses(song_text: String) -> (r: Vec<Verse>)
    ensures
        r.deep_view() == spec_song_text_to_verses(song_text@),
        r@.len() >= 1,
{
    let lines = split_lines(song_text.as_str());
    let ghost lv = lines.deep_view();
    let n = lines.len();
    let mut verses: Vec<Verse> = Vec::new();
    let mut start: usize = 0;
    let mut done = false;
    proof {
        assert(verses.deep_view() + verses_from(lv, 0) =~= verses_from(lv, 0));
    }
    while !done
        invariant
            start <= n,
            n == lv.len(),
            lv == lines.deep_view(),
            !done ==> spec_group_verses(lv) == verses.deep_view() + verses_from(lv, start as int),
            done ==> verses.deep_view() == spec_group_verses(lv),
            done ==> verses@.len() >= 1,
        decreases n - start, (if done { 0int } else { 1int }),
    {
        let ghost pre = verses.deep_view();
        match find_empty_line(&lines, start) {
            Some(i) => {
                let verse_lines = copy_lines(&lines, start, i);
                verses.push(Verse::new(verse_lines));
                proof {
                    assert(verses.deep_view() =~= pre.push(lv.subrange(start as int, i as int)));
                    assert(verses.deep_view() + verses_from(lv, i + 1) =~= pre + verses_from(
                        lv,
                        start as int,
                    ));
                }
                start = i + 1;
            },
            None => {
                let verse_lines = copy_lines(&lines, start, n);
                verses.push(Verse::new(verse_lines));
                proof {
                    assert(verses.deep_view() =~= pre.push(lv.subrange(start as int, n as int)));
                    assert(verses.deep_view() =~= pre + verses_from(lv, start as int));
                }
                done = true;
            },
        }
    }
    verses
}

/// What a successful id search means: the id really is there, and nowhere
/// earlier.
pub proof fn lemma_find_index_from_bounds(songs: Seq<SongSlotView>, id: u64, from: int)
    requires
        0 <= from <= songs.len(),
    ensures
        match find_index_from(songs, id, from) {
            Some(i) => {
                &&& from <= i < songs.len()
                &&& songs[i].id == id
                &&& forall|k: int| from <= k < i ==> #[trigger] songs[k].id != id
            },
            None => forall|k: int| from <= k < songs.len() ==> #[trigger] songs[k].id != id,
        },
    decreases songs.len() - from,
{
    if from < songs.len() && songs[from].id != id {
        lemma_find_index_from_bounds(songs, id, from + 1);
    }
}

/// In a catalog with unique ids, searching for the id of slot `p` finds
/// exactly `p`.
pub proof fn lemma_find_index_unique(songs: Seq<SongSlotView>, p: int)
    requires
        catalog_ids_unique(songs),
        0 <= p < songs.len(),
    ensures
        find_index(songs, songs[p].id) == Some(p),
{
    lemma_find_index_from_bounds(songs, songs[p].id, 0);
    match find_index(songs, songs[p].id) {
        Some(i) => {
            if i < p {
                assert(songs[i].id != songs[p].id);
            } else if i > p {
                assert(songs[p].id != songs[p].id);
            }
        },
        None => {
            assert(songs[p].id != songs[p].id);
        },
    }
}

} // verus!
