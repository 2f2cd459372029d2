//! Turning a fetched lyrics page into verses.
//!
//! The page's markup is parsed by `scraper`; the lyrics live in elements
//! whose css class is found by pattern.  The inner markup of those elements
//! is then text with `<br>` markup: double breaks separate verses, single
//! breaks separate lines, and leftover markup is stripped by `regex`.  What
//! the outside crates return is given a name, never restated; everything
//! after their calls is verified against those names.

use vstd::prelude::*;

use crate::song::Song;
use crate::song::Verse;
use crate::song::placeholder_song_view;
use crate::text::spec_split_str;
use crate::text::split_string;

verus! {

#[verifier::external_type_specification]
#[verifier::external_body]
pub struct ExHtml(scraper::Html);

#[verifier::external_type_specification]
#[verifier::external_body]
pub struct ExSelector(scraper::Selector);

#[verifier::external_type_specification]
#[verifier::external_body]
pub struct ExElementRef<'a>(scraper::ElementRef<'a>);

/// What `regex::Regex::find` finds: the leftmost match of the pattern in the
/// text, a function of the two alone; nothing, where the pattern is invalid.
pub uninterp spec fn regex_first_match(pattern: Seq<char>, text: Seq<char>) -> Option<Seq<char>>;

/// Relies on regex::Regex::new and regex::Regex::find for the leftmost match
/// of the pattern in the text; an invalid pattern finds nothing.
#[verifier::external_body]
fn regex_find_first(pattern: &str, text: &str) -> (r: Option<String>)
    ensures
        r.deep_view() == regex_first_match(pattern@, text@),
{
    match regex::Regex::new(pattern) {
        Ok(re) => match re.find(text) {
            Some(m) => Some(m.as_str().to_owned()),
            None => None,
        },
        Err(_) => None,
    }
}

/// What `regex::Regex::replace_all` with the empty replacement returns: the
/// text with every non-overlapping match of the pattern removed, a function
/// of the two alone; the text unchanged, where the pattern is invalid.
pub uninterp spec fn regex_stripped(pattern: Seq<char>, text: Seq<char>) -> Seq<char>;

/// Relies on regex::Regex::new and regex::Regex::replace_all with the empty
/// replacement; an invalid pattern strips nothing.
#[verifier::external_body]
fn regex_strip_all(pattern: &str, text: &str) -> (r: String)
    ensures
        r@ == regex_stripped(pattern@, text@),
{
    match regex::Regex::new(pattern) {
        Ok(re) => re.replace_all(text, "").into_owned(),
        Err(_) => text.to_owned(),
    }
}

/// Relies on scraper::Html::parse_document: parses page markup into a
/// document tree.
#[verifier::external_body]
fn parse_html_document(text: &str) -> scraper::Html {
    scraper::Html::parse_document(text)
}

/// Relies on scraper::Html::html: serializes the document back to markup.
#[verifier::external_body]
fn html_source(document: &scraper::Html) -> String {
    document.html()
}

/// Relies on scraper::Selector::parse, on a class selector built from the
/// given class name; a name that forms no valid selector yields nothing.
#[verifier::external_body]
fn class_selector(class: &str) -> Option<scraper::Selector> {
    scraper::Selector::parse(&format!(".{}", class)).ok()
}

/// Relies on scraper::Html::select: the elements matching the selector, in
/// document order.
#[verifier::external_body]
fn select_elements<'a>(
    document: &'a scraper::Html,
    selector: &scraper::Selector,
) -> Vec<scraper::ElementRef<'a>> {
    document.select(selector).collect()
}

/// Relies on scraper::ElementRef::inner_html: the markup inside the element.
#[verifier::external_body]
fn element_inner_html(element: &scraper::ElementRef<'_>) -> String {
    element.inner_html()
}

/// The pattern of the css class of the lyrics container.
pub open spec fn container_class_pattern() -> Seq<char> {
    "Lyrics__Container([a-zA-Z]|-|\\d)+"@
}

/// The pattern of an ad container: a whole div with its contents.
pub open spec fn div_pattern() -> Seq<char> {
    "<div>.*</div>"@
}

/// The pattern of one leftover tag; the text between tags stays.
pub open spec fn tag_pattern() -> Seq<char> {
    "<.*?>"@
}

/// The pattern of a bracketed annotation.
pub open spec fn blockquote_pattern() -> Seq<char> {
    "\\[.*?\\]"@
}

/// What cleaning one line means: ad containers go first, then leftover tags,
/// then bracketed annotations when asked.
pub open spec fn spec_clean_line(line: Seq<char>, remove_block_quotes: bool) -> Seq<char> {
    let no_divs = regex_stripped(div_pattern(), line);
    let no_tags = regex_stripped(tag_pattern(), no_divs);
    if remove_block_quotes {
        regex_stripped(blockquote_pattern(), no_tags)
    } else {
        no_tags
    }
}

pub open spec fn clean_line_fn(remove_block_quotes: bool) -> spec_fn(Seq<char>) -> Seq<char> {
    |line: Seq<char>| spec_clean_line(line, remove_block_quotes)
}

pub open spec fn nonempty_line_fn() -> spec_fn(Seq<char>) -> bool {
    |line: Seq<char>| line.len() > 0
}

pub open spec fn nonempty_verse_fn() -> spec_fn(Seq<Seq<char>>) -> bool {
    |verse: Seq<Seq<char>>| verse.len() > 0
}

pub open spec fn section_split_fn() -> spec_fn(Seq<char>) -> Seq<Seq<char>> {
    |fragment: Seq<char>| spec_split_str(fragment, "<br><br>"@)
}

pub open spec fn verse_lines_fn(remove_block_quotes: bool) -> spec_fn(Seq<char>) -> Seq<
    Seq<char>,
> {
    |section: Seq<char>| spec_verse_lines(section, remove_block_quotes)
}

/// The lines of one verse section: split at single breaks, each line
/// cleaned, empty lines dropped.
pub open spec fn spec_verse_lines(section: Seq<char>, remove_block_quotes: bool) -> Seq<
    Seq<char>,
> {
    spec_split_str(section, "<br>"@).map_values(clean_line_fn(remove_block_quotes)).filter(
        nonempty_line_fn(),
    )
}

/// The verse sections of the selected fragments: each fragment splits at
/// double breaks, in order.
pub open spec fn spec_verse_sections(fragments: Seq<Seq<char>>) -> Seq<Seq<char>> {
    fragments.map_values(section_split_fn()).flatten()
}

/// What parsing the selected fragments means: every verse section becomes
/// its cleaned lines, and sections with no line left are dropped.
pub open spec fn spec_parse_fragments(fragments: Seq<Seq<char>>, remove_block_quotes: bool) -> Seq<
    Seq<Seq<char>>,
> {
    spec_verse_sections(fragments).map_values(verse_lines_fn(remove_block_quotes)).filter(
        nonempty_verse_fn(),
    )
}

/// Cleans one line of lyrics markup.
fn clean_line(line: &str, remove_block_quotes: bool) -> (r: String)
    ensures
        r@ == spec_clean_line(line@, remove_block_quotes),
{
    let no_divs = regex_strip_all("<div>.*</div>", line);
    let no_tags = regex_strip_all("<.*?>", no_divs.as_str());
    if remove_block_quotes {
        regex_strip_all("\\[.*?\\]", no_tags.as_str())
    } else {
        no_tags
    }
}

/// The cleaned, non-empty lines of one verse section.
fn verse_lines(section: &str, remove_block_quotes: bool) -> (r: Vec<String>)
    ensures
        r.deep_view() == spec_verse_lines(section@, remove_block_quotes),
{
    proof {
        reveal_strlit("<br>");
    }
    let raw = split_string(section, "<br>");
    let ghost rawv = raw.deep_view();
    let ghost cf = clean_line_fn(remove_block_quotes);
    let mut lines: Vec<String> = Vec::new();
    let mut i: usize = 0;
    proof {
        reveal(Seq::filter);
        assert(rawv.take(0).map_values(cf) =~= Seq::<Seq<char>>::empty());
        assert(lines.deep_view() =~= rawv.take(0).map_values(cf).filter(nonempty_line_fn()));
    }
    while i < raw.len()
        invariant
            i <= raw@.len(),
            rawv == raw.deep_view(),
            cf == clean_line_fn(remove_block_quotes),
            lines.deep_view() == rawv.take(i as int).map_values(cf).filter(nonempty_line_fn()),
        decreases raw@.len() - i,
    {
        let ghost m1 = rawv.take(i as int).map_values(cf);
        let ghost pre = lines.deep_view();
        let cleaned = clean_line(raw[i].as_str(), remove_block_quotes);
        proof {
            assert(rawv.take(i + 1) =~= rawv.take(i as int).push(rawv[i as int]));
            assert(rawv.take(i + 1).map_values(cf) =~= m1.push(cf(rawv[i as int])));
            m1.lemma_filter_push(cf(rawv[i as int]), nonempty_line_fn());
            assert(cleaned@ == cf(rawv[i as int]));
        }
        if !cleaned.as_str().is_empty() {
            lines.push(cleaned);
            proof {
                assert(lines.deep_view() =~= pre.push(cf(rawv[i as int])));
            }
        }
        i = i + 1;
    }
    proof {
        assert(rawv.take(rawv.len() as int) =~= rawv);
    }
    lines
}

/// The verse sections of the given fragments, each fragment split at double
/// breaks.
fn collect_sections(fragments: &Vec<String>) -> (r: Vec<String>)
    ensures
        r.deep_view() == spec_verse_sections(fragments.deep_view()),
{
    let ghost fv = fragments.deep_view();
    let mut sections: Vec<String> = Vec::new();
    let mut i: usize = 0;
    proof {
        assert(fv.take(0).map_values(section_split_fn()) =~= Seq::<Seq<Seq<char>>>::empty());
        assert(sections.deep_view() =~= fv.take(0).map_values(section_split_fn()).flatten());
    }
    while i < fragments.len()
        invariant
            i <= fv.len(),
            fv == fragments.deep_view(),
            sections.deep_view() == fv.take(i as int).map_values(section_split_fn()).flatten(),
        decreases fv.len() - i,
    {
        proof {
            reveal_strlit("<br><br>");
        }
        let parts = split_string(fragments[i].as_str(), "<br><br>");
        let ghost base = sections.deep_view();
        let ghost pv = parts.deep_view();
        let mut j: usize = 0;
        proof {
            assert(sections.deep_view() =~= base + pv.take(0));
        }
        while j < parts.len()
            invariant
                j <= pv.len(),
                pv == parts.deep_view(),
                base == fv.take(i as int).map_values(section_split_fn()).flatten(),
                sections.deep_view() == base + pv.take(j as int),
            decreases pv.len() - j,
        {
            let ghost pre = sections.deep_view();
            sections.push(parts[j].clone());
            proof {
                assert(sections.deep_view() =~= pre.push(pv[j as int]));
                assert(sections.deep_view() =~= base + pv.take(j + 1));
            }
            j = j + 1;
        }
        proof {
            let mapped = fv.take(i as int).map_values(section_split_fn());
            assert(fv.take(i + 1).map_values(section_split_fn()) =~= mapped.push(
                section_split_fn()(fv[i as int]),
            ));
            mapped.lemma_flatten_push(section_split_fn()(fv[i as int]));
            assert(pv.take(pv.len() as int) =~= pv);
            assert(pv == section_split_fn()(fv[i as int]));
        }
        i = i + 1;
    }
    proof {
        assert(fv.take(fv.len() as int) =~= fv);
    }
    sections
}

/// Parses the selected lyrics fragments into verses.
pub fn parse_lyrics_fragments(fragments: &Vec<String>, remove_block_quotes: bool) -> (r: Vec<
    Verse,
>)
    ensures
        r.deep_view() == spec_parse_fragments(fragments.deep_view(), remove_block_quotes),
{
    let sections = collect_sections(fragments);
    let ghost sv = sections.deep_view();
    let ghost vf = verse_lines_fn(remove_block_quotes);
    let mut verses: Vec<Verse> = Vec::new();
    let mut i: usize = 0;
    proof {
        reveal(Seq::filter);
        assert(sv.take(0).map_values(vf) =~= Seq::<Seq<Seq<char>>>::empty());
        assert(verses.deep_view() =~= sv.take(0).map_values(vf).filter(nonempty_verse_fn()));
    }
    while i < sections.len()
        invariant
            i <= sv.len(),
            sv == sections.deep_view(),
            vf == verse_lines_fn(remove_block_quotes),
            verses.deep_view() == sv.take(i as int).map_values(vf).filter(nonempty_verse_fn()),
        decreases sv.len() - i,
    {
        let ghost m1 = sv.take(i as int).map_values(vf);
        let ghost pre = verses.deep_view();
        let lines = verse_lines(sections[i].as_str(), remove_block_quotes);
        proof {
            assert(sv.take(i + 1) =~= sv.take(i as int).push(sv[i as int]));
            assert(sv.take(i + 1).map_values(vf) =~= m1.push(vf(sv[i as int])));
            m1.lemma_filter_push(vf(sv[i as int]), nonempty_verse_fn());
            assert(lines.deep_view() == vf(sv[i as int]));
        }
        if lines.len() > 0 {
            let verse = Verse::new(lines);
            verses.push(verse);
            proof {
                assert(verses.deep_view() =~= pre.push(vf(sv[i as int])));
            }
        }
        i = i + 1;
    }
    proof {
        assert(sv.take(sv.len() as int) =~= sv);
    }
    verses
}

/// Every verse the fragment pipeline yields keeps at least one line, and no
/// kept line is empty: both filters guarantee it.
pub proof fn lemma_parse_fragments_wf(fragments: Seq<Seq<char>>, remove_block_quotes: bool)
    ensures
        parsed_verses_wf(spec_parse_fragments(fragments, remove_block_quotes)),
{
    let mapped = spec_verse_sections(fragments).map_values(verse_lines_fn(remove_block_quotes));
    let out = mapped.filter(nonempty_verse_fn());
    assert forall|i: int| 0 <= i < out.len() implies ((#[trigger] out[i]).len() > 0 && (forall|
        j: int,
    |
        0 <= j < out[i].len() ==> (#[trigger] out[i][j]).len() > 0)) by {
        mapped.lemma_filter_pred(nonempty_verse_fn(), i);
        assert(out.contains(out[i]));
        mapped.lemma_filter_contains_rev(nonempty_verse_fn(), out[i]);
        let k = choose|k: int| 0 <= k < mapped.len() && mapped[k] == out[i];
        let section = spec_verse_sections(fragments)[k];
        assert(out[i] == spec_verse_lines(section, remove_block_quotes));
        let inner = spec_split_str(section, "<br>"@).map_values(
            clean_line_fn(remove_block_quotes),
        );
        assert forall|j: int| 0 <= j < out[i].len() implies (#[trigger] out[i][j]).len() > 0 by {
            inner.lemma_filter_pred(nonempty_line_fn(), j);
        }
    }
}

/// Well-formed parsed verses: every verse has a line, and no line is empty.
pub open spec fn parsed_verses_wf(vs: Seq<Seq<Seq<char>>>) -> bool {
    forall|i: int|
        0 <= i < vs.len() ==> ((#[trigger] vs[i]).len() > 0 && (forall|j: int|
            0 <= j < vs[i].len() ==> (#[trigger] vs[i][j]).len() > 0))
}

/// One placeholder verse with no lines, shown when a page holds no lyrics.
fn placeholder_verse_vec() -> (r: Vec<Verse>)
    ensures
        r.deep_view() == placeholder_song_view().verses,
{
    let mut verses: Vec<Verse> = Vec::new();
    verses.push(Verse::new(Vec::new()));
    proof {
        assert(verses.deep_view() =~~= placeholder_song_view().verses);
    }
    verses
}

/// The css class of the lyrics container in the page markup, if the page has
/// one.
pub fn find_container_class(document_text: &str) -> (r: Option<String>)
    ensures
        r.deep_view() == regex_first_match(container_class_pattern(), document_text@),
{
    regex_find_first("Lyrics__Container([a-zA-Z]|-|\\d)+", document_text)
}

/// Parses a fetched lyrics page into verses: the lyrics container's class is
/// found by pattern, the matching elements' contents become verse sections,
/// and the sections become cleaned verses.  A page with no recognizable
/// container, or whose class forms no selector, yields the one placeholder
/// verse.
pub fn parse_song_text(document: &scraper::Html, remove_block_quotes: bool) -> (r: Vec<Verse>)
    ensures
        r.deep_view() == placeholder_song_view().verses || parsed_verses_wf(r.deep_view()),
{
    let source = html_source(document);
    let container_class = find_container_class(source.as_str());
    match container_class {
        None => placeholder_verse_vec(),
        Some(class) => {
            match class_selector(class.as_str()) {
                None => placeholder_verse_vec(),
                Some(selector) => {
                    let elements = select_elements(document, &selector);
                    let mut fragments: Vec<String> = Vec::new();
                    let mut i: usize = 0;
                    while i < elements.len()
                        decreases elements@.len() - i,
                    {
                        fragments.push(element_inner_html(&elements[i]));
                        i = i + 1;
                    }
                    let verses = parse_lyrics_fragments(&fragments, remove_block_quotes);
                    proof {
                        lemma_parse_fragments_wf(fragments.deep_view(), remove_block_quotes);
                    }
                    verses
                },
            }
        },
    }
}

/// Builds the song for a fetched lyrics page: the parsed verses under the
/// given title and author.
pub fn song_from_lyrics_page(page: &str, author: &str, title: &str, remove_block_quotes: bool) -> (r:
    Song)
    ensures
        r@.title == title@,
        r@.author == author@,
        r@.verses == placeholder_song_view().verses || parsed_verses_wf(r@.verses),
{
    let document = parse_html_document(page);
    let verses = parse_song_text(&document, remove_block_quotes);
    Song::new(title, author, verses)
}

} // verus!
