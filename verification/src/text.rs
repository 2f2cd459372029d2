//! Verified text splitting: line splitting with carriage-return handling, and
//! splitting on a multi-character separator, as lyrics markup needs.

use vstd::prelude::*;
use vstd::string::StrSliceExecFns;

verus! {

/// The position of the first occurrence of `c` at or after `from`.
pub open spec fn find_char_from(s: Seq<char>, c: char, from: int) -> Option<int>
    decreases s.len() - from,
{
    if from < 0 || from >= s.len() {
        None
    } else if s[from] == c {
        Some(from)
    } else {
        find_char_from(s, c, from + 1)
    }
}

pub proof fn lemma_find_char_from_bounds(s: Seq<char>, c: char, from: int)
    requires
        0 <= from,
    ensures
        match find_char_from(s, c, from) {
            Some(i) => {
                &&& from <= i < s.len()
                &&& s[i] == c
                &&& forall|k: int| from <= k < i ==> s[k] != c
            },
            None => forall|k: int| from <= k < s.len() ==> s[k] != c,
        },
    decreases s.len() - from,
{
    if from < s.len() && s[from] != c {
        lemma_find_char_from_bounds(s, c, from + 1);
    }
}

/// A line separator eats one trailing carriage return before the newline.
pub open spec fn strip_carriage(line: Seq<char>) -> Seq<char> {
    if line.len() > 0 && line.last() == '\r' {
        line.drop_last()
    } else {
        line
    }
}

/// The lines of `s[from..]`: pieces between newlines, each with one carriage
/// return before the newline removed, and with no final empty line when the
/// text ends in a newline.
pub open spec fn lines_from(s: Seq<char>, from: int) -> Seq<Seq<char>>
    decreases s.len() - from,
    when 0 <= from
    via lines_from_decreases
{
    if from >= s.len() {
        Seq::empty()
    } else {
        match find_char_from(s, '\n', from) {
            Some(i) => seq![strip_carriage(s.subrange(from, i))] + lines_from(s, i + 1),
            None => seq![s.subrange(from, s.len() as int)],
        }
    }
}

#[via_fn]
proof fn lines_from_decreases(s: Seq<char>, from: int) {
    lemma_find_char_from_bounds(s, '\n', from);
}

pub open spec fn spec_lines(s: Seq<char>) -> Seq<Seq<char>> {
    lines_from(s, 0)
}

/// Whether `sep` occurs in `s` starting at position `i`.
pub open spec fn is_match_at(s: Seq<char>, sep: Seq<char>, i: int) -> bool {
    &&& 0 <= i
    &&& i + sep.len() <= s.len()
    &&& s.subrange(i, i + sep.len()) == sep
}

/// The position of the first occurrence of `sep` at or after `from`.
pub open spec fn find_sub_from(s: Seq<char>, sep: Seq<char>, from: int) -> Option<int>
    decreases s.len() - from,
    when sep.len() > 0
{
    if from < 0 || from + sep.len() > s.len() {
        None
    } else if is_match_at(s, sep, from) {
        Some(from)
    } else {
        find_sub_from(s, sep, from + 1)
    }
}

pub proof fn lemma_find_sub_from_bounds(s: Seq<char>, sep: Seq<char>, from: int)
    requires
        0 <= from,
        sep.len() > 0,
    ensures
        match find_sub_from(s, sep, from) {
            Some(i) => {
                &&& from <= i
                &&& i + sep.len() <= s.len()
                &&& is_match_at(s, sep, i)
                &&& forall|k: int| from <= k < i ==> !is_match_at(s, sep, k)
            },
            None => forall|k: int| from <= k ==> !is_match_at(s, sep, k),
        },
    decreases s.len() - from,
{
    if from + sep.len() <= s.len() && !is_match_at(s, sep, from) {
        lemma_find_sub_from_bounds(s, sep, from + 1);
    }
}

/// The pieces of `s[from..]` between non-overlapping occurrences of `sep`,
/// scanned left to right; every piece is kept, also empty ones.
pub open spec fn split_parts(s: Seq<char>, sep: Seq<char>, from: int) -> Seq<Seq<char>>
    decreases s.len() - from,
    when 0 <= from && sep.len() > 0
    via split_parts_decreases
{
    match find_sub_from(s, sep, from) {
        Some(i) => seq![s.subrange(from, i)] + split_parts(s, sep, i + sep.len()),
        None => seq![s.subrange(from, s.len() as int)],
    }
}

#[via_fn]
proof fn split_parts_decreases(s: Seq<char>, sep: Seq<char>, from: int) {
    lemma_find_sub_from_bounds(s, sep, from);
}

pub open spec fn spec_split_str(s: Seq<char>, sep: Seq<char>) -> Seq<Seq<char>> {
    split_parts(s, sep, 0)
}

/// The first position of `c` in `text` at or after `from`.
fn find_char(text: &str, c: char, from: usize) -> (r: Option<usize>)
    requires
        from <= text@.len(),
    ensures
        match r {
            Some(i) => from <= i < text@.len() && find_char_from(text@, c, from as int) == Some(
                i as int,
            ),
            None => find_char_from(text@, c, from as int) is None,
        },
{
    let n = text.unicode_len();
    let mut i: usize = from;
    while i < n
        invariant
            from <= i <= n,
            n == text@.len(),
            find_char_from(text@, c, from as int) == find_char_from(text@, c, i as int),
        decreases n - i,
    {
        if text.get_char(i) == c {
            return Some(i);
        }
        i = i + 1;
    }
    None
}

/// Whether `sep` occurs in `text` starting at `i`.
fn match_at(text: &str, sep: &str, i: usize) -> (r: bool)
    requires
        i + sep@.len() <= text@.len(),
        i + sep@.len() <= usize::MAX,
    ensures
        r == is_match_at(text@, sep@, i as int),
{
    let m = sep.unicode_len();
    let mut j: usize = 0;
    while j < m
        invariant
            j <= m,
            m == sep@.len(),
            i + m <= text@.len(),
            i + m <= usize::MAX,
            forall|k: int| 0 <= k < j ==> text@[i + k] == sep@[k],
        decreases m - j,
    {
        if text.get_char(i + j) != sep.get_char(j) {
            assert(text@.subrange(i as int, i + sep@.len())[j as int] != sep@[j as int]);
            return false;
        }
        j = j + 1;
    }
    proof {
        assert(text@.subrange(i as int, i + sep@.len()) =~= sep@);
    }
    true
}

/// The first position of `sep` in `text` at or after `from`.
fn find_sub(text: &str, sep: &str, from: usize) -> (r: Option<usize>)
    requires
        from <= text@.len(),
        sep@.len() > 0,
    ensures
        match r {
            Some(i) => {
                &&& from <= i
                &&& i + sep@.len() <= text@.len()
                &&& find_sub_from(text@, sep@, from as int) == Some(i as int)
            },
            None => find_sub_from(text@, sep@, from as int) is None,
        },
{
    let n = text.unicode_len();
    let m = sep.unicode_len();
    if m > n || from > n - m {
        return None;
    }
    let mut i: usize = from;
    while i <= n - m
        invariant
            from <= i <= n - m + 1,
            m <= n,
            m >= 1,
            n == text@.len(),
            m == sep@.len(),
            find_sub_from(text@, sep@, from as int) == find_sub_from(text@, sep@, i as int),
        decreases n - i,
    {
        if match_at(text, sep, i) {
            return Some(i);
        }
        i = i + 1;
    }
    None
}

/// Splits `text` into lines, as the line-by-line reading of a song text does:
/// pieces between newlines, a carriage return before a newline dropped, and no
/// final empty line when the text ends in a newline.
pub fn split_lines(text: &str) -> (r: Vec<String>)
    ensures
        r.deep_view() == spec_lines(text@),
{
    let n = text.unicode_len();
    let mut lines: Vec<String> = Vec::new();
    let mut start: usize = 0;
    proof {
        assert(lines.deep_view() + lines_from(text@, 0) =~= lines_from(text@, 0));
    }
    while start < n
        invariant
            start <= n,
            n == text@.len(),
            spec_lines(text@) == lines.deep_view() + lines_from(text@, start as int),
        decreases n - start,
    {
        let ghost pre = lines.deep_view();
        match find_char(text, '\n', start) {
            Some(i) => {
                let endpos = if i > start && text.get_char(i - 1) == '\r' {
                    i - 1
                } else {
                    i
                };
                let line = text.substring_char(start, endpos).to_owned();
                proof {
                    assert(strip_carriage(text@.subrange(start as int, i as int)) =~= text@.subrange(
                        start as int,
                        endpos as int,
                    ));
                }
                lines.push(line);
                proof {
                    assert(lines.deep_view() =~= pre.push(text@.subrange(
                        start as int,
                        endpos as int,
                    )));
                    assert(lines.deep_view() + lines_from(text@, i + 1) =~= pre + lines_from(
                        text@,
                        start as int,
                    ));
                }
                start = i + 1;
            },
            None => {
                let line = text.substring_char(start, n).to_owned();
                lines.push(line);
                proof {
                    assert(lines.deep_view() =~= pre.push(text@.subrange(start as int, n as int)));
                    assert(lines.deep_view() + lines_from(text@, n as int) =~= pre + lines_from(
                        text@,
                        start as int,
                    ));
                }
                start = n;
            },
        }
    }
    proof {
        assert(lines.deep_view() + lines_from(text@, n as int) =~= lines.deep_view());
    }
    lines
}

/// Splits `text` on every occurrence of `sep`, keeping empty pieces.
pub fn split_string(text: &str, sep: &str) -> (r: Vec<String>)
    requires
        sep@.len() > 0,
    ensures
        r.deep_view() == spec_split_str(text@, sep@),
{
    let n = text.unicode_len();
    let mut parts: Vec<String> = Vec::new();
    let mut start: usize = 0;
    let mut done = false;
    proof {
        assert(parts.deep_view() + split_parts(text@, sep@, 0) =~= split_parts(text@, sep@, 0));
    }
    while !done
        invariant
            start <= n,
            n == text@.len(),
            sep@.len() > 0,
            !done ==> spec_split_str(text@, sep@) == parts.deep_view() + split_parts(
                text@,
                sep@,
                start as int,
            ),
            done ==> parts.deep_view() == spec_split_str(text@, sep@),
        decreases n - start + 1, (if done { 0int } else { 1int }),
    {
        let ghost pre = parts.deep_view();
        match find_sub(text, sep, start) {
            Some(i) => {
                let part = text.substring_char(start, i).to_owned();
                parts.push(part);
                proof {
                    assert(parts.deep_view() =~= pre.push(text@.subrange(start as int, i as int)));
                    assert(parts.deep_view() + split_parts(text@, sep@, i + sep@.len()) =~= pre
                        + split_parts(text@, sep@, start as int));
                }
                start = i + sep.unicode_len();
            },
            None => {
                let part = text.substring_char(start, n).to_owned();
                parts.push(part);
                proof {
                    assert(parts.deep_view() =~= pre.push(text@.subrange(start as int, n as int)));
                    assert(parts.deep_view() =~= pre + split_parts(text@, sep@, start as int));
                }
                done = true;
            },
        }
    }
    parts
}

} // verus!
