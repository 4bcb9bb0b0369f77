//! The blacklist: a text file with one artist or track name per line, and the
//! rule by which a track matches it.

use vstd::prelude::*;
use crate::text;

verus! {

/// The name of the blacklist file.
pub const BLACKLIST_FILE: &'static str = "Blacklist.txt";

/// What a new blacklist file holds: two comment lines.
pub const STARTER: &'static str =
    "# One artist or track name per line.\n# Lines starting with '#' are ignored.\n";

/// Whether a line, without the white space at its ends, is an entry: it is
/// not blank and does not start with `#`.
pub open spec fn is_entry(line: Seq<char>) -> bool {
    line.len() > 0 && line[0] != '#'
}

/// What a loaded entry is like: it is not empty, so that it does not match
/// every track, does not start with `#`, has no white space at its ends, is in
/// lower case and is a single line.
pub open spec fn is_clean(entry: Seq<char>) -> bool {
    &&& is_entry(entry)
    &&& text::trimmed(entry) == entry
    &&& text::lowercase(entry) == entry
    &&& !entry.contains('\n')
}

/// The entries among some lines, in lower case and in the order of the lines.
pub open spec fn entries_of_lines(lines: Seq<Seq<char>>) -> Seq<Seq<char>> {
    lines.map_values(|line: Seq<char>| text::trimmed(line)).filter(
        |line: Seq<char>| is_entry(line),
    ).map_values(|line: Seq<char>| text::lowercase(line))
}

/// The entries of a blacklist file with the given text.
pub open spec fn entries(content: Seq<char>) -> Seq<Seq<char>> {
    entries_of_lines(text::lines(content))
}

/// The entries of a blacklist file of which `content` could be read; none where
/// it could not be read.
pub open spec fn loaded(content: Option<Seq<char>>) -> Seq<Seq<char>> {
    match content {
        Some(content) => entries(content),
        None => Seq::empty(),
    }
}

/// What the entries are looked for in: artist and title with a space between.
pub open spec fn track(artist: Seq<char>, title: Seq<char>) -> Seq<char> {
    text::spaced(artist, title)
}

/// Whether a text holds one of the entries, whatever the case of the two.
pub open spec fn matches_any(text: Seq<char>, list: Seq<Seq<char>>) -> bool {
    exists|i: int|
        0 <= i < list.len() && text::occurs_in(
            text::lowercase(#[trigger] list[i]),
            text::lowercase(text),
        )
}

/// Whether a track is on the blacklist.
pub open spec fn blacklisted(
    artist: Seq<char>,
    title: Seq<char>,
    list: Seq<Seq<char>>,
) -> bool {
    matches_any(track(artist, title), list)
}

/// An artist or a title that is an entry, whatever the case of the two, puts the
/// track on the blacklist.
pub proof fn lemma_listed(artist: Seq<char>, title: Seq<char>, list: Seq<Seq<char>>, i: int)
    requires
        text::lowercase(track(artist, title)) == text::spaced(
            text::lowercase(artist),
            text::lowercase(title),
        ),
        0 <= i < list.len(),
        text::lowercase(list[i]) == text::lowercase(artist) || text::lowercase(list[i])
            == text::lowercase(title),
    ensures
        blacklisted(artist, title, list),
{
    let low = text::lowercase(track(artist, title));
    let entry = text::lowercase(list[i]);
    if entry == text::lowercase(artist) {
        assert(low.subrange(0, 0int + entry.len()) == entry);
    } else {
        let at = text::lowercase(artist).len() as int + 1;
        assert(low.subrange(at, at + entry.len()) == entry);
    }
}

/// One more line adds its entry, if it is one.
pub proof fn lemma_entries_push(lines: Seq<Seq<char>>, line: Seq<char>)
    ensures
        is_entry(text::trimmed(line)) ==> entries_of_lines(lines.push(line)) == entries_of_lines(
            lines,
        ).push(text::lowercase(text::trimmed(line))),
        !is_entry(text::trimmed(line)) ==> entries_of_lines(lines.push(line)) == entries_of_lines(lines),
{
    let trim = |l: Seq<char>| text::trimmed(l);
    let keep = |l: Seq<char>| is_entry(l);
    let lower = |l: Seq<char>| text::lowercase(l);
    let more = lines.push(line).map_values(trim);
    reveal(Seq::filter);
    assert(more == lines.map_values(trim).push(text::trimmed(line)));
    assert(more.drop_last() == lines.map_values(trim));
    let kept = lines.map_values(trim).filter(keep);
    assert(kept.push(text::trimmed(line)).map_values(lower) == kept.map_values(lower).push(
        text::lowercase(text::trimmed(line)),
    ));
}

/// Reads the entries out of the text of a blacklist file: each line without the
/// white space at its ends, in lower case, except blank lines and those that
/// start with `#`.
pub fn parse_blacklist(content: &str) -> (r: Vec<String>)
    ensures
        text::texts(r@) == entries(content@),
        forall|i: int| 0 <= i < r@.len() ==> is_clean((#[trigger] r@[i])@),
{
    let all: Vec<String> = text::split_lines(content);
    let mut r: Vec<String> = Vec::new();
    let mut i: usize = 0;
    proof {
        reveal(Seq::filter);
        assert(text::texts(all@).take(0).len() == 0);
        assert(text::texts(r@) == entries_of_lines(text::texts(all@).take(0)));
    }
    while i < all.len()
        invariant
            i <= all@.len(),
            text::texts(r@) == entries_of_lines(text::texts(all@).take(i as int)),
            text::texts(all@) == text::lines(content@),
            forall|j: int| 0 <= j < r@.len() ==> is_clean((#[trigger] r@[j])@),
        decreases all@.len() - i,
    {
        let line: &str = all[i].as_str().trim();
        let entry: String = line.to_lowercase();
        proof {
            assert(text::texts(all@)[i as int] == all@[i as int]@);
            assert(text::texts(all@).take(i + 1) == text::texts(all@).take(i as int).push(all@[i as int]@));
            lemma_entries_push(text::texts(all@).take(i as int), all@[i as int]@);
            assert(entry@ == text::lowercase(line@));
            assert(line@.len() == 0 ==> vstd::utf8::is_ascii_chars(line@));
            assert((entry@.len() > 0) == (line@.len() > 0));
            assert(text::texts(r@.push(entry)) == text::texts(r@).push(entry@));
            text::lemma_trimmed(all@[i as int]@);
            text::lemma_lines_have_no_newline(content@);
            assert(!text::lines(content@)[i as int].contains('\n'));
            assert(!entry@.contains('\n'));
            assert(text::trimmed(entry@) == entry@);
        }
        if !entry.as_str().is_empty() && entry.as_str().get_char(0) != '#' {
            r.push(entry);
        }
        i = i + 1;
    }
    proof {
        assert(text::texts(all@).take(i as int) == text::texts(all@));
    }
    r
}

/// The blacklist entries of a file of which `content` could be read. Where the
/// file could not be read there are none, and nothing is blacklisted.
pub fn load_blacklist(content: Option<String>) -> (r: Vec<String>)
    ensures
        text::texts(r@) == loaded(text::optional_text(content)),
        forall|i: int| 0 <= i < r@.len() ==> is_clean((#[trigger] r@[i])@),
{
    match content {
        Some(content) => parse_blacklist(content.as_str()),
        None => {
            let r: Vec<String> = Vec::new();
            assert(text::texts(r@) == Seq::<Seq<char>>::empty());
            r
        },
    }
}

/// Whether some blacklist entry appears, whatever the case, in the artist and
/// the title with a space between them. That is so of every track whose artist
/// or title is an entry, whatever the case of the two.
pub fn is_blacklisted(artist: &str, title: &str, blacklist: &[String]) -> (r: bool)
    ensures
        r == blacklisted(artist@, title@, text::texts(blacklist@)),
        forall|i: int|
            0 <= i < blacklist@.len() && (text::lowercase((#[trigger] blacklist@[i])@)
                == text::lowercase(artist@) || text::lowercase(blacklist@[i]@) == text::lowercase(
                title@,
            )) ==> r,
{
    if blacklist.len() == 0 {
        return false;
    }
    let name: String = text::concat3(artist, " ", title);
    let haystack: String = name.as_str().to_lowercase();
    proof {
        reveal_strlit(" ");
        assert(" "@ == seq![' ']);
        assert(name@ == text::spaced(artist@, title@));
        assert(haystack@ == text::lowercase(track(artist@, title@)));
        assert forall|i: int|
            0 <= i < blacklist@.len() && (text::lowercase((#[trigger] blacklist@[i])@)
                == text::lowercase(artist@) || text::lowercase(blacklist@[i]@) == text::lowercase(
                title@,
            )) implies blacklisted(artist@, title@, text::texts(blacklist@)) by {
            lemma_listed(artist@, title@, text::texts(blacklist@), i);
        }
    }
    let mut i: usize = 0;
    while i < blacklist.len()
        invariant
            i <= blacklist@.len(),
            haystack@ == text::lowercase(track(artist@, title@)),
            forall|j: int|
                0 <= j < i ==> !text::occurs_in(
                    text::lowercase(#[trigger] text::texts(blacklist@)[j]),
                    haystack@,
                ),
        decreases blacklist@.len() - i,
    {
        assert(text::texts(blacklist@)[i as int] == blacklist@[i as int]@);
        let entry: String = blacklist[i].as_str().to_lowercase();
        assert(entry@ == text::lowercase(text::texts(blacklist@)[i as int]));
        if text::contains_text(haystack.as_str(), entry.as_str()) {
            return true;
        }
        i = i + 1;
    }
    false
}

/// Whether two blacklists hold the same entries in the same order.
pub fn same_entries(a: &Vec<String>, b: &Vec<String>) -> (r: bool)
    ensures
        r == (text::texts(a@) == text::texts(b@)),
{
    if a.len() != b.len() {
        assert(text::texts(a@).len() != text::texts(b@).len());
        return false;
    }
    let mut i: usize = 0;
    while i < a.len()
        invariant
            a@.len() == b@.len(),
            i <= a@.len(),
            forall|j: int| 0 <= j < i ==> text::texts(a@)[j] == text::texts(b@)[j],
        decreases a@.len() - i,
    {
        assert(text::texts(a@)[i as int] == a@[i as int]@);
        assert(text::texts(b@)[i as int] == b@[i as int]@);
        if !(a[i] == b[i]) {
            return false;
        }
        i = i + 1;
    }
    assert(text::texts(a@) == text::texts(b@));
    true
}

/// What is written to a blacklist file that exists or does not.
pub open spec fn written(exists: bool) -> Option<Seq<char>> {
    if exists {
        None
    } else {
        Some(STARTER@)
    }
}

/// What to write to a blacklist file so that there is one: the starter text
/// where the file is missing, nothing where it exists. An existing file is
/// never overwritten.
pub fn ensure_blacklist_exists(exists: bool) -> (r: Option<String>)
    ensures
        text::optional_text(r) == (if exists { None } else { Some(STARTER@) }),
        text::optional_text(r) == written(exists),
{
    if exists {
        None
    } else {
        Some(STARTER.to_owned())
    }
}

} // verus!
