//! What holds of the files: the blacklist and the liked tracks.

use vstd::prelude::*;
use crate::blacklist;
use crate::likes;
use crate::likes::LikeKind;
use crate::paths;
use crate::text;

verus! {

// ---------------------------------------------------------------- text

/// The number that some decimal digits stand for.
pub open spec fn number_read(digits: Seq<char>) -> int
    decreases digits.len(),
{
    if digits.len() == 0 {
        0
    } else {
        10 * number_read(digits.drop_last()) + (digits.last() as int - '0' as int)
    }
}

/// A number in decimal is made of digits, without a leading zero, and read as a
/// number again is the number.
pub proof fn law_decimal_can_be_read(n: nat)
    ensures
        number_read(text::decimal(n)) == n,
        text::decimal(n).len() > 0,
        text::decimal(n).len() > 1 ==> text::decimal(n)[0] != '0',
        forall|i: int|
            0 <= i < text::decimal(n).len() ==> '0' as int <= #[trigger] text::decimal(n)[i] as int
                <= '9' as int,
    decreases n,
{
    lemma_decimal_digits(n);
    if n >= 10 {
        law_decimal_can_be_read(n / 10);
        assert(text::decimal(n).drop_last() == text::decimal(n / 10));
        assert(text::decimal(n)[0] == text::decimal(n / 10)[0]);
        if n / 10 < 10 {
            assert(text::decimal(n / 10) == seq![text::digit(n / 10)]);
        } else {
            lemma_decimal_digits(n / 10);
        }
    } else {
        let d = text::decimal(n);
        assert(d.drop_last() == Seq::<char>::empty());
        reveal_with_fuel(number_read, 2);
    }
}

/// The characters that count as white space.
pub proof fn law_white_space(c: char)
    ensures
        text::is_white_space(c) <==> {
            ||| c == ' ' || c == '\t' || c == '\n' || c == '\u{b}' || c == '\u{c}' || c == '\r'
            ||| c == '\u{85}' || c == '\u{a0}' || c == '\u{1680}'
            ||| c == '\u{2000}' || c == '\u{2001}' || c == '\u{2002}' || c == '\u{2003}'
            ||| c == '\u{2004}' || c == '\u{2005}' || c == '\u{2006}' || c == '\u{2007}'
            ||| c == '\u{2008}' || c == '\u{2009}' || c == '\u{200a}' || c == '\u{2028}'
            ||| c == '\u{2029}' || c == '\u{202f}' || c == '\u{205f}' || c == '\u{3000}'
        },
{
}

proof fn lemma_trim_start_skips(a: Seq<char>, m: Seq<char>)
    requires
        forall|i: int| 0 <= i < a.len() ==> text::is_white_space(#[trigger] a[i]),
        m.len() > 0 ==> !text::is_white_space(m[0]),
    ensures
        text::trim_start(a + m) == m,
    decreases a.len(),
{
    if a.len() == 0 {
        assert(a + m == m);
    } else {
        assert((a + m)[0] == a[0]);
        assert((a + m).drop_first() == a.drop_first() + m);
        lemma_trim_start_skips(a.drop_first(), m);
    }
}

proof fn lemma_trim_end_skips(m: Seq<char>, b: Seq<char>)
    requires
        forall|i: int| 0 <= i < b.len() ==> text::is_white_space(#[trigger] b[i]),
        m.len() > 0 ==> !text::is_white_space(m.last()),
    ensures
        text::trim_end(m + b) == m,
    decreases b.len(),
{
    if b.len() == 0 {
        assert(m + b == m);
    } else {
        assert((m + b).last() == b.last());
        assert((m + b).drop_last() == m + b.drop_last());
        lemma_trim_end_skips(m, b.drop_last());
    }
}

/// Trimming takes all white space from both ends of a text and nothing else:
/// from a text between white space, what is left is that text, whatever it holds
/// within.
pub proof fn law_trimmed(a: Seq<char>, m: Seq<char>, b: Seq<char>)
    requires
        forall|i: int| 0 <= i < a.len() ==> text::is_white_space(#[trigger] a[i]),
        forall|i: int| 0 <= i < b.len() ==> text::is_white_space(#[trigger] b[i]),
        m.len() > 0 ==> !text::is_white_space(m[0]) && !text::is_white_space(m.last()),
    ensures
        text::trimmed(a + m + b) == m,
{
    assert(a + m + b == a + (m + b));
    if m.len() > 0 {
        assert((m + b)[0] == m[0]);
        lemma_trim_start_skips(a, m + b);
        lemma_trim_end_skips(m, b);
    } else {
        let white = a + b;
        let none = Seq::<char>::empty();
        assert(a + (m + b) == white + none);
        assert forall|i: int| 0 <= i < white.len() implies text::is_white_space(
            #[trigger] white[i],
        ) by {
            if i >= a.len() {
                assert(white[i] == b[i - a.len()]);
            }
        }
        lemma_trim_start_skips(white, none);
        assert(m == none);
    }
}

/// The lines of a text: each ends at a newline, or at a carriage return and a
/// newline, and what stands behind the last of these is one more line unless it
/// is empty.
pub proof fn law_lines(line: Seq<char>, rest: Seq<char>)
    requires
        !line.contains('\n'),
    ensures
        line.len() == 0 || line.last() != '\r' ==> text::lines(line + seq!['\n'] + rest) == seq![
            line,
        ] + text::lines(rest),
        text::lines(line + seq!['\r', '\n'] + rest) == seq![line] + text::lines(rest),
        line.len() > 0 ==> text::lines(line) == seq![line],
        text::lines(Seq::<char>::empty()) == Seq::<Seq<char>>::empty(),
{
    text::lemma_lines_cons(line, rest);
    let with_cr = line.push('\r');
    assert forall|i: int| 0 <= i < with_cr.len() implies with_cr[i] != '\n' by {
        if i < line.len() {
            assert(line.contains(line[i]));
        }
    }
    text::lemma_lines_cons(with_cr, rest);
    assert(with_cr + seq!['\n'] + rest == line + seq!['\r', '\n'] + rest);
    assert(with_cr.drop_last() == line);
    text::lemma_lines_single(line);
}

/// One text occurs in another just where the other is that text with something,
/// or nothing, before and behind it.
pub proof fn law_occurs_in(needle: Seq<char>, haystack: Seq<char>)
    ensures
        text::occurs_in(needle, haystack) <==> exists|a: Seq<char>, b: Seq<char>|
            haystack == #[trigger] (a + needle + b),
{
    if text::occurs_in(needle, haystack) {
        let i = choose|i: int|
            0 <= i <= haystack.len() - needle.len() && #[trigger] haystack.subrange(
                i,
                i + needle.len(),
            ) == needle;
        let a = haystack.take(i);
        let b = haystack.skip(i + needle.len());
        assert(haystack == a + needle + b) by {
            assert(haystack.subrange(i, i + needle.len()) == needle);
            assert(haystack == a + haystack.subrange(i, i + needle.len()) + b);
        }
    }
    if exists|a: Seq<char>, b: Seq<char>| haystack == #[trigger] (a + needle + b) {
        let (a, b) = choose|a: Seq<char>, b: Seq<char>| haystack == #[trigger] (a + needle + b);
        let i = a.len() as int;
        assert(haystack.subrange(i, i + needle.len()) == needle);
    }
}

/// The lower-case form of a text in ASCII has the letters `A` to `Z` as `a` to
/// `z` and every other character as it is.
pub proof fn law_ascii_lowercase(s: Seq<char>)
    requires
        forall|i: int| 0 <= i < s.len() ==> 0 <= (#[trigger] s[i]) as int <= 127,
    ensures
        text::lowercase(s).len() == s.len(),
        forall|i: int|
            0 <= i < s.len() ==> #[trigger] text::lowercase(s)[i] as int == (if 'A' as int <= s[i] as int
                <= 'Z' as int {
                s[i] as int + ('a' as int - 'A' as int)
            } else {
                s[i] as int
            }),
{
    assert(vstd::utf8::is_ascii_chars(s));
}

/// The texts of some strings are those of each, in order.
pub proof fn law_texts_of_strings(v: Seq<String>, s: Option<String>)
    ensures
        text::texts(v).len() == v.len(),
        forall|i: int| 0 <= i < v.len() ==> #[trigger] text::texts(v)[i] == v[i]@,
        s matches Some(s1) ==> text::optional_text(s) == Some(s1@),
        s is None ==> text::optional_text(s) is None,
{
}

// ---------------------------------------------------------------- the blacklist file

/// White space at the end of a text does not outlast trimming.
proof fn lemma_trim_push(s: Seq<char>, c: char)
    requires
        text::is_white_space(c),
    ensures
        text::trimmed(s.push(c)) == text::trimmed(s),
{
    lemma_trim_start_push(s, c);
    let t = text::trim_start(s);
    if t.len() > 0 {
        assert(t.push(c).drop_last() == t);
    }
}

proof fn lemma_trim_start_push(s: Seq<char>, c: char)
    requires
        text::is_white_space(c),
    ensures
        text::trim_start(s.push(c)) == (if text::trim_start(s).len() == 0 {
            Seq::<char>::empty()
        } else {
            text::trim_start(s).push(c)
        }),
    decreases s.len(),
{
    if s.len() == 0 {
        let none = Seq::<char>::empty();
        assert(s.push(c).drop_first() == none);
        assert(text::trim_start(none) == none);
    } else if text::is_white_space(s[0]) {
        lemma_trim_start_push(s.drop_first(), c);
        assert(s.push(c).drop_first() == s.drop_first().push(c));
    }
}

/// The entries among two groups of lines are those of the one and then those
/// of the other.
proof fn lemma_entries_add(a: Seq<Seq<char>>, b: Seq<Seq<char>>)
    ensures
        blacklist::entries_of_lines(a + b) == blacklist::entries_of_lines(a)
            + blacklist::entries_of_lines(b),
    decreases b.len(),
{
    if b.len() == 0 {
        reveal(Seq::filter);
        assert(a + b == a);
        assert(blacklist::entries_of_lines(b) == Seq::<Seq<char>>::empty());
    } else {
        let most = b.drop_last();
        lemma_entries_add(a, most);
        blacklist::lemma_entries_push(a + most, b.last());
        blacklist::lemma_entries_push(most, b.last());
        assert((a + most).push(b.last()) == a + b);
        assert(most.push(b.last()) == b);
    }
}

/// The entries of one line.
proof fn lemma_entries_of_line(line: Seq<char>)
    ensures
        blacklist::is_entry(text::trimmed(line)) ==> blacklist::entries_of_lines(seq![line])
            == seq![text::lowercase(text::trimmed(line))],
        !blacklist::is_entry(text::trimmed(line)) ==> blacklist::entries_of_lines(seq![line])
            == Seq::<Seq<char>>::empty(),
{
    let none = Seq::<Seq<char>>::empty();
    reveal(Seq::filter);
    assert(blacklist::entries_of_lines(none) == none);
    blacklist::lemma_entries_push(none, line);
    assert(none.push(line) == seq![line]);
}

/// A file that holds one line holds that one entry, trimmed and in lower case,
/// or none where the line is blank or starts with `#`.
pub proof fn law_line_is_entry(line: Seq<char>)
    requires
        !line.contains('\n'),
    ensures
        blacklist::is_entry(text::trimmed(line)) ==> blacklist::entries(line)
            == seq![text::lowercase(text::trimmed(line))],
        !blacklist::is_entry(text::trimmed(line)) ==> blacklist::entries(line) == Seq::<
            Seq<char>,
        >::empty(),
{
    text::lemma_lines_single(line);
    lemma_entries_of_line(line);
    reveal(Seq::filter);
    if line.len() == 0 {
        assert(blacklist::entries(line) == Seq::<Seq<char>>::empty());
        assert(!blacklist::is_entry(text::trimmed(line)));
    }
}

/// Every line counts for itself: the entries of two texts with a newline
/// between them are those of the first and then those of the second.
#[verifier::spinoff_prover]
pub proof fn law_lines_are_independent(a: Seq<char>, b: Seq<char>)
    ensures
        blacklist::entries(a + seq!['\n'] + b) == blacklist::entries(a) + blacklist::entries(b),
    decreases a.len(),
{
    text::lemma_first_line(a);
    let n = text::first_line_len(a) as int;
    if n >= a.len() {
        assert forall|i: int| 0 <= i < a.len() implies a[i] != '\n' by {}
        assert(!a.contains('\n'));
        text::lemma_lines_cons(a, b);
        lemma_entries_add(seq![text::without_cr(a)], text::lines(b));
        lemma_entries_of_line(text::without_cr(a));
        law_line_is_entry(a);
        if a.len() > 0 && a.last() == '\r' {
            lemma_trim_push(a.drop_last(), '\r');
            assert(a.drop_last().push('\r') == a);
        }
    } else {
        let line = a.take(n);
        let rest = a.skip(n + 1);
        assert(!line.contains('\n'));
        assert(a == line + seq!['\n'] + rest);
        text::lemma_lines_cons(line, rest);
        let tail = rest + seq!['\n'] + b;
        assert(a + seq!['\n'] + b == line + seq!['\n'] + tail);
        text::lemma_lines_cons(line, tail);
        law_lines_are_independent(rest, b);
        let head = seq![text::without_cr(line)];
        lemma_entries_add(head, text::lines(rest));
        lemma_entries_add(head, text::lines(tail));
        assert(blacklist::entries_of_lines(head) + (blacklist::entries(rest) + blacklist::entries(
            b,
        )) == blacklist::entries_of_lines(head) + blacklist::entries(rest) + blacklist::entries(b));
    }
}

/// Blank lines and lines that start with `#` are ignored: one more of them
/// changes nothing.
pub proof fn law_comments_are_ignored(content: Seq<char>, line: Seq<char>)
    requires
        !line.contains('\n'),
        !blacklist::is_entry(text::trimmed(line)),
    ensures
        blacklist::entries(content + seq!['\n'] + line) == blacklist::entries(content),
        blacklist::entries(line + seq!['\n'] + content) == blacklist::entries(content),
{
    law_lines_are_independent(content, line);
    law_lines_are_independent(line, content);
    law_line_is_entry(line);
    let e = blacklist::entries(content);
    assert(e + Seq::<Seq<char>>::empty() == e);
    assert(Seq::<Seq<char>>::empty() + e == e);
}

/// Which lines are entries: all that hold anything but white space, save those
/// that begin, behind white space, with `#`. An entry is the line without the
/// white space at its ends, in lower case, whatever it holds within.
pub proof fn law_every_other_line_is_an_entry(a: Seq<char>, name: Seq<char>, b: Seq<char>)
    requires
        forall|i: int| 0 <= i < a.len() ==> text::is_white_space(#[trigger] a[i]),
        forall|i: int| 0 <= i < b.len() ==> text::is_white_space(#[trigger] b[i]),
        name.len() > 0 ==> !text::is_white_space(name[0]) && !text::is_white_space(name.last()),
        !(a + name + b).contains('\n'),
    ensures
        name.len() > 0 && name[0] != '#' ==> blacklist::entries(a + name + b) == seq![
            text::lowercase(name),
        ],
        name.len() == 0 || name[0] == '#' ==> blacklist::entries(a + name + b) == Seq::<
            Seq<char>,
        >::empty(),
{
    law_trimmed(a, name, b);
    law_line_is_entry(a + name + b);
}

/// The same of a line as it stands.
pub proof fn law_line_counts(line: Seq<char>)
    requires
        !line.contains('\n'),
    ensures
        text::trimmed(line).len() > 0 && text::trimmed(line)[0] != '#' ==> blacklist::entries(line)
            == seq![text::lowercase(text::trimmed(line))],
        text::trimmed(line).len() == 0 || text::trimmed(line)[0] == '#' ==> blacklist::entries(line)
            == Seq::<Seq<char>>::empty(),
{
    law_line_is_entry(line);
}

/// A line between others adds its one entry between theirs, or none.
pub proof fn law_line_between_lines(before: Seq<char>, line: Seq<char>, after: Seq<char>)
    requires
        !line.contains('\n'),
    ensures
        ({
            let all = blacklist::entries(before + seq!['\n'] + (line + seq!['\n'] + after));
            let name = text::trimmed(line);
            if name.len() > 0 && name[0] != '#' {
                all == blacklist::entries(before) + (seq![text::lowercase(name)]
                    + blacklist::entries(after))
            } else {
                all == blacklist::entries(before) + blacklist::entries(after)
            }
        }),
{
    law_lines_are_independent(before, line + seq!['\n'] + after);
    law_lines_are_independent(line, after);
    law_line_is_entry(line);
    let e = blacklist::entries(after);
    assert(Seq::<Seq<char>>::empty() + e == e);
}

/// What is loaded is what the file holds, or nothing where it could not be read.
pub proof fn law_loaded(content: Seq<char>)
    ensures
        blacklist::loaded(Some(content)) == blacklist::entries(content),
        blacklist::loaded(None).len() == 0,
{
}

/// A track is on the blacklist just where the lower-case form of artist, space
/// and title is that of an entry with something, or nothing, before and behind
/// it.
pub proof fn law_blacklisted(artist: Seq<char>, title: Seq<char>, list: Seq<Seq<char>>)
    ensures
        blacklist::blacklisted(artist, title, list) <==> exists|
            i: int,
            a: Seq<char>,
            b: Seq<char>,
        |
            0 <= i < list.len() && text::lowercase(artist + seq![' '] + title) == #[trigger] (a
                + text::lowercase(list[i]) + b),
{
    let low = text::lowercase(artist + seq![' '] + title);
    if blacklist::blacklisted(artist, title, list) {
        let i = choose|i: int|
            0 <= i < list.len() && text::occurs_in(text::lowercase(#[trigger] list[i]), low);
        law_occurs_in(text::lowercase(list[i]), low);
        let (a, b) = choose|a: Seq<char>, b: Seq<char>|
            low == #[trigger] (a + text::lowercase(list[i]) + b);
        assert(low == a + text::lowercase(list[i]) + b);
    }
    if exists|i: int, a: Seq<char>, b: Seq<char>|
        0 <= i < list.len() && low == #[trigger] (a + text::lowercase(list[i]) + b) {
        let (i, a, b) = choose|i: int, a: Seq<char>, b: Seq<char>|
            0 <= i < list.len() && low == #[trigger] (a + text::lowercase(list[i]) + b);
        law_occurs_in(text::lowercase(list[i]), low);
        assert(text::occurs_in(text::lowercase(list[i]), low));
    }
}

/// What a loaded entry is like.
pub proof fn law_clean(entry: Seq<char>)
    requires
        blacklist::is_clean(entry),
    ensures
        entry.len() > 0,
        entry[0] != '#',
        !text::is_white_space(entry[0]),
        !text::is_white_space(entry.last()),
        text::lowercase(entry) == entry,
        !entry.contains('\n'),
{
    text::lemma_trimmed(entry);
}

/// The text of a new blacklist file: two whole lines, both comments.
pub proof fn law_starter()
    ensures
        blacklist::STARTER@
            == "# One artist or track name per line.\n# Lines starting with '#' are ignored.\n"@,
        blacklist::BLACKLIST_FILE@ == "Blacklist.txt"@,
        paths::MEMORY_FILE@ == "wreckers.data"@,
{
}

/// A new blacklist file has no entries.
pub proof fn law_starter_has_no_entries()
    ensures
        blacklist::entries(blacklist::STARTER@) == Seq::<Seq<char>>::empty(),
{
    reveal_strlit("# One artist or track name per line.");
    reveal_strlit("# Lines starting with '#' are ignored.");
    reveal_strlit(
        "# One artist or track name per line.\n# Lines starting with '#' are ignored.\n",
    );
    let one = "# One artist or track name per line."@;
    let two = "# Lines starting with '#' are ignored."@;
    let none = Seq::<char>::empty();
    text::lemma_trimmed_start(one);
    text::lemma_trimmed_start(two);
    assert(blacklist::STARTER@ == one + seq!['\n'] + (two + seq!['\n'] + none));
    law_comments_are_ignored(two + seq!['\n'] + none, one);
    law_comments_are_ignored(none, two);
    law_line_is_entry(none);
}

/// A file that exists is never written over, and one that does not gets a text
/// in which every line is a comment, so that it blacklists nothing.
pub proof fn law_existing_file_is_kept(found: bool, artist: Seq<char>, title: Seq<char>)
    ensures
        blacklist::written(found) is None <==> found,
        blacklist::written(found) matches Some(starter) ==> {
            &&& starter
                == "# One artist or track name per line.\n# Lines starting with '#' are ignored.\n"@
            &&& blacklist::entries(starter).len() == 0
            &&& !blacklist::blacklisted(artist, title, blacklist::entries(starter))
        },
{
    law_starter_has_no_entries();
}

/// Nothing is blacklisted where there is no file that can be read.
pub proof fn law_no_file_blacklists_nothing(artist: Seq<char>, title: Seq<char>)
    ensures
        !blacklist::blacklisted(artist, title, blacklist::loaded(None)),
{
}

/// A track is on a blacklist of two parts just where it is on one of them; so
/// more entries never let a track through.
pub proof fn law_entries_add_up(
    artist: Seq<char>,
    title: Seq<char>,
    a: Seq<Seq<char>>,
    b: Seq<Seq<char>>,
)
    ensures
        blacklist::blacklisted(artist, title, a + b) <==> (blacklist::blacklisted(
            artist,
            title,
            a,
        ) || blacklist::blacklisted(artist, title, b)),
{
    let t = text::lowercase(blacklist::track(artist, title));
    let ab = a + b;
    if blacklist::blacklisted(artist, title, a) {
        let i = choose|i: int| 0 <= i < a.len() && text::occurs_in(text::lowercase(#[trigger] a[i]), t);
        assert(ab[i] == a[i]);
    }
    if blacklist::blacklisted(artist, title, b) {
        let i = choose|i: int| 0 <= i < b.len() && text::occurs_in(text::lowercase(#[trigger] b[i]), t);
        assert(ab[a.len() + i] == b[i]);
    }
    if blacklist::blacklisted(artist, title, ab) {
        let i = choose|i: int| 0 <= i < ab.len() && text::occurs_in(text::lowercase(#[trigger] ab[i]), t);
        if i < a.len() {
            assert(ab[i] == a[i]);
        } else {
            assert(ab[i] == b[i - a.len()]);
        }
    }
}

/// Case makes no difference, neither that of the track nor that of the entries:
/// where the lower-case forms are the same, so is the answer.
pub proof fn law_case_is_ignored(
    artist: Seq<char>,
    title: Seq<char>,
    list: Seq<Seq<char>>,
    other_artist: Seq<char>,
    other_title: Seq<char>,
    other_list: Seq<Seq<char>>,
)
    requires
        text::lowercase(blacklist::track(artist, title)) == text::lowercase(
            blacklist::track(other_artist, other_title),
        ),
        list.len() == other_list.len(),
        forall|i: int|
            0 <= i < list.len() ==> text::lowercase(#[trigger] list[i]) == text::lowercase(
                other_list[i],
            ),
    ensures
        blacklist::blacklisted(artist, title, list) == blacklist::blacklisted(
            other_artist,
            other_title,
            other_list,
        ),
{
    let t = text::lowercase(blacklist::track(artist, title));
    if blacklist::blacklisted(artist, title, list) {
        let i = choose|i: int|
            0 <= i < list.len() && text::occurs_in(text::lowercase(#[trigger] list[i]), t);
        assert(text::occurs_in(text::lowercase(other_list[i]), t));
    }
    if blacklist::blacklisted(other_artist, other_title, other_list) {
        let i = choose|i: int|
            0 <= i < other_list.len() && text::occurs_in(
                text::lowercase(#[trigger] other_list[i]),
                t,
            );
        assert(text::occurs_in(text::lowercase(list[i]), t));
    }
}

/// The lower-case form of a track in ASCII letters.
proof fn lemma_ascii_track(artist: Seq<char>, title: Seq<char>)
    requires
        vstd::utf8::is_ascii_chars(artist),
        vstd::utf8::is_ascii_chars(title),
    ensures
        text::lowercase(blacklist::track(artist, title)) == text::spaced(
            text::lowercase(artist),
            text::lowercase(title),
        ),
{
    assert(vstd::utf8::is_ascii_chars(blacklist::track(artist, title)));
}

/// What is in ASCII letters and in lower case is its own lower-case form.
proof fn lemma_ascii_lowercase_twice(s: Seq<char>)
    requires
        vstd::utf8::is_ascii_chars(s),
    ensures
        text::lowercase(text::lowercase(s)) == text::lowercase(s),
{
    assert(vstd::utf8::is_ascii_chars(text::lowercase(s)));
}

/// In names of ASCII letters, the case of every letter is free.
pub proof fn law_ascii_case_is_ignored(
    artist: Seq<char>,
    title: Seq<char>,
    other_artist: Seq<char>,
    other_title: Seq<char>,
    list: Seq<Seq<char>>,
)
    requires
        vstd::utf8::is_ascii_chars(artist),
        vstd::utf8::is_ascii_chars(title),
        vstd::utf8::is_ascii_chars(other_artist),
        vstd::utf8::is_ascii_chars(other_title),
        text::lowercase(artist) == text::lowercase(other_artist),
        text::lowercase(title) == text::lowercase(other_title),
    ensures
        blacklist::blacklisted(artist, title, list) == blacklist::blacklisted(
            other_artist,
            other_title,
            list,
        ),
{
    lemma_ascii_track(artist, title);
    lemma_ascii_track(other_artist, other_title);
}

/// An artist or a title in ASCII letters is enough for the track to be on the
/// blacklist where it is an entry, in whatever case.
pub proof fn law_listed_name_is_blacklisted(
    artist: Seq<char>,
    title: Seq<char>,
    list: Seq<Seq<char>>,
    i: int,
)
    requires
        vstd::utf8::is_ascii_chars(artist),
        vstd::utf8::is_ascii_chars(title),
        0 <= i < list.len(),
        text::lowercase(list[i]) == text::lowercase(artist) || text::lowercase(list[i])
            == text::lowercase(title),
    ensures
        blacklist::blacklisted(artist, title, list),
{
    lemma_ascii_track(artist, title);
    blacklist::lemma_listed(artist, title, list, i);
}

/// Entries that are in lower case already, as loaded ones are, count as they
/// stand.
pub proof fn law_loaded_entries_count_as_they_stand(
    artist: Seq<char>,
    title: Seq<char>,
    list: Seq<Seq<char>>,
)
    requires
        forall|i: int| 0 <= i < list.len() ==> blacklist::is_clean(#[trigger] list[i]),
    ensures
        blacklist::blacklisted(artist, title, list) <==> exists|i: int|
            0 <= i < list.len() && text::occurs_in(
                #[trigger] list[i],
                text::lowercase(blacklist::track(artist, title)),
            ),
{
    let t = text::lowercase(blacklist::track(artist, title));
    if blacklist::blacklisted(artist, title, list) {
        let i = choose|i: int|
            0 <= i < list.len() && text::occurs_in(text::lowercase(#[trigger] list[i]), t);
        assert(blacklist::is_clean(list[i]));
        assert(text::occurs_in(list[i], t));
    }
    if exists|i: int| 0 <= i < list.len() && text::occurs_in(#[trigger] list[i], t) {
        let i = choose|i: int| 0 <= i < list.len() && text::occurs_in(#[trigger] list[i], t);
        assert(blacklist::is_clean(list[i]));
        assert(text::occurs_in(text::lowercase(list[i]), t));
    }
}

/// A line with the name of an artist or a track, in whatever case and with
/// whatever lines around it, keeps that artist or track out.
pub proof fn law_line_keeps_out(
    before: Seq<char>,
    line: Seq<char>,
    after: Seq<char>,
    artist: Seq<char>,
    title: Seq<char>,
)
    requires
        !line.contains('\n'),
        blacklist::is_entry(text::trimmed(line)),
        vstd::utf8::is_ascii_chars(artist),
        vstd::utf8::is_ascii_chars(title),
        text::lowercase(text::trimmed(line)) == text::lowercase(artist) || text::lowercase(
            text::trimmed(line),
        ) == text::lowercase(title),
    ensures
        blacklist::blacklisted(
            artist,
            title,
            blacklist::entries(before + seq!['\n'] + (line + seq!['\n'] + after)),
        ),
{
    law_lines_are_independent(before, line + seq!['\n'] + after);
    law_lines_are_independent(line, after);
    law_line_is_entry(line);
    let list = blacklist::entries(before + seq!['\n'] + (line + seq!['\n'] + after));
    let i = blacklist::entries(before).len() as int;
    assert(list[i] == text::lowercase(text::trimmed(line)));
    lemma_ascii_lowercase_twice(artist);
    lemma_ascii_lowercase_twice(title);
    law_listed_name_is_blacklisted(artist, title, list, i);
}

// ---------------------------------------------------------------- likes

/// How a text splits at a character is settled where the first part does not
/// hold that character.
proof fn lemma_split_unique(c: char, a1: Seq<char>, b1: Seq<char>, a2: Seq<char>, b2: Seq<char>)
    requires
        !a1.contains(c),
        !a2.contains(c),
        a1 + seq![c] + b1 == a2 + seq![c] + b2,
    ensures
        a1 == a2,
        b1 == b2,
{
    let s = a1 + seq![c] + b1;
    let t = a2 + seq![c] + b2;
    if a1.len() < a2.len() {
        assert(t[a1.len() as int] == a2[a1.len() as int]);
        assert(s[a1.len() as int] == c);
        assert(a2.contains(a2[a1.len() as int]));
    }
    if a2.len() < a1.len() {
        assert(s[a2.len() as int] == a1[a2.len() as int]);
        assert(t[a2.len() as int] == c);
        assert(a1.contains(a1[a2.len() as int]));
    }
    assert(s.take(a1.len() as int) == a1);
    assert(t.take(a2.len() as int) == a2);
    assert(s.skip(a1.len() as int + 1) == b1);
    assert(t.skip(a2.len() as int + 1) == b2);
}

/// A number in decimal is made of digits.
proof fn lemma_decimal_digits(n: nat)
    ensures
        text::decimal(n).len() > 0,
        n >= 10 ==> text::decimal(n).len() > 1,
        forall|i: int|
            0 <= i < text::decimal(n).len() ==> 48 <= #[trigger] text::decimal(n)[i] as int <= 57,
    decreases n,
{
    if n >= 10 {
        lemma_decimal_digits(n / 10);
    }
}

/// Different numbers are written differently.
pub proof fn law_decimal_is_injective(a: nat, b: nat)
    requires
        text::decimal(a) == text::decimal(b),
    ensures
        a == b,
    decreases a,
{
    lemma_decimal_digits(a);
    lemma_decimal_digits(b);
    let x = text::decimal(a);
    let y = text::decimal(b);
    assert(x.last() == text::digit(a % 10));
    assert(y.last() == text::digit(b % 10));
    assert(a % 10 == b % 10);
    if a >= 10 {
        assert(b >= 10);
        assert(x.drop_last() == text::decimal(a / 10));
        assert(y.drop_last() == text::decimal(b / 10));
        law_decimal_is_injective(a / 10, b / 10);
    } else {
        assert(b < 10);
    }
}

/// A field of the file has no tab and no newline in it.
proof fn lemma_field(s: Seq<char>)
    ensures
        !likes::field(s).contains('\t'),
        !likes::field(s).contains('\n'),
{
}

/// A text without tabs and newlines is written as it is.
pub proof fn law_plain_names_are_kept(s: Seq<char>)
    requires
        !s.contains('\t'),
        !s.contains('\n'),
    ensures
        likes::field(s) == s,
{
    assert forall|i: int| 0 <= i < s.len() implies likes::field(s)[i] == s[i] by {
        assert(s.contains(s[i]));
    }
}

/// A field of the file is as long as the text it is written for, and has every
/// character of it in its place, with a space for a tab or a newline.
pub proof fn law_field(s: Seq<char>)
    ensures
        likes::field(s).len() == s.len(),
        forall|i: int|
            0 <= i < s.len() ==> #[trigger] likes::field(s)[i] == (if s[i] == '\t' || s[i] == '\n' {
                ' '
            } else {
                s[i]
            }),
{
}

/// The line of a like has four fields with tabs between them: the time in
/// decimal, the word for the kind, the artist and the title.
pub proof fn law_fields_of_a_like(
    timestamp: u64,
    kind: LikeKind,
    artist: Seq<char>,
    title: Seq<char>,
)
    ensures
        ({
            let tab = seq!['\t'];
            let word = if kind is Like {
                "LIKE"@
            } else {
                "REALLY_LIKE"@
            };
            let line = likes::like_line(timestamp, kind, artist, title);
            &&& line == text::decimal(timestamp as nat) + tab + word + tab + likes::field(artist)
                + tab + likes::field(title) + seq!['\n']
            &&& !artist.contains('\t') && !artist.contains('\n') && !title.contains('\t')
                && !title.contains('\n') ==> line == text::decimal(timestamp as nat) + tab + word
                + tab + artist + tab + title + seq!['\n']
        }),
{
    reveal_strlit("\t");
    reveal_strlit("\n");
    assert("\t"@ == seq!['\t']);
    assert("\n"@ == seq!['\n']);
    if !artist.contains('\t') && !artist.contains('\n') {
        law_plain_names_are_kept(artist);
    }
    if !title.contains('\t') && !title.contains('\n') {
        law_plain_names_are_kept(title);
    }
}

/// The line of a like can be read back: it tells the time, the kind, and the
/// artist and the title as they are written.
pub proof fn law_like_line_can_be_read(
    t1: u64,
    k1: LikeKind,
    artist1: Seq<char>,
    title1: Seq<char>,
    t2: u64,
    k2: LikeKind,
    artist2: Seq<char>,
    title2: Seq<char>,
)
    requires
        likes::like_line(t1, k1, artist1, title1) == likes::like_line(t2, k2, artist2, title2),
    ensures
        t1 == t2,
        k1 == k2,
        likes::field(artist1) == likes::field(artist2),
        likes::field(title1) == likes::field(title2),
{
    reveal_strlit("\t");
    reveal_strlit("\n");
    reveal_strlit("LIKE");
    reveal_strlit("REALLY_LIKE");
    let tab = seq!['\t'];
    assert("\t"@ == tab);
    let (a1, a2) = (likes::field(artist1), likes::field(artist2));
    let (b1, b2) = (likes::field(title1), likes::field(title2));
    lemma_field(artist1);
    lemma_field(artist2);
    let d1 = text::decimal(t1 as nat);
    let d2 = text::decimal(t2 as nat);
    lemma_decimal_digits(t1 as nat);
    lemma_decimal_digits(t2 as nat);
    let line1 = likes::like_line(t1, k1, artist1, title1);
    let line2 = likes::like_line(t2, k2, artist2, title2);
    let end1 = b1 + "\n"@;
    let end2 = b2 + "\n"@;
    let from_artist1 = a1 + tab + end1;
    let from_artist2 = a2 + tab + end2;
    let from_kind1 = k1.tag() + tab + from_artist1;
    let from_kind2 = k2.tag() + tab + from_artist2;
    assert(line1 == d1 + tab + from_kind1);
    assert(line2 == d2 + tab + from_kind2);
    lemma_split_unique('\t', d1, from_kind1, d2, from_kind2);
    law_decimal_is_injective(t1 as nat, t2 as nat);
    lemma_split_unique('\t', k1.tag(), from_artist1, k2.tag(), from_artist2);
    lemma_split_unique('\t', a1, end1, a2, end2);
    assert(b1 == end1.take(b1.len() as int));
    assert(b2 == end2.take(b2.len() as int));
}

/// Each like is one line of the file: its text ends with a newline, has no
/// other, and is one line before the lines of whatever follows it. A carriage
/// return at its end counts as part of the line ending, as in every text.
pub proof fn law_one_line_per_like(
    timestamp: u64,
    kind: LikeKind,
    artist: Seq<char>,
    title: Seq<char>,
    rest: Seq<char>,
)
    ensures
        likes::like_line(timestamp, kind, artist, title).last() == '\n',
        !likes::like_line(timestamp, kind, artist, title).drop_last().contains('\n'),
        text::lines(likes::like_line(timestamp, kind, artist, title) + rest) == seq![
            text::without_cr(likes::like_line(timestamp, kind, artist, title).drop_last()),
        ] + text::lines(rest),
{
    reveal_strlit("\t");
    reveal_strlit("\n");
    reveal_strlit("LIKE");
    reveal_strlit("REALLY_LIKE");
    lemma_decimal_digits(timestamp as nat);
    lemma_field(artist);
    lemma_field(title);
    let d = text::decimal(timestamp as nat);
    let (x, y) = (likes::field(artist), likes::field(title));
    let line = likes::like_line(timestamp, kind, artist, title);
    let record = line.drop_last();
    assert(record == d + "\t"@ + kind.tag() + "\t"@ + x + "\t"@ + y);
    assert(line + rest == record + seq!['\n'] + rest);
    let a = d.len() as int;
    let b = a + 1 + kind.tag().len();
    let c = b + 1 + x.len();
    assert forall|i: int| 0 <= i < record.len() implies record[i] != '\n' by {
        if i < a {
            assert(record[i] == d[i]);
        } else if a < i < b {
            assert(record[i] == kind.tag()[i - a - 1]);
        } else if b < i < c {
            assert(record[i] == x[i - b - 1]);
            assert(x.contains(x[i - b - 1]));
        } else if c < i {
            assert(record[i] == y[i - c - 1]);
            assert(y.contains(y[i - c - 1]));
        }
    }
    assert(!record.contains('\n'));
    text::lemma_lines_cons(record, rest);
}

// ---------------------------------------------------------------- paths

/// Where the separator is a slash, the liked tracks are in
/// `.local/bin/wreckers.data` under the home directory.
pub proof fn law_memory_path(home: Seq<char>)
    ensures
        paths::memory_file('/', home) == paths::joined_by_slash(
            home,
            ".local/bin/wreckers.data"@,
        ),
{
    reveal_strlit(".local");
    reveal_strlit("bin");
    reveal_strlit("wreckers.data");
    reveal_strlit(".local/bin/wreckers.data");
    let local = paths::path_join('/', home, ".local"@);
    let bin = paths::path_join('/', local, "bin"@);
    assert(local.last() == 'l');
    assert(bin == local.push('/') + "bin"@);
    assert(paths::memory_file('/', home) == bin.push('/') + paths::MEMORY_FILE@);
    assert(paths::memory_file('/', home) == paths::joined_by_slash(
        home,
        ".local/bin/wreckers.data"@,
    ));
}

/// Where the likes go: under the directory that `HOME` names where it is set,
/// whatever else is; under the one that `USERPROFILE` names where only that is
/// set; under the current directory where neither is. On a platform with slashes
/// the file is `.local/bin/wreckers.data` there.
pub proof fn law_home_of_the_likes(
    home: Seq<char>,
    other: Option<Seq<char>>,
    profile: Seq<char>,
)
    ensures
        ({
            let file = ".local/bin/wreckers.data"@;
            let first = paths::memory_file('/', paths::home_dir(Some(home), other));
            let second = paths::memory_file('/', paths::home_dir(None, Some(profile)));
            let third = paths::memory_file('/', paths::home_dir(None, None));
            &&& home.len() > 0 && home.last() != '/' ==> first == home + seq!['/'] + file
            &&& home.len() == 0 || home.last() == '/' ==> first == home + file
            &&& profile.len() > 0 && profile.last() != '/' ==> second == profile + seq!['/'] + file
            &&& profile.len() == 0 || profile.last() == '/' ==> second == profile + file
            &&& third == "./.local/bin/wreckers.data"@
        }),
        paths::memory_file('\\', paths::home_dir(Some(home), other)) == paths::platform_join(
            '\\',
            paths::platform_join('\\', paths::platform_join('\\', home, ".local"@), "bin"@),
            "wreckers.data"@,
        ),
        paths::home_dir(Some(home), other) == home,
        paths::home_dir(None, Some(profile)) == profile,
{
    law_memory_path(home);
    law_memory_path(profile);
    law_memory_path("."@);
    let file = ".local/bin/wreckers.data"@;
    assert(home.push('/') + file == home + seq!['/'] + file);
    assert(profile.push('/') + file == profile + seq!['/'] + file);
    reveal_strlit(".");
    reveal_strlit(".local/bin/wreckers.data");
    reveal_strlit("./.local/bin/wreckers.data");
    assert("."@.push('/') + file == "./.local/bin/wreckers.data"@);
}

/// The endpoint of mpv names the process, in decimal: a socket in the directory
/// for temporary files, or a named pipe.
pub proof fn law_endpoint(host: paths::Host, pid: u32)
    ensures
        ({
            let name = paths::endpoint(host, pid);
            let number = text::decimal(pid as nat);
            match host {
                paths::Host::Unix { temp_dir } => {
                    let socket = "wreckersradio-mpv-"@ + number + ".sock"@;
                    if temp_dir@.len() == 0 || temp_dir@.last() == '/' {
                        name == temp_dir@ + socket
                    } else {
                        name == temp_dir@ + seq!['/'] + socket
                    }
                },
                paths::Host::Windows => name == "\\\\.\\pipe\\wreckersradio-mpv-"@ + number,
            }
        }),
{
    match host {
        paths::Host::Unix { temp_dir } => {
            let socket = paths::socket_name(pid);
            assert(temp_dir@.push('/') + socket == temp_dir@ + seq!['/'] + socket);
        },
        paths::Host::Windows => {},
    }
}

/// The blacklist at the start is the file next to the executable just where
/// there is one; otherwise it is `Blacklist.txt` in the current directory.
pub proof fn law_blacklist_at_the_start(
    candidate: Seq<char>,
    other: Option<Seq<char>>,
    found: bool,
)
    ensures
        paths::default_path(Some(candidate), true) == candidate,
        other is None || !found ==> paths::default_path(other, found) == "Blacklist.txt"@,
{
}

/// One path under another: on a platform with slashes a relative one is put
/// behind a slash, unless the other is empty or ends with one; every other case
/// is the platform's own.
pub proof fn law_join(base: Seq<char>, part: Seq<char>, result: Seq<char>)
    ensures
        paths::is_join(base, part, result) <==> {
            ||| result == paths::platform_join('\\', base, part)
            ||| part.len() > 0 && part[0] == '/' && result == paths::platform_join('/', base, part)
            ||| !(part.len() > 0 && part[0] == '/') && base.len() > 0 && base.last() != '/'
                && result == base + seq!['/'] + part
            ||| !(part.len() > 0 && part[0] == '/') && (base.len() == 0 || base.last() == '/')
                && result == base + part
        },
        paths::joined_by_slash(base, part) == (if base.len() > 0 && base.last() != '/' {
            base + seq!['/'] + part
        } else {
            base + part
        }),
{
    assert(base.push('/') + part == base + seq!['/'] + part);
    let slash = paths::path_join('/', base, part);
    let other = paths::path_join('\\', base, part);
    assert(paths::is_main_separator('/') && paths::is_main_separator('\\'));
    if paths::is_join(base, part, result) {
        let s = choose|s: char|
            paths::is_main_separator(s) && result == #[trigger] paths::path_join(s, base, part);
        assert(s == '/' || s == '\\');
    }
}

/// The parent and the file name of a path are those of one of the two kinds of
/// platforms.
pub proof fn law_platforms(path: Seq<char>, part: Option<Seq<char>>)
    ensures
        paths::is_parent(path, part) <==> part == paths::path_parent('/', path) || part
            == paths::path_parent('\\', path),
        paths::is_file_name(path, part) <==> part == paths::path_file_name('/', path) || part
            == paths::path_file_name('\\', path),
{
    assert(paths::is_main_separator('/') && paths::is_main_separator('\\'));
}

/// A dialog starts in the parent directory and with the file's name; where there
/// is none, or the parent is the empty path, in the current directory and with
/// the usual name.
pub proof fn law_dialog_start(dir: Seq<char>, name: Seq<char>)
    ensures
        dir.len() > 0 ==> paths::dialog_dir(Some(dir)) == dir,
        dir.len() == 0 ==> paths::dialog_dir(Some(dir)) == "."@,
        paths::dialog_dir(None) == "."@,
        paths::name_or_default(Some(name)) == name,
        paths::name_or_default(None) == "Blacklist.txt"@,
{
}

/// The components of a path, part by part: a name adds itself, a `.` and a slash
/// at the end add nothing, and what a path starts from is the root, the current
/// directory or nothing.
pub proof fn law_components(dir: Seq<char>, name: Seq<char>)
    requires
        name.len() > 0,
        name != seq!['.'],
        !name.contains('/'),
    ensures
        paths::components(Seq::<char>::empty()).len() == 0,
        paths::components(seq!['/']) == seq![seq!['/']],
        paths::components(seq!['.']) == seq![seq!['.']],
        paths::components(name) == seq![name],
        paths::components(seq!['/'] + name) == seq![seq!['/'], name],
        dir.len() > 0 ==> paths::components(dir + seq!['/'] + name) == paths::components(dir).push(
            name,
        ),
        dir.len() > 0 ==> paths::components(dir + seq!['/']) == paths::components(dir),
        dir.len() > 0 ==> paths::components(dir + seq!['/', '.']) == paths::components(dir),
{
    let none = Seq::<char>::empty();
    let root = seq!['/'];
    let dot = seq!['.'];
    paths::lemma_root();
    assert forall|i: int| 0 <= i < name.len() implies name[i] != '/' by {
        assert(name.contains(name[i]));
    }
    paths::lemma_last_piece_is(dot, 1);
    assert(dot.skip(0) == dot);
    assert(paths::components(dot) == seq![dot]);
    paths::lemma_last_piece_is(name, name.len() as int);
    assert(name.skip(0) == name);
    if name[0] == '.' && name.len() == 1 {
        assert(name == dot);
    }
    assert(paths::components(name) == seq![name]);
    paths::lemma_join(root, name);
    assert(paths::components(root).push(name) == seq![root, name]);
    if dir.len() > 0 {
        let n = name.len() as int;
        let path = dir + root + name;
        assert forall|i: int| path.len() - n <= i < path.len() implies path[i] != '/' by {
            assert(path[i] == name[i - dir.len() - 1]);
        }
        paths::lemma_last_piece_is(path, n);
        assert(path.skip(path.len() - n) == name);
        assert(path.take(path.len() - n - 1) == dir);
        assert(paths::pieces(path) == paths::pieces(dir).push(name));
        assert(paths::origin(path) == paths::origin(dir));
        assert(paths::components(path) == paths::components(dir).push(name));
        let slashed = dir + root;
        paths::lemma_last_piece_is(slashed, 0);
        assert(slashed.skip(slashed.len() as int) == none);
        assert(slashed.take(slashed.len() - 1) == dir);
        assert(paths::origin(slashed) == paths::origin(dir));
        let dotted = dir + seq!['/', '.'];
        paths::lemma_last_piece_is(dotted, 1);
        assert(dotted.skip(dotted.len() - 1) == dot);
        assert(dotted.take(dotted.len() - 2) == dir);
        assert(paths::origin(dotted) == paths::origin(dir));
    }
}

/// The file name of a path is its last component, unless that is the root, `.`
/// or `..`; a path can be taken a component off unless it is empty or the root.
pub proof fn law_final_name(path: Seq<char>)
    ensures
        ({
            let c = paths::components(path);
            &&& c.len() == 0 ==> paths::final_name(path) is None && !paths::has_parent(path)
            &&& c.len() > 1 ==> paths::has_parent(path)
            &&& c.len() == 1 ==> (paths::has_parent(path) <==> c[0] != seq!['/'])
            &&& c.len() > 0 && (c.last() == seq!['/'] || c.last() == seq!['.'] || c.last() == seq![
                '.',
                '.',
            ]) ==> paths::final_name(path) is None
            &&& c.len() > 0 && c.last() != seq!['/'] && c.last() != seq!['.'] && c.last() != seq![
                '.',
                '.',
            ] ==> paths::final_name(path) == Some(c.last())
        }),
        forall|dir: Seq<char>| #[trigger]
            paths::is_rest_of(path, Some(dir)) <==> paths::has_parent(path) && paths::components(
                dir,
            ) == paths::components(path).drop_last(),
        paths::is_rest_of(path, None) <==> !paths::has_parent(path),
{
    let c = paths::components(path);
    if c.len() == 1 && c[0] == seq!['/'] {
        assert(c == seq![seq!['/']]);
    }
}

/// Which paths are plain: the characters that tell platforms apart are left out,
/// and nothing else is.
pub proof fn law_plain_paths(dir: Seq<char>, name: Seq<char>)
    requires
        !dir.contains('\\') && !dir.contains(':'),
        !name.contains('/') && !name.contains('\\') && !name.contains(':'),
        name.len() > 0 && name != seq!['.'] && name != seq!['.', '.'],
    ensures
        paths::is_plain_name(name),
        paths::is_root_file(seq!['/'] + name),
        dir.len() < 2 || dir[0] != '/' || dir[1] != '/' ==> paths::is_slash_path(dir),
        dir.len() > 0 && dir.last() != '/' && (dir.len() < 2 || dir[0] != '/' || dir[1] != '/') && (
        dir.len() < 2 || dir.last() != '.' || dir[dir.len() - 2] != '/') ==> paths::is_split(
            dir + seq!['/'] + name,
            dir,
            name,
        ),
{
    assert forall|i: int| 0 <= i < dir.len() implies (#[trigger] dir[i]) != '\\' && dir[i] != ':' by {
        assert(dir.contains(dir[i]));
    }
    assert forall|i: int| 0 <= i < name.len() implies (#[trigger] name[i]) != '/' && name[i] != '\\'
        && name[i] != ':' by {
        assert(name.contains(name[i]));
    }
    assert((seq!['/'] + name).skip(1) == name);
}

/// Every run has an IPC endpoint of its own: processes with different numbers
/// have different endpoints.
pub proof fn law_endpoints_differ(host: paths::Host, a: u32, b: u32)
    requires
        a != b,
    ensures
        paths::endpoint(host, a) != paths::endpoint(host, b),
{
    let x = text::decimal(a as nat);
    let y = text::decimal(b as nat);
    let p = paths::endpoint(host, a);
    let q = paths::endpoint(host, b);
    if p == q {
        match host {
            paths::Host::Unix { temp_dir } => {
                let dir = if temp_dir@.len() == 0 || temp_dir@.last() == '/' {
                    temp_dir@
                } else {
                    temp_dir@.push('/')
                };
                let n = dir.len() + "wreckersradio-mpv-"@.len();
                let tail = ".sock"@.len();
                assert(p == dir + paths::socket_name(a));
                assert(q == dir + paths::socket_name(b));
                assert(p.subrange(n as int, p.len() - tail) == x);
                assert(q.subrange(n as int, q.len() - tail) == y);
            },
            paths::Host::Windows => {
                let n = "\\\\.\\pipe\\wreckersradio-mpv-"@.len();
                assert(p.skip(n as int) == x);
                assert(q.skip(n as int) == y);
            },
        }
        law_decimal_is_injective(a as nat, b as nat);
    }
}

/// The directory and the name into which a path is split are, joined again with
/// a slash, the same path: it has the same components.
pub proof fn law_split_loses_nothing(path: Seq<char>, dir: Seq<char>)
    requires
        paths::final_name(path) is Some,
        paths::components(path).len() > 1,
        paths::components(dir) == paths::components(path).drop_last(),
    ensures
        paths::components(paths::path_join('/', dir, paths::final_name(path)->0))
            == paths::components(path),
{
    let name = paths::final_name(path)->0;
    paths::lemma_final_name(path);
    paths::lemma_join(dir, name);
    let c = paths::components(path);
    assert(c.drop_last().push(c.last()) == c);
}

/// Where a path is a plain directory, a slash and a plain name, these two joined
/// again are the path to the letter.
pub proof fn law_plain_split_is_kept(path: Seq<char>, dir: Seq<char>, name: Seq<char>)
    requires
        paths::is_split(path, dir, name),
    ensures
        paths::path_join('/', dir, name) == path,
        paths::components(path) == paths::components(dir).push(name),
{
    assert(dir.push('/') + name == dir + seq!['/'] + name);
    paths::lemma_join(dir, name);
}

} // verus!
