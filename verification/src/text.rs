//! Text: the string operations the player is built from, and what they mean on
//! sequences of characters.

use vstd::prelude::*;
use vstd::string::*;

verus! {

/// The text of an optional string.
pub open spec fn optional_text(s: Option<String>) -> Option<Seq<char>> {
    match s {
        Some(s) => Some(s@),
        None => None,
    }
}

/// The texts of a sequence of strings.
pub open spec fn texts(v: Seq<String>) -> Seq<Seq<char>> {
    v.map_values(|s: String| s@)
}

// ---------------------------------------------------------------- numbers

/// The decimal digit of a number below ten.
pub open spec fn digit(n: nat) -> char {
    (48 + n) as char
}

/// A number written in decimal, without leading zeros.
pub open spec fn decimal(n: nat) -> Seq<char>
    decreases n,
{
    if n < 10 {
        seq![digit(n)]
    } else {
        decimal(n / 10).push(digit(n % 10))
    }
}

/// Writes a number in decimal.
pub fn decimal_text(n: u64) -> (r: String)
    ensures
        r@ == decimal(n as nat),
    decreases n,
{
    let mut r: String = if n < 10 {
        String::new()
    } else {
        decimal_text(n / 10)
    };
    let last: u8 = (n % 10) as u8;
    r.push((48u8 + last) as char);
    r
}

// ---------------------------------------------------------------- pieces

/// `String::push` appends one character.
pub assume_specification[ String::push ](s: &mut String, c: char)
    ensures
        final(s)@ == old(s)@.push(c),
;

/// Two texts, one after the other.
pub fn concat2(a: &str, b: &str) -> (r: String)
    ensures
        r@ == a@ + b@,
{
    let mut r: String = a.to_owned();
    r.append(b);
    r
}

/// Three texts, one after the other.
pub fn concat3(a: &str, b: &str, c: &str) -> (r: String)
    ensures
        r@ == a@ + b@ + c@,
{
    let mut r: String = concat2(a, b);
    r.append(c);
    r
}

/// Whether `needle` stands somewhere in `haystack`, in one piece.
pub open spec fn occurs_in(needle: Seq<char>, haystack: Seq<char>) -> bool {
    exists|i: int|
        0 <= i <= haystack.len() - needle.len() && #[trigger] haystack.subrange(
            i,
            i + needle.len(),
        ) == needle
}

/// `str::contains` with a string as its pattern: whether the pattern is a
/// piece of the text.
#[verifier::external_body]
pub(crate) fn contains_text(haystack: &str, needle: &str) -> (r: bool)
    ensures
        r == occurs_in(needle@, haystack@),
{
    haystack.contains(needle)
}

// ---------------------------------------------------------------- case

/// The lower-case form of an ASCII character; any other character as it is.
pub open spec fn ascii_lower(c: char) -> char {
    if 65 <= c as int <= 90 {
        (c as int + 32) as char
    } else {
        c
    }
}

/// An ASCII character that is not a letter.
pub open spec fn is_caseless_ascii(c: char) -> bool {
    &&& (c as int) < 128
    &&& !(65 <= c as int <= 90)
    &&& !(97 <= c as int <= 122)
}

/// The characters with the Unicode property White_Space.
pub open spec fn is_white_space(c: char) -> bool {
    let n = c as int;
    ||| 0x9 <= n <= 0xD
    ||| n == 0x20
    ||| n == 0x85
    ||| n == 0xA0
    ||| n == 0x1680
    ||| 0x2000 <= n <= 0x200A
    ||| n == 0x2028
    ||| n == 0x2029
    ||| n == 0x202F
    ||| n == 0x205F
    ||| n == 0x3000
}

/// A character that has no case: an ASCII character that is not a letter, or
/// white space.
pub open spec fn is_caseless(c: char) -> bool {
    is_caseless_ascii(c) || is_white_space(c)
}

/// What `str::to_lowercase` gives for a text that is not all ASCII: the
/// Unicode lower-case mapping.
pub uninterp spec fn unicode_lowercase(s: Seq<char>) -> Seq<char>;

/// The lower-case form of a text.
pub open spec fn lowercase(s: Seq<char>) -> Seq<char> {
    if vstd::utf8::is_ascii_chars(s) {
        s.map_values(|c: char| ascii_lower(c))
    } else {
        unicode_lowercase(s)
    }
}

/// Two texts with a space between them.
pub open spec fn spaced(a: Seq<char>, b: Seq<char>) -> Seq<char> {
    a + seq![' '] + b
}

/// `str::to_lowercase`. The ASCII letters `A` to `Z` become `a` to `z` and the
/// other ASCII characters stay; for a text with other characters in it the
/// result is the one named by `unicode_lowercase`. Every character has a
/// lower-case form of at least one character, and what is in lower case is its
/// own lower-case form. A character without case is its own lower-case form and
/// stands in that of no other character; of this, what is claimed is which such
/// characters the result holds, and what its first and last characters are. The
/// only letter whose form depends on those around it is the capital sigma, which
/// has another one at the end of a word; a space ends a word, so that the texts
/// before and behind a space are put in lower case each for itself.
pub assume_specification[ str::to_lowercase ](s: &str) -> (r: String)
    ensures
        vstd::utf8::is_ascii_chars(s@) ==> r@ == s@.map_values(|c: char| ascii_lower(c)),
        !vstd::utf8::is_ascii_chars(s@) ==> r@ == unicode_lowercase(s@),
        lowercase(r@) == r@,
        s@.len() > 0 ==> r@.len() > 0,
        s@.len() > 0 && (is_caseless(s@[0]) || is_caseless(r@[0])) ==> r@[0] == s@[0],
        s@.len() > 0 && (is_caseless(s@.last()) || is_caseless(r@.last())) ==> r@.last()
            == s@.last(),
        forall|c: char| is_caseless(c) ==> #[trigger] r@.contains(c) == s@.contains(c),
        forall|a: Seq<char>, b: Seq<char>|
            s@ == #[trigger] spaced(a, b) ==> r@ == spaced(lowercase(a), lowercase(b)),
;

// ---------------------------------------------------------------- white space

/// A text without its leading white space.
pub open spec fn trim_start(s: Seq<char>) -> Seq<char>
    decreases s.len(),
{
    if s.len() > 0 && is_white_space(s[0]) {
        trim_start(s.drop_first())
    } else {
        s
    }
}

/// A text without its trailing white space.
pub open spec fn trim_end(s: Seq<char>) -> Seq<char>
    decreases s.len(),
{
    if s.len() > 0 && is_white_space(s.last()) {
        trim_end(s.drop_last())
    } else {
        s
    }
}

/// A text without the white space at its two ends.
pub open spec fn trimmed(s: Seq<char>) -> Seq<char> {
    trim_end(trim_start(s))
}

/// `str::trim` takes the characters with the property White_Space from both
/// ends of a text.
pub assume_specification[ str::trim ](s: &str) -> (r: &str)
    ensures
        r@ == trimmed(s@),
;

/// A text that does not start with white space keeps its first character.
pub proof fn lemma_trimmed_start(s: Seq<char>)
    requires
        s.len() > 0,
        !is_white_space(s[0]),
    ensures
        trimmed(s).len() > 0,
        trimmed(s)[0] == s[0],
    decreases s.len(),
{
    if is_white_space(s.last()) {
        assert(s.drop_last()[0] == s[0]);
        lemma_trimmed_start(s.drop_last());
        assert(trim_start(s.drop_last()) == s.drop_last());
    }
}

/// Trimming leaves nothing to trim, and adds nothing.
pub proof fn lemma_trimmed(s: Seq<char>)
    ensures
        trimmed(s).len() > 0 ==> !is_white_space(trimmed(s)[0]) && !is_white_space(
            trimmed(s).last(),
        ),
        forall|c: char| #[trigger] trimmed(s).contains(c) ==> s.contains(c),
{
    lemma_trim_start(s);
    lemma_trim_end(trim_start(s));
}

proof fn lemma_trim_start(s: Seq<char>)
    ensures
        trim_start(s).len() > 0 ==> !is_white_space(trim_start(s)[0]),
        forall|c: char| #[trigger] trim_start(s).contains(c) ==> s.contains(c),
    decreases s.len(),
{
    if s.len() > 0 && is_white_space(s[0]) {
        let t = s.drop_first();
        lemma_trim_start(t);
        assert forall|c: char| #[trigger] trim_start(s).contains(c) implies s.contains(c) by {
            assert(t.contains(c));
            let i = choose|i: int| 0 <= i < t.len() && t[i] == c;
            assert(s[i + 1] == c);
        }
    }
}

proof fn lemma_trim_end(s: Seq<char>)
    ensures
        trim_end(s).len() > 0 ==> trim_end(s)[0] == s[0] && !is_white_space(trim_end(s).last()),
        forall|c: char| #[trigger] trim_end(s).contains(c) ==> s.contains(c),
    decreases s.len(),
{
    if s.len() > 0 && is_white_space(s.last()) {
        let t = s.drop_last();
        lemma_trim_end(t);
        assert forall|c: char| #[trigger] trim_end(s).contains(c) implies s.contains(c) by {
            assert(t.contains(c));
            let i = choose|i: int| 0 <= i < t.len() && t[i] == c;
            assert(s[i] == c);
        }
    }
}

// ---------------------------------------------------------------- lines

/// How many characters stand before the first newline; all of them where there
/// is none.
pub open spec fn first_line_len(s: Seq<char>) -> nat
    decreases s.len(),
{
    if s.len() == 0 || s[0] == '\n' {
        0
    } else {
        1 + first_line_len(s.drop_first())
    }
}

/// A line without the carriage return at its end, if it has one.
pub open spec fn without_cr(line: Seq<char>) -> Seq<char> {
    if line.len() > 0 && line.last() == '\r' {
        line.drop_last()
    } else {
        line
    }
}

/// The lines of a text. A line ends at a newline, or at a carriage return and
/// a newline; the last line may lack its ending.
pub open spec fn lines(s: Seq<char>) -> Seq<Seq<char>>
    decreases s.len(),
{
    let n = first_line_len(s);
    if s.len() == 0 {
        Seq::empty()
    } else if n >= s.len() {
        seq![s]
    } else {
        seq![without_cr(s.take(n as int))] + lines(s.skip(n as int + 1))
    }
}

/// `first_line_len` is where the first newline stands.
pub proof fn lemma_first_line_len(s: Seq<char>, n: int)
    requires
        0 <= n <= s.len(),
        forall|i: int| 0 <= i < n ==> s[i] != '\n',
        n < s.len() ==> s[n] == '\n',
    ensures
        first_line_len(s) == n,
    decreases s.len(),
{
    if n > 0 {
        lemma_first_line_len(s.drop_first(), n - 1);
    }
}

/// The lines of a text that begins with a whole line.
pub proof fn lemma_lines_cons(line: Seq<char>, rest: Seq<char>)
    requires
        !line.contains('\n'),
    ensures
        lines(line + seq!['\n'] + rest) == seq![without_cr(line)] + lines(rest),
{
    let s = line + seq!['\n'] + rest;
    assert forall|i: int| 0 <= i < line.len() implies s[i] != '\n' by {
        assert(line.contains(line[i]));
    }
    lemma_first_line_len(s, line.len() as int);
    assert(s.take(line.len() as int) == line);
    assert(s.skip(line.len() as int + 1) == rest);
}

/// A text without a newline is one line, or none where it is empty.
pub proof fn lemma_lines_single(line: Seq<char>)
    requires
        !line.contains('\n'),
    ensures
        line.len() == 0 ==> lines(line) == Seq::<Seq<char>>::empty(),
        line.len() > 0 ==> lines(line) == seq![line],
{
    assert forall|i: int| 0 <= i < line.len() implies line[i] != '\n' by {
        assert(line.contains(line[i]));
    }
    lemma_first_line_len(line, line.len() as int);
}

/// The first line ends at the first newline, or with the text.
pub proof fn lemma_first_line(s: Seq<char>)
    ensures
        first_line_len(s) <= s.len(),
        forall|i: int| 0 <= i < first_line_len(s) ==> s[i] != '\n',
        first_line_len(s) < s.len() ==> s[first_line_len(s) as int] == '\n',
    decreases s.len(),
{
    if s.len() > 0 && s[0] != '\n' {
        let t = s.drop_first();
        lemma_first_line(t);
        assert forall|i: int| 0 <= i < first_line_len(s) implies s[i] != '\n' by {
            if i > 0 {
                assert(t[i - 1] == s[i]);
            }
        }
    }
}

/// No line has a newline in it.
pub proof fn lemma_lines_have_no_newline(s: Seq<char>)
    ensures
        forall|i: int| 0 <= i < lines(s).len() ==> !(#[trigger] lines(s)[i]).contains('\n'),
    decreases s.len(),
{
    lemma_first_line(s);
    let n = first_line_len(s) as int;
    if s.len() > 0 && n < s.len() {
        let rest = s.skip(n + 1);
        lemma_lines_have_no_newline(rest);
        assert forall|i: int| 0 <= i < lines(s).len() implies !(#[trigger] lines(s)[i]).contains(
            '\n',
        ) by {
            if i > 0 {
                assert(lines(s)[i] == lines(rest)[i - 1]);
            }
        }
    }
}

/// Splits a text into its lines.
pub fn split_lines(s: &str) -> (r: Vec<String>)
    ensures
        texts(r@) == lines(s@),
{
    let mut r: Vec<String> = Vec::new();
    let mut line: String = String::new();
    let mut cr: bool = false;
    let ghost mut held: Seq<char> = Seq::empty();
    proof {
        assert(held + s@.skip(0) == s@);
        assert(texts(r@) + lines(s@) == lines(s@));
    }
    for c in it: s.chars()
        invariant
            it.seq() == s@,
            lines(s@) == texts(r@) + lines(held + s@.skip(it.index())),
            held == (if cr { line@.push('\r') } else { line@ }),
            !held.contains('\n'),
            !cr ==> line@.len() == 0 || line@.last() != '\r',
    {
        let ghost k = it.index();
        let ghost rest = s@.skip(k + 1);
        let ghost before = held;
        proof {
            assert(c == s@[k]);
            assert(s@.skip(k) == seq![c] + rest);
        }
        if c == '\n' {
            proof {
                assert(before + s@.skip(k) == before + seq!['\n'] + rest);
                lemma_lines_cons(before, rest);
                if cr {
                    assert(line@.push('\r').drop_last() == line@);
                }
                assert(without_cr(before) == line@);
                held = Seq::empty();
                assert(held + rest == rest);
                assert(texts(r@.push(line)) == texts(r@) + seq![line@]);
                assert(texts(r@) + (seq![line@] + lines(rest)) == texts(r@) + seq![line@] + lines(
                    rest,
                ));
            }
            r.push(line);
            line = String::new();
            cr = false;
        } else {
            if cr {
                line.push('\r');
            }
            if c == '\r' {
                cr = true;
            } else {
                line.push(c);
                cr = false;
            }
            proof {
                held = before.push(c);
                assert(held + rest == before + s@.skip(k));
                assert forall|i: int| 0 <= i < held.len() implies held[i] != '\n' by {
                    if i < before.len() {
                        assert(before.contains(before[i]));
                    }
                }
            }
        }
    }
    proof {
        assert(held + s@.skip(s@.len() as int) == held);
        lemma_lines_single(held);
    }
    if cr {
        line.push('\r');
    }
    if !line.as_str().is_empty() {
        proof {
            assert(texts(r@.push(line)) == texts(r@) + seq![line@]);
        }
        r.push(line);
    } else {
        proof {
            assert(texts(r@) + Seq::<Seq<char>>::empty() == texts(r@));
        }
    }
    r
}

} // verus!
