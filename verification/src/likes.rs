//! Liked tracks: a file with one line for each like.

use vstd::prelude::*;
use crate::text;

verus! {

/// How much a track is liked.
#[derive(Debug, Clone, Copy, PartialEq, Eq, Structural)]
pub enum LikeKind {
    Like,
    ReallyLike,
}

impl LikeKind {
    /// The word for this kind in the file.
    pub open spec fn tag(self) -> Seq<char> {
        match self {
            LikeKind::Like => "LIKE"@,
            LikeKind::ReallyLike => "REALLY_LIKE"@,
        }
    }

    /// How this kind is told to the listener.
    pub open spec fn label(self) -> Seq<char> {
        match self {
            LikeKind::Like => "👍 Liked"@,
            LikeKind::ReallyLike => "❤ Really liked"@,
        }
    }

    /// The word for this kind in the file.
    pub fn tag_text(self) -> (r: &'static str)
        ensures
            r@ == self.tag(),
    {
        match self {
            LikeKind::Like => "LIKE",
            LikeKind::ReallyLike => "REALLY_LIKE",
        }
    }

    /// How this kind is told to the listener.
    pub fn label_text(self) -> (r: &'static str)
        ensures
            r@ == self.label(),
    {
        match self {
            LikeKind::Like => "👍 Liked",
            LikeKind::ReallyLike => "❤ Really liked",
        }
    }
}

/// A character as it is written in a field: a tab or a newline would end the
/// field, and is written as a space.
pub open spec fn field_char(c: char) -> char {
    if c == '\t' || c == '\n' {
        ' '
    } else {
        c
    }
}

/// A text as it is written in a field.
pub open spec fn field(s: Seq<char>) -> Seq<char> {
    s.map_values(|c: char| field_char(c))
}

/// The line for one like: the Unix time, the kind, the artist and the title,
/// with tabs between them and a newline behind.
pub open spec fn like_line(
    timestamp: u64,
    kind: LikeKind,
    artist: Seq<char>,
    title: Seq<char>,
) -> Seq<char> {
    text::decimal(timestamp as nat) + "\t"@ + kind.tag() + "\t"@ + field(artist) + "\t"@ + field(
        title,
    ) + "\n"@
}

/// A text as it is written in a field.
pub fn field_text(s: &str) -> (r: String)
    ensures
        r@ == field(s@),
{
    let mut r: String = String::new();
    for c in it: s.chars()
        invariant
            it.seq() == s@,
            r@ == field(s@.take(it.index())),
    {
        proof {
            assert(c == s@[it.index()]);
            assert(s@.take(it.index() + 1) == s@.take(it.index()).push(c));
            assert(field(s@.take(it.index() + 1)) == field(s@.take(it.index())).push(
                field_char(c),
            ));
        }
        if c == '\t' || c == '\n' {
            r.push(' ');
        } else {
            r.push(c);
        }
    }
    assert(s@.take(s@.len() as int) == s@);
    r
}

/// What to append to the file of liked tracks for one like: one line.
pub fn append_like(timestamp: u64, kind: LikeKind, artist: &str, title: &str) -> (r: String)
    ensures
        r@ == like_line(timestamp, kind, artist@, title@),
        r@.len() > 0 && r@.last() == '\n' && !r@.drop_last().contains('\n'),
{
    proof {
        crate::file_laws::law_one_line_per_like(
            timestamp,
            kind,
            artist@,
            title@,
            Seq::<char>::empty(),
        );
        reveal_strlit("\n");
    }
    let artist: String = field_text(artist);
    let title: String = field_text(title);
    let mut r: String = text::decimal_text(timestamp);
    r.append("\t");
    r.append(kind.tag_text());
    r.append("\t");
    r.append(artist.as_str());
    r.append("\t");
    r.append(title.as_str());
    r.append("\n");
    r
}

} // verus!
