//! File paths: where the blacklist, the file of liked tracks and mpv's IPC
//! endpoint are, and where the file dialogs start.
//!
//! A path is held as text. How a path divides into components depends on the
//! platform, which is told apart by its main separator.

use vstd::prelude::*;
use crate::blacklist::BLACKLIST_FILE;
use crate::text;

verus! {

/// The name of the file of liked tracks.
pub const MEMORY_FILE: &'static str = "wreckers.data";

/// A character that is the main separator of some platform.
pub open spec fn is_main_separator(c: char) -> bool {
    c == '/' || c == '\\'
}

/// A file name that has no directory with it on any platform.
pub open spec fn is_plain_name(path: Seq<char>) -> bool {
    &&& path.len() > 0
    &&& path != seq!['.']
    &&& path != seq!['.', '.']
    &&& forall|i: int|
        0 <= i < path.len() ==> (#[trigger] path[i]) != '/' && path[i] != '\\' && path[i] != ':'
}

/// A directory, written with slashes, to which a slash and a plain name can be
/// added on any platform: it does not end with a slash or with a component `.`
/// behind a slash, and has no part that some platform takes for a drive or a
/// server.
pub open spec fn is_plain_dir(dir: Seq<char>) -> bool {
    &&& dir.len() > 0
    &&& dir.last() != '/'
    &&& !(dir.len() > 1 && dir[dir.len() - 2] == '/' && dir.last() == '.')
    &&& !(dir.len() > 1 && dir[0] == '/' && dir[1] == '/')
    &&& forall|i: int| 0 <= i < dir.len() ==> (#[trigger] dir[i]) != '\\' && dir[i] != ':'
}

/// Whether a path is a plain directory, a slash and a plain name.
pub open spec fn is_split(path: Seq<char>, dir: Seq<char>, name: Seq<char>) -> bool {
    &&& path == dir + seq!['/'] + name
    &&& is_plain_dir(dir)
    &&& is_plain_name(name)
}

/// A file in the root directory, written with a slash.
pub open spec fn is_root_file(path: Seq<char>) -> bool {
    path.len() > 1 && path[0] == '/' && is_plain_name(path.skip(1))
}

// ---------------------------------------------------------------- components

/// A path that divides at its slashes, and nowhere else, on every platform: it
/// has no backslash and no colon, and does not begin with two slashes.
pub open spec fn is_slash_path(path: Seq<char>) -> bool {
    &&& !(path.len() > 1 && path[0] == '/' && path[1] == '/')
    &&& forall|i: int| 0 <= i < path.len() ==> (#[trigger] path[i]) != '\\' && path[i] != ':'
}

/// How many characters stand behind the last slash; all of them where there is
/// none.
pub open spec fn last_piece_len(path: Seq<char>) -> nat
    decreases path.len(),
{
    if path.len() == 0 || path.last() == '/' {
        0
    } else {
        1 + last_piece_len(path.drop_last())
    }
}

/// A piece between slashes that counts: it is neither empty nor `.`.
pub open spec fn is_piece(piece: Seq<char>) -> bool {
    &&& piece.len() > 0
    &&& piece != seq!['.']
    &&& !piece.contains('/')
}

/// The pieces of a path between its slashes, without those that are empty or
/// `.`.
pub open spec fn pieces(path: Seq<char>) -> Seq<Seq<char>>
    decreases path.len(),
{
    let n = last_piece_len(path) as int;
    let piece = path.skip(path.len() - n);
    let before = if n >= path.len() {
        Seq::empty()
    } else {
        pieces(path.take(path.len() - n - 1))
    };
    if piece.len() == 0 || piece == seq!['.'] {
        before
    } else {
        before.push(piece)
    }
}

/// What a path starts from: the root, written `/`, the current directory where
/// it says so with a `.`, or nothing.
pub open spec fn origin(path: Seq<char>) -> Seq<Seq<char>> {
    if path.len() > 0 && path[0] == '/' {
        seq![seq!['/']]
    } else if path.len() > 0 && path[0] == '.' && (path.len() == 1 || path[1] == '/') {
        seq![seq!['.']]
    } else {
        Seq::empty()
    }
}

/// The components of a path that divides at its slashes. Slashes in a row count
/// as one, a slash at the end does not count, and a `.` counts only at the
/// beginning. Paths with the same components are the same path.
pub open spec fn components(path: Seq<char>) -> Seq<Seq<char>> {
    origin(path) + pieces(path)
}

/// The last component of a path, where that is a name.
pub open spec fn final_name(path: Seq<char>) -> Option<Seq<char>> {
    let c = components(path);
    if c.len() > 0 && c.last() != seq!['/'] && c.last() != seq!['.'] && c.last() != seq!['.', '.'] {
        Some(c.last())
    } else {
        None
    }
}

/// Whether a path has a last component that can be taken off: it is not empty,
/// and not the root.
pub open spec fn has_parent(path: Seq<char>) -> bool {
    components(path).len() > 0 && components(path) != seq![seq!['/']]
}

/// Whether `parent` is what is left of a path without its last component.
pub open spec fn is_rest_of(path: Seq<char>, parent: Option<Seq<char>>) -> bool {
    match parent {
        Some(dir) => has_parent(path) && components(dir) == components(path).drop_last(),
        None => !has_parent(path),
    }
}

/// `last_piece_len` is how far behind the last slash the end is.
pub proof fn lemma_last_piece_is(path: Seq<char>, n: int)
    requires
        0 <= n <= path.len(),
        forall|i: int| path.len() - n <= i < path.len() ==> path[i] != '/',
        n < path.len() ==> path[path.len() - n - 1] == '/',
    ensures
        last_piece_len(path) == n,
    decreases path.len(),
{
    if n > 0 {
        lemma_last_piece_is(path.drop_last(), n - 1);
    }
}

proof fn lemma_last_piece(path: Seq<char>)
    ensures
        last_piece_len(path) <= path.len(),
        forall|i: int| path.len() - last_piece_len(path) <= i < path.len() ==> path[i] != '/',
        last_piece_len(path) < path.len() ==> path[path.len() - last_piece_len(path) - 1] == '/',
    decreases path.len(),
{
    if path.len() > 0 && path.last() != '/' {
        let most = path.drop_last();
        lemma_last_piece(most);
        assert forall|i: int| path.len() - last_piece_len(path) <= i < path.len() implies path[i]
            != '/' by {
            if i < most.len() {
                assert(most[i] == path[i]);
            }
        }
    }
}

/// The pieces of a path are such.
proof fn lemma_pieces(path: Seq<char>)
    ensures
        forall|i: int| 0 <= i < pieces(path).len() ==> is_piece(#[trigger] pieces(path)[i]),
    decreases path.len(),
{
    lemma_last_piece(path);
    let n = last_piece_len(path) as int;
    let piece = path.skip(path.len() - n);
    assert(!piece.contains('/'));
    if n < path.len() {
        let before = pieces(path.take(path.len() - n - 1));
        lemma_pieces(path.take(path.len() - n - 1));
        assert forall|i: int| 0 <= i < pieces(path).len() implies is_piece(
            #[trigger] pieces(path)[i],
        ) by {
            if i < before.len() {
                assert(pieces(path)[i] == before[i]);
            }
        }
    }
}

/// A last component that is a name is a piece.
pub proof fn lemma_final_name(path: Seq<char>)
    ensures
        final_name(path) is Some ==> is_piece(final_name(path)->0),
{
    lemma_pieces(path);
    if pieces(path).len() > 0 {
        assert(components(path).last() == pieces(path).last());
    }
}

/// Only the empty path has no components.
proof fn lemma_no_components(path: Seq<char>)
    ensures
        components(path).len() == 0 <==> path.len() == 0,
    decreases path.len(),
{
    if path.len() > 0 {
        lemma_last_piece(path);
        let n = last_piece_len(path) as int;
        if n < path.len() && path[0] != '/' {
            let before = path.take(path.len() - n - 1);
            assert(path[path.len() - n - 1] == '/');
            assert(before.len() > 0);
            assert(before[0] == path[0]);
            lemma_no_components(before);
        } else if n >= path.len() {
            assert(path.skip(0) == path);
        }
    }
}

/// A piece behind a directory and a slash is one more component.
pub proof fn lemma_join(dir: Seq<char>, name: Seq<char>)
    requires
        dir.len() > 0,
        is_piece(name) || is_plain_name(name),
    ensures
        components(joined_by_slash(dir, name)) == components(dir).push(name),
{
    let path = joined_by_slash(dir, name);
    let n = name.len() as int;
    if is_plain_name(name) {
        assert forall|i: int| 0 <= i < name.len() implies name[i] != '/' by {}
    }
    assert forall|i: int| path.len() - n <= i < path.len() implies path[i] != '/' by {
        assert(path[i] == name[i - (path.len() - n)]);
        assert(name.contains(name[i - (path.len() - n)]));
    }
    lemma_last_piece_is(path, n);
    assert(path.skip(path.len() - n) == name);
    let before = path.take(path.len() - n - 1);
    if dir.last() == '/' {
        assert(before == dir.drop_last());
        assert(dir.take(dir.len() - 1) == dir.drop_last());
        assert(dir.skip(dir.len() as int).len() == 0);
        assert(pieces(dir) == pieces(before));
    } else {
        assert(before == dir);
    }
    assert(pieces(path) == pieces(dir).push(name));
    assert(origin(path) == origin(dir));
}

/// A plain name is its only component.
proof fn lemma_plain_name(path: Seq<char>)
    requires
        is_plain_name(path),
    ensures
        is_slash_path(path),
        components(path) == seq![path],
        final_name(path) == Some(path),
{
    lemma_last_piece_is(path, path.len() as int);
    assert(path.skip(0) == path);
    assert(path[0] != '/');
    if path[0] == '.' && path.len() == 1 {
        assert(path == seq!['.']);
    }
    assert(components(path) == seq![path]);
    assert(path != seq!['/']) by {
        assert(seq!['/'][0] == '/');
    }
}

/// The components of a directory, a slash and a name.
proof fn lemma_split(path: Seq<char>, dir: Seq<char>, name: Seq<char>)
    requires
        is_split(path, dir, name),
    ensures
        is_slash_path(path),
        components(path) == components(dir).push(name),
        final_name(path) == Some(name),
        joined_by_slash(dir, name) == path,
{
    assert(dir.push('/') + name == path);
    lemma_join(dir, name);
    lemma_plain_name(name);
    assert forall|i: int| 0 <= i < path.len() implies (#[trigger] path[i]) != '\\' && path[i]
        != ':' by {
        if i < dir.len() {
            assert(path[i] == dir[i]);
        } else if i > dir.len() {
            assert(path[i] == name[i - dir.len() - 1]);
        }
    }
}

/// The components of a file in the root directory.
proof fn lemma_root_file(path: Seq<char>)
    requires
        is_root_file(path),
    ensures
        is_slash_path(path),
        components(path) == seq![seq!['/'], path.skip(1)],
        final_name(path) == Some(path.skip(1)),
{
    let name = path.skip(1);
    let root = seq!['/'];
    assert(path == root + name);
    lemma_join(root, name);
    lemma_plain_name(name);
    lemma_root();
    assert(components(root).push(name) == seq![root, name]);
    assert forall|i: int| 0 <= i < path.len() implies (#[trigger] path[i]) != '\\' && path[i]
        != ':' by {
        if i > 0 {
            assert(path[i] == name[i - 1]);
        }
    }
    assert(path[1] == name[0]);
}

/// The components of the root and of the empty path.
pub proof fn lemma_root()
    ensures
        is_slash_path(seq!['/']),
        components(seq!['/']) == seq![seq!['/']],
        is_slash_path(Seq::<char>::empty()),
        components(Seq::<char>::empty()) == Seq::<Seq<char>>::empty(),
{
    let root = seq!['/'];
    let none = Seq::<char>::empty();
    assert(last_piece_len(root) == 0);
    assert(root.take(0) == none);
    assert(root.skip(1) == none);
    assert(none.skip(0) == none);
    assert(pieces(none) == Seq::<Seq<char>>::empty());
    assert(pieces(root) == Seq::<Seq<char>>::empty());
}

// ---------------------------------------------------------------- std's paths

/// What `Path::parent` gives on a platform with the given main separator.
pub uninterp spec fn path_parent(separator: char, path: Seq<char>) -> Option<Seq<char>>;

/// What `Path::file_name` gives on a platform with the given main separator.
pub uninterp spec fn path_file_name(separator: char, path: Seq<char>) -> Option<Seq<char>>;

/// What `PathBuf::push` makes of a path on a platform with the given main
/// separator, save for what `joined_by_slash` covers.
pub uninterp spec fn platform_join(separator: char, base: Seq<char>, part: Seq<char>) -> Seq<char>;

/// Two texts with a slash between them, unless the first is empty or already
/// ends with one.
pub open spec fn joined_by_slash(base: Seq<char>, part: Seq<char>) -> Seq<char> {
    if base.len() == 0 || base.last() == '/' {
        base + part
    } else {
        base.push('/') + part
    }
}

/// A path that does not begin with a slash.
pub open spec fn is_relative(part: Seq<char>) -> bool {
    part.len() == 0 || part[0] != '/'
}

/// `part` under `base`, on a platform with the given main separator.
pub open spec fn path_join(separator: char, base: Seq<char>, part: Seq<char>) -> Seq<char> {
    if separator == '/' && is_relative(part) {
        joined_by_slash(base, part)
    } else {
        platform_join(separator, base, part)
    }
}

/// The parts, one under the other, under `base`, on a platform with the given
/// main separator.
pub open spec fn path_joined(separator: char, base: Seq<char>, parts: Seq<Seq<char>>) -> Seq<char>
    decreases parts.len(),
{
    if parts.len() == 0 {
        base
    } else {
        path_join(separator, path_joined(separator, base, parts.drop_last()), parts.last())
    }
}

/// The texts of some parts of a path.
pub open spec fn part_texts(parts: Seq<&str>) -> Seq<Seq<char>> {
    parts.map_values(|p: &str| p@)
}

/// Whether `result` is `part` under `base` on some platform.
pub open spec fn is_join(base: Seq<char>, part: Seq<char>, result: Seq<char>) -> bool {
    exists|separator: char|
        is_main_separator(separator) && result == #[trigger] path_join(separator, base, part)
}

/// Whether `parent` is the parent of `path` on some platform.
pub open spec fn is_parent(path: Seq<char>, parent: Option<Seq<char>>) -> bool {
    exists|separator: char|
        is_main_separator(separator) && parent == #[trigger] path_parent(separator, path)
}

/// Whether `name` is the file name of `path` on some platform.
pub open spec fn is_file_name(path: Seq<char>, name: Option<Seq<char>>) -> bool {
    exists|separator: char|
        is_main_separator(separator) && name == #[trigger] path_file_name(separator, path)
}

/// `Path::parent`, with the main separator of the platform it ran on: the path
/// without its final component, which makes it shorter. Of a path that divides
/// at its slashes on every platform, it is known which components are left, and
/// that there is no parent just where the path is empty or the root. A plain
/// name behind a plain directory and a slash has that directory as its parent,
/// letter for letter; a file in the root directory has the root.
#[verifier::external_body]
fn parent_of(path: &str) -> (r: (char, Option<String>))
    ensures
        is_main_separator(r.0),
        text::optional_text(r.1) == path_parent(r.0, path@),
        r.1 is Some ==> r.1->0@.len() < path@.len(),
        is_slash_path(path@) ==> is_rest_of(path@, text::optional_text(r.1)),
        is_root_file(path@) ==> text::optional_text(r.1) == Some(seq!['/']),
        forall|dir: Seq<char>, name: Seq<char>| #[trigger]
            is_split(path@, dir, name) ==> text::optional_text(r.1) == Some(dir),
{
    let parent = std::path::Path::new(path).parent();
    (std::path::MAIN_SEPARATOR, parent.map(|p| p.to_string_lossy().into_owned()))
}

/// `Path::file_name`, with the main separator of the platform it ran on: the
/// final component of the path, where that is a name. It is never empty. Of a
/// path that divides at its slashes on every platform, it is known which
/// component that is.
#[verifier::external_body]
fn file_name_of(path: &str) -> (r: (char, Option<String>))
    ensures
        is_main_separator(r.0),
        text::optional_text(r.1) == path_file_name(r.0, path@),
        r.1 is Some ==> r.1->0@.len() > 0,
        is_slash_path(path@) ==> text::optional_text(r.1) == final_name(path@),
{
    let name = std::path::Path::new(path).file_name();
    (std::path::MAIN_SEPARATOR, name.map(|n| n.to_string_lossy().into_owned()))
}

/// `PathBuf::extend`, with the main separator of the platform it ran on: it
/// pushes the parts one after the other. Where the separator is a slash, a
/// relative path is put behind the path so far with a slash between, unless
/// that is empty or ends with a slash; else each push gives what
/// `platform_join` names.
#[verifier::external_body]
fn extend(base: &str, parts: &[&str]) -> (r: (char, String))
    ensures
        is_main_separator(r.0),
        r.1@ == path_joined(r.0, base@, part_texts(parts@)),
        parts@.len() == 1 && !(r.0 == '/' && is_relative(parts@[0]@)) ==> r.1@ == platform_join(
            r.0,
            base@,
            parts@[0]@,
        ),
{
    let mut path = std::path::PathBuf::from(base);
    path.extend(parts);
    (std::path::MAIN_SEPARATOR, path.to_string_lossy().into_owned())
}

/// `part` under `base`.
pub fn join_path(base: &str, part: &str) -> (r: String)
    ensures
        is_join(base@, part@, r@),
{
    let list: [&str; 1] = [part];
    let joined: (char, String) = extend(base, list.as_slice());
    proof {
        let parts = part_texts(list@);
        assert(parts == seq![part@]);
        assert(parts.drop_last() == Seq::<Seq<char>>::empty());
        assert(path_joined(joined.0, base@, parts.drop_last()) == base@);
        assert(joined.1@ == path_join(joined.0, base@, part@));
    }
    joined.1
}

/// The parent of a path, if it has one: what is left without the last component.
pub fn parent_path(path: &str) -> (r: Option<String>)
    ensures
        is_parent(path@, text::optional_text(r)),
        r is Some ==> r->0@.len() < path@.len(),
        is_slash_path(path@) ==> is_rest_of(path@, text::optional_text(r)),
        path@.len() == 0 || path@ == seq!['/'] ==> r is None,
        is_plain_name(path@) ==> text::optional_text(r) == Some(Seq::<char>::empty()),
        is_root_file(path@) ==> text::optional_text(r) == Some(seq!['/']),
        forall|dir: Seq<char>, name: Seq<char>| #[trigger]
            is_split(path@, dir, name) ==> text::optional_text(r) == Some(dir),
{
    let parent: (char, Option<String>) = parent_of(path);
    proof {
        lemma_root();
        assert(path@.len() == 0 ==> path@ == Seq::<char>::empty());
        if is_plain_name(path@) {
            lemma_plain_name(path@);
            assert(components(path@) != seq![seq!['/']]) by {
                assert(components(path@)[0] == path@);
                assert(seq!['/'][0] == '/');
            }
            lemma_no_components(parent.1->0@);
        }
    }
    parent.1
}

/// The file name of a path, if it has one: the last component.
pub fn file_name(path: &str) -> (r: Option<String>)
    ensures
        is_file_name(path@, text::optional_text(r)),
        r is Some ==> r->0@.len() > 0,
        is_slash_path(path@) ==> text::optional_text(r) == final_name(path@),
        path@.len() == 0 || path@ == seq!['/'] ==> r is None,
        is_plain_name(path@) ==> text::optional_text(r) == Some(path@),
        is_root_file(path@) ==> text::optional_text(r) == Some(path@.skip(1)),
        forall|dir: Seq<char>, name: Seq<char>| #[trigger]
            is_split(path@, dir, name) ==> text::optional_text(r) == Some(name),
{
    let name: (char, Option<String>) = file_name_of(path);
    proof {
        lemma_root();
        assert(path@.len() == 0 ==> path@ == Seq::<char>::empty());
        if is_plain_name(path@) {
            lemma_plain_name(path@);
        }
        if is_root_file(path@) {
            lemma_root_file(path@);
        }
        assert forall|dir: Seq<char>, part: Seq<char>| #[trigger]
            is_split(path@, dir, part) implies text::optional_text(name.1) == Some(part) by {
            lemma_split(path@, dir, part);
        }
    }
    name.1
}

// ---------------------------------------------------------------- dialogs

/// Where a dialog starts: in the parent directory, or in the current one
/// where there is no parent or it is the empty path.
pub open spec fn dialog_dir(parent: Option<Seq<char>>) -> Seq<char> {
    match parent {
        Some(dir) => if dir.len() > 0 {
            dir
        } else {
            "."@
        },
        None => "."@,
    }
}

/// A file name, or that of the blacklist where there is none.
pub open spec fn name_or_default(name: Option<Seq<char>>) -> Seq<char> {
    match name {
        Some(name) => name,
        None => BLACKLIST_FILE@,
    }
}

/// A file name, or that of the blacklist where there is none.
pub fn file_name_or_default(name: Option<String>) -> (r: String)
    ensures
        r@ == name_or_default(text::optional_text(name)),
{
    match name {
        Some(name) => name,
        None => BLACKLIST_FILE.to_owned(),
    }
}

/// The directory and the file name for a dialog about a file with the given
/// parent and file name.
pub fn dialog_start(parent: Option<String>, name: Option<String>) -> (r: (String, String))
    ensures
        r.0@ == dialog_dir(text::optional_text(parent)),
        r.1@ == name_or_default(text::optional_text(name)),
{
    let dir: String = match parent {
        Some(dir) => if dir.as_str().is_empty() {
            ".".to_owned()
        } else {
            dir
        },
        None => ".".to_owned(),
    };
    (dir, file_name_or_default(name))
}

/// Splits the path of the blacklist into a directory, for dialogs to start in,
/// and a file name, to fill in beforehand. Neither is ever empty. They are the
/// components of the path but the last, and the last where it is a name; so,
/// where there is more than a name, they are joined again the same path.
pub fn dialog_dir_and_name(current: &str) -> (r: (String, String))
    ensures
        exists|separator: char|
            is_main_separator(separator) && r.0@ == dialog_dir(
                #[trigger] path_parent(separator, current@),
            ),
        exists|separator: char|
            is_main_separator(separator) && r.1@ == name_or_default(
                #[trigger] path_file_name(separator, current@),
            ),
        r.0@.len() > 0,
        r.1@.len() > 0,
        is_slash_path(current@) ==> {
            &&& r.1@ == name_or_default(final_name(current@))
            &&& components(current@).len() <= 1 ==> r.0@ == "."@
            &&& components(current@).len() > 1 ==> components(r.0@) == components(
                current@,
            ).drop_last()
            &&& components(current@).len() > 1 && final_name(current@) is Some ==> components(
                joined_by_slash(r.0@, r.1@),
            ) == components(current@)
        },
        current@.len() == 0 || current@ == seq!['/'] ==> r.0@ == "."@ && r.1@ == BLACKLIST_FILE@,
        is_plain_name(current@) ==> r.0@ == "."@ && r.1@ == current@,
        is_root_file(current@) ==> r.0@ == seq!['/'] && r.1@ == current@.skip(1)
            && joined_by_slash(r.0@, r.1@) == current@,
        forall|dir: Seq<char>, name: Seq<char>| #[trigger]
            is_split(current@, dir, name) ==> r.0@ == dir && r.1@ == name && joined_by_slash(
                r.0@,
                r.1@,
            ) == current@,
{
    let parent: (char, Option<String>) = parent_of(current);
    let name: (char, Option<String>) = file_name_of(current);
    let ghost parent_text = text::optional_text(parent.1);
    let ghost name_text = text::optional_text(name.1);
    proof {
        reveal_strlit(".");
        reveal_strlit("Blacklist.txt");
        assert(parent_text == path_parent(parent.0, current@));
        assert(name_text == path_file_name(name.0, current@));
        lemma_root();
        assert(current@.len() == 0 ==> current@ == Seq::<char>::empty());
        if is_slash_path(current@) {
            let c = components(current@);
            if c.len() > 1 {
                assert(c != seq![seq!['/']]);
                assert(c.drop_last().len() > 0);
                lemma_no_components(parent_text->0);
                if name_text is Some {
                    lemma_final_name(current@);
                    lemma_join(parent_text->0, name_text->0);
                    assert(c.drop_last().push(c.last()) == c);
                }
            } else if parent_text is Some {
                lemma_no_components(parent_text->0);
            }
        }
        if is_plain_name(current@) {
            lemma_plain_name(current@);
        }
        if is_root_file(current@) {
            lemma_root_file(current@);
            assert(seq!['/'] + current@.skip(1) == current@);
        }
        assert forall|dir: Seq<char>, part: Seq<char>| #[trigger]
            is_split(current@, dir, part) implies name_text == Some(part) && joined_by_slash(
            dir,
            part,
        ) == current@ by {
            lemma_split(current@, dir, part);
        }
    }
    dialog_start(parent.1, name.1)
}

// ---------------------------------------------------------------- blacklist file

/// The blacklist file that would stand next to the given executable.
pub fn blacklist_candidate(exe: Option<String>) -> (r: Option<String>)
    ensures
        exe is None ==> r is None,
        exe is Some ==> exists|parent: Option<Seq<char>>| #[trigger]
            is_parent(exe->0@, parent) && match r {
                Some(candidate) => parent is Some && is_join(
                    parent->0,
                    BLACKLIST_FILE@,
                    candidate@,
                ),
                None => parent is None,
            },
        exe is Some && is_slash_path(exe->0@) ==> (r is Some <==> has_parent(exe->0@)),
        exe is Some && is_root_file(exe->0@) ==> r is Some && is_join(
            seq!['/'],
            BLACKLIST_FILE@,
            r->0@,
        ),
        exe is Some ==> forall|dir: Seq<char>, name: Seq<char>| #[trigger]
            is_split(exe->0@, dir, name) ==> r is Some && is_join(dir, BLACKLIST_FILE@, r->0@),
{
    match exe {
        Some(exe) => {
            let parent: Option<String> = parent_path(exe.as_str());
            assert(is_parent(exe@, text::optional_text(parent)));
            match parent {
                Some(dir) => Some(join_path(dir.as_str(), BLACKLIST_FILE)),
                None => None,
            }
        },
        None => None,
    }
}

/// The path of the blacklist at the start, given the file that would stand next
/// to the executable and whether it exists.
pub open spec fn default_path(candidate: Option<Seq<char>>, exists: bool) -> Seq<char> {
    match candidate {
        Some(candidate) => if exists {
            candidate
        } else {
            BLACKLIST_FILE@
        },
        None => BLACKLIST_FILE@,
    }
}

/// The path of the blacklist at the start: the file next to the executable
/// where it exists, else the one in the current directory.
pub fn default_blacklist_path(candidate: Option<String>, exists: bool) -> (r: String)
    ensures
        r@ == (if candidate is Some && exists { candidate->0@ } else { BLACKLIST_FILE@ }),
        r@ == default_path(text::optional_text(candidate), exists),
{
    match candidate {
        Some(candidate) => if exists {
            candidate
        } else {
            BLACKLIST_FILE.to_owned()
        },
        None => BLACKLIST_FILE.to_owned(),
    }
}

// ---------------------------------------------------------------- liked tracks

/// The home directory: the first variable where it is set, else the second,
/// else the current directory.
pub open spec fn home_dir(home: Option<Seq<char>>, user_profile: Option<Seq<char>>) -> Seq<char> {
    match home {
        Some(home) => home,
        None => match user_profile {
            Some(home) => home,
            None => "."@,
        },
    }
}

/// `.local/bin/wreckers.data` under `home`, on a platform with the given main
/// separator.
pub open spec fn memory_file(separator: char, home: Seq<char>) -> Seq<char> {
    path_join(
        separator,
        path_join(separator, path_join(separator, home, ".local"@), "bin"@),
        MEMORY_FILE@,
    )
}

/// Whether a path is that of the file of liked tracks under `home`: either
/// `.local/bin/wreckers.data` behind a slash, or what a platform with another
/// separator makes of the same parts.
pub open spec fn is_memory_file(home: Seq<char>, path: Seq<char>) -> bool {
    ||| home.len() > 0 && home.last() != '/' && path == home + "/.local/bin/wreckers.data"@
    ||| (home.len() == 0 || home.last() == '/') && path == home + ".local/bin/wreckers.data"@
    ||| path == platform_join(
        '\\',
        platform_join('\\', platform_join('\\', home, ".local"@), "bin"@),
        "wreckers.data"@,
    )
}

/// The path of the file of liked tracks, out of the values of the environment
/// variables `HOME` and `USERPROFILE`.
pub fn memory_path(home: Option<String>, user_profile: Option<String>) -> (r: String)
    ensures
        exists|separator: char|
            is_main_separator(separator) && r@ == #[trigger] memory_file(
                separator,
                home_dir(text::optional_text(home), text::optional_text(user_profile)),
            ),
        home matches Some(dir) ==> is_memory_file(dir@, r@),
        home is None ==> (user_profile matches Some(dir) ==> is_memory_file(dir@, r@)),
        home is None && user_profile is None ==> is_memory_file(seq!['.'], r@),
{
    let base: String = match home {
        Some(home) => home,
        None => match user_profile {
            Some(home) => home,
            None => ".".to_owned(),
        },
    };
    let list: [&str; 3] = [".local", "bin", MEMORY_FILE];
    let r: (char, String) = extend(base.as_str(), list.as_slice());
    proof {
        let parts = part_texts(list@);
        assert(parts == seq![".local"@, "bin"@, MEMORY_FILE@]);
        assert(parts.drop_last() == seq![".local"@, "bin"@]);
        assert(parts.drop_last().drop_last() == seq![".local"@]);
        assert(parts.drop_last().drop_last().drop_last() == Seq::<Seq<char>>::empty());
        reveal_with_fuel(path_joined, 4);
        assert(r.1@ == memory_file(r.0, base@));
        reveal_strlit(".");
        reveal_strlit("/.local/bin/wreckers.data");
        reveal_strlit(".local/bin/wreckers.data");
        assert("."@ == seq!['.']);
        crate::file_laws::law_memory_path(base@);
        assert(base@.push('/') + ".local/bin/wreckers.data"@ == base@
            + "/.local/bin/wreckers.data"@);
        assert(is_memory_file(base@, r.1@));
        assert(base@ == home_dir(text::optional_text(home), text::optional_text(user_profile)));
    }
    r.1
}

// ---------------------------------------------------------------- IPC endpoint

/// Where mpv's IPC endpoints are made.
pub enum Host {
    /// As sockets in the directory for temporary files.
    Unix { temp_dir: String },
    /// As named pipes.
    Windows,
}

/// The name of the socket of the process with the given number.
pub open spec fn socket_name(pid: u32) -> Seq<char> {
    "wreckersradio-mpv-"@ + text::decimal(pid as nat) + ".sock"@
}

/// The name of the pipe of the process with the given number.
pub open spec fn pipe_name(pid: u32) -> Seq<char> {
    "\\\\.\\pipe\\wreckersradio-mpv-"@ + text::decimal(pid as nat)
}

/// The path of mpv's IPC endpoint for the process with the given number.
pub open spec fn endpoint(host: Host, pid: u32) -> Seq<char> {
    match host {
        Host::Unix { temp_dir } => joined_by_slash(temp_dir@, socket_name(pid)),
        Host::Windows => pipe_name(pid),
    }
}

/// Two texts with a slash between them, unless the first is empty or already
/// ends with one.
fn join_by_slash(base: &str, part: &str) -> (r: String)
    ensures
        r@ == joined_by_slash(base@, part@),
{
    let mut r: String = base.to_owned();
    let n: usize = base.unicode_len();
    if n > 0 && base.get_char(n - 1) != '/' {
        r.push('/');
    }
    r.append(part);
    r
}

/// The path of mpv's IPC endpoint for the process with the given number.
pub fn ipc_path(host: &Host, pid: u32) -> (r: String)
    ensures
        r@ == endpoint(*host, pid),
{
    let number: String = text::decimal_text(pid as u64);
    match host {
        Host::Unix { temp_dir } => {
            let socket: String = text::concat3("wreckersradio-mpv-", number.as_str(), ".sock");
            join_by_slash(temp_dir.as_str(), socket.as_str())
        },
        Host::Windows => text::concat2("\\\\.\\pipe\\wreckersradio-mpv-", number.as_str()),
    }
}

} // verus!
