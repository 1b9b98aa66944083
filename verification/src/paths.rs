//! File names, taken from `/`-separated paths. Where paths are written with `\` too,
//! [`portable_path`] comes first.
use vstd::prelude::*;

use crate::strings::{chars_of, eq_ignoring_case, same_but_case};

verus! {

/// The position behind the last `c`, or the beginning.
pub open spec fn after_last(s: Seq<char>, c: char) -> nat
    decreases s.len(),
{
    if s.len() == 0 {
        0
    } else if s.last() == c {
        s.len()
    } else {
        after_last(s.drop_last(), c)
    }
}

proof fn lemma_after_last(s: Seq<char>, c: char)
    ensures
        after_last(s, c) <= s.len(),
        after_last(s, c) > 0 ==> s[after_last(s, c) - 1] == c,
    decreases s.len(),
{
    if s.len() > 0 && s.last() != c {
        lemma_after_last(s.drop_last(), c);
    }
}

/// The last part of a path that names something: trailing separators and `.` parts
/// are passed over, and nothing is named by `..`.
pub open spec fn file_part(path: Seq<char>) -> Option<Seq<char>>
    decreases path.len(),
{
    let from = after_last(path, '/') as int;
    let part = path.skip(from);
    if path.len() == 0 || from > path.len() {
        None
    } else if part.len() == 0 {
        file_part(path.drop_last())
    } else if part == seq!['.'] {
        file_part(path.take(from))
    } else if part == seq!['.', '.'] {
        None
    } else {
        Some(part)
    }
}

/// A file name up to its last dot; a dot in front does not count.
pub open spec fn stem(name: Seq<char>) -> Seq<char> {
    if after_last(name, '.') <= 1 {
        name
    } else {
        name.take(after_last(name, '.') - 1)
    }
}

/// What stands behind a file name's last dot; a dot in front does not count.
pub open spec fn extension(name: Seq<char>) -> Option<Seq<char>> {
    if after_last(name, '.') <= 1 {
        None
    } else {
        Some(name.skip(after_last(name, '.') as int))
    }
}

/// The stem of the file that a path names.
pub open spec fn path_stem(path: Seq<char>) -> Option<Seq<char>> {
    match file_part(path) {
        Some(name) => Some(stem(name)),
        None => None,
    }
}

/// The extension of the file that a path names.
pub open spec fn path_extension(path: Seq<char>) -> Option<Seq<char>> {
    match file_part(path) {
        Some(name) => extension(name),
        None => None,
    }
}

/// Whether a path names a file with this extension, whatever the case of its
/// ASCII letters.
pub open spec fn has_extension(path: Seq<char>, ext: Seq<char>) -> bool {
    path_extension(path) matches Some(e) && same_but_case(e, ext)
}

/// A path with `/` between its parts, where `\` separates them too.
pub open spec fn portable(path: Seq<char>, backslashes: bool) -> Seq<char> {
    Seq::new(
        path.len(),
        |i: int|
            if backslashes && path[i] == '\\' {
                '/'
            } else {
                path[i]
            },
    )
}

/// A path with `/` between its parts. `backslashes` says whether `\` separates them
/// too.
pub fn portable_path(path: &str, backslashes: bool) -> (r: String)
    ensures
        r@ == portable(path@, backslashes),
{
    if !backslashes {
        assert(portable(path@, false) =~= path@);
        return path.to_owned();
    }
    let chars = chars_of(path);
    let mut out = "".to_owned();
    proof {
        reveal_strlit("");
        reveal_strlit("/");
    }
    let mut i: usize = 0;
    assert(out@ =~= Seq::<char>::empty());
    while i < chars.len()
        invariant
            i <= chars@.len(),
            chars@ == path@,
            "/"@ == seq!['/'],
            out@ =~= portable(path@, true).take(i as int),
        decreases chars.len() - i,
    {
        if chars[i] == '\\' {
            out.append("/");
        } else {
            out.append(path.substring_char(i, i + 1));
        }
        i = i + 1;
    }
    assert(portable(path@, true).take(i as int) =~= portable(path@, true));
    out
}

fn find_after_last(v: &Vec<char>, to: usize, c: char) -> (r: usize)
    requires
        to <= v@.len(),
    ensures
        r == after_last(v@.take(to as int), c),
        r <= to,
{
    let mut i: usize = to;
    while i > 0 && v[i - 1] != c
        invariant
            i <= to <= v@.len(),
            after_last(v@.take(to as int), c) == after_last(v@.take(i as int), c),
        decreases i,
    {
        assert(v@.take(i as int).drop_last() =~= v@.take(i - 1));
        i = i - 1;
    }
    i
}

/// The last part of a path that names something.
pub fn file_name(path: &str) -> (r: Option<&str>)
    ensures
        match r {
            Some(s) => file_part(path@) == Some(s@),
            None => file_part(path@) is None,
        },
{
    let v = chars_of(path);
    let mut to: usize = v.len();
    assert(v@.take(to as int) =~= path@);
    while to > 0
        invariant
            to <= v@.len(),
            v@ == path@,
            file_part(path@) == file_part(v@.take(to as int)),
        decreases to,
    {
        let ghost here = v@.take(to as int);
        let from = find_after_last(&v, to, '/');
        let ghost part = here.skip(from as int);
        if from == to {
            assert(here.drop_last() =~= v@.take(to - 1));
            to = to - 1;
        } else if to - from == 1 && v[from] == '.' {
            assert(part =~= seq!['.']);
            assert(here.take(from as int) =~= v@.take(from as int));
            to = from;
        } else if to - from == 2 && v[from] == '.' && v[from + 1] == '.' {
            assert(part =~= seq!['.', '.']);
            assert(part.len() != seq!['.'].len());
            return None;
        } else {
            assert(part != seq!['.']) by {
                if part == seq!['.'] {
                    assert(part.len() == 1 && part[0] == '.');
                }
            }
            assert(part != seq!['.', '.']) by {
                if part == seq!['.', '.'] {
                    assert(part.len() == 2 && part[0] == '.' && part[1] == '.');
                }
            }
            assert(path@.subrange(from as int, to as int) =~= part);
            return Some(path.substring_char(from, to));
        }
    }
    None
}

/// A file name up to its last dot.
pub fn stem_of(name: &str) -> (r: &str)
    ensures
        r@ == stem(name@),
{
    let v = chars_of(name);
    let at = find_after_last(&v, v.len(), '.');
    assert(v@.take(v@.len() as int) =~= name@);
    if at <= 1 {
        name
    } else {
        assert(name@.subrange(0, at - 1) =~= name@.take(at - 1));
        name.substring_char(0, at - 1)
    }
}

/// What stands behind a file name's last dot.
pub fn extension_of(name: &str) -> (r: Option<&str>)
    ensures
        match r {
            Some(s) => extension(name@) == Some(s@),
            None => extension(name@) is None,
        },
{
    let v = chars_of(name);
    let n = v.len();
    let at = find_after_last(&v, n, '.');
    assert(v@.take(v@.len() as int) =~= name@);
    if at <= 1 {
        None
    } else {
        assert(name@.subrange(at as int, n as int) =~= name@.skip(at as int));
        Some(name.substring_char(at, n))
    }
}

/// The stem of the file that a path names.
pub fn file_stem(path: &str) -> (r: Option<&str>)
    ensures
        match r {
            Some(s) => path_stem(path@) == Some(s@),
            None => path_stem(path@) is None,
        },
{
    match file_name(path) {
        Some(name) => Some(stem_of(name)),
        None => None,
    }
}

/// Whether a path names a file with this extension.
pub fn extension_is(path: &str, ext: &str) -> (r: bool)
    ensures
        r == has_extension(path@, ext@),
{
    match file_name(path) {
        Some(name) => match extension_of(name) {
            Some(e) => eq_ignoring_case(e, ext),
            None => false,
        },
        None => false,
    }
}

/// Whether a path names a binary project (`.renb`).
pub fn is_binary(name: &str) -> (r: bool)
    ensures
        r == has_extension(name@, "renb"@),
{
    extension_is(name, "renb")
}

/// A name is its stem alone, or its stem, a dot and its extension.
pub proof fn law_stem_and_extension(name: Seq<char>)
    ensures
        match extension(name) {
            Some(e) => name == stem(name) + seq!['.'] + e,
            None => name == stem(name),
        },
{
    lemma_after_last(name, '.');
    if after_last(name, '.') > 1 {
        assert(name =~= stem(name) + seq!['.'] + name.skip(after_last(name, '.') as int));
    }
}

/// What a path names never holds a separator.
pub proof fn law_file_part_holds_no_separator(path: Seq<char>)
    ensures
        file_part(path) matches Some(name) ==> name.len() > 0 && !name.contains('/'),
    decreases path.len(),
{
    lemma_after_last(path, '/');
    let from = after_last(path, '/') as int;
    let part = path.skip(from);
    lemma_behind_last(path, '/');
    if path.len() == 0 {
    } else if part.len() == 0 {
        law_file_part_holds_no_separator(path.drop_last());
    } else if part == seq!['.'] {
        law_file_part_holds_no_separator(path.take(from));
    }
}

proof fn lemma_behind_last(s: Seq<char>, c: char)
    ensures
        forall|i: int| after_last(s, c) <= i < s.len() ==> #[trigger] s[i] != c,
        !s.skip(after_last(s, c) as int).contains(c),
    decreases s.len(),
{
    lemma_after_last(s, c);
    if s.len() > 0 && s.last() != c {
        lemma_behind_last(s.drop_last(), c);
        assert forall|i: int| after_last(s, c) <= i < s.len() implies #[trigger] s[i] != c by {
            if i < s.len() - 1 {
                assert(s.drop_last()[i] == s[i]);
            }
        }
    }
    let rest = s.skip(after_last(s, c) as int);
    assert forall|i: int| 0 <= i < rest.len() implies rest[i] != c by {
        assert(rest[i] == s[i + after_last(s, c)]);
    }
}

} // verus!
