//! What a path names, and how a name is parted.
use vstd::prelude::*;

use crate::paths::{
    after_last, extension, extension_of, file_name, file_part, file_stem, is_binary, portable_path,
    stem, stem_of,
};
use crate::string_laws::is_same_letter;

verus! {

proof fn lemma_after(s: Seq<char>, c: char)
    ensures
        after_last(s, c) <= s.len(),
        after_last(s, c) > 0 ==> s[after_last(s, c) - 1] == c,
        forall|i: int| after_last(s, c) <= i < s.len() ==> #[trigger] s[i] != c,
    decreases s.len(),
{
    if s.len() > 0 && s.last() != c {
        lemma_after(s.drop_last(), c);
        assert forall|i: int| after_last(s, c) <= i < s.len() implies #[trigger] s[i] != c by {
            if i < s.len() - 1 {
                assert(s.drop_last()[i] == s[i]);
            }
        }
    }
}

proof fn lemma_after_is(s: Seq<char>, c: char, n: int)
    requires
        0 <= n <= s.len(),
        n > 0 ==> s[n - 1] == c,
        forall|i: int| n <= i < s.len() ==> #[trigger] s[i] != c,
    ensures
        after_last(s, c) == n,
{
    lemma_after(s, c);
    let m = after_last(s, c) as int;
    if m < n {
        assert(s[n - 1] != c);
    } else if n < m {
        assert(s[m - 1] != c);
    }
}

/// A name is its stem, a dot and its extension, which holds no dot; a name without a dot
/// behind its first character has no extension and is its own stem.
pub proof fn law_names_part_at_the_last_dot(name: &str)
    ensures
        forall|e: Option<&str>, s: &str|
            #[trigger] call_ensures(extension_of, (name,), e) && #[trigger] call_ensures(
                stem_of,
                (name,),
                s,
            ) ==> {
                &&& e matches Some(x) ==> name@ == s@ + seq!['.'] + x@ && !x@.contains('.')
                    && s@.len() > 0
                &&& e is None ==> s@ == name@ && forall|i: int|
                    0 < i < name@.len() ==> #[trigger] name@[i] != '.'
            },
{
    lemma_after(name@, '.');
    let n = after_last(name@, '.') as int;
    if n > 1 {
        assert(name@ =~= stem(name@) + seq!['.'] + name@.skip(n));
        assert forall|i: int| 0 <= i < name@.skip(n).len() implies name@.skip(n)[i] != '.' by {
            assert(name@[n + i] != '.');
        }
    }
}

/// Whether the text can be a name in a path: something, without a separator, that does
/// not stand for this directory or the one above.
pub open spec fn is_name(name: Seq<char>) -> bool {
    name.len() > 0 && !name.contains('/') && name != seq!['.'] && name != seq!['.', '.']
}

/// A path names what stands behind its last separator; separators and dots that stand
/// for this directory at its end do not matter, and a path that ends above has no name.
pub proof fn law_paths_name_their_last_part(dir: Seq<char>, name: Seq<char>, path: Seq<char>)
    ensures
        is_name(name) ==> file_part(name) == Some(name),
        is_name(name) ==> file_part(dir.push('/') + name) == Some(name),
        path.len() > 0 ==> file_part(path.push('/')) == file_part(path),
        file_part(path.push('/').push('.')) == file_part(path.push('/')),
        file_part(dir.push('/') + seq!['.', '.']) is None,
        file_part(seq!['.', '.']) is None,
        file_part(Seq::empty()) is None,
        file_part(seq!['/']) is None,
{
    if is_name(name) {
        assert forall|i: int| 0 <= i < name.len() implies #[trigger] name[i] != '/' by {
            assert(name.contains(name[i]));
        }
        lemma_after_is(name, '/', 0);
        assert(name.skip(0) =~= name);
        let whole = dir.push('/') + name;
        let n = dir.len() + 1;
        assert forall|i: int| n <= i < whole.len() implies #[trigger] whole[i] != '/' by {
            assert(whole[i] == name[i - n]);
        }
        lemma_after_is(whole, '/', n as int);
        assert(whole.skip(n as int) =~= name);
    }
    let slashed = path.push('/');
    lemma_after_is(slashed, '/', slashed.len() as int);
    assert(slashed.skip(slashed.len() as int) =~= Seq::<char>::empty());
    assert(slashed.drop_last() =~= path);
    assert(file_part(slashed) == file_part(path));
    let dotted = slashed.push('.');
    lemma_after_is(dotted, '/', slashed.len() as int);
    assert(dotted.skip(slashed.len() as int) =~= seq!['.']);
    assert(dotted.take(slashed.len() as int) =~= slashed);
    let above = dir.push('/') + seq!['.', '.'];
    let n = (dir.len() + 1) as int;
    assert forall|i: int| n <= i < above.len() implies #[trigger] above[i] != '/' by {
        assert(above[i] == '.');
    }
    lemma_after_is(above, '/', n);
    assert(above.skip(n) =~= seq!['.', '.']);
    lemma_after_is(seq!['.', '.'], '/', 0);
    assert(seq!['.', '.'].skip(0) =~= seq!['.', '.']);
    assert(file_part(Seq::<char>::empty()) is None);
    lemma_after_is(seq!['/'], '/', 1);
    assert(seq!['/'].skip(1) =~= Seq::<char>::empty());
    assert(seq!['/'].drop_last() =~= Seq::<char>::empty());
}

/// The name, the stem and the kind of the file that a path leads to.
pub proof fn law_file_names(path: &str)
    ensures
        forall|r: Option<&str>, s: Option<&str>|
            #[trigger] call_ensures(file_name, (path,), r) && #[trigger] call_ensures(
                file_stem,
                (path,),
                s,
            ) ==> {
                &&& r is Some <==> file_part(path@) is Some
                &&& s is Some <==> r is Some
                &&& r matches Some(n) ==> file_part(path@) == Some(n@) && n@.len() > 0
                    && !n@.contains('/') && s->0@ == stem(n@)
            },
        forall|r: Option<&str>, binary: bool|
            #[trigger] call_ensures(file_name, (path,), r) && #[trigger] call_ensures(
                is_binary,
                (path,),
                binary,
            ) ==> (binary <==> r is Some && extension(r->0@) is Some && is_renb(
                extension(r->0@)->0,
            )),
{
    crate::paths::law_file_part_holds_no_separator(path@);
    assert forall|e: Seq<char>| #[trigger] is_renb(e) == crate::strings::same_but_case(
        e,
        "renb"@,
    ) by {
        lemma_renb(e);
    }
}

pub proof fn lemma_renb(e: Seq<char>)
    ensures
        is_renb(e) == crate::strings::same_but_case(e, "renb"@),
{
    reveal_strlit("renb");
    if e.len() == 4 {
        assert("renb"@ =~= seq!['r', 'e', 'n', 'b']);
        crate::string_laws::lemma_lower(e[0], 'r');
        crate::string_laws::lemma_lower(e[1], 'e');
        crate::string_laws::lemma_lower(e[2], 'n');
        crate::string_laws::lemma_lower(e[3], 'b');
        if is_renb(e) {
            assert forall|i: int| 0 <= i < 4 implies crate::strings::lower(#[trigger] e[i])
                == crate::strings::lower("renb"@[i]) by {}
        }
    }
}

/// Whether the extension is that of a packed project, in any case.
pub open spec fn is_renb(e: Seq<char>) -> bool {
    &&& e.len() == 4
    &&& is_same_letter(e[0], 'r')
    &&& is_same_letter(e[1], 'e')
    &&& is_same_letter(e[2], 'n')
    &&& is_same_letter(e[3], 'b')
}

/// A portable path is as long as the path and differs from it only where a backslash
/// separates: there it has a slash.
pub proof fn law_portable_paths_have_slashes(path: &str, backslashes: bool, r: String, i: int)
    requires
        call_ensures(portable_path, (path, backslashes), r),
        0 <= i < path@.len(),
    ensures
        r@.len() == path@.len(),
        backslashes && path@[i] == '\\' ==> r@[i] == '/',
        !backslashes || path@[i] != '\\' ==> r@[i] == path@[i],
        !backslashes ==> r@ == path@,
{
    if !backslashes {
        assert(r@ =~= path@);
    }
}

} // verus!
