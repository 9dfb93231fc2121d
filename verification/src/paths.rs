//! Paths inside a package, as text with `/` between the components: the file
//! name of a path, its extension, and the path with another extension.

use vstd::prelude::*;
use crate::sequences::lemma_index_of_last;
use crate::text::{chars_of, string_of};

verus! {

/// The last component of a `/`-separated path: what follows the last `/`, or
/// the whole path when it holds none. It is empty for the empty path and for
/// one that ends in `/`.
pub open spec fn base_name(path: Seq<char>) -> Seq<char> {
    match path.index_of_last('/') {
        Some(i) => path.skip(i + 1),
        None => path,
    }
}

/// The extension of the path's base name: what follows its last `.`. A base
/// name without a `.`, one whose only `.` is its first character, and the name
/// `..` have none.
pub open spec fn extension_of(path: Seq<char>) -> Option<Seq<char>> {
    let name = base_name(path);
    match name.index_of_last('.') {
        Some(i) => if 0 < i && name != seq!['.', '.'] {
            Some(name.skip(i + 1))
        } else {
            None
        },
        None => None,
    }
}

/// The path without its extension and the `.` before it.
pub open spec fn stem_of(path: Seq<char>) -> Seq<char> {
    match extension_of(path) {
        Some(e) => path.take(path.len() - e.len() - 1),
        None => path,
    }
}

/// The path with its extension replaced by `extension`. An empty `extension`
/// removes the old one; a path with an empty base name is left as it is.
pub open spec fn extension_replaced(path: Seq<char>, extension: Seq<char>) -> Seq<char> {
    if base_name(path).len() == 0 {
        path
    } else if extension.len() == 0 {
        stem_of(path)
    } else {
        stem_of(path) + seq!['.'] + extension
    }
}

/// A name that can stand for one file inside a directory: not empty, without
/// a `/`, and neither `.` nor `..`.
pub open spec fn valid_file_name(name: Seq<char>) -> bool {
    &&& name.len() > 0
    &&& !name.contains('/')
    &&& name != seq!['.']
    &&& name != seq!['.', '.']
}

/// `directory`, a `/`, then `name`.
pub open spec fn joined(directory: Seq<char>, name: Seq<char>) -> Seq<char> {
    directory + seq!['/'] + name
}

/// Joining a directory and a name without `/` gives a path whose base name is
/// that name.
pub proof fn lemma_base_name_of_joined(directory: Seq<char>, name: Seq<char>)
    requires
        !name.contains('/'),
    ensures
        base_name(joined(directory, name)) == name,
{
    let path = joined(directory, name);
    let at = directory.len() as int;
    assert(path[at] == '/');
    assert forall|j: int| at < j < path.len() implies path[j] != '/' by {
        assert(path[j] == name[j - at - 1]);
        assert(name.contains(name[j - at - 1]));
    }
    lemma_index_of_last(path, '/', Some(at));
    assert(path.skip(at + 1) =~= name);
}

/// An extension is a proper part of the path: the path is its stem, a `.`
/// and the extension.
pub proof fn lemma_extension_splits(path: Seq<char>)
    requires
        extension_of(path) is Some,
    ensures
        extension_of(path)->0.len() < base_name(path).len() <= path.len(),
        path == stem_of(path) + seq!['.'] + extension_of(path)->0,
{
    let name = base_name(path);
    path.index_of_last_ensures('/');
    name.index_of_last_ensures('.');
    let dot = name.index_of_last('.')->0;
    let ext = name.skip(dot + 1);
    let start = path.len() - name.len();
    assert(path.skip(start) =~= name);
    assert(path[start + dot] == name[dot]);
    assert(path =~= path.take(path.len() - ext.len() - 1) + seq!['.'] + ext);
}

fn last_index(chars: &Vec<char>, c: char) -> (found: Option<usize>)
    ensures
        chars@.index_of_last(c) == match found {
            Some(i) => Some(i as int),
            None => None::<int>,
        },
        found matches Some(i) ==> i < chars.len() && chars@[i as int] == c,
        found is None ==> !chars@.contains(c),
{
    let mut found: Option<usize> = None;
    let mut i: usize = 0;
    while i < chars.len()
        invariant
            i <= chars.len(),
            match found {
                Some(k) => k < i && chars@[k as int] == c && forall|j: int|
                    k < j < i ==> chars@[j] != c,
                None => forall|j: int| 0 <= j < i ==> chars@[j] != c,
            },
        decreases chars.len() - i,
    {
        if chars[i] == c {
            found = Some(i);
        }
        i += 1;
    }
    proof {
        lemma_index_of_last(
            chars@,
            c,
            match found {
                Some(k) => Some(k as int),
                None => None,
            },
        );
        chars@.index_of_last_ensures(c);
    }
    found
}

/// Where the base name of the path starts.
fn base_name_start(chars: &Vec<char>) -> (start: usize)
    ensures
        start <= chars.len(),
        base_name(chars@) == chars@.skip(start as int),
{
    match last_index(chars, '/') {
        Some(i) => i + 1,
        None => {
            assert(chars@.skip(0) =~= chars@);
            0
        },
    }
}

/// The file name of `path`: its last component.
pub fn file_name(path: &str) -> (name: String)
    ensures
        name@ == base_name(path@),
{
    let chars = chars_of(path);
    let start = base_name_start(&chars);
    string_of(&chars, start, chars.len())
}

/// The extension of the file that `path` names, if it has one.
pub fn extension(path: &str) -> (ext: Option<String>)
    ensures
        match ext {
            Some(e) => extension_of(path@) == Some(e@),
            None => extension_of(path@) is None,
        },
{
    let mut chars = chars_of(path);
    let start = base_name_start(&chars);
    let name = chars.split_off(start);
    assert(name@ =~= base_name(path@));
    match last_index(&name, '.') {
        Some(i) => {
            let dots = name.len() == 2 && name[0] == '.' && name[1] == '.';
            assert(dots == (name@ =~= seq!['.', '.']));
            if 0 < i && !dots {
                Some(string_of(&name, i + 1, name.len()))
            } else {
                None
            }
        },
        None => None,
    }
}

/// `path` with its extension replaced by `extension`.
pub fn with_extension(path: &str, extension: &str) -> (replaced: String)
    ensures
        replaced@ == extension_replaced(path@, extension@),
{
    let chars = chars_of(path);
    let start = base_name_start(&chars);
    if start == chars.len() {
        return string_of(&chars, 0, chars.len());
    }
    let stem_end = match self::extension(path) {
        Some(e) => {
            let old = chars_of(e.as_str());
            proof {
                lemma_extension_splits(path@);
            }
            chars.len() - old.len() - 1
        },
        None => chars.len(),
    };
    let mut replaced = string_of(&chars, 0, stem_end);
    assert(replaced@ =~= stem_of(path@));
    let added = chars_of(extension);
    if added.len() > 0 {
        replaced.push('.');
        let mut k: usize = 0;
        while k < added.len()
            invariant
                k <= added.len(),
                added@ == extension@,
                replaced@ == stem_of(path@) + seq!['.'] + added@.take(k as int),
            decreases added.len() - k,
        {
            replaced.push(added[k]);
            assert(added@.take(k + 1) =~= added@.take(k as int).push(added@[k as int]));
            k += 1;
        }
        assert(added@.take(added.len() as int) =~= added@);
    }
    replaced
}

/// Whether `name` can stand for one file inside a directory.
pub fn is_file_name(name: &str) -> (valid: bool)
    ensures
        valid == valid_file_name(name@),
{
    let chars = chars_of(name);
    if chars.len() == 0 {
        return false;
    }
    if chars.len() == 1 && chars[0] == '.' {
        assert(chars@ =~= seq!['.']);
        return false;
    }
    if chars.len() == 2 && chars[0] == '.' && chars[1] == '.' {
        assert(chars@ =~= seq!['.', '.']);
        return false;
    }
    let slash = last_index(&chars, '/');
    assert(slash is Some ==> chars@.contains('/'));
    slash.is_none()
}

} // verus!
