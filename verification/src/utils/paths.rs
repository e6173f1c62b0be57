//! Filesystem paths as text: joining a name under a root, deciding whether one
//! path lies below another, and the two questions that only the disk answers.

use crate::utils::text::chars_of;
use crate::utils::text::rfind;
use crate::utils::text::string_of;
use vstd::prelude::*;
use vstd::string::StringExecFns;

verus! {

/// `std::path::Path::exists`: whether something is at `path` right now.
#[verifier::external_body]
pub(crate) fn is_present(path: &str) -> (res: bool) {
    std::path::Path::new(path).exists()
}

/// `std::path::Path::canonicalize`: the absolute path that `path` resolves to
/// once every symbolic link is followed, or the reason it has none. A resolved
/// path that is not valid Unicode counts as a failure.
#[verifier::external_body]
pub(crate) fn canonicalize(path: &str) -> (res: Result<String, String>) {
    match std::path::Path::new(path).canonicalize() {
        Ok(resolved) => match resolved.into_os_string().into_string() {
            Ok(text) => Ok(text),
            Err(_) => Err(String::from("path is not valid unicode")),
        },
        Err(error) => Err(error.to_string()),
    }
}

/// The path of `name` under `root`.
pub open spec fn joined(root: Seq<char>, name: Seq<char>) -> Seq<char> {
    if root.len() == 0 {
        name
    } else if root.last() == '/' {
        root + name
    } else {
        root + seq!['/'] + name
    }
}

/// Builds the path of `name` under `root`.
pub fn join(root: &str, name: &str) -> (res: String)
    ensures
        res@ == joined(root@, name@),
{
    let root_chars = chars_of(root);
    let n = root_chars.len();
    let mut path = String::from_str(root);
    if n > 0 && root_chars[n - 1] != '/' {
        proof {
            reveal_strlit("/");
        }
        path.append("/");
        assert("/"@ == seq!['/']);
    }
    path.append(name);
    assert(root@ + Seq::<char>::empty() + name@ == root@ + name@);
    path
}

/// Whether `path` begins with the whole of `root`.
pub open spec fn begins_with(path: Seq<char>, root: Seq<char>) -> bool {
    root.len() <= path.len() && path.take(root.len() as int) == root
}

/// Whether `path` is `root` itself or lies below it: it begins with `root`,
/// and `root` ends where a component of `path` ends.
pub open spec fn within(root: Seq<char>, path: Seq<char>) -> bool {
    &&& root.len() > 0
    &&& begins_with(path, root)
    &&& (path.len() == root.len() || root.last() == '/' || path[root.len() as int] == '/')
}

/// Whether `path` lies below `root` and names something other than `root`:
/// after `root` it goes on with at least one character that is no separator.
pub open spec fn below(root: Seq<char>, path: Seq<char>) -> bool {
    &&& within(root, path)
    &&& exists|i: int| root.len() <= i < path.len() && path[i] != '/'
}

/// Nothing lies below itself, and of two places at most one lies below the
/// other.
pub proof fn lemma_below_is_strict(a: Seq<char>, b: Seq<char>)
    ensures
        !below(a, a),
        below(a, b) ==> !below(b, a),
{
    if below(a, b) && below(b, a) {
        assert(a.len() == b.len());
    }
}

/// Decides `within`.
pub fn is_within(root: &str, path: &str) -> (res: bool)
    ensures
        res == within(root@, path@),
{
    let root_chars = chars_of(root);
    let path_chars = chars_of(path);
    chars_within(&root_chars, &path_chars)
}

fn chars_within(root: &Vec<char>, path: &Vec<char>) -> (res: bool)
    ensures
        res == within(root@, path@),
{
    let n = root.len();
    if n == 0 || n > path.len() {
        return false;
    }
    let mut i: usize = 0;
    while i < n
        invariant
            i <= n,
            n == root.len(),
            n <= path.len(),
            path@.take(i as int) == root@.take(i as int),
        decreases n - i,
    {
        if path[i] != root[i] {
            assert(path@.take(n as int)[i as int] != root@[i as int]);
            return false;
        }
        assert(path@.take(i + 1) == path@.take(i as int).push(path@[i as int]));
        assert(root@.take(i + 1) == root@.take(i as int).push(root@[i as int]));
        i = i + 1;
    }
    assert(root@.take(n as int) == root@);
    path.len() == n || root[n - 1] == '/' || path[n] == '/'
}

/// Decides `below`.
pub fn is_below(root: &str, path: &str) -> (res: bool)
    ensures
        res == below(root@, path@),
{
    let root_chars = chars_of(root);
    let path_chars = chars_of(path);
    if !chars_within(&root_chars, &path_chars) {
        return false;
    }
    let mut i: usize = root_chars.len();
    while i < path_chars.len()
        invariant
            root_chars.len() <= i <= path_chars.len(),
            root_chars@ == root@,
            path_chars@ == path@,
            within(root@, path@),
            forall|j: int| root_chars.len() <= j < i ==> path_chars@[j] == '/',
        decreases path_chars.len() - i,
    {
        if path_chars[i] != '/' {
            return true;
        }
        i = i + 1;
    }
    false
}

/// `path` without the separators it ends in.
pub open spec fn trimmed_end(path: Seq<char>) -> Seq<char>
    decreases path.len(),
{
    if path.len() > 0 && path.last() == '/' {
        trimmed_end(path.drop_last())
    } else {
        path
    }
}

/// The last component of `path`: what follows the last separator, once the
/// separators that `path` ends in are set aside. A path without any component
/// has none.
pub open spec fn last_component(path: Seq<char>) -> Option<Seq<char>> {
    let body = trimmed_end(path);
    if body.len() == 0 {
        None
    } else {
        match crate::utils::text::last_index_of(body, '/') {
            Some(i) => Some(body.skip(i + 1)),
            None => Some(body),
        }
    }
}

/// What is left of a path without the separators it ends in does not end in
/// one.
proof fn lemma_trimmed_end(path: Seq<char>)
    ensures
        trimmed_end(path).len() > 0 ==> trimmed_end(path).last() != '/',
    decreases path.len(),
{
    if path.len() > 0 && path.last() == '/' {
        lemma_trimmed_end(path.drop_last());
    }
}

/// A last component is a name: it is not empty and holds no separator.
pub proof fn lemma_last_component_is_a_name(path: Seq<char>)
    ensures
        last_component(path) matches Some(name) ==> name.len() > 0 && !name.contains('/'),
{
    let body = trimmed_end(path);
    lemma_trimmed_end(path);
    crate::utils::text::lemma_last_index_of(body, '/');
    if let Some(name) = last_component(path) {
        match crate::utils::text::last_index_of(body, '/') {
            Some(i) => {
                assert forall|j: int| 0 <= j < name.len() implies name[j] != '/' by {
                    assert(name[j] == body[i + 1 + j]);
                }
            },
            None => {},
        }
    }
}

/// Finds the last component of `path`.
pub fn file_name(path: &str) -> (res: Option<String>)
    ensures
        match res {
            Some(name) => last_component(path@) == Some(name@),
            None => last_component(path@) is None,
        },
        res matches Some(name) ==> name@.len() > 0 && !name@.contains('/'),
{
    proof {
        lemma_last_component_is_a_name(path@);
    }
    let chars = chars_of(path);
    let mut end: usize = chars.len();
    assert(chars@.take(end as int) == chars@);
    while end > 0 && chars[end - 1] == '/'
        invariant
            end <= chars.len(),
            trimmed_end(chars@) == trimmed_end(chars@.take(end as int)),
        decreases end,
    {
        assert(chars@.take(end as int).drop_last() == chars@.take(end - 1));
        end = end - 1;
    }
    if end == 0 {
        return None;
    }
    let body = slice_of(&chars, 0, end);
    assert(body@ == trimmed_end(path@));
    match rfind(&body, '/') {
        Some(i) => {
            proof {
                crate::utils::text::lemma_last_index_of(body@, '/');
            }
            assert(body@.skip(i + 1) == body@.subrange(i + 1, body.len() as int));
            Some(string_of(&body, i + 1, body.len()))
        },
        None => {
            assert(body@.subrange(0, body.len() as int) == body@);
            Some(string_of(&body, 0, body.len()))
        },
    }
}

/// The characters `v[from..to]`.
fn slice_of(v: &Vec<char>, from: usize, to: usize) -> (res: Vec<char>)
    requires
        from <= to <= v.len(),
    ensures
        res@ == v@.subrange(from as int, to as int),
{
    let mut res: Vec<char> = Vec::new();
    let mut i: usize = from;
    while i < to
        invariant
            from <= i <= to <= v.len(),
            res@ == v@.subrange(from as int, i as int),
        decreases to - i,
    {
        res.push(v[i]);
        i = i + 1;
    }
    res
}

/// The extension of a file name: what follows its last dot, where that dot
/// is not the first character of the name.
pub open spec fn extension_of_name(name: Seq<char>) -> Option<Seq<char>> {
    match crate::utils::text::last_index_of(name, '.') {
        Some(i) => if i == 0 {
            None
        } else {
            Some(name.skip(i + 1))
        },
        None => None,
    }
}

/// The extension of the last component of `path`, if it has one.
pub open spec fn extension_of(path: Seq<char>) -> Option<Seq<char>> {
    match last_component(path) {
        Some(name) => extension_of_name(name),
        None => None,
    }
}

/// Finds the extension of the last component of `path`.
pub fn extension(path: &str) -> (res: Option<String>)
    ensures
        match res {
            Some(ext) => extension_of(path@) == Some(ext@),
            None => extension_of(path@) is None,
        },
{
    let name = match file_name(path) {
        Some(name) => name,
        None => {
            return None;
        },
    };
    let chars = chars_of(name.as_str());
    match rfind(&chars, '.') {
        Some(i) => {
            if i == 0 {
                None
            } else {
                proof {
                    crate::utils::text::lemma_last_index_of(chars@, '.');
                }
                assert(chars@.skip(i + 1) == chars@.subrange(i + 1, chars.len() as int));
                Some(string_of(&chars, i + 1, chars.len()))
            }
        },
        None => None,
    }
}

} // verus!
