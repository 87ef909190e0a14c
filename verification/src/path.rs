//! Joining a file name onto a directory, with `/` as the separator.

use vstd::prelude::*;

verus! {

/// Whether `name` starts at the root, so that no directory can stand before it.
pub open spec fn is_rooted(name: Seq<char>) -> bool {
    name.len() > 0 && name[0] == '/'
}

/// Whether a separator has to be put between `dir` and a name that follows it.
pub open spec fn needs_separator(dir: Seq<char>) -> bool {
    dir.len() > 0 && dir.last() != '/'
}

/// The path of `name` below `dir`. A rooted name stands for itself; otherwise
/// the name follows the directory, after one separator unless the directory
/// is empty or already ends in one. Neither part is rewritten.
pub open spec fn joined(dir: Seq<char>, name: Seq<char>) -> Seq<char> {
    if is_rooted(name) {
        name
    } else if needs_separator(dir) {
        dir + seq!['/'] + name
    } else {
        dir + name
    }
}

/// Joins `name` onto `dir`.
pub fn join(dir: &str, name: &str) -> (path: String)
    ensures
        path@ == joined(dir@, name@),
{
    let name_len: usize = name.unicode_len();
    if name_len > 0 && name.get_char(0) == '/' {
        return name.to_owned();
    }
    let dir_len: usize = dir.unicode_len();
    let mut path = dir.to_owned();
    if dir_len > 0 && dir.get_char(dir_len - 1) != '/' {
        proof {
            reveal_strlit("/");
        }
        path.append("/");
    }
    path.append(name);
    path
}

/// A join never alters the name: the path ends with the name as it was given,
/// and what stands before it is nothing, the directory, or the directory and
/// one separator.
pub proof fn lemma_join_keeps_name(dir: Seq<char>, name: Seq<char>)
    ensures
        joined(dir, name).len() >= name.len(),
        joined(dir, name).skip(joined(dir, name).len() - name.len()) == name,
        !is_rooted(name) ==> joined(dir, name).take(dir.len() as int) == dir,
        !is_rooted(name) && needs_separator(dir) ==> joined(dir, name) == dir + seq!['/'] + name,
{
}

} // verus!
