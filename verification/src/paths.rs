//! Paths as text: joining, tilde expansion, and a record of which paths
//! were found to exist.

use crate::text::{has_prefix, starts_with};
use vstd::prelude::*;
use vstd::string::*;

verus! {

/// `dir` and `name` as one path, the way a Unix path grows by a component:
/// an absolute `name` stands alone, an empty `dir` adds nothing, and a
/// separator is put between the two unless `dir` ends with one.
pub open spec fn joined(dir: Seq<char>, name: Seq<char>) -> Seq<char> {
    if name.len() > 0 && name[0] == '/' {
        name
    } else if dir.len() == 0 || dir.last() == '/' {
        dir + name
    } else {
        dir + seq!['/'] + name
    }
}

/// `path` with a leading `~` replaced by the home directory, where the
/// path is `~` alone or starts with `~/` and a home directory is known;
/// else `path` itself.
pub open spec fn tilde_expanded(path: Seq<char>, home: Option<Seq<char>>) -> Seq<char> {
    match home {
        Some(h) => if path == seq!['~'] {
            h
        } else if starts_with(path, seq!['~', '/']) {
            joined(h, path.subrange(2, path.len() as int))
        } else {
            path
        },
        None => path,
    }
}

/// Joins a directory and a name into one path.
pub fn join_path(dir: &str, name: &str) -> (r: String)
    ensures
        r@ == joined(dir@, name@),
{
    proof {
        reveal_strlit("/");
    }
    let n = name.unicode_len();
    if n > 0 && name.get_char(0) == '/' {
        return name.to_owned();
    }
    let d = dir.unicode_len();
    if d == 0 || dir.get_char(d - 1) == '/' {
        dir.to_owned().concat(name)
    } else {
        assert("/"@ =~= seq!['/']);
        dir.to_owned().concat("/").concat(name)
    }
}

/// Replaces a leading `~` by the home directory.
pub fn expand_tilde(path: &str, home: Option<&str>) -> (r: String)
    ensures
        r@ == tilde_expanded(path@, text_of_str(home)),
{
    proof {
        reveal_strlit("~");
        reveal_strlit("~/");
        assert("~"@ =~= seq!['~']);
        assert("~/"@ =~= seq!['~', '/']);
    }
    match home {
        Some(h) => {
            let n = path.unicode_len();
            if n == 1 && path.get_char(0) == '~' {
                assert(path@ =~= seq!['~']);
                h.to_owned()
            } else if has_prefix(path, "~/") {
                join_path(h, path.substring_char(2, n))
            } else {
                path.to_owned()
            }
        },
        None => path.to_owned(),
    }
}

/// The characters of an optional string slice.
pub open spec fn text_of_str(o: Option<&str>) -> Option<Seq<char>> {
    match o {
        Some(s) => Some(s@),
        None => None,
    }
}

/// The paths that were looked at and found to exist.
#[derive(Debug)]
pub struct PathSet {
    paths: Vec<String>,
}

impl View for PathSet {
    type V = Set<Seq<char>>;

    closed spec fn view(&self) -> Set<Seq<char>> {
        Set::new(|p: Seq<char>| exists|i: int| 0 <= i < self.paths@.len() && #[trigger] self.paths@[i]@ == p)
    }
}

impl PathSet {
    /// The record in which no path exists.
    pub fn new() -> (r: PathSet)
        ensures
            r@ == Set::<Seq<char>>::empty(),
    {
        let r = PathSet { paths: Vec::new() };
        proof {
            assert(r@ =~= Set::<Seq<char>>::empty());
        }
        r
    }

    /// Records that `path` exists.
    pub fn insert(&mut self, path: String)
        ensures
            final(self)@ == old(self)@.insert(path@),
    {
        let ghost before = self.paths@;
        let ghost p = path@;
        self.paths.push(path);
        proof {
            let after = self.paths@;
            assert forall|q: Seq<char>| final(self)@.contains(q) == old(self)@.insert(p).contains(
                q,
            ) by {
                if old(self)@.insert(p).contains(q) {
                    if q == p {
                        assert(after[before.len() as int]@ == q);
                    } else {
                        let i = choose|i: int| 0 <= i < before.len() && #[trigger] before[i]@ == q;
                        assert(after[i]@ == q);
                    }
                }
                if final(self)@.contains(q) {
                    let i = choose|i: int| 0 <= i < after.len() && #[trigger] after[i]@ == q;
                    if i < before.len() {
                        assert(before[i]@ == q);
                    }
                }
            }
            assert(final(self)@ =~= old(self)@.insert(p));
        }
    }

    /// Whether `path` was found to exist.
    pub fn contains(&self, path: &String) -> (r: bool)
        ensures
            r == self@.contains(path@),
    {
        let mut i: usize = 0;
        while i < self.paths.len()
            invariant
                i <= self.paths@.len(),
                forall|j: int| 0 <= j < i ==> #[trigger] self.paths@[j]@ != path@,
            decreases self.paths@.len() - i,
        {
            if self.paths[i] == *path {
                return true;
            }
            i = i + 1;
        }
        false
    }
}

} // verus!
