//! Paths and URLs as plain strings, cut at `/`: the last segment, what stands
//! before it, and joining a name to a directory.

use vstd::prelude::*;
use vstd::string::*;
use crate::text::{rfind_char, to_chars};

verus! {

/// What follows the last `c` of `s`; all of `s` where it holds no `c`.
pub open spec fn after_last(s: Seq<char>, c: char) -> Seq<char>
    decreases s.len(),
{
    if s.len() == 0 {
        s
    } else if s.last() == c {
        Seq::empty()
    } else {
        after_last(s.drop_last(), c).push(s.last())
    }
}

/// The final segment of a path or URL: what follows its last `/`.
pub open spec fn spec_file_name(path: Seq<char>) -> Seq<char> {
    after_last(path, '/')
}

/// Whether a path names a file: its final segment is not empty, and is not
/// the `..` that stands for the directory above.
pub open spec fn names_file(path: Seq<char>) -> bool {
    spec_file_name(path).len() > 0 && spec_file_name(path) != seq!['.', '.']
}

/// What stands before the last `/` of a path, where it has one.
pub open spec fn spec_parent(path: Seq<char>) -> Option<Seq<char>> {
    if path.contains('/') {
        Some(path.subrange(0, path.len() - spec_file_name(path).len() - 1))
    } else {
        None
    }
}

/// `name` placed under `dir`: one `/` between them, unless `dir` is empty or
/// brings its own.
pub open spec fn spec_join(dir: Seq<char>, name: Seq<char>) -> Seq<char> {
    if dir.len() == 0 || dir.last() == '/' {
        dir + name
    } else {
        dir + seq!['/'] + name
    }
}

/// A path in the form that names a directory and no file: ending in `/`.
pub open spec fn spec_as_directory(path: Seq<char>) -> Seq<char> {
    spec_join(path, Seq::empty())
}

/// The final segment is the end of the path, holds no `c`, and is preceded
/// by a `c` or is the whole of it.
pub proof fn lemma_after_last(s: Seq<char>, c: char)
    ensures
        after_last(s, c).len() <= s.len(),
        after_last(s, c) == s.subrange(s.len() - after_last(s, c).len(), s.len() as int),
        !after_last(s, c).contains(c),
        s.contains(c) ==> after_last(s, c).len() < s.len() && s[s.len() - after_last(s, c).len()
            - 1] == c,
        !s.contains(c) ==> after_last(s, c) == s,
    decreases s.len(),
{
    if s.len() == 0 {
        assert(s.subrange(0, 0) =~= s);
    } else if s.last() == c {
        assert(s.subrange(s.len() as int, s.len() as int) =~= Seq::<char>::empty());
    } else {
        let t = s.drop_last();
        lemma_after_last(t, c);
        let a = after_last(t, c);
        let r = a.push(s.last());
        assert(r =~= s.subrange(s.len() - r.len(), s.len() as int));
        assert forall|i: int| 0 <= i < r.len() implies r[i] != c by {
            if i < a.len() {
                assert(a.contains(a[i]));
            }
        }
        if s.contains(c) {
            let k = choose|k: int| 0 <= k < s.len() && s[k] == c;
            assert(t[k] == c);
            assert(t.contains(c));
        } else {
            if t.contains(c) {
                let k = choose|k: int| 0 <= k < t.len() && t[k] == c;
                assert(s[k] == c);
            }
            assert(r =~= s);
        }
    }
}

/// Cutting after the last `c`, found at `i`, gives the final segment.
pub proof fn lemma_after_last_at(s: Seq<char>, c: char, i: int)
    requires
        0 <= i < s.len(),
        s[i] == c,
        forall|j: int| i < j < s.len() ==> s[j] != c,
    ensures
        after_last(s, c) == s.subrange(i + 1, s.len() as int),
{
    lemma_after_last(s, c);
    let n = after_last(s, c).len();
    assert(s.contains(c));
    let p = s.len() - n - 1;
    if p < i {
        let tail = after_last(s, c);
        assert(tail[i - p - 1] == s[i]);
        assert(tail.contains(c));
    }
}

/// The final segment of `path`, where the path names a file.
pub fn file_name<'a>(path: &'a str) -> (r: Option<&'a str>)
    ensures
        match r {
            Some(name) => names_file(path@) && name@ == spec_file_name(path@),
            None => !names_file(path@),
        },
{
    let chars = to_chars(path);
    let n = chars.len();
    let start: usize = match rfind_char(&chars, '/') {
        Some(i) => {
            proof {
                lemma_after_last_at(path@, '/', i as int);
            }
            i + 1
        },
        None => {
            proof {
                lemma_after_last(path@, '/');
                assert(!path@.contains('/'));
                assert(path@.subrange(0, n as int) =~= path@);
            }
            0
        },
    };
    let ghost name = path@.subrange(start as int, n as int);
    assert(spec_file_name(path@) == name);
    if start == n {
        None
    } else if n - start == 2 && chars[start] == '.' && chars[start + 1] == '.' {
        assert(name =~= seq!['.', '.']);
        None
    } else {
        proof {
            if name.len() == 2 {
                assert(name[0] == chars@[start as int] && name[1] == chars@[start + 1]);
                assert(seq!['.', '.'][0] == '.' && seq!['.', '.'][1] == '.');
            }
        }
        Some(path.substring_char(start, n))
    }
}

/// What stands before the last `/` of `path`, where it has one.
pub fn parent<'a>(path: &'a str) -> (r: Option<&'a str>)
    ensures
        match r {
            Some(dir) => spec_parent(path@) == Some(dir@),
            None => spec_parent(path@) is None,
        },
{
    let chars = to_chars(path);
    match rfind_char(&chars, '/') {
        Some(i) => {
            proof {
                lemma_after_last_at(path@, '/', i as int);
                assert(path@.contains('/'));
            }
            Some(path.substring_char(0, i))
        },
        None => {
            assert(!path@.contains('/'));
            None
        },
    }
}

/// `name` placed under `dir`.
pub fn join(dir: &str, name: &str) -> (r: String)
    ensures
        r@ == spec_join(dir@, name@),
{
    let chars = to_chars(dir);
    let n = chars.len();
    let mut r = String::from_str(dir);
    if n > 0 && chars[n - 1] != '/' {
        proof {
            reveal_strlit("/");
            assert("/"@ =~= seq!['/']);
        }
        r.append("/");
    }
    r.append(name);
    r
}

/// `path` in the form that names a directory: with a `/` at its end.
pub fn as_directory(path: &str) -> (r: String)
    ensures
        r@ == spec_as_directory(path@),
        !names_file(r@),
{
    proof {
        reveal_strlit("");
        assert(""@ =~= Seq::<char>::empty());
        lemma_directory_names_no_file(path@);
    }
    join(path, "")
}

/// A path brought into directory form names no file.
pub proof fn lemma_directory_names_no_file(path: Seq<char>)
    ensures
        !names_file(spec_as_directory(path)),
{
    let d = spec_as_directory(path);
    if path.len() == 0 {
        assert(d =~= Seq::<char>::empty());
    } else if path.last() == '/' {
        assert(d =~= path);
    } else {
        assert(d.last() == '/');
    }
}

/// A name joined to a directory keeps its own final segment, as long as it
/// holds no `/` itself.
pub proof fn lemma_join_file_name(dir: Seq<char>, name: Seq<char>)
    requires
        !name.contains('/'),
    ensures
        spec_file_name(spec_join(dir, name)) == name,
    decreases name.len(),
{
    let j = spec_join(dir, name);
    if name.len() == 0 {
        if dir.len() == 0 {
            assert(j =~= name);
        } else {
            assert(j.last() == '/');
            assert(name =~= Seq::<char>::empty());
        }
    } else {
        let shorter = name.drop_last();
        assert(name.last() != '/') by {
            assert(name.contains(name.last()));
        }
        assert(!shorter.contains('/')) by {
            if shorter.contains('/') {
                let k = choose|k: int| 0 <= k < shorter.len() && shorter[k] == '/';
                assert(name[k] == '/');
            }
        }
        lemma_join_file_name(dir, shorter);
        assert(j.drop_last() =~= spec_join(dir, shorter));
        assert(j.last() == name.last());
        assert(after_last(j.drop_last(), '/').push(j.last()) =~= name);
    }
}

} // verus!
