//! Paths as `/`-separated texts: file names, stems, extensions, parents,
//! joining and making a path relative to a root.
use crate::text::{chars_of, last_pos, rfind_char, substring};
use vstd::prelude::*;

verus! {

/// The text after the last `/`.
pub open spec fn file_name(p: Seq<char>) -> Seq<char> {
    p.skip(last_pos(p, '/') + 1)
}

/// The text before the last `/` (empty when there is none).
pub open spec fn parent(p: Seq<char>) -> Seq<char> {
    let k = last_pos(p, '/');
    if k < 0 {
        Seq::empty()
    } else {
        p.take(k)
    }
}

/// The extension of the file name of `p`: the text after its last `.`, when
/// that dot is not the name's first character.
pub open spec fn extension(p: Seq<char>) -> Option<Seq<char>> {
    let n = file_name(p);
    let d = last_pos(n, '.');
    if d > 0 {
        Some(n.skip(d + 1))
    } else {
        None
    }
}

/// The file name of `p` without its extension.
pub open spec fn file_stem(p: Seq<char>) -> Seq<char> {
    let n = file_name(p);
    let d = last_pos(n, '.');
    if d > 0 {
        n.take(d)
    } else {
        n
    }
}

/// Whether `root` needs no `/` before a name appended to it.
pub open spec fn ends_open(root: Seq<char>) -> bool {
    root.len() == 0 || root.last() == '/'
}

/// `name` under the directory `root`.
pub open spec fn join(root: Seq<char>, name: Seq<char>) -> Seq<char> {
    if ends_open(root) {
        root + name
    } else {
        root + seq!['/'] + name
    }
}

/// The part of `p` below `root`, without a leading `/`; `None` when `p` does
/// not lie under `root`.
pub open spec fn relative_to(p: Seq<char>, root: Seq<char>) -> Option<Seq<char>> {
    if root.len() <= p.len() && p.take(root.len() as int) == root {
        let rest = p.skip(root.len() as int);
        if rest.len() == 0 || ends_open(root) {
            Some(rest)
        } else if rest[0] == '/' {
            Some(rest.skip(1))
        } else {
            None
        }
    } else {
        None
    }
}

/// Whether `p` is `dir` or lies below it.
pub open spec fn inside(p: Seq<char>, dir: Seq<char>) -> bool {
    relative_to(p, dir) is Some
}

/// The file name of `path`.
pub fn file_name_of(path: &str) -> (r: String)
    ensures
        r@ == file_name(path@),
{
    let v = chars_of(path);
    match rfind_char(&v, '/') {
        Some(k) => substring(&v, k + 1, v.len()),
        None => {
            assert(v@.skip(0) =~= v@);
            String::from_str(path)
        },
    }
}

/// The file name of `path` without its extension.
pub fn file_stem_of(path: &str) -> (r: String)
    ensures
        r@ == file_stem(path@),
{
    let name = file_name_of(path);
    let n = chars_of(name.as_str());
    match rfind_char(&n, '.') {
        Some(d) => {
            if d > 0 {
                substring(&n, 0, d)
            } else {
                name
            }
        },
        None => name,
    }
}

/// The extension of `path`.
pub fn extension_of(path: &str) -> (r: Option<String>)
    ensures
        match extension(path@) {
            Some(e) => r is Some && r->0@ == e,
            None => r is None,
        },
{
    let name = file_name_of(path);
    let n = chars_of(name.as_str());
    match rfind_char(&n, '.') {
        Some(d) => {
            if d > 0 {
                Some(substring(&n, d + 1, n.len()))
            } else {
                None
            }
        },
        None => None,
    }
}

/// The directory that holds `path`.
pub fn parent_of(path: &str) -> (r: String)
    ensures
        r@ == parent(path@),
{
    let v = chars_of(path);
    match rfind_char(&v, '/') {
        Some(k) => substring(&v, 0, k),
        None => String::new(),
    }
}

/// `name` under the directory `root`.
pub fn join_path(root: &str, name: &str) -> (r: String)
    ensures
        r@ == join(root@, name@),
{
    let v = chars_of(root);
    let mut r = String::from_str(root);
    if v.len() > 0 && v[v.len() - 1] != '/' {
        r.append("/");
        proof {
            reveal_strlit("/");
        }
    }
    r.append(name);
    r
}

/// The part of `path` below `root`, without a leading `/`.
pub fn relative_path(path: &str, root: &str) -> (r: Option<String>)
    ensures
        match relative_to(path@, root@) {
            Some(rel) => r is Some && r->0@ == rel,
            None => r is None,
        },
{
    let p = chars_of(path);
    let q = chars_of(root);
    if q.len() > p.len() {
        return None;
    }
    let mut i: usize = 0;
    while i < q.len()
        invariant
            i <= q@.len() <= p@.len(),
            p@ == path@,
            q@ == root@,
            forall|j: int| 0 <= j < i ==> p@[j] == q@[j],
        decreases q.len() - i,
    {
        if p[i] != q[i] {
            assert(p@.take(q@.len() as int)[i as int] != q@[i as int]);
            assert(p@.take(q@.len() as int) != q@);
            return None;
        }
        i = i + 1;
    }
    assert(p@.take(q@.len() as int) =~= q@);
    let n = q.len();
    if n == p.len() || n == 0 || q[n - 1] == '/' {
        Some(substring(&p, n, p.len()))
    } else if p[n] == '/' {
        assert(p@.skip(n as int).skip(1) =~= p@.subrange(n + 1, p@.len() as int));
        Some(substring(&p, n + 1, p.len()))
    } else {
        None
    }
}

/// Two paths with the same non-empty path relative to one root are the same
/// path: documents from distinct files never share an output file.
pub proof fn law_relative_path_injective(p1: Seq<char>, p2: Seq<char>, root: Seq<char>)
    requires
        relative_to(p1, root) is Some,
        relative_to(p1, root) == relative_to(p2, root),
        relative_to(p1, root)->0.len() > 0,
    ensures
        p1 == p2,
{
    let n = root.len() as int;
    let r1 = p1.skip(n);
    let r2 = p2.skip(n);
    assert(p1 =~= root + r1);
    assert(p2 =~= root + r2);
    if !ends_open(root) {
        assert(r1 =~= seq!['/'] + r1.skip(1));
        assert(r2 =~= seq!['/'] + r2.skip(1));
    }
}

} // verus!
