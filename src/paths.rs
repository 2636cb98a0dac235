//! Paths as character sequences with `/` as the separator: joining a name
//! onto a directory, and taking a path apart into parent and final name.
//! `.` and `..` are ordinary names here; nothing is resolved on disk.
use vstd::prelude::*;
use crate::entries::FileEntry;
use crate::text::{chars_of, push_char};

verus! {

/// `dir` joined with `name` as `PathBuf::push` does it: an absolute name
/// replaces the directory, otherwise one separator stands between them.
pub open spec fn path_join(dir: Seq<char>, name: Seq<char>) -> Seq<char> {
    if name.len() > 0 && name[0] == '/' {
        name
    } else if dir.len() == 0 {
        name
    } else if dir.last() == '/' {
        dir + name
    } else {
        dir + seq!['/'] + name
    }
}

/// The path without its trailing separators (a lone `/` is kept).
pub open spec fn trim_end(p: Seq<char>) -> Seq<char>
    decreases p.len(),
{
    if p.len() > 1 && p.last() == '/' {
        trim_end(p.drop_last())
    } else {
        p
    }
}

/// The index of the last separator, or -1 where there is none.
pub open spec fn last_sep(p: Seq<char>) -> int
    decreases p.len(),
{
    if p.len() == 0 {
        -1
    } else if p.last() == '/' {
        p.len() - 1
    } else {
        last_sep(p.drop_last())
    }
}

/// The parent directory: `None` for the root and the empty path, the empty
/// path for a lone relative name, `/` for an entry of the root.
pub open spec fn parent_of(p: Seq<char>) -> Option<Seq<char>> {
    let t = trim_end(p);
    if t.len() == 0 || t =~= seq!['/'] {
        None
    } else {
        let i = last_sep(t);
        if i < 0 {
            Some(Seq::empty())
        } else if i == 0 {
            Some(seq!['/'])
        } else {
            Some(trim_end(t.subrange(0, i)))
        }
    }
}

/// The final component: `None` for the root and the empty path.
pub open spec fn file_name_of(p: Seq<char>) -> Option<Seq<char>> {
    let t = trim_end(p);
    if t.len() == 0 || t =~= seq!['/'] {
        None
    } else {
        Some(t.subrange(last_sep(t) + 1, t.len() as int))
    }
}

/// A plain name: non-empty and without a separator.
pub open spec fn is_plain_name(n: Seq<char>) -> bool {
    n.len() > 0 && forall|i: int| 0 <= i < n.len() ==> n[i] != '/'
}

/// A directory path as this library produces it: no trailing separator
/// unless it is the root.
pub open spec fn is_clean_dir(d: Seq<char>) -> bool {
    trim_end(d) == d
}

pub proof fn lemma_last_sep_range(p: Seq<char>)
    ensures
        -1 <= last_sep(p) < p.len(),
        last_sep(p) >= 0 ==> p[last_sep(p)] == '/',
        forall|k: int| last_sep(p) < k < p.len() ==> p[k] != '/',
    decreases p.len(),
{
    if p.len() > 0 && p.last() != '/' {
        lemma_last_sep_range(p.drop_last());
        assert forall|k: int| last_sep(p) < k < p.len() implies p[k] != '/' by {
            if k < p.len() - 1 {
                assert(p[k] == p.drop_last()[k]);
            }
        }
    }
}

proof fn lemma_trim_end_len(p: Seq<char>)
    ensures
        trim_end(p).len() <= p.len(),
    decreases p.len(),
{
    if p.len() > 1 && p.last() == '/' {
        lemma_trim_end_len(p.drop_last());
    }
}

proof fn lemma_last_sep_plain(d: Seq<char>, n: Seq<char>)
    requires
        is_plain_name(n),
    ensures
        last_sep(d + seq!['/'] + n) == d.len(),
    decreases n.len(),
{
    let p = d + seq!['/'] + n;
    assert(p.last() == n[n.len() - 1]);
    assert(p.last() != '/');
    if n.len() == 1 {
        assert(p.drop_last() =~= d + seq!['/']);
        assert((d + seq!['/']).last() == '/');
        assert(last_sep(d + seq!['/']) == d.len());
        assert(last_sep(p) == last_sep(p.drop_last()));
    } else {
        let n2 = n.drop_last();
        assert forall|i: int| 0 <= i < n2.len() implies n2[i] != '/' by {
            assert(n2[i] == n[i]);
        }
        assert(p.drop_last() =~= d + seq!['/'] + n2);
        lemma_last_sep_plain(d, n2);
        assert(last_sep(p) == last_sep(p.drop_last()));
    }
}

/// Joining a plain name onto a clean directory and taking the result apart
/// gives back the directory and the name.
pub proof fn lemma_join_split(d: Seq<char>, n: Seq<char>)
    requires
        is_plain_name(n),
        is_clean_dir(d),
    ensures
        parent_of(path_join(d, n)) == Some(d),
        file_name_of(path_join(d, n)) == Some(n),
{
    let p = path_join(d, n);
    assert(p.last() != '/');
    assert(trim_end(p) == p);
    if d.len() == 0 {
        assert(p == n);
        lemma_last_sep_range(n);
        assert(last_sep(n) < 0);
        assert(p.subrange(0, p.len() as int) =~= n);
    } else if d.last() == '/' {
        // d is the root
        lemma_trim_end_len(d.drop_last());
        assert(d.len() <= 1);
        assert(d =~= seq!['/']);
        assert(p =~= seq![] + seq!['/'] + n);
        lemma_last_sep_plain(Seq::empty(), n);
        assert(p.subrange(1, p.len() as int) =~= n);
        assert(p.len() > 1);
        assert(!(p =~= seq!['/']));
    } else {
        lemma_last_sep_plain(d, n);
        assert(p.subrange(0, d.len() as int) =~= d);
        assert(p.subrange(d.len() as int + 1, p.len() as int) =~= n);
        assert(!(p =~= seq!['/']));
    }
}

/// The characters `v[lo..hi]` as a string.
pub fn string_of_range(v: &Vec<char>, lo: usize, hi: usize) -> (r: String)
    requires
        lo <= hi <= v@.len(),
    ensures
        r@ == v@.subrange(lo as int, hi as int),
{
    let mut r = String::new();
    let mut i = lo;
    while i < hi
        invariant
            lo <= i <= hi <= v@.len(),
            r@ == v@.subrange(lo as int, i as int),
        decreases hi - i,
    {
        push_char(&mut r, v[i]);
        assert(r@ =~= v@.subrange(lo as int, i + 1));
        i = i + 1;
    }
    r
}

/// `path_join(dir, name)`.
pub fn join_path(dir: &str, name: &str) -> (r: String)
    ensures
        r@ == path_join(dir@, name@),
{
    let nv = chars_of(name);
    if nv.len() > 0 && nv[0] == '/' {
        return name.to_owned();
    }
    let dv = chars_of(dir);
    if dv.len() == 0 {
        return name.to_owned();
    }
    let mut r = dir.to_owned();
    if dv[dv.len() - 1] != '/' {
        push_char(&mut r, '/');
    }
    r.append(name);
    r
}

/// The full path of an entry of `dir`.
pub fn build_full_path(dir: &String, file: &FileEntry) -> (r: String)
    ensures
        r@ == path_join(dir@, file.name@),
{
    join_path(dir.as_str(), file.name.as_str())
}

/// The length of `trim_end(v[..n])`.
pub(crate) fn trimmed_len(v: &Vec<char>, n: usize) -> (r: usize)
    requires
        n <= v@.len(),
    ensures
        r <= n,
        v@.subrange(0, r as int) == trim_end(v@.subrange(0, n as int)),
{
    let mut k = n;
    while k > 1 && v[k - 1] == '/'
        invariant
            k <= n <= v@.len(),
            trim_end(v@.subrange(0, k as int)) == trim_end(v@.subrange(0, n as int)),
        decreases k,
    {
        assert(v@.subrange(0, k as int).drop_last() =~= v@.subrange(0, k - 1));
        k = k - 1;
    }
    k
}

/// `last_sep(v[..n])`, as an index when there is a separator.
fn find_last_sep(v: &Vec<char>, n: usize) -> (r: Option<usize>)
    requires
        n <= v@.len(),
    ensures
        match r {
            Some(i) => i as int == last_sep(v@.subrange(0, n as int)),
            None => last_sep(v@.subrange(0, n as int)) == -1,
        },
{
    let mut k = n;
    while k > 0 && v[k - 1] != '/'
        invariant
            k <= n <= v@.len(),
            last_sep(v@.subrange(0, k as int)) == last_sep(v@.subrange(0, n as int)),
        decreases k,
    {
        assert(v@.subrange(0, k as int).drop_last() =~= v@.subrange(0, k - 1));
        k = k - 1;
    }
    if k == 0 {
        None
    } else {
        Some(k - 1)
    }
}

/// The parent directory of a path (see `parent_of`).
pub fn parent_path(p: &str) -> (r: Option<String>)
    ensures
        match r {
            Some(s) => parent_of(p@) == Some(s@),
            None => parent_of(p@) is None,
        },
{
    let v = chars_of(p);
    assert(v@.subrange(0, v@.len() as int) =~= v@);
    let n = trimmed_len(&v, v.len());
    let ghost t = v@.subrange(0, n as int);
    if n == 0 || (n == 1 && v[0] == '/') {
        assert(n == 1 ==> t =~= seq!['/']);
        return None;
    }
    assert(!(t =~= seq!['/']));
    proof { lemma_last_sep_range(t); }
    match find_last_sep(&v, n) {
        None => Some(String::new()),
        Some(i) => {
            if i == 0 {
                let mut r = String::new();
                push_char(&mut r, '/');
                assert(r@ =~= seq!['/']);
                Some(r)
            } else {
                assert(v@.subrange(0, i as int) =~= t.subrange(0, i as int));
                let m = trimmed_len(&v, i);
                Some(string_of_range(&v, 0, m))
            }
        },
    }
}

/// The final component of a path (see `file_name_of`).
pub fn file_name_path(p: &str) -> (r: Option<String>)
    ensures
        match r {
            Some(s) => file_name_of(p@) == Some(s@),
            None => file_name_of(p@) is None,
        },
{
    let v = chars_of(p);
    assert(v@.subrange(0, v@.len() as int) =~= v@);
    let n = trimmed_len(&v, v.len());
    let ghost t = v@.subrange(0, n as int);
    if n == 0 || (n == 1 && v[0] == '/') {
        assert(n == 1 ==> t =~= seq!['/']);
        return None;
    }
    assert(!(t =~= seq!['/']));
    proof { lemma_last_sep_range(t); }
    let start = match find_last_sep(&v, n) {
        None => 0,
        Some(i) => i + 1,
    };
    let r = string_of_range(&v, start, n);
    assert(r@ =~= t.subrange(last_sep(t) + 1, t.len() as int));
    Some(r)
}

} // verus!
