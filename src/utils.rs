//! Number formatting and collision-free names.
use vstd::prelude::*;
use vstd::set_lib::{lemma_int_range, lemma_len_subset, lemma_map_size, set_int_range};
use crate::paths::{last_sep, string_of_range, trim_end, trimmed_len};
use crate::text::{chars_of, push_char, str_eq};

verus! {

pub open spec fn digit_char(d: nat) -> char {
    if d == 0 { '0' } else if d == 1 { '1' } else if d == 2 { '2' } else if d == 3 { '3' }
    else if d == 4 { '4' } else if d == 5 { '5' } else if d == 6 { '6' } else if d == 7 { '7' }
    else if d == 8 { '8' } else { '9' }
}

/// The decimal digits of `n`.
pub open spec fn dec(n: nat) -> Seq<char>
    decreases n,
{
    if n < 10 {
        seq![digit_char(n)]
    } else {
        dec(n / 10).push(digit_char(n % 10))
    }
}

fn digit(d: u64) -> (c: char)
    requires
        d < 10,
    ensures
        c == digit_char(d as nat),
{
    if d == 0 { '0' } else if d == 1 { '1' } else if d == 2 { '2' } else if d == 3 { '3' }
    else if d == 4 { '4' } else if d == 5 { '5' } else if d == 6 { '6' } else if d == 7 { '7' }
    else if d == 8 { '8' } else { '9' }
}

/// Appends the decimal digits of `n`.
pub fn push_decimal(s: &mut String, n: u128)
    ensures
        final(s)@ == old(s)@ + dec(n as nat),
    decreases n,
{
    if n >= 10 {
        push_decimal(s, n / 10);
    }
    push_char(s, digit((n % 10) as u64));
    assert(n >= 10 ==> dec(n as nat) == dec((n / 10) as nat).push(digit_char((n % 10) as nat)));
    assert(final(s)@ =~= old(s)@ + dec(n as nat)) by {
        if n >= 10 {
        }
    }
}

/// The decimal digits of `n`, as a string.
pub fn decimal_string(n: u128) -> (r: String)
    ensures
        r@ == dec(n as nat),
{
    let mut s = String::new();
    push_decimal(&mut s, n);
    assert(s@ =~= dec(n as nat));
    s
}

proof fn lemma_dec_len(n: nat)
    ensures
        dec(n).len() >= 1,
        n >= 10 ==> dec(n).len() >= 2,
    decreases n,
{
    if n >= 10 {
        lemma_dec_len(n / 10);
    }
}

proof fn lemma_digit_injective(a: nat, b: nat)
    requires
        a < 10,
        b < 10,
        digit_char(a) == digit_char(b),
    ensures
        a == b,
{
}

proof fn lemma_dec_injective(a: nat, b: nat)
    requires
        dec(a) == dec(b),
    ensures
        a == b,
    decreases a,
{
    lemma_dec_len(a);
    lemma_dec_len(b);
    if a < 10 && b < 10 {
        assert(dec(a)[0] == digit_char(a));
        assert(dec(b)[0] == digit_char(b));
        lemma_digit_injective(a, b);
    } else if a >= 10 && b >= 10 {
        assert(dec(a).last() == digit_char(a % 10));
        assert(dec(b).last() == digit_char(b % 10));
        lemma_digit_injective(a % 10, b % 10);
        assert(dec(a / 10) =~= dec(a).drop_last());
        assert(dec(b / 10) =~= dec(b).drop_last());
        lemma_dec_injective(a / 10, b / 10);
    }
}

/// The hundredths of `x / u`, rounded to nearest with ties to even.
pub open spec fn rounded_hundredths(x: nat, u: nat) -> nat
    recommends
        u > 0,
{
    let q = (x * 100) / u;
    let r = (x * 100) % u;
    if 2 * r > u {
        q + 1
    } else if 2 * r < u {
        q
    } else {
        q + q % 2
    }
}

/// `x / u` written with as few decimals as it needs up to two: none when
/// whole, one when exact to a tenth, else two, rounded to nearest (ties to
/// even).
pub open spec fn quotient_text(x: nat, u: nat) -> Seq<char>
    recommends
        u > 0,
{
    if x % u == 0 {
        dec(x / u)
    } else if (x * 10) % u == 0 {
        dec(x * 10 / u / 10) + seq!['.'] + seq![digit_char((x * 10 / u) % 10)]
    } else {
        let h = rounded_hundredths(x, u);
        dec(h / 100) + seq!['.'] + seq![digit_char((h % 100) / 10), digit_char(h % 10)]
    }
}

pub const KB: u64 = 1024;
pub const MB: u64 = 1048576;
pub const GB: u64 = 1073741824;

/// The human-readable size of `bytes`: in G, M or K from 1024³, 1024² or
/// 1024 bytes on (see `quotient_text`), else whole bytes with `B`.
pub open spec fn bytes_text(bytes: nat) -> Seq<char> {
    if bytes >= GB {
        quotient_text(bytes, GB as nat) + seq![' ', 'G']
    } else if bytes >= MB {
        quotient_text(bytes, MB as nat) + seq![' ', 'M']
    } else if bytes >= KB {
        quotient_text(bytes, KB as nat) + seq![' ', 'K']
    } else {
        dec(bytes) + seq![' ', 'B']
    }
}

fn push_quotient(s: &mut String, x: u64, u: u64)
    requires
        u > 0,
    ensures
        final(s)@ == old(s)@ + quotient_text(x as nat, u as nat),
{
    let x = x as u128;
    let u = u as u128;
    let ghost s0 = old(s)@;
    assert(x * 100 <= 100 * 0xffff_ffff_ffff_ffffu128) by (nonlinear_arith)
        requires x <= 0xffff_ffff_ffff_ffffu128;
    if x % u == 0 {
        push_decimal(s, x / u);
    } else if (x * 10) % u == 0 {
        let t = x * 10 / u;
        push_decimal(s, t / 10);
        push_char(s, '.');
        push_char(s, digit((t % 10) as u64));
        assert(s@ =~= s0 + quotient_text(x as nat, u as nat));
    } else {
        let q = (x * 100) / u;
        let r = (x * 100) % u;
        let h = if 2 * r > u {
            q + 1
        } else if 2 * r < u {
            q
        } else {
            q + q % 2
        };
        assert(h == rounded_hundredths(x as nat, u as nat));
        push_decimal(s, h / 100);
        push_char(s, '.');
        push_char(s, digit(((h % 100) / 10) as u64));
        push_char(s, digit((h % 10) as u64));
        assert(s@ =~= s0 + quotient_text(x as nat, u as nat));
    }
}

/// Formats a byte count for display, e.g. `1234` as `1.21 K`.
pub fn format_bytes(bytes: u64) -> (r: String)
    ensures
        r@ == bytes_text(bytes as nat),
{
    let mut s = String::new();
    if bytes >= GB {
        push_quotient(&mut s, bytes, GB);
        push_char(&mut s, ' ');
        push_char(&mut s, 'G');
    } else if bytes >= MB {
        push_quotient(&mut s, bytes, MB);
        push_char(&mut s, ' ');
        push_char(&mut s, 'M');
    } else if bytes >= KB {
        push_quotient(&mut s, bytes, KB);
        push_char(&mut s, ' ');
        push_char(&mut s, 'K');
    } else {
        push_decimal(&mut s, bytes as u128);
        push_char(&mut s, ' ');
        push_char(&mut s, 'B');
    }
    assert(s@ =~= bytes_text(bytes as nat));
    s
}

/// The index of the last `.` of a name, or -1 where there is none.
pub open spec fn last_dot(name: Seq<char>) -> int
    decreases name.len(),
{
    if name.len() == 0 {
        -1
    } else if name.last() == '.' {
        name.len() - 1
    } else {
        last_dot(name.drop_last())
    }
}

/// Where a name's stem ends: at its last `.`, unless that dot is the first
/// character (a hidden name) or there is none; then the stem is the whole
/// name.
pub open spec fn stem_end(name: Seq<char>) -> int {
    let d = last_dot(name);
    if d > 0 { d } else { name.len() as int }
}

/// The `k`-th name tried for `path` when pasting: `path` itself for 0, then
/// the final component's stem with `_k` appended, extension kept.
pub open spec fn candidate_path(path: Seq<char>, k: nat) -> Seq<char> {
    if k == 0 {
        path
    } else {
        let t = trim_end(path);
        let start = last_sep(t) + 1;
        let name = t.subrange(start, t.len() as int);
        let e = stem_end(name);
        t.subrange(0, start + e) + seq!['_'] + dec(k) + name.subrange(e, name.len() as int)
    }
}

/// Whether `p` is one of `paths`.
pub open spec fn holds_path(paths: Seq<Seq<char>>, p: Seq<char>) -> bool {
    exists|i: int| 0 <= i < paths.len() && #[trigger] paths[i] == p
}

/// The views of a sequence of strings.
pub open spec fn views(s: Seq<String>) -> Seq<Seq<char>> {
    s.map_values(|x: String| x@)
}

/// `r` is the first candidate for `path` that is not taken.
pub open spec fn is_first_free(r: Seq<char>, path: Seq<char>, taken: Seq<Seq<char>>) -> bool {
    exists|k: nat|
        r == candidate_path(path, k) && !holds_path(taken, candidate_path(path, k))
            && forall|j: nat| j < k ==> holds_path(taken, #[trigger] candidate_path(path, j))
}

proof fn lemma_last_dot_range(name: Seq<char>)
    ensures
        -1 <= last_dot(name) < name.len(),
    decreases name.len(),
{
    if name.len() > 0 && name.last() != '.' {
        lemma_last_dot_range(name.drop_last());
    }
}

proof fn lemma_stem_end_range(name: Seq<char>)
    ensures
        0 <= stem_end(name) <= name.len(),
{
    lemma_last_dot_range(name);
}

proof fn lemma_candidates_distinct(path: Seq<char>, a: nat, b: nat)
    requires
        a >= 1,
        b >= 1,
        candidate_path(path, a) == candidate_path(path, b),
    ensures
        a == b,
{
    let t = trim_end(path);
    crate::paths::lemma_last_sep_range(t);
    let start = last_sep(t) + 1;
    let name = t.subrange(start, t.len() as int);
    lemma_stem_end_range(name);
    let e = stem_end(name);
    let head = t.subrange(0, start + e) + seq!['_'];
    let tail = name.subrange(e, name.len() as int);
    let ca = head + dec(a) + tail;
    let cb = head + dec(b) + tail;
    assert(candidate_path(path, a) =~= ca);
    assert(candidate_path(path, b) =~= cb);
    assert(dec(a).len() == dec(b).len());
    assert(ca.subrange(head.len() as int, (head.len() + dec(a).len()) as int) =~= dec(a));
    assert(cb.subrange(head.len() as int, (head.len() + dec(b).len()) as int) =~= dec(b));
    lemma_dec_injective(a, b);
}

/// Where the candidates 1..k are all taken, there are at least k taken
/// paths.
proof fn lemma_taken_bound(path: Seq<char>, taken: Seq<Seq<char>>, k: nat)
    requires
        forall|j: nat| 1 <= j <= k ==> holds_path(taken, #[trigger] candidate_path(path, j)),
    ensures
        k <= taken.len(),
{
    let x = set_int_range(1, k as int + 1);
    let y = set_int_range(0, taken.len() as int);
    let f = |j: int| choose|i: int| 0 <= i < taken.len() && #[trigger] taken[i] == candidate_path(path, j as nat);
    lemma_int_range(1, k as int + 1);
    lemma_int_range(0, taken.len() as int);
    assert forall|j: int| x.contains(j) implies 0 <= #[trigger] f(j) < taken.len()
        && taken[f(j)] == candidate_path(path, j as nat) by {
        assert(holds_path(taken, candidate_path(path, j as nat)));
    }
    assert(vstd::relations::injective_on(f, x)) by {
        assert forall|a: int, b: int| x.contains(a) && x.contains(b) && #[trigger] f(a) == #[trigger] f(b) implies a == b by {
            lemma_candidates_distinct(path, a as nat, b as nat);
        }
    }
    lemma_map_size(x, x.map(f), f);
    assert(x.map(f).subset_of(y));
    lemma_len_subset(x.map(f), y);
}

/// The first of `path`, `stem_1.ext`, `stem_2.ext`, ... that is not among
/// `taken` (the paths that already exist).
pub fn uniquify_path(path: &String, taken: &Vec<String>) -> (r: String)
    requires
        taken@.len() < u64::MAX,
    ensures
        is_first_free(r@, path@, views(taken@)),
{
    if !contains_path(taken, path.as_str()) {
        assert(candidate_path(path@, 0) == path@);
        return path.clone();
    }
    let v = chars_of(path.as_str());
    assert(v@.subrange(0, v@.len() as int) =~= v@);
    let n = trimmed_len(&v, v.len());
    let start = name_start(&v, n);
    let e = stem_len(&v, start, n);
    let ghost t = trim_end(path@);
    let ghost name = t.subrange(start as int, t.len() as int);
    assert(t == v@.subrange(0, n as int));
    assert(name =~= v@.subrange(start as int, n as int));
    let mut k: u64 = 1;
    proof {
        assert(holds_path(views(taken@), candidate_path(path@, 0)));
    }
    loop
        invariant
            1 <= k <= taken@.len() + 1,
            forall|j: nat| j < k ==> holds_path(views(taken@), #[trigger] candidate_path(path@, j)),
            v@ == path@,
            t == v@.subrange(0, n as int),
            t == trim_end(path@),
            start as int == last_sep(t) + 1,
            start <= n <= v@.len(),
            start + e <= n,
            e as int == stem_end(name),
            name == t.subrange(start as int, t.len() as int),
            taken@.len() < u64::MAX,
        decreases taken@.len() + 1 - k,
    {
        let mut c = string_of_range(&v, 0, start + e);
        push_char(&mut c, '_');
        push_decimal(&mut c, k as u128);
        let tail = string_of_range(&v, start + e, n);
        c.append(tail.as_str());
        assert(c@ =~= candidate_path(path@, k as nat)) by {
            assert(t.subrange(0, (start + e) as int) =~= v@.subrange(0, (start + e) as int));
            assert(name.subrange(e as int, name.len() as int) =~= v@.subrange((start + e) as int, n as int));
            assert(c@ =~= v@.subrange(0, (start + e) as int) + seq!['_'] + dec(k as nat) + v@.subrange((start + e) as int, n as int));
            assert(trim_end(path@) == t);
            assert(last_sep(t) + 1 == start);
            assert(t.len() == n);
            assert(candidate_path(path@, k as nat) == t.subrange(0, start + e) + seq!['_'] + dec(k as nat) + name.subrange(e as int, name.len() as int));
        }
        if !contains_path(taken, c.as_str()) {
            return c;
        }
        proof {
            assert forall|j: nat| 1 <= j <= k as nat implies holds_path(views(taken@), #[trigger] candidate_path(path@, j)) by {}
            lemma_taken_bound(path@, views(taken@), k as nat);
        }
        k = k + 1;
    }
}

fn contains_path(taken: &Vec<String>, p: &str) -> (r: bool)
    ensures
        r == holds_path(views(taken@), p@),
{
    let mut i: usize = 0;
    while i < taken.len()
        invariant
            i <= taken@.len(),
            forall|j: int| 0 <= j < i ==> (#[trigger] taken@[j])@ != p@,
        decreases taken@.len() - i,
    {
        if str_eq(taken[i].as_str(), p) {
            assert(views(taken@)[i as int] == p@);
            return true;
        }
        i = i + 1;
    }
    assert forall|j: int| 0 <= j < views(taken@).len() implies #[trigger] views(taken@)[j] != p@ by {
        assert(views(taken@)[j] == taken@[j]@);
    }
    false
}

fn name_start(v: &Vec<char>, n: usize) -> (r: usize)
    requires
        n <= v@.len(),
    ensures
        r as int == last_sep(v@.subrange(0, n as int)) + 1,
        r <= n,
{
    let mut k = n;
    while k > 0 && v[k - 1] != '/'
        invariant
            k <= n <= v@.len(),
            last_sep(v@.subrange(0, k as int)) == last_sep(v@.subrange(0, n as int)),
        decreases k,
    {
        assert(v@.subrange(0, k as int).drop_last() =~= v@.subrange(0, k - 1));
        k = k - 1;
    }
    if k > 0 {
        assert(v@.subrange(0, k as int).last() == '/');
    }
    k
}

fn stem_len(v: &Vec<char>, start: usize, n: usize) -> (r: usize)
    requires
        start <= n <= v@.len(),
    ensures
        r as int == stem_end(v@.subrange(start as int, n as int)),
        start + r <= n,
{
    let mut k = n;
    let ghost name = v@.subrange(start as int, n as int);
    while k > start && v[k - 1] != '.'
        invariant
            start <= k <= n <= v@.len(),
            last_dot(v@.subrange(start as int, k as int)) == last_dot(name),
        decreases k,
    {
        assert(v@.subrange(start as int, k as int).drop_last() =~= v@.subrange(start as int, k - 1));
        k = k - 1;
    }
    if k - start > 1 {
        assert(v@.subrange(start as int, k as int).last() == '.');
        k - 1 - start
    } else {
        if k - start == 1 {
            assert(v@.subrange(start as int, k as int).last() == '.');
        }
        n - start
    }
}

} // verus!

verus! {

/// The `rwx` letter for bit `bit` of `mode`, or `-`.
pub open spec fn permission_char(mode: u32, bit: u32, letter: char) -> char {
    if mode & bit != 0 { letter } else { '-' }
}

/// The nine `rwx` letters of a Unix permission mode, owner first.
pub open spec fn permissions_text(mode: u32) -> Seq<char> {
    seq![
        permission_char(mode, 0o400, 'r'), permission_char(mode, 0o200, 'w'), permission_char(mode, 0o100, 'x'),
        permission_char(mode, 0o040, 'r'), permission_char(mode, 0o020, 'w'), permission_char(mode, 0o010, 'x'),
        permission_char(mode, 0o004, 'r'), permission_char(mode, 0o002, 'w'), permission_char(mode, 0o001, 'x'),
    ]
}

fn push_permission(s: &mut String, mode: u32, bit: u32, letter: char)
    ensures
        final(s)@ == old(s)@.push(permission_char(mode, bit, letter)),
{
    push_char(s, if mode & bit != 0 { letter } else { '-' });
}

/// The permission bits of `mode` as `rwxrwxrwx`, with `-` for a missing
/// permission.
pub fn permissions_to_string(mode: u32) -> (r: String)
    ensures
        r@ == permissions_text(mode),
{
    let mut s = String::new();
    push_permission(&mut s, mode, 0o400, 'r');
    push_permission(&mut s, mode, 0o200, 'w');
    push_permission(&mut s, mode, 0o100, 'x');
    push_permission(&mut s, mode, 0o040, 'r');
    push_permission(&mut s, mode, 0o020, 'w');
    push_permission(&mut s, mode, 0o010, 'x');
    push_permission(&mut s, mode, 0o004, 'r');
    push_permission(&mut s, mode, 0o002, 'w');
    push_permission(&mut s, mode, 0o001, 'x');
    assert(s@ =~= permissions_text(mode));
    s
}

} // verus!
