//! Character-sequence helpers shared by the rest of the library.
use vstd::prelude::*;
use vstd::std_specs::iter::IteratorSpec;
use vstd::string::StrSliceExecFns;

verus! {

/// What `str::to_lowercase` makes of a character sequence.
pub uninterp spec fn lower_of(s: Seq<char>) -> Seq<char>;

/// Relies on `str::to_lowercase`: the result depends on the characters alone,
/// and an empty string stays empty.
#[verifier::external_body]
pub(crate) fn lowercase(s: &str) -> (r: String)
    ensures
        r@ == lower_of(s@),
        s@.len() == 0 ==> r@.len() == 0,
{
    s.to_lowercase()
}

/// Relies on `String::push`: appends one character.
#[verifier::external_body]
pub(crate) fn push_char(s: &mut String, c: char)
    ensures
        final(s)@ == old(s)@.push(c),
{
    s.push(c)
}

/// Relies on `<str as PartialEq>::eq`: two strings are equal when their
/// characters are.
#[verifier::external_body]
pub(crate) fn str_eq(a: &str, b: &str) -> (r: bool)
    ensures
        r == (a@ == b@),
{
    a == b
}

/// The characters of the string, in order.
pub(crate) fn chars_of(s: &str) -> (r: Vec<char>)
    ensures
        r@ == s@,
{
    broadcast use vstd::string::group_string_axioms;
    let n = s.unicode_len();
    let mut it = s.chars();
    let mut r: Vec<char> = Vec::new();
    while r.len() < n
        invariant
            n == s@.len(),
            r@ + IteratorSpec::remaining(&it) == s@,
        decreases n - r@.len(),
    {
        let ghost before = IteratorSpec::remaining(&it);
        if let Some(c) = it.next() {
            r.push(c);
            assert(r@ + IteratorSpec::remaining(&it) =~= s@) by {
                assert(before =~= seq![c] + before.drop_first());
            }
        } else {
            assert(false);
        }
    }
    assert(r@ =~= s@);
    r
}

/// `a` is a prefix of `b`.
pub open spec fn is_prefix(a: Seq<char>, b: Seq<char>) -> bool {
    a.len() <= b.len() && b.subrange(0, a.len() as int) == a
}

/// Lexicographic order on character sequences (code point by code point),
/// the order in which `str`'s `cmp` places strings.
pub open spec fn seq_le(a: Seq<char>, b: Seq<char>) -> bool
    decreases a.len(),
{
    if a.len() == 0 {
        true
    } else if b.len() == 0 {
        false
    } else if a[0] != b[0] {
        a[0] < b[0]
    } else {
        seq_le(a.drop_first(), b.drop_first())
    }
}

pub proof fn lemma_seq_le_total(a: Seq<char>, b: Seq<char>)
    ensures
        seq_le(a, b) || seq_le(b, a),
    decreases a.len(),
{
    if a.len() > 0 && b.len() > 0 && a[0] == b[0] {
        lemma_seq_le_total(a.drop_first(), b.drop_first());
    }
}

pub proof fn lemma_seq_le_trans(a: Seq<char>, b: Seq<char>, c: Seq<char>)
    requires
        seq_le(a, b),
        seq_le(b, c),
    ensures
        seq_le(a, c),
    decreases a.len(),
{
    if a.len() > 0 && b.len() > 0 && c.len() > 0 && a[0] == b[0] && b[0] == c[0] {
        lemma_seq_le_trans(a.drop_first(), b.drop_first(), c.drop_first());
    }
}

/// Lexicographic comparison of two character vectors: `r == seq_le(a@, b@)`.
pub fn chars_le(a: &Vec<char>, b: &Vec<char>) -> (r: bool)
    ensures
        r == seq_le(a@, b@),
{
    let mut i: usize = 0;
    assert(a@.subrange(0, a@.len() as int) =~= a@);
    assert(b@.subrange(0, b@.len() as int) =~= b@);
    while i < a.len() && i < b.len() && a[i] == b[i]
        invariant
            i <= a@.len(),
            i <= b@.len(),
            seq_le(a@, b@) == seq_le(a@.subrange(i as int, a@.len() as int), b@.subrange(i as int, b@.len() as int)),
        decreases a@.len() - i,
    {
        assert(a@.subrange(i as int, a@.len() as int).drop_first() =~= a@.subrange(i + 1, a@.len() as int));
        assert(b@.subrange(i as int, b@.len() as int).drop_first() =~= b@.subrange(i + 1, b@.len() as int));
        i = i + 1;
    }
    if i == a.len() {
        true
    } else if i == b.len() {
        false
    } else {
        a[i] < b[i]
    }
}

/// Whether `a` is a prefix of `b`.
pub fn chars_starts_with(b: &Vec<char>, a: &Vec<char>) -> (r: bool)
    ensures
        r == is_prefix(a@, b@),
{
    if a.len() > b.len() {
        return false;
    }
    let mut i: usize = 0;
    while i < a.len()
        invariant
            a@.len() <= b@.len(),
            i <= a@.len(),
            forall|k: int| 0 <= k < i ==> a@[k] == b@[k],
        decreases a@.len() - i,
    {
        if a[i] != b[i] {
            assert(b@.subrange(0, a@.len() as int)[i as int] != a@[i as int]);
            return false;
        }
        i = i + 1;
    }
    assert(b@.subrange(0, a@.len() as int) =~= a@);
    true
}

} // verus!
