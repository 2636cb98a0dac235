//! The column builder: sorting and search-flagging of directory listings,
//! and the three columns (parent, current, child) around a cursor.
use vstd::prelude::*;
use vstd::multiset::Multiset;
use vstd::seq_lib::{to_multiset_build, to_multiset_insert};
use crate::entries::{DirEntry, FileEntry, FileVariant};
use crate::paths::{join_path, parent_of, parent_path, path_join};
use crate::positions::NUM_COLUMNS;
use crate::text::{chars_le, chars_of, chars_starts_with, is_prefix, lemma_seq_le_total, lemma_seq_le_trans, lower_of, lowercase, seq_le};

verus! {

/// The listing order on (is-directory, lower-cased name) keys: directories
/// first, then by lower-cased name.
pub open spec fn key_order(ad: bool, ak: Seq<char>, bd: bool, bk: Seq<char>) -> bool {
    (ad && !bd) || (ad == bd && seq_le(ak, bk))
}

/// `a` may stand before `b` in a listing.
pub open spec fn entry_le(a: FileEntry, b: FileEntry) -> bool {
    key_order(a.variant.is_directory(), lower_of(a.name@), b.variant.is_directory(), lower_of(b.name@))
}

/// Directories precede files, and names within each group are
/// non-decreasing once lower-cased.
pub open spec fn is_sorted_listing(s: Seq<FileEntry>) -> bool {
    forall|i: int, j: int| 0 <= i < j < s.len() ==> entry_le(#[trigger] s[i], #[trigger] s[j])
}

/// Whether a name is flagged by a search pattern: its lower-cased form
/// starts with the lower-cased pattern.
pub open spec fn name_matches(name: Seq<char>, pattern: Option<Seq<char>>) -> bool {
    match pattern {
        Some(p) => is_prefix(lower_of(p), lower_of(name)),
        None => false,
    }
}

/// The entry with its search flag set to `m`.
pub open spec fn with_match(e: FileEntry, m: bool) -> FileEntry {
    FileEntry {
        name: e.name,
        variant: match e.variant {
            FileVariant::Directory { entry_count, permissions, last_modified, .. } =>
                FileVariant::Directory { entry_count, permissions, last_modified, is_matched: m },
            FileVariant::File { size, permissions, last_modified, .. } =>
                FileVariant::File { size, permissions, last_modified, is_matched: m },
        },
    }
}

/// The entry flagged for `pattern`.
pub open spec fn flagged(e: FileEntry, pattern: Option<Seq<char>>) -> FileEntry {
    with_match(e, name_matches(e.name@, pattern))
}

/// The entries flagged for `pattern`, in their given order.
pub open spec fn flag_all(s: Seq<FileEntry>, pattern: Option<Seq<char>>) -> Seq<FileEntry> {
    s.map_values(|e: FileEntry| flagged(e, pattern))
}

/// `r` is the listing of `entries` under `pattern`: the same entries,
/// flagged, in listing order.
pub open spec fn is_listing_of(r: Seq<FileEntry>, entries: Seq<FileEntry>, pattern: Option<Seq<char>>) -> bool {
    &&& is_sorted_listing(r)
    &&& r.to_multiset() == flag_all(entries, pattern).to_multiset()
}

pub open spec fn opt_view(o: Option<String>) -> Option<Seq<char>> {
    match o {
        Some(s) => Some(s@),
        None => None,
    }
}

proof fn lemma_key_total(ad: bool, ak: Seq<char>, bd: bool, bk: Seq<char>)
    ensures
        key_order(ad, ak, bd, bk) || key_order(bd, bk, ad, ak),
{
    lemma_seq_le_total(ak, bk);
}

proof fn lemma_key_trans(ad: bool, ak: Seq<char>, bd: bool, bk: Seq<char>, cd: bool, ck: Seq<char>)
    requires
        key_order(ad, ak, bd, bk),
        key_order(bd, bk, cd, ck),
    ensures
        key_order(ad, ak, cd, ck),
{
    if ad == bd && bd == cd {
        lemma_seq_le_trans(ak, bk, ck);
    }
}

fn key_le(ad: bool, ak: &Vec<char>, bd: bool, bk: &Vec<char>) -> (r: bool)
    ensures
        r == key_order(ad, ak@, bd, bk@),
{
    if ad && !bd {
        true
    } else if ad == bd {
        chars_le(ak, bk)
    } else {
        false
    }
}

/// Sets the search flag of an entry.
fn set_match(e: FileEntry, m: bool) -> (r: FileEntry)
    ensures
        r == with_match(e, m),
{
    let FileEntry { name, variant } = e;
    let variant = match variant {
        FileVariant::Directory { entry_count, permissions, last_modified, .. } =>
            FileVariant::Directory { entry_count, permissions, last_modified, is_matched: m },
        FileVariant::File { size, permissions, last_modified, .. } =>
            FileVariant::File { size, permissions, last_modified, is_matched: m },
    };
    FileEntry { name, variant }
}

/// Flags each entry for the search pattern and sorts them: directories
/// first, then by lower-cased name (entries with equal keys keep their
/// order).
pub fn parse_dir_files(entries: Vec<FileEntry>, search_pattern: &Option<String>) -> (r: Vec<FileEntry>)
    ensures
        is_listing_of(r@, entries@, opt_view(*search_pattern)),
{
    let ghost pat = opt_view(*search_pattern);
    let ghost orig = entries@;
    let lower_pattern: Option<Vec<char>> = match search_pattern {
        Some(p) => Some(chars_of(lowercase(p.as_str()).as_str())),
        None => None,
    };
    let mut rest = entries;
    let mut sorted: Vec<FileEntry> = Vec::new();
    let mut keys: Vec<Vec<char>> = Vec::new();
    assert(rest@.subrange(0, rest@.len() as int) =~= orig);
    proof {
        broadcast use vstd::multiset::group_multiset_axioms;
        assert forall|a: FileEntry| sorted@.to_multiset().count(a) == 0 by {
            vstd::seq_lib::to_multiset_contains(sorted@, a);
        }
        assert(sorted@.to_multiset() =~= Multiset::<FileEntry>::empty());
        assert(Multiset::<FileEntry>::empty().add(flag_all(orig, pat).to_multiset()) =~= flag_all(orig, pat).to_multiset());
    }
    while rest.len() > 0
        invariant
            orig.subrange(0, rest@.len() as int) == rest@,
            rest@.len() <= orig.len(),
            keys@.len() == sorted@.len(),
            forall|k: int| 0 <= k < keys@.len() ==> (#[trigger] keys@[k])@ == lower_of(sorted@[k].name@),
            is_sorted_listing(sorted@),
            sorted@.to_multiset().add(flag_all(rest@, pat).to_multiset())
                == flag_all(orig, pat).to_multiset(),
            match lower_pattern {
                Some(lp) => pat is Some && lp@ == lower_of(pat->Some_0),
                None => pat is None,
            },
        decreases rest@.len(),
    {
        let ghost rest0 = rest@;
        let e = rest.pop().unwrap();
        let key = chars_of(lowercase(e.name.as_str()).as_str());
        let m = match &lower_pattern {
            Some(lp) => chars_starts_with(&key, lp),
            None => false,
        };
        let e = set_match(e, m);
        assert(e == flagged(rest0.last(), pat));
        let is_dir = e.variant.is_directory();
        let mut p: usize = 0;
        while p < sorted.len() && !key_le(is_dir, &key, sorted[p].variant.is_directory(), &keys[p])
            invariant
                p <= sorted@.len(),
                keys@.len() == sorted@.len(),
                forall|k: int| 0 <= k < keys@.len() ==> (#[trigger] keys@[k])@ == lower_of(sorted@[k].name@),
                forall|k: int| 0 <= k < p ==> !entry_le(e, #[trigger] sorted@[k]),
                key@ == lower_of(e.name@),
                is_dir == e.variant.is_directory(),
            decreases sorted@.len() - p,
        {
            assert(keys@[p as int]@ == lower_of(sorted@[p as int].name@));
            p = p + 1;
        }
        let ghost old_sorted = sorted@;
        proof {
            if p < old_sorted.len() {
                assert(keys@[p as int]@ == lower_of(sorted@[p as int].name@));
            }
            assert forall|j: int| p <= j < old_sorted.len() implies entry_le(e, #[trigger] old_sorted[j]) by {
                if j > p {
                    let a = old_sorted[p as int];
                    let b = old_sorted[j];
                    lemma_key_trans(
                        e.variant.is_directory(), lower_of(e.name@),
                        a.variant.is_directory(), lower_of(a.name@),
                        b.variant.is_directory(), lower_of(b.name@),
                    );
                }
            }
            assert forall|j: int| 0 <= j < p implies entry_le(#[trigger] old_sorted[j], e) by {
                let a = old_sorted[j];
                lemma_key_total(a.variant.is_directory(), lower_of(a.name@), e.variant.is_directory(), lower_of(e.name@));
            }
        }
        sorted.insert(p, e);
        keys.insert(p, key);
        proof {
            let ns = sorted@;
            assert(ns == old_sorted.insert(p as int, e));
            assert forall|i: int, j: int| 0 <= i < j < ns.len() implies entry_le(#[trigger] ns[i], #[trigger] ns[j]) by {
                if j < p {
                    assert(ns[i] == old_sorted[i] && ns[j] == old_sorted[j]);
                } else if j == p {
                    assert(ns[i] == old_sorted[i]);
                } else if i == p {
                    assert(ns[j] == old_sorted[j - 1]);
                } else if i < p {
                    assert(ns[i] == old_sorted[i] && ns[j] == old_sorted[j - 1]);
                } else {
                    assert(ns[i] == old_sorted[i - 1] && ns[j] == old_sorted[j - 1]);
                }
            }
            assert forall|k: int| 0 <= k < keys@.len() implies (#[trigger] keys@[k])@ == lower_of(sorted@[k].name@) by {
                if k < p {
                } else if k == p {
                } else {
                    assert(keys@[k] == keys@.remove(p as int)[k - 1]);
                }
            }
            to_multiset_insert(old_sorted, p as int, e);
            assert(rest0 == rest@.push(rest0.last()));
            assert(flag_all(rest0, pat) =~= flag_all(rest@, pat).push(e));
            to_multiset_build(flag_all(rest@, pat), e);
            assert(sorted@.to_multiset().add(flag_all(rest@, pat).to_multiset())
                =~= old_sorted.to_multiset().add(flag_all(rest0, pat).to_multiset()));
            assert(orig.subrange(0, rest@.len() as int) =~= rest0.subrange(0, rest@.len() as int));
        }
    }
    proof {
        assert(flag_all(rest@, pat) =~= Seq::<FileEntry>::empty());
        assert(sorted@.to_multiset().add(flag_all(rest@, pat).to_multiset()) =~= sorted@.to_multiset());
    }
    sorted
}

/// The three columns: parent (0), current (1) and child (2).
#[derive(Debug)]
pub struct MillerColumns {
    pub dirs: [DirEntry; NUM_COLUMNS],
    pub files: [Vec<FileEntry>; NUM_COLUMNS],
}

/// The child column's directory for a cursor on a listing: the entry at
/// the cursor when it is a directory.
pub open spec fn child_dir_of(current_dir: Seq<char>, listing: Seq<FileEntry>, position_id: int) -> Option<Seq<char>> {
    if 0 <= position_id < listing.len() && listing[position_id].variant.is_directory() {
        Some(path_join(current_dir, listing[position_id].name@))
    } else {
        None
    }
}

impl MillerColumns {
    /// Builds the parent and current columns from their directories'
    /// entries (`parent_entries` is ignored where the current directory has
    /// no parent), and names the child column's directory: the entry at
    /// `position_id` when it is a directory. The child column's entries are
    /// added with `set_child_files`.
    pub fn build_columns(
        current_dir: &String,
        position_id: usize,
        search_pattern: Option<String>,
        parent_entries: Vec<FileEntry>,
        current_entries: Vec<FileEntry>,
    ) -> (r: Self)
        ensures
            opt_view(r.dirs[1].dir_name) == Some(current_dir@),
            r.dirs[1].with_meta,
            opt_view(r.dirs[0].dir_name) == parent_of(current_dir@),
            !r.dirs[0].with_meta,
            is_listing_of(r.files[1]@, current_entries@, opt_view(search_pattern)),
            parent_of(current_dir@) is Some ==> is_listing_of(r.files[0]@, parent_entries@, opt_view(search_pattern)),
            parent_of(current_dir@) is None ==> r.files[0]@.len() == 0,
            opt_view(r.dirs[2].dir_name) == child_dir_of(current_dir@, r.files[1]@, position_id as int),
            r.dirs[2].with_meta == (r.dirs[2].dir_name is Some),
            r.files[2]@.len() == 0,
    {
        let selected_dir_entry = DirEntry { dir_name: Some(current_dir.clone()), with_meta: true };
        let selected_dir_files = parse_dir_files(current_entries, &search_pattern);
        let parent_dir = parent_path(current_dir.as_str());
        let parent_dir_files = if parent_dir.is_some() {
            parse_dir_files(parent_entries, &search_pattern)
        } else {
            Vec::new()
        };
        let parent_dir_entry = DirEntry { dir_name: parent_dir, with_meta: false };
        let child_dir_entry = if position_id < selected_dir_files.len()
            && selected_dir_files[position_id].variant.is_directory() {
            DirEntry {
                dir_name: Some(join_path(current_dir.as_str(), selected_dir_files[position_id].name.as_str())),
                with_meta: true,
            }
        } else {
            DirEntry::empty_dir()
        };
        MillerColumns {
            dirs: [parent_dir_entry, selected_dir_entry, child_dir_entry],
            files: [parent_dir_files, selected_dir_files, Vec::new()],
        }
    }

    /// Fills the child column from its directory's entries; where there is
    /// no child directory the column stays empty.
    pub fn set_child_files(&mut self, child_entries: Vec<FileEntry>, search_pattern: &Option<String>)
        ensures
            final(self).dirs == old(self).dirs,
            final(self).files[0] == old(self).files[0],
            final(self).files[1] == old(self).files[1],
            old(self).dirs[2].dir_name is Some ==> is_listing_of(final(self).files[2]@, child_entries@, opt_view(*search_pattern)),
            old(self).dirs[2].dir_name is None ==> final(self).files[2]@.len() == 0,
    {
        if self.dirs[2].dir_name.is_some() {
            self.files[2] = parse_dir_files(child_entries, search_pattern);
        } else {
            self.files[2] = Vec::new();
        }
    }

    /// Whether the current column has at least one entry.
    pub fn check_is_current_dir_is_not_empty(files: &[FileEntry]) -> (r: bool)
        ensures
            r == (files@.len() > 0),
    {
        files.len() > 0
    }
}

/// The three listings for `current_dir` with the cursor on the first
/// entry and no search; the child listing is left empty.
pub fn build_miller_columns(
    current_dir: &String,
    parent_entries: Vec<FileEntry>,
    current_entries: Vec<FileEntry>,
) -> (r: [Vec<FileEntry>; NUM_COLUMNS])
    ensures
        is_listing_of(r[1]@, current_entries@, None),
        parent_of(current_dir@) is Some ==> is_listing_of(r[0]@, parent_entries@, None),
        parent_of(current_dir@) is None ==> r[0]@.len() == 0,
        r[2]@.len() == 0,
{
    let columns = MillerColumns::build_columns(current_dir, 0, None, parent_entries, current_entries);
    columns.files
}


} // verus!
