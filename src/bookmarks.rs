//! The configuration record and its bookmark table: aliases for paths, in
//! insertion order, kept in an `indexmap::IndexMap`.
use vstd::prelude::*;
use indexmap::IndexMap;

verus! {

#[verifier::external_type_specification]
#[verifier::external_body]
#[verifier::reject_recursive_types(K)]
#[verifier::reject_recursive_types(V)]
#[verifier::reject_recursive_types(S)]
pub struct ExIndexMap<K, V, S>(IndexMap<K, V, S>);

/// The (alias, path) pairs a bookmark table holds, in its order.
pub uninterp spec fn bookmark_pairs(m: IndexMap<String, String>) -> Seq<(Seq<char>, Seq<char>)>;

/// The index of the pair with alias `k`, or -1.
pub open spec fn alias_index(s: Seq<(Seq<char>, Seq<char>)>, k: Seq<char>) -> int
    decreases s.len(),
{
    if s.len() == 0 {
        -1
    } else if s.last().0 == k {
        s.len() - 1
    } else {
        alias_index(s.drop_last(), k)
    }
}

/// The table after `IndexMap::insert`: an existing alias keeps its place
/// and takes the new path; a new one goes last.
pub open spec fn inserted(s: Seq<(Seq<char>, Seq<char>)>, k: Seq<char>, v: Seq<char>) -> Seq<(Seq<char>, Seq<char>)> {
    let i = alias_index(s, k);
    if i >= 0 {
        s.update(i, (k, v))
    } else {
        s.push((k, v))
    }
}

/// Relies on `IndexMap::new`: a map with no pairs.
#[verifier::external_body]
pub(crate) fn new_table() -> (r: IndexMap<String, String>)
    ensures
        bookmark_pairs(r) == Seq::<(Seq<char>, Seq<char>)>::empty(),
{
    IndexMap::new()
}

/// Relies on `IndexMap::len`: the number of pairs.
#[verifier::external_body]
pub(crate) fn table_len(m: &IndexMap<String, String>) -> (r: usize)
    ensures
        r == bookmark_pairs(*m).len(),
{
    m.len()
}

/// Relies on `IndexMap::get_index`: the pair at index `i`, if `i` is below
/// the length.
#[verifier::external_body]
pub(crate) fn table_get(m: &IndexMap<String, String>, i: usize) -> (r: Option<(String, String)>)
    ensures
        i < bookmark_pairs(*m).len() ==> r is Some && (r->Some_0.0@, r->Some_0.1@) == bookmark_pairs(*m)[i as int],
        i >= bookmark_pairs(*m).len() ==> r is None,
{
    m.get_index(i).map(|(k, v)| (k.clone(), v.clone()))
}

/// Relies on `IndexMap::insert`: see `inserted`.
#[verifier::external_body]
pub(crate) fn table_insert(m: &mut IndexMap<String, String>, k: String, v: String)
    ensures
        bookmark_pairs(*final(m)) == inserted(bookmark_pairs(*old(m)), k@, v@),
{
    m.insert(k, v);
}

/// Relies on `IndexMap::shift_remove_index`: removes the pair at `i`, the
/// following pairs keeping their order; an index past the end changes
/// nothing.
#[verifier::external_body]
pub(crate) fn table_remove(m: &mut IndexMap<String, String>, i: usize)
    ensures
        i < bookmark_pairs(*old(m)).len() ==> bookmark_pairs(*final(m)) == bookmark_pairs(*old(m)).remove(i as int),
        i >= bookmark_pairs(*old(m)).len() ==> bookmark_pairs(*final(m)) == bookmark_pairs(*old(m)),
{
    m.shift_remove_index(i);
}

/// Settings shared by every part of the browser.
#[derive(Debug, Clone)]
pub struct CommonConfig {
    pub editor: String,
}

/// The configuration: the editor command and the bookmark table.
#[derive(Debug)]
pub struct Config {
    pub common: CommonConfig,
    pub bookmarks: IndexMap<String, String>,
}

impl Default for Config {
    /// The editor `nvim` and no bookmarks.
    fn default() -> (r: Config)
        ensures
            r.common.editor@ == "nvim"@,
            bookmark_pairs(r.bookmarks).len() == 0,
    {
        Config::new_default()
    }
}

impl Config {
    /// The editor `nvim` and no bookmarks.
    pub fn new_default() -> (r: Config)
        ensures
            r.common.editor@ == "nvim"@,
            bookmark_pairs(r.bookmarks).len() == 0,
    {
        Config { common: CommonConfig { editor: String::from_str("nvim") }, bookmarks: new_table() }
    }

    /// Adds (or re-points) a bookmark.
    pub fn add_bookmark(&mut self, alias: String, path: String)
        ensures
            final(self).common == old(self).common,
            bookmark_pairs(final(self).bookmarks) == inserted(bookmark_pairs(old(self).bookmarks), alias@, path@),
    {
        table_insert(&mut self.bookmarks, alias, path);
    }

    /// The number of bookmarks.
    pub fn bookmark_count(&self) -> (r: usize)
        ensures
            r == bookmark_pairs(self.bookmarks).len(),
    {
        table_len(&self.bookmarks)
    }

    /// The bookmark at `index`: its alias and path.
    pub fn bookmark_at(&self, index: usize) -> (r: Option<(String, String)>)
        ensures
            index < bookmark_pairs(self.bookmarks).len() ==> r is Some && (r->Some_0.0@, r->Some_0.1@) == bookmark_pairs(self.bookmarks)[index as int],
            index >= bookmark_pairs(self.bookmarks).len() ==> r is None,
    {
        table_get(&self.bookmarks, index)
    }
}

} // verus!
