//! The entries of a column listing.
use vstd::prelude::*;

verus! {

/// What kind of entry a listing row is, with the metadata gathered for it.
/// Metadata is only gathered for the column shown with details.
#[derive(Debug, Clone, PartialEq)]
pub enum FileVariant {
    Directory {
        entry_count: Option<u64>,
        permissions: Option<String>,
        last_modified: Option<String>,
        is_matched: bool,
    },
    File {
        size: Option<u64>,
        permissions: Option<String>,
        last_modified: Option<String>,
        is_matched: bool,
    },
}

impl FileVariant {
    pub open spec fn spec_is_directory(&self) -> bool {
        self is Directory
    }

    pub open spec fn spec_is_matched(&self) -> bool {
        match self {
            FileVariant::Directory { is_matched, .. } => *is_matched,
            FileVariant::File { is_matched, .. } => *is_matched,
        }
    }

    /// Whether the entry is a directory.
    #[verifier::when_used_as_spec(spec_is_directory)]
    pub fn is_directory(&self) -> (r: bool)
        ensures
            r == self.spec_is_directory(),
    {
        matches!(self, FileVariant::Directory { .. })
    }

    /// Whether the entry matches the active search pattern.
    #[verifier::when_used_as_spec(spec_is_matched)]
    pub fn is_matched(&self) -> (r: bool)
        ensures
            r == self.spec_is_matched(),
    {
        match self {
            FileVariant::Directory { is_matched, .. } => *is_matched,
            FileVariant::File { is_matched, .. } => *is_matched,
        }
    }
}

/// One row of a listing: a name and its variant.
#[derive(Debug, Clone, PartialEq)]
pub struct FileEntry {
    pub name: String,
    pub variant: FileVariant,
}

/// The directory a column shows; `dir_name` is `None` for an empty column.
#[derive(Debug, Clone, PartialEq)]
pub struct DirEntry {
    pub dir_name: Option<String>,
    pub with_meta: bool,
}

impl DirEntry {
    /// The column that shows no directory.
    pub fn empty_dir() -> (r: Self)
        ensures
            r.dir_name is None,
            !r.with_meta,
    {
        DirEntry { dir_name: None, with_meta: false }
    }
}

/// How many entries of a listing are flagged by the search.
pub open spec fn matched_count(files: Seq<FileEntry>) -> nat
    decreases files.len(),
{
    if files.len() == 0 {
        0
    } else {
        matched_count(files.drop_last()) + if files.last().variant.is_matched() { 1nat } else { 0nat }
    }
}

pub proof fn lemma_matched_count_bound(files: Seq<FileEntry>)
    ensures
        matched_count(files) <= files.len(),
    decreases files.len(),
{
    if files.len() > 0 {
        lemma_matched_count_bound(files.drop_last());
    }
}

/// The number of entries flagged as matching the search.
pub fn count_matched_files(files: &[FileEntry]) -> (r: usize)
    ensures
        r == matched_count(files@),
{
    let mut n: usize = 0;
    let mut i: usize = 0;
    while i < files.len()
        invariant
            i <= files@.len(),
            n == matched_count(files@.subrange(0, i as int)),
        decreases files@.len() - i,
    {
        proof {
            let s = files@.subrange(0, i + 1);
            assert(s.drop_last() =~= files@.subrange(0, i as int));
            lemma_matched_count_bound(files@.subrange(0, i as int));
        }
        if files[i].variant.is_matched() {
            n = n + 1;
        }
        i = i + 1;
    }
    assert(files@.subrange(0, files@.len() as int) =~= files@);
    n
}

} // verus!
