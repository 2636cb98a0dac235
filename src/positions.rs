//! The position store: the last cursor index shown in each directory.
use vstd::prelude::*;
use crate::entries::FileEntry;
use crate::paths::{file_name_of, file_name_path, parent_of, parent_path};
use crate::text::str_eq;

verus! {

/// Number of columns: parent, current, child.
pub const NUM_COLUMNS: usize = 3;

/// The index a directory starts at when nothing is recorded for it.
pub const ZERO_POSITION: usize = 0;

/// A map from directory path to the cursor index last shown there.
#[derive(Debug)]
pub struct PositionsMap {
    keys: Vec<String>,
    values: Vec<usize>,
}

/// The cursor index of `dir` in `m`: what is recorded, else 0.
pub open spec fn position_in(m: Map<Seq<char>, usize>, dir: Seq<char>) -> usize {
    if m.contains_key(dir) {
        m[dir]
    } else {
        0
    }
}

/// The index of the first entry named `n`, if any.
pub open spec fn first_index_named(files: Seq<FileEntry>, n: Seq<char>) -> Option<nat>
    decreases files.len(),
{
    if files.len() == 0 {
        None
    } else if files[0].name@ == n {
        Some(0)
    } else {
        match first_index_named(files.drop_first(), n) {
            Some(k) => Some(k + 1),
            None => None,
        }
    }
}

/// No two entries of the listing share a name.
pub open spec fn names_distinct(files: Seq<FileEntry>) -> bool {
    forall|i: int, j: int| 0 <= i < j < files.len() ==> files[i].name@ != files[j].name@
}

pub proof fn lemma_first_index_named(files: Seq<FileEntry>, n: Seq<char>, i: int)
    requires
        0 <= i <= files.len(),
        forall|j: int| 0 <= j < i ==> files[j].name@ != n,
    ensures
        i < files.len() && files[i].name@ == n ==> first_index_named(files, n) == Some(i as nat),
        i == files.len() ==> first_index_named(files, n) is None,
    decreases i,
{
    if i > 0 {
        let t = files.drop_first();
        assert forall|j: int| 0 <= j < i - 1 implies t[j].name@ != n by {
            assert(t[j] == files[j + 1]);
        }
        lemma_first_index_named(t, n, i - 1);
        assert(files[0].name@ != n);
        if i < files.len() {
            assert(t[i - 1] == files[i]);
        }
    } else if files.len() == 0 {
    }
}

/// In a listing with distinct names, the entry at `k` is the first of its name.
pub proof fn lemma_first_index_distinct(files: Seq<FileEntry>, k: int)
    requires
        names_distinct(files),
        0 <= k < files.len(),
    ensures
        first_index_named(files, files[k].name@) == Some(k as nat),
{
    lemma_first_index_named(files, files[k].name@, k);
}

impl View for PositionsMap {
    type V = Map<Seq<char>, usize>;

    closed spec fn view(&self) -> Map<Seq<char>, usize> {
        Map::new(
            |k: Seq<char>| exists|i: int| 0 <= i < self.keys@.len() && #[trigger] self.keys@[i]@ == k,
            |k: Seq<char>| self.values@[choose|i: int| 0 <= i < self.keys@.len() && #[trigger] self.keys@[i]@ == k],
        )
    }
}

impl PositionsMap {
    pub closed spec fn wf(&self) -> bool {
        &&& self.keys@.len() == self.values@.len()
        &&& forall|i: int, j: int|
            0 <= i < j < self.keys@.len() ==> #[trigger] self.keys@[i]@ != #[trigger] self.keys@[j]@
    }

    proof fn lemma_at(&self, i: int)
        requires
            self.wf(),
            0 <= i < self.keys@.len(),
        ensures
            self@.contains_key(self.keys@[i]@),
            self@[self.keys@[i]@] == self.values@[i],
    {
        let k = self.keys@[i]@;
        assert(self@.contains_key(k));
        let j = choose|j: int| 0 <= j < self.keys@.len() && #[trigger] self.keys@[j]@ == k;
        if j != i {
            if j < i {
                assert(self.keys@[j]@ != self.keys@[i]@);
            } else {
                assert(self.keys@[i]@ != self.keys@[j]@);
            }
        }
    }

    /// An empty store.
    pub fn new() -> (r: Self)
        ensures
            r.wf(),
            r@ == Map::<Seq<char>, usize>::empty(),
    {
        let r = PositionsMap { keys: Vec::new(), values: Vec::new() };
        assert(r@ =~= Map::<Seq<char>, usize>::empty());
        r
    }

    fn find(&self, dir: &str) -> (r: Option<usize>)
        requires
            self.wf(),
        ensures
            match r {
                Some(i) => i < self.keys@.len() && self.keys@[i as int]@ == dir@,
                None => !self@.contains_key(dir@),
            },
    {
        let mut i: usize = 0;
        while i < self.keys.len()
            invariant
                self.wf(),
                i <= self.keys@.len(),
                forall|j: int| 0 <= j < i ==> self.keys@[j]@ != dir@,
            decreases self.keys@.len() - i,
        {
            if str_eq(self.keys[i].as_str(), dir) {
                return Some(i);
            }
            i = i + 1;
        }
        None
    }

    /// The number of directories with a recorded index.
    pub fn len(&self) -> (r: usize)
        requires
            self.wf(),
        ensures
            r == self@.dom().len(),
    {
        proof {
            let ks = self.keys@.map_values(|k: String| k@);
            assert(ks.no_duplicates()) by {
                assert forall|i: int, j: int| 0 <= i < ks.len() && 0 <= j < ks.len() && i != j implies ks[i] != ks[j] by {
                    if i < j {
                        assert(self.keys@[i]@ != self.keys@[j]@);
                    } else {
                        assert(self.keys@[j]@ != self.keys@[i]@);
                    }
                }
            }
            ks.unique_seq_to_set();
            assert forall|k: Seq<char>| self@.dom().contains(k) <==> ks.to_set().contains(k) by {
                if self@.dom().contains(k) {
                    let i = choose|i: int| 0 <= i < self.keys@.len() && #[trigger] self.keys@[i]@ == k;
                    assert(ks[i] == k);
                }
                if ks.to_set().contains(k) {
                    let i = choose|i: int| 0 <= i < ks.len() && ks[i] == k;
                    assert(self.keys@[i]@ == k);
                }
            }
            assert(self@.dom() =~= ks.to_set());
        }
        self.keys.len()
    }

    /// The index recorded for `dir`.
    pub fn get(&self, dir: &str) -> (r: Option<usize>)
        requires
            self.wf(),
        ensures
            r == (if self@.contains_key(dir@) { Some(self@[dir@]) } else { None::<usize> }),
    {
        match self.find(dir) {
            Some(i) => {
                proof { self.lemma_at(i as int); }
                Some(self.values[i])
            },
            None => None,
        }
    }

    /// Records `value` for `dir`, replacing what was there.
    pub fn insert(&mut self, dir: String, value: usize)
        requires
            old(self).wf(),
        ensures
            final(self).wf(),
            final(self)@ == old(self)@.insert(dir@, value),
    {
        let ghost pre = *self;
        match self.find(dir.as_str()) {
            Some(i) => {
                self.values.set(i, value);
                proof {
                    assert(self.keys@ == pre.keys@);
                    assert forall|k: Seq<char>| #[trigger] self@.contains_key(k) == pre@.insert(dir@, value).contains_key(k) by {
                        if pre@.contains_key(k) {
                            let j = choose|j: int| 0 <= j < pre.keys@.len() && #[trigger] pre.keys@[j]@ == k;
                            assert(self.keys@[j]@ == k);
                        }
                        if k == dir@ {
                            assert(self.keys@[i as int]@ == k);
                        }
                    }
                    assert forall|k: Seq<char>| #[trigger] self@.contains_key(k) implies self@[k] == pre@.insert(dir@, value)[k] by {
                        let j = choose|j: int| 0 <= j < self.keys@.len() && #[trigger] self.keys@[j]@ == k;
                        self.lemma_at(j);
                        if j != i {
                            pre.lemma_at(j);
                        }
                    }
                    assert(self@ =~= pre@.insert(dir@, value));
                }
            },
            None => {
                self.keys.push(dir);
                self.values.push(value);
                proof {
                    let n = pre.keys@.len() as int;
                    assert forall|k: Seq<char>| #[trigger] self@.contains_key(k) == pre@.insert(dir@, value).contains_key(k) by {
                        if pre@.contains_key(k) {
                            let j = choose|j: int| 0 <= j < pre.keys@.len() && #[trigger] pre.keys@[j]@ == k;
                            assert(self.keys@[j]@ == k);
                        }
                        if k == dir@ {
                            assert(self.keys@[n]@ == k);
                        }
                        if self@.contains_key(k) {
                            let j = choose|j: int| 0 <= j < self.keys@.len() && #[trigger] self.keys@[j]@ == k;
                            if j < n {
                                assert(pre.keys@[j]@ == k);
                            }
                        }
                    }
                    assert forall|k: Seq<char>| #[trigger] self@.contains_key(k) implies self@[k] == pre@.insert(dir@, value)[k] by {
                        let j = choose|j: int| 0 <= j < self.keys@.len() && #[trigger] self.keys@[j]@ == k;
                        self.lemma_at(j);
                        if j < n {
                            assert(pre.keys@[j] == self.keys@[j]);
                            pre.lemma_at(j);
                        }
                    }
                    assert(self@ =~= pre@.insert(dir@, value));
                }
            },
        }
    }
}

/// The cursor index remembered for `dir`, 0 when none is.
pub fn get_position(positions: &PositionsMap, dir: &String) -> (r: usize)
    requires
        positions.wf(),
    ensures
        r == position_in(positions@, dir@),
{
    match positions.get(dir.as_str()) {
        Some(i) => i,
        None => ZERO_POSITION,
    }
}

/// Remembers `new_position_id` as the cursor index of `dir`.
pub fn update_dir_position(positions: &mut PositionsMap, dir: &String, new_position_id: usize)
    requires
        old(positions).wf(),
    ensures
        final(positions).wf(),
        final(positions)@ == old(positions)@.insert(dir@, new_position_id),
{
    positions.insert(dir.clone(), new_position_id);
}

/// What remembering the parent's cursor does to the store: where the
/// current directory has a name and a parent, and the parent listing holds
/// that name, the parent's cursor is the index of that name.
pub open spec fn with_parent_position(
    m: Map<Seq<char>, usize>,
    current_dir: Seq<char>,
    parent_files: Seq<FileEntry>,
) -> Map<Seq<char>, usize> {
    match (file_name_of(current_dir), parent_of(current_dir)) {
        (Some(n), Some(p)) => match first_index_named(parent_files, n) {
            Some(i) => m.insert(p, i as usize),
            None => m,
        },
        _ => m,
    }
}

/// The index of the first entry named `name`.
pub fn position_of_name(files: &Vec<FileEntry>, name: &str) -> (r: Option<usize>)
    ensures
        match r {
            Some(i) => first_index_named(files@, name@) == Some(i as nat),
            None => first_index_named(files@, name@) is None,
        },
{
    let mut i: usize = 0;
    while i < files.len()
        invariant
            i <= files@.len(),
            forall|j: int| 0 <= j < i ==> files@[j].name@ != name@,
        decreases files@.len() - i,
    {
        if str_eq(files[i].name.as_str(), name) {
            proof { lemma_first_index_named(files@, name@, i as int); }
            return Some(i);
        }
        i = i + 1;
    }
    proof { lemma_first_index_named(files@, name@, i as int); }
    None
}

/// Points the parent directory's cursor at the current directory's row in
/// the parent listing (`column_files[0]`), so that going up lands on it.
pub fn update_parent_position(
    positions: &mut PositionsMap,
    current_dir: &String,
    column_files: &[Vec<FileEntry>; NUM_COLUMNS],
)
    requires
        old(positions).wf(),
    ensures
        final(positions).wf(),
        final(positions)@ == with_parent_position(old(positions)@, current_dir@, column_files@[0]@),
{
    if let Some(name) = file_name_path(current_dir.as_str()) {
        if let Some(parent_position) = position_of_name(&column_files[0], name.as_str()) {
            if let Some(parent_dir) = parent_path(current_dir.as_str()) {
                positions.insert(parent_dir, parent_position);
            }
        }
    }
}

/// The store at start-up: the current directory at index 0, and its
/// parent's cursor on the current directory's row.
pub fn parse_path_positions(
    current_dir: &String,
    column_files: &[Vec<FileEntry>; NUM_COLUMNS],
) -> (r: PositionsMap)
    ensures
        r.wf(),
        r@ == with_parent_position(
            Map::<Seq<char>, usize>::empty().insert(current_dir@, ZERO_POSITION),
            current_dir@,
            column_files@[0]@,
        ),
{
    let mut positions = PositionsMap::new();
    positions.insert(current_dir.clone(), ZERO_POSITION);
    update_parent_position(&mut positions, current_dir, column_files);
    positions
}

} // verus!
