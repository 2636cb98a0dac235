//! The search engine: entering and leaving Search mode, and the circular
//! scan for the next or previous flagged entry.
use vstd::prelude::*;
use crate::entries::FileEntry;
use crate::i18n::{formatted, Lang};
use crate::model::{ModalKind, Mode, Notification};
use crate::positions::{get_position, update_dir_position};
use crate::state::State;
use crate::text::{lower_of, lowercase, str_eq};

verus! {

/// The index `k` steps from `c` in a listing of `len` entries, going round
/// the end (forwards) or the start (backwards); for `0 <= c < len` and
/// `1 <= k <= len`.
pub open spec fn step_index(c: int, k: int, len: int, forward: bool) -> int {
    if forward {
        if c + k < len { c + k } else { c + k - len }
    } else {
        if k <= c { c - k } else { c + len - k }
    }
}

/// The first flagged entry met `k`, `k + 1`, ... `len` steps from `c`.
pub open spec fn scan_from(files: Seq<FileEntry>, c: int, k: int, forward: bool) -> Option<int>
    decreases files.len() + 1 - k,
{
    if k < 1 || k > files.len() {
        None
    } else if files[step_index(c, k, files.len() as int, forward)].variant.is_matched() {
        Some(step_index(c, k, files.len() as int, forward))
    } else {
        scan_from(files, c, k + 1, forward)
    }
}

/// The flagged entry that the next (or previous) match moves to from the
/// cursor `cursor`: the first met going round the listing from the row after
/// (before) it; the cursor's own row comes last.
pub open spec fn next_match_index(files: Seq<FileEntry>, cursor: int, forward: bool) -> Option<int> {
    if files.len() == 0 {
        None
    } else {
        scan_from(files, cursor % (files.len() as int), 1, forward)
    }
}

proof fn lemma_scan_reaches(files: Seq<FileEntry>, c: int, k: int, t: int, forward: bool)
    requires
        1 <= k <= t <= files.len(),
        files[step_index(c, t, files.len() as int, forward)].variant.is_matched(),
        forall|j: int| k <= j < t ==> !files[#[trigger] step_index(c, j, files.len() as int, forward)].variant.is_matched(),
    ensures
        scan_from(files, c, k, forward) == Some(step_index(c, t, files.len() as int, forward)),
    decreases t - k,
{
    if k < t {
        lemma_scan_reaches(files, c, k + 1, t, forward);
    }
}

proof fn lemma_scan_none(files: Seq<FileEntry>, c: int, k: int, forward: bool)
    requires
        1 <= k,
        forall|j: int| k <= j <= files.len() ==> !files[#[trigger] step_index(c, j, files.len() as int, forward)].variant.is_matched(),
    ensures
        scan_from(files, c, k, forward) is None,
    decreases files.len() + 1 - k,
{
    if k <= files.len() {
        lemma_scan_none(files, c, k + 1, forward);
    }
}

/// Searching forwards from the last flagged entry wraps round to the first
/// flagged entry.
pub proof fn lemma_next_match_wraps(files: Seq<FileEntry>, last: int, first: int)
    requires
        0 <= first <= last < files.len(),
        files[first].variant.is_matched(),
        files[last].variant.is_matched(),
        forall|i: int| 0 <= i < first ==> !(#[trigger] files[i]).variant.is_matched(),
        forall|i: int| last < i < files.len() ==> !(#[trigger] files[i]).variant.is_matched(),
    ensures
        next_match_index(files, last, true) == Some(first),
{
    let len = files.len() as int;
    assert(last % len == last) by (nonlinear_arith)
        requires 0 <= last < len;
    let t = len - last + first;
    assert(step_index(last, t, len, true) == first);
    assert forall|j: int| 1 <= j < t implies !files[#[trigger] step_index(last, j, len, true)].variant.is_matched() by {
        if last + j < len {
            assert(last < step_index(last, j, len, true));
        } else {
            assert(step_index(last, j, len, true) < first);
        }
    }
    lemma_scan_reaches(files, last, 1, t, true);
}

/// Where no entry is flagged there is no next or previous match.
pub proof fn lemma_next_match_none(files: Seq<FileEntry>, cursor: int, forward: bool)
    requires
        cursor >= 0,
        forall|i: int| 0 <= i < files.len() ==> !(#[trigger] files[i]).variant.is_matched(),
    ensures
        next_match_index(files, cursor, forward) is None,
{
    if files.len() > 0 {
        let len = files.len() as int;
        let c = cursor % len;
        assert(0 <= c < len) by (nonlinear_arith)
            requires len > 0, c == cursor % len;
        assert forall|j: int| 1 <= j <= len implies !files[#[trigger] step_index(c, j, len, forward)].variant.is_matched() by {
            assert(0 <= step_index(c, j, len, forward) < len);
        }
        lemma_scan_none(files, c, 1, forward);
    }
}

fn find_match(files: &Vec<FileEntry>, cursor: usize, forward: bool) -> (r: Option<usize>)
    ensures
        match r {
            Some(i) => next_match_index(files@, cursor as int, forward) == Some(i as int),
            None => next_match_index(files@, cursor as int, forward) is None,
        },
{
    let len = files.len();
    if len == 0 {
        return None;
    }
    let c = cursor % len;
    let mut k: usize = 1;
    while k <= len
        invariant
            1 <= k <= len + 1,
            len == files@.len(),
            c < len,
            c as int == cursor as int % len as int,
            scan_from(files@, c as int, 1, forward) == scan_from(files@, c as int, k as int, forward),
        decreases len + 1 - k,
    {
        let idx = if forward {
            if k < len - c { c + k } else { k - (len - c) }
        } else {
            if k <= c { c - k } else { len - (k - c) }
        };
        assert(idx as int == step_index(c as int, k as int, len as int, forward));
        if files[idx].variant.is_matched() {
            return Some(idx);
        }
        if k == len {
            assert(scan_from(files@, c as int, k + 1, forward) is None);
            return None;
        }
        k = k + 1;
    }
    None
}

impl State {
    /// Opens the search line: Insert mode with the bottom line.
    pub fn search(&mut self)
        ensures
            *final(self) == (State { mode: Mode::Insert, modal_type: ModalKind::BottomLine, ..*old(self) }),
    {
        self.mode = Mode::Insert;
        self.modal_type = ModalKind::BottomLine;
    }

    /// Commits the search line: the lower-cased text becomes the pattern,
    /// the edit line is emptied and Search mode begins; the columns are
    /// rebuilt at the cursor to flag the matches.
    pub fn commit_search(&mut self)
        requires
            old(self).wf(),
        ensures
            final(self).wf(),
            final(self).search_pattern matches Some(p) && p@ == lower_of(old(self).input@),
            final(self).input@.len() == 0,
            final(self).mode == Mode::Search,
            final(self).refresh == Some(old(self).cursor()),
            final(self).positions_map == old(self).positions_map,
            final(self).current_dir == old(self).current_dir,
            final(self).files == old(self).files,
    {
        let query = lowercase(self.input.as_str());
        self.search_pattern = Some(query);
        let position_id = get_position(&self.positions_map, &self.current_dir);
        self.input = String::new();
        self.mode = Mode::Search;
        self.refresh = Some(position_id);
    }

    /// Moves the cursor to the next flagged entry (`"prev"`: the previous
    /// one), going round the listing; where there is none, says so and
    /// leaves the cursor. Without a pattern nothing happens.
    pub fn next_match(&mut self, direction: &str)
        requires
            old(self).wf(),
        ensures
            final(self).wf(),
            final(self).current_dir == old(self).current_dir,
            final(self).files == old(self).files,
            final(self).mode == old(self).mode,
            final(self).search_pattern == old(self).search_pattern,
            match old(self).search_pattern {
                None => *final(self) == *old(self),
                Some(p) => match next_match_index(old(self).files[1]@, old(self).cursor() as int, direction@ != "prev"@) {
                    Some(i) => {
                        &&& final(self).positions_map@ == old(self).positions_map@.insert(old(self).current_dir@, i as usize)
                        &&& final(self).refresh == Some(i as usize)
                        &&& final(self).notification == old(self).notification
                    },
                    None => {
                        &&& final(self).positions_map == old(self).positions_map
                        &&& final(self).refresh == old(self).refresh
                        &&& final(self).notification matches Some(Notification::Info { msg })
                        &&& msg@ == formatted("no_matches"@, seq![p@])
                    },
                },
            },
    {
        if let Some(pattern) = &self.search_pattern {
            let current_position = get_position(&self.positions_map, &self.current_dir);
            let forward = !str_eq(direction, "prev");
            match find_match(&self.files[1], current_position, forward) {
                Some(new_position) => {
                    update_dir_position(&mut self.positions_map, &self.current_dir, new_position);
                    self.refresh = Some(new_position);
                },
                None => {
                    let args = vec![pattern.clone()];
                    assert(args@.map_values(|a: String| a@) =~= seq![pattern@]);
                    let msg = Lang::en_fmt("no_matches", &args);
                    self.notification = Some(Notification::Info { msg });
                },
            }
        }
    }

    /// Leaves Search mode: no pattern, Normal mode, columns rebuilt at the
    /// cursor without flags.
    pub fn exit_search_mode(&mut self)
        requires
            old(self).wf(),
        ensures
            final(self).wf(),
            final(self).mode == Mode::Normal,
            final(self).search_pattern is None,
            final(self).refresh == Some(old(self).cursor()),
            final(self).positions_map == old(self).positions_map,
            final(self).current_dir == old(self).current_dir,
    {
        self.mode = Mode::Normal;
        self.search_pattern = None;
        let position_id = get_position(&self.positions_map, &self.current_dir);
        self.refresh = Some(position_id);
    }
}

} // verus!
