//! The browser state and the transitions of its mode state machine.
//!
//! Every transition is a pure change of the state. Where the columns must
//! be listed again from disk, a transition records the cursor index to
//! rebuild at in `refresh`; the caller lists the directories, builds the
//! columns with `MillerColumns::build_columns` and hands them to
//! `reset_state`.
use vstd::prelude::*;
use crate::bookmarks::{bookmark_pairs, Config};
use crate::columns::{child_dir_of, opt_view, MillerColumns};
use crate::paths::{is_clean_dir, is_plain_name, lemma_join_split, parent_of, path_join};
use crate::entries::{count_matched_files, matched_count, DirEntry, FileEntry, FileVariant};
use crate::i18n::{message_of, Lang};
use crate::model::{Clipboard, HintBarMode, ModalKind, Mode, Notification, UnderLineModalAction};
use crate::positions::{
    get_position, lemma_first_index_distinct, names_distinct, parse_path_positions, position_in,
    update_dir_position, update_parent_position, with_parent_position, PositionsMap, NUM_COLUMNS,
};
use crate::utils::{dec, decimal_string};

verus! {

/// The whole browser state, owned by the mode state machine.
#[derive(Debug)]
pub struct State {
    pub current_dir: String,
    pub files: [Vec<FileEntry>; NUM_COLUMNS],
    pub dirs: [DirEntry; NUM_COLUMNS],
    pub positions_map: PositionsMap,
    pub mode: Mode,
    pub modal_type: ModalKind,
    /// The text of the edit line.
    pub input: String,
    pub config: Config,
    /// Set after an external program ran, so that the screen is repainted.
    pub from_external_app: bool,
    pub clipboard: Option<Clipboard>,
    pub notification: Option<Notification>,
    pub marked: Vec<FileEntry>,
    pub search_pattern: Option<String>,
    /// The cursor index at which the columns are to be rebuilt, if they are.
    pub refresh: Option<usize>,
    /// Whether entries whose names start with `.` are listed.
    pub show_hidden: bool,
    /// Set on entering a child directory: the next rebuild points the
    /// parent's cursor at the child's row in the parent listing read afresh.
    pub backfill_parent: bool,
}

/// An `Info` notification with the text `text`.
pub open spec fn is_info(n: Option<Notification>, text: Seq<char>) -> bool {
    n matches Some(Notification::Info { msg }) && msg@ == text
}

/// The notification a mode shows after the columns are rebuilt: a banner
/// for Insert, Visual and Bookmarks, the number of matches in Search, none
/// in Normal.
pub open spec fn mode_banner(mode: Mode, current: Seq<FileEntry>) -> Option<Seq<char>> {
    match mode {
        Mode::Insert => Some(message_of("insert_mode"@)),
        Mode::Visual { .. } => Some(message_of("visual_mode"@)),
        Mode::Bookmarks { .. } => Some(message_of("bookmarks_mode"@)),
        Mode::Search => Some("Matches: "@ + dec(matched_count(current))),
        Mode::Normal => None,
    }
}

/// The position store after a rebuild whose parent listing is
/// `parent_files`: unchanged, except right after entering a child
/// directory, when the parent's cursor is pointed at the child's row.
pub open spec fn rebuilt_positions(s: State, parent_files: Seq<FileEntry>) -> Map<Seq<char>, usize> {
    if s.backfill_parent {
        with_parent_position(s.positions_map@, s.current_dir@, parent_files)
    } else {
        s.positions_map@
    }
}

/// Whether some entry of `s` is named `n`.
pub open spec fn has_name(s: Seq<FileEntry>, n: Seq<char>) -> bool {
    exists|i: int| 0 <= i < s.len() && (#[trigger] s[i]).name@ == n
}

/// `s` without its entries named `n`.
pub open spec fn without_name(s: Seq<FileEntry>, n: Seq<char>) -> Seq<FileEntry>
    decreases s.len(),
{
    if s.len() == 0 {
        s
    } else {
        let r = without_name(s.drop_last(), n);
        if s.last().name@ == n { r } else { r.push(s.last()) }
    }
}

/// The marked set after toggling `f`: removed where an entry of its name is
/// marked, added otherwise.
pub open spec fn toggled(marked: Seq<FileEntry>, f: FileEntry) -> Seq<FileEntry> {
    if has_name(marked, f.name@) {
        without_name(marked, f.name@)
    } else {
        marked.push(f)
    }
}

/// The cursor index after moving down by `step` in a listing of `len`
/// entries: clamped to the last entry.
pub open spec fn down_index(pos: int, step: int, len: int) -> int {
    if pos + step < len - 1 { pos + step } else { len - 1 }
}

/// The cursor index after moving up by `step`: saturating at 0.
pub open spec fn up_index(pos: int, step: int) -> int {
    if pos >= step { pos - step } else { 0 }
}

impl FileEntry {
    /// A copy of the entry.
    pub fn clone_entry(&self) -> (r: FileEntry)
        ensures
            r == *self,
    {
        let variant = match &self.variant {
            FileVariant::Directory { entry_count, permissions, last_modified, is_matched } =>
                FileVariant::Directory {
                    entry_count: *entry_count,
                    permissions: clone_opt(permissions),
                    last_modified: clone_opt(last_modified),
                    is_matched: *is_matched,
                },
            FileVariant::File { size, permissions, last_modified, is_matched } =>
                FileVariant::File {
                    size: *size,
                    permissions: clone_opt(permissions),
                    last_modified: clone_opt(last_modified),
                    is_matched: *is_matched,
                },
        };
        FileEntry { name: self.name.clone(), variant }
    }
}

fn clone_opt(o: &Option<String>) -> (r: Option<String>)
    ensures
        r == *o,
{
    match o {
        Some(s) => Some(s.clone()),
        None => None,
    }
}

fn info(key: &str) -> (r: Option<Notification>)
    ensures
        is_info(r, message_of(key@)),
{
    Some(Notification::Info { msg: String::from_str(Lang::en(key)) })
}

/// The entry under the cursor of `dir`, if the cursor is on one.
pub fn get_current_file<'a>(positions: &PositionsMap, dir: &String, files: &'a [FileEntry]) -> (r: Option<&'a FileEntry>)
    requires
        positions.wf(),
    ensures
        (position_in(positions@, dir@) < files@.len()) == (r is Some),
        r is Some ==> *r->Some_0 == files@[position_in(positions@, dir@) as int],
{
    let position_id = get_position(positions, dir);
    if position_id < files.len() {
        Some(&files[position_id])
    } else {
        None
    }
}

/// `marked` without its entries named `name`.
fn remove_named(marked: &Vec<FileEntry>, name: &String) -> (r: Vec<FileEntry>)
    ensures
        r@ == without_name(marked@, name@),
{
    let mut out: Vec<FileEntry> = Vec::new();
    let mut i: usize = 0;
    assert(marked@.subrange(0, 0) =~= Seq::<FileEntry>::empty());
    while i < marked.len()
        invariant
            i <= marked@.len(),
            out@ == without_name(marked@.subrange(0, i as int), name@),
        decreases marked@.len() - i,
    {
        assert(marked@.subrange(0, i + 1).drop_last() =~= marked@.subrange(0, i as int));
        if !crate::text::str_eq(marked[i].name.as_str(), name.as_str()) {
            out.push(marked[i].clone_entry());
        }
        i = i + 1;
    }
    assert(marked@.subrange(0, marked@.len() as int) =~= marked@);
    out
}

fn contains_named(marked: &Vec<FileEntry>, name: &String) -> (r: bool)
    ensures
        r == has_name(marked@, name@),
{
    let mut i: usize = 0;
    while i < marked.len()
        invariant
            i <= marked@.len(),
            forall|j: int| 0 <= j < i ==> (#[trigger] marked@[j]).name@ != name@,
        decreases marked@.len() - i,
    {
        if crate::text::str_eq(marked[i].name.as_str(), name.as_str()) {
            return true;
        }
        i = i + 1;
    }
    false
}

impl State {
    pub open spec fn wf(&self) -> bool {
        self.positions_map.wf()
    }

    /// The cursor index in the current directory.
    pub open spec fn cursor(&self) -> usize {
        position_in(self.positions_map@, self.current_dir@)
    }

    /// The entry under the cursor, if any.
    pub open spec fn current_entry(&self) -> Option<FileEntry> {
        if self.cursor() < self.files[1]@.len() {
            Some(self.files[1]@[self.cursor() as int])
        } else {
            None
        }
    }

    /// The initial state in `current_dir`, whose columns are `columns`:
    /// Normal mode, no overlay, cursor at 0.
    pub fn new(current_dir: String, config: Config, columns: MillerColumns) -> (r: Self)
        ensures
            r.wf(),
            r.current_dir == current_dir,
            r.mode == Mode::Normal,
            r.modal_type == ModalKind::Disabled,
            r.positions_map@ == with_parent_position(
                Map::<Seq<char>, usize>::empty().insert(current_dir@, 0),
                current_dir@,
                columns.files[0]@,
            ),
            r.files == columns.files,
            r.dirs == columns.dirs,
            r.clipboard is None,
            r.notification is None,
            r.marked@.len() == 0,
            r.search_pattern is None,
            r.refresh is None,
            r.input@.len() == 0,
    {
        let positions_map = parse_path_positions(&current_dir, &columns.files);
        let MillerColumns { dirs, files } = columns;
        State {
            current_dir,
            files,
            dirs,
            positions_map,
            mode: Mode::Normal,
            modal_type: ModalKind::Disabled,
            input: String::new(),
            config,
            from_external_app: false,
            clipboard: None,
            notification: None,
            marked: Vec::new(),
            search_pattern: None,
            refresh: None,
            show_hidden: true,
            backfill_parent: false,
        }
    }

    fn set_columns(&mut self, columns: MillerColumns)
        requires
            old(self).wf(),
        ensures
            final(self).wf(),
            final(self).files == columns.files,
            final(self).dirs == columns.dirs,
            final(self).positions_map@ == rebuilt_positions(*old(self), columns.files[0]@),
            final(self).modal_type == ModalKind::Disabled,
            final(self).refresh is None,
            !final(self).backfill_parent,
            final(self).current_dir == old(self).current_dir,
            final(self).mode == old(self).mode,
            final(self).notification == old(self).notification,
            final(self).marked == old(self).marked,
            final(self).clipboard == old(self).clipboard,
            final(self).search_pattern == old(self).search_pattern,
            final(self).config == old(self).config,
    {
        self.hide_hint_bar();
        let MillerColumns { dirs, files } = columns;
        self.files = files;
        self.dirs = dirs;
        if self.backfill_parent {
            update_parent_position(&mut self.positions_map, &self.current_dir, &self.files);
            self.backfill_parent = false;
        }
        self.refresh = None;
    }

    /// Takes the rebuilt columns: closes any hint bar, remembers the
    /// parent's cursor on the current directory's row where a child
    /// directory was just entered (see `rebuilt_positions`), and shows the
    /// mode's banner (see `mode_banner`).
    pub fn reset_state(&mut self, columns: MillerColumns)
        requires
            old(self).wf(),
        ensures
            final(self).wf(),
            final(self).files == columns.files,
            final(self).dirs == columns.dirs,
            final(self).positions_map@ == rebuilt_positions(*old(self), columns.files[0]@),
            final(self).modal_type == ModalKind::Disabled,
            final(self).refresh is None,
            !final(self).backfill_parent,
            final(self).current_dir == old(self).current_dir,
            final(self).mode == old(self).mode,
            final(self).marked == old(self).marked,
            final(self).clipboard == old(self).clipboard,
            final(self).search_pattern == old(self).search_pattern,
            match mode_banner(old(self).mode, columns.files[1]@) {
                Some(t) => is_info(final(self).notification, t),
                None => final(self).notification is None,
            },
    {
        self.set_columns(columns);
        self.notification = match self.mode {
            Mode::Insert => info("insert_mode"),
            Mode::Visual { .. } => info("visual_mode"),
            Mode::Bookmarks { .. } => info("bookmarks_mode"),
            Mode::Search => {
                let n = count_matched_files(self.files[1].as_slice());
                let mut msg = String::from_str("Matches: ");
                let digits = decimal_string(n as u128);
                msg.append(digits.as_str());
                Some(Notification::Info { msg })
            },
            Mode::Normal => None,
        };
    }

    /// Takes the rebuilt columns as `reset_state` does, keeping the
    /// notification.
    pub fn reset_state_except_notifications(&mut self, columns: MillerColumns)
        requires
            old(self).wf(),
        ensures
            final(self).wf(),
            final(self).files == columns.files,
            final(self).dirs == columns.dirs,
            final(self).positions_map@ == rebuilt_positions(*old(self), columns.files[0]@),
            final(self).modal_type == ModalKind::Disabled,
            final(self).refresh is None,
            !final(self).backfill_parent,
            final(self).current_dir == old(self).current_dir,
            final(self).mode == old(self).mode,
            final(self).notification == old(self).notification,
    {
        self.set_columns(columns);
    }

    /// Opens a hint bar.
    pub fn open_hint_bar(&mut self, mode: HintBarMode)
        ensures
            final(self).modal_type == (ModalKind::HintBar { mode }),
            final(self).mode == old(self).mode,
            final(self).positions_map == old(self).positions_map,
            final(self).current_dir == old(self).current_dir,
    {
        self.modal_type = ModalKind::HintBar { mode };
    }

    /// Closes any overlay.
    pub fn hide_hint_bar(&mut self)
        ensures
            *final(self) == (State { modal_type: ModalKind::Disabled, ..*old(self) }),
    {
        self.modal_type = ModalKind::Disabled;
    }

    /// Back to Normal: no overlay, no notification, an empty edit line.
    pub fn enter_normal_mode(&mut self)
        ensures
            final(self).mode == Mode::Normal,
            final(self).modal_type == ModalKind::Disabled,
            final(self).notification is None,
            final(self).input@.len() == 0,
            final(self).positions_map == old(self).positions_map,
            final(self).current_dir == old(self).current_dir,
            final(self).files == old(self).files,
            final(self).marked == old(self).marked,
            final(self).clipboard == old(self).clipboard,
            final(self).search_pattern == old(self).search_pattern,
            final(self).refresh == old(self).refresh,
            final(self).config == old(self).config,
    {
        self.mode = Mode::Normal;
        self.modal_type = ModalKind::Disabled;
        self.notification = None;
        self.input = String::new();
    }

    /// Insert mode with its banner.
    pub fn enter_insert_mode(&mut self)
        ensures
            final(self).mode == Mode::Insert,
            is_info(final(self).notification, message_of("insert_mode"@)),
            final(self).modal_type == old(self).modal_type,
            final(self).positions_map == old(self).positions_map,
            final(self).current_dir == old(self).current_dir,
            final(self).files == old(self).files,
            final(self).refresh == old(self).refresh,
    {
        self.mode = Mode::Insert;
        self.notification = info("insert_mode");
    }

    /// Toggles the entry under the cursor in the marked set.
    pub fn mark_item(&mut self)
        requires
            old(self).wf(),
        ensures
            final(self).marked@ == match old(self).current_entry() {
                Some(f) => toggled(old(self).marked@, f),
                None => old(self).marked@,
            },
            *final(self) == (State { marked: final(self).marked, ..*old(self) }),
    {
        let current = get_current_file(&self.positions_map, &self.current_dir, self.files[1].as_slice());
        if let Some(file) = current {
            if contains_named(&self.marked, &file.name) {
                self.marked = remove_named(&self.marked, &file.name);
            } else {
                let f = file.clone_entry();
                self.marked.push(f);
            }
        }
    }

    /// Visual mode: the entry under the cursor is marked at once.
    pub fn enter_visual_mode(&mut self)
        requires
            old(self).wf(),
        ensures
            final(self).mode == (Mode::Visual { init: true }),
            is_info(final(self).notification, message_of("visual_mode"@)),
            final(self).marked@ == match old(self).current_entry() {
                Some(f) => toggled(old(self).marked@, f),
                None => old(self).marked@,
            },
            final(self).positions_map == old(self).positions_map,
            final(self).current_dir == old(self).current_dir,
            final(self).files == old(self).files,
    {
        self.mark_item();
        self.mode = Mode::Visual { init: true };
        self.notification = info("visual_mode");
    }

    /// Empties the marked set.
    pub fn clear_marks(&mut self)
        ensures
            final(self).marked@.len() == 0,
            *final(self) == (State { marked: final(self).marked, ..*old(self) }),
    {
        self.marked = Vec::new();
    }

    /// In Visual mode, before the cursor leaves its row: the first move only
    /// ends the initial state, each later move toggles the row left.
    fn visual_step(&mut self)
        requires
            old(self).wf(),
        ensures
            final(self).wf(),
            old(self).mode == (Mode::Visual { init: true }) ==> final(self).mode == (Mode::Visual { init: false }) && final(self).marked == old(self).marked,
            old(self).mode == (Mode::Visual { init: false }) ==> final(self).mode == old(self).mode && final(self).marked@ == match old(self).current_entry() {
                Some(f) => toggled(old(self).marked@, f),
                None => old(self).marked@,
            },
            !(old(self).mode is Visual) ==> final(self).mode == old(self).mode && final(self).marked == old(self).marked,
            *final(self) == (State { mode: final(self).mode, marked: final(self).marked, ..*old(self) }),
    {
        if let Mode::Visual { init } = self.mode {
            if init {
                self.mode = Mode::Visual { init: false };
            } else {
                self.mark_item();
            }
        }
    }

    /// Moves the cursor up by `step`, stopping at 0; does nothing at 0.
    pub fn navigate_up(&mut self, step: usize)
        requires
            old(self).wf(),
        ensures
            final(self).wf(),
            final(self).current_dir == old(self).current_dir,
            final(self).files == old(self).files,
            !(old(self).mode is Visual) ==> final(self).mode == old(self).mode && final(self).marked == old(self).marked,
            old(self).mode is Visual ==> final(self).mode is Visual,
            old(self).cursor() == 0 ==> *final(self) == *old(self),
            old(self).cursor() > 0 ==> {
                &&& final(self).cursor() == up_index(old(self).cursor() as int, step as int)
                &&& final(self).positions_map@ == old(self).positions_map@.insert(old(self).current_dir@, final(self).cursor())
                &&& final(self).refresh == Some(final(self).cursor())
                &&& *final(self) == (State {
                    positions_map: final(self).positions_map,
                    refresh: final(self).refresh,
                    mode: final(self).mode,
                    marked: final(self).marked,
                    ..*old(self)
                })
                &&& old(self).mode == (Mode::Visual { init: true }) ==> final(self).mode == (Mode::Visual { init: false }) && final(self).marked == old(self).marked
                &&& old(self).mode == (Mode::Visual { init: false }) ==> final(self).mode == old(self).mode && final(self).marked@ == match old(self).current_entry() {
                    Some(f) => toggled(old(self).marked@, f),
                    None => old(self).marked@,
                }
            },
    {
        let position_id = get_position(&self.positions_map, &self.current_dir);
        if position_id > 0 {
            let new_position_id = position_id.saturating_sub(step);
            self.visual_step();
            update_dir_position(&mut self.positions_map, &self.current_dir, new_position_id);
            self.refresh = Some(new_position_id);
        }
    }

    /// Moves the cursor down by `step`, stopping at the last entry; does
    /// nothing on an empty listing.
    pub fn navigate_down(&mut self, step: usize)
        requires
            old(self).wf(),
        ensures
            final(self).wf(),
            final(self).current_dir == old(self).current_dir,
            final(self).files == old(self).files,
            !(old(self).mode is Visual) ==> final(self).mode == old(self).mode && final(self).marked == old(self).marked,
            old(self).mode is Visual ==> final(self).mode is Visual,
            old(self).files[1]@.len() == 0 ==> *final(self) == *old(self),
            old(self).files[1]@.len() > 0 ==> {
                &&& final(self).cursor() == down_index(old(self).cursor() as int, step as int, old(self).files[1]@.len() as int)
                &&& final(self).positions_map@ == old(self).positions_map@.insert(old(self).current_dir@, final(self).cursor())
                &&& final(self).refresh == Some(final(self).cursor())
                &&& *final(self) == (State {
                    positions_map: final(self).positions_map,
                    refresh: final(self).refresh,
                    mode: final(self).mode,
                    marked: final(self).marked,
                    ..*old(self)
                })
                &&& old(self).mode == (Mode::Visual { init: true }) ==> final(self).mode == (Mode::Visual { init: false }) && final(self).marked == old(self).marked
                &&& old(self).mode == (Mode::Visual { init: false }) ==> final(self).mode == old(self).mode && final(self).marked@ == match old(self).current_entry() {
                    Some(f) => toggled(old(self).marked@, f),
                    None => old(self).marked@,
                }
            },
    {
        let position_id = get_position(&self.positions_map, &self.current_dir);
        if self.files[1].len() > 0 {
            let last_index = self.files[1].len() - 1;
            let target = position_id.saturating_add(step);
            let new_position_id = if target < last_index { target } else { last_index };
            self.visual_step();
            update_dir_position(&mut self.positions_map, &self.current_dir, new_position_id);
            self.refresh = Some(new_position_id);
        }
    }

    /// Toggles the entry under the cursor, then moves down one row.
    pub fn mark_and_down(&mut self)
        requires
            old(self).wf(),
        ensures
            final(self).wf(),
            old(self).mode is Visual ==> final(self).mode is Visual,
            !(old(self).mode is Visual) ==> final(self).mode == old(self).mode && final(self).marked@ == match old(self).current_entry() {
                Some(f) => toggled(old(self).marked@, f),
                None => old(self).marked@,
            },
            old(self).files[1]@.len() > 0 ==> final(self).cursor() == down_index(old(self).cursor() as int, 1, old(self).files[1]@.len() as int),
    {
        self.mark_item();
        self.navigate_down(1);
    }

    /// Enters the parent directory (the parent column's), at its
    /// remembered cursor.
    pub fn navigate_to_parent(&mut self)
        requires
            old(self).wf(),
        ensures
            final(self).wf(),
            final(self).positions_map == old(self).positions_map,
            match old(self).dirs[0].dir_name {
                Some(p) => *final(self) == (State {
                    current_dir: p,
                    refresh: Some(position_in(old(self).positions_map@, p@)),
                    ..*old(self)
                }),
                None => *final(self) == *old(self),
            },
    {
        if let Some(parent) = &self.dirs[0].dir_name {
            self.current_dir = parent.clone();
            let position_id = get_position(&self.positions_map, &self.current_dir);
            self.refresh = Some(position_id);
        }
    }

    /// Shows or hides the entries whose names start with `.`; the columns
    /// are rebuilt at the cursor.
    pub fn toggle_hidden_files(&mut self)
        requires
            old(self).wf(),
        ensures
            *final(self) == (State { show_hidden: !old(self).show_hidden, refresh: Some(old(self).cursor()), ..*old(self) }),
    {
        self.show_hidden = !self.show_hidden;
        let position_id = get_position(&self.positions_map, &self.current_dir);
        self.refresh = Some(position_id);
    }

    /// Enters the child directory (the child column's), at its remembered
    /// cursor.
    pub fn navigate_to_child(&mut self)
        requires
            old(self).wf(),
        ensures
            final(self).wf(),
            final(self).positions_map == old(self).positions_map,
            match old(self).dirs[2].dir_name {
                Some(c) => *final(self) == (State {
                    current_dir: c,
                    refresh: Some(position_in(old(self).positions_map@, c@)),
                    backfill_parent: true,
                    ..*old(self)
                }),
                None => *final(self) == *old(self),
            },
    {
        if let Some(child) = &self.dirs[2].dir_name {
            self.current_dir = child.clone();
            let position_id = get_position(&self.positions_map, &self.current_dir);
            self.refresh = Some(position_id);
            self.backfill_parent = true;
        }
    }
}

} // verus!

verus! {

/// Entering the directory under the cursor and going back up lands on the
/// row the cursor was on. The states are those the transitions produce:
/// `navigate_to_child` from `s0` (which marks the parent's cursor for
/// backfilling), then `reset_state` with the columns built for the child
/// (whose parent column lists the directory left, unchanged), then
/// `navigate_to_parent`.
pub proof fn lemma_child_parent_round_trip(s0: State, s1: State, cols: MillerColumns, s2: State, s3: State)
    requires
        s0.wf(),
        is_clean_dir(s0.current_dir@),
        names_distinct(s0.files[1]@),
        s0.current_entry() is Some,
        s0.current_entry()->Some_0.variant.is_directory(),
        is_plain_name(s0.current_entry()->Some_0.name@),
        opt_view(s0.dirs[2].dir_name) == child_dir_of(s0.current_dir@, s0.files[1]@, s0.cursor() as int),
        s1.positions_map == s0.positions_map,
        s0.dirs[2].dir_name is Some,
        s1.current_dir == s0.dirs[2].dir_name->Some_0,
        opt_view(cols.dirs[0].dir_name) == parent_of(s1.current_dir@),
        cols.files[0]@ == s0.files[1]@,
        s1.backfill_parent,
        s2.positions_map@ == rebuilt_positions(s1, cols.files[0]@),
        s2.dirs == cols.dirs,
        s3.positions_map == s2.positions_map,
        s2.dirs[0].dir_name is Some ==> s3.current_dir == s2.dirs[0].dir_name->Some_0,
    ensures
        s2.dirs[0].dir_name is Some,
        s3.current_dir@ == s0.current_dir@,
        s3.cursor() == s0.cursor(),
{
    let d = s0.current_dir@;
    let k = s0.cursor() as int;
    let n = s0.files[1]@[k].name@;
    lemma_join_split(d, n);
    lemma_first_index_distinct(s0.files[1]@, k);
    assert(s1.current_dir@ == path_join(d, n));
    assert(s2.positions_map@ == s0.positions_map@.insert(d, k as usize));
}

/// Moving down from a row at least `len - 1 - step` stops on the last row,
/// and moving down again from there stays on it.
pub proof fn lemma_down_clamps(pos: int, step: int, len: int)
    requires
        0 <= pos,
        0 <= step,
        len > 0,
        pos + step >= len - 1,
    ensures
        down_index(pos, step, len) == len - 1,
        down_index(down_index(pos, step, len), step, len) == down_index(pos, step, len),
{
}

} // verus!
