//! The file operations engine: which entries an operation targets, the
//! edit line's create/rename requests, clipboard staging, paste planning
//! with collision-free names, and the reports of batch operations.
//!
//! The file system itself is left to the caller: it performs the requests
//! and copies, and hands back what succeeded and the reasons of what failed.
use vstd::prelude::*;
use crate::entries::FileEntry;
use crate::i18n::{formatted, message_of, Lang};
use crate::model::{Clipboard, ClipboardAction, ExternalCommand, FileRequest, ModalKind, Mode, Notification, UnderLineModalAction};
use crate::paths::{build_full_path, file_name_of, file_name_path, join_path, path_join};
use crate::positions::{get_position, update_dir_position};
use crate::state::{get_current_file, is_info, State};
use crate::text::{chars_of, str_eq};
use crate::utils::{dec, decimal_string, is_first_free, uniquify_path, views};

verus! {

/// The error kinds of the browser's operations.
#[derive(Debug, Clone, PartialEq)]
pub enum BrowserError {
    /// A file system operation failed.
    Io { msg: String },
    /// No addressable file or bookmark target.
    NotFound { msg: String },
    /// A source vanished or a path is malformed.
    InvalidInput { msg: String },
}

/// The severity of a batch report: success when nothing failed, an error
/// when nothing succeeded, a warning otherwise.
pub open spec fn batch_notification(n: Option<Notification>, succeeded: nat, failed: nat, text: Seq<char>) -> bool {
    if failed == 0 {
        n matches Some(Notification::Success { msg }) && msg@ == text
    } else if succeeded == 0 {
        n matches Some(Notification::Error { msg }) && msg@ == text
    } else {
        n matches Some(Notification::Warn { msg }) && msg@ == text
    }
}

/// The texts joined with `, `.
pub open spec fn joined(s: Seq<Seq<char>>) -> Seq<char>
    decreases s.len(),
{
    if s.len() == 0 {
        Seq::empty()
    } else if s.len() == 1 {
        s[0]
    } else {
        joined(s.drop_last()) + ", "@ + s.last()
    }
}

/// The paths whose copy succeeded.
pub open spec fn succeeded_items(items: Seq<Seq<char>>, ok: Seq<bool>) -> Seq<Seq<char>>
    decreases items.len(),
{
    if items.len() == 0 || ok.len() == 0 {
        Seq::empty()
    } else {
        let r = succeeded_items(items.drop_last(), ok.drop_last());
        if ok.last() { r.push(items.last()) } else { r }
    }
}

/// The destinations chosen so far.
pub open spec fn chosen(s: Seq<Option<String>>) -> Seq<Seq<char>>
    decreases s.len(),
{
    if s.len() == 0 {
        Seq::empty()
    } else {
        let r = chosen(s.drop_last());
        match s.last() {
            Some(d) => r.push(d@),
            None => r,
        }
    }
}

/// `dests` are the paste destinations of `items` in `dir` next to the
/// existing paths `taken`: for each item with a final name, the first free
/// candidate for that name in `dir`, counting the destinations chosen for
/// the earlier items as taken; `None` for an item without a final name.
pub open spec fn is_paste_plan(dests: Seq<Option<String>>, items: Seq<Seq<char>>, dir: Seq<char>, taken: Seq<Seq<char>>) -> bool {
    &&& dests.len() == items.len()
    &&& forall|i: int| 0 <= i < items.len() ==> {
        &&& ((#[trigger] dests[i]) is Some) == (file_name_of(items[i]) is Some)
        &&& dests[i] is Some ==> is_first_free(
            dests[i]->Some_0@,
            path_join(dir, file_name_of(items[i])->Some_0),
            taken + chosen(dests.subrange(0, i)),
        )
    }
}

fn join_texts(s: &Vec<String>) -> (r: String)
    ensures
        r@ == joined(views(s@)),
{
    let mut r = String::new();
    let mut i: usize = 0;
    while i < s.len()
        invariant
            i <= s@.len(),
            r@ == joined(views(s@).subrange(0, i as int)),
        decreases s@.len() - i,
    {
        let ghost prev = views(s@).subrange(0, i as int);
        assert(views(s@).subrange(0, i + 1).drop_last() =~= prev);
        if i > 0 {
            r.append(", ");
        } else {
            assert(r@ =~= Seq::<char>::empty());
        }
        r.append(s[i].as_str());
        i = i + 1;
    }
    assert(views(s@).subrange(0, s@.len() as int) =~= views(s@));
    r
}

fn fmt1(key: &str, a: String) -> (r: String)
    ensures
        r@ == formatted(key@, seq![a@]),
{
    let args = vec![a];
    assert(args@.map_values(|x: String| x@) =~= seq![args@[0]@]);
    Lang::en_fmt(key, &args)
}

fn fmt3(key: &str, a: String, b: String, c: String) -> (r: String)
    ensures
        r@ == formatted(key@, seq![a@, b@, c@]),
{
    let args = vec![a, b, c];
    assert(args@.map_values(|x: String| x@) =~= seq![args@[0]@, args@[1]@, args@[2]@]);
    Lang::en_fmt(key, &args)
}

/// Stages an existing path for the clipboard: the path itself, or
/// `NotFound` when it does not exist.
pub fn copy_file_path(file_path: String, exists: bool) -> (r: Result<String, BrowserError>)
    ensures
        exists ==> (r matches Ok(p) && p == file_path),
        !exists ==> (r matches Err(BrowserError::NotFound { msg }) && msg@ == message_of("items_not_found"@)),
{
    if exists {
        Ok(file_path)
    } else {
        Err(BrowserError::NotFound { msg: String::from_str(Lang::en("items_not_found")) })
    }
}

impl State {
    /// The full paths of the marked entries, or of the entry under the
    /// cursor when nothing is marked.
    pub open spec fn targets(&self) -> Seq<Seq<char>> {
        if self.marked@.len() > 0 {
            self.marked@.map_values(|f: FileEntry| path_join(self.current_dir@, f.name@))
        } else {
            match self.current_entry() {
                Some(f) => seq![path_join(self.current_dir@, f.name@)],
                None => Seq::empty(),
            }
        }
    }

    /// The paths an operation works on (see `targets`).
    pub fn operation_targets(&self) -> (r: Vec<String>)
        requires
            self.wf(),
        ensures
            views(r@) == self.targets(),
    {
        let mut r: Vec<String> = Vec::new();
        if self.marked.len() > 0 {
            let mut i: usize = 0;
            while i < self.marked.len()
                invariant
                    i <= self.marked@.len(),
                    self.marked@.len() > 0,
                    views(r@) =~= self.marked@.subrange(0, i as int).map_values(|f: FileEntry| path_join(self.current_dir@, f.name@)),
                decreases self.marked@.len() - i,
            {
                let ghost r0 = r@;
                r.push(build_full_path(&self.current_dir, &self.marked[i]));
                assert(self.marked@.subrange(0, i + 1) =~= self.marked@.subrange(0, i as int).push(self.marked@[i as int]));
                assert(views(r@) =~= views(r0).push(r@[i as int]@));
                i = i + 1;
            }
            assert(self.marked@.subrange(0, i as int) =~= self.marked@);
        } else {
            if let Some(file) = get_current_file(&self.positions_map, &self.current_dir, self.files[1].as_slice()) {
                r.push(build_full_path(&self.current_dir, file));
            }
            assert(views(r@) =~= self.targets());
        }
        r
    }

    /// The edit line for a new entry.
    pub fn add_file(&mut self)
        ensures
            final(self).mode == Mode::Insert,
            final(self).modal_type == (ModalKind::UnderLine { action: UnderLineModalAction::Add }),
            is_info(final(self).notification, message_of("insert_mode"@)),
            final(self).positions_map == old(self).positions_map,
            final(self).current_dir == old(self).current_dir,
            final(self).files == old(self).files,
    {
        self.enter_insert_mode();
        self.modal_type = ModalKind::UnderLine { action: UnderLineModalAction::Add };
    }

    /// The edit line for renaming the entry under the cursor; nothing
    /// happens in an empty directory.
    pub fn rename_file(&mut self)
        ensures
            old(self).files[1]@.len() == 0 ==> *final(self) == *old(self),
            old(self).files[1]@.len() > 0 ==> {
                &&& final(self).mode == Mode::Insert
                &&& final(self).modal_type == (ModalKind::UnderLine { action: UnderLineModalAction::Edit })
                &&& is_info(final(self).notification, message_of("insert_mode"@))
            },
            final(self).positions_map == old(self).positions_map,
            final(self).current_dir == old(self).current_dir,
            final(self).files == old(self).files,
    {
        if crate::columns::MillerColumns::check_is_current_dir_is_not_empty(self.files[1].as_slice()) {
            self.enter_insert_mode();
            self.modal_type = ModalKind::UnderLine { action: UnderLineModalAction::Edit };
        }
    }

    /// Commits the edit line. Add: asks to create the typed path in the
    /// current directory (a directory when it ends with `/`). Edit: asks to
    /// rename the entry under the cursor to the typed name; with no entry
    /// there, reports an error and stays in Insert mode. Bookmarks: adds the
    /// bookmark, returns to Normal and asks to save the configuration.
    /// Without an edit line: back to Normal. A create or rename is then
    /// finished with `finish_commit`.
    pub fn commit_changes(&mut self) -> (r: Option<FileRequest>)
        requires
            old(self).wf(),
        ensures
            final(self).wf(),
            final(self).current_dir == old(self).current_dir,
            final(self).files == old(self).files,
            final(self).positions_map == old(self).positions_map,
            match old(self).modal_type {
                ModalKind::UnderLine { action: UnderLineModalAction::Add } => {
                    &&& r matches Some(FileRequest::Create { path, is_dir })
                    &&& path@ == path_join(old(self).current_dir@, old(self).input@)
                    &&& is_dir == (old(self).input@.len() > 0 && old(self).input@.last() == '/')
                    &&& final(self).mode == old(self).mode
                    &&& final(self).modal_type == old(self).modal_type
                },
                ModalKind::UnderLine { action: UnderLineModalAction::Edit } => match old(self).current_entry() {
                    Some(f) => {
                        &&& r matches Some(FileRequest::Rename { from, to })
                        &&& from@ == path_join(old(self).current_dir@, f.name@)
                        &&& to@ == path_join(old(self).current_dir@, old(self).input@)
                        &&& final(self).mode == old(self).mode
                        &&& final(self).modal_type == old(self).modal_type
                    },
                    None => {
                        &&& r is None
                        &&& final(self).mode == old(self).mode
                        &&& final(self).modal_type == old(self).modal_type
                        &&& final(self).notification matches Some(Notification::Error { msg })
                        &&& msg@ == "Failed to update file: "@ + old(self).current_dir@
                    },
                },
                ModalKind::UnderLine { action: UnderLineModalAction::Bookmarks } => {
                    &&& final(self).mode == Mode::Normal
                    &&& final(self).modal_type == ModalKind::Disabled
                    &&& final(self).input@.len() == 0
                    &&& match old(self).current_entry() {
                        Some(f) => {
                            &&& r == Some(FileRequest::SaveConfig)
                            &&& crate::bookmarks::bookmark_pairs(final(self).config.bookmarks) == crate::bookmarks::inserted(
                                crate::bookmarks::bookmark_pairs(old(self).config.bookmarks),
                                old(self).input@,
                                path_join(old(self).current_dir@, f.name@),
                            )
                            &&& is_info(final(self).notification, message_of("bookmark_added"@))
                        },
                        None => r is None && final(self).config == old(self).config,
                    }
                },
                _ => {
                    &&& r is None
                    &&& final(self).mode == Mode::Normal
                    &&& final(self).modal_type == ModalKind::Disabled
                },
            },
    {
        match self.modal_type {
            ModalKind::UnderLine { action: UnderLineModalAction::Add } => {
                let v = chars_of(self.input.as_str());
                let is_dir = v.len() > 0 && v[v.len() - 1] == '/';
                let path = join_path(self.current_dir.as_str(), self.input.as_str());
                Some(FileRequest::Create { path, is_dir })
            },
            ModalKind::UnderLine { action: UnderLineModalAction::Edit } => {
                match get_current_file(&self.positions_map, &self.current_dir, self.files[1].as_slice()) {
                    Some(file) => {
                        let from = build_full_path(&self.current_dir, file);
                        let to = join_path(self.current_dir.as_str(), self.input.as_str());
                        Some(FileRequest::Rename { from, to })
                    },
                    None => {
                        let mut msg = String::from_str("Failed to update file: ");
                        msg.append(self.current_dir.as_str());
                        self.notification = Some(Notification::Error { msg });
                        None
                    },
                }
            },
            ModalKind::UnderLine { action: UnderLineModalAction::Bookmarks } => {
                let alias = self.input.clone();
                self.enter_normal_mode();
                if self.commit_new_bookmark(alias) {
                    Some(FileRequest::SaveConfig)
                } else {
                    None
                }
            },
            _ => {
                self.enter_normal_mode();
                None
            },
        }
    }

    /// Finishes a create or rename: on success (`error` is `None`) back to
    /// Normal with the columns to be rebuilt at the cursor; on failure the
    /// error is shown and the edit line stays open for another try.
    pub fn finish_commit(&mut self, error: Option<String>)
        requires
            old(self).wf(),
        ensures
            final(self).wf(),
            final(self).current_dir == old(self).current_dir,
            final(self).positions_map == old(self).positions_map,
            match error {
                None => {
                    &&& final(self).mode == Mode::Normal
                    &&& final(self).modal_type == ModalKind::Disabled
                    &&& final(self).input@.len() == 0
                    &&& final(self).refresh == Some(old(self).cursor())
                },
                Some(e) => {
                    &&& final(self).mode == old(self).mode
                    &&& final(self).modal_type == old(self).modal_type
                    &&& final(self).input == old(self).input
                    &&& final(self).notification == Some(Notification::Error { msg: e })
                },
            },
    {
        match error {
            None => {
                self.enter_normal_mode();
                let position_id = get_position(&self.positions_map, &self.current_dir);
                self.refresh = Some(position_id);
            },
            Some(msg) => {
                self.notification = Some(Notification::Error { msg });
            },
        }
    }

    /// Stages the targets (see `targets`) in the clipboard with `action`,
    /// where all of them exist (`exists[i]` for the i-th target); otherwise,
    /// or with no target, reports `Files not found.` and keeps the
    /// clipboard. Closes a hint bar.
    pub fn copy_files(&mut self, action: ClipboardAction, exists: &Vec<bool>)
        requires
            old(self).wf(),
            exists@.len() == old(self).targets().len(),
        ensures
            final(self).wf(),
            final(self).current_dir == old(self).current_dir,
            final(self).positions_map == old(self).positions_map,
            final(self).files == old(self).files,
            final(self).marked == old(self).marked,
            final(self).mode == old(self).mode,
            old(self).modal_type is HintBar ==> final(self).modal_type == ModalKind::Disabled,
            !(old(self).modal_type is HintBar) ==> final(self).modal_type == old(self).modal_type,
            if old(self).targets().len() > 0 && forall|i: int| 0 <= i < exists@.len() ==> #[trigger] exists@[i] {
                &&& final(self).clipboard matches Some(Clipboard::File { items, action: a })
                &&& views(items@) == old(self).targets()
                &&& a == action
                &&& final(self).notification matches Some(Notification::Success { msg })
                &&& msg@ == formatted("in_buffer"@, seq![dec(old(self).targets().len())])
            } else {
                &&& final(self).clipboard == old(self).clipboard
                &&& final(self).notification matches Some(Notification::Error { msg })
                &&& msg@ == message_of("items_not_found"@)
            },
    {
        let targets = self.operation_targets();
        let mut items: Vec<String> = Vec::new();
        let mut failed = targets.len() == 0;
        let mut i: usize = 0;
        while i < targets.len()
            invariant
                i <= targets@.len(),
                targets@.len() == exists@.len(),
                !failed ==> views(items@) =~= views(targets@).subrange(0, i as int),
                !failed ==> forall|j: int| 0 <= j < i ==> #[trigger] exists@[j],
                targets@.len() == 0 ==> failed,
                failed ==> targets@.len() == 0 || exists|j: int| 0 <= j < exists@.len() && !#[trigger] exists@[j],
            decreases targets@.len() - i,
        {
            match copy_file_path(targets[i].clone(), exists[i]) {
                Ok(p) => {
                    items.push(p);
                },
                Err(_) => {
                    failed = true;
                },
            }
            i = i + 1;
        }
        assert(views(targets@).len() == targets@.len());
        if !failed {
            assert(views(targets@).subrange(0, i as int) =~= views(targets@));
            assert(items@.len() == views(items@).len());
            assert(items@.len() == self.targets().len());
            let n = items.len();
            let msg = fmt1("in_buffer", decimal_string(n as u128));
            self.notification = Some(Notification::Success { msg });
            self.clipboard = Some(Clipboard::File { items, action });
        } else {
            assert(!(self.targets().len() > 0 && forall|i: int| 0 <= i < exists@.len() ==> #[trigger] exists@[i]));
            self.notification = Some(Notification::Error { msg: String::from_str(Lang::en("items_not_found")) });
        }
        if self.modal_type.is_hint_bar() {
            self.hide_hint_bar();
        }
    }

    /// Starts a paste: the destinations of the clipboard's items in the
    /// current directory, next to the paths in `taken` (see
    /// `is_paste_plan`). With an empty clipboard, reports `Buffer is empty.`
    /// and plans nothing.
    pub fn paste_files(&mut self, taken: &Vec<String>) -> (r: Vec<Option<String>>)
        requires
            old(self).wf(),
            taken@.len() + match old(self).clipboard {
                Some(Clipboard::File { items, .. }) => items@.len(),
                None => 0,
            } < u64::MAX,
        ensures
            final(self).wf(),
            match old(self).clipboard {
                Some(Clipboard::File { items, .. }) => {
                    &&& is_paste_plan(r@, views(items@), old(self).current_dir@, views(taken@))
                    &&& *final(self) == *old(self)
                },
                None => {
                    &&& r@.len() == 0
                    &&& final(self).notification matches Some(Notification::Warn { msg })
                    &&& msg@ == message_of("buffer_empty"@)
                    &&& *final(self) == (State { notification: final(self).notification, ..*old(self) })
                },
            },
    {
        match &self.clipboard {
            Some(Clipboard::File { items, .. }) => {
                let mut dests: Vec<Option<String>> = Vec::new();
                let mut seen: Vec<String> = taken.clone();
                let mut i: usize = 0;
                while i < items.len()
                    invariant
                        i <= items@.len(),
                        dests@.len() == i,
                        views(seen@) == views(taken@) + chosen(dests@),
                        seen@.len() <= taken@.len() + i,
                        taken@.len() + items@.len() < u64::MAX,
                        forall|j: int| 0 <= j < i ==> {
                            &&& ((#[trigger] dests@[j]) is Some) == (file_name_of(views(items@)[j]) is Some)
                            &&& dests@[j] is Some ==> is_first_free(
                                dests@[j]->Some_0@,
                                path_join(self.current_dir@, file_name_of(views(items@)[j])->Some_0),
                                views(taken@) + chosen(dests@.subrange(0, j)),
                            )
                        },
                    decreases items@.len() - i,
                {
                    let ghost before = dests@;
                    assert(views(items@)[i as int] == items@[i as int]@);
                    match file_name_path(items[i].as_str()) {
                        Some(name) => {
                            let target = join_path(self.current_dir.as_str(), name.as_str());
                            let d = uniquify_path(&target, &seen);
                            let ghost dv = d@;
                            let ghost seen0 = seen@;
                            seen.push(d.clone());
                            dests.push(Some(d));
                            assert(dests@.drop_last() == before);
                            assert(dests@.last() is Some && dests@.last()->Some_0@ == dv);
                            assert(chosen(dests@) == chosen(before).push(dv));
                            assert(views(seen@) =~= views(seen0).push(dv));
                            assert(views(seen@) =~= views(taken@) + chosen(dests@));
                        },
                        None => {
                            dests.push(None);
                            assert(dests@.drop_last() == before);
                            assert(chosen(dests@) == chosen(before));
                            assert(views(seen@) =~= views(taken@) + chosen(dests@));
                        },
                    }
                    assert forall|j: int| 0 <= j <= i implies dests@.subrange(0, j) == before.subrange(0, j) by {
                        assert(dests@.subrange(0, j) =~= before.subrange(0, j));
                    }
                    assert(dests@.subrange(0, i as int) =~= before);
                    i = i + 1;
                }
                dests
            },
            None => {
                self.notification = Some(Notification::Warn { msg: String::from_str(Lang::en("buffer_empty")) });
                Vec::new()
            },
        }
    }

    /// The sources to remove after the copies of a paste: for a cut, the
    /// items whose copy succeeded (`copied[i]` for the i-th item); none for
    /// a copy.
    pub fn sources_to_remove(&self, copied: &Vec<bool>) -> (r: Vec<String>)
        ensures
            match self.clipboard {
                Some(Clipboard::File { items, action: ClipboardAction::Cut }) =>
                    copied@.len() == items@.len() ==> views(r@) == succeeded_items(views(items@), copied@),
                _ => r@.len() == 0,
            },
    {
        let mut r: Vec<String> = Vec::new();
        if let Some(Clipboard::File { items, action: ClipboardAction::Cut }) = &self.clipboard {
            if copied.len() == items.len() {
                let mut i: usize = 0;
                while i < items.len()
                    invariant
                        i <= items@.len(),
                        copied@.len() == items@.len(),
                        views(r@) == succeeded_items(views(items@).subrange(0, i as int), copied@.subrange(0, i as int)),
                    decreases items@.len() - i,
                {
                    assert(views(items@).subrange(0, i + 1).drop_last() =~= views(items@).subrange(0, i as int));
                    assert(copied@.subrange(0, i + 1).drop_last() =~= copied@.subrange(0, i as int));
                    if copied[i] {
                        r.push(items[i].clone());
                        assert(views(r@) =~= views(r@).drop_last().push(items@[i as int]@));
                    }
                    i = i + 1;
                }
                assert(views(items@).subrange(0, i as int) =~= views(items@));
                assert(copied@.subrange(0, i as int) =~= copied@);
            }
        }
        r
    }

    /// Ends a paste: reports how many items were pasted (moved, for a cut)
    /// and the reasons of the failures, then empties the clipboard and the
    /// marked set and asks for the columns at the cursor.
    pub fn finish_paste(&mut self, succeeded: usize, errors: &Vec<String>)
        requires
            old(self).wf(),
        ensures
            final(self).wf(),
            final(self).clipboard is None,
            final(self).marked@.len() == 0,
            final(self).current_dir == old(self).current_dir,
            final(self).positions_map == old(self).positions_map,
            old(self).clipboard is Some ==> final(self).refresh == Some(old(self).cursor()),
            old(self).clipboard is None ==> final(self).notification == old(self).notification,
            match old(self).clipboard {
                Some(Clipboard::File { action, .. }) => batch_notification(
                    final(self).notification,
                    succeeded as nat,
                    errors@.len(),
                    if errors@.len() == 0 {
                        formatted(if action == ClipboardAction::Copy { "pasted"@ } else { "moved"@ }, seq![dec(succeeded as nat)])
                    } else {
                        formatted(
                            if action == ClipboardAction::Copy { "pasted_with_error"@ } else { "moved_with_error"@ },
                            seq![dec(succeeded as nat), dec(errors@.len()), joined(views(errors@))],
                        )
                    },
                ),
                None => true,
            },
    {
        if let Some(Clipboard::File { action, .. }) = &self.clipboard {
            let is_copy = matches!(action, ClipboardAction::Copy);
            let msg = if errors.len() == 0 {
                fmt1(if is_copy { "pasted" } else { "moved" }, decimal_string(succeeded as u128))
            } else {
                fmt3(
                    if is_copy { "pasted_with_error" } else { "moved_with_error" },
                    decimal_string(succeeded as u128),
                    decimal_string(errors.len() as u128),
                    join_texts(errors),
                )
            };
            self.notification = Some(if errors.len() == 0 {
                Notification::Success { msg }
            } else if succeeded == 0 {
                Notification::Error { msg }
            } else {
                Notification::Warn { msg }
            });
            let position_id = get_position(&self.positions_map, &self.current_dir);
            self.refresh = Some(position_id);
        }
        self.clipboard = None;
        self.clear_marks();
    }

    /// Ends a delete: reports how many entries were deleted and the reasons
    /// of the failures, empties the marked set, and moves the cursor up one
    /// row (stopping at 0), since the deleted row vacates its slot. Where
    /// there was no target (see `targets`), reports `Files not found.` and
    /// changes nothing else.
    pub fn finish_delete(&mut self, succeeded: usize, errors: &Vec<String>)
        requires
            old(self).wf(),
        ensures
            final(self).wf(),
            old(self).targets().len() == 0 ==> {
                &&& final(self).notification matches Some(Notification::Error { msg })
                &&& msg@ == message_of("items_not_found"@)
                &&& *final(self) == (State { notification: final(self).notification, ..*old(self) })
            },
            old(self).targets().len() > 0 ==> {
                &&& final(self).marked@.len() == 0
                &&& final(self).current_dir == old(self).current_dir
                &&& final(self).cursor() == (if old(self).cursor() > 0 { old(self).cursor() - 1 } else { 0 })
                &&& final(self).positions_map@ == old(self).positions_map@.insert(old(self).current_dir@, final(self).cursor())
                &&& final(self).refresh == Some(final(self).cursor())
                &&& batch_notification(
                    final(self).notification,
                    succeeded as nat,
                    errors@.len(),
                    if errors@.len() == 0 {
                        formatted("deleted"@, seq![dec(succeeded as nat)])
                    } else {
                        formatted("deleted_with_error"@, seq![dec(succeeded as nat), dec(errors@.len()), joined(views(errors@))])
                    },
                )
            },
    {
        if self.operation_targets().len() == 0 {
            self.notification = Some(Notification::Error { msg: String::from_str(Lang::en("items_not_found")) });
            return;
        }
        let msg = if errors.len() == 0 {
            fmt1("deleted", decimal_string(succeeded as u128))
        } else {
            fmt3(
                "deleted_with_error",
                decimal_string(succeeded as u128),
                decimal_string(errors.len() as u128),
                join_texts(errors),
            )
        };
        self.notification = Some(if errors.len() == 0 {
            Notification::Success { msg }
        } else if succeeded == 0 {
            Notification::Error { msg }
        } else {
            Notification::Warn { msg }
        });
        self.clear_marks();
        let position_id = get_position(&self.positions_map, &self.current_dir);
        let new_position_id = position_id.saturating_sub(1);
        update_dir_position(&mut self.positions_map, &self.current_dir, new_position_id);
        self.refresh = Some(new_position_id);
    }

    /// The editor run on `file_name`; the screen is to be repainted after.
    pub fn execute_file(&mut self, file_name: &String) -> (r: ExternalCommand)
        ensures
            r.program == old(self).config.common.editor,
            views(r.args@) == seq![file_name@],
            *final(self) == (State { from_external_app: true, ..*old(self) }),
    {
        self.from_external_app = true;
        let args = vec![file_name.clone()];
        assert(views(args@) =~= seq![file_name@]);
        ExternalCommand { program: self.config.common.editor.clone(), args }
    }

    /// Enters the directory under the cursor, or returns the editor command
    /// for the file under the cursor.
    pub fn navigate_to_child_or_exec(&mut self) -> (r: Option<ExternalCommand>)
        requires
            old(self).wf(),
        ensures
            final(self).wf(),
            match old(self).current_entry() {
                Some(f) if !f.variant.is_directory() => {
                    &&& r matches Some(c)
                    &&& c.program == old(self).config.common.editor
                    &&& views(c.args@) == seq![path_join(old(self).current_dir@, f.name@)]
                    &&& final(self).current_dir == old(self).current_dir
                    &&& final(self).from_external_app
                },
                _ => {
                    &&& r is None
                    &&& final(self).positions_map == old(self).positions_map
                    &&& match old(self).dirs[2].dir_name {
                        Some(c) => final(self).current_dir == c && final(self).refresh == Some(final(self).cursor()),
                        None => *final(self) == *old(self),
                    }
                },
            },
    {
        let exec_path = match get_current_file(&self.positions_map, &self.current_dir, self.files[1].as_slice()) {
            Some(file) => {
                if !file.variant.is_directory() {
                    Some(build_full_path(&self.current_dir, file))
                } else {
                    None
                }
            },
            None => None,
        };
        match exec_path {
            Some(p) => Some(self.execute_file(&p)),
            None => {
                self.navigate_to_child();
                None
            },
        }
    }
}

} // verus!

verus! {

/// The number of `true` flags.
pub open spec fn count_true(ok: Seq<bool>) -> nat
    decreases ok.len(),
{
    if ok.len() == 0 {
        0
    } else {
        count_true(ok.drop_last()) + if ok.last() { 1nat } else { 0nat }
    }
}

/// After a cut and paste of distinct items, an item is removed exactly
/// when its copy succeeded (the failed ones remain), and as many are
/// removed as were copied.
pub proof fn lemma_cut_removes_copied(items: Seq<Seq<char>>, ok: Seq<bool>)
    requires
        items.len() == ok.len(),
        forall|i: int, j: int| 0 <= i < j < items.len() ==> items[i] != items[j],
    ensures
        forall|i: int| 0 <= i < items.len() ==> (succeeded_items(items, ok).contains(#[trigger] items[i]) <==> ok[i]),
        succeeded_items(items, ok).len() == count_true(ok),
    decreases items.len(),
{
    if items.len() > 0 {
        let its = items.drop_last();
        let oks = ok.drop_last();
        lemma_cut_removes_copied(its, oks);
        let r = succeeded_items(its, oks);
        lemma_succeeded_within(its, oks);
        assert forall|i: int| 0 <= i < items.len() implies (succeeded_items(items, ok).contains(#[trigger] items[i]) <==> ok[i]) by {
            if i < items.len() - 1 {
                assert(its[i] == items[i]);
                assert(items[i] != items.last());
                if ok.last() {
                    assert(succeeded_items(items, ok) == r.push(items.last()));
                    if r.push(items.last()).contains(items[i]) {
                        let j = choose|j: int| 0 <= j < r.push(items.last()).len() && r.push(items.last())[j] == items[i];
                        if j < r.len() {
                            assert(r[j] == items[i]);
                        }
                    }
                    if r.contains(items[i]) {
                        let j = choose|j: int| 0 <= j < r.len() && r[j] == items[i];
                        assert(r.push(items.last())[j] == items[i]);
                    }
                }
            } else {
                if ok.last() {
                    assert(succeeded_items(items, ok) == r.push(items.last()));
                    assert(r.push(items.last())[r.len() as int] == items[i]);
                } else {
                    if r.contains(items.last()) {
                        let j = choose|j: int| 0 <= j < r.len() && r[j] == items.last();
                        assert(its.contains(r[j]));
                        let m = choose|m: int| 0 <= m < its.len() && its[m] == r[j];
                        assert(items[m] == items.last());
                    }
                }
            }
        }
    }
}

proof fn lemma_succeeded_within(items: Seq<Seq<char>>, ok: Seq<bool>)
    requires
        items.len() == ok.len(),
    ensures
        forall|j: int| 0 <= j < succeeded_items(items, ok).len() ==> items.contains(#[trigger] succeeded_items(items, ok)[j]),
    decreases items.len(),
{
    if items.len() > 0 {
        let its = items.drop_last();
        let oks = ok.drop_last();
        lemma_succeeded_within(its, oks);
        let r = succeeded_items(its, oks);
        assert forall|j: int| 0 <= j < succeeded_items(items, ok).len() implies items.contains(#[trigger] succeeded_items(items, ok)[j]) by {
            if j < r.len() {
                assert(its.contains(r[j]));
                let m = choose|m: int| 0 <= m < its.len() && its[m] == r[j];
                assert(items[m] == r[j]);
                if ok.last() {
                    assert(succeeded_items(items, ok)[j] == r.push(items.last())[j]);
                }
            } else {
                assert(items[items.len() - 1] == items.last());
            }
        }
    }
}

} // verus!
