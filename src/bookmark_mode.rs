//! Bookmarks mode: moving through the bookmark table, adding, deleting
//! and opening bookmarks.
use vstd::prelude::*;
use crate::bookmarks::{bookmark_pairs, inserted, table_remove};
use crate::i18n::{message_of, Lang};
use crate::model::{ExternalCommand, ModalKind, Mode, Notification, PathKind, UnderLineModalAction};
use crate::paths::{build_full_path, path_join};
use crate::positions::{get_position, position_in};
use crate::state::{get_current_file, is_info, State};
use crate::utils::views;

verus! {

impl State {
    /// The number of bookmarks.
    pub open spec fn bookmark_count(&self) -> nat {
        bookmark_pairs(self.config.bookmarks).len()
    }

    /// Bookmarks mode at the first bookmark.
    pub fn enter_bookmarks_mode(&mut self)
        ensures
            final(self).mode == (Mode::Bookmarks { position_id: 0 }),
            final(self).modal_type == ModalKind::Disabled,
            is_info(final(self).notification, message_of("bookmarks_mode"@)),
            final(self).positions_map == old(self).positions_map,
            final(self).current_dir == old(self).current_dir,
            final(self).config == old(self).config,
    {
        self.mode = Mode::Bookmarks { position_id: 0 };
        self.hide_hint_bar();
        self.notification = Some(Notification::Info { msg: String::from_str(Lang::en("bookmarks_mode")) });
    }

    /// Moves to the next bookmark, stopping at the last.
    pub fn bookmarks_nagivate_down(&mut self)
        ensures
            match old(self).mode {
                Mode::Bookmarks { position_id } => if position_id + 1 < old(self).bookmark_count() {
                    *final(self) == (State { mode: Mode::Bookmarks { position_id: (position_id + 1) as usize }, ..*old(self) })
                } else {
                    *final(self) == *old(self)
                },
                _ => *final(self) == *old(self),
            },
    {
        if let Mode::Bookmarks { position_id } = self.mode {
            let incremented_position = position_id.saturating_add(1);
            if incremented_position < self.config.bookmark_count() {
                self.mode = Mode::Bookmarks { position_id: incremented_position };
            }
        }
    }

    /// Moves to the previous bookmark, stopping at the first.
    pub fn bookmarks_nagivate_up(&mut self)
        ensures
            match old(self).mode {
                Mode::Bookmarks { position_id } => *final(self) == (State {
                    mode: Mode::Bookmarks { position_id: if position_id > 0 { (position_id - 1) as usize } else { 0 } },
                    ..*old(self)
                }),
                _ => *final(self) == *old(self),
            },
    {
        if let Mode::Bookmarks { position_id } = self.mode {
            self.mode = Mode::Bookmarks { position_id: position_id.saturating_sub(1) };
        }
    }

    /// The edit line for a new bookmark's alias.
    pub fn add_to_bookmarks(&mut self)
        ensures
            final(self).mode == Mode::Insert,
            final(self).modal_type == (ModalKind::UnderLine { action: UnderLineModalAction::Bookmarks }),
            final(self).positions_map == old(self).positions_map,
            final(self).current_dir == old(self).current_dir,
    {
        self.enter_insert_mode();
        self.modal_type = ModalKind::UnderLine { action: UnderLineModalAction::Bookmarks };
    }

    /// Bookmarks the entry under the cursor as `alias` (an existing alias is
    /// re-pointed); returns whether the table changed and must be saved.
    pub fn commit_new_bookmark(&mut self, alias: String) -> (r: bool)
        requires
            old(self).wf(),
        ensures
            final(self).wf(),
            r == (old(self).current_entry() is Some),
            final(self).mode == old(self).mode,
            final(self).modal_type == old(self).modal_type,
            final(self).input == old(self).input,
            final(self).positions_map == old(self).positions_map,
            final(self).current_dir == old(self).current_dir,
            final(self).files == old(self).files,
            match old(self).current_entry() {
                Some(f) => {
                    &&& bookmark_pairs(final(self).config.bookmarks) == inserted(
                        bookmark_pairs(old(self).config.bookmarks), alias@, path_join(old(self).current_dir@, f.name@))
                    &&& is_info(final(self).notification, message_of("bookmark_added"@))
                },
                None => *final(self) == *old(self),
            },
    {
        if let Some(current_file) = get_current_file(&self.positions_map, &self.current_dir, self.files[1].as_slice()) {
            let full_path = build_full_path(&self.current_dir, current_file);
            self.config.add_bookmark(alias, full_path);
            self.notification = Some(Notification::Info { msg: String::from_str(Lang::en("bookmark_added")) });
            true
        } else {
            false
        }
    }

    /// Removes the bookmark at the Bookmarks-mode cursor, the others keeping
    /// their order; a cursor left past the end moves to the new last
    /// bookmark. Returns whether the table changed and must be saved.
    pub fn delete_from_bookmarks(&mut self) -> (r: bool)
        ensures
            match old(self).mode {
                Mode::Bookmarks { position_id } => {
                    &&& r == (position_id < old(self).bookmark_count())
                    &&& r ==> bookmark_pairs(final(self).config.bookmarks) == bookmark_pairs(old(self).config.bookmarks).remove(position_id as int)
                    &&& r ==> is_info(final(self).notification, message_of("bookmark_deleted"@))
                    &&& r ==> final(self).mode == (Mode::Bookmarks {
                        position_id: if position_id + 1 == old(self).bookmark_count() && position_id > 0 {
                            (position_id - 1) as usize
                        } else {
                            position_id
                        },
                    })
                    &&& r ==> *final(self) == (State { config: final(self).config, notification: final(self).notification, mode: final(self).mode, ..*old(self) })
                    &&& r ==> final(self).config.common == old(self).config.common
                    &&& !r ==> *final(self) == *old(self)
                },
                _ => !r && *final(self) == *old(self),
            },
            final(self).positions_map == old(self).positions_map,
            final(self).current_dir == old(self).current_dir,
    {
        if let Mode::Bookmarks { position_id } = self.mode {
            let count = self.config.bookmark_count();
            if position_id < count {
                table_remove(&mut self.config.bookmarks, position_id);
                assert(bookmark_pairs(self.config.bookmarks).len() == count - 1);
                self.notification = Some(Notification::Info { msg: String::from_str(Lang::en("bookmark_deleted")) });
                let left = count - 1;
                if position_id >= left && left > 0 {
                    self.mode = Mode::Bookmarks { position_id: left - 1 };
                }
                return true;
            }
        }
        false
    }

    /// The path of the bookmark at the Bookmarks-mode cursor.
    pub fn bookmark_target(&self) -> (r: Option<String>)
        ensures
            match self.mode {
                Mode::Bookmarks { position_id } if position_id < self.bookmark_count() =>
                    r is Some && r->Some_0@ == bookmark_pairs(self.config.bookmarks)[position_id as int].1,
                _ => r is None,
            },
    {
        if let Mode::Bookmarks { position_id } = self.mode {
            match self.config.bookmark_at(position_id) {
                Some((_, path)) => Some(path),
                None => None,
            }
        } else {
            None
        }
    }

    /// Opens the bookmark at the Bookmarks-mode cursor, whose path is a
    /// `kind` on disk: a directory becomes the current directory (at its
    /// remembered cursor) and Normal mode returns; a file gives the editor
    /// command; anything else is reported as an invalid bookmark.
    pub fn open_dir_from_bookmark(&mut self, kind: PathKind) -> (r: Option<ExternalCommand>)
        requires
            old(self).wf(),
        ensures
            final(self).wf(),
            final(self).positions_map == old(self).positions_map,
            match old(self).mode {
                Mode::Bookmarks { position_id } if position_id < old(self).bookmark_count() => {
                    let path = bookmark_pairs(old(self).config.bookmarks)[position_id as int].1;
                    match kind {
                        PathKind::Directory => {
                            &&& r is None
                            &&& final(self).current_dir@ == path
                            &&& final(self).mode == Mode::Normal
                            &&& final(self).refresh == Some(position_in(old(self).positions_map@, path))
                        },
                        PathKind::File => {
                            &&& r matches Some(c)
                            &&& views(c.args@) == seq![path]
                            &&& c.program == old(self).config.common.editor
                            &&& final(self).current_dir == old(self).current_dir
                            &&& final(self).mode == old(self).mode
                        },
                        PathKind::Other => {
                            &&& r is None
                            &&& final(self).current_dir == old(self).current_dir
                            &&& final(self).mode == old(self).mode
                            &&& final(self).notification matches Some(Notification::Error { msg })
                            &&& msg@ == message_of("bookmark_invalid"@)
                            &&& *final(self) == (State { notification: final(self).notification, ..*old(self) })
                        },
                    }
                },
                _ => r is None && *final(self) == *old(self),
            },
    {
        match self.bookmark_target() {
            Some(path) => match kind {
                PathKind::Directory => {
                    self.current_dir = path;
                    let position_id = get_position(&self.positions_map, &self.current_dir);
                    self.mode = Mode::Normal;
                    self.refresh = Some(position_id);
                    None
                },
                PathKind::File => Some(self.execute_file(&path)),
                PathKind::Other => {
                    self.notification = Some(Notification::Error { msg: String::from_str(Lang::en("bookmark_invalid")) });
                    None
                },
            },
            None => None,
        }
    }
}

} // verus!
