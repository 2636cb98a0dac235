use stranger::bookmarks::Config;
use stranger::columns::MillerColumns;
use stranger::entries::{DirEntry, FileEntry, FileVariant};
use stranger::file_ops::copy_file_path;
use stranger::keymap::{intent_of, Intent, KeyCode, KeyInput};
use stranger::model::{
    Clipboard, ClipboardAction, DeleteMode, FileRequest, HintBarMode, ModalKind, Mode, Notification, PathKind,
    UnderLineModalAction,
};
use stranger::positions::{get_position, update_dir_position, PositionsMap};
use stranger::state::State;

fn file(name: &str) -> FileEntry {
    FileEntry {
        name: name.to_string(),
        variant: FileVariant::File { size: Some(10), permissions: None, last_modified: None, is_matched: false },
    }
}

fn dir(name: &str) -> FileEntry {
    FileEntry {
        name: name.to_string(),
        variant: FileVariant::Directory { entry_count: None, permissions: None, last_modified: None, is_matched: false },
    }
}

fn names(files: &[FileEntry]) -> Vec<String> {
    files.iter().map(|f| f.name.clone()).collect()
}

fn create_test_state() -> State {
    let mut positions_map = PositionsMap::new();
    let current_dir = String::from("/src/ui/tests");
    positions_map.insert(current_dir.clone(), 0);
    let some_dir = || DirEntry { dir_name: Some(String::from("src/ui/1")), with_meta: false };
    State {
        current_dir,
        files: [vec![], vec![file("file1"), file("file2"), file("file3")], vec![]],
        dirs: [some_dir(), some_dir(), some_dir()],
        positions_map,
        mode: Mode::Normal,
        modal_type: ModalKind::Disabled,
        input: String::new(),
        config: Config::new_default(),
        from_external_app: false,
        clipboard: None,
        notification: None,
        marked: vec![],
        search_pattern: None,
        refresh: None,
        show_hidden: true,
        backfill_parent: false,
    }
}

/// Builds the columns for the state's directory from the given listings,
/// as the caller does after a transition.
fn rebuild(state: &mut State, parent: Vec<FileEntry>, current: Vec<FileEntry>, child: Vec<FileEntry>) {
    let pos = state.refresh.unwrap_or(get_position(&state.positions_map, &state.current_dir));
    let mut cols = MillerColumns::build_columns(&state.current_dir, pos, state.search_pattern.clone(), parent, current);
    cols.set_child_files(child, &state.search_pattern);
    state.reset_state(cols);
}

fn cursor(state: &State) -> usize {
    get_position(&state.positions_map, &state.current_dir)
}

fn msg(state: &State) -> String {
    state.notification.as_ref().map(|n| n.msg().clone()).unwrap_or_default()
}

#[test]
fn mark_item_adds_file() {
    let mut state = create_test_state();
    let initial_length = state.marked.len();
    state.mark_item();
    assert_eq!(state.marked.len(), initial_length + 1);
}

#[test]
fn mark_item_removes_file() {
    let mut state = create_test_state();
    state.mark_item();
    let initial_length = state.marked.len();
    state.mark_item();
    assert_eq!(state.marked.len(), initial_length - 1);
}

#[test]
fn marks_and_moves_down() {
    let mut state = create_test_state();
    let initial_length = state.marked.len();
    state.mark_and_down();
    assert_eq!(state.marked.len(), initial_length + 1);
    assert_eq!(state.mode, Mode::Normal);
}

#[test]
fn normal_mode_changes_state() {
    let mut state = create_test_state();
    state.enter_normal_mode();
    assert_eq!(state.mode, Mode::Normal);
    assert!(state.notification.is_none());
}

#[test]
fn insert_mode_changes_state() {
    let mut state = create_test_state();
    state.enter_insert_mode();
    assert_eq!(state.mode, Mode::Insert);
    assert!(state.notification.is_some());
}

#[test]
fn test_navigate_to_parent() {
    let mut state = create_test_state();
    let initial_dir = state.current_dir.clone();
    state.dirs[0].dir_name = Some(String::from("/src/ui"));
    state.navigate_to_parent();
    assert_eq!(state.current_dir, "/src/ui");
    assert_ne!(state.current_dir, initial_dir);
}

#[test]
fn test_navigate_to_child() {
    let mut state = create_test_state();
    state.dirs[2].dir_name = Some(String::from("/src/ui/tests/child"));
    state.navigate_to_child();
    assert_eq!(state.current_dir, state.dirs[2].dir_name.clone().unwrap());
}

#[test]
fn test_navigate_up() {
    let mut state = create_test_state();
    let initial_position = get_position(&state.positions_map, &state.current_dir);
    state.navigate_up(1);
    let new_position = get_position(&state.positions_map, &state.current_dir);
    assert_eq!(new_position, initial_position.saturating_sub(1));
}

#[test]
fn test_navigate_up_at_zero() {
    let mut state = create_test_state();
    let initial_position = 0;
    let dir = state.current_dir.clone();
    update_dir_position(&mut state.positions_map, &dir, initial_position);
    state.navigate_up(1);
    let new_position = get_position(&state.positions_map, &state.current_dir);
    assert_eq!(new_position, 0);
}

#[test]
fn test_navigate_down() {
    let mut state = create_test_state();
    let initial_position = get_position(&state.positions_map, &state.current_dir);
    state.navigate_down(1);
    let new_position = get_position(&state.positions_map, &state.current_dir);
    assert_eq!(new_position, initial_position.saturating_add(1));
}

#[test]
fn down_clamps_and_stays_at_last_row() {
    let mut state = create_test_state();
    state.navigate_down(25);
    assert_eq!(cursor(&state), 2);
    assert_eq!(state.refresh, Some(2));
    state.navigate_down(25);
    assert_eq!(cursor(&state), 2);
    state.navigate_up(25);
    assert_eq!(cursor(&state), 0);
}

#[test]
fn down_on_empty_listing_does_nothing() {
    let mut state = create_test_state();
    state.files[1].clear();
    state.navigate_down(1);
    assert_eq!(cursor(&state), 0);
    assert_eq!(state.refresh, None);
}

#[test]
fn visual_mode_marks_start_row_then_rows_left() {
    let mut state = create_test_state();
    state.enter_visual_mode();
    assert_eq!(names(&state.marked), vec!["file1"]);
    assert_eq!(msg(&state), "--VISUAL--");
    state.navigate_down(1);
    assert_eq!(state.mode, Mode::Visual { init: false });
    assert_eq!(names(&state.marked), vec!["file1"]);
    state.navigate_down(1);
    assert_eq!(names(&state.marked), vec!["file1", "file2"]);
    state.enter_normal_mode();
    assert_eq!(state.mode, Mode::Normal);
}

fn t_state() -> State {
    let current_dir = String::from("/tmp/t");
    let mut cols = MillerColumns::build_columns(&current_dir, 0, None, vec![dir("t")], vec![file("b.txt"), dir("A")]);
    cols.set_child_files(vec![], &None);
    State::new(current_dir, Config::new_default(), cols)
}

#[test]
fn enter_child_and_back_restores_cursor() {
    let mut state = t_state();
    assert_eq!(names(&state.files[1]), vec!["A", "b.txt"]);
    assert!(state.files[1][0].variant.is_directory());
    assert_eq!(state.dirs[2].dir_name, Some(String::from("/tmp/t/A")));

    state.navigate_to_child();
    assert_eq!(state.current_dir, "/tmp/t/A");
    rebuild(&mut state, vec![file("b.txt"), dir("A")], vec![], vec![]);
    assert!(state.files[1].is_empty());
    assert!(state.files[2].is_empty());
    assert_eq!(state.dirs[2], DirEntry::empty_dir());

    state.navigate_to_parent();
    assert_eq!(state.current_dir, "/tmp/t");
    assert_eq!(cursor(&state), 0);
}

#[test]
fn enter_child_from_second_row_and_back() {
    let current_dir = String::from("/w");
    let entries = || vec![dir("one"), dir("two"), file("z")];
    let mut cols = MillerColumns::build_columns(&current_dir, 0, None, vec![dir("w")], entries());
    cols.set_child_files(vec![], &None);
    let mut state = State::new(current_dir, Config::new_default(), cols);
    state.navigate_down(1);
    rebuild(&mut state, vec![dir("w")], entries(), vec![]);
    assert_eq!(state.dirs[2].dir_name, Some(String::from("/w/two")));
    state.navigate_to_child();
    rebuild(&mut state, entries(), vec![], vec![]);
    state.navigate_to_parent();
    assert_eq!(state.current_dir, "/w");
    assert_eq!(cursor(&state), 1);
}

#[test]
fn delete_marked_entries_in_visual_mode() {
    let mut state = t_state();
    state.enter_visual_mode();
    state.navigate_down(1);
    rebuild(&mut state, vec![dir("t")], vec![file("b.txt"), dir("A")], vec![]);
    state.mark_item();
    assert_eq!(names(&state.marked), vec!["A", "b.txt"]);
    let targets = state.operation_targets();
    assert_eq!(targets, vec!["/tmp/t/A", "/tmp/t/b.txt"]);
    // both went to the trash
    state.finish_delete(2, &vec![]);
    assert_eq!(msg(&state), "Deleted 2 items!");
    assert!(matches!(state.notification, Some(Notification::Success { .. })));
    assert!(state.marked.is_empty());
    assert_eq!(cursor(&state), 0);
    rebuild(&mut state, vec![dir("t")], vec![], vec![]);
    assert!(state.files[1].is_empty());
    assert_eq!(cursor(&state), 0);
}

#[test]
fn delete_reports_partial_and_total_failure() {
    let mut state = create_test_state();
    state.navigate_down(1);
    state.finish_delete(1, &vec![String::from("denied")]);
    assert!(matches!(state.notification, Some(Notification::Warn { .. })));
    assert_eq!(msg(&state), "Deleted 1 items! Failed 1 files: denied");
    assert_eq!(cursor(&state), 0);
    state.finish_delete(0, &vec![String::from("a"), String::from("b")]);
    assert!(matches!(state.notification, Some(Notification::Error { .. })));
    assert_eq!(msg(&state), "Deleted 0 items! Failed 2 files: a, b");
}

#[test]
fn copy_stages_current_entry() {
    let mut state = create_test_state();
    state.open_hint_bar(HintBarMode::Delete);
    state.copy_files(ClipboardAction::Cut, &vec![true]);
    assert_eq!(
        state.clipboard,
        Some(Clipboard::File { items: vec![String::from("/src/ui/tests/file1")], action: ClipboardAction::Cut })
    );
    assert_eq!(msg(&state), "1 items copied in buffer.");
    assert_eq!(state.modal_type, ModalKind::Disabled);
}

#[test]
fn copy_of_missing_entry_fails() {
    let mut state = create_test_state();
    state.copy_files(ClipboardAction::Copy, &vec![false]);
    assert!(state.clipboard.is_none());
    assert!(matches!(state.notification, Some(Notification::Error { .. })));
    assert_eq!(msg(&state), "Files not found.");
    assert!(copy_file_path(String::from("/x"), false).is_err());
    assert_eq!(copy_file_path(String::from("/x"), true).unwrap(), "/x");
}

#[test]
fn paste_names_avoid_collisions() {
    let mut state = create_test_state();
    state.current_dir = String::from("/dst");
    state.clipboard = Some(Clipboard::File {
        items: vec![String::from("/src/file.txt"), String::from("/other/file.txt")],
        action: ClipboardAction::Copy,
    });
    let plan = state.paste_files(&vec![String::from("/dst/file.txt")]);
    assert_eq!(plan, vec![Some(String::from("/dst/file_1.txt")), Some(String::from("/dst/file_2.txt"))]);
    state.finish_paste(2, &vec![]);
    assert_eq!(msg(&state), "Pasted 2 items!");
    assert!(state.clipboard.is_none());
}

#[test]
fn paste_with_empty_clipboard_warns() {
    let mut state = create_test_state();
    let plan = state.paste_files(&vec![]);
    assert!(plan.is_empty());
    assert!(matches!(state.notification, Some(Notification::Warn { .. })));
    assert_eq!(msg(&state), "Buffer is empty.");
}

#[test]
fn cut_paste_removes_only_copied_sources() {
    let mut state = create_test_state();
    state.mark_item();
    let items = vec![String::from("/s/a"), String::from("/s/b"), String::from("/s/c")];
    state.clipboard = Some(Clipboard::File { items, action: ClipboardAction::Cut });
    let plan = state.paste_files(&vec![]);
    assert_eq!(plan.len(), 3);
    let copied = vec![true, false, true];
    let removed = state.sources_to_remove(&copied);
    assert_eq!(removed, vec!["/s/a", "/s/c"]);
    state.finish_paste(2, &vec![String::from("no space")]);
    assert!(state.clipboard.is_none());
    assert!(state.marked.is_empty());
    assert!(matches!(state.notification, Some(Notification::Warn { .. })));
    assert_eq!(msg(&state), "Moved 2 items! Failed 1 files: no space");
}

#[test]
fn copy_paste_removes_nothing() {
    let mut state = create_test_state();
    state.clipboard = Some(Clipboard::File { items: vec![String::from("/s/a")], action: ClipboardAction::Copy });
    assert!(state.sources_to_remove(&vec![true]).is_empty());
}

fn search_state(names: &[&str], pattern: &str) -> State {
    let current_dir = String::from("/s");
    let entries: Vec<FileEntry> = names.iter().map(|n| file(n)).collect();
    let mut state = State::new(
        current_dir.clone(),
        Config::new_default(),
        MillerColumns::build_columns(&current_dir, 0, None, vec![], entries.clone()),
    );
    state.search();
    assert_eq!(state.mode, Mode::Insert);
    assert_eq!(state.modal_type, ModalKind::BottomLine);
    state.input = pattern.to_string();
    state.commit_search();
    assert_eq!(state.mode, Mode::Search);
    assert_eq!(state.search_pattern, Some(pattern.to_lowercase()));
    rebuild(&mut state, vec![], entries, vec![]);
    state
}

#[test]
fn next_match_wraps_round() {
    let mut state = search_state(&["apple", "banana", "avocado", "cherry"], "A");
    assert_eq!(msg(&state), "Matches: 2");
    state.next_match("next");
    assert_eq!(cursor(&state), 1);
    assert_eq!(state.files[1][1].name, "avocado");
    state.next_match("next");
    assert_eq!(cursor(&state), 0);
    state.next_match("prev");
    assert_eq!(cursor(&state), 1);
}

#[test]
fn next_match_without_matches_keeps_cursor() {
    let mut state = search_state(&["apple", "banana"], "zz");
    state.next_match("next");
    assert_eq!(cursor(&state), 0);
    assert_eq!(msg(&state), "No more matches for zz");
    state.exit_search_mode();
    assert_eq!(state.mode, Mode::Normal);
    assert!(state.search_pattern.is_none());
}

#[test]
fn rename_and_create_requests() {
    let mut state = create_test_state();
    state.rename_file();
    assert_eq!(state.modal_type, ModalKind::UnderLine { action: UnderLineModalAction::Edit });
    state.input = String::from("renamed");
    let req = state.commit_changes();
    assert_eq!(
        req,
        Some(FileRequest::Rename { from: String::from("/src/ui/tests/file1"), to: String::from("/src/ui/tests/renamed") })
    );
    state.finish_commit(Some(String::from("permission denied")));
    assert_eq!(state.mode, Mode::Insert);
    assert_eq!(msg(&state), "permission denied");
    state.finish_commit(None);
    assert_eq!(state.mode, Mode::Normal);
    assert_eq!(state.modal_type, ModalKind::Disabled);

    state.add_file();
    state.input = String::from("new/dir/");
    let req = state.commit_changes();
    assert_eq!(req, Some(FileRequest::Create { path: String::from("/src/ui/tests/new/dir/"), is_dir: true }));
}

#[test]
fn rename_without_target_stays_in_insert() {
    let mut state = create_test_state();
    state.enter_insert_mode();
    state.modal_type = ModalKind::UnderLine { action: UnderLineModalAction::Edit };
    state.files[1].clear();
    assert_eq!(state.commit_changes(), None);
    assert_eq!(state.mode, Mode::Insert);
    assert_eq!(msg(&state), "Failed to update file: /src/ui/tests");
}

#[test]
fn bookmark_open_navigates_to_directory() {
    let mut state = t_state();
    state.config.add_bookmark(String::from("proj"), String::from("/tmp/t"));
    state.current_dir = String::from("/home");
    state.enter_bookmarks_mode();
    assert_eq!(state.mode, Mode::Bookmarks { position_id: 0 });
    assert_eq!(state.bookmark_target(), Some(String::from("/tmp/t")));
    assert_eq!(state.open_dir_from_bookmark(PathKind::Directory), None);
    assert_eq!(state.current_dir, "/tmp/t");
    assert_eq!(state.mode, Mode::Normal);
}

#[test]
fn bookmarks_add_move_delete() {
    let mut state = t_state();
    state.add_to_bookmarks();
    state.input = String::from("a");
    assert_eq!(state.commit_changes(), Some(FileRequest::SaveConfig));
    assert_eq!(msg(&state), "Bookmark added!");
    assert_eq!(state.mode, Mode::Normal);
    assert!(state.commit_new_bookmark(String::from("b")));
    assert_eq!(state.config.bookmark_count(), 2);
    assert_eq!(state.config.bookmark_at(0), Some((String::from("a"), String::from("/tmp/t/A"))));
    state.enter_bookmarks_mode();
    state.bookmarks_nagivate_up();
    assert_eq!(state.mode, Mode::Bookmarks { position_id: 0 });
    state.bookmarks_nagivate_down();
    state.bookmarks_nagivate_down();
    assert_eq!(state.mode, Mode::Bookmarks { position_id: 1 });
    assert!(state.delete_from_bookmarks());
    assert_eq!(state.config.bookmark_count(), 1);
    assert_eq!(state.mode, Mode::Bookmarks { position_id: 0 });
    assert_eq!(state.open_dir_from_bookmark(PathKind::Other), None);
    assert_eq!(msg(&state), "Bookmark invalid!");
    let cmd = state.open_dir_from_bookmark(PathKind::File).unwrap();
    assert_eq!(cmd.program, "nvim");
    assert_eq!(cmd.args, vec!["/tmp/t/A"]);
    assert!(state.from_external_app);
}

#[test]
fn child_or_exec_on_a_file_runs_the_editor() {
    let mut state = create_test_state();
    let cmd = state.navigate_to_child_or_exec().unwrap();
    assert_eq!(cmd.program, "nvim");
    assert_eq!(cmd.args, vec!["/src/ui/tests/file1"]);
    assert_eq!(state.current_dir, "/src/ui/tests");
}

fn key(c: char) -> KeyInput {
    KeyInput { code: KeyCode::Char(c), ctrl: false, shift: false }
}

#[test]
fn keymap_intents() {
    let d = ModalKind::Disabled;
    assert_eq!(intent_of(Mode::Normal, d, key('j')), Intent::CursorDown(1));
    assert_eq!(intent_of(Mode::Normal, d, KeyInput { code: KeyCode::Char('d'), ctrl: true, shift: false }), Intent::CursorDown(25));
    assert_eq!(intent_of(Mode::Normal, d, KeyInput { code: KeyCode::Char('u'), ctrl: true, shift: false }), Intent::CursorUp(25));
    assert_eq!(intent_of(Mode::Normal, d, key('d')), Intent::OpenHintBar(HintBarMode::Delete));
    assert_eq!(intent_of(Mode::Normal, d, KeyInput { code: KeyCode::Char('h'), ctrl: true, shift: false }), Intent::ToggleHidden);
    assert_eq!(intent_of(Mode::Normal, d, key('n')), Intent::Nothing);
    assert_eq!(intent_of(Mode::Search, d, key('n')), Intent::NextMatch);
    let hint = ModalKind::HintBar { mode: HintBarMode::Delete };
    assert_eq!(intent_of(Mode::Normal, hint, key('D')), Intent::Delete(DeleteMode::Trash));
    assert_eq!(intent_of(Mode::Normal, hint, key('x')), Intent::Delete(DeleteMode::Permanent));
    let enter = KeyInput { code: KeyCode::Enter, ctrl: false, shift: false };
    assert_eq!(intent_of(Mode::Insert, ModalKind::UnderLine { action: UnderLineModalAction::Add }, enter), Intent::Commit);
    assert_eq!(intent_of(Mode::Insert, ModalKind::BottomLine, enter), Intent::CommitSearch);
    assert!(stranger::keymap::edit_line_accepts(254));
    assert!(!stranger::keymap::edit_line_accepts(255));
    assert_eq!(intent_of(Mode::Insert, d, key('q')), Intent::EditLine);
    assert_eq!(intent_of(Mode::Bookmarks { position_id: 0 }, d, key('l')), Intent::BookmarkOpen);
    assert_eq!(intent_of(Mode::Visual { init: true }, d, key('v')), Intent::ToNormal);
}

#[test]
fn deleting_a_bookmark_keeps_the_order_of_the_others() {
    let mut state = t_state();
    for (alias, path) in [("a", "/a"), ("b", "/b"), ("c", "/c")] {
        state.config.add_bookmark(String::from(alias), String::from(path));
    }
    state.config.add_bookmark(String::from("a"), String::from("/a2"));
    assert_eq!(state.config.bookmark_count(), 3);
    assert_eq!(state.config.bookmark_at(0), Some((String::from("a"), String::from("/a2"))));
    state.enter_bookmarks_mode();
    assert!(state.delete_from_bookmarks());
    assert_eq!(state.config.bookmark_at(0), Some((String::from("b"), String::from("/b"))));
    assert_eq!(state.config.bookmark_at(1), Some((String::from("c"), String::from("/c"))));
    assert_eq!(state.config.bookmark_at(2), None);
    assert_eq!(msg(&state), "Bookmark deleted!");
    assert_eq!(state.mode, Mode::Bookmarks { position_id: 0 });
    state.bookmarks_nagivate_down();
    assert!(state.delete_from_bookmarks());
    assert_eq!(state.mode, Mode::Bookmarks { position_id: 0 });
    assert_eq!(state.config.bookmark_at(0), Some((String::from("b"), String::from("/b"))));
    let default = Config::default();
    assert_eq!(default.common.editor, "nvim");
    assert_eq!(default.bookmark_count(), 0);
}

#[test]
fn delete_with_no_target_reports_not_found() {
    let mut state = create_test_state();
    state.files[1].clear();
    state.finish_delete(0, &vec![]);
    assert!(matches!(state.notification, Some(Notification::Error { .. })));
    assert_eq!(msg(&state), "Files not found.");
    assert_eq!(state.refresh, None);
}

#[test]
fn rebuilds_keep_the_parent_cursor_unless_a_child_was_entered() {
    let current_dir = String::from("/w/two");
    let parent = || vec![dir("one"), dir("two"), dir("three")];
    let cols = MillerColumns::build_columns(&current_dir, 0, None, parent(), vec![file("a"), file("b")]);
    let mut state = State::new(current_dir, Config::new_default(), cols);
    // start-up points the parent's cursor at this directory's row
    assert_eq!(state.positions_map.get("/w"), Some(2));
    state.positions_map.insert(String::from("/w"), 0);
    state.navigate_down(1);
    rebuild(&mut state, parent(), vec![file("a"), file("b")], vec![]);
    assert_eq!(state.positions_map.get("/w"), Some(0));
    assert_eq!(cursor(&state), 1);
}

#[test]
fn empty_clipboard_paste_changes_only_the_notification() {
    let mut state = create_test_state();
    state.mark_item();
    state.paste_files(&vec![]);
    assert_eq!(names(&state.marked), vec!["file1"]);
    assert_eq!(state.files[1].len(), 3);
}
