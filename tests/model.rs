use stranger::columns::{build_miller_columns, MillerColumns};
use stranger::entries::{count_matched_files, DirEntry, FileEntry, FileVariant};
use stranger::i18n::Lang;
use stranger::model::ModalKind;
use stranger::paths::{build_full_path, file_name_path, join_path, parent_path};
use stranger::positions::{get_position, parse_path_positions, update_dir_position, PositionsMap, ZERO_POSITION};
use stranger::state::get_current_file;
use stranger::utils::{format_bytes, permissions_to_string, uniquify_path};

fn file(name: &str) -> FileEntry {
    FileEntry {
        name: name.to_string(),
        variant: FileVariant::File { size: None, permissions: None, last_modified: None, is_matched: false },
    }
}

fn dir(name: &str) -> FileEntry {
    FileEntry {
        name: name.to_string(),
        variant: FileVariant::Directory { entry_count: None, permissions: None, last_modified: None, is_matched: false },
    }
}

fn names(files: &[FileEntry]) -> Vec<String> {
    files.iter().map(|f| f.name.clone()).collect()
}

#[test]
fn mod_full_path() {
    let dir = String::from("/src/ui/tests");
    let file = FileEntry {
        name: "test".to_string(),
        variant: FileVariant::File {
            size: Some(10),
            permissions: None,
            last_modified: Some("2023-10-01 12:00".into()),
            is_matched: false,
        },
    };
    let path = build_full_path(&dir, &file);

    assert_eq!(String::from("/src/ui/tests/test"), path);
}

#[test]
fn mod_current_file() {
    let dir = String::from("/src/ui/tests");
    let files = vec![FileEntry {
        name: "test".to_string(),
        variant: FileVariant::File {
            size: Some(10),
            permissions: None,
            last_modified: Some("2023-10-01 12:00".into()),
            is_matched: false,
        },
    }];
    let mut positions = PositionsMap::new();
    positions.insert(dir.clone(), 0);
    let current_file = get_current_file(&positions, &dir, &files);

    assert_eq!(
        Some(&FileEntry {
            name: "test".to_string(),
            variant: FileVariant::File {
                size: Some(10),
                permissions: None,
                last_modified: Some("2023-10-01 12:00".into()),
                is_matched: false,
            },
        }),
        current_file,
    );
}

#[test]
fn file_entry_full_path() {
    let dir = String::from("/src/ui/tests");
    let file = file("test");
    let path = build_full_path(&dir, &file);

    assert_eq!(String::from("/src/ui/tests/test"), path);
}

#[test]
fn file_entry_current_file() {
    let dir = String::from("/src/ui/tests");
    let files = vec![file("test")];
    let mut positions = PositionsMap::new();
    positions.insert(dir.clone(), 0);
    let current_file = get_current_file(&positions, &dir, &files);

    assert_eq!(Some(&file("test")), current_file);
}

#[test]
fn current_file_past_the_end_is_none() {
    let dir = String::from("/a");
    let files = vec![file("x")];
    let mut positions = PositionsMap::new();
    positions.insert(dir.clone(), 3);
    assert_eq!(None, get_current_file(&positions, &dir, &files));
}

#[test]
fn init_positions() {
    let current_dir = String::from("/src/ui/tests");
    let files = [vec![], vec![file("file1")], vec![]];
    let positions = parse_path_positions(&current_dir, &files);

    assert_eq!(positions.len(), 1);
    assert_eq!(positions.get("/src/ui/tests"), Some(ZERO_POSITION));
}

#[test]
fn init_positions_points_parent_at_current_dir() {
    let current_dir = String::from("/src/ui/tests");
    let files = [vec![dir("lib"), dir("tests")], vec![], vec![]];
    let positions = parse_path_positions(&current_dir, &files);
    assert_eq!(positions.get("/src/ui"), Some(1));
    assert_eq!(positions.len(), 2);
}

#[test]
fn get_position_id() {
    let path = String::from("/src/ui/tests");
    let mut positions = PositionsMap::new();
    positions.insert(path.clone(), 5);

    let position_id = get_position(&positions, &path);

    assert_eq!(position_id, 5);

    let missing_path = String::from("/src/ui/lib");
    let position_id = get_position(&positions, &missing_path);

    assert_eq!(position_id, ZERO_POSITION);
}

#[test]
fn update_positions() {
    let current_dir = String::from("/src/ui/tests");
    let files = [vec![], vec![file("file1")], vec![]];
    let mut positions = parse_path_positions(&current_dir, &files);

    update_dir_position(&mut positions, &current_dir, 5);

    assert_eq!(positions.get("/src/ui/tests"), Some(5));
}

#[test]
fn test_format_bytes() {
    assert_eq!(format_bytes(500), "500 B");
    assert_eq!(format_bytes(2048), "2 K");
    assert_eq!(format_bytes(5_242_880), "5 M");
    assert_eq!(format_bytes(10_737_418_240), "10 G");
    assert_eq!(format_bytes(1_234), "1.21 K");
    assert_eq!(format_bytes(1_234_567), "1.18 M");
    assert_eq!(format_bytes(1_234_567_890), "1.15 G");
}

#[test]
fn format_bytes_edges() {
    assert_eq!(format_bytes(0), "0 B");
    assert_eq!(format_bytes(1023), "1023 B");
    assert_eq!(format_bytes(1024), "1 K");
    assert_eq!(format_bytes(1536), "1.5 K");
    // 1.125 K: a tie at two decimals goes to the even digit
    assert_eq!(format_bytes(1152), "1.12 K");
    assert_eq!(format_bytes(1_999), "1.95 K");
    assert_eq!(format_bytes(3 << 30), "3 G");
}

#[test]
fn format_bytes_agrees_with_float_formatting() {
    for bytes in [1_100u64, 1_152, 1_999, 3_000, 1_050_000, 7_777_777, 123_456_789_012] {
        let (unit, letter) = if bytes >= 1 << 30 {
            ((1u64 << 30) as f64, "G")
        } else if bytes >= 1 << 20 {
            ((1u64 << 20) as f64, "M")
        } else {
            (1024.0, "K")
        };
        let n = bytes as f64 / unit;
        let text = if n.fract() == 0.0 {
            format!("{:.0}", n)
        } else if (n * 10.0).fract() == 0.0 {
            format!("{:.1}", n)
        } else {
            format!("{:.2}", n)
        };
        assert_eq!(format_bytes(bytes), format!("{} {}", text, letter));
    }
}

#[test]
fn test_permissions_all() {
    assert_eq!(permissions_to_string(0o777), "rwxrwxrwx");
}

#[test]
fn test_permissions_none() {
    assert_eq!(permissions_to_string(0o000), "---------");
}

#[test]
fn test_permissions_mixed() {
    assert_eq!(permissions_to_string(0o754), "rwxr-xr--");
}

#[test]
fn test_unique_when_not_exists() {
    let path = String::from("/tmp/d/file.txt");
    let result = uniquify_path(&path, &vec![]);
    assert_eq!(result, path);
}

#[test]
fn test_unique_with_extension() {
    let path = String::from("/tmp/d/file.txt");
    let result = uniquify_path(&path, &vec![path.clone()]);
    assert!(result.ends_with("file_1.txt"));
    assert_eq!(result, "/tmp/d/file_1.txt");
}

#[test]
fn test_unique_without_extension() {
    let path = String::from("/tmp/d/file");
    let result = uniquify_path(&path, &vec![path.clone()]);
    assert!(result.ends_with("file_1"));
}

#[test]
fn test_unique_multiple_collisions() {
    let path = String::from("/tmp/d/data.log");
    let taken = vec![path.clone(), String::from("/tmp/d/data_1.log")];
    let result = uniquify_path(&path, &taken);
    assert!(result.ends_with("data_2.log"));
}

#[test]
fn unique_keeps_free_name_next_to_numbered_one() {
    let path = String::from("/tmp/d/data.log");
    let taken = vec![String::from("/tmp/d/data_1.log")];
    assert_eq!(uniquify_path(&path, &taken), "/tmp/d/data.log");
}

#[test]
fn unique_name_collisions_count_up() {
    let path = String::from("/tmp/d/file.txt");
    let mut taken = vec![path.clone()];
    let first = uniquify_path(&path, &taken);
    assert_eq!(first, "/tmp/d/file_1.txt");
    taken.push(first);
    let second = uniquify_path(&path, &taken);
    assert_eq!(second, "/tmp/d/file_2.txt");
}

#[test]
fn unique_hidden_and_multi_dot_names() {
    let hidden = String::from("/h/.bashrc");
    assert_eq!(uniquify_path(&hidden, &vec![hidden.clone()]), "/h/.bashrc_1");
    let archive = String::from("a.tar.gz");
    assert_eq!(uniquify_path(&archive, &vec![archive.clone()]), "a.tar_1.gz");
}

#[test]
fn paths_split_and_join() {
    assert_eq!(join_path("/", "a"), "/a");
    assert_eq!(join_path("/a/", "b"), "/a/b");
    assert_eq!(join_path("/a", "/etc"), "/etc");
    assert_eq!(join_path("", "b"), "b");
    assert_eq!(parent_path("/a/b"), Some(String::from("/a")));
    assert_eq!(parent_path("/a/b/"), Some(String::from("/a")));
    assert_eq!(parent_path("/a"), Some(String::from("/")));
    assert_eq!(parent_path("/"), None);
    assert_eq!(parent_path("a"), Some(String::new()));
    assert_eq!(file_name_path("/a/b.txt"), Some(String::from("b.txt")));
    assert_eq!(file_name_path("/"), None);
}

#[test]
fn listing_is_sorted_directories_first_case_insensitive() {
    let entries = vec![file("b.txt"), dir("Zeta"), file("A.md"), dir("alpha"), file("c")];
    let listing = stranger::columns::parse_dir_files(entries, &None);
    assert_eq!(names(&listing), vec!["alpha", "Zeta", "A.md", "b.txt", "c"]);
    assert_eq!(count_matched_files(&listing), 0);
}

#[test]
fn listing_flags_case_insensitive_prefix() {
    let entries = vec![file("Readme.md"), file("src.rs"), dir("READ")];
    let listing = stranger::columns::parse_dir_files(entries, &Some(String::from("rEa")));
    assert_eq!(count_matched_files(&listing), 2);
    assert!(listing[0].variant.is_matched());
    assert_eq!(listing[0].name, "READ");
    assert!(listing[1].variant.is_matched());
    assert!(!listing[2].variant.is_matched());
}

#[test]
fn columns_around_cursor() {
    let cols = MillerColumns::build_columns(
        &String::from("/tmp/t"),
        0,
        None,
        vec![dir("t"), file("x")],
        vec![file("b.txt"), dir("A")],
    );
    assert_eq!(names(&cols.files[1]), vec!["A", "b.txt"]);
    assert!(cols.files[1][0].variant.is_directory());
    assert_eq!(cols.dirs[0], DirEntry { dir_name: Some(String::from("/tmp")), with_meta: false });
    assert_eq!(cols.dirs[1], DirEntry { dir_name: Some(String::from("/tmp/t")), with_meta: true });
    assert_eq!(cols.dirs[2], DirEntry { dir_name: Some(String::from("/tmp/t/A")), with_meta: true });
    let on_file = MillerColumns::build_columns(&String::from("/tmp/t"), 1, None, vec![], vec![file("b.txt"), dir("A")]);
    assert_eq!(on_file.dirs[2], DirEntry::empty_dir());
    let root = MillerColumns::build_columns(&String::from("/"), 0, None, vec![file("ignored")], vec![]);
    assert_eq!(root.dirs[0].dir_name, None);
    assert!(root.files[0].is_empty());
}

#[test]
fn miller_columns_start_at_first_entry() {
    let files = build_miller_columns(&String::from("/tmp/t"), vec![dir("t")], vec![file("b"), dir("a")]);
    assert_eq!(names(&files[1]), vec!["a", "b"]);
    assert_eq!(names(&files[0]), vec!["t"]);
    assert!(files[2].is_empty());
    assert!(MillerColumns::check_is_current_dir_is_not_empty(&files[1]));
    assert!(!MillerColumns::check_is_current_dir_is_not_empty(&files[2]));
}

#[test]
fn modal_kind_queries() {
    assert!(ModalKind::Disabled.is_disabled());
    assert!(!ModalKind::Disabled.is_enabled());
    assert!(ModalKind::BottomLine.is_enabled());
    assert!(ModalKind::HintBar { mode: stranger::model::HintBarMode::Delete }.is_hint_bar());
    assert!(ModalKind::UnderLine { action: stranger::model::UnderLineModalAction::Add }.is_underline());
}

#[test]
fn messages_by_key() {
    assert_eq!(Lang::en("insert_mode"), "--INSERT--");
    assert_eq!(Lang::en("nope"), "Unknown message");
    assert_eq!(Lang::en_fmt("deleted", &vec![String::from("3")]), "Deleted 3 items!");
    assert_eq!(
        Lang::en_fmt("moved_with_error", &vec![String::from("1"), String::from("2"), String::from("a, b")]),
        "Moved 1 items! Failed 2 files: a, b"
    );
    assert_eq!(Lang::en_fmt("deleted", &vec![]), "Invalid format: Deleted {} items!");
}
