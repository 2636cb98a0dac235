//! The navigation-and-mode engine of a three-column (Miller columns)
//! directory browser: cursor memory per directory, column listings with
//! their sort order and search flags, the mode state machine, clipboard
//! and batch file-operation bookkeeping, search and bookmarks.
//!
//! Nothing here touches the file system: directory listings and the
//! outcomes of file operations are handed in as plain values.
pub mod text;
pub mod entries;
pub mod paths;
pub mod positions;
pub mod columns;
pub mod utils;
pub mod i18n;
pub mod bookmarks;
pub mod model;
pub mod state;
pub mod search;
pub mod file_ops;
pub mod bookmark_mode;
pub mod keymap;
