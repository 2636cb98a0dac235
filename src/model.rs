//! The value types of the browser state: modes, modal overlays,
//! notifications, the clipboard, and the requests handed to the caller.
use vstd::prelude::*;

verus! {

/// The primary mode.
#[derive(Debug, Clone, Copy, PartialEq, Eq, Structural)]
pub enum Mode {
    Normal,
    Insert,
    Visual { init: bool },
    Bookmarks { position_id: usize },
    Search,
}

/// What an edit line under the cursor is for.
#[derive(Debug, Clone, Copy, PartialEq, Eq, Structural)]
pub enum UnderLineModalAction {
    Add,
    Edit,
    Bookmarks,
}

/// The sub-menus a hint bar offers.
#[derive(Debug, Clone, Copy, PartialEq, Eq, Structural)]
pub enum HintBarMode {
    Bookmarks,
    Delete,
    Exit,
}

/// The overlay shown over the columns.
#[derive(Debug, Clone, Copy, PartialEq, Eq, Structural)]
pub enum ModalKind {
    UnderLine { action: UnderLineModalAction },
    BottomLine,
    HintBar { mode: HintBarMode },
    Disabled,
}

impl ModalKind {
    pub fn is_disabled(&self) -> (r: bool)
        ensures
            r == (*self is Disabled),
    {
        matches!(self, ModalKind::Disabled)
    }

    pub fn is_underline(&self) -> (r: bool)
        ensures
            r == (*self is UnderLine),
    {
        matches!(self, ModalKind::UnderLine { .. })
    }

    pub fn is_bottom_line(&self) -> (r: bool)
        ensures
            r == (*self is BottomLine),
    {
        matches!(self, ModalKind::BottomLine)
    }

    pub fn is_hint_bar(&self) -> (r: bool)
        ensures
            r == (*self is HintBar),
    {
        matches!(self, ModalKind::HintBar { .. })
    }

    pub fn is_enabled(&self) -> (r: bool)
        ensures
            r == !(*self is Disabled),
    {
        !self.is_disabled()
    }
}

/// The text shown to the user after an action, with its severity.
#[derive(Debug, Clone, PartialEq)]
pub enum Notification {
    Info { msg: String },
    Success { msg: String },
    Warn { msg: String },
    Error { msg: String },
}

impl Notification {
    pub open spec fn spec_msg(&self) -> Seq<char> {
        match self {
            Notification::Info { msg } => msg@,
            Notification::Success { msg } => msg@,
            Notification::Warn { msg } => msg@,
            Notification::Error { msg } => msg@,
        }
    }

    /// The notification's text.
    pub fn msg(&self) -> (r: &String)
        ensures
            r@ == self.spec_msg(),
    {
        match self {
            Notification::Info { msg } => msg,
            Notification::Success { msg } => msg,
            Notification::Warn { msg } => msg,
            Notification::Error { msg } => msg,
        }
    }
}

/// Whether pasting keeps the sources (Copy) or removes them (Cut).
#[derive(Debug, Clone, Copy, PartialEq, Eq, Structural)]
pub enum ClipboardAction {
    Copy,
    Cut,
}

/// Paths staged for pasting, with what pasting does to their sources.
#[derive(Debug, Clone, PartialEq)]
pub enum Clipboard {
    File { items: Vec<String>, action: ClipboardAction },
}

/// How entries are deleted.
#[derive(Debug, Clone, Copy, PartialEq, Eq, Structural)]
pub enum DeleteMode {
    Trash,
    Permanent,
}

/// What an existing path is on disk.
#[derive(Debug, Clone, Copy, PartialEq, Eq, Structural)]
pub enum PathKind {
    Directory,
    File,
    Other,
}

/// A change to the file system that a committed edit line asks for.
#[derive(Debug, Clone, PartialEq)]
pub enum FileRequest {
    /// Create a file, or a directory when `is_dir`, with any missing parents.
    Create { path: String, is_dir: bool },
    /// Move `from` to `to`.
    Rename { from: String, to: String },
    /// Write the configuration back to its file.
    SaveConfig,
}

/// A program to run with the terminal handed over to it.
#[derive(Debug, Clone, PartialEq)]
pub struct ExternalCommand {
    pub program: String,
    pub args: Vec<String>,
}

} // verus!
