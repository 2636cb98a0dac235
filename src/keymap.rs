//! The keymap: which intent a key stands for in each mode and overlay.
use vstd::prelude::*;
use crate::model::{ClipboardAction, DeleteMode, HintBarMode, ModalKind, Mode};

verus! {

/// A key, as the terminal reports it.
#[derive(Debug, Clone, Copy, PartialEq, Eq, Structural)]
pub enum KeyCode {
    Char(char),
    Up,
    Down,
    Left,
    Right,
    Enter,
    Esc,
    Other,
}

/// A key with its modifiers.
#[derive(Debug, Clone, Copy, PartialEq, Eq, Structural)]
pub struct KeyInput {
    pub code: KeyCode,
    pub ctrl: bool,
    pub shift: bool,
}

/// What the user asks for.
#[derive(Debug, Clone, Copy, PartialEq, Eq, Structural)]
pub enum Intent {
    Quit,
    CursorUp(usize),
    CursorDown(usize),
    ToParent,
    ToChildOrExec,
    ToggleHidden,
    Rename,
    Add,
    CopyToClipboard(ClipboardAction),
    Paste,
    EnterVisual,
    MarkAndDown,
    OpenHintBar(HintBarMode),
    HideHintBar,
    Search,
    ExitSearch,
    NextMatch,
    PreviousMatch,
    EnterBookmarks,
    AddBookmark,
    Delete(DeleteMode),
    /// Commit the edit line of a create, rename or bookmark.
    Commit,
    /// Commit the search line.
    CommitSearch,
    /// Leave the current mode for Normal.
    ToNormal,
    /// A key typed into the edit line.
    EditLine,
    BookmarkUp,
    BookmarkDown,
    BookmarkDelete,
    BookmarkOpen,
    /// The key means nothing here.
    Nothing,
}

/// Rows moved by the half-page keys.
pub const PAGE_STEP: usize = 25;

/// The longest text the edit line takes, in bytes.
pub const EDIT_LINE_LIMIT: usize = 255;

/// Whether the edit line, holding `len` bytes, takes another typed key.
pub fn edit_line_accepts(len: usize) -> (r: bool)
    ensures
        r == (len < EDIT_LINE_LIMIT),
{
    len < EDIT_LINE_LIMIT
}

/// The intent of a key in a hint bar's sub-menu.
pub open spec fn hint_bar_intent(mode: HintBarMode, key: KeyInput) -> Intent {
    match (mode, key.code) {
        (_, KeyCode::Esc) => Intent::HideHintBar,
        (HintBarMode::Bookmarks, KeyCode::Char('b')) => Intent::EnterBookmarks,
        (HintBarMode::Bookmarks, KeyCode::Char('a')) => Intent::AddBookmark,
        (HintBarMode::Bookmarks, KeyCode::Char('q')) => Intent::HideHintBar,
        (HintBarMode::Delete, KeyCode::Char('d')) => Intent::CopyToClipboard(ClipboardAction::Cut),
        (HintBarMode::Delete, KeyCode::Char('D')) => Intent::Delete(DeleteMode::Trash),
        (HintBarMode::Delete, KeyCode::Char('x')) => Intent::Delete(DeleteMode::Permanent),
        (HintBarMode::Delete, KeyCode::Char('q')) => Intent::HideHintBar,
        (HintBarMode::Exit, KeyCode::Char('z')) => Intent::Quit,
        (HintBarMode::Exit, KeyCode::Char('Z')) => Intent::Quit,
        (HintBarMode::Exit, KeyCode::Char('q')) => Intent::Quit,
        (HintBarMode::Exit, KeyCode::Char('Q')) => Intent::Quit,
        _ => Intent::Nothing,
    }
}

/// The intent of a key in Normal and Search mode without a hint bar.
pub open spec fn normal_intent(mode: Mode, key: KeyInput) -> Intent {
    match key.code {
        KeyCode::Char('q') => Intent::Quit,
        KeyCode::Char('k') | KeyCode::Up => Intent::CursorUp(1),
        KeyCode::Char('j') | KeyCode::Down => Intent::CursorDown(1),
        KeyCode::Char('h') | KeyCode::Left => if key.ctrl { Intent::ToggleHidden } else { Intent::ToParent },
        KeyCode::Char('l') | KeyCode::Right => Intent::ToChildOrExec,
        KeyCode::Char('r') => Intent::Rename,
        KeyCode::Char('a') => Intent::Add,
        KeyCode::Char('y') => Intent::CopyToClipboard(ClipboardAction::Copy),
        KeyCode::Char('p') => Intent::Paste,
        KeyCode::Char('v') => Intent::EnterVisual,
        KeyCode::Char(' ') => Intent::MarkAndDown,
        KeyCode::Char('b') => Intent::OpenHintBar(HintBarMode::Bookmarks),
        KeyCode::Char('z') | KeyCode::Char('Z') => Intent::OpenHintBar(HintBarMode::Exit),
        KeyCode::Char('d') => if key.ctrl { Intent::CursorDown(PAGE_STEP) } else { Intent::OpenHintBar(HintBarMode::Delete) },
        KeyCode::Char('u') => if key.ctrl { Intent::CursorUp(PAGE_STEP) } else { Intent::Nothing },
        KeyCode::Char('/') => Intent::Search,
        KeyCode::Esc => Intent::ExitSearch,
        KeyCode::Char('n') => if mode == Mode::Search {
            if key.shift { Intent::PreviousMatch } else { Intent::NextMatch }
        } else {
            Intent::Nothing
        },
        KeyCode::Char('N') => if mode == Mode::Search { Intent::PreviousMatch } else { Intent::Nothing },
        _ => Intent::Nothing,
    }
}

/// The intent of a key in a mode, under an overlay: a hint bar takes the
/// key first in Normal and Search mode; in Insert mode, Enter commits the
/// search line under the bottom line and the edit line otherwise.
pub open spec fn intent_for(mode: Mode, modal: ModalKind, key: KeyInput) -> Intent {
    match mode {
        Mode::Normal | Mode::Search => match modal {
            ModalKind::HintBar { mode: hint } => hint_bar_intent(hint, key),
            _ => normal_intent(mode, key),
        },
        Mode::Insert => match key.code {
            KeyCode::Enter => if modal is BottomLine { Intent::CommitSearch } else { Intent::Commit },
            KeyCode::Esc => Intent::ToNormal,
            _ => Intent::EditLine,
        },
        Mode::Visual { .. } => match key.code {
            KeyCode::Char('k') | KeyCode::Up => Intent::CursorUp(1),
            KeyCode::Char('j') | KeyCode::Down => Intent::CursorDown(1),
            KeyCode::Char('[') => if key.ctrl { Intent::ToNormal } else { Intent::Nothing },
            KeyCode::Esc | KeyCode::Char('v') => Intent::ToNormal,
            _ => Intent::Nothing,
        },
        Mode::Bookmarks { .. } => match key.code {
            KeyCode::Char('q') | KeyCode::Esc => Intent::ToNormal,
            KeyCode::Char('k') | KeyCode::Up => Intent::BookmarkUp,
            KeyCode::Char('j') | KeyCode::Down => Intent::BookmarkDown,
            KeyCode::Char('d') => Intent::BookmarkDelete,
            KeyCode::Char('l') | KeyCode::Enter => Intent::BookmarkOpen,
            _ => Intent::Nothing,
        },
    }
}

fn hint_bar_intent_of(mode: HintBarMode, key: KeyInput) -> (r: Intent)
    ensures
        r == hint_bar_intent(mode, key),
{
    match (mode, key.code) {
        (_, KeyCode::Esc) => Intent::HideHintBar,
        (HintBarMode::Bookmarks, KeyCode::Char('b')) => Intent::EnterBookmarks,
        (HintBarMode::Bookmarks, KeyCode::Char('a')) => Intent::AddBookmark,
        (HintBarMode::Bookmarks, KeyCode::Char('q')) => Intent::HideHintBar,
        (HintBarMode::Delete, KeyCode::Char('d')) => Intent::CopyToClipboard(ClipboardAction::Cut),
        (HintBarMode::Delete, KeyCode::Char('D')) => Intent::Delete(DeleteMode::Trash),
        (HintBarMode::Delete, KeyCode::Char('x')) => Intent::Delete(DeleteMode::Permanent),
        (HintBarMode::Delete, KeyCode::Char('q')) => Intent::HideHintBar,
        (HintBarMode::Exit, KeyCode::Char('z')) => Intent::Quit,
        (HintBarMode::Exit, KeyCode::Char('Z')) => Intent::Quit,
        (HintBarMode::Exit, KeyCode::Char('q')) => Intent::Quit,
        (HintBarMode::Exit, KeyCode::Char('Q')) => Intent::Quit,
        _ => Intent::Nothing,
    }
}

fn normal_intent_of(mode: Mode, key: KeyInput) -> (r: Intent)
    ensures
        r == normal_intent(mode, key),
{
    match key.code {
        KeyCode::Char('q') => Intent::Quit,
        KeyCode::Char('k') | KeyCode::Up => Intent::CursorUp(1),
        KeyCode::Char('j') | KeyCode::Down => Intent::CursorDown(1),
        KeyCode::Char('h') | KeyCode::Left => if key.ctrl { Intent::ToggleHidden } else { Intent::ToParent },
        KeyCode::Char('l') | KeyCode::Right => Intent::ToChildOrExec,
        KeyCode::Char('r') => Intent::Rename,
        KeyCode::Char('a') => Intent::Add,
        KeyCode::Char('y') => Intent::CopyToClipboard(ClipboardAction::Copy),
        KeyCode::Char('p') => Intent::Paste,
        KeyCode::Char('v') => Intent::EnterVisual,
        KeyCode::Char(' ') => Intent::MarkAndDown,
        KeyCode::Char('b') => Intent::OpenHintBar(HintBarMode::Bookmarks),
        KeyCode::Char('z') | KeyCode::Char('Z') => Intent::OpenHintBar(HintBarMode::Exit),
        KeyCode::Char('d') => if key.ctrl { Intent::CursorDown(PAGE_STEP) } else { Intent::OpenHintBar(HintBarMode::Delete) },
        KeyCode::Char('u') => if key.ctrl { Intent::CursorUp(PAGE_STEP) } else { Intent::Nothing },
        KeyCode::Char('/') => Intent::Search,
        KeyCode::Esc => Intent::ExitSearch,
        KeyCode::Char('n') => if mode == Mode::Search {
            if key.shift { Intent::PreviousMatch } else { Intent::NextMatch }
        } else {
            Intent::Nothing
        },
        KeyCode::Char('N') => if mode == Mode::Search { Intent::PreviousMatch } else { Intent::Nothing },
        _ => Intent::Nothing,
    }
}

/// The intent of `key` in `mode` under `modal` (see `intent_for`).
pub fn intent_of(mode: Mode, modal: ModalKind, key: KeyInput) -> (r: Intent)
    ensures
        r == intent_for(mode, modal, key),
{
    match mode {
        Mode::Normal | Mode::Search => match modal {
            ModalKind::HintBar { mode: hint } => hint_bar_intent_of(hint, key),
            _ => normal_intent_of(mode, key),
        },
        Mode::Insert => match key.code {
            KeyCode::Enter => if modal.is_bottom_line() { Intent::CommitSearch } else { Intent::Commit },
            KeyCode::Esc => Intent::ToNormal,
            _ => Intent::EditLine,
        },
        Mode::Visual { .. } => match key.code {
            KeyCode::Char('k') | KeyCode::Up => Intent::CursorUp(1),
            KeyCode::Char('j') | KeyCode::Down => Intent::CursorDown(1),
            KeyCode::Char('[') => if key.ctrl { Intent::ToNormal } else { Intent::Nothing },
            KeyCode::Esc | KeyCode::Char('v') => Intent::ToNormal,
            _ => Intent::Nothing,
        },
        Mode::Bookmarks { .. } => match key.code {
            KeyCode::Char('q') | KeyCode::Esc => Intent::ToNormal,
            KeyCode::Char('k') | KeyCode::Up => Intent::BookmarkUp,
            KeyCode::Char('j') | KeyCode::Down => Intent::BookmarkDown,
            KeyCode::Char('d') => Intent::BookmarkDelete,
            KeyCode::Char('l') | KeyCode::Enter => Intent::BookmarkOpen,
            _ => Intent::Nothing,
        },
    }
}

} // verus!
