//! The application: the active mode, the workspace, the view and the
//! clipboard.
pub mod clipboard;
pub mod modes;

pub use self::clipboard::{Clipboard, ClipboardContent};

use vstd::prelude::*;
use self::modes::{
    InsertMode,
    JumpMode,
    LineJumpMode,
    OpenMode,
    SearchInsertMode,
    SelectLineMode,
    SelectMode,
    SymbolJumpMode,
};

verus! {

/// git2's handle on a repository. The application carries it for the
/// caller; nothing here looks inside it.
#[verifier::external_type_specification]
#[verifier::external_body]
pub struct ExRepository(git2::Repository);

pub enum Mode {
    Normal,
    Insert(InsertMode),
    Jump(JumpMode),
    LineJump(LineJumpMode),
    SymbolJump(SymbolJumpMode),
    Open(OpenMode),
    Select(SelectMode),
    SelectLine(SelectLineMode),
    SearchInsert(SearchInsertMode),
    Exit,
}

pub struct Application {
    pub mode: Mode,
    pub workspace: scribe::Workspace,
    pub search_query: Option<String>,
    pub view: crate::view::View,
    pub clipboard: Clipboard,
    pub repository: Option<git2::Repository>,
}

/// Builds the application in normal mode around a workspace, a view onto
/// the terminal, and the repository of the working directory, if it is in
/// one.
pub fn new(
    workspace: scribe::Workspace,
    view: crate::view::View,
    repository: Option<git2::Repository>,
) -> (r: Application)
    ensures
        r.mode is Normal,
        r.workspace == workspace,
        r.search_query is None,
        r.view == view,
        r.clipboard.held() is Empty,
        r.repository == repository,
{
    Application {
        mode: Mode::Normal,
        workspace,
        search_query: None,
        view,
        clipboard: Clipboard::new(),
        repository,
    }
}

} // verus!
