//! The interactive core of a modal, terminal-based text editor: the mode
//! state machine, the token-aware movement engine, and the pipeline from
//! buffer and viewport to terminal cells.
//!
//! Text storage, lexing, path search and padding are the work of scribe,
//! luthor, bloodhound and pad. What the library assumes of them is stated
//! where each is called: in `storage`, `token`, the open mode, and the
//! view's `terminal`.
pub mod buffer;
pub mod commands;
pub mod helpers;
pub mod input;
pub mod models;
pub mod presenters;
pub mod storage;
pub mod text;
pub mod token;
pub mod view;
