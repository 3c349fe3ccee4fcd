pub mod insert;
pub mod jump;
pub mod line_jump;
pub mod open;
pub mod search_insert;
pub mod select;
pub mod select_line;
pub mod symbol_jump;

pub use self::insert::InsertMode;
pub use self::jump::JumpMode;
pub use self::line_jump::LineJumpMode;
pub use self::open::OpenMode;
pub use self::search_insert::SearchInsertMode;
pub use self::select::SelectMode;
pub use self::select_line::SelectLineMode;
pub use self::symbol_jump::SymbolJumpMode;
