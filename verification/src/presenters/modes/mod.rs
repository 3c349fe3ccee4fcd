pub mod jump;
pub mod open;
pub mod select_line;
pub mod standard;
