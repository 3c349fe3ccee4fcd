//! Plain coordinate values shared by the movement engine and the viewport.
pub mod line_range;
pub mod position;
pub mod range;

pub use self::line_range::LineRange;
pub use self::position::Position;
pub use self::range::Range;
