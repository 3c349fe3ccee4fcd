//! Terminal colors and text styles, and the color of each token category.
use vstd::prelude::*;
use crate::token::Category;

verus! {

/// A terminal color.
#[derive(Clone, Copy, Debug, PartialEq, Eq, Structural)]
pub enum Color {
    Default,
    Black,
    Red,
    Green,
    Yellow,
    Blue,
    Magenta,
    Cyan,
    White,
}

/// A text style of a terminal cell.
#[derive(Clone, Copy, Debug, PartialEq, Eq, Structural)]
pub enum Style {
    Normal,
    Bold,
    Reverse,
}

/// The color that tokens of a category are shown in.
pub open spec fn color_of(category: Category) -> Color {
    match category {
        Category::Keyword => Color::Yellow,
        Category::Identifier => Color::Magenta,
        Category::String => Color::Red,
        Category::Key => Color::Red,
        Category::Literal => Color::Red,
        Category::Boolean => Color::Red,
        Category::Comment => Color::Blue,
        Category::Method => Color::Cyan,
        Category::Function => Color::Cyan,
        Category::Call => Color::Cyan,
        _ => Color::Default,
    }
}

/// Maps a token category to its color.
pub fn map(category: &Category) -> (r: Color)
    ensures
        r == color_of(*category),
{
    match category {
        Category::Keyword => Color::Yellow,
        Category::Identifier => Color::Magenta,
        Category::String => Color::Red,
        Category::Key => Color::Red,
        Category::Literal => Color::Red,
        Category::Boolean => Color::Red,
        Category::Comment => Color::Blue,
        Category::Method => Color::Cyan,
        Category::Function => Color::Cyan,
        Category::Call => Color::Cyan,
        _ => Color::Default,
    }
}

} // verus!
