//! What goes to the terminal: runs of text, and the screen as a whole.
use vstd::prelude::*;
use pad::PadStr;
use crate::buffer::position::Position;
use crate::view::canvas::Cell;
use crate::view::color::{Color, Style};

verus! {

/// A run of text painted from a cell to the right.
#[derive(Debug, PartialEq, Eq)]
pub struct Text {
    pub x: usize,
    pub y: usize,
    pub style: Style,
    pub foreground: Color,
    pub background: Color,
    pub content: String,
}

/// A run of text as a value.
pub struct TextView {
    pub x: usize,
    pub y: usize,
    pub style: Style,
    pub foreground: Color,
    pub background: Color,
    pub content: Seq<char>,
}

impl View for Text {
    type V = TextView;

    open spec fn view(&self) -> TextView {
        TextView {
            x: self.x,
            y: self.y,
            style: self.style,
            foreground: self.foreground,
            background: self.background,
            content: self.content@,
        }
    }
}

/// The runs of text of a sequence, each as a value.
pub open spec fn text_views(texts: Seq<Text>) -> Seq<TextView> {
    texts.map_values(|t: Text| t@)
}

/// The cells that show a buffer, and where the terminal's cursor goes.
pub struct Frame {
    pub cursor: Option<Position>,
    pub cells: Vec<Cell>,
}

/// All that one pass of drawing puts on the terminal, in painting order:
/// the cells of the buffer, then the runs of text, then the cursor.
pub struct Screen {
    pub cells: Vec<Cell>,
    pub texts: Vec<Text>,
    pub cursor: Option<Position>,
}

/// A text padded with spaces on the right to a display width: what
/// `PadStr::pad_to_width` makes of it.
pub uninterp spec fn padded(content: Seq<char>, width: nat) -> Seq<char>;

/// Whether a text is another text followed by nothing but spaces.
pub open spec fn is_padding_of(text: Seq<char>, content: Seq<char>) -> bool {
    &&& content.len() <= text.len()
    &&& text.subrange(0, content.len() as int) == content
    &&& forall|i: int| content.len() <= i < text.len() ==> text[i] == ' '
}

/// `PadStr::pad_to_width`: the text, followed by as many spaces as it
/// takes to fill the width. A text that fills the width comes back as it
/// is.
#[verifier::external_body]
pub(crate) fn pad_to_width(content: &str, width: usize) -> (r: String)
    ensures
        r@ == padded(content@, width as nat),
        is_padding_of(r@, content@),
{
    content.pad_to_width(width)
}

} // verus!
