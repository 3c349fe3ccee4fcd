//! The clipboard register.
use vstd::prelude::*;

verus! {

/// What the clipboard holds: text cut from within a line, or whole lines.
pub enum ClipboardContent {
    Inline(String),
    Block(String),
    Empty,
}

/// What kind of content the clipboard holds.
#[derive(Clone, Copy, Debug, PartialEq, Eq, Structural)]
pub enum ContentKind {
    Inline,
    Block,
    Empty,
}

impl ClipboardContent {
    pub open spec fn kind(self) -> ContentKind {
        match self {
            ClipboardContent::Inline(_) => ContentKind::Inline,
            ClipboardContent::Block(_) => ContentKind::Block,
            ClipboardContent::Empty => ContentKind::Empty,
        }
    }

    /// The text that is held, or no text in an empty clipboard.
    pub open spec fn text(self) -> Seq<char> {
        match self {
            ClipboardContent::Inline(content) => content@,
            ClipboardContent::Block(content) => content@,
            ClipboardContent::Empty => Seq::empty(),
        }
    }
}

pub struct Clipboard {
    content: ClipboardContent,
}

impl Clipboard {
    pub closed spec fn held(&self) -> ClipboardContent {
        self.content
    }

    pub fn new() -> (r: Clipboard)
        ensures
            r.held() is Empty,
    {
        Clipboard { content: ClipboardContent::Empty }
    }

    pub fn get_content(&self) -> (r: &ClipboardContent)
        ensures
            *r == self.held(),
    {
        &self.content
    }

    pub fn set_content(&mut self, content: ClipboardContent)
        ensures
            final(self).held() == content,
    {
        self.content = content;
    }
}

} // verus!
