//! The window of lines that a viewport shows of a buffer.
use vstd::prelude::*;
use crate::buffer::line_range::LineRange;

verus! {

/// Where an absolute line stands with respect to the visible window.
#[derive(Clone, Copy, Debug, PartialEq, Eq, Structural)]
pub enum Visibility {
    AboveRegion,
    Visible(usize),
    BelowRegion,
}

/// A window of `height` lines that starts at line `line_offset`.
#[derive(Clone, Copy, Debug, PartialEq, Eq, Structural)]
pub struct ScrollableRegion {
    height: usize,
    line_offset: usize,
}

/// `a + b`, held at the largest offset there is.
pub open spec fn saturating_sum(a: int, b: int) -> int {
    if a + b > usize::MAX {
        usize::MAX as int
    } else {
        a + b
    }
}

/// `a - b`, held at zero.
pub open spec fn saturating_difference(a: int, b: int) -> int {
    if a < b {
        0
    } else {
        a - b
    }
}

/// Whether a window of `height` lines at `offset` shows `line`.
pub open spec fn shows(offset: int, height: int, line: int) -> bool {
    0 <= line - offset < height
}

/// The offset nearest to `offset` at which a window of `height` lines shows
/// `line`: the line goes to the top edge where it was above the window, to
/// the bottom edge where it was below, and the window stays put where it
/// already shows the line. A window without height keeps the line at its
/// top edge.
pub open spec fn offset_showing(offset: int, height: int, line: int) -> int {
    if line < offset || height == 0 {
        line
    } else if line - offset >= height {
        line - height + 1
    } else {
        offset
    }
}

impl ScrollableRegion {
    pub closed spec fn spec_height(&self) -> usize {
        self.height
    }

    pub closed spec fn spec_line_offset(&self) -> usize {
        self.line_offset
    }

    /// Where an absolute line falls, and at which row if it is shown.
    pub open spec fn spec_relative_position(&self, line: usize) -> Visibility {
        if line < self.line_offset() {
            Visibility::AboveRegion
        } else if line - self.line_offset() >= self.height() {
            Visibility::BelowRegion
        } else {
            Visibility::Visible((line - self.line_offset()) as usize)
        }
    }

    /// The window of a height at an offset.
    pub closed spec fn spec_at(height: usize, line_offset: usize) -> ScrollableRegion {
        ScrollableRegion { height, line_offset }
    }

    /// A window of the given height at the top of the buffer.
    pub fn new(height: usize) -> (r: ScrollableRegion)
        ensures
            r.height() == height,
            r.line_offset() == 0,
    {
        ScrollableRegion { height, line_offset: 0 }
    }

    /// A window of the given height at the given offset.
    #[verifier::when_used_as_spec(spec_at)]
    pub fn at(height: usize, line_offset: usize) -> (r: ScrollableRegion)
        ensures
            r == Self::at(height, line_offset),
            r.height() == height,
            r.line_offset() == line_offset,
    {
        ScrollableRegion { height, line_offset }
    }

    #[verifier::when_used_as_spec(spec_height)]
    pub fn height(&self) -> (r: usize)
        ensures
            r == self.height(),
    {
        self.height
    }

    #[verifier::when_used_as_spec(spec_line_offset)]
    pub fn line_offset(&self) -> (r: usize)
        ensures
            r == self.line_offset(),
    {
        self.line_offset
    }

    /// The lines of the window: from the offset up to, and without, the
    /// line `height` further down.
    pub fn visible_range(&self) -> (r: LineRange)
        ensures
            r.start() == self.line_offset(),
            r.end() == saturating_sum(self.line_offset() as int, self.height() as int),
    {
        LineRange::new(self.line_offset, self.line_offset.saturating_add(self.height))
    }

    /// Moves the window, if it must, so that it shows the line.
    pub fn scroll_into_view(&mut self, line: usize)
        ensures
            final(self).height() == old(self).height(),
            final(self).line_offset() == offset_showing(
                old(self).line_offset() as int,
                old(self).height() as int,
                line as int,
            ),
    {
        if line < self.line_offset || self.height == 0 {
            self.line_offset = line;
        } else if line - self.line_offset >= self.height {
            self.line_offset = line - self.height + 1;
        }
    }

    /// Moves the window up by `amount` lines, stopping at the top.
    pub fn scroll_up(&mut self, amount: usize)
        ensures
            final(self).height() == old(self).height(),
            final(self).line_offset() == saturating_difference(
                old(self).line_offset() as int,
                amount as int,
            ),
    {
        self.line_offset = self.line_offset.saturating_sub(amount);
    }

    /// Moves the window down by `amount` lines.
    pub fn scroll_down(&mut self, amount: usize)
        ensures
            final(self).height() == old(self).height(),
            final(self).line_offset() == saturating_sum(
                old(self).line_offset() as int,
                amount as int,
            ),
    {
        self.line_offset = self.line_offset.saturating_add(amount);
    }

    /// Converts an absolute line to a row of the window.
    #[verifier::when_used_as_spec(spec_relative_position)]
    pub fn relative_position(&self, line: usize) -> (r: Visibility)
        ensures
            r == self.relative_position(line),
    {
        if line < self.line_offset {
            Visibility::AboveRegion
        } else if line - self.line_offset >= self.height {
            Visibility::BelowRegion
        } else {
            Visibility::Visible(line - self.line_offset)
        }
    }
}

/// An offset never goes below zero, whatever is scrolled by whatever amount.
pub proof fn lemma_scrolling_stays_in_range(offset: int, amount: int)
    requires
        0 <= offset <= usize::MAX,
        0 <= amount <= usize::MAX,
    ensures
        0 <= saturating_difference(offset, amount) <= offset,
        offset <= saturating_sum(offset, amount) <= usize::MAX,
        saturating_difference(0, amount) == 0,
{
}

/// A window made at a height and an offset has that height and that
/// offset.
pub proof fn lemma_region_at(height: usize, line_offset: usize)
    ensures
        ScrollableRegion::at(height, line_offset).height() == height,
        ScrollableRegion::at(height, line_offset).line_offset() == line_offset,
{
}

/// One request to scroll: up or down, by a number of lines.
pub enum Scroll {
    Up(usize),
    Down(usize),
}

/// The offset after a sequence of scroll requests, made from `offset`.
pub open spec fn scrolled(offset: int, steps: Seq<Scroll>) -> int
    decreases steps.len(),
{
    if steps.len() == 0 {
        offset
    } else {
        let before = scrolled(offset, steps.drop_last());
        match steps.last() {
            Scroll::Up(amount) => saturating_difference(before, amount as int),
            Scroll::Down(amount) => saturating_sum(before, amount as int),
        }
    }
}

/// Whatever is scrolled in whatever order, the offset is never negative.
pub proof fn lemma_scrolled_never_negative(offset: int, steps: Seq<Scroll>)
    requires
        0 <= offset <= usize::MAX,
    ensures
        0 <= scrolled(offset, steps) <= usize::MAX,
    decreases steps.len(),
{
    if steps.len() > 0 {
        lemma_scrolled_never_negative(offset, steps.drop_last());
    }
}

/// After the window was moved to show a line it shows that line, provided
/// it has any height; and it then stays where it is, however often it is
/// asked to show the same line again.
pub proof fn lemma_offset_showing_idempotent(offset: int, height: int, line: int)
    requires
        0 <= offset,
        0 <= height,
        0 <= line,
    ensures
        0 <= offset_showing(offset, height, line) <= line,
        height > 0 ==> shows(offset_showing(offset, height, line), height, line),
        shows(offset, height, line) ==> offset_showing(offset, height, line) == offset,
        offset_showing(offset_showing(offset, height, line), height, line) == offset_showing(
            offset,
            height,
            line,
        ),
{
}

/// A line is shown exactly when it has a row in the window, and its row is
/// its distance from the offset.
pub proof fn lemma_relative_position(region: ScrollableRegion, line: usize)
    ensures
        shows(region.line_offset() as int, region.height() as int, line as int)
            <==> region.relative_position(line) is Visible,
        region.relative_position(line) matches Visibility::Visible(row) ==> row == line
            - region.line_offset() && row < region.height(),
        region.relative_position(line) is AboveRegion <==> line < region.line_offset(),
{
}

} // verus!
