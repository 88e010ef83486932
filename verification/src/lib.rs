//! Scrolling state for a fixed-height viewport over line-based content.
//!
//! A [`ScrollableRegion`] owns a viewport height, fixed at construction, and a
//! mutable scroll offset: the absolute number of the line currently at the top
//! of the viewport. It answers which absolute lines are visible, maps an
//! absolute line to a row within the viewport, and moves the offset either by
//! an explicit amount or just far enough to reveal a given line. It does not
//! track content length: clamping at the end of the content is the caller's
//! concern.

use vstd::prelude::*;

verus! {

/// Half-open interval `[start, end)` of absolute line numbers.
#[derive(Clone, Copy, PartialEq, Eq, Structural, Debug)]
pub struct LineRange {
    start: usize,
    end: usize,
}

impl LineRange {
    /// The first line of the interval.
    pub closed spec fn spec_start(self) -> int {
        self.start as int
    }

    /// The first line past the interval.
    pub closed spec fn spec_end(self) -> int {
        self.end as int
    }

    pub fn new(start: usize, end: usize) -> (range: LineRange)
        ensures
            range.spec_start() == start,
            range.spec_end() == end,
    {
        LineRange { start, end }
    }

    pub fn start(&self) -> (line: usize)
        ensures
            line == self.spec_start(),
    {
        self.start
    }

    pub fn end(&self) -> (line: usize)
        ensures
            line == self.spec_end(),
    {
        self.end
    }
}

/// Subtraction clamped at a floor of zero: the offset that scrolling up
/// by `amount` from `offset` leaves behind.
pub open spec fn spec_saturating_sub(offset: int, amount: int) -> int {
    if offset >= amount {
        offset - amount
    } else {
        0
    }
}

/// The offset that brings `line` into a viewport of the given `height`
/// with minimal movement: a line above the range becomes the new top row,
/// a line at or past the end becomes the new bottom row, and a visible
/// line leaves the offset unchanged.
pub open spec fn spec_scroll_target(offset: int, height: int, line: int) -> int {
    if line < offset {
        line
    } else if line >= offset + height {
        line - height + 1
    } else {
        offset
    }
}

/// Abstract representation of a fixed-height section of the screen.
/// Determines visible ranges of lines based on previous state, explicit
/// line focus, and common scrolling behaviours.
pub struct ScrollableRegion {
    height: usize,
    line_offset: usize,
}

/// Where an absolute line sits relative to a region's visible range.
#[derive(PartialEq, Eq, Structural, Debug)]
pub enum Visibility {
    /// The line lies before the visible range.
    AboveRegion,
    /// The line is visible, at this zero-based row within the viewport.
    Visible(usize),
    /// The line lies at or past the end of the visible range.
    BelowRegion,
}

impl ScrollableRegion {
    /// Number of lines the viewport can display at once.
    pub closed spec fn spec_height(self) -> int {
        self.height as int
    }

    /// Absolute number of the line at the top of the viewport.
    pub closed spec fn spec_line_offset(self) -> int {
        self.line_offset as int
    }

    /// First visible line.
    pub open spec fn spec_range_start(self) -> int {
        self.spec_line_offset()
    }

    /// First line past the visible range.
    pub open spec fn spec_range_end(self) -> int {
        self.spec_line_offset() + self.spec_height()
    }

    /// The height of the scrollable region.
    pub fn height(&self) -> (height: usize)
        ensures
            height == self.spec_height(),
    {
        self.height
    }

    /// Determines the visible lines based on the current line offset and height.
    pub fn visible_range(&self) -> (range: LineRange)
        requires
            self.spec_line_offset() + self.spec_height() <= usize::MAX,
        ensures
            range.spec_start() == self.spec_range_start(),
            range.spec_end() == self.spec_range_end(),
    {
        LineRange::new(self.line_offset, self.height + self.line_offset)
    }

    /// Where `line` sits relative to the visible range: before it, within
    /// it at this row, or at or past its end.
    pub open spec fn spec_relative_position(self, line: int) -> Visibility {
        if line < self.spec_line_offset() {
            Visibility::AboveRegion
        } else if line - self.spec_line_offset() >= self.spec_height() {
            Visibility::BelowRegion
        } else {
            Visibility::Visible((line - self.spec_line_offset()) as usize)
        }
    }

    /// If necessary, moves the line offset such that the specified line is
    /// visible, using previous state to determine whether said line is at
    /// the top or bottom of the new visible range.
    pub fn scroll_into_view(&mut self, line: usize)
        requires
            old(self).spec_line_offset() + old(self).spec_height() <= usize::MAX,
            old(self).spec_height() == 0 ==> line < usize::MAX,
        ensures
            final(self).spec_height() == old(self).spec_height(),
            final(self).spec_line_offset() == spec_scroll_target(
                old(self).spec_line_offset(),
                old(self).spec_height(),
                line as int,
            ),
    {
        let range = self.visible_range();
        if line < range.start() {
            self.line_offset = line;
        } else if line >= range.end() {
            self.line_offset = line - self.height + 1;
        }
    }

    /// Converts an absolutely positioned line number into
    /// one relative to the scrollable region's visible range.
    /// The visibility type is based on whether or not the line
    /// is outside of the region's visible range.
    pub fn relative_position(&self, line: usize) -> (position: Visibility)
        ensures
            position == self.spec_relative_position(line as int),
    {
        match line.checked_sub(self.line_offset) {
            Some(relative) => {
                if relative >= self.height {
                    Visibility::BelowRegion
                } else {
                    Visibility::Visible(relative)
                }
            },
            None => Visibility::AboveRegion,
        }
    }

    /// Decreases the line offset by `amount`, clamped at a floor of zero:
    /// scrolling up never underflows.
    pub fn scroll_up(&mut self, amount: usize)
        ensures
            final(self).spec_height() == old(self).spec_height(),
            final(self).spec_line_offset() == spec_saturating_sub(
                old(self).spec_line_offset(),
                amount as int,
            ),
    {
        self.line_offset = match self.line_offset.checked_sub(amount) {
            Some(offset) => offset,
            None => 0,
        };
    }

    /// Increases the line offset by `amount`, unconditionally: the region
    /// has no notion of content length, so no ceiling applies.
    pub fn scroll_down(&mut self, amount: usize)
        requires
            old(self).spec_line_offset() + amount <= usize::MAX,
        ensures
            final(self).spec_height() == old(self).spec_height(),
            final(self).spec_line_offset() == old(self).spec_line_offset() + amount,
    {
        self.line_offset += amount;
    }

    /// The number of lines the region has scrolled over.
    /// A value of zero represents an unscrolled region.
    pub fn line_offset(&self) -> (offset: usize)
        ensures
            offset == self.spec_line_offset(),
    {
        self.line_offset
    }
}

pub fn new(height: usize) -> (region: ScrollableRegion)
    ensures
        region.spec_height() == height,
        region.spec_line_offset() == 0,
{
    ScrollableRegion { height, line_offset: 0 }
}

/// A freshly constructed region — one whose offset is still zero — shows
/// exactly the first `height` lines: its visible range is `[0, height)`.
pub proof fn lemma_fresh_region_shows_top(region: ScrollableRegion)
    requires
        region.spec_line_offset() == 0,
    ensures
        region.spec_range_start() == 0,
        region.spec_range_end() == region.spec_height(),
{
}

/// Scrolling down by `amount` and then up by the same `amount` restores
/// the offset the region started from.
pub proof fn lemma_scroll_round_trip(offset: int, amount: int)
    requires
        0 <= offset,
        0 <= amount,
    ensures
        spec_saturating_sub(offset + amount, amount) == offset,
{
}

/// Scrolling up never drives the offset below zero, however large the
/// amount is relative to the current offset.
pub proof fn lemma_scroll_up_never_underflows(offset: int, amount: int)
    requires
        0 <= offset,
        0 <= amount,
    ensures
        0 <= spec_saturating_sub(offset, amount),
        spec_saturating_sub(offset, amount) <= offset,
{
}

/// The three `Visibility` cases are exhaustive and mutually exclusive:
/// for every line, exactly one of them holds, and each is equivalent to
/// the line's position against the visible range.
pub proof fn lemma_relative_position_exclusive(region: ScrollableRegion, line: int)
    ensures
        region.spec_relative_position(line) is AboveRegion <==> line < region.spec_range_start(),
        region.spec_relative_position(line) is Visible <==> region.spec_range_start() <= line
            < region.spec_range_end(),
        region.spec_relative_position(line) is BelowRegion <==> line >= region.spec_range_end(),
{
}

/// Bringing a line into view is idempotent for a viewport of at least one
/// line: a second call with the same line moves the offset nowhere.
pub proof fn lemma_scroll_into_view_idempotent(offset: int, height: int, line: int)
    requires
        0 <= offset,
        1 <= height,
        0 <= line,
    ensures
        spec_scroll_target(spec_scroll_target(offset, height, line), height, line)
            == spec_scroll_target(offset, height, line),
{
}

/// Bringing into view a line that lay above the visible range puts it at
/// the top: the new range starts exactly at that line.
pub proof fn lemma_scroll_into_view_from_above(
    before: ScrollableRegion,
    after: ScrollableRegion,
    line: int,
)
    requires
        line < before.spec_range_start(),
        after.spec_height() == before.spec_height(),
        after.spec_line_offset() == spec_scroll_target(
            before.spec_line_offset(),
            before.spec_height(),
            line,
        ),
    ensures
        after.spec_range_start() == line,
{
}

/// Bringing into view a line that lay at or past the end of the visible
/// range puts it at the bottom: the new range ends one line past it, so
/// the line lands on the viewport's last row.
pub proof fn lemma_scroll_into_view_from_below(
    before: ScrollableRegion,
    after: ScrollableRegion,
    line: int,
)
    requires
        1 <= before.spec_height(),
        line >= before.spec_range_end(),
        after.spec_height() == before.spec_height(),
        after.spec_line_offset() == spec_scroll_target(
            before.spec_line_offset(),
            before.spec_height(),
            line,
        ),
    ensures
        after.spec_range_end() == line + 1,
        after.spec_relative_position(line) == Visibility::Visible(
            (before.spec_height() - 1) as usize,
        ),
{
}

} // verus!
