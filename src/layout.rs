use ratatui::layout::{Constraint, Direction, Layout, Rect};
use vstd::prelude::*;

use crate::app::App;

verus! {

/// Share of the width, in percent, given to the side panel.
pub const SIDE_PANEL_PERCENT: u16 = 25;

/// Width that the message column asks for at least.
pub const MESSAGES_MIN_WIDTH: u16 = 25;

/// Height of the input box.
pub const INPUT_HEIGHT: u16 = 3;

/// A rectangle of terminal cells: its top left corner and its size.
#[derive(Clone, Copy, Debug, PartialEq, Eq, Structural)]
pub struct Area {
    pub x: u16,
    pub y: u16,
    pub width: u16,
    pub height: u16,
}

/// The direction along which an area is cut into parts.
#[derive(Clone, Copy, Debug, PartialEq, Eq, Structural)]
pub enum Axis {
    /// Parts side by side, left to right.
    Horizontal,
    /// Parts stacked, top to bottom.
    Vertical,
}

/// What one part of a split asks for, along the axis of the split.
#[derive(Clone, Copy, Debug, PartialEq, Eq, Structural)]
pub enum Rule {
    /// This percentage of the whole.
    Percentage(u16),
    /// At least this many cells.
    Min(u16),
    /// Exactly this many cells.
    Length(u16),
}

/// The parts into which the layout solver cuts `area` along `axis` under `rules`.
pub uninterp spec fn split_of(axis: Axis, rules: Seq<Rule>, area: Area) -> Seq<Area>;

/// Each part spans the whole of `area` across `axis`.
pub open spec fn spans_across(axis: Axis, part: Area, area: Area) -> bool {
    match axis {
        Axis::Horizontal => part.y == area.y && part.height == area.height,
        Axis::Vertical => part.x == area.x && part.width == area.width,
    }
}

/// Where a span of `size` cells from `start` ends, capped at the largest
/// coordinate.
pub open spec fn end_of(start: u16, size: u16) -> int {
    if start + size > u16::MAX {
        u16::MAX as int
    } else {
        start + size
    }
}

/// `part` lies within `area` along `axis`.
pub open spec fn within_along(axis: Axis, part: Area, area: Area) -> bool {
    match axis {
        Axis::Horizontal => area.x <= part.x && part.x + part.width <= end_of(area.x, area.width),
        Axis::Vertical => area.y <= part.y && part.y + part.height <= end_of(area.y, area.height),
    }
}

/// `part` lies within `area`.
pub open spec fn inside(part: Area, area: Area) -> bool {
    &&& area.x <= part.x
    &&& part.x + part.width <= area.x + area.width
    &&& area.y <= part.y
    &&& part.y + part.height <= area.y + area.height
}

/// Relies on ratatui's `Layout::split`, with no margin, no spacing and the
/// default flex: one rectangle per constraint, in order, each keeping the
/// position and size of the area across the direction of the split, and
/// each lying within the area along it (the solver holds every boundary
/// between the area's edges as a required constraint, and each part's end
/// no earlier than its start).
#[verifier::external_body]
fn split_area(axis: Axis, rules: &Vec<Rule>, area: Area) -> (r: Vec<Area>)
    ensures
        r@ == split_of(axis, rules@, area),
        r@.len() == rules@.len(),
        forall|i: int| 0 <= i < r@.len() ==> spans_across(axis, #[trigger] r@[i], area),
        forall|i: int| 0 <= i < r@.len() ==> within_along(axis, #[trigger] r@[i], area),
{
    let direction = match axis {
        Axis::Horizontal => Direction::Horizontal,
        Axis::Vertical => Direction::Vertical,
    };
    let constraints = rules.iter().map(|rule| match *rule {
        Rule::Percentage(p) => Constraint::Percentage(p),
        Rule::Min(n) => Constraint::Min(n),
        Rule::Length(n) => Constraint::Length(n),
    });
    let rect = Rect { x: area.x, y: area.y, width: area.width, height: area.height };
    let parts = Layout::new(direction, constraints).split(rect);
    parts.iter().map(|p| Area { x: p.x, y: p.y, width: p.width, height: p.height }).collect()
}

/// The columns: the side panel, then the column of messages and input.
pub open spec fn columns_of(area: Area) -> Seq<Area> {
    split_of(
        Axis::Horizontal,
        seq![Rule::Percentage(SIDE_PANEL_PERCENT), Rule::Min(MESSAGES_MIN_WIDTH)],
        area,
    )
}

/// The rows of the right column: the message list, then the input box.
pub open spec fn rows_of(column: Area) -> Seq<Area> {
    split_of(Axis::Vertical, seq![Rule::Min(INPUT_HEIGHT), Rule::Length(INPUT_HEIGHT)], column)
}

/// The three panels of the client: side panel, message list, input box.
pub open spec fn chat_layout_of(area: Area) -> Seq<Area> {
    seq![columns_of(area)[0], rows_of(columns_of(area)[1])[0], rows_of(columns_of(area)[1])[1]]
}

impl App {
    /// Cuts `area` into the side panel, the message list and the input box.
    /// The side panel takes the full height; the message list and the input
    /// box share the right column's horizontal position and width. Each
    /// panel lies within `area`.
    pub fn create_chat_layout(area: Area) -> (r: [Area; 3])
        ensures
            r@ == chat_layout_of(area),
            r[0].y == area.y,
            r[0].height == area.height,
            r[1].x == r[2].x,
            r[1].width == r[2].width,
            inside(r[0], area),
            inside(r[1], area),
            inside(r[2], area),
    {
        let columns = split_area(
            Axis::Horizontal,
            &vec![Rule::Percentage(SIDE_PANEL_PERCENT), Rule::Min(MESSAGES_MIN_WIDTH)],
            area,
        );
        let rows = split_area(
            Axis::Vertical,
            &vec![Rule::Min(INPUT_HEIGHT), Rule::Length(INPUT_HEIGHT)],
            columns[1],
        );
        assert(within_along(Axis::Horizontal, columns@[0], area));
        assert(within_along(Axis::Horizontal, columns@[1], area));
        assert(within_along(Axis::Vertical, rows@[0], columns@[1]));
        assert(within_along(Axis::Vertical, rows@[1], columns@[1]));
        let r = [columns[0], rows[0], rows[1]];
        assert(r@ =~= chat_layout_of(area));
        r
    }
}

/// The partition depends on the area alone: partitioning the same area twice
/// gives identical panels.
pub proof fn lemma_partition_idempotent(area: Area, first: Seq<Area>, second: Seq<Area>)
    requires
        first == chat_layout_of(area),
        second == chat_layout_of(area),
    ensures
        first == second,
{
}

} // verus!
