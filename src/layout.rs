use vstd::prelude::*;

use tui::layout::{Constraint, Direction, Layout, Rect};

verus! {

/// A rectangle of terminal cells.
#[derive(Clone, Copy, Debug, PartialEq, Eq, Structural)]
pub struct Area {
    pub x: u16,
    pub y: u16,
    pub width: u16,
    pub height: u16,
}

/// The direction in which an area is cut into regions.
#[derive(Clone, Copy, Debug, PartialEq, Eq, Structural)]
pub enum Axis {
    Vertical,
    Horizontal,
}

/// How large one region of a split should be, along the axis of the split.
/// `Ratio(n, d)` asks for `n / d` of the span.
#[derive(Clone, Copy, Debug, PartialEq, Eq, Structural)]
pub enum Extent {
    Length(u16),
    Min(u16),
    Ratio(u32, u32),
}

/// Whether every ratio among the extents has a nonzero denominator.
pub open spec fn ratios_defined(extents: Seq<Extent>) -> bool {
    forall|k: int|
        0 <= k < extents.len() ==> match #[trigger] extents[k] {
            Extent::Ratio(_, d) => d > 0,
            _ => true,
        }
}

/// Whether an area lies within `u16` coordinates, so that its right and
/// bottom edges are not cut off at `u16::MAX`.
pub open spec fn within_bounds(area: Area) -> bool {
    area.x + area.width <= u16::MAX && area.y + area.height <= u16::MAX
}

/// Relies on tui's `Layout::split`: one region per constraint. The regions
/// come from a constraint solver whose choice among equally good layouts is
/// not fixed, so nothing more is stated of them. The solver's hard constraints
/// can all be met when the area's edges do not reach past `u16::MAX` and the
/// shifted corner stays within `u16`.
#[verifier::external_body]
pub(crate) fn split_area(area: Area, axis: Axis, margin: u16, extents: &Vec<Extent>) -> (r: Vec<Area>)
    requires
        margin <= 32767,
        area.x + margin <= u16::MAX,
        area.y + margin <= u16::MAX,
        within_bounds(area),
        ratios_defined(extents@),
    ensures
        r@.len() == extents@.len(),
{
    let cs: Vec<Constraint> = extents.iter().map(|e| match *e {
        Extent::Length(v) => Constraint::Length(v),
        Extent::Min(v) => Constraint::Min(v),
        Extent::Ratio(n, d) => Constraint::Ratio(n, d),
    }).collect();
    let d = match axis { Axis::Vertical => Direction::Vertical, Axis::Horizontal => Direction::Horizontal };
    let rect = Rect { x: area.x, y: area.y, width: area.width, height: area.height };
    let parts = Layout::default().direction(d).margin(margin).constraints(cs).split(rect);
    parts.iter().map(|p| Area { x: p.x, y: p.y, width: p.width, height: p.height }).collect()
}

} // verus!
