//! Screen areas: where an overlay goes, computed with ratatui's layout
//! solver.
use ratatui::layout::{Constraint, Direction, Layout, Rect};
use vstd::prelude::*;

verus! {

/// A rectangle of terminal cells.
#[derive(Debug, Clone, Copy, PartialEq, Eq, Structural)]
pub struct Area {
    pub x: u16,
    pub y: u16,
    pub width: u16,
    pub height: u16,
}

/// A length from `start`, cut so that the end stays within `u16` (as
/// `Rect::new` cuts a rectangle's width and height).
pub open spec fn fitted(start: u16, len: u16) -> int {
    if start + len <= u16::MAX {
        len as int
    } else {
        u16::MAX - start
    }
}

/// `inner` keeps the cross axis of `outer` and lies within `outer` along
/// the split axis (`vertical`: rows; otherwise columns).
pub open spec fn part_of(inner: Area, outer: Area, vertical: bool) -> bool {
    if vertical {
        &&& inner.x == outer.x
        &&& inner.width == fitted(outer.x, outer.width)
        &&& outer.y <= inner.y
        &&& inner.y + inner.height <= outer.y + fitted(outer.y, outer.height)
    } else {
        &&& inner.y == outer.y
        &&& inner.height == fitted(outer.y, outer.height)
        &&& outer.x <= inner.x
        &&& inner.x + inner.width <= outer.x + fitted(outer.x, outer.width)
    }
}

/// `inner` lies within `outer`.
pub open spec fn within(inner: Area, outer: Area) -> bool {
    &&& outer.x <= inner.x
    &&& inner.x + inner.width <= outer.x + outer.width
    &&& outer.y <= inner.y
    &&& inner.y + inner.height <= outer.y + outer.height
}

/// The sum of the first `i` percentages.
pub open spec fn percent_before(ps: Seq<u16>, i: int) -> int
    decreases i,
{
    if i <= 0 || i > ps.len() {
        0
    } else {
        percent_before(ps, i - 1) + ps[i - 1]
    }
}

/// A cell position `cells` lies within one cell of the exact position
/// `hundredths` (given in hundredths of a cell).
pub open spec fn near(cells: int, hundredths: int) -> bool {
    -100 < 100 * cells - hundredths < 100
}

/// Part `i` of a split of `area` by the percentages `ps` starts and ends
/// within one cell of where the percentages put it: the area's start plus
/// the share of its extent that the parts before it (and it) take.
pub open spec fn placed(part: Area, area: Area, vertical: bool, ps: Seq<u16>, i: int) -> bool {
    let s: int = if vertical { area.y as int } else { area.x as int };
    let a: int = if vertical { fitted(area.y, area.height) } else { fitted(area.x, area.width) };
    let start: int = if vertical { part.y as int } else { part.x as int };
    let len: int = if vertical { part.height as int } else { part.width as int };
    &&& near(start, 100 * s + a * percent_before(ps, i))
    &&& near(start + len, 100 * s + a * percent_before(ps, i + 1))
}

/// Calls `Layout::split` on a layout of `Constraint::Percentage` parts in
/// the given direction. It gives one area per part. Each part keeps the
/// area's extent across the split (after `Rect::new` has fitted the area
/// within `u16`), and lies within the area along it: the solver holds every
/// part's ends between the area's ends as required constraints before they
/// are rounded to cells.
///
/// When the percentages add up to at most 100, each part also starts and
/// ends within one cell of where its percentage puts it. The layout is the
/// default one (no margin, no spacing, `Flex::Start`): its required and
/// near-required constraints put the parts one after the other from the
/// area's start, and each part's size is held to its percentage of the
/// area's extent with strong strength, against which the only competing
/// goals (the last spacer growing, medium; parts of equal size, weak) are
/// weaker, so the solver's optimum is that exact placement whatever pivots
/// it takes. Each end is then rounded twice (to hundredths of a cell, then
/// to cells), which moves it by less than one cell.
#[verifier::external_body]
fn split_percent(area: Area, vertical: bool, percents: Vec<u16>) -> (v: Vec<Area>)
    ensures
        v@.len() == percents@.len(),
        forall|i: int| 0 <= i < v@.len() ==> part_of(#[trigger] v@[i], area, vertical),
        percent_before(percents@, percents@.len() as int) <= 100 ==> forall|i: int|
            0 <= i < v@.len() ==> placed(#[trigger] v@[i], area, vertical, percents@, i),
{
    let direction = if vertical { Direction::Vertical } else { Direction::Horizontal };
    Layout::default()
        .direction(direction)
        .constraints(percents.into_iter().map(Constraint::Percentage))
        .split(Rect::new(area.x, area.y, area.width, area.height))
        .iter()
        .map(|r| Area { x: r.x, y: r.y, width: r.width, height: r.height })
        .collect()
}

/// Along one axis, a span (`start`, `len`) of an extent `extent` that
/// starts at `s` is `percent` of it with equal margins on both sides (each
/// margin half of the rest, rounded down), each end within one cell.
pub open spec fn centred(start: int, len: int, s: int, extent: int, percent: int) -> bool {
    let margin: int = (100 - percent) / 2;
    &&& near(start, 100 * s + extent * margin)
    &&& near(start + len, 100 * s + extent * (margin + percent))
}

/// An overlay's area: `percent_x` of the width and `percent_y` of the
/// height of `r`, in its middle, as ratatui's solver places the middle
/// part of a three-way split with equal margins, first in rows and then in
/// columns. It lies within `r`, and along each axis it is the requested
/// share of `r`'s extent (fitted within `u16`), centred, each end within
/// one cell.
pub fn centered_rect(percent_x: u16, percent_y: u16, r: Area) -> (c: Area)
    requires
        percent_x <= 100,
        percent_y <= 100,
    ensures
        within(c, r),
        centred(c.y as int, c.height as int, r.y as int, fitted(r.y, r.height), percent_y as int),
        centred(c.x as int, c.width as int, r.x as int, fitted(r.x, r.width), percent_x as int),
{
    let my: u16 = (100 - percent_y) / 2;
    let rows = split_percent(r, true, vec![my, percent_y, my]);
    proof {
        let ps = seq![my, percent_y, my];
        assert(percent_before(ps, 0) == 0);
        assert(percent_before(ps, 1) == my);
        assert(percent_before(ps, 2) == my + percent_y);
        assert(percent_before(ps, 3) == my + percent_y + my);
        assert(placed(rows@[1], r, true, ps, 1));
    }
    let mx: u16 = (100 - percent_x) / 2;
    let cols = split_percent(rows[1], false, vec![mx, percent_x, mx]);
    let c = cols[1];
    proof {
        let ps = seq![mx, percent_x, mx];
        assert(percent_before(ps, 0) == 0);
        assert(percent_before(ps, 1) == mx);
        assert(percent_before(ps, 2) == mx + percent_x);
        assert(percent_before(ps, 3) == mx + percent_x + mx);
        assert(part_of(rows@[1], r, true));
        assert(part_of(cols@[1], rows@[1], false));
        assert(placed(cols@[1], rows@[1], false, ps, 1));
        assert(fitted(rows@[1].x, rows@[1].width) == fitted(r.x, r.width));
    }
    c
}

} // verus!
