//! Screen geometry: rectangular regions and the per-frame partition of the
//! terminal surface among the three dashboard components.

use vstd::prelude::*;

verus! {

/// Width of the gutter between the left and right columns, in cells.
pub const COLUMN_GUTTER: u16 = 2;

/// A rectangular sub-area of the terminal surface, in character cells.
#[derive(Clone, Copy, PartialEq, Eq, Structural, Debug)]
pub struct Region {
    pub x: u16,
    pub y: u16,
    pub width: u16,
    pub height: u16,
}

impl Region {
    /// The region lies within the addressable cell grid.
    pub open spec fn wf(self) -> bool {
        self.x + self.width <= u16::MAX && self.y + self.height <= u16::MAX
    }
}

/// The three regions a frame is partitioned into: the prediction list on the
/// left, the graph placeholder on the upper right, the details panel on the
/// lower right.
#[derive(Clone, Copy, PartialEq, Eq, Structural, Debug)]
pub struct DashboardRegions {
    pub list: Region,
    pub graph: Region,
    pub details: Region,
}

/// The two columns an area is split into: equal halves of the width that
/// remains once the gutter is taken out, the left column getting the floor.
pub open spec fn spec_split_columns(area: Region, gutter: u16) -> (Region, Region) {
    if area.width >= gutter {
        let usable = area.width - gutter;
        let lw = usable / 2;
        (
            Region { x: area.x, y: area.y, width: lw as u16, height: area.height },
            Region {
                x: (area.x + lw + gutter) as u16,
                y: area.y,
                width: (usable - lw) as u16,
                height: area.height,
            },
        )
    } else {
        (
            Region { x: area.x, y: area.y, width: 0, height: area.height },
            Region { x: area.x, y: area.y, width: 0, height: area.height },
        )
    }
}

/// The two rows an area is split into: equal halves of the height, the top
/// row getting the floor.
pub open spec fn spec_split_rows(area: Region) -> (Region, Region) {
    let th = area.height / 2;
    (
        Region { x: area.x, y: area.y, width: area.width, height: th as u16 },
        Region {
            x: area.x,
            y: (area.y + th) as u16,
            width: area.width,
            height: (area.height - th) as u16,
        },
    )
}

/// The full dashboard partition, re-derived from the current terminal area:
/// two equal columns with a gutter, the right column split into two equal
/// rows.
pub open spec fn spec_dashboard_regions(area: Region) -> DashboardRegions {
    let (left, right) = spec_split_columns(area, COLUMN_GUTTER);
    let (top, bottom) = spec_split_rows(right);
    DashboardRegions { list: left, graph: top, details: bottom }
}

/// Split `area` into a left and a right column of equal width, separated by
/// `gutter` blank columns.  When the area is narrower than the gutter, both
/// columns are empty.
pub fn split_columns(area: Region, gutter: u16) -> (r: (Region, Region))
    requires
        area.wf(),
    ensures
        r == spec_split_columns(area, gutter),
        r.0.wf(),
        r.1.wf(),
        area.width >= gutter ==> r.0.width + gutter + r.1.width == area.width,
        area.width >= gutter ==> r.1.x == area.x + r.0.width + gutter,
{
    if area.width >= gutter {
        let usable = area.width - gutter;
        let lw = usable / 2;
        (
            Region { x: area.x, y: area.y, width: lw, height: area.height },
            Region {
                x: area.x + lw + gutter,
                y: area.y,
                width: usable - lw,
                height: area.height,
            },
        )
    } else {
        (
            Region { x: area.x, y: area.y, width: 0, height: area.height },
            Region { x: area.x, y: area.y, width: 0, height: area.height },
        )
    }
}

/// Split `area` into a top and a bottom row of equal height.
pub fn split_rows(area: Region) -> (r: (Region, Region))
    requires
        area.wf(),
    ensures
        r == spec_split_rows(area),
        r.0.wf(),
        r.1.wf(),
        r.0.height + r.1.height == area.height,
        r.1.y == area.y + r.0.height,
{
    let th = area.height / 2;
    (
        Region { x: area.x, y: area.y, width: area.width, height: th },
        Region {
            x: area.x,
            y: area.y + th,
            width: area.width,
            height: area.height - th,
        },
    )
}

/// Derive the three component regions from the current terminal area.  This
/// is recomputed every frame, so a resize is picked up at the next tick.
pub fn dashboard_regions(area: Region) -> (r: DashboardRegions)
    requires
        area.wf(),
    ensures
        r == spec_dashboard_regions(area),
        r.list.wf(),
        r.graph.wf(),
        r.details.wf(),
{
    let (left, right) = split_columns(area, COLUMN_GUTTER);
    let (top, bottom) = split_rows(right);
    DashboardRegions { list: left, graph: top, details: bottom }
}

/// The same terminal area always yields the same partition: the layout is a
/// function of the current dimensions alone, so an unchanged size gives
/// identical region boundaries on consecutive frames.
pub proof fn lemma_layout_deterministic(area: Region, r1: DashboardRegions, r2: DashboardRegions)
    requires
        r1 == spec_dashboard_regions(area),
        r2 == spec_dashboard_regions(area),
    ensures
        r1 == r2,
{
}

} // verus!
