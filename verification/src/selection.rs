//! The rectangle that the user drags over the displayed image.

use vstd::prelude::*;
use crate::geometry::DisplayPoint;

verus! {

/// The two corners of a drag: where it started and where the pointer is now.
#[derive(Clone, Copy, Debug, PartialEq, Eq, Structural)]
pub struct Area {
    pub start: DisplayPoint,
    pub end: DisplayPoint,
}

/// The smaller of two coordinates.
pub open spec fn lesser(a: i64, b: i64) -> i64 {
    if a <= b {
        a
    } else {
        b
    }
}

/// The greater of two coordinates.
pub open spec fn greater(a: i64, b: i64) -> i64 {
    if a <= b {
        b
    } else {
        a
    }
}

impl Area {
    /// The corner with the smaller coordinate on each axis.
    pub open spec fn min(self) -> DisplayPoint {
        DisplayPoint { x: lesser(self.start.x, self.end.x), y: lesser(self.start.y, self.end.y) }
    }

    /// The corner with the greater coordinate on each axis.
    pub open spec fn max(self) -> DisplayPoint {
        DisplayPoint { x: greater(self.start.x, self.end.x), y: greater(self.start.y, self.end.y) }
    }

    /// The rectangle as its minimum and maximum corners. Whatever the
    /// direction of the drag, the first is never beyond the second.
    pub fn normalized(&self) -> (corners: (DisplayPoint, DisplayPoint))
        ensures
            corners.0 == self.min(),
            corners.1 == self.max(),
            corners.0.x <= corners.1.x,
            corners.0.y <= corners.1.y,
    {
        let min_x: i64 = if self.start.x <= self.end.x {
            self.start.x
        } else {
            self.end.x
        };
        let max_x: i64 = if self.start.x <= self.end.x {
            self.end.x
        } else {
            self.start.x
        };
        let min_y: i64 = if self.start.y <= self.end.y {
            self.start.y
        } else {
            self.end.y
        };
        let max_y: i64 = if self.start.y <= self.end.y {
            self.end.y
        } else {
            self.start.y
        };
        (DisplayPoint { x: min_x, y: min_y }, DisplayPoint { x: max_x, y: max_y })
    }
}

/// The selection model: no rectangle, or the one being dragged or shown.
#[derive(Clone, Copy, Debug, PartialEq, Eq)]
pub struct Selection {
    area: Option<Area>,
}

impl View for Selection {
    type V = Option<Area>;

    closed spec fn view(&self) -> Option<Area> {
        self.area
    }
}

/// The selection that a drag starting at `point` opens.
pub open spec fn begun(point: DisplayPoint) -> Option<Area> {
    Some(Area { start: point, end: point })
}

/// The selection after the pointer has moved to `point`.
pub open spec fn updated(selection: Option<Area>, point: DisplayPoint) -> Option<Area> {
    match selection {
        Some(area) => Some(Area { start: area.start, end: point }),
        None => None,
    }
}

/// The normalized corners of the selection, if there is one.
pub open spec fn corners(selection: Option<Area>) -> Option<(DisplayPoint, DisplayPoint)> {
    match selection {
        Some(area) => Some((area.min(), area.max())),
        None => None,
    }
}

impl Selection {
    /// The model with no selection.
    pub fn new() -> (s: Selection)
        ensures
            s@ is None,
    {
        Selection { area: None }
    }

    /// Starts a selection: both corners are `point`.
    pub fn begin(&mut self, point: DisplayPoint)
        ensures
            final(self)@ == begun(point),
    {
        self.area = Some(Area { start: point, end: point });
    }

    /// Moves the end corner to `point`. Without a selection nothing happens.
    pub fn update(&mut self, point: DisplayPoint)
        ensures
            final(self)@ == updated(old(self)@, point),
    {
        match self.area {
            Some(area) => {
                self.area = Some(Area { start: area.start, end: point });
            },
            None => {},
        }
    }

    /// The minimum and maximum corners of the selection, if there is one.
    pub fn normalized(&self) -> (found: Option<(DisplayPoint, DisplayPoint)>)
        ensures
            found == corners(self@),
            found matches Some(c) ==> c.0.x <= c.1.x && c.0.y <= c.1.y,
    {
        match self.area {
            Some(area) => Some(area.normalized()),
            None => None,
        }
    }

    /// Drops the selection.
    pub fn clear(&mut self)
        ensures
            final(self)@ is None,
    {
        self.area = None;
    }

    /// Whether there is a selection.
    pub fn is_active(&self) -> (active: bool)
        ensures
            active == (self@ is Some),
    {
        self.area.is_some()
    }

    /// The selection's two corners as they were dragged, if there is one.
    pub fn area(&self) -> (found: Option<Area>)
        ensures
            found == self@,
    {
        self.area
    }
}

} // verus!
