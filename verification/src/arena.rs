//! The arena and the margins along its walls.

use crate::role::Point;
use vstd::prelude::*;

verus! {

/// The rectangle the animals live in, in thousandths. Its corner is the
/// origin; `x` grows to the right and `y` grows downwards.
#[derive(Debug, Clone, Copy, PartialEq, Eq, Structural)]
pub struct Arena {
    pub width: i64,
    pub height: i64,
    /// The margin along the right, the top and the bottom wall.
    pub edge: i64,
    /// The wider margin along the left wall.
    pub left_edge: i64,
    /// Where an eagle with nothing in sight heads for.
    pub rally: Point,
}

/// Where a place lies with respect to the margins.
#[derive(Debug, Clone, Copy, PartialEq, Eq, Structural)]
pub enum Zone {
    /// In the left margin, or beyond the left wall.
    Left,
    /// In the right margin, or beyond the right wall.
    Right,
    /// In the top margin, or above it.
    Top,
    /// In the bottom margin, or below it.
    Bottom,
    /// Clear of every margin.
    Inside,
}

impl Arena {
    /// The arena of the forest: 1200 by 900 units, a margin of 25 units, one of
    /// 125 units on the left, and the rally point at (1000, 600).
    pub open spec fn forest_spec() -> Arena {
        Arena {
            width: 1_200_000,
            height: 900_000,
            edge: 25_000,
            left_edge: 125_000,
            rally: Point { x: 1_000_000, y: 600_000 },
        }
    }

    /// The place is clear of all four margins.
    pub open spec fn is_safe(self, at: Point) -> bool {
        &&& self.left_edge <= at.x <= self.width - self.edge
        &&& self.edge <= at.y <= self.height - self.edge
    }

    /// The zone of a place. The left margin is asked first, then the right,
    /// the top and the bottom one, so a corner belongs to the wall at its side.
    pub open spec fn zone_spec(self, at: Point) -> Zone {
        if at.x < self.left_edge {
            Zone::Left
        } else if at.x > self.width - self.edge {
            Zone::Right
        } else if at.y < self.edge {
            Zone::Top
        } else if at.y > self.height - self.edge {
            Zone::Bottom
        } else {
            Zone::Inside
        }
    }

    /// Builds the arena of the forest.
    pub fn forest() -> (arena: Arena)
        ensures
            arena == Arena::forest_spec(),
    {
        Arena {
            width: 1_200_000,
            height: 900_000,
            edge: 25_000,
            left_edge: 125_000,
            rally: Point { x: 1_000_000, y: 600_000 },
        }
    }

    /// Finds the zone of a place.
    pub fn zone(&self, at: Point) -> (zone: Zone)
        ensures
            zone == self.zone_spec(at),
            zone is Inside <==> self.is_safe(at),
    {
        let x: i128 = at.x as i128;
        let y: i128 = at.y as i128;
        let edge: i128 = self.edge as i128;
        if x < self.left_edge as i128 {
            Zone::Left
        } else if x > self.width as i128 - edge {
            Zone::Right
        } else if y < edge {
            Zone::Top
        } else if y > self.height as i128 - edge {
            Zone::Bottom
        } else {
            Zone::Inside
        }
    }
}

} // verus!
