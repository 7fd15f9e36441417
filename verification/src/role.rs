//! The kinds of animal and what each kind is born with.

use vstd::prelude::*;

verus! {

/// How many counts make one: one arena unit, one radian, full sprite size.
pub const UNIT: i64 = 1000;

/// A place in the arena, or an offset between two places. The y axis points
/// down the screen.
#[derive(Debug, Clone, Copy, PartialEq, Eq, Structural)]
pub struct Point {
    pub x: i64,
    pub y: i64,
}

/// The two kinds of animal in the forest.
#[derive(Debug, Clone, Copy, PartialEq, Eq, Structural)]
pub enum VeichleType {
    /// The hunter.
    Eagle,
    /// The hunted.
    Rat,
}

/// The constants of one kind of animal, in thousandths.
#[derive(Debug, Clone, Copy, PartialEq, Eq, Structural)]
pub struct Stats {
    /// Sprite scale along x.
    pub scale_x: u64,
    /// Sprite scale along y.
    pub scale_y: u64,
    /// How far the animal senses.
    pub sensory_range: u64,
    /// Half the opening of its cone of vision, in radians.
    pub sensory_angle: u64,
    /// The speed it steers for, per tick.
    pub max_speed: u64,
    /// The most its velocity is corrected by in one tick.
    pub max_force: u64,
    /// Where it starts.
    pub position: Point,
}

/// The kinds that an animal of kind `veichle_type` reacts to.
pub open spec fn targets_of(veichle_type: VeichleType) -> Seq<VeichleType> {
    match veichle_type {
        VeichleType::Eagle => seq![VeichleType::Rat],
        VeichleType::Rat => seq![VeichleType::Eagle],
    }
}

/// The constants of an animal of kind `veichle_type`. Both kinds see all
/// around: their cone opens by half a turn to either side, which is 3142
/// thousandths of a radian when rounded up.
pub open spec fn stats_of(veichle_type: VeichleType) -> Stats {
    match veichle_type {
        VeichleType::Eagle => Stats {
            scale_x: 500,
            scale_y: 500,
            sensory_range: 150_000,
            sensory_angle: 3_142,
            max_speed: 6_000,
            max_force: 2_000,
            position: Point { x: 200_000, y: 200_000 },
        },
        VeichleType::Rat => Stats {
            scale_x: 300,
            scale_y: 300,
            sensory_range: 150_000,
            sensory_angle: 3_142,
            max_speed: 5_000,
            max_force: 5_000,
            position: Point { x: 1_000_000, y: 600_000 },
        },
    }
}

} // verus!
