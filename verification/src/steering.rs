//! Where an animal wants to go.
//!
//! A wall comes first: an animal in a margin is pushed back into the arena,
//! whatever it is and whatever it has in sight. Clear of the margins an eagle
//! heads for the rat it reacts to, or for the rally point; a rat flees the
//! eagle it reacts to, or wanders in a direction drawn at random.

use crate::arena::{Arena, Zone};
use crate::role::{Point, VeichleType, UNIT};
use rand::Rng;
use vstd::prelude::*;

verus! {

/// The direction an animal clear of the margins wants to move in.
#[derive(Debug, Clone, Copy, PartialEq, Eq, Structural)]
pub enum Heading {
    /// Towards the sighted animal at this index.
    Toward(usize),
    /// Towards the rally point of the arena.
    Rally,
    /// Straight away from the sighted animal at this index.
    Away(usize),
    /// Along this offset, which was drawn at random.
    Wander(Point),
}

/// What an animal does in one tick.
#[derive(Debug, Clone, Copy, PartialEq, Eq, Structural)]
pub enum Maneuver {
    /// Leave the left margin: steer for full speed to the right and keep the
    /// vertical velocity.
    PushRight,
    /// Leave the right margin: steer for full speed to the left and keep the
    /// vertical velocity.
    PushLeft,
    /// Leave the top margin: steer for full speed downwards and keep the
    /// horizontal velocity.
    PushDown,
    /// Leave the bottom margin: steer for full speed upwards and keep the
    /// horizontal velocity.
    PushUp,
    /// Steer for full speed along the heading.
    Follow(Heading),
}

/// Both components lie from minus one unit up to, but not at, one unit.
pub open spec fn is_draw(offset: Point) -> bool {
    &&& -UNIT <= offset.x < UNIT
    &&& -UNIT <= offset.y < UNIT
}

/// The heading of an animal of kind `veichle_type` that reacts to `target`,
/// where `draw` is what a rat with nothing in sight wanders along.
pub open spec fn desired(veichle_type: VeichleType, target: Option<usize>, draw: Point) -> Heading {
    match (veichle_type, target) {
        (VeichleType::Eagle, Some(i)) => Heading::Toward(i),
        (VeichleType::Eagle, None) => Heading::Rally,
        (VeichleType::Rat, Some(i)) => Heading::Away(i),
        (VeichleType::Rat, None) => Heading::Wander(draw),
    }
}

/// What an animal in `zone` does: in a margin the push away from that wall,
/// clear of the margins its `heading`.
pub open spec fn pushed_or(zone: Zone, heading: Heading) -> Maneuver {
    match zone {
        Zone::Left => Maneuver::PushRight,
        Zone::Right => Maneuver::PushLeft,
        Zone::Top => Maneuver::PushDown,
        Zone::Bottom => Maneuver::PushUp,
        Zone::Inside => Maneuver::Follow(heading),
    }
}

/// What an animal of kind `veichle_type` in `zone` does when it reacts to
/// `target`, where `draw` is what it would wander along.
pub open spec fn maneuver(
    zone: Zone,
    veichle_type: VeichleType,
    target: Option<usize>,
    draw: Point,
) -> Maneuver {
    pushed_or(zone, desired(veichle_type, target, draw))
}

impl Heading {
    /// The offset that was drawn for this heading; the origin where none was.
    pub open spec fn draw(self) -> Point {
        match self {
            Heading::Wander(offset) => offset,
            _ => Point { x: 0, y: 0 },
        }
    }

    /// The heading of an animal of kind `veichle_type` that reacts to
    /// `target`, with `draw` for the case that it wanders.
    pub fn decide(veichle_type: VeichleType, target: Option<usize>, draw: Point) -> (heading:
        Heading)
        ensures
            heading == desired(veichle_type, target, draw),
    {
        match veichle_type {
            VeichleType::Eagle => match target {
                Some(i) => Heading::Toward(i),
                None => Heading::Rally,
            },
            VeichleType::Rat => match target {
                Some(i) => Heading::Away(i),
                None => Heading::Wander(draw),
            },
        }
    }
}

impl Maneuver {
    /// The index of the sighted animal that the maneuver heads for or flees.
    pub open spec fn target(self) -> Option<usize> {
        match self {
            Maneuver::Follow(Heading::Toward(i)) => Some(i),
            Maneuver::Follow(Heading::Away(i)) => Some(i),
            _ => None,
        }
    }

    /// The offset that was drawn for this maneuver; the origin where none was.
    pub open spec fn draw(self) -> Point {
        match self {
            Maneuver::Follow(heading) => heading.draw(),
            _ => Point { x: 0, y: 0 },
        }
    }

    /// What an animal of kind `veichle_type` in `zone` does when it reacts to
    /// `target`, with `draw` for the case that it wanders.
    pub fn decide(
        zone: Zone,
        veichle_type: VeichleType,
        target: Option<usize>,
        draw: Point,
    ) -> (plan: Maneuver)
        ensures
            plan == maneuver(zone, veichle_type, target, draw),
    {
        match zone {
            Zone::Left => Maneuver::PushRight,
            Zone::Right => Maneuver::PushLeft,
            Zone::Top => Maneuver::PushDown,
            Zone::Bottom => Maneuver::PushUp,
            Zone::Inside => Maneuver::Follow(Heading::decide(veichle_type, target, draw)),
        }
    }
}

impl Point {
    /// Draws an offset to wander along: each component uniformly from
    /// minus one unit up to, but not at, one unit.
    pub fn random() -> (offset: Point)
        ensures
            is_draw(offset),
    {
        let a: i64 = draw_between(-UNIT, UNIT);
        let b: i64 = draw_between(-UNIT, UNIT);
        Point { x: a, y: b }
    }
}

/// A wall decides alone: in a margin the maneuver is the same for every kind
/// of animal, every target and every draw.
pub proof fn lemma_wall_dominates(
    zone: Zone,
    veichle_type: VeichleType,
    target: Option<usize>,
    draw: Point,
    other_type: VeichleType,
    other_target: Option<usize>,
    other_draw: Point,
)
    requires
        !(zone is Inside),
    ensures
        maneuver(zone, veichle_type, target, draw) == maneuver(
            zone,
            other_type,
            other_target,
            other_draw,
        ),
        !(maneuver(zone, veichle_type, target, draw) is Follow),
{
}

/// In the left margin every animal is pushed to the right, whatever its kind,
/// its target and its draw.
pub proof fn lemma_left_margin_pushes_right(
    arena: Arena,
    at: Point,
    veichle_type: VeichleType,
    target: Option<usize>,
    draw: Point,
)
    requires
        at.x < arena.left_edge,
    ensures
        maneuver(arena.zone_spec(at), veichle_type, target, draw) == Maneuver::PushRight,
{
}

/// Calls `gen_range` of `rand::Rng` on the generator that `rand::thread_rng`
/// hands out, with the half-open range from `low` to `high`. The contract
/// claims only that the value lies in that range; which value it is differs
/// from call to call. `gen_range` panics on an empty range, which `requires`
/// leaves out.
#[verifier::external_body]
fn draw_between(low: i64, high: i64) -> (value: i64)
    requires
        low < high,
    ensures
        low <= value < high,
{
    rand::thread_rng().gen_range(low..high)
}

} // verus!
