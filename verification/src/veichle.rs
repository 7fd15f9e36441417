//! One animal: what it is, what it reacts to, and its turn in a tick.

use crate::arena::{Arena, Zone};
use crate::role::{stats_of, targets_of, Point, Stats, VeichleType};
use crate::sensing::{is_candidate, sense, sensed, Sighting};
use crate::steering::{desired, is_draw, maneuver, Heading, Maneuver};
use vstd::prelude::*;

verus! {

/// One animal of the simulation, without its place and its motion.
#[derive(Debug, Clone, PartialEq, Eq)]
pub struct Veichle {
    pub veichle_type: VeichleType,
    /// The constants of its kind.
    pub stats: Stats,
    /// The kinds of animal it reacts to.
    pub target_list: Vec<VeichleType>,
    /// The sighted animal it reacts to in this tick, as an index into the
    /// sightings it was shown.
    pub target: Option<usize>,
}

impl Veichle {
    /// The animal is as `new` makes one of its kind, but for its target.
    pub open spec fn is_of_kind(self, veichle_type: VeichleType) -> bool {
        &&& self.veichle_type == veichle_type
        &&& self.stats == stats_of(veichle_type)
        &&& self.target_list@ == targets_of(veichle_type)
    }

    /// The target after a look at `entities`: the entry that is sensed, or,
    /// where none is, the target as it was.
    pub open spec fn perceived(self, me: int, entities: Seq<Sighting>) -> Option<usize> {
        match sensed(
            self.target_list@,
            self.stats.sensory_range,
            self.stats.sensory_angle,
            me,
            entities,
        ) {
            Some(i) => Some(i),
            None => self.target,
        }
    }

    /// The kinds that a kind of animal reacts to, and its constants.
    pub fn get_stats(veichle_type: VeichleType) -> (stats: (Vec<VeichleType>, Stats))
        ensures
            stats.0@ == targets_of(veichle_type),
            stats.1 == stats_of(veichle_type),
    {
        match veichle_type {
            VeichleType::Eagle => {
                let mut targets: Vec<VeichleType> = Vec::new();
                targets.push(VeichleType::Rat);
                let stats = Stats {
                    scale_x: 500,
                    scale_y: 500,
                    sensory_range: 150_000,
                    sensory_angle: 3_142,
                    max_speed: 6_000,
                    max_force: 2_000,
                    position: Point { x: 200_000, y: 200_000 },
                };
                assert(targets@ =~= targets_of(veichle_type));
                (targets, stats)
            },
            VeichleType::Rat => {
                let mut targets: Vec<VeichleType> = Vec::new();
                targets.push(VeichleType::Eagle);
                let stats = Stats {
                    scale_x: 300,
                    scale_y: 300,
                    sensory_range: 150_000,
                    sensory_angle: 3_142,
                    max_speed: 5_000,
                    max_force: 5_000,
                    position: Point { x: 1_000_000, y: 600_000 },
                };
                assert(targets@ =~= targets_of(veichle_type));
                (targets, stats)
            },
        }
    }

    /// Makes an animal of the given kind, with nothing in sight.
    pub fn new(veichle_type: VeichleType) -> (veichle: Veichle)
        ensures
            veichle.is_of_kind(veichle_type),
            veichle.target is None,
    {
        let (target_list, stats) = Veichle::get_stats(veichle_type);
        Veichle { veichle_type, stats, target_list, target: None }
    }

    /// Looks at `entities`, of which entry `me` is the animal itself, and
    /// takes as target the nearest animal of a kind it reacts to, provided
    /// that one is within its range and inside its cone of vision. Otherwise
    /// the target stays as it was.
    pub fn get_target(&mut self, me: usize, entities: &Vec<Sighting>)
        ensures
            final(self).target == old(self).perceived(me as int, entities@),
            final(self).veichle_type == old(self).veichle_type,
            final(self).stats == old(self).stats,
            final(self).target_list == old(self).target_list,
    {
        match sense(
            &self.target_list,
            self.stats.sensory_range,
            self.stats.sensory_angle,
            me,
            entities,
        ) {
            Some(i) => {
                self.target = Some(i);
            },
            None => {},
        }
    }

    /// The heading the animal follows where no wall is near. A rat with no
    /// target draws one at random.
    pub fn get_desired(&self) -> (heading: Heading)
        ensures
            is_draw(heading.draw()),
            heading == desired(self.veichle_type, self.target, heading.draw()),
    {
        let draw = match (self.veichle_type, self.target) {
            (VeichleType::Rat, None) => Point::random(),
            _ => Point { x: 0, y: 0 },
        };
        Heading::decide(self.veichle_type, self.target, draw)
    }

    /// What the animal does at `position` in `arena`: in a margin it is
    /// pushed away from that wall, clear of the margins it follows its
    /// heading.
    pub fn steer(&self, arena: &Arena, position: Point) -> (plan: Maneuver)
        ensures
            is_draw(plan.draw()),
            plan == maneuver(
                arena.zone_spec(position),
                self.veichle_type,
                self.target,
                plan.draw(),
            ),
    {
        match arena.zone(position) {
            Zone::Inside => Maneuver::Follow(self.get_desired()),
            wall => Maneuver::decide(wall, self.veichle_type, self.target, Point { x: 0, y: 0 }),
        }
    }

    /// Ends the animal's turn: what it reacted to is forgotten.
    pub fn apply_force(&mut self)
        ensures
            final(self).target is None,
            final(self).veichle_type == old(self).veichle_type,
            final(self).stats == old(self).stats,
            final(self).target_list == old(self).target_list,
    {
        self.target = None;
    }
}

/// An animal that had no target before it looked heads for, or flees, only an
/// animal that it was shown: another one than itself, of a kind it reacts to.
pub proof fn lemma_plan_names_a_candidate(
    veichle: Veichle,
    me: int,
    entities: Seq<Sighting>,
    zone: Zone,
    draw: Point,
)
    requires
        veichle.target is None,
        entities.len() <= usize::MAX,
    ensures
        match maneuver(zone, veichle.veichle_type, veichle.perceived(me, entities), draw).target() {
            Some(i) => is_candidate(veichle.target_list@, me, entities, i as int),
            None => true,
        },
{
}

} // verus!
