//! The whole population, and one tick of it.

use crate::arena::Arena;
use crate::role::{Point, VeichleType};
use crate::sensing::Sighting;
use crate::steering::{is_draw, maneuver, Maneuver};
use crate::veichle::Veichle;
use vstd::prelude::*;

verus! {

/// What one animal is shown at the start of a tick.
#[derive(Debug, Clone, PartialEq, Eq)]
pub struct Scene {
    /// Where the animal is.
    pub position: Point,
    /// What it measures of every animal, itself included, in the order of
    /// the population.
    pub entities: Vec<Sighting>,
}

/// Makes the population: one animal of each kind in `roles`, in that order.
pub fn initialize(roles: &Vec<VeichleType>) -> (veichles: Vec<Veichle>)
    ensures
        veichles.len() == roles.len(),
        forall|i: int|
            0 <= i < roles.len() ==> (#[trigger] veichles[i]).is_of_kind(roles[i])
                && veichles[i].target is None,
{
    let mut veichles: Vec<Veichle> = Vec::new();
    let mut i: usize = 0;
    while i < roles.len()
        invariant
            i <= roles.len(),
            veichles.len() == i,
            forall|k: int|
                0 <= k < i ==> (#[trigger] veichles[k]).is_of_kind(roles[k])
                    && veichles[k].target is None,
        decreases roles.len() - i,
    {
        veichles.push(Veichle::new(roles[i]));
        i += 1;
    }
    veichles
}

/// Runs one tick. Every animal in turn looks at its scene, decides what to
/// do and forgets what it reacted to. All scenes were measured before the
/// tick, so no animal's decision depends on what another did in it.
///
/// The plans come back in the order of the population. An animal keeps its
/// kind, its constants and its list of targets, and ends with no target.
pub fn update(veichles: &mut Vec<Veichle>, arena: &Arena, scenes: &Vec<Scene>) -> (plans: Vec<
    Maneuver,
>)
    requires
        scenes.len() == old(veichles).len(),
    ensures
        final(veichles).len() == old(veichles).len(),
        plans.len() == old(veichles).len(),
        forall|i: int|
            0 <= i < plans.len() ==> {
                &&& is_draw((#[trigger] plans[i]).draw())
                &&& plans[i] == maneuver(
                    arena.zone_spec(scenes[i].position),
                    old(veichles)[i].veichle_type,
                    old(veichles)[i].perceived(i, scenes[i].entities@),
                    plans[i].draw(),
                )
            },
        forall|i: int|
            0 <= i < plans.len() ==> {
                &&& (#[trigger] final(veichles)[i]).target is None
                &&& final(veichles)[i].veichle_type == old(veichles)[i].veichle_type
                &&& final(veichles)[i].stats == old(veichles)[i].stats
                &&& final(veichles)[i].target_list == old(veichles)[i].target_list
            },
{
    let mut plans: Vec<Maneuver> = Vec::new();
    let mut i: usize = 0;
    while i < veichles.len()
        invariant
            i <= veichles.len(),
            veichles.len() == old(veichles).len(),
            scenes.len() == veichles.len(),
            plans.len() == i,
            forall|k: int| i <= k < veichles.len() ==> veichles[k] == old(veichles)[k],
            forall|k: int|
                0 <= k < i ==> {
                    &&& is_draw((#[trigger] plans[k]).draw())
                    &&& plans[k] == maneuver(
                        arena.zone_spec(scenes[k].position),
                        old(veichles)[k].veichle_type,
                        old(veichles)[k].perceived(k, scenes[k].entities@),
                        plans[k].draw(),
                    )
                },
            forall|k: int|
                0 <= k < i ==> {
                    &&& (#[trigger] veichles[k]).target is None
                    &&& veichles[k].veichle_type == old(veichles)[k].veichle_type
                    &&& veichles[k].stats == old(veichles)[k].stats
                    &&& veichles[k].target_list == old(veichles)[k].target_list
                },
        decreases veichles.len() - i,
    {
        let scene = &scenes[i];
        let veichle = &mut veichles[i];
        veichle.get_target(i, &scene.entities);
        let plan = veichle.steer(arena, scene.position);
        veichle.apply_force();
        plans.push(plan);
        i += 1;
    }
    plans
}

} // verus!
