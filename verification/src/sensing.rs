//! Which of the animals around it an animal reacts to.
//!
//! An animal reacts to the nearest animal of a kind it looks for, and only
//! if that one is within its range and inside its cone of vision.

use crate::role::VeichleType;
use vstd::prelude::*;

verus! {

/// What one animal measures of another at the start of a tick.
#[derive(Debug, Clone, Copy, PartialEq, Eq)]
pub struct Sighting {
    /// The kind of the animal that is seen.
    pub veichle_type: VeichleType,
    /// How far away it is.
    pub distance: u64,
    /// The angle between the direction to it and the direction the observer
    /// faces; `None` where one of the two has no direction.
    pub angle: Option<u64>,
}

/// Entry `j` of `entities` is another animal, of a kind in `targets`.
pub open spec fn is_candidate(
    targets: Seq<VeichleType>,
    me: int,
    entities: Seq<Sighting>,
    j: int,
) -> bool {
    &&& 0 <= j < entities.len()
    &&& j != me
    &&& targets.contains(entities[j].veichle_type)
}

/// Entry `i` is a candidate, no candidate is nearer, and no candidate before
/// it is as near.
pub open spec fn is_nearest(
    targets: Seq<VeichleType>,
    me: int,
    entities: Seq<Sighting>,
    i: int,
) -> bool {
    &&& is_candidate(targets, me, entities, i)
    &&& forall|j: int| #[trigger]
        is_candidate(targets, me, entities, j) ==> {
            ||| entities[i].distance < entities[j].distance
            ||| entities[i].distance == entities[j].distance && i <= j
        }
}

/// The nearest candidate, if there is any candidate.
pub open spec fn nearest(targets: Seq<VeichleType>, me: int, entities: Seq<Sighting>) -> Option<
    int,
> {
    if exists|i: int| is_nearest(targets, me, entities, i) {
        Some(choose|i: int| is_nearest(targets, me, entities, i))
    } else {
        None
    }
}

/// The sighting is closer than `range` and its angle, which must exist, is
/// smaller than `cone`.
pub open spec fn in_view(range: u64, cone: u64, s: Sighting) -> bool {
    &&& s.distance < range
    &&& s.angle is Some
    &&& s.angle->0 < cone
}

/// The entry an animal reacts to: the nearest candidate, if it is in view.
pub open spec fn sensed(
    targets: Seq<VeichleType>,
    range: u64,
    cone: u64,
    me: int,
    entities: Seq<Sighting>,
) -> Option<usize> {
    match nearest(targets, me, entities) {
        Some(i) => if in_view(range, cone, entities[i]) {
            Some(i as usize)
        } else {
            None
        },
        None => None,
    }
}

/// At most one entry is the nearest.
pub proof fn lemma_nearest_unique(
    targets: Seq<VeichleType>,
    me: int,
    entities: Seq<Sighting>,
    i: int,
    j: int,
)
    requires
        is_nearest(targets, me, entities, i),
        is_nearest(targets, me, entities, j),
    ensures
        i == j,
{
}

/// An entry that is the nearest is what `nearest` names.
pub proof fn lemma_nearest_is(
    targets: Seq<VeichleType>,
    me: int,
    entities: Seq<Sighting>,
    i: int,
)
    requires
        is_nearest(targets, me, entities, i),
    ensures
        nearest(targets, me, entities) == Some(i),
{
    let k = choose|k: int| is_nearest(targets, me, entities, k);
    lemma_nearest_unique(targets, me, entities, i, k);
}

/// Among the first `n` entries, the candidate that is nearest and first, if
/// one of them is a candidate at all.
proof fn lemma_best_of_prefix(
    targets: Seq<VeichleType>,
    me: int,
    entities: Seq<Sighting>,
    n: int,
) -> (best: Option<int>)
    requires
        0 <= n <= entities.len(),
    ensures
        match best {
            Some(i) => {
                &&& 0 <= i < n
                &&& is_candidate(targets, me, entities, i)
                &&& forall|j: int|
                    0 <= j < n && #[trigger] is_candidate(targets, me, entities, j) ==> {
                        ||| entities[i].distance < entities[j].distance
                        ||| entities[i].distance == entities[j].distance && i <= j
                    }
            },
            None => forall|j: int|
                0 <= j < n ==> !#[trigger] is_candidate(targets, me, entities, j),
        },
    decreases n,
{
    if n == 0 {
        None
    } else {
        let before = lemma_best_of_prefix(targets, me, entities, n - 1);
        if is_candidate(targets, me, entities, n - 1) {
            match before {
                Some(i) => if entities[n - 1].distance < entities[i].distance {
                    Some(n - 1)
                } else {
                    Some(i)
                },
                None => Some(n - 1),
            }
        } else {
            before
        }
    }
}

/// Where there is a candidate, there is a nearest one.
pub proof fn lemma_nearest_exists(
    targets: Seq<VeichleType>,
    me: int,
    entities: Seq<Sighting>,
    j: int,
)
    requires
        is_candidate(targets, me, entities, j),
    ensures
        nearest(targets, me, entities) is Some,
{
    match lemma_best_of_prefix(targets, me, entities, entities.len() as int) {
        Some(i) => {
            assert(is_nearest(targets, me, entities, i));
            lemma_nearest_is(targets, me, entities, i);
        },
        None => {},
    }
}

/// What an animal reacts to is the nearest candidate, and it is in view.
pub proof fn lemma_sensed_is_nearest_in_view(
    targets: Seq<VeichleType>,
    range: u64,
    cone: u64,
    me: int,
    entities: Seq<Sighting>,
)
    requires
        entities.len() <= usize::MAX,
    ensures
        match sensed(targets, range, cone, me, entities) {
            Some(i) => {
                &&& i < entities.len()
                &&& is_nearest(targets, me, entities, i as int)
                &&& in_view(range, cone, entities[i as int])
            },
            None => true,
        },
{
}

/// An animal never reacts to a nearest candidate that is as far away as its
/// range reaches, or farther.
pub proof fn lemma_beyond_range_unsensed(
    targets: Seq<VeichleType>,
    range: u64,
    cone: u64,
    me: int,
    entities: Seq<Sighting>,
    i: int,
)
    requires
        is_nearest(targets, me, entities, i),
        entities[i].distance >= range,
    ensures
        sensed(targets, range, cone, me, entities) is None,
{
    lemma_nearest_is(targets, me, entities, i);
}

/// An animal never reacts to a nearest candidate that is within its range
/// but not inside its cone of vision.
pub proof fn lemma_outside_cone_unsensed(
    targets: Seq<VeichleType>,
    range: u64,
    cone: u64,
    me: int,
    entities: Seq<Sighting>,
    i: int,
)
    requires
        is_nearest(targets, me, entities, i),
        entities[i].distance < range,
        entities[i].angle is None || entities[i].angle->0 >= cone,
    ensures
        sensed(targets, range, cone, me, entities) is None,
{
    lemma_nearest_is(targets, me, entities, i);
}

/// An animal reacts to a nearest candidate that is within its range and
/// inside its cone of vision.
pub proof fn lemma_in_view_sensed(
    targets: Seq<VeichleType>,
    range: u64,
    cone: u64,
    me: int,
    entities: Seq<Sighting>,
    i: int,
)
    requires
        is_nearest(targets, me, entities, i),
        entities[i].distance < range,
        entities[i].angle is Some,
        entities[i].angle->0 < cone,
    ensures
        sensed(targets, range, cone, me, entities) == Some(i as usize),
{
    lemma_nearest_is(targets, me, entities, i);
}

/// Whether `veichle_type` is one of `targets`.
pub fn hunts(targets: &Vec<VeichleType>, veichle_type: VeichleType) -> (found: bool)
    ensures
        found == targets@.contains(veichle_type),
{
    let mut k: usize = 0;
    while k < targets.len()
        invariant
            k <= targets.len(),
            forall|n: int| 0 <= n < k ==> targets@[n] != veichle_type,
        decreases targets.len() - k,
    {
        if targets[k] == veichle_type {
            return true;
        }
        k += 1;
    }
    false
}

/// Scans `entities` for the nearest animal, other than entry `me`, of a kind
/// in `targets`. Of several at the same distance the first one wins.
pub fn find_nearest(targets: &Vec<VeichleType>, me: usize, entities: &Vec<Sighting>) -> (found:
    Option<usize>)
    ensures
        match found {
            Some(i) => nearest(targets@, me as int, entities@) == Some(i as int),
            None => nearest(targets@, me as int, entities@) is None,
        },
{
    let mut best: Option<usize> = None;
    let mut j: usize = 0;
    while j < entities.len()
        invariant
            j <= entities.len(),
            match best {
                Some(i) => {
                    &&& i < j
                    &&& is_candidate(targets@, me as int, entities@, i as int)
                    &&& forall|n: int|
                        0 <= n < j && #[trigger] is_candidate(targets@, me as int, entities@, n)
                            ==> {
                            ||| entities@[i as int].distance < entities@[n].distance
                            ||| entities@[i as int].distance == entities@[n].distance && i <= n
                        }
                },
                None => forall|n: int|
                    0 <= n < j ==> !#[trigger] is_candidate(targets@, me as int, entities@, n),
            },
        decreases entities.len() - j,
    {
        if j != me && hunts(targets, entities[j].veichle_type) {
            match best {
                Some(i) => {
                    if entities[j].distance < entities[i].distance {
                        best = Some(j);
                    }
                },
                None => {
                    best = Some(j);
                },
            }
        }
        j += 1;
    }
    proof {
        match best {
            Some(i) => {
                lemma_nearest_is(targets@, me as int, entities@, i as int);
            },
            None => {
                assert forall|i: int| !is_nearest(targets@, me as int, entities@, i) by {
                    if is_nearest(targets@, me as int, entities@, i) {
                        assert(is_candidate(targets@, me as int, entities@, i));
                    }
                }
            },
        }
    }
    best
}

/// Looks for the animal to react to: the nearest candidate, provided that it
/// is closer than `range` and that its angle exists and is smaller than
/// `cone`. Where the nearest candidate fails that, no other is taken.
pub fn sense(
    targets: &Vec<VeichleType>,
    range: u64,
    cone: u64,
    me: usize,
    entities: &Vec<Sighting>,
) -> (target: Option<usize>)
    ensures
        target == sensed(targets@, range, cone, me as int, entities@),
{
    match find_nearest(targets, me, entities) {
        Some(i) => {
            let s = entities[i];
            let seen = s.distance < range && match s.angle {
                Some(a) => a < cone,
                None => false,
            };
            if seen {
                Some(i)
            } else {
                None
            }
        },
        None => None,
    }
}

} // verus!
