use forest_sim::sensing::{find_nearest, hunts, sense};
use forest_sim::{Sighting, Veichle, VeichleType};

fn seen(veichle_type: VeichleType, distance: u64, angle: Option<u64>) -> Sighting {
    Sighting { veichle_type, distance, angle }
}

fn me() -> Sighting {
    seen(VeichleType::Eagle, 0, None)
}

#[test]
fn hunts_finds_a_listed_kind() {
    let targets = vec![VeichleType::Rat];
    assert!(hunts(&targets, VeichleType::Rat));
    assert!(!hunts(&targets, VeichleType::Eagle));
    assert!(!hunts(&Vec::new(), VeichleType::Rat));
    let both = vec![VeichleType::Rat, VeichleType::Eagle];
    assert!(hunts(&both, VeichleType::Eagle));
}

#[test]
fn nearest_is_the_closest_candidate() {
    let targets = vec![VeichleType::Rat];
    let entities = vec![
        me(),
        seen(VeichleType::Rat, 900, Some(0)),
        seen(VeichleType::Rat, 400, Some(0)),
        seen(VeichleType::Rat, 700, Some(0)),
    ];
    assert_eq!(find_nearest(&targets, 0, &entities), Some(2));
}

#[test]
fn nearest_of_equals_is_the_first() {
    let targets = vec![VeichleType::Rat];
    let entities = vec![
        me(),
        seen(VeichleType::Rat, 400, Some(0)),
        seen(VeichleType::Rat, 400, Some(0)),
    ];
    assert_eq!(find_nearest(&targets, 0, &entities), Some(1));
}

#[test]
fn nearest_skips_other_kinds() {
    let targets = vec![VeichleType::Rat];
    let entities = vec![
        me(),
        seen(VeichleType::Eagle, 10, Some(0)),
        seen(VeichleType::Rat, 400, Some(0)),
    ];
    assert_eq!(find_nearest(&targets, 0, &entities), Some(2));
}

#[test]
fn nearest_skips_the_animal_itself() {
    let targets = vec![VeichleType::Eagle];
    let entities = vec![me(), seen(VeichleType::Eagle, 300, Some(0))];
    assert_eq!(find_nearest(&targets, 0, &entities), Some(1));
    assert_eq!(find_nearest(&targets, 1, &entities), Some(0));
    assert_eq!(find_nearest(&targets, 0, &vec![me()]), None);
}

#[test]
fn nearest_of_no_candidate_is_none() {
    let targets = vec![VeichleType::Rat];
    assert_eq!(find_nearest(&targets, 0, &Vec::new()), None);
    assert_eq!(find_nearest(&targets, 0, &vec![me(), me()]), None);
    let rats = vec![me(), seen(VeichleType::Rat, 5, Some(0))];
    assert_eq!(find_nearest(&Vec::new(), 0, &rats), None);
}

#[test]
fn nearest_may_be_as_far_as_can_be_counted() {
    let targets = vec![VeichleType::Rat];
    let entities = vec![me(), seen(VeichleType::Rat, u64::MAX, Some(0))];
    assert_eq!(find_nearest(&targets, 0, &entities), Some(1));
}

#[test]
fn target_beyond_the_range_is_not_sensed() {
    let targets = vec![VeichleType::Rat];
    let entities = vec![me(), seen(VeichleType::Rat, 150_001, Some(0))];
    assert_eq!(sense(&targets, 150_000, 3_142, 0, &entities), None);
}

#[test]
fn target_at_the_range_is_not_sensed() {
    let targets = vec![VeichleType::Rat];
    let entities = vec![me(), seen(VeichleType::Rat, 150_000, Some(0))];
    assert_eq!(sense(&targets, 150_000, 3_142, 0, &entities), None);
    let closer = vec![me(), seen(VeichleType::Rat, 149_999, Some(0))];
    assert_eq!(sense(&targets, 150_000, 3_142, 0, &closer), Some(1));
}

#[test]
fn target_outside_the_cone_is_not_sensed() {
    let targets = vec![VeichleType::Rat];
    let entities = vec![me(), seen(VeichleType::Rat, 100_000, Some(1_000))];
    assert_eq!(sense(&targets, 150_000, 1_000, 0, &entities), None);
    assert_eq!(sense(&targets, 150_000, 999, 0, &entities), None);
    assert_eq!(sense(&targets, 150_000, 1_001, 0, &entities), Some(1));
}

#[test]
fn target_without_an_angle_is_not_sensed() {
    let targets = vec![VeichleType::Rat];
    let entities = vec![me(), seen(VeichleType::Rat, 100_000, None)];
    assert_eq!(sense(&targets, 150_000, 3_142, 0, &entities), None);
    assert_eq!(sense(&targets, u64::MAX, u64::MAX, 0, &entities), None);
}

#[test]
fn target_in_range_and_cone_is_sensed() {
    let targets = vec![VeichleType::Rat];
    let entities = vec![me(), seen(VeichleType::Rat, 100_000, Some(3_141))];
    assert_eq!(sense(&targets, 150_000, 3_142, 0, &entities), Some(1));
}

#[test]
fn only_the_nearest_candidate_is_asked() {
    let targets = vec![VeichleType::Rat];
    let entities = vec![
        me(),
        seen(VeichleType::Rat, 50_000, Some(2_000)),
        seen(VeichleType::Rat, 60_000, Some(0)),
    ];
    assert_eq!(sense(&targets, 150_000, 1_000, 0, &entities), None);
}

#[test]
fn get_target_takes_the_sensed_animal() {
    let mut eagle = Veichle::new(VeichleType::Eagle);
    let entities = vec![
        me(),
        seen(VeichleType::Rat, 120_000, Some(500)),
        seen(VeichleType::Rat, 80_000, Some(500)),
    ];
    eagle.get_target(0, &entities);
    assert_eq!(eagle.target, Some(2));
    let mut fresh = Veichle::new(VeichleType::Eagle);
    fresh.target = Some(2);
    assert_eq!(eagle, fresh);
}

#[test]
fn get_target_leaves_the_target_where_nothing_is_sensed() {
    let mut rat = Veichle::new(VeichleType::Rat);
    let far = vec![seen(VeichleType::Eagle, 894_427, Some(463)), seen(VeichleType::Rat, 0, None)];
    rat.get_target(1, &far);
    assert_eq!(rat.target, None);
    rat.target = Some(7);
    rat.get_target(1, &far);
    assert_eq!(rat.target, Some(7));
}

#[test]
fn get_target_replaces_an_earlier_target() {
    let mut rat = Veichle::new(VeichleType::Rat);
    rat.target = Some(7);
    let near = vec![seen(VeichleType::Eagle, 10_000, Some(463)), seen(VeichleType::Rat, 0, None)];
    rat.get_target(1, &near);
    assert_eq!(rat.target, Some(0));
}
