use bevy_vrm1::system_param::child_searcher::ChildSearcher;
use bevy_vrm1::vrm::humanoid_bone::HumanoidBoneRegistry;
use bevy_vrm1::vrm::{Vrm, VrmBone};

fn named(name: &str) -> Option<String> {
    Some(name.to_string())
}

fn bone(name: &str) -> Option<VrmBone> {
    Some(VrmBone::new(name))
}

/// 1
/// ├── 2 "arm"
/// │   └── 4 "hand" (bone "leftHand")
/// └── 3 "hand" (bone "rightHand")
///     └── 5 "finger"
fn sample() -> ChildSearcher {
    let mut searcher = ChildSearcher::new();
    assert!(searcher.spawn(1, None, None));
    assert!(searcher.spawn_child(1, 2, named("arm"), None));
    assert!(searcher.spawn_child(1, 3, named("hand"), bone("rightHand")));
    assert!(searcher.spawn_child(2, 4, named("hand"), bone("leftHand")));
    assert!(searcher.spawn_child(3, 5, named("finger"), None));
    searcher
}

#[test]
fn test_find_root_bone() {
    let mut searcher = ChildSearcher::new();
    let vrm = 1;
    assert!(searcher.spawn(vrm, None, None));
    assert!(searcher.spawn_child(vrm, 2, named(Vrm::ROOT_BONE), None));
    assert_eq!(searcher.find_root_bone(vrm), Some(2));
}

#[test]
fn find_root_bone_is_none_without_such_a_node() {
    let searcher = sample();
    assert_eq!(searcher.find_root_bone(1), None);
}

#[test]
fn find_expressions_root_goes_by_its_name() {
    let mut searcher = ChildSearcher::new();
    assert!(searcher.spawn(7, None, None));
    assert!(searcher.spawn_child(7, 8, named("VRMC_vrm.root_bone"), None));
    assert!(searcher.spawn_child(7, 9, named("VRMC_vrm.expressions"), None));
    assert_eq!(searcher.find_expressions_root(7), Some(9));
    assert_eq!(searcher.find_root_bone(7), Some(8));
}

#[test]
fn find_from_name_takes_the_first_node_in_depth_first_order() {
    let searcher = sample();
    assert_eq!(searcher.find_from_name(1, "hand"), Some(4));
}

#[test]
fn find_from_name_stays_below_the_root() {
    let searcher = sample();
    assert_eq!(searcher.find_from_name(3, "hand"), Some(3));
    assert_eq!(searcher.find_from_name(3, "arm"), None);
    assert_eq!(searcher.find_from_name(2, "finger"), None);
    assert_eq!(searcher.find_from_name(1, "finger"), Some(5));
}

#[test]
fn find_from_name_of_an_unknown_root_is_none() {
    let searcher = sample();
    assert_eq!(searcher.find_from_name(42, "hand"), None);
    assert_eq!(ChildSearcher::new().find_from_name(1, "hand"), None);
}

#[test]
fn find_from_name_is_exact_about_the_name() {
    let searcher = sample();
    assert_eq!(searcher.find_from_name(1, "Hand"), None);
    assert_eq!(searcher.find_from_name(1, "han"), None);
    assert_eq!(searcher.find_from_name(1, ""), None);
}

#[test]
fn find_from_bone_name_reads_bone_names_only() {
    let searcher = sample();
    assert_eq!(searcher.find_from_bone_name(1, &VrmBone::new("rightHand")), Some(3));
    assert_eq!(searcher.find_from_bone_name(1, &VrmBone::new("leftHand")), Some(4));
    assert_eq!(searcher.find_from_bone_name(1, &VrmBone::new("hand")), None);
    assert_eq!(searcher.find_from_name(1, "leftHand"), None);
}

#[test]
fn spawn_refuses_an_identifier_twice() {
    let mut searcher = sample();
    assert!(!searcher.spawn(3, named("again"), None));
    assert!(!searcher.spawn_child(1, 5, named("again"), None));
    assert_eq!(searcher.find_from_name(1, "again"), None);
    assert_eq!(searcher.children_of(1), vec![2, 3]);
}

#[test]
fn spawn_child_needs_its_parent() {
    let mut searcher = sample();
    assert!(!searcher.spawn_child(42, 6, named("lost"), None));
    assert!(!searcher.contains(6));
    assert!(searcher.contains(5));
}

#[test]
fn parent_and_children_mirror_each_other() {
    let searcher = sample();
    assert_eq!(searcher.parent_of(1), None);
    assert_eq!(searcher.parent_of(4), Some(2));
    assert_eq!(searcher.parent_of(5), Some(3));
    assert_eq!(searcher.parent_of(42), None);
    assert_eq!(searcher.children_of(1), vec![2, 3]);
    assert_eq!(searcher.children_of(2), vec![4]);
    assert_eq!(searcher.children_of(5), Vec::<u64>::new());
    assert_eq!(searcher.children_of(42), Vec::<u64>::new());
}

#[test]
fn descendants_come_parents_first() {
    let searcher = sample();
    assert_eq!(searcher.descendants(1), vec![1, 2, 4, 3, 5]);
    assert_eq!(searcher.descendants(3), vec![3, 5]);
    assert_eq!(searcher.descendants(4), vec![4]);
    assert_eq!(searcher.descendants(42), Vec::<u64>::new());
}

#[test]
fn has_been_spawned_all_bones_wants_every_node() {
    let searcher = sample();
    let names = vec![Some("arm".to_string()), Some("finger".to_string()), Some("toe".to_string())];
    let present = HumanoidBoneRegistry::new(
        &vec![("leftUpperArm".to_string(), 0), ("leftIndexDistal".to_string(), 1)],
        &names,
    );
    assert!(searcher.has_been_spawned_all_bones(1, &present));
    assert!(!searcher.has_been_spawned_all_bones(2, &present));
    let missing = HumanoidBoneRegistry::new(
        &vec![("leftUpperArm".to_string(), 0), ("leftToes".to_string(), 2)],
        &names,
    );
    assert!(!searcher.has_been_spawned_all_bones(1, &missing));
    let empty = HumanoidBoneRegistry::new(&vec![], &names);
    assert!(searcher.has_been_spawned_all_bones(42, &empty));
}
