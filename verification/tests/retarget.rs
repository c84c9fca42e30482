use bevy::animation::AnimationTargetId;
use bevy::math::{Quat, Vec3};
use bevy::prelude::Name;
use bevy::transform::components::Transform;
use bevy_vrm1::math::Placement;
use bevy_vrm1::system_param::child_searcher::ChildSearcher;
use bevy_vrm1::vrm::humanoid_bone::HumanoidBoneRegistry;
use bevy_vrm1::vrm::{
    BoneRestGlobalTransform, BoneRestTransform, RestPose, RestPoseRegistry, Vrm, VrmBone,
};
use bevy_vrm1::vrma::animation::animation_graph::{
    animation_curve, apply_replace_humanoid_bone_animation_clips, replace_bone_animation_clips,
    replacements_for_pairs, AnimatedProperty, RetargetedCurve,
};
use bevy_vrm1::vrma::animation::bone_rotation::{
    BoneRotateTransformations, BoneRotationAnimationCurve, Factor, Transformation,
};
use bevy_vrm1::vrma::animation::bone_translation::{
    calc_delta, calc_hips_position, calc_scaling, Delta, HipsPosition, HipsTranslationAnimationCurve,
    Scaling,
};
use bevy_vrm1::vrma::animation::AnimationEvaluationError;
use std::f32::consts::FRAC_PI_2;

const VRM: u64 = 1;
const ROOT_BONE: u64 = 2;
const RIG_HIPS: u64 = 3;
const RIG_HEAD: u64 = 4;
const VRMA: u64 = 10;
const CLIP_HIPS: u64 = 11;
const CLIP_SPINE: u64 = 12;

fn target(name: &str) -> AnimationTargetId {
    AnimationTargetId::from_name(&Name::new(name.to_string()))
}

fn placement(transform: Transform) -> Placement {
    Placement {
        translation: transform.translation,
        rotation: transform.rotation,
        scale: transform.scale,
    }
}

fn rest(local: Quat, global: Quat, height: f32, name: &str) -> RestPose {
    RestPose {
        rest: BoneRestTransform(placement(
            Transform::from_xyz(0.0, height, 0.0).with_rotation(local),
        )),
        rest_global: BoneRestGlobalTransform(placement(
            Transform::from_xyz(0.0, height, 0.0).with_rotation(global),
        )),
        target: target(name),
    }
}

/// 1 avatar
/// ├── 2 root bone
/// │   └── 3 "J_Hips", bone "hips"
/// │       └── 4 "J_Head", bone "head"
/// └── 10 clip
///     └── 11 "Hips_src"
///         └── 12 "Spine_src"
fn scene() -> ChildSearcher {
    let mut searcher = ChildSearcher::new();
    assert!(searcher.spawn(VRM, None, None));
    assert!(searcher.spawn_child(VRM, ROOT_BONE, Some(Vrm::ROOT_BONE.to_string()), None));
    assert!(searcher.spawn_child(
        ROOT_BONE,
        RIG_HIPS,
        Some("J_Hips".to_string()),
        Some(VrmBone::new("hips"))
    ));
    assert!(searcher.spawn_child(
        RIG_HIPS,
        RIG_HEAD,
        Some("J_Head".to_string()),
        Some(VrmBone::new("head"))
    ));
    assert!(searcher.spawn_child(VRM, VRMA, None, None));
    assert!(searcher.spawn_child(VRMA, CLIP_HIPS, Some("Hips_src".to_string()), None));
    assert!(searcher.spawn_child(CLIP_HIPS, CLIP_SPINE, Some("Spine_src".to_string()), None));
    searcher
}

/// The clip has hips, spine and head; its head has no node.
fn clip_registry() -> HumanoidBoneRegistry {
    HumanoidBoneRegistry::new(
        &vec![("hips".to_string(), 0), ("spine".to_string(), 1), ("head".to_string(), 2)],
        &vec![
            Some("Hips_src".to_string()),
            Some("Spine_src".to_string()),
            Some("Head_src".to_string()),
        ],
    )
}

fn rests() -> RestPoseRegistry {
    let mut rests = RestPoseRegistry::new();
    assert!(rests.capture(
        RIG_HIPS,
        rest(Quat::from_rotation_y(0.5), Quat::from_rotation_y(0.75), 1.0, "rig/hips")
    ));
    assert!(rests.capture(
        RIG_HEAD,
        rest(Quat::from_rotation_x(0.1), Quat::from_rotation_x(0.2), 1.5, "rig/head")
    ));
    assert!(rests.capture(
        CLIP_HIPS,
        rest(Quat::from_rotation_z(0.25), Quat::from_rotation_z(0.3), 2.0, "clip/hips")
    ));
    assert!(rests.capture(
        CLIP_SPINE,
        rest(Quat::from_rotation_z(0.4), Quat::from_rotation_z(0.45), 2.5, "clip/spine")
    ));
    rests
}

fn table() -> BoneRotateTransformations {
    BoneRotateTransformations::new(VRMA, ROOT_BONE, &clip_registry(), &scene(), &rests())
}

fn rotation(factor: Factor) -> Quat {
    if factor.inverse {
        factor.rotation.inverse()
    } else {
        factor.rotation
    }
}

/// The rotation that a committed rotation becomes: the products that the
/// library names, multiplied out from left to right.
fn rotate(transformation: &Transformation, src_pose: Quat) -> Quat {
    let retargeting = transformation.transform(src_pose);
    let [first, second, third, fourth] = retargeting.normalized;
    let normalized = rotation(first) * rotation(second) * rotation(third) * rotation(fourth);
    let [first, second] = retargeting.before;
    rotation(first) * rotation(second) * normalized * rotation(retargeting.after)
}

#[test]
fn rotation_is_freed_of_the_rest_of_the_clip_and_given_the_rest_of_the_rig() {
    let entry = table().get(RIG_HIPS).unwrap();
    let pose = Quat::from_rotation_x(0.9);
    let retargeting = entry.transform(pose);
    let normalized: Vec<(Quat, bool)> =
        retargeting.normalized.iter().map(|factor| (factor.rotation, factor.inverse)).collect();
    assert_eq!(
        normalized,
        vec![
            (entry.src_rest_g, false),
            (entry.src_rest, true),
            (pose, false),
            (entry.src_rest_g, true),
        ]
    );
    let before: Vec<(Quat, bool)> =
        retargeting.before.iter().map(|factor| (factor.rotation, factor.inverse)).collect();
    assert_eq!(before, vec![(entry.dist_rest, false), (entry.dist_rest_g, true)]);
    assert_eq!((retargeting.after.rotation, retargeting.after.inverse), (entry.dist_rest_g, false));
}

#[test]
fn retargeted_rotation_is_the_product_of_the_formula() {
    let entry = table().get(RIG_HIPS).unwrap();
    let pose = Quat::from_rotation_x(0.9);
    let normalized =
        entry.src_rest_g * entry.src_rest.inverse() * pose * entry.src_rest_g.inverse();
    let expected = entry.dist_rest * entry.dist_rest_g.inverse() * normalized * entry.dist_rest_g;
    assert_eq!(rotate(&entry, pose), expected);
}

fn difference(delta: Delta) -> Vec3 {
    delta.pose - delta.rest
}

fn ratio(scaling: Scaling) -> f32 {
    scaling.dist_rest.y / scaling.source_rest.y
}

/// The position that the library names, summed up.
fn sum(position: HipsPosition) -> Vec3 {
    position.rest + difference(position.delta) * ratio(position.scaling)
}

#[test]
fn test_scaling() {
    let scaling = ratio(calc_scaling(Vec3::splat(1.), Vec3::splat(2.)));
    assert!((scaling - 0.5) < 0.001);
}

#[test]
fn test_delta() {
    let delta = difference(calc_delta(Vec3::splat(1.), Vec3::splat(2.)));
    assert_eq!(delta, Vec3::splat(-1.));
}

#[test]
fn scaling_is_the_ratio_of_rig_to_clip() {
    let scaling = calc_scaling(Vec3::new(7.0, 1.0, 8.0), Vec3::new(9.0, 2.0, 10.0));
    assert_eq!(scaling.dist_rest, Vec3::new(7.0, 1.0, 8.0));
    assert_eq!(scaling.source_rest, Vec3::new(9.0, 2.0, 10.0));
    assert_eq!(ratio(scaling), 0.5);
}

#[test]
fn delta_is_taken_from_the_rest_to_the_pose() {
    let delta = calc_delta(Vec3::new(1.0, 1.0, 1.0), Vec3::new(2.0, 2.0, 2.0));
    assert_eq!(delta.pose, Vec3::new(1.0, 1.0, 1.0));
    assert_eq!(delta.rest, Vec3::new(2.0, 2.0, 2.0));
    assert_eq!(difference(delta), Vec3::new(-1.0, -1.0, -1.0));
}

#[test]
fn hips_of_a_rig_half_as_high_move_half_as_far() {
    let source_rest = Vec3::new(0.0, 2.0, 0.0);
    let dist_rest = Vec3::new(0.0, 1.0, 0.0);
    let position = calc_hips_position(source_rest, source_rest + Vec3::Y, dist_rest);
    assert_eq!(ratio(position.scaling), 0.5);
    assert_eq!(sum(position), dist_rest + Vec3::new(0.0, 0.5, 0.0));
    let sideways = calc_hips_position(source_rest, Vec3::new(4.0, 2.0, -2.0), dist_rest);
    assert_eq!(sum(sideways), Vec3::new(2.0, 1.0, -1.0));
}

#[test]
fn hips_at_rest_stay_at_rest() {
    let source_rest = Vec3::new(0.5, 2.0, 0.25);
    let dist_rest = Vec3::new(0.0, 1.0, 0.0);
    let position = calc_hips_position(source_rest, source_rest, dist_rest);
    assert_eq!(position.rest, dist_rest);
    assert_eq!(position.delta.pose, position.delta.rest);
    assert_eq!(sum(position), dist_rest);
}

#[test]
fn hips_transformation_names_its_own_rest_positions() {
    let curve = HipsTranslationAnimationCurve::new(
        RIG_HIPS,
        Vec3::new(0.0, 2.0, 0.0),
        Vec3::new(0.0, 1.0, 0.0),
    );
    let mut evaluator = curve.create_evaluator();
    curve.apply(&mut evaluator);
    let transformation = evaluator.commit(RIG_HIPS).unwrap();
    let position = transformation.transform(Vec3::new(0.0, 3.0, 0.0));
    assert_eq!(position.rest, Vec3::new(0.0, 1.0, 0.0));
    assert_eq!(position.delta.pose, Vec3::new(0.0, 3.0, 0.0));
    assert_eq!(position.delta.rest, Vec3::new(0.0, 2.0, 0.0));
    assert_eq!(position.scaling.dist_rest, Vec3::new(0.0, 1.0, 0.0));
    assert_eq!(position.scaling.source_rest, Vec3::new(0.0, 2.0, 0.0));
    assert_eq!(sum(position), Vec3::new(0.0, 1.5, 0.0));
}

#[test]
fn table_holds_exactly_the_bones_of_both_skeletons() {
    let table = table();
    assert!(table.get(RIG_HIPS).is_some());
    assert!(table.get(RIG_HEAD).is_none());
    for other in [VRM, ROOT_BONE, VRMA, CLIP_HIPS, CLIP_SPINE, 99] {
        assert!(table.get(other).is_none());
    }
}

#[test]
fn table_entry_holds_the_four_rest_rotations() {
    let entry = table().get(RIG_HIPS).unwrap();
    assert_eq!(entry.src_rest, Quat::from_rotation_z(0.25));
    assert_eq!(entry.src_rest_g, Quat::from_rotation_z(0.3));
    assert_eq!(entry.dist_rest, Quat::from_rotation_y(0.5));
    assert_eq!(entry.dist_rest_g, Quat::from_rotation_y(0.75));
}

#[test]
fn table_passes_over_a_bone_without_rest_pose() {
    let mut rests = RestPoseRegistry::new();
    assert!(rests.capture(RIG_HIPS, rest(Quat::IDENTITY, Quat::IDENTITY, 1.0, "rig/hips")));
    let table =
        BoneRotateTransformations::new(VRMA, ROOT_BONE, &clip_registry(), &scene(), &rests);
    assert!(table.get(RIG_HIPS).is_none());
    let mut rests = RestPoseRegistry::new();
    assert!(rests.capture(CLIP_HIPS, rest(Quat::IDENTITY, Quat::IDENTITY, 1.0, "clip/hips")));
    let table =
        BoneRotateTransformations::new(VRMA, ROOT_BONE, &clip_registry(), &scene(), &rests);
    assert!(table.get(RIG_HIPS).is_none());
}

#[test]
fn table_of_skeletons_without_common_bones_is_empty() {
    let registry = HumanoidBoneRegistry::new(
        &vec![("spine".to_string(), 0)],
        &vec![Some("Spine_src".to_string())],
    );
    let table = BoneRotateTransformations::new(VRMA, ROOT_BONE, &registry, &scene(), &rests());
    for entity in [VRM, ROOT_BONE, RIG_HIPS, RIG_HEAD, VRMA, CLIP_HIPS, CLIP_SPINE] {
        assert!(table.get(entity).is_none());
    }
}

#[test]
fn table_of_every_common_bone() {
    let mut searcher = scene();
    assert!(searcher.spawn_child(CLIP_SPINE, 13, Some("Head_src".to_string()), None));
    let mut rests = rests();
    assert!(rests.capture(13, rest(Quat::from_rotation_x(0.6), Quat::IDENTITY, 3.0, "clip/head")));
    let table = BoneRotateTransformations::new(VRMA, ROOT_BONE, &clip_registry(), &searcher, &rests);
    assert!(table.get(RIG_HIPS).is_some());
    let head = table.get(RIG_HEAD).unwrap();
    assert_eq!(head.src_rest, Quat::from_rotation_x(0.6));
    assert_eq!(head.src_rest_g, Quat::IDENTITY);
    assert_eq!(head.dist_rest, Quat::from_rotation_x(0.1));
    assert_eq!(head.dist_rest_g, Quat::from_rotation_x(0.2));
    assert!(table.get(13).is_none());
}

#[test]
fn clone_of_a_table_holds_the_same_entries() {
    let table = table();
    let copy = table.clone();
    assert_eq!(copy.get(RIG_HIPS).unwrap().src_rest, table.get(RIG_HIPS).unwrap().src_rest);
    assert!(copy.get(RIG_HEAD).is_none());
}

#[test]
fn commit_to_a_registered_node_gives_its_transformation() {
    let evaluator = BoneRotationAnimationCurve::new(table()).create_evaluator();
    let transformation = evaluator.commit(RIG_HIPS).unwrap();
    assert_eq!(transformation.dist_rest, Quat::from_rotation_y(0.5));
}

#[test]
fn commit_to_an_unregistered_node_is_an_error() {
    let evaluator = BoneRotationAnimationCurve::new(table()).create_evaluator();
    assert_eq!(evaluator.commit(RIG_HEAD).err(), Some(AnimationEvaluationError::PropertyNotPresent));
    assert_eq!(evaluator.commit(99).err(), Some(AnimationEvaluationError::PropertyNotPresent));
}

#[test]
fn apply_hands_the_table_of_the_curve_to_the_evaluator() {
    let empty = HumanoidBoneRegistry::new(&vec![], &vec![]);
    let none = BoneRotateTransformations::new(VRMA, ROOT_BONE, &empty, &scene(), &rests());
    let mut evaluator = BoneRotationAnimationCurve::new(none).create_evaluator();
    assert!(evaluator.commit(RIG_HIPS).is_err());
    BoneRotationAnimationCurve::new(table()).apply(&mut evaluator);
    assert_eq!(evaluator.commit(RIG_HIPS).unwrap().src_rest, Quat::from_rotation_z(0.25));
    assert!(evaluator.commit(RIG_HEAD).is_err());
}

#[test]
fn apply_lets_the_entry_of_the_curve_win() {
    let mut evaluator = BoneRotationAnimationCurve::new(table()).create_evaluator();
    let mut other_rests = RestPoseRegistry::new();
    assert!(other_rests.capture(RIG_HIPS, rest(Quat::IDENTITY, Quat::IDENTITY, 1.0, "rig/hips")));
    assert!(other_rests
        .capture(CLIP_HIPS, rest(Quat::from_rotation_x(1.0), Quat::IDENTITY, 2.0, "clip/hips")));
    let other =
        BoneRotateTransformations::new(VRMA, ROOT_BONE, &clip_registry(), &scene(), &other_rests);
    BoneRotationAnimationCurve::new(other).apply(&mut evaluator);
    assert_eq!(evaluator.commit(RIG_HIPS).unwrap().src_rest, Quat::from_rotation_x(1.0));
}

#[test]
fn hips_curve_registers_its_rest_positions() {
    let curve = HipsTranslationAnimationCurve::new(
        RIG_HIPS,
        Vec3::new(0.0, 2.0, 0.0),
        Vec3::new(0.0, 1.0, 0.0),
    );
    let mut evaluator = curve.create_evaluator();
    assert_eq!(
        evaluator.commit(RIG_HIPS).err(),
        Some(AnimationEvaluationError::PropertyNotPresent)
    );
    curve.apply(&mut evaluator);
    let transformation = evaluator.commit(RIG_HIPS).unwrap();
    assert_eq!(transformation.src_rest_g, Vec3::new(0.0, 2.0, 0.0));
    assert_eq!(transformation.dist_rest_g, Vec3::new(0.0, 1.0, 0.0));
    assert!(evaluator.commit(RIG_HEAD).is_err());
}

#[test]
fn hips_curve_keeps_the_transformation_that_came_first() {
    let first = HipsTranslationAnimationCurve::new(RIG_HIPS, Vec3::X, Vec3::Y);
    let second = HipsTranslationAnimationCurve::new(RIG_HIPS, Vec3::Z, Vec3::ONE);
    let elsewhere = HipsTranslationAnimationCurve::new(RIG_HEAD, Vec3::Z, Vec3::ONE);
    let mut evaluator = first.create_evaluator();
    first.apply(&mut evaluator);
    second.apply(&mut evaluator);
    elsewhere.apply(&mut evaluator);
    assert_eq!(evaluator.commit(RIG_HIPS).unwrap().src_rest_g, Vec3::X);
    assert_eq!(evaluator.commit(RIG_HIPS).unwrap().dist_rest_g, Vec3::Y);
    assert_eq!(evaluator.commit(RIG_HEAD).unwrap().src_rest_g, Vec3::Z);
}

#[test]
fn rotation_curves_are_bound_to_the_table() {
    let rests = rests();
    let source = rests.get(CLIP_HIPS).unwrap().rest_global;
    let rig = rests.get(RIG_HIPS).unwrap().rest_global;
    for hips in [true, false] {
        let curve =
            animation_curve(AnimatedProperty::Rotation, RIG_HIPS, hips, &table(), &source, &rig);
        let RetargetedCurve::Rotation(curve) = curve else {
            panic!("a rotation curve passes through the table");
        };
        let evaluator = curve.create_evaluator();
        assert_eq!(evaluator.commit(RIG_HIPS).unwrap().src_rest, Quat::from_rotation_z(0.25));
    }
}

#[test]
fn translation_curve_of_the_hips_is_bound_to_the_rest_positions() {
    let rests = rests();
    let source = rests.get(CLIP_HIPS).unwrap().rest_global;
    let rig = rests.get(RIG_HIPS).unwrap().rest_global;
    let curve =
        animation_curve(AnimatedProperty::Translation, RIG_HIPS, true, &table(), &source, &rig);
    let RetargetedCurve::HipsTranslation(curve) = curve else {
        panic!("the translation of the hips is retargeted");
    };
    let mut evaluator = curve.create_evaluator();
    curve.apply(&mut evaluator);
    let transformation = evaluator.commit(RIG_HIPS).unwrap();
    assert_eq!(transformation.src_rest_g, Vec3::new(0.0, 2.0, 0.0));
    assert_eq!(transformation.dist_rest_g, Vec3::new(0.0, 1.0, 0.0));
}

#[test]
fn other_curves_stay_as_they_are() {
    let rests = rests();
    let source = rests.get(CLIP_HIPS).unwrap().rest_global;
    let rig = rests.get(RIG_HIPS).unwrap().rest_global;
    let table = table();
    assert!(matches!(
        animation_curve(AnimatedProperty::Translation, RIG_HEAD, false, &table, &source, &rig),
        RetargetedCurve::Unchanged
    ));
    assert!(matches!(
        animation_curve(AnimatedProperty::Other, RIG_HIPS, true, &table, &source, &rig),
        RetargetedCurve::Unchanged
    ));
    assert!(matches!(
        animation_curve(AnimatedProperty::Other, RIG_HIPS, false, &table, &source, &rig),
        RetargetedCurve::Unchanged
    ));
}

#[test]
fn curves_of_a_retargeted_bone_move_to_the_rig() {
    let replacements =
        replace_bone_animation_clips(VRMA, ROOT_BONE, &clip_registry(), &scene(), &rests());
    assert_eq!(replacements.len(), 1);
    let hips = replacements[0];
    assert_eq!(hips.from, target("clip/hips"));
    assert_eq!(hips.to, target("rig/hips"));
    assert_eq!(hips.bone_entity, RIG_HIPS);
    assert!(hips.hips);
    assert_eq!(hips.vrma_rest_gtf.0.translation, Vec3::new(0.0, 2.0, 0.0));
    assert_eq!(hips.rest_gtf.0.translation, Vec3::new(0.0, 1.0, 0.0));
}

#[test]
fn replacements_follow_the_order_of_the_pairs() {
    let mut searcher = scene();
    assert!(searcher.spawn_child(CLIP_SPINE, 13, Some("Head_src".to_string()), None));
    let mut rests = rests();
    assert!(rests.capture(13, rest(Quat::IDENTITY, Quat::IDENTITY, 3.0, "clip/head")));
    let pairs = vec![
        (VrmBone::new("head"), "Head_src".to_string()),
        (VrmBone::new("spine"), "Spine_src".to_string()),
        (VrmBone::new("hips"), "Hips_src".to_string()),
    ];
    let replacements = replacements_for_pairs(&pairs, VRMA, ROOT_BONE, &searcher, &rests);
    assert_eq!(replacements.len(), 2);
    assert_eq!(replacements[0].bone_entity, RIG_HEAD);
    assert_eq!(replacements[0].from, target("clip/head"));
    assert_eq!(replacements[0].to, target("rig/head"));
    assert!(!replacements[0].hips);
    assert_eq!(replacements[1].bone_entity, RIG_HIPS);
    assert!(replacements[1].hips);
}

#[test]
fn only_the_bone_named_hips_counts_as_hips() {
    let mut searcher = ChildSearcher::new();
    assert!(searcher.spawn(ROOT_BONE, None, None));
    assert!(searcher.spawn_child(ROOT_BONE, RIG_HIPS, None, Some(VrmBone::new("Hips"))));
    assert!(searcher.spawn(VRMA, None, None));
    assert!(searcher.spawn_child(VRMA, CLIP_HIPS, Some("Hips_src".to_string()), None));
    let pairs = vec![(VrmBone::new("Hips"), "Hips_src".to_string())];
    let replacements = replacements_for_pairs(&pairs, VRMA, ROOT_BONE, &searcher, &rests());
    assert_eq!(replacements.len(), 1);
    assert!(!replacements[0].hips);
}

#[test]
fn clip_is_retargeted_onto_the_root_bone_of_the_avatar() {
    let retargeting =
        apply_replace_humanoid_bone_animation_clips(VRMA, VRM, &clip_registry(), &scene(), &rests())
            .unwrap();
    assert!(retargeting.transformations.get(RIG_HIPS).is_some());
    assert!(retargeting.transformations.get(RIG_HEAD).is_none());
    assert_eq!(retargeting.replacements.len(), 1);
    assert_eq!(retargeting.replacements[0].bone_entity, RIG_HIPS);
}

#[test]
fn avatar_without_root_bone_is_not_retargeted() {
    let mut searcher = ChildSearcher::new();
    assert!(searcher.spawn(VRM, None, None));
    assert!(searcher.spawn_child(VRM, RIG_HIPS, None, Some(VrmBone::new("hips"))));
    assert!(searcher.spawn_child(VRM, VRMA, None, None));
    assert!(searcher.spawn_child(VRMA, CLIP_HIPS, Some("Hips_src".to_string()), None));
    assert!(apply_replace_humanoid_bone_animation_clips(
        VRMA,
        VRM,
        &clip_registry(),
        &searcher,
        &rests()
    )
    .is_none());
}

#[test]
fn rest_rotation_of_the_clip_becomes_rest_rotation_of_the_rig() {
    let entry = table().get(RIG_HIPS).unwrap();
    let replayed = rotate(&entry, entry.src_rest);
    assert!(replayed.angle_between(entry.dist_rest) < 1e-3);
}

#[test]
fn clip_for_an_upright_skeleton_played_on_a_turned_one() {
    let quarter_about_y = Quat::from_rotation_y(FRAC_PI_2);
    let mut rests = RestPoseRegistry::new();
    assert!(rests.capture(CLIP_HIPS, rest(Quat::IDENTITY, Quat::IDENTITY, 2.0, "clip/hips")));
    assert!(rests.capture(RIG_HIPS, rest(quarter_about_y, quarter_about_y, 1.0, "rig/hips")));
    let retargeting =
        apply_replace_humanoid_bone_animation_clips(VRMA, VRM, &clip_registry(), &scene(), &rests)
            .unwrap();
    let evaluator =
        BoneRotationAnimationCurve::new(retargeting.transformations).create_evaluator();
    let transformation = evaluator.commit(RIG_HIPS).unwrap();
    assert_eq!(transformation.src_rest, Quat::IDENTITY);
    assert_eq!(transformation.src_rest_g, Quat::IDENTITY);
    assert_eq!(transformation.dist_rest, quarter_about_y);
    assert_eq!(transformation.dist_rest_g, quarter_about_y);
    let retargeted = rotate(&transformation, Quat::from_rotation_x(FRAC_PI_2));
    let expected = Quat::from_xyzw(0.5, 0.5, 0.5, 0.5);
    assert!(retargeted.angle_between(expected) < 1e-3);
    let hips = retargeting.replacements[0];
    assert!(hips.hips);
    assert_eq!(hips.vrma_rest_gtf.0.translation.y, 2.0);
    assert_eq!(hips.rest_gtf.0.translation.y, 1.0);
}
