use bevy::animation::AnimationTargetId;
use bevy::math::Quat;
use bevy::prelude::Name;
use bevy::transform::components::Transform;
use bevy_vrm1::math::Placement;
use bevy_vrm1::vrm::{
    BoneRestGlobalTransform, BoneRestTransform, NodePose, NodePoses, RestPose, RestPoseRegistry,
};

fn placement(transform: Transform) -> Placement {
    Placement {
        translation: transform.translation,
        rotation: transform.rotation,
        scale: transform.scale,
    }
}

fn rest(height: f32) -> RestPose {
    RestPose {
        rest: BoneRestTransform(placement(Transform::from_xyz(0.0, height, 0.0))),
        rest_global: BoneRestGlobalTransform(placement(
            Transform::from_xyz(0.0, height, 0.0).with_rotation(Quat::from_rotation_x(height)),
        )),
        target: AnimationTargetId::from_name(&Name::new("bone")),
    }
}

#[test]
fn rest_pose_is_captured_once() {
    let mut rests = RestPoseRegistry::new();
    assert!(rests.get(7).is_none());
    assert!(rests.capture(7, rest(1.0)));
    assert!(!rests.capture(7, rest(2.0)));
    let kept = rests.get(7).unwrap();
    assert_eq!(kept.rest.0, rest(1.0).rest.0);
    assert_eq!(kept.rest_global.0, rest(1.0).rest_global.0);
    assert_eq!(kept.target, rest(1.0).target);
}

#[test]
fn rest_poses_of_other_nodes_stay_when_one_is_captured() {
    let mut rests = RestPoseRegistry::new();
    assert!(rests.capture(7, rest(1.0)));
    assert!(rests.capture(8, rest(2.0)));
    assert_eq!(rests.get(7).unwrap().rest.0, rest(1.0).rest.0);
    assert_eq!(rests.get(8).unwrap().rest.0, rest(2.0).rest.0);
    assert!(rests.get(9).is_none());
}

#[test]
fn node_poses_take_the_latest_transforms() {
    let mut poses = NodePoses::new();
    assert!(poses.get(1).is_none());
    poses.insert(
        1,
        NodePose {
            local: placement(Transform::from_xyz(1.0, 0.0, 0.0)),
            global: placement(Transform::IDENTITY),
        },
    );
    poses.insert(
        1,
        NodePose {
            local: placement(Transform::from_xyz(2.0, 0.0, 0.0)),
            global: placement(Transform::IDENTITY),
        },
    );
    assert_eq!(poses.get(1).unwrap().local, placement(Transform::from_xyz(2.0, 0.0, 0.0)));
    assert!(poses.get(2).is_none());
}
