use bevy::animation::AnimationPlayer;
use bevy::prelude::{AnimationNodeIndex, AnimationTransitions};
use bevy_vrm1::system_param::child_searcher::ChildSearcher;
use bevy_vrm1::vrm::look_at::{calc_target_position, LookAt, LookAtSource};
use bevy_vrm1::vrm::Vrm;
use bevy_vrm1::vrma::animation::play::{
    apply_play_vrma, play_expression_animations, play_humanoid_bone_animation, stop_animations,
    PlayVrma, RepeatAnimation, StopVrma,
};
use std::time::Duration;

/// 1 avatar
/// ├── 2 clip
/// │   └── 3 clip bone
/// ├── 4 root bone
/// └── 5 expressions
///     ├── 6 "happy"
///     └── 7 "sad"
fn avatar() -> ChildSearcher {
    let mut searcher = ChildSearcher::new();
    assert!(searcher.spawn(1, None, None));
    assert!(searcher.spawn_child(1, 2, None, None));
    assert!(searcher.spawn_child(2, 3, Some("Hips".to_string()), None));
    assert!(searcher.spawn_child(1, 4, Some(Vrm::ROOT_BONE.to_string()), None));
    assert!(searcher.spawn_child(1, 5, Some(Vrm::EXPRESSIONS_ROOT.to_string()), None));
    assert!(searcher.spawn_child(5, 6, Some("happy".to_string()), None));
    assert!(searcher.spawn_child(5, 7, Some("sad".to_string()), None));
    searcher
}

fn repeat(repeat: RepeatAnimation) -> bevy::animation::RepeatAnimation {
    match repeat {
        RepeatAnimation::Never => bevy::animation::RepeatAnimation::Never,
        RepeatAnimation::Count(times) => bevy::animation::RepeatAnimation::Count(times),
        RepeatAnimation::Forever => bevy::animation::RepeatAnimation::Forever,
    }
}

/// An avatar with a clip and a root bone. The player of the root bone is
/// held beside the scene, as the host holds it.
fn avatar_with_clip() -> (ChildSearcher, u64, u64) {
    let mut searcher = ChildSearcher::new();
    let vrm = 1;
    let vrma = 2;
    assert!(searcher.spawn(vrm, None, None));
    assert!(searcher.spawn_child(vrm, vrma, None, None));
    assert!(searcher.spawn_child(vrm, 3, Some(Vrm::ROOT_BONE.to_string()), None));
    (searcher, vrma, 3)
}

#[test]
fn test_play_vrma() {
    let (searcher, vrma, root_bone) = avatar_with_clip();
    let mut player = AnimationPlayer::default();
    let mut transitions = AnimationTransitions::default();
    let play = PlayVrma::default();
    let node_index = AnimationNodeIndex::default();

    let targets = apply_play_vrma(vrma, &searcher).expect("Failed to find AnimationPlayer");
    if targets.root_bone == Some(root_bone) {
        transitions
            .play(&mut player, node_index, play.transition_duration)
            .set_repeat(repeat(play.repeat));
    }

    assert!(!player.all_finished());
}

#[test]
fn test_stop_vrma() {
    let (searcher, vrma, root_bone) = avatar_with_clip();
    let mut player = AnimationPlayer::default();
    let mut transitions = AnimationTransitions::default();
    let play = PlayVrma::default();
    let node_index = AnimationNodeIndex::default();
    // The root bone of this avatar has a player but no transform, so the
    // host starts nothing on it.
    let root_bone_has_transform = false;

    let targets = apply_play_vrma(vrma, &searcher).expect("Failed to find AnimationPlayer");
    if root_bone_has_transform && targets.root_bone == Some(root_bone) {
        transitions
            .play(&mut player, node_index, play.transition_duration)
            .set_repeat(repeat(play.repeat));
    }
    let _request = StopVrma;
    for stopped in stop_animations(vrma, &searcher) {
        if stopped == root_bone {
            player.stop(node_index);
        }
    }

    assert!(player.all_finished());
}

#[test]
fn play_defaults_to_once_after_a_short_transition() {
    let play = PlayVrma::default();
    assert_eq!(play.repeat, RepeatAnimation::Never);
    assert_eq!(play.transition_duration, Duration::from_millis(300));
}

#[test]
fn clip_is_played_on_root_bone_and_expressions() {
    let targets = apply_play_vrma(2, &avatar()).unwrap();
    assert_eq!(targets.root_bone, Some(4));
    assert_eq!(targets.expressions, vec![6, 7]);
}

#[test]
fn clip_without_avatar_is_not_played() {
    let searcher = avatar();
    assert!(apply_play_vrma(1, &searcher).is_none());
    assert!(apply_play_vrma(42, &searcher).is_none());
}

#[test]
fn avatar_without_root_bone_or_expressions_has_no_targets() {
    let mut searcher = ChildSearcher::new();
    assert!(searcher.spawn(1, None, None));
    assert!(searcher.spawn_child(1, 2, None, None));
    let targets = apply_play_vrma(2, &searcher).unwrap();
    assert_eq!(targets.root_bone, None);
    assert!(targets.expressions.is_empty());
    assert_eq!(play_humanoid_bone_animation(1, &searcher), None);
    assert!(play_expression_animations(1, &searcher).is_empty());
}

#[test]
fn clip_is_stopped_on_its_node_and_below() {
    let searcher = avatar();
    let _request = StopVrma;
    assert_eq!(stop_animations(2, &searcher), vec![2, 3]);
    assert_eq!(stop_animations(3, &searcher), vec![3]);
    assert_eq!(stop_animations(42, &searcher), Vec::<u64>::new());
}

#[test]
fn cursor_is_seen_by_the_given_camera() {
    let source = calc_target_position(&LookAt::Cursor { camera: Some(8) }, &vec![1, 2, 3]);
    assert!(matches!(source, LookAtSource::Cursor(cameras) if cameras == vec![8]));
}

#[test]
fn cursor_is_seen_by_any_camera_when_none_is_given() {
    let source = calc_target_position(&LookAt::Cursor { camera: None }, &vec![1, 2, 3]);
    assert!(matches!(source, LookAtSource::Cursor(cameras) if cameras == vec![1, 2, 3]));
    let source = calc_target_position(&LookAt::Cursor { camera: None }, &vec![]);
    assert!(matches!(source, LookAtSource::Cursor(cameras) if cameras.is_empty()));
}

#[test]
fn target_is_looked_at_where_it_stands() {
    let source = calc_target_position(&LookAt::Target(9), &vec![1, 2, 3]);
    assert!(matches!(source, LookAtSource::Node(9)));
}
