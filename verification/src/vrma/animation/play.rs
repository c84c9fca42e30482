//! Starting and stopping the motion of a rig.
//!
//! A clip is a child of the avatar that it moves. Playing it starts the clip
//! on the avatar's root bone and on every expression of the avatar; stopping
//! it stops the clip on the clip's node and every node below it.

use crate::system_param::child_searcher::{
    children_in, descendants_in, parent_in, search, ChildSearcher, NodeView,
};
use crate::vrm::Vrm;
use crate::Entity;
use std::time::Duration;
use vstd::prelude::*;

verus! {

/// Repetition behavior of an animation.
#[derive(Debug, Clone, Copy, PartialEq, Eq, Structural)]
pub enum RepeatAnimation {
    /// The animation will finish after running once.
    Never,
    /// The animation will finish after running "n" times.
    Count(u32),
    /// The animation will never finish.
    Forever,
}

/// The span of time that lasts the given number of milliseconds.
pub uninterp spec fn milliseconds(millis: u64) -> Duration;

/// `Duration::from_millis` of the standard library: the span of time that
/// lasts `millis` milliseconds.
#[verifier::external_body]
fn from_millis(millis: u64) -> (duration: Duration)
    ensures
        duration == milliseconds(millis),
{
    Duration::from_millis(millis)
}

/// The request to play the motion of a clip. It is addressed to the clip's
/// node. The motion of every other clip of the same avatar fades out.
#[derive(Debug)]
pub struct PlayVrma {
    /// Repetition behavior of an animation.
    pub repeat: RepeatAnimation,
    /// A time until the existing animation fades out.
    pub transition_duration: Duration,
}

impl Default for PlayVrma {
    /// Plays the clip once, after a transition of 300 milliseconds.
    fn default() -> (play: Self)
        ensures
            play.repeat == RepeatAnimation::Never,
            play.transition_duration == milliseconds(300),
    {
        Self { repeat: RepeatAnimation::Never, transition_duration: from_millis(300) }
    }
}

/// The request to stop the motion that a clip drives. It is addressed to the
/// clip's node and stops the clip on that node and every node below it.
#[derive(Debug, Clone, Copy, PartialEq, Eq, Structural)]
pub struct StopVrma;

/// The nodes on which playing a clip starts it.
pub struct PlayTargets {
    /// The avatar's root bone, if it has one. The clip is started there with
    /// a transition from what was playing.
    pub root_bone: Option<Entity>,
    /// The avatar's expressions. On each, the weight is set back to zero,
    /// what was playing is stopped and the clip is started.
    pub expressions: Vec<Entity>,
}

/// The expressions of the avatar `vrm`: the children of its expressions
/// root, if it has one.
pub open spec fn expressions_of(vrm: Entity, nodes: Seq<NodeView>) -> Seq<Entity> {
    match search(nodes, vrm, Vrm::EXPRESSIONS_ROOT@, false) {
        Some(expressions_root) => children_in(nodes, expressions_root),
        None => Seq::empty(),
    }
}

/// Decides where the clip `vrma_entity` is started. A clip without a parent
/// moves no avatar, and nothing is started.
pub fn apply_play_vrma(vrma_entity: Entity, searcher: &ChildSearcher) -> (targets: Option<
    PlayTargets,
>)
    ensures
        match targets {
            Some(targets) => match parent_in(searcher@, vrma_entity) {
                Some(vrm) => targets.root_bone == search(searcher@, vrm, Vrm::ROOT_BONE@, false)
                    && targets.expressions@ == expressions_of(vrm, searcher@),
                None => false,
            },
            None => parent_in(searcher@, vrma_entity) is None,
        },
{
    let Some(vrm_entity) = searcher.parent_of(vrma_entity) else {
        return None;
    };
    let root_bone = play_humanoid_bone_animation(vrm_entity, searcher);
    let expressions = play_expression_animations(vrm_entity, searcher);
    Some(PlayTargets { root_bone, expressions })
}

/// The node on which the clip is started for the bones of the avatar `vrm`:
/// its root bone.
pub fn play_humanoid_bone_animation(vrm: Entity, searcher: &ChildSearcher) -> (root_bone: Option<
    Entity,
>)
    ensures
        root_bone == search(searcher@, vrm, Vrm::ROOT_BONE@, false),
{
    searcher.find_root_bone(vrm)
}

/// The nodes on which the clip is started for the expressions of the avatar
/// `vrm`: the children of its expressions root.
pub fn play_expression_animations(vrm: Entity, searcher: &ChildSearcher) -> (expressions: Vec<
    Entity,
>)
    ensures
        expressions@ == expressions_of(vrm, searcher@),
{
    match searcher.find_expressions_root(vrm) {
        Some(expressions_root) => searcher.children_of(expressions_root),
        None => Vec::new(),
    }
}

/// The nodes on which a clip is stopped: `entity` and every node below it,
/// parents before children.
pub fn stop_animations(entity: Entity, searcher: &ChildSearcher) -> (stopped: Vec<Entity>)
    ensures
        stopped@ == descendants_in(searcher@, entity),
{
    searcher.descendants(entity)
}

} // verus!
