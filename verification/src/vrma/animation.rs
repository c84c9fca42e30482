//! The curves of a motion clip and what happens to their values on the way
//! to the rig.

pub mod animation_graph;
pub mod bone_rotation;
pub mod bone_translation;
pub mod expressions;
pub mod play;

use crate::Entity;
use bevy::animation::AnimationTargetId;
use std::collections::HashMap;
use vstd::prelude::*;

verus! {

/// `bevy::animation::AnimationTargetId`, the identifier under which the
/// curves of a clip address a node. Opaque: the library hands it on.
#[verifier::external_type_specification]
#[verifier::external_body]
pub struct ExAnimationTargetId(AnimationTargetId);

/// The identifiers under which curves address the nodes that can be
/// animated, by node.
pub struct AnimationTargets {
    targets: HashMap<Entity, AnimationTargetId>,
}

impl View for AnimationTargets {
    type V = Map<Entity, AnimationTargetId>;

    closed spec fn view(&self) -> Map<Entity, AnimationTargetId> {
        self.targets@
    }
}

impl AnimationTargets {
    /// No node can be animated.
    pub fn new() -> (targets: Self)
        ensures
            targets@ == Map::<Entity, AnimationTargetId>::empty(),
    {
        AnimationTargets { targets: HashMap::new() }
    }

    /// Records the identifier of `entity`, in place of an earlier one.
    pub fn insert(&mut self, entity: Entity, target: AnimationTargetId)
        ensures
            final(self)@ == old(self)@.insert(entity, target),
    {
        broadcast use vstd::std_specs::hash::group_hash_axioms;

        self.targets.insert(entity, target);
    }

    /// The identifier of `entity`, if it can be animated.
    pub fn get(&self, entity: Entity) -> (target: Option<AnimationTargetId>)
        ensures
            target == if self@.contains_key(entity) {
                Some(self@[entity])
            } else {
                None
            },
    {
        broadcast use vstd::std_specs::hash::group_hash_axioms;

        match self.targets.get(&entity) {
            Some(target) => Some(*target),
            None => None,
        }
    }
}

/// Why a committed value could not be passed on to its node.
#[derive(Debug, Clone, Copy, PartialEq, Eq, Structural)]
pub enum AnimationEvaluationError {
    /// No transformation is registered for the node.
    PropertyNotPresent,
}

} // verus!
