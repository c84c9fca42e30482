//! The avatar model: bone names, rest poses and the registries built from
//! the model's metadata.

pub mod expressions;
pub mod gltf;
pub mod humanoid_bone;
pub mod initialize;
pub mod look_at;
pub mod spring_bone;

use crate::math::Placement;
use crate::Entity;
use bevy::animation::AnimationTargetId;
use std::collections::HashMap;
use vstd::prelude::*;

verus! {

/// The bone name obtained from the model's humanoid description.
#[derive(Debug)]
pub struct VrmBone(pub String);

impl Clone for VrmBone {
    fn clone(&self) -> (copy: Self)
        ensures
            copy@ == self@,
    {
        VrmBone(self.0.clone())
    }
}

impl View for VrmBone {
    type V = Seq<char>;

    open spec fn view(&self) -> Seq<char> {
        self.0@
    }
}

impl VrmBone {
    pub fn new(name: &str) -> (bone: Self)
        ensures
            bone@ == name@,
    {
        VrmBone(name.to_owned())
    }

    pub fn as_str(&self) -> (name: &str)
        ensures
            name@ == self@,
    {
        self.0.as_str()
    }
}

/// The key name of an expression of a model.
#[derive(Debug)]
pub struct VrmExpression(pub String);

impl Clone for VrmExpression {
    fn clone(&self) -> (copy: Self)
        ensures
            copy@ == self@,
    {
        VrmExpression(self.0.clone())
    }
}

impl View for VrmExpression {
    type V = Seq<char>;

    open spec fn view(&self) -> Seq<char> {
        self.0@
    }
}

impl VrmExpression {
    pub fn new(name: &str) -> (expression: Self)
        ensures
            expression@ == name@,
    {
        VrmExpression(name.to_owned())
    }

    pub fn as_str(&self) -> (name: &str)
        ensures
            name@ == self@,
    {
        self.0.as_str()
    }
}

/// Marker of the root node of an avatar.
#[derive(Debug, Clone, Copy)]
pub struct Vrm;

impl Vrm {
    pub const EXPRESSIONS_ROOT: &'static str = "VRMC_vrm.expressions";

    pub const ROOT_BONE: &'static str = "VRMC_vrm.root_bone";
}

/// The bone's initial transform, relative to its parent.
#[derive(Debug, Clone, Copy)]
pub struct BoneRestTransform(pub Placement);

/// The bone's initial transform in world space, as translation, rotation and
/// scale.
#[derive(Debug, Clone, Copy)]
pub struct BoneRestGlobalTransform(pub Placement);

/// The transforms that a node has at some moment: relative to its parent,
/// and in world space as translation, rotation and scale.
#[derive(Debug, Clone, Copy)]
pub struct NodePose {
    pub local: Placement,
    pub global: Placement,
}

/// The transforms of the nodes that have them, by node.
pub struct NodePoses {
    poses: HashMap<Entity, NodePose>,
}

impl View for NodePoses {
    type V = Map<Entity, NodePose>;

    closed spec fn view(&self) -> Map<Entity, NodePose> {
        self.poses@
    }
}

impl NodePoses {
    /// No node has transforms.
    pub fn new() -> (poses: Self)
        ensures
            poses@ == Map::<Entity, NodePose>::empty(),
    {
        NodePoses { poses: HashMap::new() }
    }

    /// Records the transforms of `entity`, in place of earlier ones.
    pub fn insert(&mut self, entity: Entity, pose: NodePose)
        ensures
            final(self)@ == old(self)@.insert(entity, pose),
    {
        broadcast use vstd::std_specs::hash::group_hash_axioms;

        self.poses.insert(entity, pose);
    }

    /// The transforms of `entity`, if it has them.
    pub fn get(&self, entity: Entity) -> (pose: Option<NodePose>)
        ensures
            pose == if self@.contains_key(entity) {
                Some(self@[entity])
            } else {
                None
            },
    {
        broadcast use vstd::std_specs::hash::group_hash_axioms;

        match self.poses.get(&entity) {
            Some(pose) => Some(*pose),
            None => None,
        }
    }
}

/// What is captured of a bone when its skeleton is set up: the two rest
/// transforms and the identifier under which motion curves address the bone.
#[derive(Debug, Clone, Copy)]
pub struct RestPose {
    pub rest: BoneRestTransform,
    pub rest_global: BoneRestGlobalTransform,
    pub target: AnimationTargetId,
}

/// The rest poses of the nodes that have one, by node.
pub struct RestPoseRegistry {
    poses: HashMap<Entity, RestPose>,
}

impl View for RestPoseRegistry {
    type V = Map<Entity, RestPose>;

    closed spec fn view(&self) -> Map<Entity, RestPose> {
        self.poses@
    }
}

impl RestPoseRegistry {
    /// A registry without poses.
    pub fn new() -> (registry: Self)
        ensures
            registry@ == Map::<Entity, RestPose>::empty(),
    {
        RestPoseRegistry { poses: HashMap::new() }
    }

    /// Captures the rest pose of `entity`, unless one was captured before: a
    /// rest pose, once captured, stays as it is.
    pub fn capture(&mut self, entity: Entity, pose: RestPose) -> (captured: bool)
        ensures
            captured == !old(self)@.contains_key(entity),
            final(self)@ == if captured {
                old(self)@.insert(entity, pose)
            } else {
                old(self)@
            },
            forall|known: Entity| #[trigger]
                old(self)@.contains_key(known) ==> final(self)@.contains_key(known)
                    && final(self)@[known] == old(self)@[known],
    {
        broadcast use vstd::std_specs::hash::group_hash_axioms;

        if self.poses.contains_key(&entity) {
            false
        } else {
            self.poses.insert(entity, pose);
            true
        }
    }

    /// The rest pose of `entity`, if one was recorded.
    pub fn get(&self, entity: Entity) -> (pose: Option<RestPose>)
        ensures
            pose == if self@.contains_key(entity) {
                Some(self@[entity])
            } else {
                None
            },
    {
        broadcast use vstd::std_specs::hash::group_hash_axioms;

        match self.poses.get(&entity) {
            Some(pose) => Some(*pose),
            None => None,
        }
    }
}

} // verus!
