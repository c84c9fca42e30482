//! Spring chains on the nodes of a scene.
//!
//! A model describes its chains by node names. Once the model's nodes stand
//! in the scene, each chain is resolved to nodes and attached to its first
//! joint; its joints are then seeded pair by pair, and from then on the
//! chain is advanced once per tick.

pub mod initialize;
pub mod registry;

use crate::math::Scalar;
use crate::vrm::gltf::extensions::vrmc_spring_bone::ColliderShape;
use crate::Entity;
use bevy::math::{Mat4, Quat, Vec3};
use vstd::prelude::*;

verus! {

/// The node relative to which a chain moves, if it has one.
#[derive(Debug, Clone, Copy)]
pub struct SpringCenterNode(pub Option<Entity>);

/// The joints of a chain, from root to tip.
pub struct SpringJoints(pub Vec<Entity>);

/// The colliders of a chain, each with the node that carries it.
pub struct SpringColliders(pub Vec<(Entity, ColliderShape)>);

/// A chain as it stands in the scene. It is attached to its first joint.
pub struct SpringRoot {
    pub center_node: SpringCenterNode,
    pub joints: SpringJoints,
    pub colliders: SpringColliders,
}

/// What a chain holds.
pub struct SpringRootView {
    pub center_node: Option<Entity>,
    pub joints: Seq<Entity>,
    pub colliders: Seq<(Entity, ColliderShape)>,
}

impl View for SpringRoot {
    type V = SpringRootView;

    open spec fn view(&self) -> SpringRootView {
        SpringRootView {
            center_node: self.center_node.0,
            joints: self.joints.0@,
            colliders: self.colliders.0@,
        }
    }
}

/// The simulation state of a joint: where the tail of its bone is and was
/// one tick before, and what was found of the bone when the joint was
/// seeded: its direction, its length and the rest transform of the joint.
#[derive(Debug, Clone, Copy)]
pub struct SpringJointState {
    pub prev_tail: Vec3,
    pub current_tail: Vec3,
    pub bone_axis: Vec3,
    pub bone_length: Scalar,
    pub initial_local_matrix: Mat4,
    pub initial_local_rotation: Quat,
}

impl SpringJointState {
    /// The state of a joint that is seeded with its tail at `tail_pos`: the
    /// tail has not moved yet.
    pub fn new(
        tail_pos: Vec3,
        bone_axis: Vec3,
        bone_length: Scalar,
        initial_local_matrix: Mat4,
        initial_local_rotation: Quat,
    ) -> (state: Self)
        ensures
            state == (SpringJointState {
                prev_tail: tail_pos,
                current_tail: tail_pos,
                bone_axis,
                bone_length,
                initial_local_matrix,
                initial_local_rotation,
            }),
    {
        SpringJointState {
            prev_tail: tail_pos,
            current_tail: tail_pos,
            bone_axis,
            bone_length,
            initial_local_matrix,
            initial_local_rotation,
        }
    }

    /// One tick: the tail moves to `next_tail`, and where it was becomes
    /// where it was one tick before. What was found when the joint was
    /// seeded stays as it is.
    pub fn advance(&mut self, next_tail: Vec3)
        ensures
            *final(self) == (SpringJointState {
                prev_tail: old(self).current_tail,
                current_tail: next_tail,
                ..*old(self)
            }),
    {
        self.prev_tail = self.current_tail;
        self.current_tail = next_tail;
    }
}

/// Where a chain stands in its life.
#[derive(Debug, Clone, Copy, PartialEq, Eq, Structural)]
pub enum SpringChainPhase {
    /// The joints have no simulation state yet.
    Unseeded,
    /// The joints were seeded in this tick.
    Seeded,
    /// The chain is advanced once per tick.
    Steady,
}

/// What is done with a chain in a tick.
#[derive(Debug, Clone, Copy, PartialEq, Eq, Structural)]
pub enum SpringChainStep {
    /// Nothing: the chain cannot be seeded yet.
    Wait,
    /// The joints are seeded.
    Seed,
    /// The joints are advanced by one step.
    Advance,
}

impl SpringChainPhase {
    /// The phase after a tick in which the chain's joints and transforms
    /// were resolvable, or not.
    pub open spec fn next(self, resolvable: bool) -> SpringChainPhase {
        match self {
            SpringChainPhase::Unseeded => if resolvable {
                SpringChainPhase::Seeded
            } else {
                SpringChainPhase::Unseeded
            },
            SpringChainPhase::Seeded => SpringChainPhase::Steady,
            SpringChainPhase::Steady => SpringChainPhase::Steady,
        }
    }

    /// What is done in such a tick.
    pub open spec fn step(self, resolvable: bool) -> SpringChainStep {
        match self {
            SpringChainPhase::Unseeded => if resolvable {
                SpringChainStep::Seed
            } else {
                SpringChainStep::Wait
            },
            SpringChainPhase::Seeded => SpringChainStep::Advance,
            SpringChainPhase::Steady => SpringChainStep::Advance,
        }
    }

    /// One tick of a chain: an unseeded chain is seeded as soon as it is
    /// resolvable, and every later tick advances it.
    pub fn tick(self, resolvable: bool) -> (outcome: (SpringChainPhase, SpringChainStep))
        ensures
            outcome.0 == self.next(resolvable),
            outcome.1 == self.step(resolvable),
    {
        match self {
            SpringChainPhase::Unseeded => {
                if resolvable {
                    (SpringChainPhase::Seeded, SpringChainStep::Seed)
                } else {
                    (SpringChainPhase::Unseeded, SpringChainStep::Wait)
                }
            },
            SpringChainPhase::Seeded => (SpringChainPhase::Steady, SpringChainStep::Advance),
            SpringChainPhase::Steady => (SpringChainPhase::Steady, SpringChainStep::Advance),
        }
    }
}

/// The phase after the ticks whose resolvability `ticks` lists, first tick
/// first.
pub open spec fn phase_after(start: SpringChainPhase, ticks: Seq<bool>) -> SpringChainPhase
    decreases ticks.len(),
{
    if ticks.len() == 0 {
        start
    } else {
        phase_after(start, ticks.drop_last()).next(ticks.last())
    }
}

/// The number of ticks among `ticks` in which the chain was seeded.
pub open spec fn seedings(start: SpringChainPhase, ticks: Seq<bool>) -> nat
    decreases ticks.len(),
{
    if ticks.len() == 0 {
        0
    } else {
        let before = seedings(start, ticks.drop_last());
        if phase_after(start, ticks.drop_last()).step(ticks.last()) == SpringChainStep::Seed {
            before + 1
        } else {
            before
        }
    }
}

/// A chain is seeded at most once, never returns to the unseeded phase once
/// it has left it, and has left it exactly when it was seeded.
pub proof fn lemma_seeded_once(ticks: Seq<bool>)
    ensures
        seedings(SpringChainPhase::Unseeded, ticks) <= 1,
        seedings(SpringChainPhase::Unseeded, ticks) == 1 <==> phase_after(
            SpringChainPhase::Unseeded,
            ticks,
        ) != SpringChainPhase::Unseeded,
    decreases ticks.len(),
{
    if ticks.len() > 0 {
        lemma_seeded_once(ticks.drop_last());
    }
}

} // verus!
