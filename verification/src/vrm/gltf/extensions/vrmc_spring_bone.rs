//! The description of a model's spring bones: chains of joints that swing
//! behind the body, and the colliders that they must not enter.

use crate::math::Scalar;
use crate::sequences::lemma_filter_map_step;
use vstd::prelude::*;

verus! {

pub struct VRMCSpringBone {
    /// The version of the description's format.
    pub spec_version: String,
    /// Every collider of the model.
    pub colliders: Vec<Collider>,
    /// The groups into which the colliders are gathered.
    pub collider_groups: Vec<ColliderGroup>,
    /// The chains.
    pub springs: Vec<Spring>,
}

pub struct ColliderGroup {
    /// Group name
    pub name: String,
    /// The colliders of the group, each an index into the colliders of the
    /// description.
    pub colliders: Vec<u64>,
}

/// A collider: the node that carries it and its shape.
#[derive(Debug, Clone, Copy)]
pub struct Collider {
    pub node: usize,
    pub shape: ColliderShape,
}

pub struct Spring {
    /// Spring name
    pub name: String,
    /// The joints of the chain, from root to tip.
    pub joints: Vec<SpringJoint>,
    /// The collider groups of the chain, each an index into the groups of
    /// the description.
    pub collider_groups: Option<Vec<usize>>,
    /// The node relative to which the chain moves.
    pub center: Option<usize>,
}

/// One joint of a chain: its node and its physical properties. A property
/// that the description leaves out is `None`.
#[derive(Debug, Clone, Copy)]
pub struct SpringJoint {
    pub node: usize,
    pub drag_force: Option<Scalar>,
    pub gravity_dir: Option<[Scalar; 3]>,
    pub gravity_power: Option<Scalar>,
    pub hit_radius: Option<Scalar>,
    pub stiffness: Option<Scalar>,
}

/// The shape of a collider.
#[derive(Debug, Clone, Copy)]
pub enum ColliderShape {
    Sphere(Sphere),
    Capsule(Capsule),
}

#[derive(Debug, Clone, Copy)]
pub struct Sphere {
    /// Local coordinate of the sphere center
    pub offset: [Scalar; 3],
    /// Radius of the sphere
    pub radius: Scalar,
}

#[derive(Debug, Clone, Copy)]
pub struct Capsule {
    /// Local coordinate of the center of the half sphere at the start point of the capsule
    pub offset: [Scalar; 3],
    /// Radius of the half sphere and cylinder part of the capsule
    pub radius: Scalar,
    /// Local coordinate of the center of the half sphere at the end point of the capsule
    pub tail: [Scalar; 3],
}

impl Default for Sphere {
    fn default() -> (sphere: Self)
        ensures
            sphere.radius.bits == 0,
            forall|i: int| 0 <= i < 3 ==> (#[trigger] sphere.offset[i]).bits == 0,
    {
        Sphere { offset: [Scalar::zero(), Scalar::zero(), Scalar::zero()], radius: Scalar::zero() }
    }
}

impl Default for ColliderShape {
    fn default() -> (shape: Self)
        ensures
            shape matches ColliderShape::Sphere(sphere) && sphere.radius.bits == 0 && forall|i: int|
                0 <= i < 3 ==> (#[trigger] sphere.offset[i]).bits == 0,
    {
        ColliderShape::Sphere(Sphere::default())
    }
}

impl ColliderShape {
    /// The radius of the shape.
    pub fn radius(&self) -> (radius: Scalar)
        ensures
            radius == match *self {
                ColliderShape::Sphere(sphere) => sphere.radius,
                ColliderShape::Capsule(capsule) => capsule.radius,
            },
    {
        match self {
            ColliderShape::Sphere(sphere) => sphere.radius,
            ColliderShape::Capsule(capsule) => capsule.radius,
        }
    }

    /// The sphere against which a joint is held back. A capsule holds
    /// nothing back.
    pub fn collision_sphere(&self) -> (sphere: Option<Sphere>)
        ensures
            sphere == match *self {
                ColliderShape::Sphere(sphere) => Some(sphere),
                ColliderShape::Capsule(_) => None,
            },
    {
        match self {
            ColliderShape::Sphere(sphere) => Some(*sphere),
            ColliderShape::Capsule(_) => None,
        }
    }
}

/// The joints of the given chains, chain after chain.
pub open spec fn joints_of(springs: Seq<Spring>) -> Seq<SpringJoint> {
    springs.map_values(|spring: Spring| spring.joints@).flatten()
}

/// The collider that a group's member names: the one at that index, if
/// there is one.
pub open spec fn member_pick(colliders: Seq<Collider>) -> spec_fn(u64) -> Option<Collider> {
    |member: u64|
        if (member as usize) < colliders.len() {
            Some(colliders[(member as usize) as int])
        } else {
            None
        }
}

/// The colliders that a group's members name, in the order of the members.
/// A member that is no index into `colliders` is passed over.
pub open spec fn members_of(colliders: Seq<Collider>, members: Seq<u64>) -> Seq<Collider> {
    members.filter_map(member_pick(colliders))
}

/// The colliders of the groups that `indices` name, group after group.
pub open spec fn colliders_of(
    colliders: Seq<Collider>,
    groups: Seq<ColliderGroup>,
    indices: Seq<usize>,
) -> Seq<Collider> {
    indices.map_values(|index: usize| members_of(colliders, groups[index as int].colliders@)).flatten()
}

impl VRMCSpringBone {
    /// The joints of all chains, chain after chain.
    pub fn all_joints(&self) -> (joints: Vec<SpringJoint>)
        ensures
            joints@ == joints_of(self.springs@),
    {
        let ghost chains = self.springs@.map_values(|spring: Spring| spring.joints@);
        let mut joints: Vec<SpringJoint> = Vec::new();
        let mut i: usize = 0;
        while i < self.springs.len()
            invariant
                i <= self.springs.len(),
                chains == self.springs@.map_values(|spring: Spring| spring.joints@),
                joints@ == chains.take(i as int).flatten(),
            decreases self.springs.len() - i,
        {
            let spring = &self.springs[i];
            let ghost before = joints@;
            let mut j: usize = 0;
            while j < spring.joints.len()
                invariant
                    j <= spring.joints.len(),
                    joints@ == before + spring.joints@.take(j as int),
                decreases spring.joints.len() - j,
            {
                joints.push(spring.joints[j]);
                assert(spring.joints@.take(j + 1) =~= spring.joints@.take(j as int).push(
                    spring.joints[j as int],
                ));
                j += 1;
            }
            proof {
                assert(spring.joints@.take(spring.joints.len() as int) =~= spring.joints@);
                assert(chains.take(i + 1) =~= chains.take(i as int).push(spring.joints@));
                chains.take(i as int).lemma_flatten_push(spring.joints@);
            }
            i += 1;
        }
        assert(chains.take(self.springs.len() as int) =~= chains);
        joints
    }

    /// The colliders of the groups that `collider_group_indices` name, group
    /// after group and in each group in the order of its members. A member
    /// that names no collider is passed over.
    pub fn spring_colliders(&self, collider_group_indices: &[usize]) -> (colliders: Vec<Collider>)
        requires
            forall|i: int|
                0 <= i < collider_group_indices@.len() ==> (#[trigger] collider_group_indices@[i])
                    < self.collider_groups.len(),
        ensures
            colliders@ == colliders_of(
                self.colliders@,
                self.collider_groups@,
                collider_group_indices@,
            ),
    {
        let ghost groups = collider_group_indices@.map_values(
            |index: usize| members_of(self.colliders@, self.collider_groups@[index as int].colliders@),
        );
        let ghost pick = member_pick(self.colliders@);
        let mut colliders: Vec<Collider> = Vec::new();
        let mut i: usize = 0;
        while i < collider_group_indices.len()
            invariant
                i <= collider_group_indices@.len(),
                forall|i: int|
                    0 <= i < collider_group_indices@.len() ==> (
                    #[trigger] collider_group_indices@[i]) < self.collider_groups.len(),
                groups == collider_group_indices@.map_values(
                    |index: usize|
                        members_of(self.colliders@, self.collider_groups@[index as int].colliders@),
                ),
                pick == member_pick(self.colliders@),
                colliders@ == groups.take(i as int).flatten(),
            decreases collider_group_indices@.len() - i,
        {
            let group = &self.collider_groups[collider_group_indices[i]];
            let ghost before = colliders@;
            let mut j: usize = 0;
            while j < group.colliders.len()
                invariant
                    j <= group.colliders.len(),
                    pick == member_pick(self.colliders@),
                    colliders@ == before + group.colliders@.take(j as int).filter_map(pick),
                decreases group.colliders.len() - j,
            {
                proof {
                    lemma_filter_map_step(group.colliders@, pick, j as int);
                }
                let index = #[verifier::truncate]
                (group.colliders[j] as usize);
                if index < self.colliders.len() {
                    colliders.push(self.colliders[index]);
                }
                j += 1;
            }
            proof {
                assert(group.colliders@.take(group.colliders.len() as int) =~= group.colliders@);
                assert(groups.take(i + 1) =~= groups.take(i as int).push(
                    members_of(self.colliders@, group.colliders@),
                ));
                groups.take(i as int).lemma_flatten_push(
                    members_of(self.colliders@, group.colliders@),
                );
            }
            i += 1;
        }
        assert(groups.take(collider_group_indices@.len() as int) =~= groups);
        colliders
    }
}

} // verus!
