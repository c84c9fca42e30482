//! The spring chains of a model as its description names them: by the names
//! of their nodes.

use crate::math::Scalar;
use crate::names::{name_of, node_name};
use crate::sequences::lemma_filter_map_step;
use crate::vrm::gltf::extensions::vrmc_spring_bone::{
    colliders_of, Collider, ColliderShape, Spring, SpringJoint, VRMCSpringBone,
};
use vstd::prelude::*;

verus! {

/// One chain of a model.
pub struct SpringNode {
    /// The name of the node relative to which the chain moves.
    pub center: Option<String>,
    /// The names of the joints, from root to tip.
    pub joints: Vec<String>,
    /// The colliders of the chain, each with the name of the node that
    /// carries it.
    pub colliders: Vec<(String, ColliderShape)>,
}

/// What a chain of a model holds.
pub struct SpringNodeView {
    pub center: Option<Seq<char>>,
    pub joints: Seq<Seq<char>>,
    pub colliders: Seq<(Seq<char>, ColliderShape)>,
}

impl View for SpringNode {
    type V = SpringNodeView;

    open spec fn view(&self) -> SpringNodeView {
        SpringNodeView {
            center: match self.center {
                Some(center) => Some(center@),
                None => None,
            },
            joints: name_views(self.joints@),
            colliders: named_views(self.colliders@),
        }
    }
}

/// The chains of a model.
pub struct SpringNodeRegistry(pub Vec<SpringNode>);

/// The physical properties of a joint, every one of them set.
#[derive(Debug, Clone, Copy)]
pub struct SpringJointProps {
    pub drag_force: Scalar,
    pub gravity_dir: [Scalar; 3],
    pub gravity_power: Scalar,
    pub hit_radius: Scalar,
    pub stiffness: Scalar,
}

/// A number that the description may leave out, and zero in its place.
pub open spec fn or_zero(given: Option<Scalar>) -> Scalar {
    match given {
        Some(given) => given,
        None => Scalar { bits: 0 },
    }
}

impl SpringJointProps {
    /// The properties of a joint as its description gives them, with the
    /// default in place of each one that the description leaves out: zero
    /// for the drag force, the gravity power, the hit radius and the
    /// stiffness, and straight down for the direction of gravity.
    pub fn new(joint: &SpringJoint) -> (props: Self)
        ensures
            props.drag_force == or_zero(joint.drag_force),
            props.gravity_power == or_zero(joint.gravity_power),
            props.hit_radius == or_zero(joint.hit_radius),
            props.stiffness == or_zero(joint.stiffness),
            match joint.gravity_dir {
                Some(gravity_dir) => props.gravity_dir == gravity_dir,
                None => props.gravity_dir[0].bits == 0 && props.gravity_dir[1].bits == 0xBF80_0000
                    && props.gravity_dir[2].bits == 0,
            },
    {
        SpringJointProps {
            drag_force: scalar_or_zero(joint.drag_force),
            gravity_dir: match joint.gravity_dir {
                Some(gravity_dir) => gravity_dir,
                None => [Scalar::zero(), Scalar::minus_one(), Scalar::zero()],
            },
            gravity_power: scalar_or_zero(joint.gravity_power),
            hit_radius: scalar_or_zero(joint.hit_radius),
            stiffness: scalar_or_zero(joint.stiffness),
        }
    }
}

fn scalar_or_zero(given: Option<Scalar>) -> (scalar: Scalar)
    ensures
        scalar == or_zero(given),
{
    match given {
        Some(given) => given,
        None => Scalar::zero(),
    }
}

/// The physical properties of a model's joints, each with the joint's node
/// name.
pub struct SpringJointPropsRegistry(pub Vec<(String, SpringJoint)>);

/// The shapes of a model's colliders, each with the name of the node that
/// carries it.
pub struct SpringColliderRegistry(pub Vec<(String, ColliderShape)>);

/// A joint under the name of its node, if that name is known.
pub open spec fn joint_pick(node_names: Seq<Option<String>>) -> spec_fn(SpringJoint) -> Option<
    (Seq<char>, SpringJoint),
> {
    |joint: SpringJoint|
        match name_of(joint.node, node_names) {
            Some(name) => Some((name, joint)),
            None => None,
        }
}

/// The shape of a collider under the name of its node, if that name is
/// known.
pub open spec fn shape_pick(node_names: Seq<Option<String>>) -> spec_fn(Collider) -> Option<
    (Seq<char>, ColliderShape),
> {
    |collider: Collider|
        match name_of(collider.node, node_names) {
            Some(name) => Some((name, collider.shape)),
            None => None,
        }
}

/// The name of the node of a joint, if that name is known.
pub open spec fn joint_name_pick(node_names: Seq<Option<String>>) -> spec_fn(SpringJoint) -> Option<
    Seq<char>,
> {
    |joint: SpringJoint| name_of(joint.node, node_names)
}

/// The views of named values.
pub open spec fn named_views<T>(named: Seq<(String, T)>) -> Seq<(Seq<char>, T)> {
    named.map_values(|pair: (String, T)| (pair.0@, pair.1))
}

/// The views of names.
pub open spec fn name_views(names: Seq<String>) -> Seq<Seq<char>> {
    names.map_values(|name: String| name@)
}

/// The views of a model's chains.
pub open spec fn spring_views(springs: Seq<SpringNode>) -> Seq<SpringNodeView> {
    springs.map_values(|spring: SpringNode| spring@)
}

impl SpringJointPropsRegistry {
    /// Lists the joints whose node has a name in `node_names`, each under
    /// that name, in the order of the joints.
    pub fn new(joints: &Vec<SpringJoint>, node_names: &Vec<Option<String>>) -> (registry: Self)
        ensures
            named_views(registry.0@) == joints@.filter_map(joint_pick(node_names@)),
    {
        let ghost pick = joint_pick(node_names@);
        let mut named: Vec<(String, SpringJoint)> = Vec::new();
        let mut i: usize = 0;
        while i < joints.len()
            invariant
                i <= joints.len(),
                pick == joint_pick(node_names@),
                named_views(named@) == joints@.take(i as int).filter_map(pick),
            decreases joints.len() - i,
        {
            proof {
                lemma_filter_map_step(joints@, pick, i as int);
            }
            if let Some(name) = node_name(joints[i].node, node_names) {
                let ghost before = named_views(named@);
                named.push((name, joints[i]));
                assert(named_views(named@) =~= before.push((name@, joints[i as int])));
            }
            i += 1;
        }
        assert(joints@.take(joints.len() as int) =~= joints@);
        SpringJointPropsRegistry(named)
    }
}

/// Lists the shapes of the colliders whose node has a name in `node_names`,
/// each under that name, in the order of the colliders.
fn named_shapes(colliders: &Vec<Collider>, node_names: &Vec<Option<String>>) -> (named: Vec<
    (String, ColliderShape),
>)
    ensures
        named_views(named@) == colliders@.filter_map(shape_pick(node_names@)),
{
    let ghost pick = shape_pick(node_names@);
    let mut named: Vec<(String, ColliderShape)> = Vec::new();
    let mut i: usize = 0;
    while i < colliders.len()
        invariant
            i <= colliders.len(),
            pick == shape_pick(node_names@),
            named_views(named@) == colliders@.take(i as int).filter_map(pick),
        decreases colliders.len() - i,
    {
        proof {
            lemma_filter_map_step(colliders@, pick, i as int);
        }
        if let Some(name) = node_name(colliders[i].node, node_names) {
            let ghost before = named_views(named@);
            named.push((name, colliders[i].shape));
            assert(named_views(named@) =~= before.push((name@, colliders[i as int].shape)));
        }
        i += 1;
    }
    assert(colliders@.take(colliders.len() as int) =~= colliders@);
    named
}

impl SpringColliderRegistry {
    /// Lists the shapes of the colliders whose node has a name in
    /// `node_names`, each under that name, in the order of the colliders.
    pub fn new(colliders: &Vec<Collider>, node_names: &Vec<Option<String>>) -> (registry: Self)
        ensures
            named_views(registry.0@) == colliders@.filter_map(shape_pick(node_names@)),
    {
        SpringColliderRegistry(named_shapes(colliders, node_names))
    }
}

/// The collider groups of a chain: those that its description names, and
/// none if it names none.
pub open spec fn groups_of(spring: Spring) -> Seq<usize> {
    match spring.collider_groups {
        Some(groups) => groups@,
        None => Seq::empty(),
    }
}

/// Whether every collider group that a chain names is a group of the
/// description.
pub open spec fn groups_exist(description: VRMCSpringBone) -> bool {
    forall|i: int, k: int|
        0 <= i < description.springs@.len() && 0 <= k < groups_of(description.springs@[i]).len()
            ==> (#[trigger] groups_of(description.springs@[i])[k])
            < description.collider_groups@.len()
}

/// A chain of the description by the names of its nodes: its center, its
/// joints and the colliders of its groups, each as far as the name of the
/// node is known.
pub open spec fn spring_node_of(
    spring: Spring,
    description: VRMCSpringBone,
    node_names: Seq<Option<String>>,
) -> SpringNodeView {
    SpringNodeView {
        center: match spring.center {
            Some(center) => name_of(center, node_names),
            None => None,
        },
        joints: spring.joints@.filter_map(joint_name_pick(node_names)),
        colliders: colliders_of(
            description.colliders@,
            description.collider_groups@,
            groups_of(spring),
        ).filter_map(shape_pick(node_names)),
    }
}

fn joint_names(joints: &Vec<SpringJoint>, node_names: &Vec<Option<String>>) -> (names: Vec<String>)
    ensures
        name_views(names@) == joints@.filter_map(joint_name_pick(node_names@)),
{
    let ghost pick = joint_name_pick(node_names@);
    let mut names: Vec<String> = Vec::new();
    let mut i: usize = 0;
    while i < joints.len()
        invariant
            i <= joints.len(),
            pick == joint_name_pick(node_names@),
            name_views(names@) == joints@.take(i as int).filter_map(pick),
        decreases joints.len() - i,
    {
        proof {
            lemma_filter_map_step(joints@, pick, i as int);
        }
        if let Some(name) = node_name(joints[i].node, node_names) {
            let ghost before = name_views(names@);
            names.push(name);
            assert(name_views(names@) =~= before.push(name@));
        }
        i += 1;
    }
    assert(joints@.take(joints.len() as int) =~= joints@);
    names
}

impl SpringNodeRegistry {
    /// Lists the chains of the description by the names of their nodes, in
    /// the order of the description.
    pub fn new(spring_bone: &VRMCSpringBone, node_names: &Vec<Option<String>>) -> (registry: Self)
        requires
            groups_exist(*spring_bone),
        ensures
            spring_views(registry.0@).len() == spring_bone.springs@.len(),
            forall|i: int|
                0 <= i < spring_bone.springs@.len() ==> (#[trigger] spring_views(registry.0@)[i])
                    == spring_node_of(spring_bone.springs@[i], *spring_bone, node_names@),
    {
        let mut springs: Vec<SpringNode> = Vec::new();
        let mut i: usize = 0;
        while i < spring_bone.springs.len()
            invariant
                i <= spring_bone.springs.len(),
                groups_exist(*spring_bone),
                springs.len() == i,
                forall|k: int|
                    0 <= k < i ==> (#[trigger] springs@[k])@ == spring_node_of(
                        spring_bone.springs@[k],
                        *spring_bone,
                        node_names@,
                    ),
            decreases spring_bone.springs.len() - i,
        {
            let spring = &spring_bone.springs[i];
            let center = match spring.center {
                Some(center) => node_name(center, node_names),
                None => None,
            };
            let joints = joint_names(&spring.joints, node_names);
            let members = match &spring.collider_groups {
                Some(groups) => {
                    assert forall|k: int| 0 <= k < groups@.len() implies (#[trigger] groups@[k])
                        < spring_bone.collider_groups.len() by {
                        assert(groups_of(spring_bone.springs@[i as int])[k] == groups@[k]);
                    }
                    spring_bone.spring_colliders(groups.as_slice())
                },
                None => {
                    let none: Vec<usize> = Vec::new();
                    spring_bone.spring_colliders(none.as_slice())
                },
            };
            let colliders = named_shapes(&members, node_names);
            let node = SpringNode { center, joints, colliders };
            assert(node@ == spring_node_of(spring_bone.springs@[i as int], *spring_bone, node_names@));
            springs.push(node);
            i += 1;
        }
        assert(spring_views(springs@).len() == spring_bone.springs@.len());
        SpringNodeRegistry(springs)
    }
}

} // verus!
