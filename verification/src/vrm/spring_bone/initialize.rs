//! Bringing a model's spring chains into the scene.

use crate::sequences::lemma_filter_map_step;
use crate::system_param::child_searcher::{search, ChildSearcher, NodeView};
use crate::vrm::gltf::extensions::vrmc_spring_bone::{ColliderShape, SpringJoint};
use crate::vrm::spring_bone::registry::{
    name_views, named_views, spring_views, SpringColliderRegistry, SpringJointPropsRegistry,
    SpringNodeRegistry, SpringNodeView,
};
use crate::vrm::spring_bone::{
    SpringCenterNode, SpringColliders, SpringJoints, SpringRoot, SpringRootView,
};
use crate::Entity;
use std::collections::HashSet;
use vstd::prelude::*;

verus! {

/// The node below `root` that a name resolves to, together with what the
/// name carried.
pub open spec fn resolve_pick<T>(root: Entity, nodes: Seq<NodeView>) -> spec_fn((Seq<char>, T)) -> Option<
    (Entity, T),
> {
    |pair: (Seq<char>, T)|
        match search(nodes, root, pair.0, false) {
            Some(entity) => Some((entity, pair.1)),
            None => None,
        }
}

/// The nodes below `root` that the names resolve to, each with what its name
/// carried, in the order of the names. A name without a node is passed over.
pub open spec fn resolved<T>(named: Seq<(Seq<char>, T)>, root: Entity, nodes: Seq<NodeView>) -> Seq<
    (Entity, T),
> {
    named.filter_map(resolve_pick(root, nodes))
}

/// The node below `root` that a name resolves to.
pub open spec fn name_pick(root: Entity, nodes: Seq<NodeView>) -> spec_fn(Seq<char>) -> Option<
    Entity,
> {
    |name: Seq<char>| search(nodes, root, name, false)
}

/// The nodes below `root` that the names resolve to, in the order of the
/// names. A name without a node is passed over.
pub open spec fn resolved_names(names: Seq<Seq<char>>, root: Entity, nodes: Seq<NodeView>) -> Seq<
    Entity,
> {
    names.filter_map(name_pick(root, nodes))
}

fn resolve<T: Copy>(root: Entity, named: &Vec<(String, T)>, searcher: &ChildSearcher) -> (found:
    Vec<(Entity, T)>)
    ensures
        found@ == resolved(named_views(named@), root, searcher@),
{
    let ghost pick = resolve_pick::<T>(root, searcher@);
    let mut found: Vec<(Entity, T)> = Vec::new();
    let mut i: usize = 0;
    while i < named.len()
        invariant
            i <= named.len(),
            pick == resolve_pick::<T>(root, searcher@),
            found@ == named_views(named@).take(i as int).filter_map(pick),
        decreases named.len() - i,
    {
        proof {
            lemma_filter_map_step(named_views(named@), pick, i as int);
        }
        if let Some(entity) = searcher.find_from_name(root, named[i].0.as_str()) {
            found.push((entity, named[i].1));
        }
        i += 1;
    }
    assert(named_views(named@).take(named.len() as int) =~= named_views(named@));
    found
}

/// Finds the node of every joint whose properties the model describes. The
/// result lists, in the registry's order, each joint that has a node below
/// `root`, with its properties.
pub fn apply_initialize_joint_props(
    root: Entity,
    nodes: &SpringJointPropsRegistry,
    child_searcher: &ChildSearcher,
) -> (props: Vec<(Entity, SpringJoint)>)
    ensures
        props@ == resolved(named_views(nodes.0@), root, child_searcher@),
{
    resolve(root, &nodes.0, child_searcher)
}

/// Finds the node of every collider that the model describes. The result
/// lists, in the registry's order, each collider that has a node below
/// `entity`, with its shape.
pub fn apply_initialize_collider_shapes(
    entity: Entity,
    registry: &SpringColliderRegistry,
    child_searcher: &ChildSearcher,
) -> (shapes: Vec<(Entity, ColliderShape)>)
    ensures
        shapes@ == resolved(named_views(registry.0@), entity, child_searcher@),
{
    resolve(entity, &registry.0, child_searcher)
}

/// A chain of the model, resolved to the nodes below `entity`.
pub open spec fn spring_root_of(spring: SpringNodeView, entity: Entity, nodes: Seq<NodeView>) -> SpringRootView {
    SpringRootView {
        center_node: match spring.center {
            Some(center) => search(nodes, entity, center, false),
            None => None,
        },
        joints: resolved_names(spring.joints, entity, nodes),
        colliders: resolved(spring.colliders, entity, nodes),
    }
}

/// A chain of the model as it stands in the scene, with the joint it is
/// attached to, if at least one of its joints has a node.
pub open spec fn root_pick(entity: Entity, nodes: Seq<NodeView>) -> spec_fn(SpringNodeView) -> Option<
    (Entity, SpringRootView),
> {
    |spring: SpringNodeView|
        {
            let root = spring_root_of(spring, entity, nodes);
            if root.joints.len() > 0 {
                Some((root.joints[0], root))
            } else {
                None
            }
        }
}

/// The chains that stand in the scene, each with the joint it is attached
/// to: of the model's chains, in their order, those of which at least one
/// joint has a node.
pub open spec fn spring_roots_of(
    springs: Seq<SpringNodeView>,
    entity: Entity,
    nodes: Seq<NodeView>,
) -> Seq<(Entity, SpringRootView)> {
    springs.filter_map(root_pick(entity, nodes))
}

/// The views of chains in the scene.
pub open spec fn root_views(roots: Seq<(Entity, SpringRoot)>) -> Seq<(Entity, SpringRootView)> {
    roots.map_values(|root: (Entity, SpringRoot)| (root.0, root.1@))
}

fn resolve_joints(entity: Entity, joints: &Vec<String>, searcher: &ChildSearcher) -> (found: Vec<
    Entity,
>)
    ensures
        found@ == resolved_names(name_views(joints@), entity, searcher@),
{
    let ghost names = name_views(joints@);
    let ghost pick = name_pick(entity, searcher@);
    let mut found: Vec<Entity> = Vec::new();
    let mut i: usize = 0;
    while i < joints.len()
        invariant
            i <= joints.len(),
            names == name_views(joints@),
            pick == name_pick(entity, searcher@),
            found@ == names.take(i as int).filter_map(pick),
        decreases joints.len() - i,
    {
        proof {
            lemma_filter_map_step(names, pick, i as int);
        }
        if let Some(joint) = searcher.find_from_name(entity, joints[i].as_str()) {
            found.push(joint);
        }
        i += 1;
    }
    assert(names.take(joints.len() as int) =~= names);
    found
}

/// Resolves the model's chains to the nodes below `entity`. A chain's
/// center, joints and colliders are looked up by name; what has no node is
/// left out. A chain of which no joint has a node is passed over. Every
/// other chain is listed with its first joint, to which it is attached.
pub fn apply_initialize_spring_roots(
    entity: Entity,
    registry: &SpringNodeRegistry,
    child_searcher: &ChildSearcher,
) -> (roots: Vec<(Entity, SpringRoot)>)
    ensures
        root_views(roots@) == spring_roots_of(spring_views(registry.0@), entity, child_searcher@),
{
    let ghost springs = spring_views(registry.0@);
    let ghost pick = root_pick(entity, child_searcher@);
    let mut roots: Vec<(Entity, SpringRoot)> = Vec::new();
    let mut i: usize = 0;
    while i < registry.0.len()
        invariant
            i <= registry.0.len(),
            springs == spring_views(registry.0@),
            pick == root_pick(entity, child_searcher@),
            root_views(roots@) == springs.take(i as int).filter_map(pick),
        decreases registry.0.len() - i,
    {
        proof {
            lemma_filter_map_step(springs, pick, i as int);
        }
        let spring = &registry.0[i];
        let center_node = match &spring.center {
            Some(center) => child_searcher.find_from_name(entity, center.as_str()),
            None => None,
        };
        let joints = resolve_joints(entity, &spring.joints, child_searcher);
        let colliders = resolve(entity, &spring.colliders, child_searcher);
        let spring_root = SpringRoot {
            center_node: SpringCenterNode(center_node),
            joints: SpringJoints(joints),
            colliders: SpringColliders(colliders),
        };
        assert(spring_root@ == spring_root_of(springs[i as int], entity, child_searcher@));
        if spring_root.joints.0.len() > 0 {
            let root = spring_root.joints.0[0];
            let ghost before = root_views(roots@);
            roots.push((root, spring_root));
            assert(root_views(roots@) =~= before.push((root, spring_root@)));
        }
        i += 1;
    }
    assert(springs.take(registry.0.len() as int) =~= springs);
    roots
}

/// Which nodes carry a transform relative to their parent, and which a
/// transform in world space.
pub struct TransformIndex {
    local: HashSet<Entity>,
    global: HashSet<Entity>,
}

impl TransformIndex {
    /// The nodes with a transform relative to their parent.
    pub closed spec fn local(&self) -> Set<Entity> {
        self.local@
    }

    /// The nodes with a transform in world space.
    pub closed spec fn global(&self) -> Set<Entity> {
        self.global@
    }

    /// An index without nodes.
    pub fn new() -> (index: Self)
        ensures
            index.local() == Set::<Entity>::empty(),
            index.global() == Set::<Entity>::empty(),
    {
        TransformIndex { local: HashSet::new(), global: HashSet::new() }
    }

    /// Records that `entity` carries a transform relative to its parent.
    pub fn insert_local(&mut self, entity: Entity)
        ensures
            final(self).local() == old(self).local().insert(entity),
            final(self).global() == old(self).global(),
    {
        broadcast use vstd::std_specs::hash::group_hash_axioms;

        self.local.insert(entity);
    }

    /// Records that `entity` carries a transform in world space.
    pub fn insert_global(&mut self, entity: Entity)
        ensures
            final(self).global() == old(self).global().insert(entity),
            final(self).local() == old(self).local(),
    {
        broadcast use vstd::std_specs::hash::group_hash_axioms;

        self.global.insert(entity);
    }

    pub fn has_local(&self, entity: Entity) -> (has: bool)
        ensures
            has == self.local().contains(entity),
    {
        broadcast use vstd::std_specs::hash::group_hash_axioms;

        self.local.contains(&entity)
    }

    pub fn has_global(&self, entity: Entity) -> (has: bool)
        ensures
            has == self.global().contains(entity),
    {
        broadcast use vstd::std_specs::hash::group_hash_axioms;

        self.global.contains(&entity)
    }
}

/// The seeding of one joint: the state of `head` is computed from the
/// transforms of `head` and of the next joint `tail`, the tail position being
/// taken relative to `center` if there is one, and in world space otherwise.
#[derive(Debug, Clone, Copy, PartialEq, Eq, Structural)]
pub struct JointSeed {
    pub head: Entity,
    pub tail: Entity,
    pub center: Option<Entity>,
}

/// The center that seeding uses: the chain's center node, if it has one and
/// that node carries a transform in world space.
pub open spec fn seeding_center(center_node: Option<Entity>, global: Set<Entity>) -> Option<Entity> {
    match center_node {
        Some(center) => if global.contains(center) {
            Some(center)
        } else {
            None
        },
        None => None,
    }
}

/// The pairs of neighbouring joints of a chain, from the root on.
pub open spec fn neighbours(joints: Seq<Entity>) -> Seq<(Entity, Entity)> {
    Seq::new(
        if joints.len() > 0 {
            (joints.len() - 1) as nat
        } else {
            0
        },
        |k: int| (joints[k], joints[k + 1]),
    )
}

/// The seeding that a pair of neighbouring joints gives: one, if both joints
/// carry a transform relative to their parent and the second one also a
/// transform in world space.
pub open spec fn seed_pick(center: Option<Entity>, local: Set<Entity>, global: Set<Entity>) -> spec_fn(
    (Entity, Entity),
) -> Option<JointSeed> {
    |pair: (Entity, Entity)|
        if local.contains(pair.0) && local.contains(pair.1) && global.contains(pair.1) {
            Some(JointSeed { head: pair.0, tail: pair.1, center })
        } else {
            None
        }
}

/// The seedings of a chain, in the order of the chain.
pub open spec fn joint_seeds(
    joints: Seq<Entity>,
    center: Option<Entity>,
    local: Set<Entity>,
    global: Set<Entity>,
) -> Seq<JointSeed> {
    neighbours(joints).filter_map(seed_pick(center, local, global))
}

/// Decides which joints of a chain are seeded, and from what. Every pair of
/// neighbouring joints whose transforms are there gives one seeding, in the
/// order of the chain; the other pairs are passed over.
pub fn init_spring_joint_states(root: &SpringRoot, transforms: &TransformIndex) -> (seeds: Vec<
    JointSeed,
>)
    ensures
        seeds@ == joint_seeds(
            root@.joints,
            seeding_center(root@.center_node, transforms.global()),
            transforms.local(),
            transforms.global(),
        ),
{
    let center = match root.center_node.0 {
        Some(center) => if transforms.has_global(center) {
            Some(center)
        } else {
            None
        },
        None => None,
    };
    let ghost pick = seed_pick(center, transforms.local(), transforms.global());
    let ghost pairs = neighbours(root@.joints);
    let mut seeds: Vec<JointSeed> = Vec::new();
    let joints = &root.joints.0;
    let mut i: usize = 1;
    while i < joints.len()
        invariant
            1 <= i,
            i <= joints.len() || i == 1,
            joints@ == root@.joints,
            pairs == neighbours(joints@),
            pick == seed_pick(center, transforms.local(), transforms.global()),
            seeds@ == pairs.take(i - 1).filter_map(pick),
        decreases joints.len() - i,
    {
        proof {
            lemma_filter_map_step(pairs, pick, i - 1);
        }
        let head = joints[i - 1];
        let tail = joints[i];
        if transforms.has_local(head) && transforms.has_local(tail) && transforms.has_global(tail) {
            seeds.push(JointSeed { head, tail, center });
        }
        i += 1;
    }
    assert(pairs.take(pairs.len() as int) =~= pairs);
    seeds
}

} // verus!
