//! The table of rest rotations by which a clip's rotations are carried onto
//! a rig, and the curve that applies it.
//!
//! A bone takes part when the clip's skeleton and the rig both have it and
//! both nodes have a rest pose. The table then holds, under the rig's node,
//! the four rest rotations of the pair.

use crate::system_param::child_searcher::{
    lemma_search_result, search, well_formed, ChildSearcher, NodeView,
};
use crate::vrm::humanoid_bone::{lists, HumanoidBoneRegistry};
use crate::vrm::{RestPose, RestPoseRegistry};
use crate::vrma::animation::AnimationEvaluationError;
use crate::Entity;
use bevy::math::Quat;
use bevy::platform::collections::HashMap;
use vstd::prelude::*;

verus! {

/// The rest rotations of one bone on both skeletons: of the clip's node
/// (`src`) and of the rig's node (`dist`), each relative to its parent and in
/// world space (`_g`).
#[derive(Debug, Clone, Copy)]
pub struct Transformation {
    pub src_rest: Quat,
    pub src_rest_g: Quat,
    pub dist_rest: Quat,
    pub dist_rest_g: Quat,
}

/// One factor of a product of rotations: a rotation, or its inverse.
#[derive(Debug, Clone, Copy)]
pub struct Factor {
    pub rotation: Quat,
    pub inverse: bool,
}

/// The factor that stands for `rotation` itself.
pub open spec fn plain(rotation: Quat) -> Factor {
    Factor { rotation, inverse: false }
}

/// The factor that stands for the inverse of `rotation`.
pub open spec fn inverted(rotation: Quat) -> Factor {
    Factor { rotation, inverse: true }
}

/// How a rotation of the clip is carried onto the rig, as two products of
/// rotations that the caller multiplies out from left to right: first
/// `normalized`, which takes the rest rotation of the clip's bone out of the
/// rotation; then `before[0] * before[1] * N * after`, in which `N` is the
/// value of the first product, which puts the rest rotation of the rig's
/// bone in.
#[derive(Debug, Clone, Copy)]
pub struct Retargeting {
    pub normalized: [Factor; 4],
    pub before: [Factor; 2],
    pub after: Factor,
}

impl Transformation {
    /// The product that frees `src_pose` of the rest rotation of the clip's
    /// bone: `src_rest_g * inverse(src_rest) * src_pose * inverse(src_rest_g)`.
    pub open spec fn normalized_word(self, src_pose: Quat) -> Seq<Factor> {
        seq![
            plain(self.src_rest_g),
            inverted(self.src_rest),
            plain(src_pose),
            inverted(self.src_rest_g),
        ]
    }

    /// The whole product for `src_pose`, the first product written out in
    /// the place of its value:
    /// `dist_rest * inverse(dist_rest_g) * normalized * dist_rest_g`.
    pub open spec fn word(self, src_pose: Quat) -> Seq<Factor> {
        seq![plain(self.dist_rest), inverted(self.dist_rest_g)] + self.normalized_word(src_pose)
            + seq![plain(self.dist_rest_g)]
    }

    /// Says how the rotation `src_pose` of the clip's bone is carried onto
    /// the rig's bone: which rotations are multiplied, in which order, and
    /// which of them inverted.
    pub fn transform(&self, src_pose: Quat) -> (retargeting: Retargeting)
        ensures
            retargeting.normalized@ == self.normalized_word(src_pose),
            retargeting.before@ == seq![plain(self.dist_rest), inverted(self.dist_rest_g)],
            retargeting.after == plain(self.dist_rest_g),
    {
        let retargeting = Retargeting {
            normalized: [
                Factor { rotation: self.src_rest_g, inverse: false },
                Factor { rotation: self.src_rest, inverse: true },
                Factor { rotation: src_pose, inverse: false },
                Factor { rotation: self.src_rest_g, inverse: true },
            ],
            before: [
                Factor { rotation: self.dist_rest, inverse: false },
                Factor { rotation: self.dist_rest_g, inverse: true },
            ],
            after: Factor { rotation: self.dist_rest_g, inverse: false },
        };
        assert(retargeting.normalized@ =~= self.normalized_word(src_pose));
        assert(retargeting.before@ =~= seq![plain(self.dist_rest), inverted(self.dist_rest_g)]);
        retargeting
    }
}

/// Whether the factors at `i` and `i + 1` are a rotation and its inverse,
/// in either order. Their product is no rotation at all.
pub open spec fn cancels_at(word: Seq<Factor>, i: int) -> bool {
    &&& 0 <= i < word.len() - 1
    &&& word[i].rotation == word[i + 1].rotation
    &&& word[i].inverse != word[i + 1].inverse
}

/// The product without the factors at `i` and `i + 1`.
pub open spec fn cancelled_at(word: Seq<Factor>, i: int) -> Seq<Factor> {
    word.take(i) + word.skip(i + 2)
}

/// Whether `word` becomes `target` when, one after the other, the pairs at
/// the positions `steps` are cancelled, each a rotation next to its inverse.
pub open spec fn reduces_by(word: Seq<Factor>, target: Seq<Factor>, steps: Seq<int>) -> bool
    decreases steps.len(),
{
    if steps.len() == 0 {
        word == target
    } else {
        cancels_at(word, steps[0]) && reduces_by(
            cancelled_at(word, steps[0]),
            target,
            steps.drop_first(),
        )
    }
}

/// Whether `word` becomes `target` by cancelling rotations against their
/// inverses. Where the product of a rotation and its inverse is no rotation
/// at all, both products have the same value.
pub open spec fn reduces_to(word: Seq<Factor>, target: Seq<Factor>) -> bool {
    exists|steps: Seq<int>| reduces_by(word, target, steps)
}

/// The rest rotation of the clip's bone, replayed, is carried onto the rest
/// rotation of the rig's bone: the product for it is, after cancelling, the
/// rig's rest rotation alone. Freed of the clip's rest rotation it is no
/// rotation at all.
pub proof fn lemma_rest_pose_is_kept(transformation: Transformation)
    ensures
        reduces_to(
            transformation.normalized_word(transformation.src_rest),
            Seq::<Factor>::empty(),
        ),
        reduces_to(
            transformation.word(transformation.src_rest),
            seq![plain(transformation.dist_rest)],
        ),
{
    let t = transformation;
    let normalized = t.normalized_word(t.src_rest);
    assert(reduces_by(normalized, Seq::<Factor>::empty(), seq![1int, 0int])) by {
        let first = cancelled_at(normalized, 1);
        assert(first =~= seq![plain(t.src_rest_g), inverted(t.src_rest_g)]);
        assert(cancelled_at(first, 0) =~= Seq::<Factor>::empty());
        assert(seq![1int, 0int].drop_first() =~= seq![0int]);
        assert(seq![0int].drop_first() =~= Seq::<int>::empty());
        assert(reduces_by(cancelled_at(first, 0), Seq::<Factor>::empty(), Seq::<int>::empty()));
        assert(reduces_by(first, Seq::<Factor>::empty(), seq![0int]));
    }
    let word = t.word(t.src_rest);
    let target = seq![plain(t.dist_rest)];
    assert(reduces_by(word, target, seq![3int, 2int, 1int])) by {
        assert(word =~= seq![
            plain(t.dist_rest),
            inverted(t.dist_rest_g),
            plain(t.src_rest_g),
            inverted(t.src_rest),
            plain(t.src_rest),
            inverted(t.src_rest_g),
            plain(t.dist_rest_g),
        ]);
        let first = cancelled_at(word, 3);
        assert(first =~= seq![
            plain(t.dist_rest),
            inverted(t.dist_rest_g),
            plain(t.src_rest_g),
            inverted(t.src_rest_g),
            plain(t.dist_rest_g),
        ]);
        let second = cancelled_at(first, 2);
        assert(second =~= seq![
            plain(t.dist_rest),
            inverted(t.dist_rest_g),
            plain(t.dist_rest_g),
        ]);
        assert(cancelled_at(second, 1) =~= target);
        assert(seq![3int, 2int, 1int].drop_first() =~= seq![2int, 1int]);
        assert(seq![2int, 1int].drop_first() =~= seq![1int]);
        assert(seq![1int].drop_first() =~= Seq::<int>::empty());
        assert(reduces_by(cancelled_at(second, 1), target, Seq::<int>::empty()));
        assert(reduces_by(second, target, seq![1int]));
        assert(reduces_by(first, target, seq![2int, 1int]));
    }
}

/// What a map from nodes to transformations holds.
pub uninterp spec fn rotations(map: HashMap<Entity, Transformation>) -> Map<Entity, Transformation>;

/// `bevy::platform::collections::HashMap::new`: the new map holds nothing.
#[verifier::external_body]
fn rotations_new() -> (map: HashMap<Entity, Transformation>)
    ensures
        rotations(map) =~= Map::empty(),
{
    HashMap::new()
}

/// `bevy::platform::collections::HashMap::insert`: afterwards the map holds
/// `transformation` under `entity`, in place of what it held there, and is
/// otherwise unchanged.
#[verifier::external_body]
fn rotations_insert(
    map: &mut HashMap<Entity, Transformation>,
    entity: Entity,
    transformation: Transformation,
)
    ensures
        rotations(*final(map)) == rotations(*old(map)).insert(entity, transformation),
{
    map.insert(entity, transformation);
}

/// `bevy::platform::collections::HashMap::get`: the value held under
/// `entity`, if any.
#[verifier::external_body]
fn rotations_get(map: &HashMap<Entity, Transformation>, entity: Entity) -> (found: Option<
    Transformation,
>)
    ensures
        found == if rotations(*map).contains_key(entity) {
            Some(rotations(*map)[entity])
        } else {
            None
        },
{
    map.get(&entity).copied()
}

/// `Extend::extend` of `bevy::platform::collections::HashMap`, from the pairs
/// of another map: afterwards the map holds every pair of `other`, and of its
/// own pairs those whose key `other` does not hold.
#[verifier::external_body]
fn rotations_extend(
    map: &mut HashMap<Entity, Transformation>,
    other: &HashMap<Entity, Transformation>,
)
    ensures
        rotations(*final(map)) == rotations(*old(map)).union_prefer_right(rotations(*other)),
{
    map.extend(other);
}

/// `Clone::clone` of `bevy::platform::collections::HashMap`: the copy holds
/// what the map holds.
#[verifier::external_body]
fn rotations_clone(map: &HashMap<Entity, Transformation>) -> (copy: HashMap<
    Entity,
    Transformation,
>)
    ensures
        rotations(copy) == rotations(*map),
{
    map.clone()
}

/// The nodes that a bone joins when the clip's skeleton keeps it under the
/// node name `name`: the clip's node, found below `vrma` by that name, and
/// the rig's node, found below `root_bone` by the bone's own name.
pub open spec fn nodes_of(
    bone: Seq<char>,
    name: Seq<char>,
    vrma: Entity,
    root_bone: Entity,
    nodes: Seq<NodeView>,
) -> Option<(Entity, Entity)> {
    match (search(nodes, vrma, name, false), search(nodes, root_bone, bone, true)) {
        (Some(source), Some(rig)) => Some((source, rig)),
        _ => None,
    }
}

/// The nodes that `bone` joins, by the node name that the registry keeps
/// for it.
pub open spec fn bone_pair(
    bone: Seq<char>,
    vrma: Entity,
    root_bone: Entity,
    registry: Map<Seq<char>, Seq<char>>,
    nodes: Seq<NodeView>,
) -> Option<(Entity, Entity)> {
    if registry.contains_key(bone) {
        nodes_of(bone, registry[bone], vrma, root_bone, nodes)
    } else {
        None
    }
}

/// Whether `bone` is retargeted onto the rig node `rig`: both skeletons have
/// the bone, the rig's node for it is `rig`, and both nodes have a rest pose.
pub open spec fn retargets(
    bone: Seq<char>,
    rig: Entity,
    vrma: Entity,
    root_bone: Entity,
    registry: Map<Seq<char>, Seq<char>>,
    nodes: Seq<NodeView>,
    rests: Map<Entity, RestPose>,
) -> bool {
    match bone_pair(bone, vrma, root_bone, registry, nodes) {
        Some((source, found)) => found == rig && rests.contains_key(source) && rests.contains_key(
            rig,
        ),
        None => false,
    }
}

/// The table entry for a pair of nodes with the given rest poses.
pub open spec fn transformation_between(source: RestPose, rig: RestPose) -> Transformation {
    Transformation {
        src_rest: source.rest.0.rotation,
        src_rest_g: source.rest_global.0.rotation,
        dist_rest: rig.rest.0.rotation,
        dist_rest_g: rig.rest_global.0.rotation,
    }
}

/// The table entry that `bone` gives.
pub open spec fn transformation_of(
    bone: Seq<char>,
    vrma: Entity,
    root_bone: Entity,
    registry: Map<Seq<char>, Seq<char>>,
    nodes: Seq<NodeView>,
    rests: Map<Entity, RestPose>,
) -> Transformation {
    let (source, rig) = bone_pair(bone, vrma, root_bone, registry, nodes).unwrap();
    transformation_between(rests[source], rests[rig])
}

/// Whether `table` is the table of rest rotations for the clip skeleton
/// below `vrma` and the rig below `root_bone`: it holds an entry for
/// exactly the rig nodes onto which a bone of the registry is retargeted, and
/// each entry holds the rest rotations of the bone's two nodes.
pub open spec fn is_retarget_table(
    table: Map<Entity, Transformation>,
    vrma: Entity,
    root_bone: Entity,
    registry: Map<Seq<char>, Seq<char>>,
    nodes: Seq<NodeView>,
    rests: Map<Entity, RestPose>,
) -> bool {
    &&& forall|rig: Entity| #[trigger]
        table.contains_key(rig) <==> exists|bone: Seq<char>| #[trigger]
            retargets(bone, rig, vrma, root_bone, registry, nodes, rests)
    &&& forall|bone: Seq<char>, rig: Entity| #[trigger]
        retargets(bone, rig, vrma, root_bone, registry, nodes, rests) ==> table[rig]
            == transformation_of(bone, vrma, root_bone, registry, nodes, rests)
}

/// Whether the clip's skeleton has `bone`: the registry keeps it, its node
/// stands below `vrma` and that node has a rest pose.
pub open spec fn clip_has(
    bone: Seq<char>,
    vrma: Entity,
    registry: Map<Seq<char>, Seq<char>>,
    nodes: Seq<NodeView>,
    rests: Map<Entity, RestPose>,
) -> bool {
    registry.contains_key(bone) && match search(nodes, vrma, registry[bone], false) {
        Some(source) => rests.contains_key(source),
        None => false,
    }
}

/// Whether the rig has `bone`: a node with this bone name stands below
/// `root_bone` and has a rest pose.
pub open spec fn rig_has(
    bone: Seq<char>,
    root_bone: Entity,
    nodes: Seq<NodeView>,
    rests: Map<Entity, RestPose>,
) -> bool {
    match search(nodes, root_bone, bone, true) {
        Some(rig) => rests.contains_key(rig),
        None => false,
    }
}

/// The table holds the bones that the clip's skeleton and the rig share,
/// and no others: a rig node has an entry exactly when it plays a bone that
/// both skeletons have.
pub proof fn lemma_table_holds_the_shared_bones(
    table: Map<Entity, Transformation>,
    vrma: Entity,
    root_bone: Entity,
    registry: Map<Seq<char>, Seq<char>>,
    nodes: Seq<NodeView>,
    rests: Map<Entity, RestPose>,
)
    requires
        is_retarget_table(table, vrma, root_bone, registry, nodes, rests),
    ensures
        forall|rig: Entity| #[trigger]
            table.contains_key(rig) <==> exists|bone: Seq<char>|
                #![trigger clip_has(bone, vrma, registry, nodes, rests)]
                clip_has(bone, vrma, registry, nodes, rests) && rig_has(
                    bone,
                    root_bone,
                    nodes,
                    rests,
                ) && search(nodes, root_bone, bone, true) == Some(rig),
{
    assert forall|rig: Entity| #[trigger]
        table.contains_key(rig) <==> exists|bone: Seq<char>|
            #![trigger clip_has(bone, vrma, registry, nodes, rests)]
            clip_has(bone, vrma, registry, nodes, rests) && rig_has(bone, root_bone, nodes, rests)
                && search(nodes, root_bone, bone, true) == Some(rig) by {
        if table.contains_key(rig) {
            let bone = choose|bone: Seq<char>| #[trigger]
                retargets(bone, rig, vrma, root_bone, registry, nodes, rests);
            assert(clip_has(bone, vrma, registry, nodes, rests));
        }
        if exists|bone: Seq<char>|
            #![trigger clip_has(bone, vrma, registry, nodes, rests)]
            clip_has(bone, vrma, registry, nodes, rests) && rig_has(bone, root_bone, nodes, rests)
                && search(nodes, root_bone, bone, true) == Some(rig) {
            let bone = choose|bone: Seq<char>|
                #![trigger clip_has(bone, vrma, registry, nodes, rests)]
                clip_has(bone, vrma, registry, nodes, rests) && rig_has(
                    bone,
                    root_bone,
                    nodes,
                    rests,
                ) && search(nodes, root_bone, bone, true) == Some(rig);
            assert(retargets(bone, rig, vrma, root_bone, registry, nodes, rests));
        }
    }
}

/// Two bones that are retargeted onto the same rig node are the same bone.
pub proof fn lemma_one_bone_per_node(
    first: Seq<char>,
    second: Seq<char>,
    rig: Entity,
    vrma: Entity,
    root_bone: Entity,
    registry: Map<Seq<char>, Seq<char>>,
    nodes: Seq<NodeView>,
    rests: Map<Entity, RestPose>,
)
    requires
        well_formed(nodes),
        retargets(first, rig, vrma, root_bone, registry, nodes, rests),
        retargets(second, rig, vrma, root_bone, registry, nodes, rests),
    ensures
        first == second,
{
    lemma_search_result(nodes, root_bone, first, true);
    lemma_search_result(nodes, root_bone, second, true);
}

/// The rest rotations of every retargeted bone, by rig node.
pub struct BoneRotateTransformations(HashMap<Entity, Transformation>);

impl View for BoneRotateTransformations {
    type V = Map<Entity, Transformation>;

    closed spec fn view(&self) -> Map<Entity, Transformation> {
        rotations(self.0)
    }
}

impl BoneRotateTransformations {
    /// Builds the table for the clip skeleton below `vrma` and the rig below
    /// `root_bone`. The table holds an entry for exactly the rig nodes onto
    /// which a bone of the registry is retargeted; a bone that either
    /// skeleton lacks, or whose node has no rest pose, is passed over.
    pub fn new(
        vrma: Entity,
        root_bone: Entity,
        registry: &HumanoidBoneRegistry,
        searcher: &ChildSearcher,
        bones: &RestPoseRegistry,
    ) -> (table: Self)
        ensures
            is_retarget_table(table@, vrma, root_bone, registry@, searcher@, bones@),
    {
        proof {
            use_type_invariant(searcher);
        }
        let pairs = registry.entries();
        let mut map = rotations_new();
        let mut i: usize = 0;
        while i < pairs.len()
            invariant
                i <= pairs.len(),
                well_formed(searcher@),
                lists(pairs@, registry@),
                forall|rig: Entity| #[trigger]
                    rotations(map).contains_key(rig) <==> exists|k: int|
                        0 <= k < i && #[trigger] retargets(
                            pairs[k].0@,
                            rig,
                            vrma,
                            root_bone,
                            registry@,
                            searcher@,
                            bones@,
                        ),
                forall|k: int, rig: Entity|
                    0 <= k < i && #[trigger] retargets(
                        pairs[k].0@,
                        rig,
                        vrma,
                        root_bone,
                        registry@,
                        searcher@,
                        bones@,
                    ) ==> rotations(map)[rig] == transformation_of(
                        pairs[k].0@,
                        vrma,
                        root_bone,
                        registry@,
                        searcher@,
                        bones@,
                    ),
            decreases pairs.len() - i,
        {
            let ghost before = rotations(map);
            let ghost bone = pairs[i as int].0@;
            assert(registry@.contains_key(bone) && registry@[bone] == pairs[i as int].1@);
            let source = searcher.find_from_name(vrma, pairs[i].1.as_str());
            let rig = searcher.find_from_bone_name(root_bone, &pairs[i].0);
            let mut added: Option<Entity> = None;
            if let Some(source) = source {
                if let Some(rig) = rig {
                    if let Some(rest) = bones.get(rig) {
                        if let Some(source_rest) = bones.get(source) {
                            rotations_insert(
                                &mut map,
                                rig,
                                Transformation {
                                    src_rest: source_rest.rest.0.rotation,
                                    src_rest_g: source_rest.rest_global.0.rotation,
                                    dist_rest: rest.rest.0.rotation,
                                    dist_rest_g: rest.rest_global.0.rotation,
                                },
                            );
                            added = Some(rig);
                        }
                    }
                }
            }
            proof {
                let here = |rig: Entity|
                    retargets(bone, rig, vrma, root_bone, registry@, searcher@, bones@);
                assert(forall|rig: Entity| here(rig) ==> added == Some(rig));
                assert(added matches Some(rig) ==> here(rig));
                assert forall|rig: Entity| #[trigger]
                    rotations(map).contains_key(rig) <==> exists|k: int|
                        0 <= k < i + 1 && #[trigger] retargets(
                            pairs[k].0@,
                            rig,
                            vrma,
                            root_bone,
                            registry@,
                            searcher@,
                            bones@,
                        ) by {
                    if rotations(map).contains_key(rig) {
                        if before.contains_key(rig) {
                            let k = choose|k: int|
                                0 <= k < i && #[trigger] retargets(
                                    pairs[k].0@,
                                    rig,
                                    vrma,
                                    root_bone,
                                    registry@,
                                    searcher@,
                                    bones@,
                                );
                            assert(0 <= k < i + 1);
                        } else {
                            assert(here(rig));
                            assert(retargets(
                                pairs[i as int].0@,
                                rig,
                                vrma,
                                root_bone,
                                registry@,
                                searcher@,
                                bones@,
                            ));
                        }
                    }
                }
                assert forall|k: int, rig: Entity|
                    0 <= k < i + 1 && #[trigger] retargets(
                        pairs[k].0@,
                        rig,
                        vrma,
                        root_bone,
                        registry@,
                        searcher@,
                        bones@,
                    ) implies rotations(map)[rig] == transformation_of(
                    pairs[k].0@,
                    vrma,
                    root_bone,
                    registry@,
                    searcher@,
                    bones@,
                ) by {
                    if k < i && added == Some(rig) {
                        lemma_one_bone_per_node(
                            pairs[k].0@,
                            bone,
                            rig,
                            vrma,
                            root_bone,
                            registry@,
                            searcher@,
                            bones@,
                        );
                    }
                }
            }
            i += 1;
        }
        proof {
            assert forall|rig: Entity| #[trigger]
                rotations(map).contains_key(rig) <==> exists|bone: Seq<char>| #[trigger]
                    retargets(bone, rig, vrma, root_bone, registry@, searcher@, bones@) by {
                if exists|bone: Seq<char>| #[trigger]
                    retargets(bone, rig, vrma, root_bone, registry@, searcher@, bones@) {
                    let bone = choose|bone: Seq<char>| #[trigger]
                        retargets(bone, rig, vrma, root_bone, registry@, searcher@, bones@);
                    assert(registry@.contains_key(bone));
                    let k = choose|k: int| 0 <= k < pairs.len() && (#[trigger] pairs[k]).0@ == bone;
                    assert(retargets(
                        pairs[k].0@,
                        rig,
                        vrma,
                        root_bone,
                        registry@,
                        searcher@,
                        bones@,
                    ));
                }
            }
            assert forall|bone: Seq<char>, rig: Entity| #[trigger]
                retargets(
                    bone,
                    rig,
                    vrma,
                    root_bone,
                    registry@,
                    searcher@,
                    bones@,
                ) implies rotations(map)[rig] == transformation_of(
                bone,
                vrma,
                root_bone,
                registry@,
                searcher@,
                bones@,
            ) by {
                assert(registry@.contains_key(bone));
                let k = choose|k: int| 0 <= k < pairs.len() && (#[trigger] pairs[k]).0@ == bone;
                assert(retargets(
                    pairs[k].0@,
                    rig,
                    vrma,
                    root_bone,
                    registry@,
                    searcher@,
                    bones@,
                ));
            }
        }
        BoneRotateTransformations(map)
    }

    /// The transformation registered for `entity`.
    pub fn get(&self, entity: Entity) -> (found: Option<Transformation>)
        ensures
            found == if self@.contains_key(entity) {
                Some(self@[entity])
            } else {
                None
            },
    {
        rotations_get(&self.0, entity)
    }
}

impl Clone for BoneRotateTransformations {
    fn clone(&self) -> (copy: Self)
        ensures
            copy@ == self@,
    {
        BoneRotateTransformations(rotations_clone(&self.0))
    }
}

/// A rotation curve of a clip, bound to the table through which its values
/// pass. The curve itself stays with the caller; this is what the library
/// decides for it.
pub struct BoneRotationAnimationCurve {
    transformations: BoneRotateTransformations,
}

impl View for BoneRotationAnimationCurve {
    type V = Map<Entity, Transformation>;

    closed spec fn view(&self) -> Map<Entity, Transformation> {
        self.transformations@
    }
}

impl Clone for BoneRotationAnimationCurve {
    fn clone(&self) -> (copy: Self)
        ensures
            copy@ == self@,
    {
        Self { transformations: self.transformations.clone() }
    }
}

impl BoneRotationAnimationCurve {
    pub fn new(transformations: BoneRotateTransformations) -> (curve: Self)
        ensures
            curve@ == transformations@,
    {
        Self { transformations }
    }

    /// The evaluator of this curve. It starts with the curve's table.
    pub fn create_evaluator(&self) -> (evaluator: Evaluator)
        ensures
            evaluator@ == self@,
    {
        Evaluator { transformations: self.transformations.clone() }
    }

    /// One evaluation step of this curve on an evaluator that several curves
    /// may share: the evaluator takes over the curve's table, an entry of
    /// the curve replacing the evaluator's entry for the same node.
    pub fn apply(&self, curve_evaluator: &mut Evaluator)
        ensures
            final(curve_evaluator)@ == old(curve_evaluator)@.union_prefer_right(self@),
    {
        rotations_extend(&mut curve_evaluator.transformations.0, &self.transformations.0);
    }
}

/// The state that rotation curves share while a pose is evaluated: the
/// transformations of all curves applied so far.
pub struct Evaluator {
    transformations: BoneRotateTransformations,
}

impl View for Evaluator {
    type V = Map<Entity, Transformation>;

    closed spec fn view(&self) -> Map<Entity, Transformation> {
        self.transformations@
    }
}

impl Evaluator {
    /// The decision at commit time, when the blended rotation is about to be
    /// written to the node `id`: the transformation through which the value
    /// has to pass. A node without a registered transformation is an error,
    /// and its pose is then left as it was.
    pub fn commit(&self, id: Entity) -> (decision: Result<Transformation, AnimationEvaluationError>)
        ensures
            match decision {
                Ok(transformation) => self@.contains_key(id) && transformation == self@[id],
                Err(error) => !self@.contains_key(id) && error
                    == AnimationEvaluationError::PropertyNotPresent,
            },
    {
        match self.transformations.get(id) {
            Some(transformation) => Ok(transformation),
            None => Err(AnimationEvaluationError::PropertyNotPresent),
        }
    }
}

} // verus!
