//! The humanoid bones of a model.
//!
//! A model's metadata names, for each humanoid bone it has, the node that
//! plays this bone. The registry keeps the node's name under the bone's name;
//! bones whose node cannot be resolved are left out.

pub mod bones;

use crate::sequences::{lemma_filter_map_step, lemma_origins, origins};
use crate::system_param::child_searcher::{parent_in, search, ChildSearcher, NodeView};
use crate::vrm::humanoid_bone::bones::HumanoidBone;
use crate::vrm::{BoneRestGlobalTransform, BoneRestTransform, NodePose, NodePoses, VrmBone};
use crate::names::{name_of, node_name, uppercase};
use crate::Entity;
use bevy::platform::collections::HashMap;
use vstd::prelude::*;

verus! {

/// What a map from bone names to node names holds.
pub uninterp spec fn bone_names(map: HashMap<String, String>) -> Map<Seq<char>, Seq<char>>;

/// `bevy::platform::collections::HashMap::new`: the new map holds nothing.
#[verifier::external_body]
fn names_new() -> (map: HashMap<String, String>)
    ensures
        bone_names(map) =~= Map::empty(),
{
    HashMap::new()
}

/// `bevy::platform::collections::HashMap::insert`: afterwards the map holds
/// `name` under `bone`, in place of what it held there, and is otherwise
/// unchanged.
#[verifier::external_body]
fn names_insert(map: &mut HashMap<String, String>, bone: String, name: String)
    ensures
        bone_names(*final(map)) == bone_names(*old(map)).insert(bone@, name@),
{
    map.insert(bone, name);
}

/// `bevy::platform::collections::HashMap::get`: the value held under `bone`,
/// if any.
#[verifier::external_body]
fn names_get<'a>(map: &'a HashMap<String, String>, bone: &str) -> (name: Option<&'a String>)
    ensures
        match name {
            Some(name) => bone_names(*map).contains_key(bone@) && bone_names(*map)[bone@]
                == name@,
            None => !bone_names(*map).contains_key(bone@),
        },
{
    map.get(bone)
}

/// `bevy::platform::collections::HashMap::iter`, each pair copied out: every
/// pair of the result is held by the map, every key of the map occurs in the
/// result, and no key occurs twice. The order of the pairs is not stated.
#[verifier::external_body]
fn names_pairs(map: &HashMap<String, String>) -> (pairs: Vec<(VrmBone, String)>)
    ensures
        lists(pairs@, bone_names(*map)),
{
    map.iter().map(|(bone, name)| (VrmBone(bone.clone()), name.clone())).collect()
}

/// The registry that `bones` and `node_names` give: each bone whose node
/// index has a name is kept under its own name with that node name, a later
/// pair replacing an earlier one for the same bone.
pub open spec fn resolved_bones(
    bones: Seq<(String, usize)>,
    node_names: Seq<Option<String>>,
) -> Map<Seq<char>, Seq<char>>
    decreases bones.len(),
{
    if bones.len() == 0 {
        Map::empty()
    } else {
        let before = resolved_bones(bones.drop_last(), node_names);
        let (bone, node) = bones.last();
        match name_of(node, node_names) {
            Some(name) => before.insert(bone@, name),
            None => before,
        }
    }
}

/// A bone is in the registry exactly when one of its pairs names a node with
/// a name; every other bone is left out.
pub proof fn lemma_resolved_bones_are_the_named_ones(
    bones: Seq<(String, usize)>,
    node_names: Seq<Option<String>>,
    bone: Seq<char>,
)
    ensures
        resolved_bones(bones, node_names).contains_key(bone) <==> exists|i: int|
            0 <= i < bones.len() && (#[trigger] bones[i]).0@ == bone && name_of(
                bones[i].1,
                node_names,
            ) is Some,
    decreases bones.len(),
{
    if bones.len() > 0 {
        let shorter = bones.drop_last();
        lemma_resolved_bones_are_the_named_ones(shorter, node_names, bone);
        let last = bones.len() - 1;
        if resolved_bones(bones, node_names).contains_key(bone) {
            if resolved_bones(shorter, node_names).contains_key(bone) {
                let i = choose|i: int|
                    0 <= i < shorter.len() && (#[trigger] shorter[i]).0@ == bone && name_of(
                        shorter[i].1,
                        node_names,
                    ) is Some;
                assert(bones[i] == shorter[i]);
            } else {
                assert(bones[last].0@ == bone);
            }
        }
        if exists|i: int|
            0 <= i < bones.len() && (#[trigger] bones[i]).0@ == bone && name_of(
                bones[i].1,
                node_names,
            ) is Some {
            let i = choose|i: int|
                0 <= i < bones.len() && (#[trigger] bones[i]).0@ == bone && name_of(
                    bones[i].1,
                    node_names,
                ) is Some;
            if i < last {
                assert(shorter[i] == bones[i]);
            }
        }
    }
}

/// The node name of each humanoid bone of a model.
pub struct HumanoidBoneRegistry(HashMap<String, String>);

impl View for HumanoidBoneRegistry {
    type V = Map<Seq<char>, Seq<char>>;

    closed spec fn view(&self) -> Map<Seq<char>, Seq<char>> {
        bone_names(self.0)
    }
}

impl HumanoidBoneRegistry {
    /// Builds the registry from the model's bone list, each bone with the
    /// index of its node, and the names of the model's nodes. A node without a
    /// name in `node_names`, or an index outside it, drops the bone.
    pub fn new(bones: &Vec<(String, usize)>, node_names: &Vec<Option<String>>) -> (registry: Self)
        ensures
            registry@ == resolved_bones(bones@, node_names@),
    {
        let mut map = names_new();
        let mut i: usize = 0;
        while i < bones.len()
            invariant
                i <= bones.len(),
                bone_names(map) == resolved_bones(bones@.take(i as int), node_names@),
            decreases bones.len() - i,
        {
            assert(bones@.take(i + 1).drop_last() =~= bones@.take(i as int));
            if let Some(name) = node_name(bones[i].1, node_names) {
                names_insert(&mut map, bones[i].0.clone(), name);
            }
            i += 1;
        }
        assert(bones@.take(bones.len() as int) =~= bones@);
        HumanoidBoneRegistry(map)
    }

    /// The node name kept for `bone`.
    pub fn get(&self, bone: &VrmBone) -> (name: Option<&String>)
        ensures
            match name {
                Some(name) => self@.contains_key(bone@) && self@[bone@] == name@,
                None => !self@.contains_key(bone@),
            },
    {
        names_get(&self.0, bone.as_str())
    }

    /// The bones of the registry, each with its node name, in no stated
    /// order: every pair is in the registry, every bone of the registry
    /// occurs, and none occurs twice.
    pub fn entries(&self) -> (pairs: Vec<(VrmBone, String)>)
        ensures
            lists(pairs@, self@),
    {
        names_pairs(&self.0)
    }
}

/// `pairs` holds every entry of `registry` once and nothing else.
pub open spec fn lists(pairs: Seq<(VrmBone, String)>, registry: Map<Seq<char>, Seq<char>>) -> bool {
    &&& forall|i: int|
        0 <= i < pairs.len() ==> registry.contains_key((#[trigger] pairs[i]).0@)
            && registry[pairs[i].0@] == pairs[i].1@
    &&& forall|bone: Seq<char>| #[trigger]
        registry.contains_key(bone) ==> exists|i: int|
            0 <= i < pairs.len() && (#[trigger] pairs[i]).0@ == bone
    &&& forall|i: int, j: int|
        0 <= i < j < pairs.len() ==> (#[trigger] pairs[i]).0@ != (#[trigger] pairs[j]).0@
}

/// The name of the bone below whose parent a skeleton hangs, and the only
/// bone whose translation is retargeted.
pub open spec fn hips_bone() -> Seq<char> {
    "hips"@
}

/// What is found for a bone when its skeleton is set up: the bone's node,
/// the node's transforms at that moment as the bone's rest pose, and the
/// humanoid bone that the bone's name stands for.
pub struct InitializedBone {
    pub bone: VrmBone,
    pub name: String,
    pub entity: Entity,
    pub rest: BoneRestTransform,
    pub rest_global: BoneRestGlobalTransform,
    pub humanoid: Option<HumanoidBone>,
}

/// What an initialized bone holds.
pub struct InitializedBoneView {
    pub bone: Seq<char>,
    pub name: Seq<char>,
    pub entity: Entity,
    pub rest: BoneRestTransform,
    pub rest_global: BoneRestGlobalTransform,
    pub humanoid: Option<HumanoidBone>,
}

impl View for InitializedBone {
    type V = InitializedBoneView;

    open spec fn view(&self) -> InitializedBoneView {
        InitializedBoneView {
            bone: self.bone@,
            name: self.name@,
            entity: self.entity,
            rest: self.rest,
            rest_global: self.rest_global,
            humanoid: self.humanoid,
        }
    }
}

/// The views of initialized bones.
pub open spec fn bone_views(bones: Seq<InitializedBone>) -> Seq<InitializedBoneView> {
    bones.map_values(|bone: InitializedBone| bone@)
}

/// What is captured for the bone `bone` that the model keeps under the node
/// name `name`: something, if a node of that name stands below `model` and
/// has transforms.
pub open spec fn captured(
    bone: Seq<char>,
    name: Seq<char>,
    model: Entity,
    nodes: Seq<NodeView>,
    poses: Map<Entity, NodePose>,
) -> Option<InitializedBoneView> {
    match search(nodes, model, name, false) {
        Some(entity) => if poses.contains_key(entity) {
            Some(
                InitializedBoneView {
                    bone,
                    name,
                    entity,
                    rest: BoneRestTransform(poses[entity].local),
                    rest_global: BoneRestGlobalTransform(poses[entity].global),
                    humanoid: HumanoidBone::with_upper_name(uppercase(bone)),
                },
            )
        } else {
            None
        },
        None => None,
    }
}

/// `captured`, as a function of a pair of bone and node name.
pub open spec fn capture_pick(
    model: Entity,
    nodes: Seq<NodeView>,
    poses: Map<Entity, NodePose>,
) -> spec_fn((VrmBone, String)) -> Option<InitializedBoneView> {
    |pair: (VrmBone, String)| captured(pair.0@, pair.1@, model, nodes, poses)
}

/// Captures the bones of the given pairs of bone and node name, in their
/// order. A pair whose node is not found below `model_entity`, or has no
/// transforms, is passed over.
pub fn initialized_bones(
    pairs: &Vec<(VrmBone, String)>,
    model_entity: Entity,
    searcher: &ChildSearcher,
    transforms: &NodePoses,
) -> (bones: Vec<InitializedBone>)
    ensures
        bone_views(bones@) == pairs@.filter_map(
            capture_pick(model_entity, searcher@, transforms@),
        ),
{
    let ghost pick = capture_pick(model_entity, searcher@, transforms@);
    let mut bones: Vec<InitializedBone> = Vec::new();
    let mut i: usize = 0;
    while i < pairs.len()
        invariant
            i <= pairs.len(),
            pick == capture_pick(model_entity, searcher@, transforms@),
            bone_views(bones@) == pairs@.take(i as int).filter_map(pick),
        decreases pairs.len() - i,
    {
        proof {
            lemma_filter_map_step(pairs@, pick, i as int);
        }
        if let Some(entity) = searcher.find_from_name(model_entity, pairs[i].1.as_str()) {
            if let Some(pose) = transforms.get(entity) {
                let bone = InitializedBone {
                    bone: VrmBone::new(pairs[i].0.as_str()),
                    name: pairs[i].1.clone(),
                    entity,
                    rest: BoneRestTransform(pose.local),
                    rest_global: BoneRestGlobalTransform(pose.global),
                    humanoid: HumanoidBone::from_name(pairs[i].0.as_str()),
                };
                let ghost before = bone_views(bones@);
                bones.push(bone);
                assert(bone_views(bones@) =~= before.push(bone@));
            }
        }
        i += 1;
    }
    assert(pairs@.take(pairs.len() as int) =~= pairs@);
    bones
}

/// `bones` holds what is captured for every bone of the registry once, and
/// nothing else.
pub open spec fn captures_registry(
    bones: Seq<InitializedBoneView>,
    registry: Map<Seq<char>, Seq<char>>,
    model: Entity,
    nodes: Seq<NodeView>,
    poses: Map<Entity, NodePose>,
) -> bool {
    &&& forall|i: int|
        0 <= i < bones.len() ==> registry.contains_key((#[trigger] bones[i]).bone) && captured(
            bones[i].bone,
            registry[bones[i].bone],
            model,
            nodes,
            poses,
        ) == Some(bones[i])
    &&& forall|bone: Seq<char>|
        registry.contains_key(bone) && (#[trigger] captured(
            bone,
            registry[bone],
            model,
            nodes,
            poses,
        )) is Some ==> exists|i: int| 0 <= i < bones.len() && (#[trigger] bones[i]).bone == bone
    &&& forall|i: int, j: int|
        0 <= i < j < bones.len() ==> (#[trigger] bones[i]).bone != (#[trigger] bones[j]).bone
}

/// Whatever the order of the pairs, what is captured for the entries of a
/// registry is what is captured for the registry's bones, each once.
pub proof fn lemma_captures_registry(
    pairs: Seq<(VrmBone, String)>,
    registry: Map<Seq<char>, Seq<char>>,
    model: Entity,
    nodes: Seq<NodeView>,
    poses: Map<Entity, NodePose>,
)
    requires
        lists(pairs, registry),
    ensures
        captures_registry(
            pairs.filter_map(capture_pick(model, nodes, poses)),
            registry,
            model,
            nodes,
            poses,
        ),
{
    let pick = capture_pick(model, nodes, poses);
    lemma_origins(pairs, pick);
    let out = pairs.filter_map(pick);
    let from = origins(pairs, pick);
    assert forall|i: int| 0 <= i < out.len() implies registry.contains_key((#[trigger] out[i]).bone)
        && captured(out[i].bone, registry[out[i].bone], model, nodes, poses) == Some(out[i]) by {
        let k = from[i];
        assert(pick(pairs[k]) == Some(out[i]));
        assert(registry.contains_key(pairs[k].0@) && registry[pairs[k].0@] == pairs[k].1@);
    }
    assert forall|bone: Seq<char>|
        registry.contains_key(bone) && (#[trigger] captured(
            bone,
            registry[bone],
            model,
            nodes,
            poses,
        )) is Some implies exists|i: int| 0 <= i < out.len() && (#[trigger] out[i]).bone == bone by {
        let k = choose|k: int| 0 <= k < pairs.len() && (#[trigger] pairs[k]).0@ == bone;
        assert(registry[pairs[k].0@] == pairs[k].1@);
        assert(pick(pairs[k]) is Some);
        assert(from.contains(k));
        let i = choose|i: int| 0 <= i < from.len() && from[i] == k;
        assert(pick(pairs[from[i]]) == Some(out[i]));
        assert(out[i].bone == bone);
    }
    assert forall|i: int, j: int| 0 <= i < j < out.len() implies (#[trigger] out[i]).bone != (
    #[trigger] out[j]).bone by {
        let k = from[i];
        let l = from[j];
        assert(k < l);
        assert(pick(pairs[k]) == Some(out[i]));
        assert(pick(pairs[l]) == Some(out[j]));
        assert(pairs[k].0@ != pairs[l].0@);
    }
}

/// The node below which the skeleton of `model` hangs: the parent of the
/// node that plays the hips.
pub open spec fn root_bone_of(
    model: Entity,
    registry: Map<Seq<char>, Seq<char>>,
    nodes: Seq<NodeView>,
) -> Option<Entity> {
    if registry.contains_key(hips_bone()) {
        match search(nodes, model, registry[hips_bone()], false) {
            Some(hips) => parent_in(nodes, hips),
            None => None,
        }
    } else {
        None
    }
}

/// What setting up a skeleton comes to: the node below which it hangs, and
/// the bones that were captured.
pub struct HumanoidBoneSetup {
    pub root_bone: Entity,
    pub bones: Vec<InitializedBone>,
}

/// Sets up the skeleton of the model `model_entity`. Nothing is set up
/// unless the registry has the hips, the node that plays them is found and
/// that node has a parent; the parent is the skeleton's root bone. Then
/// every bone of the registry
/// whose node is found and has transforms is captured, with the node's
/// transforms as its rest pose, in no stated order.
pub fn apply_initialize_humanoid_bones(
    model_entity: Entity,
    registry: &HumanoidBoneRegistry,
    searcher: &ChildSearcher,
    transforms: &NodePoses,
) -> (setup: Option<HumanoidBoneSetup>)
    ensures
        match setup {
            Some(setup) => root_bone_of(model_entity, registry@, searcher@) == Some(
                setup.root_bone,
            ) && captures_registry(
                bone_views(setup.bones@),
                registry@,
                model_entity,
                searcher@,
                transforms@,
            ),
            None => root_bone_of(model_entity, registry@, searcher@) is None,
        },
{
    let hips_bone = VrmBone::new("hips");
    let Some(hips_name) = registry.get(&hips_bone) else {
        return None;
    };
    let Some(hips) = searcher.find_from_name(model_entity, hips_name.as_str()) else {
        return None;
    };
    let Some(root_bone) = searcher.parent_of(hips) else {
        return None;
    };
    let pairs = registry.entries();
    proof {
        lemma_captures_registry(pairs@, registry@, model_entity, searcher@, transforms@);
    }
    let bones = initialized_bones(&pairs, model_entity, searcher, transforms);
    Some(HumanoidBoneSetup { root_bone, bones })
}

} // verus!
