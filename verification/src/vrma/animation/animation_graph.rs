//! Rebinding the curves of a clip to the rig.
//!
//! The curves of a clip address the nodes of the clip's own skeleton. For
//! every retargeted bone they are moved to the rig's node, and on the way a
//! rotation curve is bound to the table of rest rotations and the
//! translation curve of the hips to the two rest positions. Every other
//! curve is moved as it is.

use crate::names::same_text;
use crate::sequences::{lemma_filter_map_step, lemma_origins, origins};
use crate::system_param::child_searcher::{search, well_formed, ChildSearcher, NodeView};
use crate::vrm::expressions::{
    lists_expressions, ExpressionNode, ExpressionNodeView, VrmExpressionRegistry,
};
use crate::vrm::humanoid_bone::{hips_bone, lists, HumanoidBoneRegistry};
use crate::vrm::{
    BoneRestGlobalTransform, RestPose, RestPoseRegistry, Vrm, VrmBone, VrmExpression,
};
use crate::vrma::animation::bone_rotation::{
    bone_pair, is_retarget_table, lemma_one_bone_per_node, nodes_of, retargets,
    BoneRotateTransformations, BoneRotationAnimationCurve,
};
use crate::vrma::animation::bone_translation::{HipsTranslationAnimationCurve, Transformation};
use crate::vrma::animation::expressions::expression_views;
use crate::vrma::animation::AnimationTargets;
use crate::Entity;
use bevy::animation::AnimationTargetId;
use vstd::prelude::*;

verus! {

/// What a curve animates, as far as retargeting tells curves apart.
#[derive(Debug, Clone, Copy, PartialEq, Eq, Structural)]
pub enum AnimatedProperty {
    /// The translation of a node's transform.
    Translation,
    /// The rotation of a node's transform.
    Rotation,
    /// Anything else.
    Other,
}

/// What becomes of a curve when it is moved to the rig.
pub enum RetargetedCurve {
    /// The curve's values pass through the table of rest rotations.
    Rotation(BoneRotationAnimationCurve),
    /// The curve's values pass through the rest positions of the hips.
    HipsTranslation(HipsTranslationAnimationCurve),
    /// The curve stays as it is.
    Unchanged,
}

/// Decides what becomes of one curve of the bone at `bone_entity`. A rotation
/// curve is bound to the table. A translation curve is bound to the two rest
/// positions if the bone is the hips. Every other curve stays as it is.
pub fn animation_curve(
    animated: AnimatedProperty,
    bone_entity: Entity,
    hips: bool,
    transformations: &BoneRotateTransformations,
    vrma_rest_gtf: &BoneRestGlobalTransform,
    rest_gtf: &BoneRestGlobalTransform,
) -> (curve: RetargetedCurve)
    ensures
        match curve {
            RetargetedCurve::Rotation(rotation) => animated == AnimatedProperty::Rotation
                && rotation@ == transformations@,
            RetargetedCurve::HipsTranslation(translation) => animated
                == AnimatedProperty::Translation && hips && translation.hips() == bone_entity
                && translation.transformation() == (Transformation {
                src_rest_g: vrma_rest_gtf.0.translation,
                dist_rest_g: rest_gtf.0.translation,
            }),
            RetargetedCurve::Unchanged => animated == AnimatedProperty::Other || (animated
                == AnimatedProperty::Translation && !hips),
        },
{
    match animated {
        AnimatedProperty::Rotation => RetargetedCurve::Rotation(
            BoneRotationAnimationCurve::new(transformations.clone()),
        ),
        AnimatedProperty::Translation => {
            if hips {
                RetargetedCurve::HipsTranslation(
                    HipsTranslationAnimationCurve::new(
                        bone_entity,
                        vrma_rest_gtf.0.translation,
                        rest_gtf.0.translation,
                    ),
                )
            } else {
                RetargetedCurve::Unchanged
            }
        },
        AnimatedProperty::Other => RetargetedCurve::Unchanged,
    }
}

/// The move of one bone's curves: they leave the target `from` of the clip's
/// node and arrive at the target `to` of the rig's node `bone_entity`, each
/// passing through `animation_curve` with the values given here.
#[derive(Debug, Clone, Copy)]
pub struct CurveReplacement {
    pub from: AnimationTargetId,
    pub to: AnimationTargetId,
    pub bone_entity: Entity,
    pub hips: bool,
    pub vrma_rest_gtf: BoneRestGlobalTransform,
    pub rest_gtf: BoneRestGlobalTransform,
}

/// The move of the curves of `bone` from the clip's node `source` to the
/// rig's node `rig`.
pub open spec fn replacement_between(
    bone: Seq<char>,
    source: Entity,
    rig: Entity,
    rests: Map<Entity, RestPose>,
) -> CurveReplacement {
    CurveReplacement {
        from: rests[source].target,
        to: rests[rig].target,
        bone_entity: rig,
        hips: bone == hips_bone(),
        vrma_rest_gtf: rests[source].rest_global,
        rest_gtf: rests[rig].rest_global,
    }
}

/// The move that a retargeted bone of the registry gives.
pub open spec fn replacement_of(
    bone: Seq<char>,
    vrma: Entity,
    root_bone: Entity,
    registry: Map<Seq<char>, Seq<char>>,
    nodes: Seq<NodeView>,
    rests: Map<Entity, RestPose>,
) -> CurveReplacement {
    let (source, rig) = bone_pair(bone, vrma, root_bone, registry, nodes).unwrap();
    replacement_between(bone, source, rig, rests)
}

/// Whether `replacement` is the move of a retargeted bone.
pub open spec fn moves_retargeted_bone(
    replacement: CurveReplacement,
    vrma: Entity,
    root_bone: Entity,
    registry: Map<Seq<char>, Seq<char>>,
    nodes: Seq<NodeView>,
    rests: Map<Entity, RestPose>,
) -> bool {
    exists|bone: Seq<char>| #[trigger]
        retargets(bone, replacement.bone_entity, vrma, root_bone, registry, nodes, rests)
            && replacement == replacement_of(bone, vrma, root_bone, registry, nodes, rests)
}

/// `replacements` holds the move of every retargeted bone once and nothing
/// else.
pub open spec fn replaces_retargeted_bones(
    replacements: Seq<CurveReplacement>,
    vrma: Entity,
    root_bone: Entity,
    registry: Map<Seq<char>, Seq<char>>,
    nodes: Seq<NodeView>,
    rests: Map<Entity, RestPose>,
) -> bool {
    &&& forall|i: int|
        0 <= i < replacements.len() ==> moves_retargeted_bone(
            #[trigger] replacements[i],
            vrma,
            root_bone,
            registry,
            nodes,
            rests,
        )
    &&& forall|bone: Seq<char>, rig: Entity| #[trigger]
        retargets(bone, rig, vrma, root_bone, registry, nodes, rests) ==> exists|i: int|
            0 <= i < replacements.len() && #[trigger] replacements[i] == replacement_of(
                bone,
                vrma,
                root_bone,
                registry,
                nodes,
                rests,
            )
    &&& forall|i: int, j: int|
        0 <= i < j < replacements.len() ==> (#[trigger] replacements[i]).bone_entity
            != (#[trigger] replacements[j]).bone_entity
}

/// The move that one pair of bone and node name gives, if the bone is
/// retargeted: both nodes are found and both have a rest pose.
pub open spec fn replacement_for(
    pair: (VrmBone, String),
    vrma: Entity,
    root_bone: Entity,
    nodes: Seq<NodeView>,
    rests: Map<Entity, RestPose>,
) -> Option<CurveReplacement> {
    match nodes_of(pair.0@, pair.1@, vrma, root_bone, nodes) {
        Some((source, rig)) => if rests.contains_key(source) && rests.contains_key(rig) {
            Some(replacement_between(pair.0@, source, rig, rests))
        } else {
            None
        },
        None => None,
    }
}

/// The choice of `replacement_for` for every pair, as a function of the
/// pair.
pub open spec fn replacement_pick(
    vrma: Entity,
    root_bone: Entity,
    nodes: Seq<NodeView>,
    rests: Map<Entity, RestPose>,
) -> spec_fn((VrmBone, String)) -> Option<CurveReplacement> {
    |pair: (VrmBone, String)| replacement_for(pair, vrma, root_bone, nodes, rests)
}

/// The moves that `pairs` give, in the order of `pairs`.
pub open spec fn replacements_in(
    pairs: Seq<(VrmBone, String)>,
    vrma: Entity,
    root_bone: Entity,
    nodes: Seq<NodeView>,
    rests: Map<Entity, RestPose>,
) -> Seq<CurveReplacement> {
    pairs.filter_map(replacement_pick(vrma, root_bone, nodes, rests))
}

/// Lists the moves for the given pairs of bone and node name, in their
/// order.
pub fn replacements_for_pairs(
    pairs: &Vec<(VrmBone, String)>,
    vrma: Entity,
    root_bone: Entity,
    searcher: &ChildSearcher,
    bones: &RestPoseRegistry,
) -> (replacements: Vec<CurveReplacement>)
    ensures
        replacements@ == replacements_in(pairs@, vrma, root_bone, searcher@, bones@),
{
    let ghost pick = replacement_pick(vrma, root_bone, searcher@, bones@);
    let mut replacements: Vec<CurveReplacement> = Vec::new();
    let mut i: usize = 0;
    while i < pairs.len()
        invariant
            i <= pairs.len(),
            pick == replacement_pick(vrma, root_bone, searcher@, bones@),
            replacements@ == pairs@.take(i as int).filter_map(pick),
        decreases pairs.len() - i,
    {
        proof {
            lemma_filter_map_step(pairs@, pick, i as int);
        }
        let source = searcher.find_from_name(vrma, pairs[i].1.as_str());
        let rig = searcher.find_from_bone_name(root_bone, &pairs[i].0);
        if let Some(source) = source {
            if let Some(rig) = rig {
                if let Some(source_rest) = bones.get(source) {
                    if let Some(rest) = bones.get(rig) {
                        let hips = same_text(pairs[i].0.as_str(), "hips");
                        replacements.push(
                            CurveReplacement {
                                from: source_rest.target,
                                to: rest.target,
                                bone_entity: rig,
                                hips,
                                vrma_rest_gtf: source_rest.rest_global,
                                rest_gtf: rest.rest_global,
                            },
                        );
                    }
                }
            }
        }
        i += 1;
    }
    assert(pairs@.take(pairs.len() as int) =~= pairs@);
    replacements
}

/// Whatever the order of the pairs, the moves that the entries of a
/// registry give are the moves of the retargeted bones, each once.
pub proof fn lemma_replacements_cover(
    pairs: Seq<(VrmBone, String)>,
    vrma: Entity,
    root_bone: Entity,
    registry: Map<Seq<char>, Seq<char>>,
    nodes: Seq<NodeView>,
    rests: Map<Entity, RestPose>,
)
    requires
        well_formed(nodes),
        lists(pairs, registry),
    ensures
        replaces_retargeted_bones(
            replacements_in(pairs, vrma, root_bone, nodes, rests),
            vrma,
            root_bone,
            registry,
            nodes,
            rests,
        ),
{
    let pick = replacement_pick(vrma, root_bone, nodes, rests);
    lemma_origins(pairs, pick);
    let out = replacements_in(pairs, vrma, root_bone, nodes, rests);
    let from = origins(pairs, pick);
    assert forall|i: int| 0 <= i < out.len() implies moves_retargeted_bone(
        #[trigger] out[i],
        vrma,
        root_bone,
        registry,
        nodes,
        rests,
    ) by {
        let k = from[i];
        lemma_pair_retargets(pairs, k, vrma, root_bone, registry, nodes, rests);
    }
    assert forall|bone: Seq<char>, rig: Entity| #[trigger]
        retargets(bone, rig, vrma, root_bone, registry, nodes, rests) implies exists|i: int|
        0 <= i < out.len() && #[trigger] out[i] == replacement_of(
            bone,
            vrma,
            root_bone,
            registry,
            nodes,
            rests,
        ) by {
        let k = choose|k: int| 0 <= k < pairs.len() && (#[trigger] pairs[k]).0@ == bone;
        lemma_pair_retargets(pairs, k, vrma, root_bone, registry, nodes, rests);
        assert(replacement_for(pairs[k], vrma, root_bone, nodes, rests) is Some);
        assert(from.contains(k));
        let i = choose|i: int| 0 <= i < from.len() && from[i] == k;
        assert(out[i] == replacement_of(bone, vrma, root_bone, registry, nodes, rests));
    }
    assert forall|i: int, j: int| 0 <= i < j < out.len() implies (#[trigger] out[i]).bone_entity
        != (#[trigger] out[j]).bone_entity by {
        let k = from[i];
        let l = from[j];
        assert(k < l);
        lemma_pair_retargets(pairs, k, vrma, root_bone, registry, nodes, rests);
        lemma_pair_retargets(pairs, l, vrma, root_bone, registry, nodes, rests);
        if out[i].bone_entity == out[j].bone_entity {
            lemma_one_bone_per_node(
                pairs[k].0@,
                pairs[l].0@,
                out[i].bone_entity,
                vrma,
                root_bone,
                registry,
                nodes,
                rests,
            );
            assert(pairs[k].0@ != pairs[l].0@);
        }
    }
}

/// A pair of a registry's entries gives a move exactly when its bone is
/// retargeted, and the move is then the bone's.
proof fn lemma_pair_retargets(
    pairs: Seq<(VrmBone, String)>,
    k: int,
    vrma: Entity,
    root_bone: Entity,
    registry: Map<Seq<char>, Seq<char>>,
    nodes: Seq<NodeView>,
    rests: Map<Entity, RestPose>,
)
    requires
        lists(pairs, registry),
        0 <= k < pairs.len(),
    ensures
        match replacement_for(pairs[k], vrma, root_bone, nodes, rests) {
            Some(replacement) => retargets(
                pairs[k].0@,
                replacement.bone_entity,
                vrma,
                root_bone,
                registry,
                nodes,
                rests,
            ) && replacement == replacement_of(
                pairs[k].0@,
                vrma,
                root_bone,
                registry,
                nodes,
                rests,
            ),
            None => forall|rig: Entity|
                !retargets(pairs[k].0@, rig, vrma, root_bone, registry, nodes, rests),
        },
{
    assert(registry.contains_key(pairs[k].0@) && registry[pairs[k].0@] == pairs[k].1@);
}

/// Lists the moves of the curves of a clip whose skeleton stands below
/// `vrma_entity` onto the rig below `root_bone`: one for every retargeted
/// bone of the registry, in no stated order.
pub fn replace_bone_animation_clips(
    vrma_entity: Entity,
    root_bone: Entity,
    registry: &HumanoidBoneRegistry,
    searcher: &ChildSearcher,
    bones: &RestPoseRegistry,
) -> (replacements: Vec<CurveReplacement>)
    ensures
        replaces_retargeted_bones(
            replacements@,
            vrma_entity,
            root_bone,
            registry@,
            searcher@,
            bones@,
        ),
{
    let pairs = registry.entries();
    proof {
        use_type_invariant(searcher);
        lemma_replacements_cover(pairs@, vrma_entity, root_bone, registry@, searcher@, bones@);
    }
    replacements_for_pairs(&pairs, vrma_entity, root_bone, searcher, bones)
}

/// What retargeting a clip onto a rig comes to: the table of rest rotations
/// and the moves of the clip's curves.
pub struct ClipRetargeting {
    pub transformations: BoneRotateTransformations,
    pub replacements: Vec<CurveReplacement>,
}

/// Retargets the clip whose skeleton stands below `vrma_entity` onto the
/// avatar `vrm_entity`. Without a root bone below the avatar nothing is
/// retargeted.
pub fn apply_replace_humanoid_bone_animation_clips(
    vrma_entity: Entity,
    vrm_entity: Entity,
    registry: &HumanoidBoneRegistry,
    searcher: &ChildSearcher,
    bones: &RestPoseRegistry,
) -> (retargeting: Option<ClipRetargeting>)
    ensures
        match retargeting {
            Some(retargeting) => match search(searcher@, vrm_entity, Vrm::ROOT_BONE@, false) {
                Some(root_bone) => {
                    &&& is_retarget_table(
                        retargeting.transformations@,
                        vrma_entity,
                        root_bone,
                        registry@,
                        searcher@,
                        bones@,
                    )
                    &&& replaces_retargeted_bones(
                        retargeting.replacements@,
                        vrma_entity,
                        root_bone,
                        registry@,
                        searcher@,
                        bones@,
                    )
                },
                None => false,
            },
            None => search(searcher@, vrm_entity, Vrm::ROOT_BONE@, false) is None,
        },
{
    let Some(root_bone) = searcher.find_root_bone(vrm_entity) else {
        return None;
    };
    let transformations = BoneRotateTransformations::new(
        vrma_entity,
        root_bone,
        registry,
        searcher,
        bones,
    );
    let replacements = replace_bone_animation_clips(
        vrma_entity,
        root_bone,
        registry,
        searcher,
        bones,
    );
    Some(ClipRetargeting { transformations, replacements })
}

/// The move of the curves of one expression: they leave the target `from`
/// of the clip's node and arrive at the target `to` of the avatar's node.
#[derive(Debug, Clone, Copy)]
pub struct ExpressionReplacement {
    pub from: AnimationTargetId,
    pub to: AnimationTargetId,
}

/// What an expression means for the curves of a clip.
pub enum ExpressionStep {
    /// Nothing: the clip or the avatar has no node for the expression.
    Skip,
    /// The curves of the expression are moved.
    Move(ExpressionReplacement),
    /// The work ends here: one of the two nodes cannot be animated.
    Stop,
}

/// What the expression `expression` means for the curves of the clip whose
/// nodes stand below `vrma`, the expressions of the avatar standing below
/// `expressions_root`.
pub open spec fn expression_step(
    expression: Seq<char>,
    vrma: Entity,
    expressions_root: Entity,
    nodes: Seq<NodeView>,
    targets: Map<Entity, AnimationTargetId>,
) -> ExpressionStep {
    match (
        search(nodes, vrma, expression, false),
        search(nodes, expressions_root, expression, false),
    ) {
        (Some(source), Some(rig)) => if targets.contains_key(source) && targets.contains_key(rig) {
            ExpressionStep::Move(ExpressionReplacement { from: targets[source], to: targets[rig] })
        } else {
            ExpressionStep::Stop
        },
        _ => ExpressionStep::Skip,
    }
}

/// The moves for the given expressions, in their order, up to the first
/// expression at which the work ends.
pub open spec fn expression_moves(
    expressions: Seq<Seq<char>>,
    vrma: Entity,
    expressions_root: Entity,
    nodes: Seq<NodeView>,
    targets: Map<Entity, AnimationTargetId>,
) -> Seq<ExpressionReplacement>
    decreases expressions.len(),
{
    if expressions.len() == 0 {
        Seq::empty()
    } else {
        let later = expression_moves(
            expressions.drop_first(),
            vrma,
            expressions_root,
            nodes,
            targets,
        );
        match expression_step(expressions[0], vrma, expressions_root, nodes, targets) {
            ExpressionStep::Skip => later,
            ExpressionStep::Move(replacement) => seq![replacement] + later,
            ExpressionStep::Stop => Seq::empty(),
        }
    }
}

/// Lists the moves of the curves of the given expressions, in their order.
/// An expression without a node on either side is passed over. The list
/// ends at the first expression of which a node cannot be animated.
pub fn expression_replacements(
    expressions: &Vec<VrmExpression>,
    vrma_entity: Entity,
    expressions_root: Entity,
    searcher: &ChildSearcher,
    targets: &AnimationTargets,
) -> (replacements: Vec<ExpressionReplacement>)
    ensures
        replacements@ == expression_moves(
            expression_views(expressions@),
            vrma_entity,
            expressions_root,
            searcher@,
            targets@,
        ),
{
    let ghost names = expression_views(expressions@);
    let mut replacements: Vec<ExpressionReplacement> = Vec::new();
    let mut i: usize = 0;
    assert(names.skip(0) =~= names);
    assert(replacements@ + expression_moves(
        names,
        vrma_entity,
        expressions_root,
        searcher@,
        targets@,
    ) =~= expression_moves(names, vrma_entity, expressions_root, searcher@, targets@));
    while i < expressions.len()
        invariant
            i <= expressions.len(),
            names == expression_views(expressions@),
            expression_moves(names, vrma_entity, expressions_root, searcher@, targets@)
                == replacements@ + expression_moves(
                names.skip(i as int),
                vrma_entity,
                expressions_root,
                searcher@,
                targets@,
            ),
        decreases expressions.len() - i,
    {
        let ghost done = replacements@;
        let ghost rest = names.skip(i as int);
        assert(rest[0] == expressions[i as int]@);
        assert(rest.drop_first() =~= names.skip(i + 1));
        let source = searcher.find_from_name(vrma_entity, expressions[i].as_str());
        let rig = searcher.find_from_name(expressions_root, expressions[i].as_str());
        if let Some(source) = source {
            if let Some(rig) = rig {
                let Some(from) = targets.get(source) else {
                    assert(done + Seq::<ExpressionReplacement>::empty() =~= done);
                    return replacements;
                };
                let Some(to) = targets.get(rig) else {
                    assert(done + Seq::<ExpressionReplacement>::empty() =~= done);
                    return replacements;
                };
                replacements.push(ExpressionReplacement { from, to });
                assert(replacements@ + expression_moves(
                    names.skip(i + 1),
                    vrma_entity,
                    expressions_root,
                    searcher@,
                    targets@,
                ) =~= done + (seq![ExpressionReplacement { from, to }] + expression_moves(
                    names.skip(i + 1),
                    vrma_entity,
                    expressions_root,
                    searcher@,
                    targets@,
                )));
            }
        }
        i += 1;
    }
    assert(replacements@ + Seq::<ExpressionReplacement>::empty() =~= replacements@);
    replacements
}

/// Every move comes from one of the expressions. If the work ends at none of
/// them, every expression whose curves are to be moved has its move listed.
pub proof fn lemma_expression_moves(
    expressions: Seq<Seq<char>>,
    vrma: Entity,
    expressions_root: Entity,
    nodes: Seq<NodeView>,
    targets: Map<Entity, AnimationTargetId>,
)
    ensures
        forall|i: int|
            0 <= i < expression_moves(expressions, vrma, expressions_root, nodes, targets).len()
                ==> exists|k: int|
                0 <= k < expressions.len() && expression_step(
                    #[trigger] expressions[k],
                    vrma,
                    expressions_root,
                    nodes,
                    targets,
                ) == ExpressionStep::Move(
                    #[trigger] expression_moves(
                        expressions,
                        vrma,
                        expressions_root,
                        nodes,
                        targets,
                    )[i],
                ),
        (forall|k: int|
            0 <= k < expressions.len() ==> !(expression_step(
                #[trigger] expressions[k],
                vrma,
                expressions_root,
                nodes,
                targets,
            ) is Stop)) ==> forall|k: int|
            0 <= k < expressions.len() ==> match expression_step(
                #[trigger] expressions[k],
                vrma,
                expressions_root,
                nodes,
                targets,
            ) {
                ExpressionStep::Move(replacement) => expression_moves(
                    expressions,
                    vrma,
                    expressions_root,
                    nodes,
                    targets,
                ).contains(replacement),
                _ => true,
            },
    decreases expressions.len(),
{
    if expressions.len() > 0 {
        let later = expressions.drop_first();
        lemma_expression_moves(later, vrma, expressions_root, nodes, targets);
        let moves = expression_moves(expressions, vrma, expressions_root, nodes, targets);
        let later_moves = expression_moves(later, vrma, expressions_root, nodes, targets);
        let first = expression_step(expressions[0], vrma, expressions_root, nodes, targets);
        assert forall|i: int| 0 <= i < moves.len() implies exists|k: int|
            0 <= k < expressions.len() && expression_step(
                #[trigger] expressions[k],
                vrma,
                expressions_root,
                nodes,
                targets,
            ) == ExpressionStep::Move(#[trigger] moves[i]) by {
            let shift: int = if first is Move {
                1
            } else {
                0
            };
            if i < shift {
                assert(expression_step(expressions[0], vrma, expressions_root, nodes, targets)
                    == ExpressionStep::Move(moves[i]));
            } else {
                assert(moves[i] == later_moves[i - shift]);
                let k = choose|k: int|
                    0 <= k < later.len() && expression_step(
                        #[trigger] later[k],
                        vrma,
                        expressions_root,
                        nodes,
                        targets,
                    ) == ExpressionStep::Move(later_moves[i - shift]);
                assert(expressions[k + 1] == later[k]);
            }
        }
        if forall|k: int|
            0 <= k < expressions.len() ==> !(expression_step(
                #[trigger] expressions[k],
                vrma,
                expressions_root,
                nodes,
                targets,
            ) is Stop) {
            assert forall|k: int| 0 <= k < later.len() implies !(expression_step(
                #[trigger] later[k],
                vrma,
                expressions_root,
                nodes,
                targets,
            ) is Stop) by {
                assert(later[k] == expressions[k + 1]);
            }
            assert forall|k: int| 0 <= k < expressions.len() implies match expression_step(
                #[trigger] expressions[k],
                vrma,
                expressions_root,
                nodes,
                targets,
            ) {
                ExpressionStep::Move(replacement) => moves.contains(replacement),
                _ => true,
            } by {
                if let ExpressionStep::Move(replacement) = expression_step(
                    expressions[k],
                    vrma,
                    expressions_root,
                    nodes,
                    targets,
                ) {
                    let shift: int = if first is Move {
                        1
                    } else {
                        0
                    };
                    if k == 0 {
                        assert(moves[0] == replacement);
                    } else {
                        assert(later[k - 1] == expressions[k]);
                        assert(later_moves.contains(replacement));
                        let i = choose|i: int|
                            0 <= i < later_moves.len() && later_moves[i] == replacement;
                        assert(moves[i + shift] == replacement);
                    }
                }
            }
        }
    }
}

fn expression_names(pairs: &Vec<(VrmExpression, Vec<ExpressionNode>)>) -> (names: Vec<
    VrmExpression,
>)
    ensures
        names.len() == pairs.len(),
        forall|i: int| 0 <= i < pairs.len() ==> (#[trigger] names[i])@ == pairs[i].0@,
{
    let mut names: Vec<VrmExpression> = Vec::new();
    let mut i: usize = 0;
    while i < pairs.len()
        invariant
            i <= pairs.len(),
            names.len() == i,
            forall|k: int| 0 <= k < i ==> (#[trigger] names[k])@ == pairs[k].0@,
        decreases pairs.len() - i,
    {
        names.push(pairs[i].0.clone());
        i += 1;
    }
    names
}

/// `replacements` holds moves of expressions of the registry only, and of
/// all of them unless the work ended at one.
pub open spec fn replaces_expressions(
    replacements: Seq<ExpressionReplacement>,
    vrma: Entity,
    expressions_root: Entity,
    registry: Map<Seq<char>, Seq<ExpressionNodeView>>,
    nodes: Seq<NodeView>,
    targets: Map<Entity, AnimationTargetId>,
) -> bool {
    &&& forall|i: int|
        0 <= i < replacements.len() ==> exists|expression: Seq<char>|
            registry.contains_key(expression) && #[trigger] expression_step(
                expression,
                vrma,
                expressions_root,
                nodes,
                targets,
            ) == ExpressionStep::Move(#[trigger] replacements[i])
    &&& (forall|expression: Seq<char>|
        registry.contains_key(expression) ==> !(#[trigger] expression_step(
            expression,
            vrma,
            expressions_root,
            nodes,
            targets,
        ) is Stop)) ==> forall|expression: Seq<char>|
        registry.contains_key(expression) ==> match #[trigger] expression_step(
            expression,
            vrma,
            expressions_root,
            nodes,
            targets,
        ) {
            ExpressionStep::Move(replacement) => replacements.contains(replacement),
            _ => true,
        }
}

/// Lists the moves of the curves of a clip's expressions onto the avatar
/// `vrm_entity`, in no stated order. Without an expressions root below the
/// avatar nothing is moved. The moves are those of expressions of the
/// registry that have a node on both sides; they are all listed unless a
/// node of one of them cannot be animated, at which the list ends.
pub fn apply_regenerate_expression_clips(
    vrma_entity: Entity,
    vrm_entity: Entity,
    registry: &VrmExpressionRegistry,
    searcher: &ChildSearcher,
    targets: &AnimationTargets,
) -> (replacements: Vec<ExpressionReplacement>)
    ensures
        match search(searcher@, vrm_entity, Vrm::EXPRESSIONS_ROOT@, false) {
            Some(expressions_root) => replaces_expressions(
                replacements@,
                vrma_entity,
                expressions_root,
                registry@,
                searcher@,
                targets@,
            ),
            None => replacements@.len() == 0,
        },
{
    let Some(expressions_root) = searcher.find_expressions_root(vrm_entity) else {
        return Vec::new();
    };
    let pairs = registry.entries();
    let names = expression_names(&pairs);
    let replacements = expression_replacements(
        &names,
        vrma_entity,
        expressions_root,
        searcher,
        targets,
    );
    proof {
        let listed = expression_views(names@);
        lemma_expression_moves(listed, vrma_entity, expressions_root, searcher@, targets@);
        assert forall|i: int| 0 <= i < replacements@.len() implies exists|expression: Seq<char>|
            registry@.contains_key(expression) && #[trigger] expression_step(
                expression,
                vrma_entity,
                expressions_root,
                searcher@,
                targets@,
            ) == ExpressionStep::Move(#[trigger] replacements@[i]) by {
            let k = choose|k: int|
                0 <= k < listed.len() && expression_step(
                    #[trigger] listed[k],
                    vrma_entity,
                    expressions_root,
                    searcher@,
                    targets@,
                ) == ExpressionStep::Move(replacements@[i]);
            assert(listed[k] == pairs[k].0@);
            assert(registry@.contains_key(pairs[k].0@));
        }
        if forall|expression: Seq<char>|
            registry@.contains_key(expression) ==> !(#[trigger] expression_step(
                expression,
                vrma_entity,
                expressions_root,
                searcher@,
                targets@,
            ) is Stop) {
            assert forall|k: int| 0 <= k < listed.len() implies !(expression_step(
                #[trigger] listed[k],
                vrma_entity,
                expressions_root,
                searcher@,
                targets@,
            ) is Stop) by {
                assert(listed[k] == pairs[k].0@);
                assert(registry@.contains_key(pairs[k].0@));
            }
            assert forall|expression: Seq<char>|
                registry@.contains_key(expression) implies match #[trigger] expression_step(
                expression,
                vrma_entity,
                expressions_root,
                searcher@,
                targets@,
            ) {
                ExpressionStep::Move(replacement) => replacements@.contains(replacement),
                _ => true,
            } by {
                let k = choose|k: int| 0 <= k < pairs.len() && (#[trigger] pairs[k]).0@ == expression;
                assert(listed[k] == expression);
            }
        }
    }
    replacements
}

} // verus!
