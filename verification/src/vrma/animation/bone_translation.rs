//! The rest positions by which the translation of the hips is carried onto
//! a rig, and the curve that applies them.
//!
//! Only the hips are moved. Their curve registers one transformation, under
//! the rig's hips node, with the evaluator that it shares with other curves.
//! A position of the clip's hips becomes the rig's rest position, moved by
//! as much as the clip's hips are away from their own rest position, in the
//! proportion of the two rest heights. The library says which positions
//! enter this sum; the caller does the arithmetic.

use crate::vrma::animation::AnimationEvaluationError;
use crate::Entity;
use bevy::math::Vec3;
use bevy::platform::collections::HashMap;
use vstd::prelude::*;

verus! {

/// The world-space rest positions of the hips: of the clip's skeleton
/// (`src`) and of the rig (`dist`).
#[derive(Debug, Clone, Copy)]
pub struct Transformation {
    pub src_rest_g: Vec3,
    pub dist_rest_g: Vec3,
}

/// The difference `pose - rest` of two positions.
#[derive(Debug, Clone, Copy)]
pub struct Delta {
    pub pose: Vec3,
    pub rest: Vec3,
}

/// The ratio `dist_rest.y / source_rest.y` of two heights.
#[derive(Debug, Clone, Copy)]
pub struct Scaling {
    pub dist_rest: Vec3,
    pub source_rest: Vec3,
}

/// The position `rest + delta * scaling`.
#[derive(Debug, Clone, Copy)]
pub struct HipsPosition {
    pub rest: Vec3,
    pub delta: Delta,
    pub scaling: Scaling,
}

/// How far the clip's hips are away from their rest position.
pub fn calc_delta(source_pose_pos: Vec3, source_rest_global_pos: Vec3) -> (delta: Delta)
    ensures
        delta.pose == source_pose_pos,
        delta.rest == source_rest_global_pos,
{
    Delta { pose: source_pose_pos, rest: source_rest_global_pos }
}

/// The proportion of the rig to the clip's skeleton: the ratio of their rest
/// heights.
pub fn calc_scaling(dist_rest_global_pos: Vec3, source_rest_global_pos: Vec3) -> (scaling: Scaling)
    ensures
        scaling.dist_rest == dist_rest_global_pos,
        scaling.source_rest == source_rest_global_pos,
{
    Scaling { dist_rest: dist_rest_global_pos, source_rest: source_rest_global_pos }
}

/// The position of the rig's hips for the position `pose` of the clip's
/// hips.
pub open spec fn hips_position(source_rest: Vec3, pose: Vec3, dist_rest: Vec3) -> HipsPosition {
    HipsPosition {
        rest: dist_rest,
        delta: Delta { pose, rest: source_rest },
        scaling: Scaling { dist_rest, source_rest },
    }
}

/// The position of the rig's hips for the position `source_pose_pos` of the
/// clip's hips: the rig's rest position, moved by the scaled distance of the
/// clip's hips from their rest position.
pub fn calc_hips_position(
    source_rest_global_pos: Vec3,
    source_pose_pos: Vec3,
    dist_rest_global_pos: Vec3,
) -> (position: HipsPosition)
    ensures
        position == hips_position(source_rest_global_pos, source_pose_pos, dist_rest_global_pos),
{
    let delta = calc_delta(source_pose_pos, source_rest_global_pos);
    let scaling = calc_scaling(dist_rest_global_pos, source_rest_global_pos);
    HipsPosition { rest: dist_rest_global_pos, delta, scaling }
}

impl Transformation {
    /// Says how the position `src_pose` of the clip's hips is carried onto
    /// the rig's hips.
    pub fn transform(&self, src_pose: Vec3) -> (position: HipsPosition)
        ensures
            position == hips_position(self.src_rest_g, src_pose, self.dist_rest_g),
    {
        calc_hips_position(self.src_rest_g, src_pose, self.dist_rest_g)
    }
}

/// What a map from nodes to hips transformations holds.
pub uninterp spec fn translations(map: HashMap<Entity, Transformation>) -> Map<
    Entity,
    Transformation,
>;

/// `bevy::platform::collections::HashMap::new`: the new map holds nothing.
#[verifier::external_body]
fn translations_new() -> (map: HashMap<Entity, Transformation>)
    ensures
        translations(map) =~= Map::empty(),
{
    HashMap::new()
}

/// `bevy::platform::collections::HashMap::entry` followed by
/// `Entry::or_insert`: a map that holds nothing under `entity` afterwards
/// holds `transformation` there; a map that holds something there is
/// unchanged.
#[verifier::external_body]
fn translations_or_insert(
    map: &mut HashMap<Entity, Transformation>,
    entity: Entity,
    transformation: Transformation,
)
    ensures
        translations(*final(map)) == if translations(*old(map)).contains_key(entity) {
            translations(*old(map))
        } else {
            translations(*old(map)).insert(entity, transformation)
        },
{
    map.entry(entity).or_insert(transformation);
}

/// `bevy::platform::collections::HashMap::get`: the value held under
/// `entity`, if any.
#[verifier::external_body]
fn translations_get(map: &HashMap<Entity, Transformation>, entity: Entity) -> (found: Option<
    Transformation,
>)
    ensures
        found == if translations(*map).contains_key(entity) {
            Some(translations(*map)[entity])
        } else {
            None
        },
{
    map.get(&entity).copied()
}

/// The translation curve of the hips, bound to the rig's hips node and the
/// two rest positions. The curve itself stays with the caller.
#[derive(Debug, Clone, Copy)]
pub struct HipsTranslationAnimationCurve {
    hips: Entity,
    transformation: Transformation,
}

impl HipsTranslationAnimationCurve {
    pub closed spec fn hips(&self) -> Entity {
        self.hips
    }

    pub closed spec fn transformation(&self) -> Transformation {
        self.transformation
    }

    pub fn new(hips: Entity, src_rest_g: Vec3, dist_rest_g: Vec3) -> (curve: Self)
        ensures
            curve.hips() == hips,
            curve.transformation() == (Transformation { src_rest_g, dist_rest_g }),
    {
        Self { hips, transformation: Transformation { src_rest_g, dist_rest_g } }
    }

    /// The evaluator of this curve. It starts without transformations.
    pub fn create_evaluator(&self) -> (evaluator: RetargetEvaluator)
        ensures
            evaluator@ == Map::<Entity, Transformation>::empty(),
    {
        RetargetEvaluator { transformations: translations_new() }
    }

    /// One evaluation step of this curve: the evaluator learns the curve's
    /// transformation for the hips node, unless it already holds one for
    /// that node.
    pub fn apply(&self, curve_evaluator: &mut RetargetEvaluator)
        ensures
            final(curve_evaluator)@ == if old(curve_evaluator)@.contains_key(self.hips()) {
                old(curve_evaluator)@
            } else {
                old(curve_evaluator)@.insert(self.hips(), self.transformation())
            },
    {
        translations_or_insert(&mut curve_evaluator.transformations, self.hips, self.transformation);
    }
}

/// The state that translation curves share while a pose is evaluated.
pub struct RetargetEvaluator {
    transformations: HashMap<Entity, Transformation>,
}

impl View for RetargetEvaluator {
    type V = Map<Entity, Transformation>;

    closed spec fn view(&self) -> Map<Entity, Transformation> {
        translations(self.transformations)
    }
}

impl RetargetEvaluator {
    /// The decision at commit time, when the blended position is about to be
    /// written to the node `id`: the transformation through which the value
    /// has to pass. A node without a registered transformation is an error,
    /// and its pose is then left as it was.
    pub fn commit(&self, id: Entity) -> (decision: Result<Transformation, AnimationEvaluationError>)
        ensures
            match decision {
                Ok(transformation) => self@.contains_key(id) && transformation == self@[id],
                Err(error) => !self@.contains_key(id) && error
                    == AnimationEvaluationError::PropertyNotPresent,
            },
    {
        match translations_get(&self.transformations, id) {
            Some(transformation) => Ok(transformation),
            None => Err(AnimationEvaluationError::PropertyNotPresent),
        }
    }
}

} // verus!
