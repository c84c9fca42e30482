//! The expressions that a motion clip drives.

use crate::vrm::VrmExpression;
use vstd::prelude::*;

verus! {

/// The names of the expressions that a clip drives.
pub struct VrmaExpressionNames(pub Vec<VrmExpression>);

/// The views of expression names.
pub open spec fn expression_views(names: Seq<VrmExpression>) -> Seq<Seq<char>> {
    names.map_values(|name: VrmExpression| name@)
}

/// The views of names.
pub open spec fn text_views(names: Seq<String>) -> Seq<Seq<char>> {
    names.map_values(|name: String| name@)
}

impl VrmaExpressionNames {
    /// The expressions that a clip drives: those that its description
    /// names, in their order, and none if it describes no expressions.
    pub fn new(preset: Option<&Vec<String>>) -> (names: Self)
        ensures
            expression_views(names.0@) == match preset {
                Some(preset) => text_views(preset@),
                None => Seq::empty(),
            },
    {
        let mut names: Vec<VrmExpression> = Vec::new();
        if let Some(preset) = preset {
            let mut i: usize = 0;
            while i < preset.len()
                invariant
                    i <= preset.len(),
                    expression_views(names@) == text_views(preset@).take(i as int),
                decreases preset.len() - i,
            {
                let ghost before = expression_views(names@);
                let name = VrmExpression::new(preset[i].as_str());
                names.push(name);
                assert(expression_views(names@) =~= before.push(name@));
                assert(text_views(preset@).take(i + 1) =~= text_views(preset@).take(i as int).push(
                    preset[i as int]@,
                ));
                i += 1;
            }
            assert(text_views(preset@).take(preset.len() as int) =~= text_views(preset@));
        } else {
            assert(expression_views(names@) =~= Seq::empty());
        }
        VrmaExpressionNames(names)
    }
}

} // verus!
