//! The moment at which a model is set up.
//!
//! A model is set up once every bone of its registry has its node in the
//! scene. What is then asked for depends on whether the model is an avatar
//! or a motion clip.

use crate::system_param::child_searcher::{parent_in, search, ChildSearcher, NodeView};
use crate::vrm::humanoid_bone::HumanoidBoneRegistry;
use crate::Entity;
use vstd::prelude::*;

verus! {

/// One step of setting up a model.
#[derive(Debug, Clone, Copy, PartialEq, Eq, Structural)]
pub enum InitializeRequest {
    /// Set up the humanoid bones.
    HumanoidBones,
    /// Set up the spring chains.
    SpringBone,
    /// Retarget the clip `vrma` onto the avatar `vrm`.
    UpdateAnimationGraph { vrm: Entity, vrma: Entity },
    /// Set up the expressions.
    Expressions,
}

/// Whether every bone of the registry has its node below `root`.
pub open spec fn all_bones_spawned(
    root: Entity,
    registry: Map<Seq<char>, Seq<char>>,
    nodes: Seq<NodeView>,
) -> bool {
    forall|bone: Seq<char>| #[trigger]
        registry.contains_key(bone) ==> search(nodes, root, registry[bone], false) is Some
}

/// The steps of setting up the model `root`: its bones and its spring chains;
/// then, for a motion clip, the retargeting onto the avatar that is its
/// parent, if it has one, and for an avatar its expressions.
pub open spec fn requests_for(root: Entity, has_vrma: bool, nodes: Seq<NodeView>) -> Seq<
    InitializeRequest,
> {
    let first = seq![InitializeRequest::HumanoidBones, InitializeRequest::SpringBone];
    if has_vrma {
        match parent_in(nodes, root) {
            Some(vrm) => first.push(InitializeRequest::UpdateAnimationGraph { vrm, vrma: root }),
            None => first,
        }
    } else {
        first.push(InitializeRequest::Expressions)
    }
}

/// Decides whether the model `root` can be set up, and with which steps.
/// As long as a bone of the registry has no node below `root`, nothing is
/// asked for and the model stays as it is.
pub fn request_initialize(
    root: Entity,
    registry: &HumanoidBoneRegistry,
    has_vrma: bool,
    searcher: &ChildSearcher,
) -> (requests: Option<Vec<InitializeRequest>>)
    ensures
        match requests {
            Some(requests) => all_bones_spawned(root, registry@, searcher@) && requests@
                == requests_for(root, has_vrma, searcher@),
            None => !all_bones_spawned(root, registry@, searcher@),
        },
{
    if !searcher.has_been_spawned_all_bones(root, registry) {
        return None;
    }
    let mut requests: Vec<InitializeRequest> = Vec::new();
    requests.push(InitializeRequest::HumanoidBones);
    requests.push(InitializeRequest::SpringBone);
    if has_vrma {
        if let Some(vrm) = searcher.parent_of(root) {
            requests.push(InitializeRequest::UpdateAnimationGraph { vrm, vrma: root });
        }
    } else {
        requests.push(InitializeRequest::Expressions);
    }
    assert(requests@ =~= requests_for(root, has_vrma, searcher@));
    Some(requests)
}

} // verus!
