//! What an avatar looks at.

use crate::Entity;
use vstd::prelude::*;

verus! {

/// What an avatar looks at: the cursor of a window, or a node.
#[derive(Debug, Clone, Copy, PartialEq, Eq, Structural)]
pub enum LookAt {
    /// Look at the window cursor.
    /// The camera that renders to the window may be given.
    /// If `None`, all cameras are tried and the first one with a cursor is used.
    Cursor { camera: Option<Entity> },
    /// Specify the entity of the target.
    Target(Entity),
}

/// Where the position to look at is taken from.
#[derive(Debug)]
pub enum LookAtSource {
    /// From the cursor as one of these cameras sees it: the first, in this
    /// order, for which the cursor has a position.
    Cursor(Vec<Entity>),
    /// From the position of this node.
    Node(Entity),
}

/// Decides where the position to look at is taken from. `cameras` lists the
/// cameras of the scene.
pub fn calc_target_position(look_at: &LookAt, cameras: &Vec<Entity>) -> (source: LookAtSource)
    ensures
        match *look_at {
            LookAt::Cursor { camera: Some(camera) } => source matches LookAtSource::Cursor(tried)
                && tried@ == seq![camera],
            LookAt::Cursor { camera: None } => source matches LookAtSource::Cursor(tried) && tried@
                == cameras@,
            LookAt::Target(target) => source matches LookAtSource::Node(node) && node == target,
        },
{
    match look_at {
        LookAt::Cursor { camera } => match camera {
            Some(camera) => {
                let mut tried: Vec<Entity> = Vec::new();
                tried.push(*camera);
                assert(tried@ =~= seq![*camera]);
                LookAtSource::Cursor(tried)
            },
            None => LookAtSource::Cursor(cameras.clone()),
        },
        LookAt::Target(target) => LookAtSource::Node(*target),
    }
}

} // verus!
