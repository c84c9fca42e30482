//! Pose retargeting and spring-chain bookkeeping for humanoid avatars.
//!
//! The crate holds the discrete half of an avatar runtime: which node of a
//! scene a bone name resolves to, which bones of a motion clip meet which
//! bones of a rig, which transformation a committed curve value has to pass
//! through, which morph targets an expression drives, and which joints of a
//! spring chain are seeded. Rotations and positions are carried through
//! untouched: the library says which of them are multiplied or added, and
//! the arithmetic belongs to the caller.

pub mod collections;
pub mod math;
pub mod names;
pub mod sequences;
pub mod system_param;
pub mod vrm;
pub mod vrma;

use vstd::prelude::*;

verus! {

/// Identifier of a scene node: the 64 bits of the host's entity handle.
pub type Entity = u64;

} // verus!
