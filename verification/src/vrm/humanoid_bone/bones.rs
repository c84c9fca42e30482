//! The humanoid bones that the library knows by name.

use crate::names::{same_text, to_uppercase, uppercase};
use vstd::prelude::*;

verus! {

/// A bone of the humanoid skeleton.
#[derive(Debug, Clone, Copy, PartialEq, Eq, Hash, Structural)]
pub enum HumanoidBone {
    Hips,
    RightRingProximal,
    RightThumbDistal,
    RightRingIntermediate,
    RightUpperArm,
    LeftIndexProximal,
    LeftUpperLeg,
    LeftFoot,
    LeftIndexDistal,
    LeftThumbMetacarpal,
    RightLowerArm,
    LeftMiddleDistal,
    RightUpperLeg,
    LeftToes,
    LeftThumbDistal,
    RightShoulder,
    RightThumbMetacarpal,
    Spine,
    LeftLowerLeg,
    LeftShoulder,
    LeftUpperArm,
    UpperChest,
    RightToes,
    RightIndexDistal,
    LeftMiddleProximal,
    LeftRingProximal,
    LeftRingDistal,
    LeftThumbProximal,
    LeftIndexIntermediate,
    LeftLittleProximal,
    LeftLittleDistal,
    RightHand,
    RightLittleProximal,
    LeftRingIntermediate,
    RightIndexIntermediate,
    Chest,
    LeftHand,
    RightLittleIntermediate,
    RightFoot,
    RightLowerLeg,
    LeftLittleIntermediate,
    LeftLowerArm,
    RightLittleDistal,
    RightMiddleIntermediate,
    RightMiddleProximal,
    RightThumbProximal,
    Neck,
    Jaw,
    Head,
    LeftEye,
    RightEye,
    LeftMiddleIntermediate,
    RightRingDistal,
    RightIndexProximal,
    RightMiddleDistal,
}

/// The number of humanoid bones.
pub const HUMANOID_BONES: usize = 55;

impl HumanoidBone {
    /// The bone's name.
    pub open spec fn name_of(self) -> Seq<char> {
        match self {
            HumanoidBone::Hips => "Hips"@,
            HumanoidBone::RightRingProximal => "RightRingProximal"@,
            HumanoidBone::RightThumbDistal => "RightThumbDistal"@,
            HumanoidBone::RightRingIntermediate => "RightRingIntermediate"@,
            HumanoidBone::RightUpperArm => "RightUpperArm"@,
            HumanoidBone::LeftIndexProximal => "LeftIndexProximal"@,
            HumanoidBone::LeftUpperLeg => "LeftUpperLeg"@,
            HumanoidBone::LeftFoot => "LeftFoot"@,
            HumanoidBone::LeftIndexDistal => "LeftIndexDistal"@,
            HumanoidBone::LeftThumbMetacarpal => "LeftThumbMetacarpal"@,
            HumanoidBone::RightLowerArm => "RightLowerArm"@,
            HumanoidBone::LeftMiddleDistal => "LeftMiddleDistal"@,
            HumanoidBone::RightUpperLeg => "RightUpperLeg"@,
            HumanoidBone::LeftToes => "LeftToes"@,
            HumanoidBone::LeftThumbDistal => "LeftThumbDistal"@,
            HumanoidBone::RightShoulder => "RightShoulder"@,
            HumanoidBone::RightThumbMetacarpal => "RightThumbMetacarpal"@,
            HumanoidBone::Spine => "Spine"@,
            HumanoidBone::LeftLowerLeg => "LeftLowerLeg"@,
            HumanoidBone::LeftShoulder => "LeftShoulder"@,
            HumanoidBone::LeftUpperArm => "LeftUpperArm"@,
            HumanoidBone::UpperChest => "UpperChest"@,
            HumanoidBone::RightToes => "RightToes"@,
            HumanoidBone::RightIndexDistal => "RightIndexDistal"@,
            HumanoidBone::LeftMiddleProximal => "LeftMiddleProximal"@,
            HumanoidBone::LeftRingProximal => "LeftRingProximal"@,
            HumanoidBone::LeftRingDistal => "LeftRingDistal"@,
            HumanoidBone::LeftThumbProximal => "LeftThumbProximal"@,
            HumanoidBone::LeftIndexIntermediate => "LeftIndexIntermediate"@,
            HumanoidBone::LeftLittleProximal => "LeftLittleProximal"@,
            HumanoidBone::LeftLittleDistal => "LeftLittleDistal"@,
            HumanoidBone::RightHand => "RightHand"@,
            HumanoidBone::RightLittleProximal => "RightLittleProximal"@,
            HumanoidBone::LeftRingIntermediate => "LeftRingIntermediate"@,
            HumanoidBone::RightIndexIntermediate => "RightIndexIntermediate"@,
            HumanoidBone::Chest => "Chest"@,
            HumanoidBone::LeftHand => "LeftHand"@,
            HumanoidBone::RightLittleIntermediate => "RightLittleIntermediate"@,
            HumanoidBone::RightFoot => "RightFoot"@,
            HumanoidBone::RightLowerLeg => "RightLowerLeg"@,
            HumanoidBone::LeftLittleIntermediate => "LeftLittleIntermediate"@,
            HumanoidBone::LeftLowerArm => "LeftLowerArm"@,
            HumanoidBone::RightLittleDistal => "RightLittleDistal"@,
            HumanoidBone::RightMiddleIntermediate => "RightMiddleIntermediate"@,
            HumanoidBone::RightMiddleProximal => "RightMiddleProximal"@,
            HumanoidBone::RightThumbProximal => "RightThumbProximal"@,
            HumanoidBone::Neck => "Neck"@,
            HumanoidBone::Jaw => "Jaw"@,
            HumanoidBone::Head => "Head"@,
            HumanoidBone::LeftEye => "LeftEye"@,
            HumanoidBone::RightEye => "RightEye"@,
            HumanoidBone::LeftMiddleIntermediate => "LeftMiddleIntermediate"@,
            HumanoidBone::RightRingDistal => "RightRingDistal"@,
            HumanoidBone::RightIndexProximal => "RightIndexProximal"@,
            HumanoidBone::RightMiddleDistal => "RightMiddleDistal"@,
        }
    }

    /// The bone's name in upper case.
    pub open spec fn upper_name_of(self) -> Seq<char> {
        match self {
            HumanoidBone::Hips => "HIPS"@,
            HumanoidBone::RightRingProximal => "RIGHTRINGPROXIMAL"@,
            HumanoidBone::RightThumbDistal => "RIGHTTHUMBDISTAL"@,
            HumanoidBone::RightRingIntermediate => "RIGHTRINGINTERMEDIATE"@,
            HumanoidBone::RightUpperArm => "RIGHTUPPERARM"@,
            HumanoidBone::LeftIndexProximal => "LEFTINDEXPROXIMAL"@,
            HumanoidBone::LeftUpperLeg => "LEFTUPPERLEG"@,
            HumanoidBone::LeftFoot => "LEFTFOOT"@,
            HumanoidBone::LeftIndexDistal => "LEFTINDEXDISTAL"@,
            HumanoidBone::LeftThumbMetacarpal => "LEFTTHUMBMETACARPAL"@,
            HumanoidBone::RightLowerArm => "RIGHTLOWERARM"@,
            HumanoidBone::LeftMiddleDistal => "LEFTMIDDLEDISTAL"@,
            HumanoidBone::RightUpperLeg => "RIGHTUPPERLEG"@,
            HumanoidBone::LeftToes => "LEFTTOES"@,
            HumanoidBone::LeftThumbDistal => "LEFTTHUMBDISTAL"@,
            HumanoidBone::RightShoulder => "RIGHTSHOULDER"@,
            HumanoidBone::RightThumbMetacarpal => "RIGHTTHUMBMETACARPAL"@,
            HumanoidBone::Spine => "SPINE"@,
            HumanoidBone::LeftLowerLeg => "LEFTLOWERLEG"@,
            HumanoidBone::LeftShoulder => "LEFTSHOULDER"@,
            HumanoidBone::LeftUpperArm => "LEFTUPPERARM"@,
            HumanoidBone::UpperChest => "UPPERCHEST"@,
            HumanoidBone::RightToes => "RIGHTTOES"@,
            HumanoidBone::RightIndexDistal => "RIGHTINDEXDISTAL"@,
            HumanoidBone::LeftMiddleProximal => "LEFTMIDDLEPROXIMAL"@,
            HumanoidBone::LeftRingProximal => "LEFTRINGPROXIMAL"@,
            HumanoidBone::LeftRingDistal => "LEFTRINGDISTAL"@,
            HumanoidBone::LeftThumbProximal => "LEFTTHUMBPROXIMAL"@,
            HumanoidBone::LeftIndexIntermediate => "LEFTINDEXINTERMEDIATE"@,
            HumanoidBone::LeftLittleProximal => "LEFTLITTLEPROXIMAL"@,
            HumanoidBone::LeftLittleDistal => "LEFTLITTLEDISTAL"@,
            HumanoidBone::RightHand => "RIGHTHAND"@,
            HumanoidBone::RightLittleProximal => "RIGHTLITTLEPROXIMAL"@,
            HumanoidBone::LeftRingIntermediate => "LEFTRINGINTERMEDIATE"@,
            HumanoidBone::RightIndexIntermediate => "RIGHTINDEXINTERMEDIATE"@,
            HumanoidBone::Chest => "CHEST"@,
            HumanoidBone::LeftHand => "LEFTHAND"@,
            HumanoidBone::RightLittleIntermediate => "RIGHTLITTLEINTERMEDIATE"@,
            HumanoidBone::RightFoot => "RIGHTFOOT"@,
            HumanoidBone::RightLowerLeg => "RIGHTLOWERLEG"@,
            HumanoidBone::LeftLittleIntermediate => "LEFTLITTLEINTERMEDIATE"@,
            HumanoidBone::LeftLowerArm => "LEFTLOWERARM"@,
            HumanoidBone::RightLittleDistal => "RIGHTLITTLEDISTAL"@,
            HumanoidBone::RightMiddleIntermediate => "RIGHTMIDDLEINTERMEDIATE"@,
            HumanoidBone::RightMiddleProximal => "RIGHTMIDDLEPROXIMAL"@,
            HumanoidBone::RightThumbProximal => "RIGHTTHUMBPROXIMAL"@,
            HumanoidBone::Neck => "NECK"@,
            HumanoidBone::Jaw => "JAW"@,
            HumanoidBone::Head => "HEAD"@,
            HumanoidBone::LeftEye => "LEFTEYE"@,
            HumanoidBone::RightEye => "RIGHTEYE"@,
            HumanoidBone::LeftMiddleIntermediate => "LEFTMIDDLEINTERMEDIATE"@,
            HumanoidBone::RightRingDistal => "RIGHTRINGDISTAL"@,
            HumanoidBone::RightIndexProximal => "RIGHTINDEXPROXIMAL"@,
            HumanoidBone::RightMiddleDistal => "RIGHTMIDDLEDISTAL"@,
        }
    }

    /// The bones in the order in which a name is held against them.
    pub open spec fn in_order(i: int) -> HumanoidBone {
        if i == 0 {
            HumanoidBone::Hips
        } else if i == 1 {
            HumanoidBone::RightRingProximal
        } else if i == 2 {
            HumanoidBone::RightThumbDistal
        } else if i == 3 {
            HumanoidBone::RightRingIntermediate
        } else if i == 4 {
            HumanoidBone::RightUpperArm
        } else if i == 5 {
            HumanoidBone::LeftIndexProximal
        } else if i == 6 {
            HumanoidBone::LeftUpperLeg
        } else if i == 7 {
            HumanoidBone::LeftFoot
        } else if i == 8 {
            HumanoidBone::LeftIndexDistal
        } else if i == 9 {
            HumanoidBone::LeftThumbMetacarpal
        } else if i == 10 {
            HumanoidBone::RightLowerArm
        } else if i == 11 {
            HumanoidBone::LeftMiddleDistal
        } else if i == 12 {
            HumanoidBone::RightUpperLeg
        } else if i == 13 {
            HumanoidBone::LeftToes
        } else if i == 14 {
            HumanoidBone::LeftThumbDistal
        } else if i == 15 {
            HumanoidBone::RightShoulder
        } else if i == 16 {
            HumanoidBone::RightThumbMetacarpal
        } else if i == 17 {
            HumanoidBone::Spine
        } else if i == 18 {
            HumanoidBone::LeftLowerLeg
        } else if i == 19 {
            HumanoidBone::LeftShoulder
        } else if i == 20 {
            HumanoidBone::LeftUpperArm
        } else if i == 21 {
            HumanoidBone::UpperChest
        } else if i == 22 {
            HumanoidBone::RightToes
        } else if i == 23 {
            HumanoidBone::RightIndexDistal
        } else if i == 24 {
            HumanoidBone::LeftMiddleProximal
        } else if i == 25 {
            HumanoidBone::LeftRingProximal
        } else if i == 26 {
            HumanoidBone::LeftRingDistal
        } else if i == 27 {
            HumanoidBone::LeftThumbProximal
        } else if i == 28 {
            HumanoidBone::LeftIndexIntermediate
        } else if i == 29 {
            HumanoidBone::LeftLittleProximal
        } else if i == 30 {
            HumanoidBone::LeftLittleDistal
        } else if i == 31 {
            HumanoidBone::RightHand
        } else if i == 32 {
            HumanoidBone::RightLittleProximal
        } else if i == 33 {
            HumanoidBone::LeftRingIntermediate
        } else if i == 34 {
            HumanoidBone::RightIndexIntermediate
        } else if i == 35 {
            HumanoidBone::Chest
        } else if i == 36 {
            HumanoidBone::LeftHand
        } else if i == 37 {
            HumanoidBone::RightLittleIntermediate
        } else if i == 38 {
            HumanoidBone::RightFoot
        } else if i == 39 {
            HumanoidBone::RightLowerLeg
        } else if i == 40 {
            HumanoidBone::LeftLittleIntermediate
        } else if i == 41 {
            HumanoidBone::LeftLowerArm
        } else if i == 42 {
            HumanoidBone::RightLittleDistal
        } else if i == 43 {
            HumanoidBone::RightMiddleIntermediate
        } else if i == 44 {
            HumanoidBone::RightMiddleProximal
        } else if i == 45 {
            HumanoidBone::RightThumbProximal
        } else if i == 46 {
            HumanoidBone::Neck
        } else if i == 47 {
            HumanoidBone::Jaw
        } else if i == 48 {
            HumanoidBone::Head
        } else if i == 49 {
            HumanoidBone::LeftEye
        } else if i == 50 {
            HumanoidBone::RightEye
        } else if i == 51 {
            HumanoidBone::LeftMiddleIntermediate
        } else if i == 52 {
            HumanoidBone::RightRingDistal
        } else if i == 53 {
            HumanoidBone::RightIndexProximal
        } else {
            HumanoidBone::RightMiddleDistal
        }
    }

    /// The first bone from position `from` on whose name in upper case is
    /// `upper`.
    pub open spec fn first_named(upper: Seq<char>, from: int) -> Option<HumanoidBone>
        decreases HUMANOID_BONES - from,
    {
        if from < 0 || from >= HUMANOID_BONES {
            None
        } else if HumanoidBone::in_order(from).upper_name_of() == upper {
            Some(HumanoidBone::in_order(from))
        } else {
            HumanoidBone::first_named(upper, from + 1)
        }
    }

    /// The bone whose name in upper case is `upper`.
    pub open spec fn with_upper_name(upper: Seq<char>) -> Option<HumanoidBone> {
        HumanoidBone::first_named(upper, 0)
    }

    /// The bone's name.
    pub fn name(self) -> (name: &'static str)
        ensures
            name@ == self.name_of(),
    {
        match self {
            HumanoidBone::Hips => "Hips",
            HumanoidBone::RightRingProximal => "RightRingProximal",
            HumanoidBone::RightThumbDistal => "RightThumbDistal",
            HumanoidBone::RightRingIntermediate => "RightRingIntermediate",
            HumanoidBone::RightUpperArm => "RightUpperArm",
            HumanoidBone::LeftIndexProximal => "LeftIndexProximal",
            HumanoidBone::LeftUpperLeg => "LeftUpperLeg",
            HumanoidBone::LeftFoot => "LeftFoot",
            HumanoidBone::LeftIndexDistal => "LeftIndexDistal",
            HumanoidBone::LeftThumbMetacarpal => "LeftThumbMetacarpal",
            HumanoidBone::RightLowerArm => "RightLowerArm",
            HumanoidBone::LeftMiddleDistal => "LeftMiddleDistal",
            HumanoidBone::RightUpperLeg => "RightUpperLeg",
            HumanoidBone::LeftToes => "LeftToes",
            HumanoidBone::LeftThumbDistal => "LeftThumbDistal",
            HumanoidBone::RightShoulder => "RightShoulder",
            HumanoidBone::RightThumbMetacarpal => "RightThumbMetacarpal",
            HumanoidBone::Spine => "Spine",
            HumanoidBone::LeftLowerLeg => "LeftLowerLeg",
            HumanoidBone::LeftShoulder => "LeftShoulder",
            HumanoidBone::LeftUpperArm => "LeftUpperArm",
            HumanoidBone::UpperChest => "UpperChest",
            HumanoidBone::RightToes => "RightToes",
            HumanoidBone::RightIndexDistal => "RightIndexDistal",
            HumanoidBone::LeftMiddleProximal => "LeftMiddleProximal",
            HumanoidBone::LeftRingProximal => "LeftRingProximal",
            HumanoidBone::LeftRingDistal => "LeftRingDistal",
            HumanoidBone::LeftThumbProximal => "LeftThumbProximal",
            HumanoidBone::LeftIndexIntermediate => "LeftIndexIntermediate",
            HumanoidBone::LeftLittleProximal => "LeftLittleProximal",
            HumanoidBone::LeftLittleDistal => "LeftLittleDistal",
            HumanoidBone::RightHand => "RightHand",
            HumanoidBone::RightLittleProximal => "RightLittleProximal",
            HumanoidBone::LeftRingIntermediate => "LeftRingIntermediate",
            HumanoidBone::RightIndexIntermediate => "RightIndexIntermediate",
            HumanoidBone::Chest => "Chest",
            HumanoidBone::LeftHand => "LeftHand",
            HumanoidBone::RightLittleIntermediate => "RightLittleIntermediate",
            HumanoidBone::RightFoot => "RightFoot",
            HumanoidBone::RightLowerLeg => "RightLowerLeg",
            HumanoidBone::LeftLittleIntermediate => "LeftLittleIntermediate",
            HumanoidBone::LeftLowerArm => "LeftLowerArm",
            HumanoidBone::RightLittleDistal => "RightLittleDistal",
            HumanoidBone::RightMiddleIntermediate => "RightMiddleIntermediate",
            HumanoidBone::RightMiddleProximal => "RightMiddleProximal",
            HumanoidBone::RightThumbProximal => "RightThumbProximal",
            HumanoidBone::Neck => "Neck",
            HumanoidBone::Jaw => "Jaw",
            HumanoidBone::Head => "Head",
            HumanoidBone::LeftEye => "LeftEye",
            HumanoidBone::RightEye => "RightEye",
            HumanoidBone::LeftMiddleIntermediate => "LeftMiddleIntermediate",
            HumanoidBone::RightRingDistal => "RightRingDistal",
            HumanoidBone::RightIndexProximal => "RightIndexProximal",
            HumanoidBone::RightMiddleDistal => "RightMiddleDistal",
        }
    }

    /// The bone's name in upper case.
    pub fn upper_name(self) -> (name: &'static str)
        ensures
            name@ == self.upper_name_of(),
    {
        match self {
            HumanoidBone::Hips => "HIPS",
            HumanoidBone::RightRingProximal => "RIGHTRINGPROXIMAL",
            HumanoidBone::RightThumbDistal => "RIGHTTHUMBDISTAL",
            HumanoidBone::RightRingIntermediate => "RIGHTRINGINTERMEDIATE",
            HumanoidBone::RightUpperArm => "RIGHTUPPERARM",
            HumanoidBone::LeftIndexProximal => "LEFTINDEXPROXIMAL",
            HumanoidBone::LeftUpperLeg => "LEFTUPPERLEG",
            HumanoidBone::LeftFoot => "LEFTFOOT",
            HumanoidBone::LeftIndexDistal => "LEFTINDEXDISTAL",
            HumanoidBone::LeftThumbMetacarpal => "LEFTTHUMBMETACARPAL",
            HumanoidBone::RightLowerArm => "RIGHTLOWERARM",
            HumanoidBone::LeftMiddleDistal => "LEFTMIDDLEDISTAL",
            HumanoidBone::RightUpperLeg => "RIGHTUPPERLEG",
            HumanoidBone::LeftToes => "LEFTTOES",
            HumanoidBone::LeftThumbDistal => "LEFTTHUMBDISTAL",
            HumanoidBone::RightShoulder => "RIGHTSHOULDER",
            HumanoidBone::RightThumbMetacarpal => "RIGHTTHUMBMETACARPAL",
            HumanoidBone::Spine => "SPINE",
            HumanoidBone::LeftLowerLeg => "LEFTLOWERLEG",
            HumanoidBone::LeftShoulder => "LEFTSHOULDER",
            HumanoidBone::LeftUpperArm => "LEFTUPPERARM",
            HumanoidBone::UpperChest => "UPPERCHEST",
            HumanoidBone::RightToes => "RIGHTTOES",
            HumanoidBone::RightIndexDistal => "RIGHTINDEXDISTAL",
            HumanoidBone::LeftMiddleProximal => "LEFTMIDDLEPROXIMAL",
            HumanoidBone::LeftRingProximal => "LEFTRINGPROXIMAL",
            HumanoidBone::LeftRingDistal => "LEFTRINGDISTAL",
            HumanoidBone::LeftThumbProximal => "LEFTTHUMBPROXIMAL",
            HumanoidBone::LeftIndexIntermediate => "LEFTINDEXINTERMEDIATE",
            HumanoidBone::LeftLittleProximal => "LEFTLITTLEPROXIMAL",
            HumanoidBone::LeftLittleDistal => "LEFTLITTLEDISTAL",
            HumanoidBone::RightHand => "RIGHTHAND",
            HumanoidBone::RightLittleProximal => "RIGHTLITTLEPROXIMAL",
            HumanoidBone::LeftRingIntermediate => "LEFTRINGINTERMEDIATE",
            HumanoidBone::RightIndexIntermediate => "RIGHTINDEXINTERMEDIATE",
            HumanoidBone::Chest => "CHEST",
            HumanoidBone::LeftHand => "LEFTHAND",
            HumanoidBone::RightLittleIntermediate => "RIGHTLITTLEINTERMEDIATE",
            HumanoidBone::RightFoot => "RIGHTFOOT",
            HumanoidBone::RightLowerLeg => "RIGHTLOWERLEG",
            HumanoidBone::LeftLittleIntermediate => "LEFTLITTLEINTERMEDIATE",
            HumanoidBone::LeftLowerArm => "LEFTLOWERARM",
            HumanoidBone::RightLittleDistal => "RIGHTLITTLEDISTAL",
            HumanoidBone::RightMiddleIntermediate => "RIGHTMIDDLEINTERMEDIATE",
            HumanoidBone::RightMiddleProximal => "RIGHTMIDDLEPROXIMAL",
            HumanoidBone::RightThumbProximal => "RIGHTTHUMBPROXIMAL",
            HumanoidBone::Neck => "NECK",
            HumanoidBone::Jaw => "JAW",
            HumanoidBone::Head => "HEAD",
            HumanoidBone::LeftEye => "LEFTEYE",
            HumanoidBone::RightEye => "RIGHTEYE",
            HumanoidBone::LeftMiddleIntermediate => "LEFTMIDDLEINTERMEDIATE",
            HumanoidBone::RightRingDistal => "RIGHTRINGDISTAL",
            HumanoidBone::RightIndexProximal => "RIGHTINDEXPROXIMAL",
            HumanoidBone::RightMiddleDistal => "RIGHTMIDDLEDISTAL",
        }
    }

    /// The bone at position `i` of the order in which a name is held
    /// against the bones.
    pub fn at(i: usize) -> (bone: HumanoidBone)
        requires
            i < HUMANOID_BONES,
        ensures
            bone == HumanoidBone::in_order(i as int),
    {
        if i == 0 {
            HumanoidBone::Hips
        } else if i == 1 {
            HumanoidBone::RightRingProximal
        } else if i == 2 {
            HumanoidBone::RightThumbDistal
        } else if i == 3 {
            HumanoidBone::RightRingIntermediate
        } else if i == 4 {
            HumanoidBone::RightUpperArm
        } else if i == 5 {
            HumanoidBone::LeftIndexProximal
        } else if i == 6 {
            HumanoidBone::LeftUpperLeg
        } else if i == 7 {
            HumanoidBone::LeftFoot
        } else if i == 8 {
            HumanoidBone::LeftIndexDistal
        } else if i == 9 {
            HumanoidBone::LeftThumbMetacarpal
        } else if i == 10 {
            HumanoidBone::RightLowerArm
        } else if i == 11 {
            HumanoidBone::LeftMiddleDistal
        } else if i == 12 {
            HumanoidBone::RightUpperLeg
        } else if i == 13 {
            HumanoidBone::LeftToes
        } else if i == 14 {
            HumanoidBone::LeftThumbDistal
        } else if i == 15 {
            HumanoidBone::RightShoulder
        } else if i == 16 {
            HumanoidBone::RightThumbMetacarpal
        } else if i == 17 {
            HumanoidBone::Spine
        } else if i == 18 {
            HumanoidBone::LeftLowerLeg
        } else if i == 19 {
            HumanoidBone::LeftShoulder
        } else if i == 20 {
            HumanoidBone::LeftUpperArm
        } else if i == 21 {
            HumanoidBone::UpperChest
        } else if i == 22 {
            HumanoidBone::RightToes
        } else if i == 23 {
            HumanoidBone::RightIndexDistal
        } else if i == 24 {
            HumanoidBone::LeftMiddleProximal
        } else if i == 25 {
            HumanoidBone::LeftRingProximal
        } else if i == 26 {
            HumanoidBone::LeftRingDistal
        } else if i == 27 {
            HumanoidBone::LeftThumbProximal
        } else if i == 28 {
            HumanoidBone::LeftIndexIntermediate
        } else if i == 29 {
            HumanoidBone::LeftLittleProximal
        } else if i == 30 {
            HumanoidBone::LeftLittleDistal
        } else if i == 31 {
            HumanoidBone::RightHand
        } else if i == 32 {
            HumanoidBone::RightLittleProximal
        } else if i == 33 {
            HumanoidBone::LeftRingIntermediate
        } else if i == 34 {
            HumanoidBone::RightIndexIntermediate
        } else if i == 35 {
            HumanoidBone::Chest
        } else if i == 36 {
            HumanoidBone::LeftHand
        } else if i == 37 {
            HumanoidBone::RightLittleIntermediate
        } else if i == 38 {
            HumanoidBone::RightFoot
        } else if i == 39 {
            HumanoidBone::RightLowerLeg
        } else if i == 40 {
            HumanoidBone::LeftLittleIntermediate
        } else if i == 41 {
            HumanoidBone::LeftLowerArm
        } else if i == 42 {
            HumanoidBone::RightLittleDistal
        } else if i == 43 {
            HumanoidBone::RightMiddleIntermediate
        } else if i == 44 {
            HumanoidBone::RightMiddleProximal
        } else if i == 45 {
            HumanoidBone::RightThumbProximal
        } else if i == 46 {
            HumanoidBone::Neck
        } else if i == 47 {
            HumanoidBone::Jaw
        } else if i == 48 {
            HumanoidBone::Head
        } else if i == 49 {
            HumanoidBone::LeftEye
        } else if i == 50 {
            HumanoidBone::RightEye
        } else if i == 51 {
            HumanoidBone::LeftMiddleIntermediate
        } else if i == 52 {
            HumanoidBone::RightRingDistal
        } else if i == 53 {
            HumanoidBone::RightIndexProximal
        } else {
            HumanoidBone::RightMiddleDistal
        }
    }

    /// The bone whose name in upper case is `upper`, if there is one.
    pub fn from_upper_case(upper: &str) -> (bone: Option<HumanoidBone>)
        ensures
            bone == HumanoidBone::with_upper_name(upper@),
    {
        let mut i: usize = 0;
        while i < HUMANOID_BONES
            invariant
                i <= HUMANOID_BONES,
                HumanoidBone::with_upper_name(upper@) == HumanoidBone::first_named(
                    upper@,
                    i as int,
                ),
            decreases HUMANOID_BONES - i,
        {
            let candidate = HumanoidBone::at(i);
            if same_text(upper, candidate.upper_name()) {
                return Some(candidate);
            }
            i += 1;
        }
        None
    }

    /// The bone that `name` stands for, if it names one. The case of the
    /// letters does not count: `hips`, `Hips` and `HIPS` name the same bone.
    pub fn from_name(name: &str) -> (bone: Option<HumanoidBone>)
        ensures
            bone == HumanoidBone::with_upper_name(uppercase(name@)),
    {
        let upper = to_uppercase(name);
        HumanoidBone::from_upper_case(upper.as_str())
    }
}

} // verus!
