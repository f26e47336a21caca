//! The bones of a hand and where their poses come from.

pub mod common;
pub mod emulated;
pub mod hand_tracking;

use vstd::prelude::*;

verus! {

/// Whether a bone's pose is made up from the controller or tracked.
#[derive(Debug, Clone, Copy, PartialEq, Eq, Structural)]
pub enum BoneTrackingStatus {
    Emulated,
    HandTracked,
}

/// The number of bones of a hand.
pub const HAND_BONE_COUNT: usize = 26;

/// A bone of the hand, in the runtime's order of hand joints.
#[derive(Debug, Clone, Copy, PartialEq, Eq, Structural)]
pub enum HandBone {
    Palm,
    Wrist,
    ThumbMetacarpal,
    ThumbProximal,
    ThumbDistal,
    ThumbTip,
    IndexMetacarpal,
    IndexProximal,
    IndexIntermediate,
    IndexDistal,
    IndexTip,
    MiddleMetacarpal,
    MiddleProximal,
    MiddleIntermediate,
    MiddleDistal,
    MiddleTip,
    RingMetacarpal,
    RingProximal,
    RingIntermediate,
    RingDistal,
    RingTip,
    LittleMetacarpal,
    LittleProximal,
    LittleIntermediate,
    LittleDistal,
    LittleTip,
}

impl HandBone {
    /// The runtime's number of the joint.
    pub open spec fn spec_index(self) -> usize {
        match self {
            HandBone::Palm => 0,
            HandBone::Wrist => 1,
            HandBone::ThumbMetacarpal => 2,
            HandBone::ThumbProximal => 3,
            HandBone::ThumbDistal => 4,
            HandBone::ThumbTip => 5,
            HandBone::IndexMetacarpal => 6,
            HandBone::IndexProximal => 7,
            HandBone::IndexIntermediate => 8,
            HandBone::IndexDistal => 9,
            HandBone::IndexTip => 10,
            HandBone::MiddleMetacarpal => 11,
            HandBone::MiddleProximal => 12,
            HandBone::MiddleIntermediate => 13,
            HandBone::MiddleDistal => 14,
            HandBone::MiddleTip => 15,
            HandBone::RingMetacarpal => 16,
            HandBone::RingProximal => 17,
            HandBone::RingIntermediate => 18,
            HandBone::RingDistal => 19,
            HandBone::RingTip => 20,
            HandBone::LittleMetacarpal => 21,
            HandBone::LittleProximal => 22,
            HandBone::LittleIntermediate => 23,
            HandBone::LittleDistal => 24,
            HandBone::LittleTip => 25,
        }
    }

    pub open spec fn spec_is_finger(&self) -> bool {
        *self != HandBone::Wrist && *self != HandBone::Palm
    }

    pub open spec fn spec_is_metacarpal(&self) -> bool {
        *self == HandBone::ThumbMetacarpal || *self == HandBone::IndexMetacarpal || *self
            == HandBone::MiddleMetacarpal || *self == HandBone::RingMetacarpal || *self
            == HandBone::LittleMetacarpal
    }

    /// The bones in the runtime's order: `all()[i]` is the bone of number `i`.
    pub open spec fn all() -> Seq<HandBone> {
        seq![
            HandBone::Palm,
            HandBone::Wrist,
            HandBone::ThumbMetacarpal,
            HandBone::ThumbProximal,
            HandBone::ThumbDistal,
            HandBone::ThumbTip,
            HandBone::IndexMetacarpal,
            HandBone::IndexProximal,
            HandBone::IndexIntermediate,
            HandBone::IndexDistal,
            HandBone::IndexTip,
            HandBone::MiddleMetacarpal,
            HandBone::MiddleProximal,
            HandBone::MiddleIntermediate,
            HandBone::MiddleDistal,
            HandBone::MiddleTip,
            HandBone::RingMetacarpal,
            HandBone::RingProximal,
            HandBone::RingIntermediate,
            HandBone::RingDistal,
            HandBone::RingTip,
            HandBone::LittleMetacarpal,
            HandBone::LittleProximal,
            HandBone::LittleIntermediate,
            HandBone::LittleDistal,
            HandBone::LittleTip,
        ]
    }

    /// The runtime's number of the joint, which is the bone's place in
    /// every array of joints.
    #[verifier::when_used_as_spec(spec_index)]
    pub fn index(self) -> (index: usize)
        ensures
            index == self.spec_index(),
            index < HAND_BONE_COUNT,
    {
        match self {
            HandBone::Palm => 0,
            HandBone::Wrist => 1,
            HandBone::ThumbMetacarpal => 2,
            HandBone::ThumbProximal => 3,
            HandBone::ThumbDistal => 4,
            HandBone::ThumbTip => 5,
            HandBone::IndexMetacarpal => 6,
            HandBone::IndexProximal => 7,
            HandBone::IndexIntermediate => 8,
            HandBone::IndexDistal => 9,
            HandBone::IndexTip => 10,
            HandBone::MiddleMetacarpal => 11,
            HandBone::MiddleProximal => 12,
            HandBone::MiddleIntermediate => 13,
            HandBone::MiddleDistal => 14,
            HandBone::MiddleTip => 15,
            HandBone::RingMetacarpal => 16,
            HandBone::RingProximal => 17,
            HandBone::RingIntermediate => 18,
            HandBone::RingDistal => 19,
            HandBone::RingTip => 20,
            HandBone::LittleMetacarpal => 21,
            HandBone::LittleProximal => 22,
            HandBone::LittleIntermediate => 23,
            HandBone::LittleDistal => 24,
            HandBone::LittleTip => 25,
        }
    }

    /// Whether the bone belongs to a finger or the thumb.
    #[verifier::when_used_as_spec(spec_is_finger)]
    pub fn is_finger(&self) -> (finger: bool)
        ensures
            finger == self.spec_is_finger(),
    {
        !matches!(self, HandBone::Wrist | HandBone::Palm)
    }

    /// Whether the bone is the first of its finger, inside the palm.
    #[verifier::when_used_as_spec(spec_is_metacarpal)]
    pub fn is_metacarpal(&self) -> (metacarpal: bool)
        ensures
            metacarpal == self.spec_is_metacarpal(),
    {
        matches!(
            self,
            HandBone::ThumbMetacarpal | HandBone::IndexMetacarpal | HandBone::MiddleMetacarpal
                | HandBone::RingMetacarpal | HandBone::LittleMetacarpal
        )
    }

    /// All bones, each at the place of its number.
    pub fn get_all_bones() -> (bones: [HandBone; 26])
        ensures
            bones@ == HandBone::all(),
    {
        let bones = [
            HandBone::Palm,
            HandBone::Wrist,
            HandBone::ThumbMetacarpal,
            HandBone::ThumbProximal,
            HandBone::ThumbDistal,
            HandBone::ThumbTip,
            HandBone::IndexMetacarpal,
            HandBone::IndexProximal,
            HandBone::IndexIntermediate,
            HandBone::IndexDistal,
            HandBone::IndexTip,
            HandBone::MiddleMetacarpal,
            HandBone::MiddleProximal,
            HandBone::MiddleIntermediate,
            HandBone::MiddleDistal,
            HandBone::MiddleTip,
            HandBone::RingMetacarpal,
            HandBone::RingProximal,
            HandBone::RingIntermediate,
            HandBone::RingDistal,
            HandBone::RingTip,
            HandBone::LittleMetacarpal,
            HandBone::LittleProximal,
            HandBone::LittleIntermediate,
            HandBone::LittleDistal,
            HandBone::LittleTip,
        ];
        assert(bones@ =~= HandBone::all());
        bones
    }
}

/// Every bone stands in the list of all bones at the place of its number,
/// so that no two bones share a number and every number below 26 is taken.
pub proof fn lemma_bones_are_numbered(bone: HandBone)
    ensures
        bone.spec_index() < HAND_BONE_COUNT,
        HandBone::all().len() == HAND_BONE_COUNT,
        HandBone::all()[bone.spec_index() as int] == bone,
{
}

} // verus!
