//! Tracked hands: what the runtime reports of each joint, and which bones
//! take it.

use vstd::prelude::*;
use crate::space::{PoseBits, QuatBits, Vec3Bits};
use crate::xr_input::Hand;
use crate::xr_input::hands::{BoneTrackingStatus, HandBone};

verus! {

/// Which hands are not to be tracked.
#[derive(Clone, Copy, Debug, PartialEq, Eq, Structural)]
pub enum DisableHandTracking {
    OnlyLeft,
    OnlyRight,
    Both,
}

/// The flag of a joint's location that says its orientation is valid.
pub const ORIENTATION_VALID: u64 = 1;

/// The flag that says its position is valid.
pub const POSITION_VALID: u64 = 2;

/// The flag that says its orientation is tracked, not inferred.
pub const ORIENTATION_TRACKED: u64 = 4;

/// The flag that says its position is tracked, not inferred.
pub const POSITION_TRACKED: u64 = 8;

/// `SpaceLocationFlags::contains` of the openxr crate, on the raw bits of
/// the two sets of flags: whether every flag of `wanted` is among `flags`.
#[verifier::external_body]
fn location_flags_contain(flags: u64, wanted: u64) -> (contained: bool)
    ensures
        contained == ((flags & wanted) == wanted),
{
    openxr::SpaceLocationFlags::from_raw(flags).contains(
        openxr::SpaceLocationFlags::from_raw(wanted),
    )
}

/// What the runtime reports of a joint: its pose, the flags of its
/// location, and its radius, a float by its bits.
#[derive(Clone, Copy, Debug, PartialEq, Eq, Structural)]
pub struct JointLocation {
    pub pose: PoseBits,
    pub location_flags: u64,
    pub radius: u32,
}

/// A joint of a tracked hand.
#[derive(Clone, Copy, Debug, PartialEq, Eq, Structural)]
pub struct HandJoint {
    pub position: Vec3Bits,
    pub position_valid: bool,
    pub position_tracked: bool,
    pub orientation: QuatBits,
    pub orientation_valid: bool,
    pub orientation_tracked: bool,
    pub radius: u32,
}

impl HandJoint {
    /// The joint that a location describes.
    pub open spec fn of(location: JointLocation) -> HandJoint {
        HandJoint {
            position: location.pose.position,
            position_valid: (location.location_flags & POSITION_VALID) == POSITION_VALID,
            position_tracked: (location.location_flags & POSITION_TRACKED) == POSITION_TRACKED,
            orientation: location.pose.orientation,
            orientation_valid: (location.location_flags & ORIENTATION_VALID) == ORIENTATION_VALID,
            orientation_tracked: (location.location_flags & ORIENTATION_TRACKED)
                == ORIENTATION_TRACKED,
            radius: location.radius,
        }
    }

    /// Reads a joint from what the runtime reports of it.
    pub fn from_location(location: JointLocation) -> (joint: HandJoint)
        ensures
            joint == HandJoint::of(location),
    {
        HandJoint {
            position: location.pose.position,
            position_valid: location_flags_contain(location.location_flags, POSITION_VALID),
            position_tracked: location_flags_contain(location.location_flags, POSITION_TRACKED),
            orientation: location.pose.orientation,
            orientation_valid: location_flags_contain(location.location_flags, ORIENTATION_VALID),
            orientation_tracked: location_flags_contain(
                location.location_flags,
                ORIENTATION_TRACKED,
            ),
            radius: location.radius,
        }
    }
}

/// The joints of a tracked hand, each at the place of its bone's number.
pub struct HandJoints {
    inner: [HandJoint; 26],
}

impl View for HandJoints {
    type V = Seq<HandJoint>;

    closed spec fn view(&self) -> Seq<HandJoint> {
        self.inner@
    }
}

impl HandJoints {
    pub fn new(inner: [HandJoint; 26]) -> (joints: HandJoints)
        ensures
            joints@ == inner@,
    {
        Self { inner }
    }

    pub fn inner(&self) -> (inner: &[HandJoint; 26])
        ensures
            inner@ == self@,
    {
        &self.inner
    }

    /// The joint of a bone.
    pub fn get_joint(&self, bone: HandBone) -> (joint: &HandJoint)
        ensures
            self@.len() == 26,
            *joint == self@[bone.spec_index() as int],
    {
        &self.inner[bone.index()]
    }

    /// Reads the joints of a hand from what the runtime reports of them.
    pub fn from_locations(locations: &[JointLocation; 26]) -> (joints: HandJoints)
        ensures
            joints@.len() == 26,
            forall|i: int| 0 <= i < 26 ==> #[trigger] joints@[i] == HandJoint::of(locations@[i]),
    {
        let first = HandJoint::from_location(locations[0]);
        let mut inner = [first;26];
        let mut i: usize = 1;
        while i < 26
            invariant
                1 <= i <= 26,
                inner@.len() == 26,
                forall|k: int| 0 <= k < i ==> #[trigger] inner@[k] == HandJoint::of(locations@[k]),
            decreases 26 - i,
        {
            inner[i] = HandJoint::from_location(locations[i]);
            i += 1;
        }
        HandJoints { inner }
    }
}

/// Whether hand tracking is on at all: it is off only where both hands are disabled.
pub fn hand_tracking_enabled(disabled: Option<DisableHandTracking>) -> (enabled: bool)
    ensures
        enabled == (disabled != Some(DisableHandTracking::Both)),
{
    match disabled {
        Some(DisableHandTracking::Both) => false,
        _ => true,
    }
}

/// Whether tracked hands can be had: the instance offers the extension
/// and the system reports that it supports hand tracking. A system that
/// could not be asked counts as one without.
pub fn hand_tracking_available(extension_offered: bool, supported: Option<bool>) -> (available: bool)
    ensures
        available == (extension_offered && supported == Some(true)),
{
    match supported {
        Some(true) => extension_offered,
        _ => false,
    }
}

/// Notes whether tracking is off for both hands, and tells whether it has
/// just gone off: then every bone is to be marked as made up.
pub fn update_tracking_state_on_disable(
    is_off: &mut bool,
    disabled: Option<DisableHandTracking>,
) -> (reset: bool)
    ensures
        *final(is_off) == (disabled == Some(DisableHandTracking::Both)),
        reset == (!*old(is_off) && disabled == Some(DisableHandTracking::Both)),
{
    let off = !hand_tracking_enabled(disabled);
    let reset = !*is_off && off;
    *is_off = off;
    reset
}

/// The joints that a bone of `hand` takes its pose from, if any.
///
/// A bone of the left hand takes none while either single hand is
/// disabled. Otherwise a bone takes the joints of its own hand, where
/// that hand is tracked.
pub open spec fn joints_for(
    hand: Hand,
    disabled: Option<DisableHandTracking>,
    left: Option<HandJoints>,
    right: Option<HandJoints>,
) -> Option<HandJoints> {
    if hand == Hand::Left && (disabled == Some(DisableHandTracking::OnlyLeft) || disabled == Some(
        DisableHandTracking::OnlyRight,
    )) {
        None
    } else {
        match hand {
            Hand::Left => left,
            Hand::Right => right,
        }
    }
}

/// Brings one bone up to date with the tracked hands: a bone that has
/// joints to take its pose from is tracked and gets its joint, any other
/// is made up and gets none.
pub fn update_hand_bones(
    disabled: Option<DisableHandTracking>,
    left: &Option<HandJoints>,
    right: &Option<HandJoints>,
    hand: Hand,
    bone: HandBone,
    status: &mut BoneTrackingStatus,
) -> (joint: Option<HandJoint>)
    ensures
        match joints_for(hand, disabled, *left, *right) {
            Some(joints) => {
                &&& *final(status) == BoneTrackingStatus::HandTracked
                &&& joints@.len() == 26
                &&& joint == Some(joints@[bone.spec_index() as int])
            },
            None => *final(status) == BoneTrackingStatus::Emulated && joint is None,
        },
{
    match (hand, disabled) {
        (Hand::Left, Some(DisableHandTracking::OnlyLeft))
        | (Hand::Left, Some(DisableHandTracking::OnlyRight)) => {
            *status = BoneTrackingStatus::Emulated;
            return None;
        },
        _ => {},
    }
    let located = match hand {
        Hand::Left => left,
        Hand::Right => right,
    };
    match located {
        Some(joints) => {
            *status = BoneTrackingStatus::HandTracked;
            Some(*joints.get_joint(bone))
        },
        None => {
            *status = BoneTrackingStatus::Emulated;
            None
        },
    }
}

} // verus!
