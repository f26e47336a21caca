use bevy_oxr::space::{PoseBits, QuatBits, Vec3Bits};
use bevy_oxr::xr_input::hands::common::{
    spawn_hand_entities, HandResource, HandsResource, IndexResource, LittleResource,
    MiddleResource, RingResource, ThumbResource,
};
use bevy_oxr::xr_input::hands::hand_tracking::{
    hand_tracking_available, hand_tracking_enabled, update_hand_bones,
    update_tracking_state_on_disable, DisableHandTracking, HandJoint, HandJoints, JointLocation,
    ORIENTATION_TRACKED, ORIENTATION_VALID, POSITION_TRACKED, POSITION_VALID,
};
use bevy_oxr::xr_input::hands::{BoneTrackingStatus, HandBone, HAND_BONE_COUNT};
use bevy_oxr::xr_input::Hand;

fn location(seed: u32, flags: u64) -> JointLocation {
    JointLocation {
        pose: PoseBits {
            position: Vec3Bits { x: seed, y: seed + 100, z: seed + 200 },
            orientation: QuatBits { x: seed + 1, y: seed + 2, z: seed + 3, w: seed + 4 },
        },
        location_flags: flags,
        radius: seed + 1000,
    }
}

fn joints(base: u32) -> HandJoints {
    let mut locations = [location(0, 0); 26];
    for (i, slot) in locations.iter_mut().enumerate() {
        *slot = location(base + i as u32, 15);
    }
    HandJoints::from_locations(&locations)
}

#[test]
fn bones_have_the_numbers_of_the_runtimes_joints() {
    let expected = [
        (HandBone::Palm, openxr::HandJoint::PALM),
        (HandBone::Wrist, openxr::HandJoint::WRIST),
        (HandBone::ThumbMetacarpal, openxr::HandJoint::THUMB_METACARPAL),
        (HandBone::ThumbProximal, openxr::HandJoint::THUMB_PROXIMAL),
        (HandBone::ThumbDistal, openxr::HandJoint::THUMB_DISTAL),
        (HandBone::ThumbTip, openxr::HandJoint::THUMB_TIP),
        (HandBone::IndexMetacarpal, openxr::HandJoint::INDEX_METACARPAL),
        (HandBone::IndexProximal, openxr::HandJoint::INDEX_PROXIMAL),
        (HandBone::IndexIntermediate, openxr::HandJoint::INDEX_INTERMEDIATE),
        (HandBone::IndexDistal, openxr::HandJoint::INDEX_DISTAL),
        (HandBone::IndexTip, openxr::HandJoint::INDEX_TIP),
        (HandBone::MiddleMetacarpal, openxr::HandJoint::MIDDLE_METACARPAL),
        (HandBone::MiddleProximal, openxr::HandJoint::MIDDLE_PROXIMAL),
        (HandBone::MiddleIntermediate, openxr::HandJoint::MIDDLE_INTERMEDIATE),
        (HandBone::MiddleDistal, openxr::HandJoint::MIDDLE_DISTAL),
        (HandBone::MiddleTip, openxr::HandJoint::MIDDLE_TIP),
        (HandBone::RingMetacarpal, openxr::HandJoint::RING_METACARPAL),
        (HandBone::RingProximal, openxr::HandJoint::RING_PROXIMAL),
        (HandBone::RingIntermediate, openxr::HandJoint::RING_INTERMEDIATE),
        (HandBone::RingDistal, openxr::HandJoint::RING_DISTAL),
        (HandBone::RingTip, openxr::HandJoint::RING_TIP),
        (HandBone::LittleMetacarpal, openxr::HandJoint::LITTLE_METACARPAL),
        (HandBone::LittleProximal, openxr::HandJoint::LITTLE_PROXIMAL),
        (HandBone::LittleIntermediate, openxr::HandJoint::LITTLE_INTERMEDIATE),
        (HandBone::LittleDistal, openxr::HandJoint::LITTLE_DISTAL),
        (HandBone::LittleTip, openxr::HandJoint::LITTLE_TIP),
    ];
    assert_eq!(expected.len(), HAND_BONE_COUNT);
    assert_eq!(HAND_BONE_COUNT, openxr::HAND_JOINT_COUNT);
    for (bone, joint) in expected {
        assert_eq!(bone.index() as i32, joint.into_raw());
    }
}

#[test]
fn all_bones_stand_at_their_numbers() {
    let bones = HandBone::get_all_bones();
    assert_eq!(bones.len(), 26);
    for (i, bone) in bones.iter().enumerate() {
        assert_eq!(bone.index(), i);
    }
    assert_eq!(bones[0], HandBone::Palm);
    assert_eq!(bones[1], HandBone::Wrist);
    assert_eq!(bones[5], HandBone::ThumbTip);
    assert_eq!(bones[25], HandBone::LittleTip);
}

#[test]
fn palm_and_wrist_are_no_fingers() {
    let fingers = HandBone::get_all_bones().iter().filter(|bone| bone.is_finger()).count();
    assert_eq!(fingers, 24);
    assert!(!HandBone::Palm.is_finger());
    assert!(!HandBone::Wrist.is_finger());
    assert!(HandBone::ThumbMetacarpal.is_finger());
    assert!(HandBone::LittleTip.is_finger());
}

#[test]
fn each_finger_has_one_metacarpal() {
    let metacarpals: Vec<HandBone> = HandBone::get_all_bones()
        .iter()
        .copied()
        .filter(|bone| bone.is_metacarpal())
        .collect();
    assert_eq!(
        metacarpals,
        vec![
            HandBone::ThumbMetacarpal,
            HandBone::IndexMetacarpal,
            HandBone::MiddleMetacarpal,
            HandBone::RingMetacarpal,
            HandBone::LittleMetacarpal
        ]
    );
    for bone in metacarpals {
        assert!(bone.is_finger());
    }
}

#[test]
fn location_flags_are_the_runtimes() {
    assert_eq!(ORIENTATION_VALID, openxr::SpaceLocationFlags::ORIENTATION_VALID.into_raw());
    assert_eq!(POSITION_VALID, openxr::SpaceLocationFlags::POSITION_VALID.into_raw());
    assert_eq!(ORIENTATION_TRACKED, openxr::SpaceLocationFlags::ORIENTATION_TRACKED.into_raw());
    assert_eq!(POSITION_TRACKED, openxr::SpaceLocationFlags::POSITION_TRACKED.into_raw());
}

#[test]
fn a_joint_is_read_from_its_location() {
    let joint = HandJoint::from_location(location(7, POSITION_VALID | ORIENTATION_TRACKED));
    assert_eq!(joint.position, Vec3Bits { x: 7, y: 107, z: 207 });
    assert_eq!(joint.orientation, QuatBits { x: 8, y: 9, z: 10, w: 11 });
    assert_eq!(joint.radius, 1007);
    assert!(joint.position_valid);
    assert!(!joint.position_tracked);
    assert!(!joint.orientation_valid);
    assert!(joint.orientation_tracked);
}

#[test]
fn each_flag_of_a_location_is_read_on_its_own() {
    for flags in 0..16u64 {
        let joint = HandJoint::from_location(location(1, flags));
        assert_eq!(joint.orientation_valid, flags & 1 != 0);
        assert_eq!(joint.position_valid, flags & 2 != 0);
        assert_eq!(joint.orientation_tracked, flags & 4 != 0);
        assert_eq!(joint.position_tracked, flags & 8 != 0);
    }
    // Flags that the library does not know change nothing.
    let joint = HandJoint::from_location(location(1, !15));
    assert!(!joint.orientation_valid && !joint.position_valid);
    assert!(!joint.orientation_tracked && !joint.position_tracked);
    let joint = HandJoint::from_location(location(1, u64::MAX));
    assert!(joint.orientation_valid && joint.position_valid);
    assert!(joint.orientation_tracked && joint.position_tracked);
}

#[test]
fn the_joints_of_a_hand_are_found_by_bone() {
    let joints = joints(50);
    for bone in HandBone::get_all_bones() {
        let joint = joints.get_joint(bone);
        assert_eq!(joint.radius, 1050 + bone.index() as u32);
        assert_eq!(joint.position.x, 50 + bone.index() as u32);
        assert!(joint.position_valid && joint.orientation_valid);
    }
    assert_eq!(joints.inner().len(), 26);
    assert_eq!(joints.inner()[3], *joints.get_joint(HandBone::ThumbProximal));
}

#[test]
fn joints_are_kept_as_given() {
    let joint = HandJoint::from_location(location(9, 3));
    let joints = HandJoints::new([joint; 26]);
    assert_eq!(*joints.get_joint(HandBone::Palm), joint);
    assert_eq!(*joints.get_joint(HandBone::LittleTip), joint);
    assert_eq!(*joints.inner(), [joint; 26]);
}

#[test]
fn hand_tracking_is_off_only_where_both_hands_are_disabled() {
    assert!(hand_tracking_enabled(None));
    assert!(hand_tracking_enabled(Some(DisableHandTracking::OnlyLeft)));
    assert!(hand_tracking_enabled(Some(DisableHandTracking::OnlyRight)));
    assert!(!hand_tracking_enabled(Some(DisableHandTracking::Both)));
}

#[test]
fn hand_tracking_needs_the_extension_and_the_systems_support() {
    assert!(hand_tracking_available(true, Some(true)));
    assert!(!hand_tracking_available(true, Some(false)));
    assert!(!hand_tracking_available(true, None));
    assert!(!hand_tracking_available(false, Some(true)));
    assert!(!hand_tracking_available(false, None));
}

#[test]
fn bones_are_reset_once_when_tracking_goes_off() {
    let mut is_off = false;
    assert!(!update_tracking_state_on_disable(&mut is_off, None));
    assert!(!is_off);
    assert!(!update_tracking_state_on_disable(&mut is_off, Some(DisableHandTracking::OnlyLeft)));
    assert!(!is_off);
    assert!(update_tracking_state_on_disable(&mut is_off, Some(DisableHandTracking::Both)));
    assert!(is_off);
    assert!(!update_tracking_state_on_disable(&mut is_off, Some(DisableHandTracking::Both)));
    assert!(is_off);
    assert!(!update_tracking_state_on_disable(&mut is_off, None));
    assert!(!is_off);
    assert!(update_tracking_state_on_disable(&mut is_off, Some(DisableHandTracking::Both)));
}

#[test]
fn a_bone_of_a_tracked_hand_takes_its_joint() {
    let left = Some(joints(0));
    let right = Some(joints(500));
    let mut status = BoneTrackingStatus::Emulated;
    let joint =
        update_hand_bones(None, &left, &right, Hand::Left, HandBone::IndexTip, &mut status);
    assert_eq!(status, BoneTrackingStatus::HandTracked);
    assert_eq!(joint.unwrap().radius, 1000 + 10);
    let joint =
        update_hand_bones(None, &left, &right, Hand::Right, HandBone::IndexTip, &mut status);
    assert_eq!(status, BoneTrackingStatus::HandTracked);
    assert_eq!(joint.unwrap().radius, 1500 + 10);
}

#[test]
fn a_bone_of_a_hand_without_joints_is_made_up() {
    let left = Some(joints(0));
    let mut status = BoneTrackingStatus::HandTracked;
    let joint = update_hand_bones(None, &left, &None, Hand::Right, HandBone::Palm, &mut status);
    assert_eq!(status, BoneTrackingStatus::Emulated);
    assert_eq!(joint, None);
    let mut status = BoneTrackingStatus::Emulated;
    let joint = update_hand_bones(None, &None, &None, Hand::Left, HandBone::Palm, &mut status);
    assert_eq!(status, BoneTrackingStatus::Emulated);
    assert_eq!(joint, None);
}

#[test]
fn the_left_hand_is_made_up_while_a_single_hand_is_disabled() {
    let left = Some(joints(0));
    let right = Some(joints(500));
    for disabled in [DisableHandTracking::OnlyLeft, DisableHandTracking::OnlyRight] {
        let mut status = BoneTrackingStatus::HandTracked;
        let joint = update_hand_bones(
            Some(disabled),
            &left,
            &right,
            Hand::Left,
            HandBone::Wrist,
            &mut status,
        );
        assert_eq!(status, BoneTrackingStatus::Emulated);
        assert_eq!(joint, None);
        let mut status = BoneTrackingStatus::Emulated;
        let joint = update_hand_bones(
            Some(disabled),
            &left,
            &right,
            Hand::Right,
            HandBone::Wrist,
            &mut status,
        );
        assert_eq!(status, BoneTrackingStatus::HandTracked);
        assert_eq!(joint.unwrap().radius, 1500 + 1);
    }
}

#[test]
fn hands_without_entities_hold_the_placeholder() {
    let hands = HandsResource::new(77);
    for hand in [Hand::Left, Hand::Right] {
        for bone in HandBone::get_all_bones() {
            assert_eq!(hands.entity(hand, bone), 77);
        }
    }
    assert_eq!(HandResource::new(5).palm, 5);
    assert_eq!(
        ThumbResource::new(1),
        ThumbResource { metacarpal: 1, proximal: 1, distal: 1, tip: 1 }
    );
    assert_eq!(IndexResource::new(2).intermediate, 2);
    assert_eq!(MiddleResource::new(3).tip, 3);
    assert_eq!(RingResource::new(4).distal, 4);
    assert_eq!(LittleResource::new(6).metacarpal, 6);
}

#[test]
fn the_entity_of_a_bone_is_noted_for_that_bone_only() {
    let mut hand = HandResource::new(0);
    hand.set_entity(HandBone::RingDistal, 42);
    for bone in HandBone::get_all_bones() {
        let expected = if bone == HandBone::RingDistal { 42 } else { 0 };
        assert_eq!(hand.entity(bone), expected);
    }
    assert_eq!(hand.ring.distal, 42);
    hand.set_entity(HandBone::Palm, 1);
    hand.set_entity(HandBone::Wrist, 2);
    hand.set_entity(HandBone::ThumbTip, 3);
    assert_eq!((hand.palm, hand.wrist, hand.thumb.tip, hand.ring.distal), (1, 2, 3, 42));
}

#[test]
fn every_bone_of_both_hands_gets_its_entity() {
    let mut entities = [0u64; 52];
    for (i, slot) in entities.iter_mut().enumerate() {
        *slot = 1000 + i as u64;
    }
    let hands = spawn_hand_entities(&entities);
    for bone in HandBone::get_all_bones() {
        assert_eq!(hands.entity(Hand::Left, bone), 1000 + bone.index() as u64);
        assert_eq!(hands.entity(Hand::Right, bone), 1026 + bone.index() as u64);
    }
    assert_eq!(hands.left.palm, 1000);
    assert_eq!(hands.left.little.tip, 1025);
    assert_eq!(hands.right.palm, 1026);
    assert_eq!(hands.right.index.intermediate, 1026 + 8);
    assert_eq!(hands.right.little.tip, 1051);
}
