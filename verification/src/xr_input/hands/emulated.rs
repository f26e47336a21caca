//! Hands made up from the controller: the actions that tell how far each
//! finger is curled.

use vstd::prelude::*;
use crate::name_table::{distinct_keys, upsert, value_of};
use crate::space::{ONE_BITS, ZERO_BITS};
use crate::xr_input::Hand;
use crate::xr_input::actions::{
    ActionError, ActionHandednes, ActionSetModel, ActionType, ResolvedSetModel, SetupActionSet,
    SetupActionSets, XrActionSets, XrBinding, binding_pairs, empty_action_set,
    find_action_of_type, lemma_declared_kind_resolves, resolved_sets,
};
use crate::xr_input::hands::BoneTrackingStatus;
use crate::xr_input::oculus_touch::OCULUS_TOUCH_PROFILE;
use crate::xr_input::resolver::{
    ActionReading, InputSnapshot, SubactionPaths, bool_state, f32_state, read,
};

verus! {

/// The name of the action set of the made-up hands.
pub const HAND_ACTION_SET: &'static str = "hand_pose_approx";

/// The data of a made-up hand pose.
pub struct EmulatedHandPoseData {}

/// The actions of the made-up hands, in order of declaration.
pub open spec fn hand_emulation_actions() -> ActionSetModel {
    empty_action_set("Hand Pose Approximaiton"@, 0)
        .with_action("thumb_touch"@, "Thumb Touched"@, ActionType::Bool, ActionHandednes::Double)
        .with_action("thumb_x"@, "Thumb X"@, ActionType::F32, ActionHandednes::Double)
        .with_action("thumb_y"@, "Thumb Y"@, ActionType::F32, ActionHandednes::Double)
        .with_action("index_touch"@, "Index Finger Touched"@, ActionType::Bool, ActionHandednes::Double)
        .with_action("index_value"@, "Index Finger Pull"@, ActionType::F32, ActionHandednes::Double)
        .with_action("middle_value"@, "Middle Finger Pull"@, ActionType::F32, ActionHandednes::Double)
        .with_action("ring_value"@, "Ring Finger Pull"@, ActionType::F32, ActionHandednes::Double)
        .with_action("little_value"@, "Little Finger Pull"@, ActionType::F32, ActionHandednes::Double)
}

/// What the made-up hands suggest for the Oculus Touch profile: for each
/// binding the action and the input path, in order of suggestion.
pub open spec fn hand_emulation_bindings() -> Seq<(Seq<char>, Seq<char>)> {
    seq![
        ("thumb_x"@, "/user/hand/left/input/thumbstick/x"@),
        ("thumb_x"@, "/user/hand/right/input/thumbstick/x"@),
        ("thumb_y"@, "/user/hand/left/input/thumbstick/y"@),
        ("thumb_y"@, "/user/hand/right/input/thumbstick/y"@),
        ("thumb_touch"@, "/user/hand/left/input/thumbstick/touch"@),
        ("thumb_touch"@, "/user/hand/right/input/thumbstick/touch"@),
        ("thumb_touch"@, "/user/hand/left/input/x/touch"@),
        ("thumb_touch"@, "/user/hand/left/input/y/touch"@),
        ("thumb_touch"@, "/user/hand/right/input/a/touch"@),
        ("thumb_touch"@, "/user/hand/right/input/b/touch"@),
        ("thumb_touch"@, "/user/hand/left/input/thumbrest/touch"@),
        ("thumb_touch"@, "/user/hand/right/input/thumbrest/touch"@),
        ("index_touch"@, "/user/hand/left/input/trigger/touch"@),
        ("index_value"@, "/user/hand/left/input/trigger/value"@),
        ("index_touch"@, "/user/hand/right/input/trigger/touch"@),
        ("index_value"@, "/user/hand/right/input/trigger/value"@),
        ("middle_value"@, "/user/hand/left/input/squeeze/value"@),
        ("middle_value"@, "/user/hand/right/input/squeeze/value"@),
        ("ring_value"@, "/user/hand/left/input/squeeze/value"@),
        ("ring_value"@, "/user/hand/right/input/squeeze/value"@),
        ("little_value"@, "/user/hand/left/input/squeeze/value"@),
        ("little_value"@, "/user/hand/right/input/squeeze/value"@),
    ]
}

/// The action set of the made-up hands as declared.
pub open spec fn hand_emulation_input() -> ActionSetModel {
    hand_emulation_actions().with_bindings(OCULUS_TOUCH_PROFILE@, hand_emulation_bindings())
}

/// Every binding of the made-up hands names one of their actions.
pub proof fn lemma_hand_emulation_bindings_declared()
    ensures
        hand_emulation_actions().declares_all(hand_emulation_bindings()),
{
    let mut declared = empty_action_set("Hand Pose Approximaiton"@, 0);
    let mut names = Set::<Seq<char>>::empty();
    declared.lemma_declares_none();
    declared.lemma_declares_one_more(names, "thumb_touch"@, "Thumb Touched"@, ActionType::Bool, ActionHandednes::Double);
    declared = declared.with_action("thumb_touch"@, "Thumb Touched"@, ActionType::Bool, ActionHandednes::Double);
    names = names.insert("thumb_touch"@);
    declared.lemma_declares_one_more(names, "thumb_x"@, "Thumb X"@, ActionType::F32, ActionHandednes::Double);
    declared = declared.with_action("thumb_x"@, "Thumb X"@, ActionType::F32, ActionHandednes::Double);
    names = names.insert("thumb_x"@);
    declared.lemma_declares_one_more(names, "thumb_y"@, "Thumb Y"@, ActionType::F32, ActionHandednes::Double);
    declared = declared.with_action("thumb_y"@, "Thumb Y"@, ActionType::F32, ActionHandednes::Double);
    names = names.insert("thumb_y"@);
    declared.lemma_declares_one_more(names, "index_touch"@, "Index Finger Touched"@, ActionType::Bool, ActionHandednes::Double);
    declared = declared.with_action("index_touch"@, "Index Finger Touched"@, ActionType::Bool, ActionHandednes::Double);
    names = names.insert("index_touch"@);
    declared.lemma_declares_one_more(names, "index_value"@, "Index Finger Pull"@, ActionType::F32, ActionHandednes::Double);
    declared = declared.with_action("index_value"@, "Index Finger Pull"@, ActionType::F32, ActionHandednes::Double);
    names = names.insert("index_value"@);
    declared.lemma_declares_one_more(names, "middle_value"@, "Middle Finger Pull"@, ActionType::F32, ActionHandednes::Double);
    declared = declared.with_action("middle_value"@, "Middle Finger Pull"@, ActionType::F32, ActionHandednes::Double);
    names = names.insert("middle_value"@);
    declared.lemma_declares_one_more(names, "ring_value"@, "Ring Finger Pull"@, ActionType::F32, ActionHandednes::Double);
    declared = declared.with_action("ring_value"@, "Ring Finger Pull"@, ActionType::F32, ActionHandednes::Double);
    names = names.insert("ring_value"@);
    declared.lemma_declares_one_more(names, "little_value"@, "Little Finger Pull"@, ActionType::F32, ActionHandednes::Double);
    declared = declared.with_action("little_value"@, "Little Finger Pull"@, ActionType::F32, ActionHandednes::Double);
    names = names.insert("little_value"@);
    assert(declared == hand_emulation_actions());
    let mut bindings = Seq::<(Seq<char>, Seq<char>)>::empty();
    declared.lemma_declares_all_push(names, bindings, "thumb_x"@, "/user/hand/left/input/thumbstick/x"@);
    bindings = bindings.push(("thumb_x"@, "/user/hand/left/input/thumbstick/x"@));
    declared.lemma_declares_all_push(names, bindings, "thumb_x"@, "/user/hand/right/input/thumbstick/x"@);
    bindings = bindings.push(("thumb_x"@, "/user/hand/right/input/thumbstick/x"@));
    declared.lemma_declares_all_push(names, bindings, "thumb_y"@, "/user/hand/left/input/thumbstick/y"@);
    bindings = bindings.push(("thumb_y"@, "/user/hand/left/input/thumbstick/y"@));
    declared.lemma_declares_all_push(names, bindings, "thumb_y"@, "/user/hand/right/input/thumbstick/y"@);
    bindings = bindings.push(("thumb_y"@, "/user/hand/right/input/thumbstick/y"@));
    declared.lemma_declares_all_push(names, bindings, "thumb_touch"@, "/user/hand/left/input/thumbstick/touch"@);
    bindings = bindings.push(("thumb_touch"@, "/user/hand/left/input/thumbstick/touch"@));
    declared.lemma_declares_all_push(names, bindings, "thumb_touch"@, "/user/hand/right/input/thumbstick/touch"@);
    bindings = bindings.push(("thumb_touch"@, "/user/hand/right/input/thumbstick/touch"@));
    declared.lemma_declares_all_push(names, bindings, "thumb_touch"@, "/user/hand/left/input/x/touch"@);
    bindings = bindings.push(("thumb_touch"@, "/user/hand/left/input/x/touch"@));
    declared.lemma_declares_all_push(names, bindings, "thumb_touch"@, "/user/hand/left/input/y/touch"@);
    bindings = bindings.push(("thumb_touch"@, "/user/hand/left/input/y/touch"@));
    declared.lemma_declares_all_push(names, bindings, "thumb_touch"@, "/user/hand/right/input/a/touch"@);
    bindings = bindings.push(("thumb_touch"@, "/user/hand/right/input/a/touch"@));
    declared.lemma_declares_all_push(names, bindings, "thumb_touch"@, "/user/hand/right/input/b/touch"@);
    bindings = bindings.push(("thumb_touch"@, "/user/hand/right/input/b/touch"@));
    declared.lemma_declares_all_push(names, bindings, "thumb_touch"@, "/user/hand/left/input/thumbrest/touch"@);
    bindings = bindings.push(("thumb_touch"@, "/user/hand/left/input/thumbrest/touch"@));
    declared.lemma_declares_all_push(names, bindings, "thumb_touch"@, "/user/hand/right/input/thumbrest/touch"@);
    bindings = bindings.push(("thumb_touch"@, "/user/hand/right/input/thumbrest/touch"@));
    declared.lemma_declares_all_push(names, bindings, "index_touch"@, "/user/hand/left/input/trigger/touch"@);
    bindings = bindings.push(("index_touch"@, "/user/hand/left/input/trigger/touch"@));
    declared.lemma_declares_all_push(names, bindings, "index_value"@, "/user/hand/left/input/trigger/value"@);
    bindings = bindings.push(("index_value"@, "/user/hand/left/input/trigger/value"@));
    declared.lemma_declares_all_push(names, bindings, "index_touch"@, "/user/hand/right/input/trigger/touch"@);
    bindings = bindings.push(("index_touch"@, "/user/hand/right/input/trigger/touch"@));
    declared.lemma_declares_all_push(names, bindings, "index_value"@, "/user/hand/right/input/trigger/value"@);
    bindings = bindings.push(("index_value"@, "/user/hand/right/input/trigger/value"@));
    declared.lemma_declares_all_push(names, bindings, "middle_value"@, "/user/hand/left/input/squeeze/value"@);
    bindings = bindings.push(("middle_value"@, "/user/hand/left/input/squeeze/value"@));
    declared.lemma_declares_all_push(names, bindings, "middle_value"@, "/user/hand/right/input/squeeze/value"@);
    bindings = bindings.push(("middle_value"@, "/user/hand/right/input/squeeze/value"@));
    declared.lemma_declares_all_push(names, bindings, "ring_value"@, "/user/hand/left/input/squeeze/value"@);
    bindings = bindings.push(("ring_value"@, "/user/hand/left/input/squeeze/value"@));
    declared.lemma_declares_all_push(names, bindings, "ring_value"@, "/user/hand/right/input/squeeze/value"@);
    bindings = bindings.push(("ring_value"@, "/user/hand/right/input/squeeze/value"@));
    declared.lemma_declares_all_push(names, bindings, "little_value"@, "/user/hand/left/input/squeeze/value"@);
    bindings = bindings.push(("little_value"@, "/user/hand/left/input/squeeze/value"@));
    declared.lemma_declares_all_push(names, bindings, "little_value"@, "/user/hand/right/input/squeeze/value"@);
    bindings = bindings.push(("little_value"@, "/user/hand/right/input/squeeze/value"@));
    assert(bindings =~= hand_emulation_bindings());
}

/// The type and the handedness of each action of the made-up hands.
pub open spec fn hand_emulation_kinds() -> Map<Seq<char>, (ActionType, ActionHandednes)> {
    Map::<Seq<char>, (ActionType, ActionHandednes)>::empty()
        .insert("thumb_touch"@, (ActionType::Bool, ActionHandednes::Double))
        .insert("thumb_x"@, (ActionType::F32, ActionHandednes::Double))
        .insert("thumb_y"@, (ActionType::F32, ActionHandednes::Double))
        .insert("index_touch"@, (ActionType::Bool, ActionHandednes::Double))
        .insert("index_value"@, (ActionType::F32, ActionHandednes::Double))
        .insert("middle_value"@, (ActionType::F32, ActionHandednes::Double))
        .insert("ring_value"@, (ActionType::F32, ActionHandednes::Double))
        .insert("little_value"@, (ActionType::F32, ActionHandednes::Double))
}

/// The action set of the made-up hands declares its actions each once and
/// each with its kind, and declares nothing else.
pub proof fn lemma_hand_emulation_has_kinds()
    ensures
        hand_emulation_input().has_kinds(hand_emulation_kinds()),
{
    let mut declared = empty_action_set("Hand Pose Approximaiton"@, 0);
    let mut kinds = Map::<Seq<char>, (ActionType, ActionHandednes)>::empty();
    declared.lemma_kinds_none();
    declared.lemma_kinds_one_more(kinds, "thumb_touch"@, "Thumb Touched"@, ActionType::Bool, ActionHandednes::Double);
    declared = declared.with_action("thumb_touch"@, "Thumb Touched"@, ActionType::Bool, ActionHandednes::Double);
    kinds = kinds.insert("thumb_touch"@, (ActionType::Bool, ActionHandednes::Double));
    declared.lemma_kinds_one_more(kinds, "thumb_x"@, "Thumb X"@, ActionType::F32, ActionHandednes::Double);
    declared = declared.with_action("thumb_x"@, "Thumb X"@, ActionType::F32, ActionHandednes::Double);
    kinds = kinds.insert("thumb_x"@, (ActionType::F32, ActionHandednes::Double));
    declared.lemma_kinds_one_more(kinds, "thumb_y"@, "Thumb Y"@, ActionType::F32, ActionHandednes::Double);
    declared = declared.with_action("thumb_y"@, "Thumb Y"@, ActionType::F32, ActionHandednes::Double);
    kinds = kinds.insert("thumb_y"@, (ActionType::F32, ActionHandednes::Double));
    declared.lemma_kinds_one_more(kinds, "index_touch"@, "Index Finger Touched"@, ActionType::Bool, ActionHandednes::Double);
    declared = declared.with_action("index_touch"@, "Index Finger Touched"@, ActionType::Bool, ActionHandednes::Double);
    kinds = kinds.insert("index_touch"@, (ActionType::Bool, ActionHandednes::Double));
    declared.lemma_kinds_one_more(kinds, "index_value"@, "Index Finger Pull"@, ActionType::F32, ActionHandednes::Double);
    declared = declared.with_action("index_value"@, "Index Finger Pull"@, ActionType::F32, ActionHandednes::Double);
    kinds = kinds.insert("index_value"@, (ActionType::F32, ActionHandednes::Double));
    declared.lemma_kinds_one_more(kinds, "middle_value"@, "Middle Finger Pull"@, ActionType::F32, ActionHandednes::Double);
    declared = declared.with_action("middle_value"@, "Middle Finger Pull"@, ActionType::F32, ActionHandednes::Double);
    kinds = kinds.insert("middle_value"@, (ActionType::F32, ActionHandednes::Double));
    declared.lemma_kinds_one_more(kinds, "ring_value"@, "Ring Finger Pull"@, ActionType::F32, ActionHandednes::Double);
    declared = declared.with_action("ring_value"@, "Ring Finger Pull"@, ActionType::F32, ActionHandednes::Double);
    kinds = kinds.insert("ring_value"@, (ActionType::F32, ActionHandednes::Double));
    declared.lemma_kinds_one_more(kinds, "little_value"@, "Little Finger Pull"@, ActionType::F32, ActionHandednes::Double);
    declared = declared.with_action("little_value"@, "Little Finger Pull"@, ActionType::F32, ActionHandednes::Double);
    kinds = kinds.insert("little_value"@, (ActionType::F32, ActionHandednes::Double));
    assert(declared == hand_emulation_actions());
    assert(kinds == hand_emulation_kinds());
    lemma_hand_emulation_bindings_declared();
    declared.lemma_kinds_with_bindings(kinds, OCULUS_TOUCH_PROFILE@, hand_emulation_bindings());
}


/// The characters of the name `thumb_touch`.
proof fn lemma_name_thumb_touch()
    ensures
        "thumb_touch"@.len() == 11,
        "thumb_touch"@[0] == 't',
        "thumb_touch"@[1] == 'h',
        "thumb_touch"@[2] == 'u',
        "thumb_touch"@[3] == 'm',
        "thumb_touch"@[4] == 'b',
        "thumb_touch"@[5] == '_',
        "thumb_touch"@[6] == 't',
        "thumb_touch"@[7] == 'o',
        "thumb_touch"@[8] == 'u',
        "thumb_touch"@[9] == 'c',
        "thumb_touch"@[10] == 'h',
{
    reveal_strlit("thumb_touch");
}

/// The characters of the name `thumb_x`.
proof fn lemma_name_thumb_x()
    ensures
        "thumb_x"@.len() == 7,
        "thumb_x"@[0] == 't',
        "thumb_x"@[1] == 'h',
        "thumb_x"@[2] == 'u',
        "thumb_x"@[3] == 'm',
        "thumb_x"@[4] == 'b',
        "thumb_x"@[5] == '_',
        "thumb_x"@[6] == 'x',
{
    reveal_strlit("thumb_x");
}

/// The characters of the name `thumb_y`.
proof fn lemma_name_thumb_y()
    ensures
        "thumb_y"@.len() == 7,
        "thumb_y"@[0] == 't',
        "thumb_y"@[1] == 'h',
        "thumb_y"@[2] == 'u',
        "thumb_y"@[3] == 'm',
        "thumb_y"@[4] == 'b',
        "thumb_y"@[5] == '_',
        "thumb_y"@[6] == 'y',
{
    reveal_strlit("thumb_y");
}

/// The characters of the name `index_touch`.
proof fn lemma_name_index_touch()
    ensures
        "index_touch"@.len() == 11,
        "index_touch"@[0] == 'i',
        "index_touch"@[1] == 'n',
        "index_touch"@[2] == 'd',
        "index_touch"@[3] == 'e',
        "index_touch"@[4] == 'x',
        "index_touch"@[5] == '_',
        "index_touch"@[6] == 't',
        "index_touch"@[7] == 'o',
        "index_touch"@[8] == 'u',
        "index_touch"@[9] == 'c',
        "index_touch"@[10] == 'h',
{
    reveal_strlit("index_touch");
}

/// The characters of the name `index_value`.
proof fn lemma_name_index_value()
    ensures
        "index_value"@.len() == 11,
        "index_value"@[0] == 'i',
        "index_value"@[1] == 'n',
        "index_value"@[2] == 'd',
        "index_value"@[3] == 'e',
        "index_value"@[4] == 'x',
        "index_value"@[5] == '_',
        "index_value"@[6] == 'v',
        "index_value"@[7] == 'a',
        "index_value"@[8] == 'l',
        "index_value"@[9] == 'u',
        "index_value"@[10] == 'e',
{
    reveal_strlit("index_value");
}

/// The characters of the name `middle_value`.
proof fn lemma_name_middle_value()
    ensures
        "middle_value"@.len() == 12,
        "middle_value"@[0] == 'm',
        "middle_value"@[1] == 'i',
        "middle_value"@[2] == 'd',
        "middle_value"@[3] == 'd',
        "middle_value"@[4] == 'l',
        "middle_value"@[5] == 'e',
        "middle_value"@[6] == '_',
        "middle_value"@[7] == 'v',
        "middle_value"@[8] == 'a',
        "middle_value"@[9] == 'l',
        "middle_value"@[10] == 'u',
        "middle_value"@[11] == 'e',
{
    reveal_strlit("middle_value");
}

/// The characters of the name `ring_value`.
proof fn lemma_name_ring_value()
    ensures
        "ring_value"@.len() == 10,
        "ring_value"@[0] == 'r',
        "ring_value"@[1] == 'i',
        "ring_value"@[2] == 'n',
        "ring_value"@[3] == 'g',
        "ring_value"@[4] == '_',
        "ring_value"@[5] == 'v',
        "ring_value"@[6] == 'a',
        "ring_value"@[7] == 'l',
        "ring_value"@[8] == 'u',
        "ring_value"@[9] == 'e',
{
    reveal_strlit("ring_value");
}

/// The characters of the name `little_value`.
proof fn lemma_name_little_value()
    ensures
        "little_value"@.len() == 12,
        "little_value"@[0] == 'l',
        "little_value"@[1] == 'i',
        "little_value"@[2] == 't',
        "little_value"@[3] == 't',
        "little_value"@[4] == 'l',
        "little_value"@[5] == 'e',
        "little_value"@[6] == '_',
        "little_value"@[7] == 'v',
        "little_value"@[8] == 'a',
        "little_value"@[9] == 'l',
        "little_value"@[10] == 'u',
        "little_value"@[11] == 'e',
{
    reveal_strlit("little_value");
}

/// The action set of the made-up hands declares no name twice, and each
/// of its actions with the type and handedness it is read with.
pub proof fn lemma_hand_emulation_kinds()
    ensures
        distinct_keys(hand_emulation_input().actions),
        hand_emulation_input().declared_as("thumb_touch"@) == Some(
            (ActionType::Bool, ActionHandednes::Double),
        ),
        hand_emulation_input().declared_as("thumb_x"@) == Some(
            (ActionType::F32, ActionHandednes::Double),
        ),
        hand_emulation_input().declared_as("thumb_y"@) == Some(
            (ActionType::F32, ActionHandednes::Double),
        ),
        hand_emulation_input().declared_as("index_touch"@) == Some(
            (ActionType::Bool, ActionHandednes::Double),
        ),
        hand_emulation_input().declared_as("index_value"@) == Some(
            (ActionType::F32, ActionHandednes::Double),
        ),
        hand_emulation_input().declared_as("middle_value"@) == Some(
            (ActionType::F32, ActionHandednes::Double),
        ),
        hand_emulation_input().declared_as("ring_value"@) == Some(
            (ActionType::F32, ActionHandednes::Double),
        ),
        hand_emulation_input().declared_as("little_value"@) == Some(
            (ActionType::F32, ActionHandednes::Double),
        ),
{
    lemma_hand_emulation_has_kinds();
    let input = hand_emulation_input();
    let kinds = hand_emulation_kinds();
    lemma_name_thumb_touch();
    lemma_name_thumb_x();
    lemma_name_thumb_y();
    lemma_name_index_touch();
    lemma_name_index_value();
    lemma_name_middle_value();
    lemma_name_ring_value();
    lemma_name_little_value();
    assert(kinds.contains_key("thumb_touch"@) && kinds["thumb_touch"@] == (
        ActionType::Bool,
        ActionHandednes::Double,
    ));
    input.lemma_kind_of(kinds, "thumb_touch"@);
    assert(kinds.contains_key("thumb_x"@) && kinds["thumb_x"@] == (
        ActionType::F32,
        ActionHandednes::Double,
    ));
    input.lemma_kind_of(kinds, "thumb_x"@);
    assert(kinds.contains_key("thumb_y"@) && kinds["thumb_y"@] == (
        ActionType::F32,
        ActionHandednes::Double,
    ));
    input.lemma_kind_of(kinds, "thumb_y"@);
    assert(kinds.contains_key("index_touch"@) && kinds["index_touch"@] == (
        ActionType::Bool,
        ActionHandednes::Double,
    ));
    input.lemma_kind_of(kinds, "index_touch"@);
    assert(kinds.contains_key("index_value"@) && kinds["index_value"@] == (
        ActionType::F32,
        ActionHandednes::Double,
    ));
    input.lemma_kind_of(kinds, "index_value"@);
    assert(kinds.contains_key("middle_value"@) && kinds["middle_value"@] == (
        ActionType::F32,
        ActionHandednes::Double,
    ));
    input.lemma_kind_of(kinds, "middle_value"@);
    assert(kinds.contains_key("ring_value"@) && kinds["ring_value"@] == (
        ActionType::F32,
        ActionHandednes::Double,
    ));
    input.lemma_kind_of(kinds, "ring_value"@);
    assert(kinds.contains_key("little_value"@) && kinds["little_value"@] == (
        ActionType::F32,
        ActionHandednes::Double,
    ));
    input.lemma_kind_of(kinds, "little_value"@);
}

/// Whether the curls of the fingers can be read: each action of the
/// made-up hands answers under the type it is read with.
pub open spec fn hand_emulation_set_up(sets: Seq<(Seq<char>, ResolvedSetModel)>) -> bool {
    &&& find_action_of_type(sets, HAND_ACTION_SET@, "thumb_touch"@, ActionType::Bool) is Ok
    &&& find_action_of_type(sets, HAND_ACTION_SET@, "thumb_x"@, ActionType::F32) is Ok
    &&& find_action_of_type(sets, HAND_ACTION_SET@, "thumb_y"@, ActionType::F32) is Ok
    &&& find_action_of_type(sets, HAND_ACTION_SET@, "index_touch"@, ActionType::Bool) is Ok
    &&& find_action_of_type(sets, HAND_ACTION_SET@, "index_value"@, ActionType::F32) is Ok
    &&& find_action_of_type(sets, HAND_ACTION_SET@, "middle_value"@, ActionType::F32) is Ok
    &&& find_action_of_type(sets, HAND_ACTION_SET@, "ring_value"@, ActionType::F32) is Ok
    &&& find_action_of_type(sets, HAND_ACTION_SET@, "little_value"@, ActionType::F32) is Ok
}

/// Once the made-up hands are declared and the declarations are set up,
/// the curls of the fingers can be read: whatever else was declared, the
/// read does not fail.
pub proof fn lemma_hand_emulation_set_up(declared: Seq<(Seq<char>, ActionSetModel)>)
    requires
        distinct_keys(declared),
        value_of(declared, HAND_ACTION_SET@) == Some(hand_emulation_input()),
    ensures
        hand_emulation_set_up(resolved_sets(declared)),
{
    lemma_hand_emulation_kinds();
    lemma_declared_kind_resolves(
        declared,
        HAND_ACTION_SET@,
        "thumb_touch"@,
        ActionType::Bool,
        ActionHandednes::Double,
    );
    lemma_declared_kind_resolves(
        declared,
        HAND_ACTION_SET@,
        "thumb_x"@,
        ActionType::F32,
        ActionHandednes::Double,
    );
    lemma_declared_kind_resolves(
        declared,
        HAND_ACTION_SET@,
        "thumb_y"@,
        ActionType::F32,
        ActionHandednes::Double,
    );
    lemma_declared_kind_resolves(
        declared,
        HAND_ACTION_SET@,
        "index_touch"@,
        ActionType::Bool,
        ActionHandednes::Double,
    );
    lemma_declared_kind_resolves(
        declared,
        HAND_ACTION_SET@,
        "index_value"@,
        ActionType::F32,
        ActionHandednes::Double,
    );
    lemma_declared_kind_resolves(
        declared,
        HAND_ACTION_SET@,
        "middle_value"@,
        ActionType::F32,
        ActionHandednes::Double,
    );
    lemma_declared_kind_resolves(
        declared,
        HAND_ACTION_SET@,
        "ring_value"@,
        ActionType::F32,
        ActionHandednes::Double,
    );
    lemma_declared_kind_resolves(
        declared,
        HAND_ACTION_SET@,
        "little_value"@,
        ActionType::F32,
        ActionHandednes::Double,
    );
}

/// Declares the action set of the made-up hands, `hand_pose_approx`, with
/// its actions and their bindings for the Oculus Touch profile. A set of
/// that name declared before is replaced.
pub fn setup_hand_emulation_action_set(action_sets: &mut SetupActionSets)
    requires
        old(action_sets).wf(),
    ensures
        final(action_sets).wf(),
        final(action_sets)@ == upsert(old(action_sets)@, HAND_ACTION_SET@, hand_emulation_input()),
{
    let action_set = action_sets.add_action_set(
        HAND_ACTION_SET,
        "Hand Pose Approximaiton".to_owned(),
        0,
    );
    action_set.new_action(
        "thumb_touch",
        "Thumb Touched".to_owned(),
        ActionType::Bool,
        ActionHandednes::Double,
    );
    action_set.new_action(
        "thumb_x",
        "Thumb X".to_owned(),
        ActionType::F32,
        ActionHandednes::Double,
    );
    action_set.new_action(
        "thumb_y",
        "Thumb Y".to_owned(),
        ActionType::F32,
        ActionHandednes::Double,
    );
    action_set.new_action(
        "index_touch",
        "Index Finger Touched".to_owned(),
        ActionType::Bool,
        ActionHandednes::Double,
    );
    action_set.new_action(
        "index_value",
        "Index Finger Pull".to_owned(),
        ActionType::F32,
        ActionHandednes::Double,
    );
    action_set.new_action(
        "middle_value",
        "Middle Finger Pull".to_owned(),
        ActionType::F32,
        ActionHandednes::Double,
    );
    action_set.new_action(
        "ring_value",
        "Ring Finger Pull".to_owned(),
        ActionType::F32,
        ActionHandednes::Double,
    );
    action_set.new_action(
        "little_value",
        "Little Finger Pull".to_owned(),
        ActionType::F32,
        ActionHandednes::Double,
    );
    proof {
        lemma_hand_emulation_bindings_declared();
    }
    suggest_oculus_touch_profile(action_set);
}

/// Suggests the bindings of the made-up hands for the Oculus Touch
/// profile. The actions of the made-up hands have to be declared in
/// `action_set`.
pub fn suggest_oculus_touch_profile(action_set: &mut SetupActionSet)
    requires
        old(action_set).wf(),
        old(action_set)@.declares_all(hand_emulation_bindings()),
    ensures
        final(action_set).wf(),
        final(action_set)@ == old(action_set)@.with_bindings(
            OCULUS_TOUCH_PROFILE@,
            hand_emulation_bindings(),
        ),
{
    let bindings = [
        XrBinding::new("thumb_x", "/user/hand/left/input/thumbstick/x"),
        XrBinding::new("thumb_x", "/user/hand/right/input/thumbstick/x"),
        XrBinding::new("thumb_y", "/user/hand/left/input/thumbstick/y"),
        XrBinding::new("thumb_y", "/user/hand/right/input/thumbstick/y"),
        XrBinding::new("thumb_touch", "/user/hand/left/input/thumbstick/touch"),
        XrBinding::new("thumb_touch", "/user/hand/right/input/thumbstick/touch"),
        XrBinding::new("thumb_touch", "/user/hand/left/input/x/touch"),
        XrBinding::new("thumb_touch", "/user/hand/left/input/y/touch"),
        XrBinding::new("thumb_touch", "/user/hand/right/input/a/touch"),
        XrBinding::new("thumb_touch", "/user/hand/right/input/b/touch"),
        XrBinding::new("thumb_touch", "/user/hand/left/input/thumbrest/touch"),
        XrBinding::new("thumb_touch", "/user/hand/right/input/thumbrest/touch"),
        XrBinding::new("index_touch", "/user/hand/left/input/trigger/touch"),
        XrBinding::new("index_value", "/user/hand/left/input/trigger/value"),
        XrBinding::new("index_touch", "/user/hand/right/input/trigger/touch"),
        XrBinding::new("index_value", "/user/hand/right/input/trigger/value"),
        XrBinding::new("middle_value", "/user/hand/left/input/squeeze/value"),
        XrBinding::new("middle_value", "/user/hand/right/input/squeeze/value"),
        XrBinding::new("ring_value", "/user/hand/left/input/squeeze/value"),
        XrBinding::new("ring_value", "/user/hand/right/input/squeeze/value"),
        XrBinding::new("little_value", "/user/hand/left/input/squeeze/value"),
        XrBinding::new("little_value", "/user/hand/right/input/squeeze/value"),
    ];
    proof {
        assert(binding_pairs(bindings@) =~= hand_emulation_bindings());
    }
    action_set.suggest_binding(OCULUS_TOUCH_PROFILE, &bindings);
}

/// How far the fingers of a hand are curled, each by the bits of a float
/// from `0.0`, stretched, to `1.0`, curled.
#[derive(Clone, Copy, Debug, PartialEq, Eq, Structural)]
pub struct FingerCurls {
    pub thumb: u32,
    pub index: u32,
    pub middle: u32,
    pub ring: u32,
    pub little: u32,
}

/// The curl of a thumb: fully curled while it touches the controller,
/// stretched while it does not.
pub open spec fn thumb_curl(touching: bool) -> u32 {
    if touching {
        ONE_BITS
    } else {
        ZERO_BITS
    }
}

/// What is read for one finger of a hand.
pub open spec fn finger_value(
    sets: Seq<(Seq<char>, ResolvedSetModel)>,
    paths: SubactionPaths,
    readings: Seq<ActionReading>,
    action_name: Seq<char>,
    hand: Hand,
) -> Result<u32, ActionError> {
    match read(sets, paths, readings, HAND_ACTION_SET@, action_name, Some(hand), ActionType::F32) {
        Ok(found) => Ok(f32_state(found)),
        Err(error) => Err(error),
    }
}

/// The curls of a hand as the last sync gives them: the thumb from
/// `thumb_touch`, the fingers from `index_value`, `middle_value`,
/// `ring_value` and `little_value`; or the first error among these five
/// reads, in this order.
pub open spec fn curls_of(
    sets: Seq<(Seq<char>, ResolvedSetModel)>,
    paths: SubactionPaths,
    readings: Seq<ActionReading>,
    hand: Hand,
) -> Result<FingerCurls, ActionError> {
    match read(
        sets,
        paths,
        readings,
        HAND_ACTION_SET@,
        "thumb_touch"@,
        Some(hand),
        ActionType::Bool,
    ) {
        Err(error) => Err(error),
        Ok(touching) => match finger_value(sets, paths, readings, "index_value"@, hand) {
            Err(error) => Err(error),
            Ok(index) => match finger_value(sets, paths, readings, "middle_value"@, hand) {
                Err(error) => Err(error),
                Ok(middle) => match finger_value(sets, paths, readings, "ring_value"@, hand) {
                    Err(error) => Err(error),
                    Ok(ring) => match finger_value(sets, paths, readings, "little_value"@, hand) {
                        Err(error) => Err(error),
                        Ok(little) => Ok(
                            FingerCurls {
                                thumb: thumb_curl(bool_state(touching)),
                                index,
                                middle,
                                ring,
                                little,
                            },
                        ),
                    },
                },
            },
        },
    }
}

/// Reads how far the fingers of a hand are curled.
pub fn finger_curls(
    input: &InputSnapshot,
    action_sets: &XrActionSets,
    paths: &SubactionPaths,
    hand: Hand,
) -> (curls: Result<FingerCurls, ActionError>)
    requires
        action_sets.wf(),
    ensures
        curls == curls_of(action_sets@, *paths, input@, hand),
        hand_emulation_set_up(action_sets@) ==> curls is Ok,
{
    let thumb = match input.get_bool(action_sets, paths, HAND_ACTION_SET, "thumb_touch", Some(hand)) {
        Ok(true) => ONE_BITS,
        Ok(false) => ZERO_BITS,
        Err(error) => {
            return Err(error);
        },
    };
    let index = match input.get_f32(action_sets, paths, HAND_ACTION_SET, "index_value", Some(hand)) {
        Ok(value) => value,
        Err(error) => {
            return Err(error);
        },
    };
    let middle = match input.get_f32(
        action_sets,
        paths,
        HAND_ACTION_SET,
        "middle_value",
        Some(hand),
    ) {
        Ok(value) => value,
        Err(error) => {
            return Err(error);
        },
    };
    let ring = match input.get_f32(action_sets, paths, HAND_ACTION_SET, "ring_value", Some(hand)) {
        Ok(value) => value,
        Err(error) => {
            return Err(error);
        },
    };
    let little = match input.get_f32(
        action_sets,
        paths,
        HAND_ACTION_SET,
        "little_value",
        Some(hand),
    ) {
        Ok(value) => value,
        Err(error) => {
            return Err(error);
        },
    };
    Ok(FingerCurls { thumb, index, middle, ring, little })
}

/// Whether a bone takes the made-up pose: a tracked bone keeps its own.
pub fn is_emulated(status: BoneTrackingStatus) -> (emulated: bool)
    ensures
        emulated == (status == BoneTrackingStatus::Emulated),
{
    match status {
        BoneTrackingStatus::Emulated => true,
        BoneTrackingStatus::HandTracked => false,
    }
}

} // verus!
