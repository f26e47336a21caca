//! The Oculus Touch controller: its actions, its bindings, and what is read
//! from it.

use vstd::prelude::*;
use crate::name_table::{distinct_keys, upsert, value_of};
use crate::xr_input::Hand;
use crate::xr_input::actions::{
    ActionError, ActionHandednes, ActionHandle, ActionSetModel, ActionType, SetupActionSet,
    ResolvedSetModel, SetupActionSets, XrActionSets, XrBinding, binding_pairs,
    empty_action_set, find_action_of_type, lemma_declared_kind_resolves, resolved_sets,
};
use crate::xr_input::controllers::Handed;
use crate::xr_input::resolver::{InputSnapshot, SubactionPaths, bool_state, f32_state, read};

verus! {

/// The name of the controller's action set.
pub const OCULUS_INPUT: &'static str = "oculus_input";

/// The interaction profile of the controller.
pub const OCULUS_TOUCH_PROFILE: &'static str = "/interaction_profiles/oculus/touch_controller";

/// The actions of the controller, in order of declaration.
pub open spec fn oculus_touch_actions() -> ActionSetModel {
    empty_action_set("Oculus Touch Controller Input"@, 0)
        .with_action("hand_pose"@, "Hand Pose"@, ActionType::PoseF, ActionHandednes::Double)
        .with_action("pointer_pose"@, "Pointer Pose"@, ActionType::PoseF, ActionHandednes::Double)
        .with_action("squeeze"@, "Grip Pull"@, ActionType::F32, ActionHandednes::Double)
        .with_action("trigger"@, "Trigger Pull"@, ActionType::F32, ActionHandednes::Double)
        .with_action("trigger_touched"@, "Trigger Touch"@, ActionType::Bool, ActionHandednes::Double)
        .with_action("haptic_feedback"@, "Haptic Feedback"@, ActionType::Haptic, ActionHandednes::Double)
        .with_action("x_button"@, "X Button"@, ActionType::Bool, ActionHandednes::Single)
        .with_action("x_button_touch"@, "X Button Touch"@, ActionType::Bool, ActionHandednes::Single)
        .with_action("y_button"@, "Y Button"@, ActionType::Bool, ActionHandednes::Single)
        .with_action("y_button_touch"@, "Y Button Touch"@, ActionType::Bool, ActionHandednes::Single)
        .with_action("a_button"@, "A Button"@, ActionType::Bool, ActionHandednes::Single)
        .with_action("a_button_touch"@, "A Button Touch"@, ActionType::Bool, ActionHandednes::Single)
        .with_action("b_button"@, "B Button"@, ActionType::Bool, ActionHandednes::Single)
        .with_action("b_button_touch"@, "B Button Touch"@, ActionType::Bool, ActionHandednes::Single)
        .with_action("menu_button"@, "Menu Button"@, ActionType::Bool, ActionHandednes::Single)
        .with_action("thumbstick_x"@, "Thumbstick X"@, ActionType::F32, ActionHandednes::Double)
        .with_action("thumbstick_y"@, "Thumbstick y"@, ActionType::F32, ActionHandednes::Double)
        .with_action("thumbstick_touch"@, "Thumbstick Touch"@, ActionType::Bool, ActionHandednes::Double)
        .with_action("thumbstick_click"@, "Thumbstick Click"@, ActionType::Bool, ActionHandednes::Double)
        .with_action("thumbrest_touch"@, "Thumbrest Touch"@, ActionType::Bool, ActionHandednes::Double)
}

/// What the controller suggests for its interaction profile: for each
/// binding the action and the input path, in order of suggestion.
pub open spec fn oculus_touch_bindings() -> Seq<(Seq<char>, Seq<char>)> {
    seq![
        ("hand_pose"@, "/user/hand/left/input/grip/pose"@),
        ("hand_pose"@, "/user/hand/right/input/grip/pose"@),
        ("pointer_pose"@, "/user/hand/left/input/aim/pose"@),
        ("pointer_pose"@, "/user/hand/right/input/aim/pose"@),
        ("squeeze"@, "/user/hand/left/input/squeeze/value"@),
        ("squeeze"@, "/user/hand/right/input/squeeze/value"@),
        ("trigger"@, "/user/hand/left/input/trigger/value"@),
        ("trigger"@, "/user/hand/right/input/trigger/value"@),
        ("trigger_touched"@, "/user/hand/left/input/trigger/touch"@),
        ("trigger_touched"@, "/user/hand/right/input/trigger/touch"@),
        ("haptic_feedback"@, "/user/hand/left/output/haptic"@),
        ("haptic_feedback"@, "/user/hand/right/output/haptic"@),
        ("x_button"@, "/user/hand/left/input/x/click"@),
        ("x_button_touch"@, "/user/hand/left/input/x/touch"@),
        ("y_button"@, "/user/hand/left/input/y/click"@),
        ("y_button_touch"@, "/user/hand/left/input/y/touch"@),
        ("a_button"@, "/user/hand/right/input/a/click"@),
        ("a_button_touch"@, "/user/hand/right/input/a/touch"@),
        ("b_button"@, "/user/hand/right/input/b/click"@),
        ("b_button_touch"@, "/user/hand/right/input/b/touch"@),
        ("menu_button"@, "/user/hand/left/input/menu/click"@),
        ("thumbstick_x"@, "/user/hand/left/input/thumbstick/x"@),
        ("thumbstick_y"@, "/user/hand/left/input/thumbstick/y"@),
        ("thumbstick_x"@, "/user/hand/right/input/thumbstick/x"@),
        ("thumbstick_y"@, "/user/hand/right/input/thumbstick/y"@),
        ("thumbstick_click"@, "/user/hand/left/input/thumbstick/click"@),
        ("thumbstick_click"@, "/user/hand/right/input/thumbstick/click"@),
        ("thumbstick_touch"@, "/user/hand/left/input/thumbstick/touch"@),
        ("thumbstick_touch"@, "/user/hand/right/input/thumbstick/touch"@),
        ("thumbrest_touch"@, "/user/hand/left/input/thumbrest/touch"@),
        ("thumbrest_touch"@, "/user/hand/right/input/thumbrest/touch"@),
    ]
}

/// The controller's action set as declared: its actions with their bindings.
pub open spec fn oculus_touch_input() -> ActionSetModel {
    oculus_touch_actions().with_bindings(OCULUS_TOUCH_PROFILE@, oculus_touch_bindings())
}

/// Every binding of the controller names one of its actions.
pub proof fn lemma_oculus_touch_bindings_declared()
    ensures
        oculus_touch_actions().declares_all(oculus_touch_bindings()),
{
    let mut declared = empty_action_set("Oculus Touch Controller Input"@, 0);
    let mut names = Set::<Seq<char>>::empty();
    declared.lemma_declares_none();
    declared.lemma_declares_one_more(names, "hand_pose"@, "Hand Pose"@, ActionType::PoseF, ActionHandednes::Double);
    declared = declared.with_action("hand_pose"@, "Hand Pose"@, ActionType::PoseF, ActionHandednes::Double);
    names = names.insert("hand_pose"@);
    declared.lemma_declares_one_more(names, "pointer_pose"@, "Pointer Pose"@, ActionType::PoseF, ActionHandednes::Double);
    declared = declared.with_action("pointer_pose"@, "Pointer Pose"@, ActionType::PoseF, ActionHandednes::Double);
    names = names.insert("pointer_pose"@);
    declared.lemma_declares_one_more(names, "squeeze"@, "Grip Pull"@, ActionType::F32, ActionHandednes::Double);
    declared = declared.with_action("squeeze"@, "Grip Pull"@, ActionType::F32, ActionHandednes::Double);
    names = names.insert("squeeze"@);
    declared.lemma_declares_one_more(names, "trigger"@, "Trigger Pull"@, ActionType::F32, ActionHandednes::Double);
    declared = declared.with_action("trigger"@, "Trigger Pull"@, ActionType::F32, ActionHandednes::Double);
    names = names.insert("trigger"@);
    declared.lemma_declares_one_more(names, "trigger_touched"@, "Trigger Touch"@, ActionType::Bool, ActionHandednes::Double);
    declared = declared.with_action("trigger_touched"@, "Trigger Touch"@, ActionType::Bool, ActionHandednes::Double);
    names = names.insert("trigger_touched"@);
    declared.lemma_declares_one_more(names, "haptic_feedback"@, "Haptic Feedback"@, ActionType::Haptic, ActionHandednes::Double);
    declared = declared.with_action("haptic_feedback"@, "Haptic Feedback"@, ActionType::Haptic, ActionHandednes::Double);
    names = names.insert("haptic_feedback"@);
    declared.lemma_declares_one_more(names, "x_button"@, "X Button"@, ActionType::Bool, ActionHandednes::Single);
    declared = declared.with_action("x_button"@, "X Button"@, ActionType::Bool, ActionHandednes::Single);
    names = names.insert("x_button"@);
    declared.lemma_declares_one_more(names, "x_button_touch"@, "X Button Touch"@, ActionType::Bool, ActionHandednes::Single);
    declared = declared.with_action("x_button_touch"@, "X Button Touch"@, ActionType::Bool, ActionHandednes::Single);
    names = names.insert("x_button_touch"@);
    declared.lemma_declares_one_more(names, "y_button"@, "Y Button"@, ActionType::Bool, ActionHandednes::Single);
    declared = declared.with_action("y_button"@, "Y Button"@, ActionType::Bool, ActionHandednes::Single);
    names = names.insert("y_button"@);
    declared.lemma_declares_one_more(names, "y_button_touch"@, "Y Button Touch"@, ActionType::Bool, ActionHandednes::Single);
    declared = declared.with_action("y_button_touch"@, "Y Button Touch"@, ActionType::Bool, ActionHandednes::Single);
    names = names.insert("y_button_touch"@);
    declared.lemma_declares_one_more(names, "a_button"@, "A Button"@, ActionType::Bool, ActionHandednes::Single);
    declared = declared.with_action("a_button"@, "A Button"@, ActionType::Bool, ActionHandednes::Single);
    names = names.insert("a_button"@);
    declared.lemma_declares_one_more(names, "a_button_touch"@, "A Button Touch"@, ActionType::Bool, ActionHandednes::Single);
    declared = declared.with_action("a_button_touch"@, "A Button Touch"@, ActionType::Bool, ActionHandednes::Single);
    names = names.insert("a_button_touch"@);
    declared.lemma_declares_one_more(names, "b_button"@, "B Button"@, ActionType::Bool, ActionHandednes::Single);
    declared = declared.with_action("b_button"@, "B Button"@, ActionType::Bool, ActionHandednes::Single);
    names = names.insert("b_button"@);
    declared.lemma_declares_one_more(names, "b_button_touch"@, "B Button Touch"@, ActionType::Bool, ActionHandednes::Single);
    declared = declared.with_action("b_button_touch"@, "B Button Touch"@, ActionType::Bool, ActionHandednes::Single);
    names = names.insert("b_button_touch"@);
    declared.lemma_declares_one_more(names, "menu_button"@, "Menu Button"@, ActionType::Bool, ActionHandednes::Single);
    declared = declared.with_action("menu_button"@, "Menu Button"@, ActionType::Bool, ActionHandednes::Single);
    names = names.insert("menu_button"@);
    declared.lemma_declares_one_more(names, "thumbstick_x"@, "Thumbstick X"@, ActionType::F32, ActionHandednes::Double);
    declared = declared.with_action("thumbstick_x"@, "Thumbstick X"@, ActionType::F32, ActionHandednes::Double);
    names = names.insert("thumbstick_x"@);
    declared.lemma_declares_one_more(names, "thumbstick_y"@, "Thumbstick y"@, ActionType::F32, ActionHandednes::Double);
    declared = declared.with_action("thumbstick_y"@, "Thumbstick y"@, ActionType::F32, ActionHandednes::Double);
    names = names.insert("thumbstick_y"@);
    declared.lemma_declares_one_more(names, "thumbstick_touch"@, "Thumbstick Touch"@, ActionType::Bool, ActionHandednes::Double);
    declared = declared.with_action("thumbstick_touch"@, "Thumbstick Touch"@, ActionType::Bool, ActionHandednes::Double);
    names = names.insert("thumbstick_touch"@);
    declared.lemma_declares_one_more(names, "thumbstick_click"@, "Thumbstick Click"@, ActionType::Bool, ActionHandednes::Double);
    declared = declared.with_action("thumbstick_click"@, "Thumbstick Click"@, ActionType::Bool, ActionHandednes::Double);
    names = names.insert("thumbstick_click"@);
    declared.lemma_declares_one_more(names, "thumbrest_touch"@, "Thumbrest Touch"@, ActionType::Bool, ActionHandednes::Double);
    declared = declared.with_action("thumbrest_touch"@, "Thumbrest Touch"@, ActionType::Bool, ActionHandednes::Double);
    names = names.insert("thumbrest_touch"@);
    assert(declared == oculus_touch_actions());
    let mut bindings = Seq::<(Seq<char>, Seq<char>)>::empty();
    declared.lemma_declares_all_push(names, bindings, "hand_pose"@, "/user/hand/left/input/grip/pose"@);
    bindings = bindings.push(("hand_pose"@, "/user/hand/left/input/grip/pose"@));
    declared.lemma_declares_all_push(names, bindings, "hand_pose"@, "/user/hand/right/input/grip/pose"@);
    bindings = bindings.push(("hand_pose"@, "/user/hand/right/input/grip/pose"@));
    declared.lemma_declares_all_push(names, bindings, "pointer_pose"@, "/user/hand/left/input/aim/pose"@);
    bindings = bindings.push(("pointer_pose"@, "/user/hand/left/input/aim/pose"@));
    declared.lemma_declares_all_push(names, bindings, "pointer_pose"@, "/user/hand/right/input/aim/pose"@);
    bindings = bindings.push(("pointer_pose"@, "/user/hand/right/input/aim/pose"@));
    declared.lemma_declares_all_push(names, bindings, "squeeze"@, "/user/hand/left/input/squeeze/value"@);
    bindings = bindings.push(("squeeze"@, "/user/hand/left/input/squeeze/value"@));
    declared.lemma_declares_all_push(names, bindings, "squeeze"@, "/user/hand/right/input/squeeze/value"@);
    bindings = bindings.push(("squeeze"@, "/user/hand/right/input/squeeze/value"@));
    declared.lemma_declares_all_push(names, bindings, "trigger"@, "/user/hand/left/input/trigger/value"@);
    bindings = bindings.push(("trigger"@, "/user/hand/left/input/trigger/value"@));
    declared.lemma_declares_all_push(names, bindings, "trigger"@, "/user/hand/right/input/trigger/value"@);
    bindings = bindings.push(("trigger"@, "/user/hand/right/input/trigger/value"@));
    declared.lemma_declares_all_push(names, bindings, "trigger_touched"@, "/user/hand/left/input/trigger/touch"@);
    bindings = bindings.push(("trigger_touched"@, "/user/hand/left/input/trigger/touch"@));
    declared.lemma_declares_all_push(names, bindings, "trigger_touched"@, "/user/hand/right/input/trigger/touch"@);
    bindings = bindings.push(("trigger_touched"@, "/user/hand/right/input/trigger/touch"@));
    declared.lemma_declares_all_push(names, bindings, "haptic_feedback"@, "/user/hand/left/output/haptic"@);
    bindings = bindings.push(("haptic_feedback"@, "/user/hand/left/output/haptic"@));
    declared.lemma_declares_all_push(names, bindings, "haptic_feedback"@, "/user/hand/right/output/haptic"@);
    bindings = bindings.push(("haptic_feedback"@, "/user/hand/right/output/haptic"@));
    declared.lemma_declares_all_push(names, bindings, "x_button"@, "/user/hand/left/input/x/click"@);
    bindings = bindings.push(("x_button"@, "/user/hand/left/input/x/click"@));
    declared.lemma_declares_all_push(names, bindings, "x_button_touch"@, "/user/hand/left/input/x/touch"@);
    bindings = bindings.push(("x_button_touch"@, "/user/hand/left/input/x/touch"@));
    declared.lemma_declares_all_push(names, bindings, "y_button"@, "/user/hand/left/input/y/click"@);
    bindings = bindings.push(("y_button"@, "/user/hand/left/input/y/click"@));
    declared.lemma_declares_all_push(names, bindings, "y_button_touch"@, "/user/hand/left/input/y/touch"@);
    bindings = bindings.push(("y_button_touch"@, "/user/hand/left/input/y/touch"@));
    declared.lemma_declares_all_push(names, bindings, "a_button"@, "/user/hand/right/input/a/click"@);
    bindings = bindings.push(("a_button"@, "/user/hand/right/input/a/click"@));
    declared.lemma_declares_all_push(names, bindings, "a_button_touch"@, "/user/hand/right/input/a/touch"@);
    bindings = bindings.push(("a_button_touch"@, "/user/hand/right/input/a/touch"@));
    declared.lemma_declares_all_push(names, bindings, "b_button"@, "/user/hand/right/input/b/click"@);
    bindings = bindings.push(("b_button"@, "/user/hand/right/input/b/click"@));
    declared.lemma_declares_all_push(names, bindings, "b_button_touch"@, "/user/hand/right/input/b/touch"@);
    bindings = bindings.push(("b_button_touch"@, "/user/hand/right/input/b/touch"@));
    declared.lemma_declares_all_push(names, bindings, "menu_button"@, "/user/hand/left/input/menu/click"@);
    bindings = bindings.push(("menu_button"@, "/user/hand/left/input/menu/click"@));
    declared.lemma_declares_all_push(names, bindings, "thumbstick_x"@, "/user/hand/left/input/thumbstick/x"@);
    bindings = bindings.push(("thumbstick_x"@, "/user/hand/left/input/thumbstick/x"@));
    declared.lemma_declares_all_push(names, bindings, "thumbstick_y"@, "/user/hand/left/input/thumbstick/y"@);
    bindings = bindings.push(("thumbstick_y"@, "/user/hand/left/input/thumbstick/y"@));
    declared.lemma_declares_all_push(names, bindings, "thumbstick_x"@, "/user/hand/right/input/thumbstick/x"@);
    bindings = bindings.push(("thumbstick_x"@, "/user/hand/right/input/thumbstick/x"@));
    declared.lemma_declares_all_push(names, bindings, "thumbstick_y"@, "/user/hand/right/input/thumbstick/y"@);
    bindings = bindings.push(("thumbstick_y"@, "/user/hand/right/input/thumbstick/y"@));
    declared.lemma_declares_all_push(names, bindings, "thumbstick_click"@, "/user/hand/left/input/thumbstick/click"@);
    bindings = bindings.push(("thumbstick_click"@, "/user/hand/left/input/thumbstick/click"@));
    declared.lemma_declares_all_push(names, bindings, "thumbstick_click"@, "/user/hand/right/input/thumbstick/click"@);
    bindings = bindings.push(("thumbstick_click"@, "/user/hand/right/input/thumbstick/click"@));
    declared.lemma_declares_all_push(names, bindings, "thumbstick_touch"@, "/user/hand/left/input/thumbstick/touch"@);
    bindings = bindings.push(("thumbstick_touch"@, "/user/hand/left/input/thumbstick/touch"@));
    declared.lemma_declares_all_push(names, bindings, "thumbstick_touch"@, "/user/hand/right/input/thumbstick/touch"@);
    bindings = bindings.push(("thumbstick_touch"@, "/user/hand/right/input/thumbstick/touch"@));
    declared.lemma_declares_all_push(names, bindings, "thumbrest_touch"@, "/user/hand/left/input/thumbrest/touch"@);
    bindings = bindings.push(("thumbrest_touch"@, "/user/hand/left/input/thumbrest/touch"@));
    declared.lemma_declares_all_push(names, bindings, "thumbrest_touch"@, "/user/hand/right/input/thumbrest/touch"@);
    bindings = bindings.push(("thumbrest_touch"@, "/user/hand/right/input/thumbrest/touch"@));
    assert(bindings =~= oculus_touch_bindings());
}

/// The type and the handedness of each of the controller's actions.
pub open spec fn oculus_touch_kinds() -> Map<Seq<char>, (ActionType, ActionHandednes)> {
    Map::<Seq<char>, (ActionType, ActionHandednes)>::empty()
        .insert("hand_pose"@, (ActionType::PoseF, ActionHandednes::Double))
        .insert("pointer_pose"@, (ActionType::PoseF, ActionHandednes::Double))
        .insert("squeeze"@, (ActionType::F32, ActionHandednes::Double))
        .insert("trigger"@, (ActionType::F32, ActionHandednes::Double))
        .insert("trigger_touched"@, (ActionType::Bool, ActionHandednes::Double))
        .insert("haptic_feedback"@, (ActionType::Haptic, ActionHandednes::Double))
        .insert("x_button"@, (ActionType::Bool, ActionHandednes::Single))
        .insert("x_button_touch"@, (ActionType::Bool, ActionHandednes::Single))
        .insert("y_button"@, (ActionType::Bool, ActionHandednes::Single))
        .insert("y_button_touch"@, (ActionType::Bool, ActionHandednes::Single))
        .insert("a_button"@, (ActionType::Bool, ActionHandednes::Single))
        .insert("a_button_touch"@, (ActionType::Bool, ActionHandednes::Single))
        .insert("b_button"@, (ActionType::Bool, ActionHandednes::Single))
        .insert("b_button_touch"@, (ActionType::Bool, ActionHandednes::Single))
        .insert("menu_button"@, (ActionType::Bool, ActionHandednes::Single))
        .insert("thumbstick_x"@, (ActionType::F32, ActionHandednes::Double))
        .insert("thumbstick_y"@, (ActionType::F32, ActionHandednes::Double))
        .insert("thumbstick_touch"@, (ActionType::Bool, ActionHandednes::Double))
        .insert("thumbstick_click"@, (ActionType::Bool, ActionHandednes::Double))
        .insert("thumbrest_touch"@, (ActionType::Bool, ActionHandednes::Double))
}

/// The controller's action set declares its actions each once and each
/// with its kind, and declares nothing else.
pub proof fn lemma_oculus_touch_has_kinds()
    ensures
        oculus_touch_input().has_kinds(oculus_touch_kinds()),
{
    let mut declared = empty_action_set("Oculus Touch Controller Input"@, 0);
    let mut kinds = Map::<Seq<char>, (ActionType, ActionHandednes)>::empty();
    declared.lemma_kinds_none();
    declared.lemma_kinds_one_more(kinds, "hand_pose"@, "Hand Pose"@, ActionType::PoseF, ActionHandednes::Double);
    declared = declared.with_action("hand_pose"@, "Hand Pose"@, ActionType::PoseF, ActionHandednes::Double);
    kinds = kinds.insert("hand_pose"@, (ActionType::PoseF, ActionHandednes::Double));
    declared.lemma_kinds_one_more(kinds, "pointer_pose"@, "Pointer Pose"@, ActionType::PoseF, ActionHandednes::Double);
    declared = declared.with_action("pointer_pose"@, "Pointer Pose"@, ActionType::PoseF, ActionHandednes::Double);
    kinds = kinds.insert("pointer_pose"@, (ActionType::PoseF, ActionHandednes::Double));
    declared.lemma_kinds_one_more(kinds, "squeeze"@, "Grip Pull"@, ActionType::F32, ActionHandednes::Double);
    declared = declared.with_action("squeeze"@, "Grip Pull"@, ActionType::F32, ActionHandednes::Double);
    kinds = kinds.insert("squeeze"@, (ActionType::F32, ActionHandednes::Double));
    declared.lemma_kinds_one_more(kinds, "trigger"@, "Trigger Pull"@, ActionType::F32, ActionHandednes::Double);
    declared = declared.with_action("trigger"@, "Trigger Pull"@, ActionType::F32, ActionHandednes::Double);
    kinds = kinds.insert("trigger"@, (ActionType::F32, ActionHandednes::Double));
    declared.lemma_kinds_one_more(kinds, "trigger_touched"@, "Trigger Touch"@, ActionType::Bool, ActionHandednes::Double);
    declared = declared.with_action("trigger_touched"@, "Trigger Touch"@, ActionType::Bool, ActionHandednes::Double);
    kinds = kinds.insert("trigger_touched"@, (ActionType::Bool, ActionHandednes::Double));
    declared.lemma_kinds_one_more(kinds, "haptic_feedback"@, "Haptic Feedback"@, ActionType::Haptic, ActionHandednes::Double);
    declared = declared.with_action("haptic_feedback"@, "Haptic Feedback"@, ActionType::Haptic, ActionHandednes::Double);
    kinds = kinds.insert("haptic_feedback"@, (ActionType::Haptic, ActionHandednes::Double));
    declared.lemma_kinds_one_more(kinds, "x_button"@, "X Button"@, ActionType::Bool, ActionHandednes::Single);
    declared = declared.with_action("x_button"@, "X Button"@, ActionType::Bool, ActionHandednes::Single);
    kinds = kinds.insert("x_button"@, (ActionType::Bool, ActionHandednes::Single));
    declared.lemma_kinds_one_more(kinds, "x_button_touch"@, "X Button Touch"@, ActionType::Bool, ActionHandednes::Single);
    declared = declared.with_action("x_button_touch"@, "X Button Touch"@, ActionType::Bool, ActionHandednes::Single);
    kinds = kinds.insert("x_button_touch"@, (ActionType::Bool, ActionHandednes::Single));
    declared.lemma_kinds_one_more(kinds, "y_button"@, "Y Button"@, ActionType::Bool, ActionHandednes::Single);
    declared = declared.with_action("y_button"@, "Y Button"@, ActionType::Bool, ActionHandednes::Single);
    kinds = kinds.insert("y_button"@, (ActionType::Bool, ActionHandednes::Single));
    declared.lemma_kinds_one_more(kinds, "y_button_touch"@, "Y Button Touch"@, ActionType::Bool, ActionHandednes::Single);
    declared = declared.with_action("y_button_touch"@, "Y Button Touch"@, ActionType::Bool, ActionHandednes::Single);
    kinds = kinds.insert("y_button_touch"@, (ActionType::Bool, ActionHandednes::Single));
    declared.lemma_kinds_one_more(kinds, "a_button"@, "A Button"@, ActionType::Bool, ActionHandednes::Single);
    declared = declared.with_action("a_button"@, "A Button"@, ActionType::Bool, ActionHandednes::Single);
    kinds = kinds.insert("a_button"@, (ActionType::Bool, ActionHandednes::Single));
    declared.lemma_kinds_one_more(kinds, "a_button_touch"@, "A Button Touch"@, ActionType::Bool, ActionHandednes::Single);
    declared = declared.with_action("a_button_touch"@, "A Button Touch"@, ActionType::Bool, ActionHandednes::Single);
    kinds = kinds.insert("a_button_touch"@, (ActionType::Bool, ActionHandednes::Single));
    declared.lemma_kinds_one_more(kinds, "b_button"@, "B Button"@, ActionType::Bool, ActionHandednes::Single);
    declared = declared.with_action("b_button"@, "B Button"@, ActionType::Bool, ActionHandednes::Single);
    kinds = kinds.insert("b_button"@, (ActionType::Bool, ActionHandednes::Single));
    declared.lemma_kinds_one_more(kinds, "b_button_touch"@, "B Button Touch"@, ActionType::Bool, ActionHandednes::Single);
    declared = declared.with_action("b_button_touch"@, "B Button Touch"@, ActionType::Bool, ActionHandednes::Single);
    kinds = kinds.insert("b_button_touch"@, (ActionType::Bool, ActionHandednes::Single));
    declared.lemma_kinds_one_more(kinds, "menu_button"@, "Menu Button"@, ActionType::Bool, ActionHandednes::Single);
    declared = declared.with_action("menu_button"@, "Menu Button"@, ActionType::Bool, ActionHandednes::Single);
    kinds = kinds.insert("menu_button"@, (ActionType::Bool, ActionHandednes::Single));
    declared.lemma_kinds_one_more(kinds, "thumbstick_x"@, "Thumbstick X"@, ActionType::F32, ActionHandednes::Double);
    declared = declared.with_action("thumbstick_x"@, "Thumbstick X"@, ActionType::F32, ActionHandednes::Double);
    kinds = kinds.insert("thumbstick_x"@, (ActionType::F32, ActionHandednes::Double));
    declared.lemma_kinds_one_more(kinds, "thumbstick_y"@, "Thumbstick y"@, ActionType::F32, ActionHandednes::Double);
    declared = declared.with_action("thumbstick_y"@, "Thumbstick y"@, ActionType::F32, ActionHandednes::Double);
    kinds = kinds.insert("thumbstick_y"@, (ActionType::F32, ActionHandednes::Double));
    declared.lemma_kinds_one_more(kinds, "thumbstick_touch"@, "Thumbstick Touch"@, ActionType::Bool, ActionHandednes::Double);
    declared = declared.with_action("thumbstick_touch"@, "Thumbstick Touch"@, ActionType::Bool, ActionHandednes::Double);
    kinds = kinds.insert("thumbstick_touch"@, (ActionType::Bool, ActionHandednes::Double));
    declared.lemma_kinds_one_more(kinds, "thumbstick_click"@, "Thumbstick Click"@, ActionType::Bool, ActionHandednes::Double);
    declared = declared.with_action("thumbstick_click"@, "Thumbstick Click"@, ActionType::Bool, ActionHandednes::Double);
    kinds = kinds.insert("thumbstick_click"@, (ActionType::Bool, ActionHandednes::Double));
    declared.lemma_kinds_one_more(kinds, "thumbrest_touch"@, "Thumbrest Touch"@, ActionType::Bool, ActionHandednes::Double);
    declared = declared.with_action("thumbrest_touch"@, "Thumbrest Touch"@, ActionType::Bool, ActionHandednes::Double);
    kinds = kinds.insert("thumbrest_touch"@, (ActionType::Bool, ActionHandednes::Double));
    assert(declared == oculus_touch_actions());
    assert(kinds == oculus_touch_kinds());
    lemma_oculus_touch_bindings_declared();
    declared.lemma_kinds_with_bindings(kinds, OCULUS_TOUCH_PROFILE@, oculus_touch_bindings());
}


/// The characters of the name `hand_pose`.
proof fn lemma_name_hand_pose()
    ensures
        "hand_pose"@.len() == 9,
        "hand_pose"@[0] == 'h',
        "hand_pose"@[1] == 'a',
        "hand_pose"@[2] == 'n',
        "hand_pose"@[3] == 'd',
        "hand_pose"@[4] == '_',
        "hand_pose"@[5] == 'p',
        "hand_pose"@[6] == 'o',
        "hand_pose"@[7] == 's',
        "hand_pose"@[8] == 'e',
{
    reveal_strlit("hand_pose");
}

/// The characters of the name `pointer_pose`.
proof fn lemma_name_pointer_pose()
    ensures
        "pointer_pose"@.len() == 12,
        "pointer_pose"@[0] == 'p',
        "pointer_pose"@[1] == 'o',
        "pointer_pose"@[2] == 'i',
        "pointer_pose"@[3] == 'n',
        "pointer_pose"@[4] == 't',
        "pointer_pose"@[5] == 'e',
        "pointer_pose"@[6] == 'r',
        "pointer_pose"@[7] == '_',
        "pointer_pose"@[8] == 'p',
        "pointer_pose"@[9] == 'o',
        "pointer_pose"@[10] == 's',
        "pointer_pose"@[11] == 'e',
{
    reveal_strlit("pointer_pose");
}

/// The characters of the name `squeeze`.
proof fn lemma_name_squeeze()
    ensures
        "squeeze"@.len() == 7,
        "squeeze"@[0] == 's',
        "squeeze"@[1] == 'q',
        "squeeze"@[2] == 'u',
        "squeeze"@[3] == 'e',
        "squeeze"@[4] == 'e',
        "squeeze"@[5] == 'z',
        "squeeze"@[6] == 'e',
{
    reveal_strlit("squeeze");
}

/// The characters of the name `trigger`.
proof fn lemma_name_trigger()
    ensures
        "trigger"@.len() == 7,
        "trigger"@[0] == 't',
        "trigger"@[1] == 'r',
        "trigger"@[2] == 'i',
        "trigger"@[3] == 'g',
        "trigger"@[4] == 'g',
        "trigger"@[5] == 'e',
        "trigger"@[6] == 'r',
{
    reveal_strlit("trigger");
}

/// The characters of the name `trigger_touched`.
proof fn lemma_name_trigger_touched()
    ensures
        "trigger_touched"@.len() == 15,
        "trigger_touched"@[0] == 't',
        "trigger_touched"@[1] == 'r',
        "trigger_touched"@[2] == 'i',
        "trigger_touched"@[3] == 'g',
        "trigger_touched"@[4] == 'g',
        "trigger_touched"@[5] == 'e',
        "trigger_touched"@[6] == 'r',
        "trigger_touched"@[7] == '_',
        "trigger_touched"@[8] == 't',
        "trigger_touched"@[9] == 'o',
        "trigger_touched"@[10] == 'u',
        "trigger_touched"@[11] == 'c',
        "trigger_touched"@[12] == 'h',
        "trigger_touched"@[13] == 'e',
        "trigger_touched"@[14] == 'd',
{
    reveal_strlit("trigger_touched");
}

/// The characters of the name `haptic_feedback`.
proof fn lemma_name_haptic_feedback()
    ensures
        "haptic_feedback"@.len() == 15,
        "haptic_feedback"@[0] == 'h',
        "haptic_feedback"@[1] == 'a',
        "haptic_feedback"@[2] == 'p',
        "haptic_feedback"@[3] == 't',
        "haptic_feedback"@[4] == 'i',
        "haptic_feedback"@[5] == 'c',
        "haptic_feedback"@[6] == '_',
        "haptic_feedback"@[7] == 'f',
        "haptic_feedback"@[8] == 'e',
        "haptic_feedback"@[9] == 'e',
        "haptic_feedback"@[10] == 'd',
        "haptic_feedback"@[11] == 'b',
        "haptic_feedback"@[12] == 'a',
        "haptic_feedback"@[13] == 'c',
        "haptic_feedback"@[14] == 'k',
{
    reveal_strlit("haptic_feedback");
}

/// The characters of the name `x_button`.
proof fn lemma_name_x_button()
    ensures
        "x_button"@.len() == 8,
        "x_button"@[0] == 'x',
        "x_button"@[1] == '_',
        "x_button"@[2] == 'b',
        "x_button"@[3] == 'u',
        "x_button"@[4] == 't',
        "x_button"@[5] == 't',
        "x_button"@[6] == 'o',
        "x_button"@[7] == 'n',
{
    reveal_strlit("x_button");
}

/// The characters of the name `x_button_touch`.
proof fn lemma_name_x_button_touch()
    ensures
        "x_button_touch"@.len() == 14,
        "x_button_touch"@[0] == 'x',
        "x_button_touch"@[1] == '_',
        "x_button_touch"@[2] == 'b',
        "x_button_touch"@[3] == 'u',
        "x_button_touch"@[4] == 't',
        "x_button_touch"@[5] == 't',
        "x_button_touch"@[6] == 'o',
        "x_button_touch"@[7] == 'n',
        "x_button_touch"@[8] == '_',
        "x_button_touch"@[9] == 't',
        "x_button_touch"@[10] == 'o',
        "x_button_touch"@[11] == 'u',
        "x_button_touch"@[12] == 'c',
        "x_button_touch"@[13] == 'h',
{
    reveal_strlit("x_button_touch");
}

/// The characters of the name `y_button`.
proof fn lemma_name_y_button()
    ensures
        "y_button"@.len() == 8,
        "y_button"@[0] == 'y',
        "y_button"@[1] == '_',
        "y_button"@[2] == 'b',
        "y_button"@[3] == 'u',
        "y_button"@[4] == 't',
        "y_button"@[5] == 't',
        "y_button"@[6] == 'o',
        "y_button"@[7] == 'n',
{
    reveal_strlit("y_button");
}

/// The characters of the name `y_button_touch`.
proof fn lemma_name_y_button_touch()
    ensures
        "y_button_touch"@.len() == 14,
        "y_button_touch"@[0] == 'y',
        "y_button_touch"@[1] == '_',
        "y_button_touch"@[2] == 'b',
        "y_button_touch"@[3] == 'u',
        "y_button_touch"@[4] == 't',
        "y_button_touch"@[5] == 't',
        "y_button_touch"@[6] == 'o',
        "y_button_touch"@[7] == 'n',
        "y_button_touch"@[8] == '_',
        "y_button_touch"@[9] == 't',
        "y_button_touch"@[10] == 'o',
        "y_button_touch"@[11] == 'u',
        "y_button_touch"@[12] == 'c',
        "y_button_touch"@[13] == 'h',
{
    reveal_strlit("y_button_touch");
}

/// The characters of the name `a_button`.
proof fn lemma_name_a_button()
    ensures
        "a_button"@.len() == 8,
        "a_button"@[0] == 'a',
        "a_button"@[1] == '_',
        "a_button"@[2] == 'b',
        "a_button"@[3] == 'u',
        "a_button"@[4] == 't',
        "a_button"@[5] == 't',
        "a_button"@[6] == 'o',
        "a_button"@[7] == 'n',
{
    reveal_strlit("a_button");
}

/// The characters of the name `a_button_touch`.
proof fn lemma_name_a_button_touch()
    ensures
        "a_button_touch"@.len() == 14,
        "a_button_touch"@[0] == 'a',
        "a_button_touch"@[1] == '_',
        "a_button_touch"@[2] == 'b',
        "a_button_touch"@[3] == 'u',
        "a_button_touch"@[4] == 't',
        "a_button_touch"@[5] == 't',
        "a_button_touch"@[6] == 'o',
        "a_button_touch"@[7] == 'n',
        "a_button_touch"@[8] == '_',
        "a_button_touch"@[9] == 't',
        "a_button_touch"@[10] == 'o',
        "a_button_touch"@[11] == 'u',
        "a_button_touch"@[12] == 'c',
        "a_button_touch"@[13] == 'h',
{
    reveal_strlit("a_button_touch");
}

/// The characters of the name `b_button`.
proof fn lemma_name_b_button()
    ensures
        "b_button"@.len() == 8,
        "b_button"@[0] == 'b',
        "b_button"@[1] == '_',
        "b_button"@[2] == 'b',
        "b_button"@[3] == 'u',
        "b_button"@[4] == 't',
        "b_button"@[5] == 't',
        "b_button"@[6] == 'o',
        "b_button"@[7] == 'n',
{
    reveal_strlit("b_button");
}

/// The characters of the name `b_button_touch`.
proof fn lemma_name_b_button_touch()
    ensures
        "b_button_touch"@.len() == 14,
        "b_button_touch"@[0] == 'b',
        "b_button_touch"@[1] == '_',
        "b_button_touch"@[2] == 'b',
        "b_button_touch"@[3] == 'u',
        "b_button_touch"@[4] == 't',
        "b_button_touch"@[5] == 't',
        "b_button_touch"@[6] == 'o',
        "b_button_touch"@[7] == 'n',
        "b_button_touch"@[8] == '_',
        "b_button_touch"@[9] == 't',
        "b_button_touch"@[10] == 'o',
        "b_button_touch"@[11] == 'u',
        "b_button_touch"@[12] == 'c',
        "b_button_touch"@[13] == 'h',
{
    reveal_strlit("b_button_touch");
}

/// The characters of the name `menu_button`.
proof fn lemma_name_menu_button()
    ensures
        "menu_button"@.len() == 11,
        "menu_button"@[0] == 'm',
        "menu_button"@[1] == 'e',
        "menu_button"@[2] == 'n',
        "menu_button"@[3] == 'u',
        "menu_button"@[4] == '_',
        "menu_button"@[5] == 'b',
        "menu_button"@[6] == 'u',
        "menu_button"@[7] == 't',
        "menu_button"@[8] == 't',
        "menu_button"@[9] == 'o',
        "menu_button"@[10] == 'n',
{
    reveal_strlit("menu_button");
}

/// The characters of the name `thumbstick_x`.
proof fn lemma_name_thumbstick_x()
    ensures
        "thumbstick_x"@.len() == 12,
        "thumbstick_x"@[0] == 't',
        "thumbstick_x"@[1] == 'h',
        "thumbstick_x"@[2] == 'u',
        "thumbstick_x"@[3] == 'm',
        "thumbstick_x"@[4] == 'b',
        "thumbstick_x"@[5] == 's',
        "thumbstick_x"@[6] == 't',
        "thumbstick_x"@[7] == 'i',
        "thumbstick_x"@[8] == 'c',
        "thumbstick_x"@[9] == 'k',
        "thumbstick_x"@[10] == '_',
        "thumbstick_x"@[11] == 'x',
{
    reveal_strlit("thumbstick_x");
}

/// The characters of the name `thumbstick_y`.
proof fn lemma_name_thumbstick_y()
    ensures
        "thumbstick_y"@.len() == 12,
        "thumbstick_y"@[0] == 't',
        "thumbstick_y"@[1] == 'h',
        "thumbstick_y"@[2] == 'u',
        "thumbstick_y"@[3] == 'm',
        "thumbstick_y"@[4] == 'b',
        "thumbstick_y"@[5] == 's',
        "thumbstick_y"@[6] == 't',
        "thumbstick_y"@[7] == 'i',
        "thumbstick_y"@[8] == 'c',
        "thumbstick_y"@[9] == 'k',
        "thumbstick_y"@[10] == '_',
        "thumbstick_y"@[11] == 'y',
{
    reveal_strlit("thumbstick_y");
}

/// The characters of the name `thumbstick_touch`.
proof fn lemma_name_thumbstick_touch()
    ensures
        "thumbstick_touch"@.len() == 16,
        "thumbstick_touch"@[0] == 't',
        "thumbstick_touch"@[1] == 'h',
        "thumbstick_touch"@[2] == 'u',
        "thumbstick_touch"@[3] == 'm',
        "thumbstick_touch"@[4] == 'b',
        "thumbstick_touch"@[5] == 's',
        "thumbstick_touch"@[6] == 't',
        "thumbstick_touch"@[7] == 'i',
        "thumbstick_touch"@[8] == 'c',
        "thumbstick_touch"@[9] == 'k',
        "thumbstick_touch"@[10] == '_',
        "thumbstick_touch"@[11] == 't',
        "thumbstick_touch"@[12] == 'o',
        "thumbstick_touch"@[13] == 'u',
        "thumbstick_touch"@[14] == 'c',
        "thumbstick_touch"@[15] == 'h',
{
    reveal_strlit("thumbstick_touch");
}

/// The characters of the name `thumbstick_click`.
proof fn lemma_name_thumbstick_click()
    ensures
        "thumbstick_click"@.len() == 16,
        "thumbstick_click"@[0] == 't',
        "thumbstick_click"@[1] == 'h',
        "thumbstick_click"@[2] == 'u',
        "thumbstick_click"@[3] == 'm',
        "thumbstick_click"@[4] == 'b',
        "thumbstick_click"@[5] == 's',
        "thumbstick_click"@[6] == 't',
        "thumbstick_click"@[7] == 'i',
        "thumbstick_click"@[8] == 'c',
        "thumbstick_click"@[9] == 'k',
        "thumbstick_click"@[10] == '_',
        "thumbstick_click"@[11] == 'c',
        "thumbstick_click"@[12] == 'l',
        "thumbstick_click"@[13] == 'i',
        "thumbstick_click"@[14] == 'c',
        "thumbstick_click"@[15] == 'k',
{
    reveal_strlit("thumbstick_click");
}

/// The characters of the name `thumbrest_touch`.
proof fn lemma_name_thumbrest_touch()
    ensures
        "thumbrest_touch"@.len() == 15,
        "thumbrest_touch"@[0] == 't',
        "thumbrest_touch"@[1] == 'h',
        "thumbrest_touch"@[2] == 'u',
        "thumbrest_touch"@[3] == 'm',
        "thumbrest_touch"@[4] == 'b',
        "thumbrest_touch"@[5] == 'r',
        "thumbrest_touch"@[6] == 'e',
        "thumbrest_touch"@[7] == 's',
        "thumbrest_touch"@[8] == 't',
        "thumbrest_touch"@[9] == '_',
        "thumbrest_touch"@[10] == 't',
        "thumbrest_touch"@[11] == 'o',
        "thumbrest_touch"@[12] == 'u',
        "thumbrest_touch"@[13] == 'c',
        "thumbrest_touch"@[14] == 'h',
{
    reveal_strlit("thumbrest_touch");
}

/// The controller's action set declares no name twice, and each of its
/// actions with the type and handedness it is read with.
pub proof fn lemma_oculus_touch_kinds()
    ensures
        distinct_keys(oculus_touch_input().actions),
        oculus_touch_input().declared_as("hand_pose"@) == Some(
            (ActionType::PoseF, ActionHandednes::Double),
        ),
        oculus_touch_input().declared_as("pointer_pose"@) == Some(
            (ActionType::PoseF, ActionHandednes::Double),
        ),
        oculus_touch_input().declared_as("squeeze"@) == Some(
            (ActionType::F32, ActionHandednes::Double),
        ),
        oculus_touch_input().declared_as("trigger"@) == Some(
            (ActionType::F32, ActionHandednes::Double),
        ),
        oculus_touch_input().declared_as("trigger_touched"@) == Some(
            (ActionType::Bool, ActionHandednes::Double),
        ),
        oculus_touch_input().declared_as("haptic_feedback"@) == Some(
            (ActionType::Haptic, ActionHandednes::Double),
        ),
        oculus_touch_input().declared_as("x_button"@) == Some(
            (ActionType::Bool, ActionHandednes::Single),
        ),
        oculus_touch_input().declared_as("x_button_touch"@) == Some(
            (ActionType::Bool, ActionHandednes::Single),
        ),
        oculus_touch_input().declared_as("y_button"@) == Some(
            (ActionType::Bool, ActionHandednes::Single),
        ),
        oculus_touch_input().declared_as("y_button_touch"@) == Some(
            (ActionType::Bool, ActionHandednes::Single),
        ),
        oculus_touch_input().declared_as("a_button"@) == Some(
            (ActionType::Bool, ActionHandednes::Single),
        ),
        oculus_touch_input().declared_as("a_button_touch"@) == Some(
            (ActionType::Bool, ActionHandednes::Single),
        ),
        oculus_touch_input().declared_as("b_button"@) == Some(
            (ActionType::Bool, ActionHandednes::Single),
        ),
        oculus_touch_input().declared_as("b_button_touch"@) == Some(
            (ActionType::Bool, ActionHandednes::Single),
        ),
        oculus_touch_input().declared_as("menu_button"@) == Some(
            (ActionType::Bool, ActionHandednes::Single),
        ),
        oculus_touch_input().declared_as("thumbstick_x"@) == Some(
            (ActionType::F32, ActionHandednes::Double),
        ),
        oculus_touch_input().declared_as("thumbstick_y"@) == Some(
            (ActionType::F32, ActionHandednes::Double),
        ),
        oculus_touch_input().declared_as("thumbstick_touch"@) == Some(
            (ActionType::Bool, ActionHandednes::Double),
        ),
        oculus_touch_input().declared_as("thumbstick_click"@) == Some(
            (ActionType::Bool, ActionHandednes::Double),
        ),
        oculus_touch_input().declared_as("thumbrest_touch"@) == Some(
            (ActionType::Bool, ActionHandednes::Double),
        ),
{
    lemma_oculus_touch_has_kinds();
    let input = oculus_touch_input();
    let kinds = oculus_touch_kinds();
    lemma_name_hand_pose();
    lemma_name_pointer_pose();
    lemma_name_squeeze();
    lemma_name_trigger();
    lemma_name_trigger_touched();
    lemma_name_haptic_feedback();
    lemma_name_x_button();
    lemma_name_x_button_touch();
    lemma_name_y_button();
    lemma_name_y_button_touch();
    lemma_name_a_button();
    lemma_name_a_button_touch();
    lemma_name_b_button();
    lemma_name_b_button_touch();
    lemma_name_menu_button();
    lemma_name_thumbstick_x();
    lemma_name_thumbstick_y();
    lemma_name_thumbstick_touch();
    lemma_name_thumbstick_click();
    lemma_name_thumbrest_touch();
    assert(kinds.contains_key("hand_pose"@) && kinds["hand_pose"@] == (
        ActionType::PoseF,
        ActionHandednes::Double,
    ));
    input.lemma_kind_of(kinds, "hand_pose"@);
    assert(kinds.contains_key("pointer_pose"@) && kinds["pointer_pose"@] == (
        ActionType::PoseF,
        ActionHandednes::Double,
    ));
    input.lemma_kind_of(kinds, "pointer_pose"@);
    assert(kinds.contains_key("squeeze"@) && kinds["squeeze"@] == (
        ActionType::F32,
        ActionHandednes::Double,
    ));
    input.lemma_kind_of(kinds, "squeeze"@);
    assert(kinds.contains_key("trigger"@) && kinds["trigger"@] == (
        ActionType::F32,
        ActionHandednes::Double,
    ));
    input.lemma_kind_of(kinds, "trigger"@);
    assert(kinds.contains_key("trigger_touched"@) && kinds["trigger_touched"@] == (
        ActionType::Bool,
        ActionHandednes::Double,
    ));
    input.lemma_kind_of(kinds, "trigger_touched"@);
    assert(kinds.contains_key("haptic_feedback"@) && kinds["haptic_feedback"@] == (
        ActionType::Haptic,
        ActionHandednes::Double,
    ));
    input.lemma_kind_of(kinds, "haptic_feedback"@);
    assert(kinds.contains_key("x_button"@) && kinds["x_button"@] == (
        ActionType::Bool,
        ActionHandednes::Single,
    ));
    input.lemma_kind_of(kinds, "x_button"@);
    assert(kinds.contains_key("x_button_touch"@) && kinds["x_button_touch"@] == (
        ActionType::Bool,
        ActionHandednes::Single,
    ));
    input.lemma_kind_of(kinds, "x_button_touch"@);
    assert(kinds.contains_key("y_button"@) && kinds["y_button"@] == (
        ActionType::Bool,
        ActionHandednes::Single,
    ));
    input.lemma_kind_of(kinds, "y_button"@);
    assert(kinds.contains_key("y_button_touch"@) && kinds["y_button_touch"@] == (
        ActionType::Bool,
        ActionHandednes::Single,
    ));
    input.lemma_kind_of(kinds, "y_button_touch"@);
    assert(kinds.contains_key("a_button"@) && kinds["a_button"@] == (
        ActionType::Bool,
        ActionHandednes::Single,
    ));
    input.lemma_kind_of(kinds, "a_button"@);
    assert(kinds.contains_key("a_button_touch"@) && kinds["a_button_touch"@] == (
        ActionType::Bool,
        ActionHandednes::Single,
    ));
    input.lemma_kind_of(kinds, "a_button_touch"@);
    assert(kinds.contains_key("b_button"@) && kinds["b_button"@] == (
        ActionType::Bool,
        ActionHandednes::Single,
    ));
    input.lemma_kind_of(kinds, "b_button"@);
    assert(kinds.contains_key("b_button_touch"@) && kinds["b_button_touch"@] == (
        ActionType::Bool,
        ActionHandednes::Single,
    ));
    input.lemma_kind_of(kinds, "b_button_touch"@);
    assert(kinds.contains_key("menu_button"@) && kinds["menu_button"@] == (
        ActionType::Bool,
        ActionHandednes::Single,
    ));
    input.lemma_kind_of(kinds, "menu_button"@);
    assert(kinds.contains_key("thumbstick_x"@) && kinds["thumbstick_x"@] == (
        ActionType::F32,
        ActionHandednes::Double,
    ));
    input.lemma_kind_of(kinds, "thumbstick_x"@);
    assert(kinds.contains_key("thumbstick_y"@) && kinds["thumbstick_y"@] == (
        ActionType::F32,
        ActionHandednes::Double,
    ));
    input.lemma_kind_of(kinds, "thumbstick_y"@);
    assert(kinds.contains_key("thumbstick_touch"@) && kinds["thumbstick_touch"@] == (
        ActionType::Bool,
        ActionHandednes::Double,
    ));
    input.lemma_kind_of(kinds, "thumbstick_touch"@);
    assert(kinds.contains_key("thumbstick_click"@) && kinds["thumbstick_click"@] == (
        ActionType::Bool,
        ActionHandednes::Double,
    ));
    input.lemma_kind_of(kinds, "thumbstick_click"@);
    assert(kinds.contains_key("thumbrest_touch"@) && kinds["thumbrest_touch"@] == (
        ActionType::Bool,
        ActionHandednes::Double,
    ));
    input.lemma_kind_of(kinds, "thumbrest_touch"@);
}

/// Whether the controller can be read: each of its actions answers under
/// the type it is read with.
pub open spec fn controller_set_up(sets: Seq<(Seq<char>, ResolvedSetModel)>) -> bool {
    &&& find_action_of_type(sets, OCULUS_INPUT@, "hand_pose"@, ActionType::PoseF) is Ok
    &&& find_action_of_type(sets, OCULUS_INPUT@, "pointer_pose"@, ActionType::PoseF) is Ok
    &&& find_action_of_type(sets, OCULUS_INPUT@, "squeeze"@, ActionType::F32) is Ok
    &&& find_action_of_type(sets, OCULUS_INPUT@, "trigger"@, ActionType::F32) is Ok
    &&& find_action_of_type(sets, OCULUS_INPUT@, "trigger_touched"@, ActionType::Bool) is Ok
    &&& find_action_of_type(sets, OCULUS_INPUT@, "haptic_feedback"@, ActionType::Haptic) is Ok
    &&& find_action_of_type(sets, OCULUS_INPUT@, "x_button"@, ActionType::Bool) is Ok
    &&& find_action_of_type(sets, OCULUS_INPUT@, "x_button_touch"@, ActionType::Bool) is Ok
    &&& find_action_of_type(sets, OCULUS_INPUT@, "y_button"@, ActionType::Bool) is Ok
    &&& find_action_of_type(sets, OCULUS_INPUT@, "y_button_touch"@, ActionType::Bool) is Ok
    &&& find_action_of_type(sets, OCULUS_INPUT@, "a_button"@, ActionType::Bool) is Ok
    &&& find_action_of_type(sets, OCULUS_INPUT@, "a_button_touch"@, ActionType::Bool) is Ok
    &&& find_action_of_type(sets, OCULUS_INPUT@, "b_button"@, ActionType::Bool) is Ok
    &&& find_action_of_type(sets, OCULUS_INPUT@, "b_button_touch"@, ActionType::Bool) is Ok
    &&& find_action_of_type(sets, OCULUS_INPUT@, "menu_button"@, ActionType::Bool) is Ok
    &&& find_action_of_type(sets, OCULUS_INPUT@, "thumbstick_x"@, ActionType::F32) is Ok
    &&& find_action_of_type(sets, OCULUS_INPUT@, "thumbstick_y"@, ActionType::F32) is Ok
    &&& find_action_of_type(sets, OCULUS_INPUT@, "thumbstick_touch"@, ActionType::Bool) is Ok
    &&& find_action_of_type(sets, OCULUS_INPUT@, "thumbstick_click"@, ActionType::Bool) is Ok
    &&& find_action_of_type(sets, OCULUS_INPUT@, "thumbrest_touch"@, ActionType::Bool) is Ok
}

/// Once the controller is declared and the declarations are set up, the
/// controller can be read: whatever else was declared, none of its reads
/// fails.
pub proof fn lemma_controller_set_up(declared: Seq<(Seq<char>, ActionSetModel)>)
    requires
        distinct_keys(declared),
        value_of(declared, OCULUS_INPUT@) == Some(oculus_touch_input()),
    ensures
        controller_set_up(resolved_sets(declared)),
{
    lemma_oculus_touch_kinds();
    lemma_declared_kind_resolves(
        declared,
        OCULUS_INPUT@,
        "hand_pose"@,
        ActionType::PoseF,
        ActionHandednes::Double,
    );
    lemma_declared_kind_resolves(
        declared,
        OCULUS_INPUT@,
        "pointer_pose"@,
        ActionType::PoseF,
        ActionHandednes::Double,
    );
    lemma_declared_kind_resolves(
        declared,
        OCULUS_INPUT@,
        "squeeze"@,
        ActionType::F32,
        ActionHandednes::Double,
    );
    lemma_declared_kind_resolves(
        declared,
        OCULUS_INPUT@,
        "trigger"@,
        ActionType::F32,
        ActionHandednes::Double,
    );
    lemma_declared_kind_resolves(
        declared,
        OCULUS_INPUT@,
        "trigger_touched"@,
        ActionType::Bool,
        ActionHandednes::Double,
    );
    lemma_declared_kind_resolves(
        declared,
        OCULUS_INPUT@,
        "haptic_feedback"@,
        ActionType::Haptic,
        ActionHandednes::Double,
    );
    lemma_declared_kind_resolves(
        declared,
        OCULUS_INPUT@,
        "x_button"@,
        ActionType::Bool,
        ActionHandednes::Single,
    );
    lemma_declared_kind_resolves(
        declared,
        OCULUS_INPUT@,
        "x_button_touch"@,
        ActionType::Bool,
        ActionHandednes::Single,
    );
    lemma_declared_kind_resolves(
        declared,
        OCULUS_INPUT@,
        "y_button"@,
        ActionType::Bool,
        ActionHandednes::Single,
    );
    lemma_declared_kind_resolves(
        declared,
        OCULUS_INPUT@,
        "y_button_touch"@,
        ActionType::Bool,
        ActionHandednes::Single,
    );
    lemma_declared_kind_resolves(
        declared,
        OCULUS_INPUT@,
        "a_button"@,
        ActionType::Bool,
        ActionHandednes::Single,
    );
    lemma_declared_kind_resolves(
        declared,
        OCULUS_INPUT@,
        "a_button_touch"@,
        ActionType::Bool,
        ActionHandednes::Single,
    );
    lemma_declared_kind_resolves(
        declared,
        OCULUS_INPUT@,
        "b_button"@,
        ActionType::Bool,
        ActionHandednes::Single,
    );
    lemma_declared_kind_resolves(
        declared,
        OCULUS_INPUT@,
        "b_button_touch"@,
        ActionType::Bool,
        ActionHandednes::Single,
    );
    lemma_declared_kind_resolves(
        declared,
        OCULUS_INPUT@,
        "menu_button"@,
        ActionType::Bool,
        ActionHandednes::Single,
    );
    lemma_declared_kind_resolves(
        declared,
        OCULUS_INPUT@,
        "thumbstick_x"@,
        ActionType::F32,
        ActionHandednes::Double,
    );
    lemma_declared_kind_resolves(
        declared,
        OCULUS_INPUT@,
        "thumbstick_y"@,
        ActionType::F32,
        ActionHandednes::Double,
    );
    lemma_declared_kind_resolves(
        declared,
        OCULUS_INPUT@,
        "thumbstick_touch"@,
        ActionType::Bool,
        ActionHandednes::Double,
    );
    lemma_declared_kind_resolves(
        declared,
        OCULUS_INPUT@,
        "thumbstick_click"@,
        ActionType::Bool,
        ActionHandednes::Double,
    );
    lemma_declared_kind_resolves(
        declared,
        OCULUS_INPUT@,
        "thumbrest_touch"@,
        ActionType::Bool,
        ActionHandednes::Double,
    );
}

/// The action sets that were created, by their positions: the sets that
/// are synced every tick.
pub struct ActionSets(pub Vec<usize>);

/// Keeps the runtime's paths of the two hands for the rest of the session.
pub fn init_subaction_path(left: u64, right: u64) -> (paths: SubactionPaths)
    ensures
        paths == (SubactionPaths { left, right }),
{
    SubactionPaths { left, right }
}

/// The runtime's path of a hand.
pub fn subaction_path(paths: &SubactionPaths, hand: Hand) -> (path: u64)
    ensures
        path == paths.of(hand),
{
    match hand {
        Hand::Left => paths.left,
        Hand::Right => paths.right,
    }
}

/// The space of a pose action for one hand.
#[derive(Clone, Copy, Debug, PartialEq, Eq, Structural)]
pub struct ActionSpace {
    pub action: ActionHandle,
    pub hand: Hand,
}

/// The spaces of a pose action for the two hands.
pub open spec fn spaces_of(action: ActionHandle) -> Handed<ActionSpace> {
    Handed {
        left: ActionSpace { action, hand: Hand::Left },
        right: ActionSpace { action, hand: Hand::Right },
    }
}

/// The spaces of the controller, once they are set up: where it is
/// gripped and where it points, each for the two hands.
pub struct OculusController {
    pub grip_space: Option<Handed<ActionSpace>>,
    pub aim_space: Option<Handed<ActionSpace>>,
}

/// Declares the controller's actions in `action_set`.
fn declare_oculus_touch_actions(action_set: &mut SetupActionSet)
    requires
        old(action_set).wf(),
        old(action_set)@ == empty_action_set("Oculus Touch Controller Input"@, 0),
    ensures
        final(action_set).wf(),
        final(action_set)@ == oculus_touch_actions(),
{
    action_set.new_action(
        "hand_pose",
        "Hand Pose".to_owned(),
        ActionType::PoseF,
        ActionHandednes::Double,
    );
    action_set.new_action(
        "pointer_pose",
        "Pointer Pose".to_owned(),
        ActionType::PoseF,
        ActionHandednes::Double,
    );
    action_set.new_action(
        "squeeze",
        "Grip Pull".to_owned(),
        ActionType::F32,
        ActionHandednes::Double,
    );
    action_set.new_action(
        "trigger",
        "Trigger Pull".to_owned(),
        ActionType::F32,
        ActionHandednes::Double,
    );
    action_set.new_action(
        "trigger_touched",
        "Trigger Touch".to_owned(),
        ActionType::Bool,
        ActionHandednes::Double,
    );
    action_set.new_action(
        "haptic_feedback",
        "Haptic Feedback".to_owned(),
        ActionType::Haptic,
        ActionHandednes::Double,
    );
    action_set.new_action(
        "x_button",
        "X Button".to_owned(),
        ActionType::Bool,
        ActionHandednes::Single,
    );
    action_set.new_action(
        "x_button_touch",
        "X Button Touch".to_owned(),
        ActionType::Bool,
        ActionHandednes::Single,
    );
    action_set.new_action(
        "y_button",
        "Y Button".to_owned(),
        ActionType::Bool,
        ActionHandednes::Single,
    );
    action_set.new_action(
        "y_button_touch",
        "Y Button Touch".to_owned(),
        ActionType::Bool,
        ActionHandednes::Single,
    );
    action_set.new_action(
        "a_button",
        "A Button".to_owned(),
        ActionType::Bool,
        ActionHandednes::Single,
    );
    action_set.new_action(
        "a_button_touch",
        "A Button Touch".to_owned(),
        ActionType::Bool,
        ActionHandednes::Single,
    );
    action_set.new_action(
        "b_button",
        "B Button".to_owned(),
        ActionType::Bool,
        ActionHandednes::Single,
    );
    action_set.new_action(
        "b_button_touch",
        "B Button Touch".to_owned(),
        ActionType::Bool,
        ActionHandednes::Single,
    );
    action_set.new_action(
        "menu_button",
        "Menu Button".to_owned(),
        ActionType::Bool,
        ActionHandednes::Single,
    );
    action_set.new_action(
        "thumbstick_x",
        "Thumbstick X".to_owned(),
        ActionType::F32,
        ActionHandednes::Double,
    );
    action_set.new_action(
        "thumbstick_y",
        "Thumbstick y".to_owned(),
        ActionType::F32,
        ActionHandednes::Double,
    );
    action_set.new_action(
        "thumbstick_touch",
        "Thumbstick Touch".to_owned(),
        ActionType::Bool,
        ActionHandednes::Double,
    );
    action_set.new_action(
        "thumbstick_click",
        "Thumbstick Click".to_owned(),
        ActionType::Bool,
        ActionHandednes::Double,
    );
    action_set.new_action(
        "thumbrest_touch",
        "Thumbrest Touch".to_owned(),
        ActionType::Bool,
        ActionHandednes::Double,
    );
}

impl OculusController {
    /// Declares the controller's action set, `oculus_input`, with its
    /// actions and the bindings for the Oculus Touch profile. A set of that
    /// name declared before is replaced.
    pub fn new(action_sets: &mut SetupActionSets) -> (controller: Result<
        OculusController,
        ActionError,
    >)
        requires
            old(action_sets).wf(),
        ensures
            final(action_sets).wf(),
            controller is Ok,
            controller->Ok_0.grip_space is None,
            controller->Ok_0.aim_space is None,
            final(action_sets)@ == upsert(old(action_sets)@, OCULUS_INPUT@, oculus_touch_input()),
    {
        let action_set = action_sets.add_action_set(
            OCULUS_INPUT,
            "Oculus Touch Controller Input".to_owned(),
            0,
        );
        declare_oculus_touch_actions(action_set);
        let this = OculusController { grip_space: None, aim_space: None };
        let bindings = [
            XrBinding::new("hand_pose", "/user/hand/left/input/grip/pose"),
            XrBinding::new("hand_pose", "/user/hand/right/input/grip/pose"),
            XrBinding::new("pointer_pose", "/user/hand/left/input/aim/pose"),
            XrBinding::new("pointer_pose", "/user/hand/right/input/aim/pose"),
            XrBinding::new("squeeze", "/user/hand/left/input/squeeze/value"),
            XrBinding::new("squeeze", "/user/hand/right/input/squeeze/value"),
            XrBinding::new("trigger", "/user/hand/left/input/trigger/value"),
            XrBinding::new("trigger", "/user/hand/right/input/trigger/value"),
            XrBinding::new("trigger_touched", "/user/hand/left/input/trigger/touch"),
            XrBinding::new("trigger_touched", "/user/hand/right/input/trigger/touch"),
            XrBinding::new("haptic_feedback", "/user/hand/left/output/haptic"),
            XrBinding::new("haptic_feedback", "/user/hand/right/output/haptic"),
            XrBinding::new("x_button", "/user/hand/left/input/x/click"),
            XrBinding::new("x_button_touch", "/user/hand/left/input/x/touch"),
            XrBinding::new("y_button", "/user/hand/left/input/y/click"),
            XrBinding::new("y_button_touch", "/user/hand/left/input/y/touch"),
            XrBinding::new("a_button", "/user/hand/right/input/a/click"),
            XrBinding::new("a_button_touch", "/user/hand/right/input/a/touch"),
            XrBinding::new("b_button", "/user/hand/right/input/b/click"),
            XrBinding::new("b_button_touch", "/user/hand/right/input/b/touch"),
            XrBinding::new("menu_button", "/user/hand/left/input/menu/click"),
            XrBinding::new("thumbstick_x", "/user/hand/left/input/thumbstick/x"),
            XrBinding::new("thumbstick_y", "/user/hand/left/input/thumbstick/y"),
            XrBinding::new("thumbstick_x", "/user/hand/right/input/thumbstick/x"),
            XrBinding::new("thumbstick_y", "/user/hand/right/input/thumbstick/y"),
            XrBinding::new("thumbstick_click", "/user/hand/left/input/thumbstick/click"),
            XrBinding::new("thumbstick_click", "/user/hand/right/input/thumbstick/click"),
            XrBinding::new("thumbstick_touch", "/user/hand/left/input/thumbstick/touch"),
            XrBinding::new("thumbstick_touch", "/user/hand/right/input/thumbstick/touch"),
            XrBinding::new("thumbrest_touch", "/user/hand/left/input/thumbrest/touch"),
            XrBinding::new("thumbrest_touch", "/user/hand/right/input/thumbrest/touch"),
        ];
        proof {
            assert(binding_pairs(bindings@) =~= oculus_touch_bindings());
            lemma_oculus_touch_bindings_declared();
        }
        action_set.suggest_binding(OCULUS_TOUCH_PROFILE, &bindings);
        Ok(this)
    }

    /// What reads the controller: its spaces, the registry of the actions,
    /// the hands' paths and the readings of the last sync.
    pub fn get_ref<'a>(
        &'a self,
        action_sets: &'a XrActionSets,
        paths: &'a SubactionPaths,
        input: &'a InputSnapshot,
    ) -> (controller: OculusControllerRef<'a>)
        requires
            action_sets.wf(),
        ensures
            controller.wf(),
            controller.oculus_controller == self,
            controller.action_sets == action_sets,
            controller.paths == paths,
            controller.input == input,
    {
        OculusControllerRef { oculus_controller: self, action_sets, paths, input }
    }
}

/// Declares the controller's actions and bindings.
pub fn setup_oculus_controller(action_sets: &mut SetupActionSets) -> (controller: Result<
    OculusController,
    ActionError,
>)
    requires
        old(action_sets).wf(),
    ensures
        final(action_sets).wf(),
        controller is Ok,
        controller->Ok_0.grip_space is None,
        controller->Ok_0.aim_space is None,
        final(action_sets)@ == upsert(old(action_sets)@, OCULUS_INPUT@, oculus_touch_input()),
{
    OculusController::new(action_sets)
}

/// What the controller's spaces are once the actions are set up: the grip
/// spaces belong to the action `hand_pose`, the aim spaces to
/// `pointer_pose`; or the error of asking for one of the two as a pose.
pub open spec fn controller_spaces(sets: Seq<(Seq<char>, ResolvedSetModel)>) -> Result<
    (Handed<ActionSpace>, Handed<ActionSpace>),
    ActionError,
> {
    match find_action_of_type(sets, OCULUS_INPUT@, "hand_pose"@, ActionType::PoseF) {
        Err(error) => Err(error),
        Ok(grip) => match find_action_of_type(
            sets,
            OCULUS_INPUT@,
            "pointer_pose"@,
            ActionType::PoseF,
        ) {
            Err(error) => Err(error),
            Ok(aim) => Ok((spaces_of(grip), spaces_of(aim))),
        },
    }
}

/// Sets the controller's spaces up, after the actions are: one space per
/// hand for the grip and one per hand for the aim. Where one of the two
/// pose actions cannot be had, the controller stays as it was.
pub fn post_action_setup_oculus_controller(
    action_sets: &XrActionSets,
    controller: &mut OculusController,
) -> (done: Result<(), ActionError>)
    requires
        action_sets.wf(),
    ensures
        controller_set_up(action_sets@) ==> done is Ok,
        match controller_spaces(action_sets@) {
            Ok((grip, aim)) => {
                &&& done is Ok
                &&& final(controller).grip_space == Some(grip)
                &&& final(controller).aim_space == Some(aim)
            },
            Err(error) => {
                &&& done == Err::<(), ActionError>(error)
                &&& *final(controller) == *old(controller)
            },
        },
{
    let grip = match action_sets.get_action_posef(OCULUS_INPUT, "hand_pose") {
        Ok(action) => action,
        Err(error) => {
            return Err(error);
        },
    };
    let aim = match action_sets.get_action_posef(OCULUS_INPUT, "pointer_pose") {
        Ok(action) => action,
        Err(error) => {
            return Err(error);
        },
    };
    controller.grip_space = Some(
        Handed {
            left: ActionSpace { action: grip, hand: Hand::Left },
            right: ActionSpace { action: grip, hand: Hand::Right },
        },
    );
    controller.aim_space = Some(
        Handed {
            left: ActionSpace { action: aim, hand: Hand::Left },
            right: ActionSpace { action: aim, hand: Hand::Right },
        },
    );
    Ok(())
}

/// The position of the thumbstick, by the bits of its two axes, and
/// whether it is pressed.
#[derive(Clone, Copy, Debug, PartialEq, Eq, Structural)]
pub struct Thumbstick {
    pub x: u32,
    pub y: u32,
    pub click: bool,
}

/// A view of the controller for reading it.
pub struct OculusControllerRef<'a> {
    pub oculus_controller: &'a OculusController,
    pub action_sets: &'a XrActionSets,
    pub paths: &'a SubactionPaths,
    pub input: &'a InputSnapshot,
}

impl OculusControllerRef<'_> {
    /// Well-formedness: the registry that is read through is well-formed.
    pub open spec fn wf(&self) -> bool {
        self.action_sets.wf()
    }

    /// Whether the controller's actions were set up: then no read fails.
    pub open spec fn set_up(&self) -> bool {
        controller_set_up(self.action_sets@)
    }

    /// What the button `action_name` of the controller reads as.
    pub open spec fn button(&self, action_name: Seq<char>, hand: Option<Hand>) -> Result<
        bool,
        ActionError,
    > {
        match read(
            self.action_sets@,
            *self.paths,
            self.input@,
            OCULUS_INPUT@,
            action_name,
            hand,
            ActionType::Bool,
        ) {
            Ok(found) => Ok(bool_state(found)),
            Err(error) => Err(error),
        }
    }

    /// What the axis `action_name` of the controller reads as.
    pub open spec fn axis(&self, action_name: Seq<char>, hand: Option<Hand>) -> Result<
        u32,
        ActionError,
    > {
        match read(
            self.action_sets@,
            *self.paths,
            self.input@,
            OCULUS_INPUT@,
            action_name,
            hand,
            ActionType::F32,
        ) {
            Ok(found) => Ok(f32_state(found)),
            Err(error) => Err(error),
        }
    }

    fn get_button_state(&self, action_name: &'static str, hand: Option<Hand>) -> (state: Result<
        bool,
        ActionError,
    >)
        requires
            self.wf(),
        ensures
            state == self.button(action_name@, hand),
    {
        self.input.get_bool(self.action_sets, self.paths, OCULUS_INPUT, action_name, hand)
    }

    fn get_axis_state(&self, action_name: &'static str, hand: Option<Hand>) -> (state: Result<
        u32,
        ActionError,
    >)
        requires
            self.wf(),
        ensures
            state == self.axis(action_name@, hand),
    {
        self.input.get_f32(self.action_sets, self.paths, OCULUS_INPUT, action_name, hand)
    }

    /// The space a hand grips the controller in, once the spaces are set up.
    pub fn grip_space(&self, hand: Hand) -> (space: Option<ActionSpace>)
        ensures
            space == (match self.oculus_controller.grip_space {
                Some(spaces) => Some(spaces.of(hand)),
                None => None,
            }),
    {
        match &self.oculus_controller.grip_space {
            Some(spaces) => Some(*spaces.get(hand)),
            None => None,
        }
    }

    /// The space a hand's controller points in, once the spaces are set up.
    pub fn aim_space(&self, hand: Hand) -> (space: Option<ActionSpace>)
        ensures
            space == (match self.oculus_controller.aim_space {
                Some(spaces) => Some(spaces.of(hand)),
                None => None,
            }),
    {
        match &self.oculus_controller.aim_space {
            Some(spaces) => Some(*spaces.get(hand)),
            None => None,
        }
    }

    pub fn squeeze(&self, hand: Hand) -> (state: Result<u32, ActionError>)
        requires
            self.wf(),
        ensures
            state == self.axis("squeeze"@, Some(hand)),
            self.set_up() ==> state is Ok,
    {
        self.get_axis_state("squeeze", Some(hand))
    }

    pub fn trigger(&self, hand: Hand) -> (state: Result<u32, ActionError>)
        requires
            self.wf(),
        ensures
            state == self.axis("trigger"@, Some(hand)),
            self.set_up() ==> state is Ok,
    {
        self.get_axis_state("trigger", Some(hand))
    }

    pub fn trigger_touched(&self, hand: Hand) -> (state: Result<bool, ActionError>)
        requires
            self.wf(),
        ensures
            state == self.button("trigger_touched"@, Some(hand)),
            self.set_up() ==> state is Ok,
    {
        self.get_button_state("trigger_touched", Some(hand))
    }

    pub fn x_button(&self) -> (state: Result<bool, ActionError>)
        requires
            self.wf(),
        ensures
            state == self.button("x_button"@, None),
            self.set_up() ==> state is Ok,
    {
        self.get_button_state("x_button", None)
    }

    pub fn x_button_touched(&self) -> (state: Result<bool, ActionError>)
        requires
            self.wf(),
        ensures
            state == self.button("x_button_touch"@, None),
            self.set_up() ==> state is Ok,
    {
        self.get_button_state("x_button_touch", None)
    }

    pub fn y_button(&self) -> (state: Result<bool, ActionError>)
        requires
            self.wf(),
        ensures
            state == self.button("y_button"@, None),
            self.set_up() ==> state is Ok,
    {
        self.get_button_state("y_button", None)
    }

    pub fn y_button_touched(&self) -> (state: Result<bool, ActionError>)
        requires
            self.wf(),
        ensures
            state == self.button("y_button_touch"@, None),
            self.set_up() ==> state is Ok,
    {
        self.get_button_state("y_button_touch", None)
    }

    pub fn menu_button(&self) -> (state: Result<bool, ActionError>)
        requires
            self.wf(),
        ensures
            state == self.button("menu_button"@, None),
            self.set_up() ==> state is Ok,
    {
        self.get_button_state("menu_button", None)
    }

    pub fn a_button(&self) -> (state: Result<bool, ActionError>)
        requires
            self.wf(),
        ensures
            state == self.button("a_button"@, None),
            self.set_up() ==> state is Ok,
    {
        self.get_button_state("a_button", None)
    }

    pub fn a_button_touched(&self) -> (state: Result<bool, ActionError>)
        requires
            self.wf(),
        ensures
            state == self.button("a_button_touch"@, None),
            self.set_up() ==> state is Ok,
    {
        self.get_button_state("a_button_touch", None)
    }

    pub fn b_button(&self) -> (state: Result<bool, ActionError>)
        requires
            self.wf(),
        ensures
            state == self.button("b_button"@, None),
            self.set_up() ==> state is Ok,
    {
        self.get_button_state("b_button", None)
    }

    pub fn b_button_touched(&self) -> (state: Result<bool, ActionError>)
        requires
            self.wf(),
        ensures
            state == self.button("b_button_touch"@, None),
            self.set_up() ==> state is Ok,
    {
        self.get_button_state("b_button_touch", None)
    }

    pub fn thumbstick_touch(&self, hand: Hand) -> (state: Result<bool, ActionError>)
        requires
            self.wf(),
        ensures
            state == self.button("thumbstick_touch"@, Some(hand)),
            self.set_up() ==> state is Ok,
    {
        self.get_button_state("thumbstick_touch", Some(hand))
    }

    /// What the thumbstick of a hand reads as: its two axes and its click,
    /// or the first error among the three reads, in this order.
    pub open spec fn stick(&self, hand: Hand) -> Result<Thumbstick, ActionError> {
        match self.axis("thumbstick_x"@, Some(hand)) {
            Err(error) => Err(error),
            Ok(x) => match self.axis("thumbstick_y"@, Some(hand)) {
                Err(error) => Err(error),
                Ok(y) => match self.button("thumbstick_click"@, Some(hand)) {
                    Err(error) => Err(error),
                    Ok(click) => Ok(Thumbstick { x, y, click }),
                },
            },
        }
    }

    pub fn thumbstick(&self, hand: Hand) -> (state: Result<Thumbstick, ActionError>)
        requires
            self.wf(),
        ensures
            state == self.stick(hand),
            self.set_up() ==> state is Ok,
    {
        let x = match self.get_axis_state("thumbstick_x", Some(hand)) {
            Ok(x) => x,
            Err(error) => {
                return Err(error);
            },
        };
        let y = match self.get_axis_state("thumbstick_y", Some(hand)) {
            Ok(y) => y,
            Err(error) => {
                return Err(error);
            },
        };
        match self.get_button_state("thumbstick_click", Some(hand)) {
            Ok(click) => Ok(Thumbstick { x, y, click }),
            Err(error) => Err(error),
        }
    }

    pub fn thumbrest_touch(&self, hand: Hand) -> (state: Result<bool, ActionError>)
        requires
            self.wf(),
        ensures
            state == self.button("thumbrest_touch"@, Some(hand)),
            self.set_up() ==> state is Ok,
    {
        self.get_button_state("thumbrest_touch", Some(hand))
    }
}

} // verus!
