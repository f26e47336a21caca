use bevy_oxr::xr_input::actions::{
    setup_oxr_actions, ActionError, ActionHandednes, ActionHandle, ActionSetup, ActionType,
    SetupActionSets, TypedAction, NULL_PATH,
};
use bevy_oxr::xr_input::controllers::Handed;
use bevy_oxr::xr_input::hands::emulated::{
    finger_curls, is_emulated, setup_hand_emulation_action_set, suggest_oculus_touch_profile,
    FingerCurls, HAND_ACTION_SET,
};
use bevy_oxr::xr_input::hands::BoneTrackingStatus;
use bevy_oxr::xr_input::oculus_touch::{
    post_action_setup_oculus_controller, setup_oculus_controller, ActionSpace, OculusController,
    Thumbstick, OCULUS_INPUT, OCULUS_TOUCH_PROFILE,
};
use bevy_oxr::xr_input::resolver::{ActionReading, ActionValue, InputSnapshot, SubactionPaths};
use bevy_oxr::xr_input::Hand;

const PATHS: SubactionPaths = SubactionPaths { left: 100, right: 200 };

fn oculus_setup() -> (OculusController, ActionSetup) {
    let mut declared = SetupActionSets::new();
    let controller = OculusController::new(&mut declared).unwrap();
    (controller, setup_oxr_actions(declared))
}

fn position_of(setup: &ActionSetup, name: &str) -> usize {
    setup.sets[0].actions.iter().position(|action| action.name == name).unwrap()
}

fn reading(setup: &ActionSetup, name: &str, path: u64, value: ActionValue) -> ActionReading {
    ActionReading { set: 0, action: position_of(setup, name), path, value }
}

#[test]
fn the_controller_declares_its_action_set() {
    let (controller, setup) = oculus_setup();
    assert!(controller.grip_space.is_none());
    assert!(controller.aim_space.is_none());
    assert_eq!(setup.sets.len(), 1);
    assert_eq!(setup.sets[0].name, "oculus_input");
    assert_eq!(setup.sets[0].name, OCULUS_INPUT);
    assert_eq!(setup.sets[0].pretty_name, "Oculus Touch Controller Input");
    assert_eq!(setup.sets[0].priority, 0);
}

#[test]
fn the_controller_declares_its_twenty_actions_in_order() {
    let (_, setup) = oculus_setup();
    let expected = [
        ("hand_pose", "Hand Pose", ActionType::PoseF, true),
        ("pointer_pose", "Pointer Pose", ActionType::PoseF, true),
        ("squeeze", "Grip Pull", ActionType::F32, true),
        ("trigger", "Trigger Pull", ActionType::F32, true),
        ("trigger_touched", "Trigger Touch", ActionType::Bool, true),
        ("haptic_feedback", "Haptic Feedback", ActionType::Haptic, true),
        ("x_button", "X Button", ActionType::Bool, false),
        ("x_button_touch", "X Button Touch", ActionType::Bool, false),
        ("y_button", "Y Button", ActionType::Bool, false),
        ("y_button_touch", "Y Button Touch", ActionType::Bool, false),
        ("a_button", "A Button", ActionType::Bool, false),
        ("a_button_touch", "A Button Touch", ActionType::Bool, false),
        ("b_button", "B Button", ActionType::Bool, false),
        ("b_button_touch", "B Button Touch", ActionType::Bool, false),
        ("menu_button", "Menu Button", ActionType::Bool, false),
        ("thumbstick_x", "Thumbstick X", ActionType::F32, true),
        ("thumbstick_y", "Thumbstick y", ActionType::F32, true),
        ("thumbstick_touch", "Thumbstick Touch", ActionType::Bool, true),
        ("thumbstick_click", "Thumbstick Click", ActionType::Bool, true),
        ("thumbrest_touch", "Thumbrest Touch", ActionType::Bool, true),
    ];
    assert_eq!(setup.sets[0].actions.len(), expected.len());
    for (at, (name, pretty_name, action_type, double)) in expected.iter().enumerate() {
        let action = &setup.sets[0].actions[at];
        assert_eq!(action.name, *name);
        assert_eq!(action.pretty_name, *pretty_name);
        assert_eq!(action.action.action_type(), *action_type);
        assert_eq!(action.action.handle().set, 0);
        assert_eq!(action.action.handle().action, at);
        if *double {
            assert_eq!(action.action.handle().handednes, ActionHandednes::Double);
            assert_eq!(action.subaction_paths, vec!["/user/hand/left", "/user/hand/right"]);
        } else {
            assert_eq!(action.action.handle().handednes, ActionHandednes::Single);
            assert!(action.subaction_paths.is_empty());
        }
    }
}

#[test]
fn the_controller_suggests_its_bindings_for_one_profile() {
    let (_, setup) = oculus_setup();
    assert_eq!(setup.profiles.len(), 1);
    assert_eq!(setup.profiles[0].device_path, "/interaction_profiles/oculus/touch_controller");
    assert_eq!(setup.profiles[0].device_path, OCULUS_TOUCH_PROFILE);
    assert_eq!(setup.profiles[0].bindings.len(), 31);
    // Grouped by action, in the order of the actions.
    let named: Vec<(&str, &str)> = setup.profiles[0]
        .bindings
        .iter()
        .map(|binding| {
            (setup.sets[0].actions[binding.action.handle().action].name, binding.path)
        })
        .collect();
    assert_eq!(named[0], ("hand_pose", "/user/hand/left/input/grip/pose"));
    assert_eq!(named[1], ("hand_pose", "/user/hand/right/input/grip/pose"));
    assert_eq!(named[2], ("pointer_pose", "/user/hand/left/input/aim/pose"));
    assert_eq!(named[12], ("x_button", "/user/hand/left/input/x/click"));
    assert_eq!(named[20], ("menu_button", "/user/hand/left/input/menu/click"));
    assert_eq!(named[21], ("thumbstick_x", "/user/hand/left/input/thumbstick/x"));
    assert_eq!(named[22], ("thumbstick_x", "/user/hand/right/input/thumbstick/x"));
    assert_eq!(named[23], ("thumbstick_y", "/user/hand/left/input/thumbstick/y"));
    assert_eq!(named[24], ("thumbstick_y", "/user/hand/right/input/thumbstick/y"));
    assert_eq!(named[25], ("thumbstick_touch", "/user/hand/left/input/thumbstick/touch"));
    assert_eq!(named[27], ("thumbstick_click", "/user/hand/left/input/thumbstick/click"));
    assert_eq!(named[30], ("thumbrest_touch", "/user/hand/right/input/thumbrest/touch"));
    for (name, path) in &named {
        assert!(path.starts_with("/user/hand/"), "{name}: {path}");
    }
}

#[test]
fn setting_the_controller_up_declares_the_same() {
    let mut declared = SetupActionSets::new();
    let controller = setup_oculus_controller(&mut declared).unwrap();
    assert!(controller.grip_space.is_none());
    let setup = setup_oxr_actions(declared);
    assert_eq!(setup.sets[0].actions.len(), 20);
    assert_eq!(setup.profiles[0].bindings.len(), 31);
}

#[test]
fn declaring_the_controller_replaces_a_set_of_its_name() {
    let mut declared = SetupActionSets::new();
    let set = declared.add_action_set("oculus_input", "Mine".into(), 9);
    set.new_action("mine", "Mine".into(), ActionType::Bool, ActionHandednes::Single);
    declared.add_action_set("other", "Other".into(), 1);
    assert!(OculusController::new(&mut declared).is_ok());
    let setup = setup_oxr_actions(declared);
    assert_eq!(setup.sets.len(), 2);
    assert_eq!(setup.sets[0].name, "oculus_input");
    assert_eq!(setup.sets[0].priority, 0);
    assert_eq!(setup.sets[0].actions.len(), 20);
    assert_eq!(setup.sets[1].name, "other");
    assert_eq!(
        setup.action_sets.get_action_bool("oculus_input", "mine"),
        Err(ActionError::NoAction)
    );
}

#[test]
fn the_spaces_of_the_controller_belong_to_its_pose_actions() {
    let (mut controller, setup) = oculus_setup();
    assert_eq!(post_action_setup_oculus_controller(&setup.action_sets, &mut controller), Ok(()));
    let grip = ActionHandle { set: 0, action: 0, handednes: ActionHandednes::Double };
    let aim = ActionHandle { set: 0, action: 1, handednes: ActionHandednes::Double };
    let spaces = controller.grip_space.as_ref().unwrap();
    assert_eq!(spaces.left, ActionSpace { action: grip, hand: Hand::Left });
    assert_eq!(spaces.right, ActionSpace { action: grip, hand: Hand::Right });
    let spaces = controller.aim_space.as_ref().unwrap();
    assert_eq!(spaces.left, ActionSpace { action: aim, hand: Hand::Left });
    assert_eq!(spaces.right, ActionSpace { action: aim, hand: Hand::Right });

    let input = InputSnapshot::new();
    let reader = controller.get_ref(&setup.action_sets, &PATHS, &input);
    assert_eq!(reader.grip_space(Hand::Left), Some(ActionSpace { action: grip, hand: Hand::Left }));
    assert_eq!(reader.aim_space(Hand::Right), Some(ActionSpace { action: aim, hand: Hand::Right }));
}

#[test]
fn the_controller_has_no_spaces_before_they_are_set_up() {
    let (controller, setup) = oculus_setup();
    let input = InputSnapshot::new();
    let reader = controller.get_ref(&setup.action_sets, &PATHS, &input);
    assert_eq!(reader.grip_space(Hand::Left), None);
    assert_eq!(reader.grip_space(Hand::Right), None);
    assert_eq!(reader.aim_space(Hand::Left), None);
    assert_eq!(reader.aim_space(Hand::Right), None);
}

#[test]
fn spaces_cannot_be_set_up_without_the_controllers_actions() {
    let mut controller = OculusController { grip_space: None, aim_space: None };
    let nothing = setup_oxr_actions(SetupActionSets::new());
    assert_eq!(
        post_action_setup_oculus_controller(&nothing.action_sets, &mut controller),
        Err(ActionError::NoActionSet)
    );
    assert!(controller.grip_space.is_none() && controller.aim_space.is_none());

    let mut declared = SetupActionSets::new();
    let set = declared.add_action_set(OCULUS_INPUT, "Partial".into(), 0);
    set.new_action("hand_pose", "Hand Pose".into(), ActionType::PoseF, ActionHandednes::Double);
    let partial = setup_oxr_actions(declared);
    assert_eq!(
        post_action_setup_oculus_controller(&partial.action_sets, &mut controller),
        Err(ActionError::NoAction)
    );
    assert!(controller.grip_space.is_none() && controller.aim_space.is_none());

    let mut declared = SetupActionSets::new();
    let set = declared.add_action_set(OCULUS_INPUT, "Wrong".into(), 0);
    set.new_action("hand_pose", "Hand Pose".into(), ActionType::Bool, ActionHandednes::Double);
    set.new_action("pointer_pose", "Pointer".into(), ActionType::PoseF, ActionHandednes::Double);
    let wrong = setup_oxr_actions(declared);
    let kept = Handed {
        left: ActionSpace {
            action: ActionHandle { set: 5, action: 5, handednes: ActionHandednes::Double },
            hand: Hand::Left,
        },
        right: ActionSpace {
            action: ActionHandle { set: 5, action: 5, handednes: ActionHandednes::Double },
            hand: Hand::Right,
        },
    };
    let mut controller = OculusController { grip_space: Some(kept), aim_space: None };
    assert_eq!(
        post_action_setup_oculus_controller(&wrong.action_sets, &mut controller),
        Err(ActionError::WrongActionType)
    );
    assert_eq!(controller.grip_space.as_ref().unwrap().left.action.set, 5);
    assert!(controller.aim_space.is_none());
}

#[test]
fn the_controller_reads_as_untouched_before_the_first_sync() {
    let (controller, setup) = oculus_setup();
    let input = InputSnapshot::new();
    let reader = controller.get_ref(&setup.action_sets, &PATHS, &input);
    for hand in [Hand::Left, Hand::Right] {
        assert_eq!(reader.squeeze(hand), Ok(0));
        assert_eq!(reader.trigger(hand), Ok(0));
        assert_eq!(reader.trigger_touched(hand), Ok(false));
        assert_eq!(reader.thumbstick_touch(hand), Ok(false));
        assert_eq!(reader.thumbrest_touch(hand), Ok(false));
        assert_eq!(reader.thumbstick(hand), Ok(Thumbstick { x: 0, y: 0, click: false }));
    }
    assert_eq!(reader.x_button(), Ok(false));
    assert_eq!(reader.x_button_touched(), Ok(false));
    assert_eq!(reader.y_button(), Ok(false));
    assert_eq!(reader.y_button_touched(), Ok(false));
    assert_eq!(reader.a_button(), Ok(false));
    assert_eq!(reader.a_button_touched(), Ok(false));
    assert_eq!(reader.b_button(), Ok(false));
    assert_eq!(reader.b_button_touched(), Ok(false));
    assert_eq!(reader.menu_button(), Ok(false));
}

#[test]
fn each_button_reads_its_own_action() {
    let (controller, setup) = oculus_setup();
    let buttons = [
        "x_button",
        "x_button_touch",
        "y_button",
        "y_button_touch",
        "a_button",
        "a_button_touch",
        "b_button",
        "b_button_touch",
        "menu_button",
    ];
    for pressed in buttons {
        let mut input = InputSnapshot::new();
        input.sync(vec![reading(&setup, pressed, NULL_PATH, ActionValue::Bool(true))]);
        let reader = controller.get_ref(&setup.action_sets, &PATHS, &input);
        assert_eq!(reader.x_button(), Ok(pressed == "x_button"));
        assert_eq!(reader.x_button_touched(), Ok(pressed == "x_button_touch"));
        assert_eq!(reader.y_button(), Ok(pressed == "y_button"));
        assert_eq!(reader.y_button_touched(), Ok(pressed == "y_button_touch"));
        assert_eq!(reader.a_button(), Ok(pressed == "a_button"));
        assert_eq!(reader.a_button_touched(), Ok(pressed == "a_button_touch"));
        assert_eq!(reader.b_button(), Ok(pressed == "b_button"));
        assert_eq!(reader.b_button_touched(), Ok(pressed == "b_button_touch"));
        assert_eq!(reader.menu_button(), Ok(pressed == "menu_button"));
    }
}

#[test]
fn each_hand_reads_its_own_values() {
    let (controller, setup) = oculus_setup();
    let mut input = InputSnapshot::new();
    input.sync(vec![
        reading(&setup, "squeeze", PATHS.left, ActionValue::F32(0.5f32.to_bits())),
        reading(&setup, "trigger", PATHS.right, ActionValue::F32(1.0f32.to_bits())),
        reading(&setup, "trigger_touched", PATHS.right, ActionValue::Bool(true)),
        reading(&setup, "thumbstick_x", PATHS.left, ActionValue::F32(0.25f32.to_bits())),
        reading(&setup, "thumbstick_y", PATHS.left, ActionValue::F32((-0.25f32).to_bits())),
        reading(&setup, "thumbstick_click", PATHS.left, ActionValue::Bool(true)),
        reading(&setup, "thumbstick_touch", PATHS.left, ActionValue::Bool(true)),
        reading(&setup, "thumbrest_touch", PATHS.right, ActionValue::Bool(true)),
    ]);
    let reader = controller.get_ref(&setup.action_sets, &PATHS, &input);
    assert_eq!(reader.squeeze(Hand::Left), Ok(0.5f32.to_bits()));
    assert_eq!(reader.squeeze(Hand::Right), Ok(0));
    assert_eq!(reader.trigger(Hand::Left), Ok(0));
    assert_eq!(reader.trigger(Hand::Right), Ok(1.0f32.to_bits()));
    assert_eq!(reader.trigger_touched(Hand::Left), Ok(false));
    assert_eq!(reader.trigger_touched(Hand::Right), Ok(true));
    assert_eq!(
        reader.thumbstick(Hand::Left),
        Ok(Thumbstick { x: 0.25f32.to_bits(), y: (-0.25f32).to_bits(), click: true })
    );
    assert_eq!(reader.thumbstick(Hand::Right), Ok(Thumbstick { x: 0, y: 0, click: false }));
    assert_eq!(reader.thumbstick_touch(Hand::Left), Ok(true));
    assert_eq!(reader.thumbstick_touch(Hand::Right), Ok(false));
    assert_eq!(reader.thumbrest_touch(Hand::Left), Ok(false));
    assert_eq!(reader.thumbrest_touch(Hand::Right), Ok(true));
}

#[test]
fn reading_a_controller_that_was_not_declared_is_an_error() {
    let controller = OculusController { grip_space: None, aim_space: None };
    let nothing = setup_oxr_actions(SetupActionSets::new());
    let input = InputSnapshot::new();
    let reader = controller.get_ref(&nothing.action_sets, &PATHS, &input);
    assert_eq!(reader.x_button(), Err(ActionError::NoActionSet));
    assert_eq!(reader.squeeze(Hand::Left), Err(ActionError::NoActionSet));
    assert_eq!(reader.thumbstick(Hand::Left), Err(ActionError::NoActionSet));

    let mut declared = SetupActionSets::new();
    let set = declared.add_action_set(OCULUS_INPUT, "Odd".into(), 0);
    set.new_action("x_button", "X".into(), ActionType::F32, ActionHandednes::Single);
    set.new_action("thumbstick_x", "X".into(), ActionType::F32, ActionHandednes::Double);
    set.new_action("thumbstick_y", "Y".into(), ActionType::Bool, ActionHandednes::Double);
    let odd = setup_oxr_actions(declared);
    let reader = controller.get_ref(&odd.action_sets, &PATHS, &input);
    assert_eq!(reader.x_button(), Err(ActionError::WrongActionType));
    assert_eq!(reader.y_button(), Err(ActionError::NoAction));
    assert_eq!(reader.thumbstick(Hand::Right), Err(ActionError::WrongActionType));
}

#[test]
fn the_made_up_hands_declare_their_action_set() {
    let mut declared = SetupActionSets::new();
    setup_hand_emulation_action_set(&mut declared);
    let setup = setup_oxr_actions(declared);
    assert_eq!(setup.sets.len(), 1);
    assert_eq!(setup.sets[0].name, "hand_pose_approx");
    assert_eq!(setup.sets[0].name, HAND_ACTION_SET);
    assert_eq!(setup.sets[0].pretty_name, "Hand Pose Approximaiton");
    assert_eq!(setup.sets[0].priority, 0);
    let expected = [
        ("thumb_touch", "Thumb Touched", ActionType::Bool),
        ("thumb_x", "Thumb X", ActionType::F32),
        ("thumb_y", "Thumb Y", ActionType::F32),
        ("index_touch", "Index Finger Touched", ActionType::Bool),
        ("index_value", "Index Finger Pull", ActionType::F32),
        ("middle_value", "Middle Finger Pull", ActionType::F32),
        ("ring_value", "Ring Finger Pull", ActionType::F32),
        ("little_value", "Little Finger Pull", ActionType::F32),
    ];
    assert_eq!(setup.sets[0].actions.len(), expected.len());
    for (at, (name, pretty_name, action_type)) in expected.iter().enumerate() {
        let action = &setup.sets[0].actions[at];
        assert_eq!(action.name, *name);
        assert_eq!(action.pretty_name, *pretty_name);
        assert_eq!(action.action.action_type(), *action_type);
        assert_eq!(action.action.handle().handednes, ActionHandednes::Double);
    }
    assert_eq!(setup.profiles.len(), 1);
    assert_eq!(setup.profiles[0].device_path, OCULUS_TOUCH_PROFILE);
    assert_eq!(setup.profiles[0].bindings.len(), 22);
    let of_thumb_touch = setup.profiles[0]
        .bindings
        .iter()
        .filter(|binding| binding.action.handle().action == 0)
        .count();
    assert_eq!(of_thumb_touch, 8);
}

#[test]
fn controller_and_made_up_hands_share_one_suggestion() {
    let mut declared = SetupActionSets::new();
    assert!(OculusController::new(&mut declared).is_ok());
    setup_hand_emulation_action_set(&mut declared);
    let setup = setup_oxr_actions(declared);
    assert_eq!(setup.sets.len(), 2);
    assert_eq!(setup.profiles.len(), 1);
    assert_eq!(setup.profiles[0].device_path, OCULUS_TOUCH_PROFILE);
    assert_eq!(setup.profiles[0].bindings.len(), 31 + 22);
    let of_first = setup.profiles[0]
        .bindings
        .iter()
        .filter(|binding| binding.action.handle().set == 0)
        .count();
    assert_eq!(of_first, 31);
    assert_eq!(setup.profiles[0].bindings[31].action.handle().set, 1);
}

#[test]
fn the_bindings_of_the_made_up_hands_go_to_their_actions() {
    let mut declared = SetupActionSets::new();
    let set = declared.add_action_set("mine", "Mine".into(), 0);
    let names = [
        "little_value",
        "ring_value",
        "middle_value",
        "index_value",
        "index_touch",
        "thumb_y",
        "thumb_x",
        "thumb_touch",
    ];
    for name in names {
        set.new_action(name, "Action".into(), ActionType::F32, ActionHandednes::Double);
    }
    suggest_oculus_touch_profile(set);
    let setup = setup_oxr_actions(declared);
    assert_eq!(setup.profiles.len(), 1);
    assert_eq!(setup.profiles[0].device_path, OCULUS_TOUCH_PROFILE);
    assert_eq!(setup.profiles[0].bindings.len(), 22);
    // Gathered action by action, in the order of declaration.
    let of_action = |at: usize| -> Vec<&'static str> {
        setup.profiles[0]
            .bindings
            .iter()
            .filter(|binding| binding.action.handle().action == at)
            .map(|binding| binding.path)
            .collect()
    };
    assert_eq!(
        of_action(0),
        vec!["/user/hand/left/input/squeeze/value", "/user/hand/right/input/squeeze/value"]
    );
    assert_eq!(
        of_action(6),
        vec!["/user/hand/left/input/thumbstick/x", "/user/hand/right/input/thumbstick/x"]
    );
    assert_eq!(of_action(7).len(), 8);
    assert_eq!(setup.profiles[0].bindings[0].action.handle().action, 0);
    assert_eq!(setup.profiles[0].bindings[21].action.handle().action, 7);
}

#[test]
fn a_thumb_is_curled_while_it_touches_the_controller() {
    let mut declared = SetupActionSets::new();
    setup_hand_emulation_action_set(&mut declared);
    let setup = setup_oxr_actions(declared);
    let mut input = InputSnapshot::new();
    input.sync(vec![
        reading(&setup, "thumb_touch", PATHS.left, ActionValue::Bool(true)),
        reading(&setup, "index_value", PATHS.left, ActionValue::F32(0.5f32.to_bits())),
        reading(&setup, "middle_value", PATHS.left, ActionValue::F32(0.25f32.to_bits())),
        reading(&setup, "ring_value", PATHS.right, ActionValue::F32(0.75f32.to_bits())),
        reading(&setup, "little_value", PATHS.right, ActionValue::F32(1.0f32.to_bits())),
    ]);
    let left = finger_curls(&input, &setup.action_sets, &PATHS, Hand::Left).unwrap();
    assert_eq!(f32::from_bits(left.thumb), 1.0);
    assert_eq!(f32::from_bits(left.index), 0.5);
    assert_eq!(f32::from_bits(left.middle), 0.25);
    assert_eq!(f32::from_bits(left.ring), 0.0);
    assert_eq!(f32::from_bits(left.little), 0.0);
    let right = finger_curls(&input, &setup.action_sets, &PATHS, Hand::Right).unwrap();
    assert_eq!(f32::from_bits(right.thumb), 0.0);
    assert_eq!(f32::from_bits(right.index), 0.0);
    assert_eq!(f32::from_bits(right.middle), 0.0);
    assert_eq!(f32::from_bits(right.ring), 0.75);
    assert_eq!(f32::from_bits(right.little), 1.0);
}

#[test]
fn the_fingers_of_an_open_hand_are_stretched() {
    let mut declared = SetupActionSets::new();
    setup_hand_emulation_action_set(&mut declared);
    let setup = setup_oxr_actions(declared);
    let input = InputSnapshot::new();
    assert_eq!(
        finger_curls(&input, &setup.action_sets, &PATHS, Hand::Left),
        Ok(FingerCurls { thumb: 0, index: 0, middle: 0, ring: 0, little: 0 })
    );
}

#[test]
fn curls_cannot_be_read_without_the_actions_of_the_made_up_hands() {
    let (_, setup) = oculus_setup();
    let input = InputSnapshot::new();
    assert_eq!(
        finger_curls(&input, &setup.action_sets, &PATHS, Hand::Left),
        Err(ActionError::NoActionSet)
    );
    let mut declared = SetupActionSets::new();
    let set = declared.add_action_set(HAND_ACTION_SET, "Partial".into(), 0);
    set.new_action("thumb_touch", "T".into(), ActionType::Bool, ActionHandednes::Double);
    set.new_action("index_value", "I".into(), ActionType::Vec2, ActionHandednes::Double);
    let partial = setup_oxr_actions(declared);
    assert_eq!(
        finger_curls(&input, &partial.action_sets, &PATHS, Hand::Right),
        Err(ActionError::WrongActionType)
    );
}

#[test]
fn only_bones_that_are_not_tracked_take_the_made_up_pose() {
    assert!(is_emulated(BoneTrackingStatus::Emulated));
    assert!(!is_emulated(BoneTrackingStatus::HandTracked));
}

#[test]
fn typed_actions_know_their_type() {
    let handle = ActionHandle { set: 1, action: 2, handednes: ActionHandednes::Single };
    assert_eq!(TypedAction::F32(handle).action_type(), ActionType::F32);
    assert_eq!(TypedAction::Bool(handle).action_type(), ActionType::Bool);
    assert_eq!(TypedAction::PoseF(handle).action_type(), ActionType::PoseF);
    assert_eq!(TypedAction::Haptic(handle).action_type(), ActionType::Haptic);
    assert_eq!(TypedAction::Vec2(handle).action_type(), ActionType::Vec2);
    assert_eq!(TypedAction::Vec2(handle).handle(), handle);
}
