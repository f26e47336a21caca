use bevy_oxr::space::{PoseBits, QuatBits, Vec3Bits, ONE_BITS};
use bevy_oxr::xr_input::actions::{
    setup_oxr_actions, ActionError, ActionHandednes, ActionHandle, ActionType, SetupActionSets,
    TypedAction, XrActionSets, NULL_PATH,
};
use bevy_oxr::xr_input::oculus_touch::{init_subaction_path, subaction_path};
use bevy_oxr::xr_input::resolver::{
    state_queries, ActionReading, ActionValue, InputSnapshot, StateQuery, SubactionPaths,
};
use bevy_oxr::xr_input::{action_set_system, Hand, OpenXrInput};
use bevy_oxr::xr_input::controllers::{Handed, XrControllerType};
use bevy_oxr::xr_input::oculus_touch::ActionSets;

const LEFT: u64 = 11;
const RIGHT: u64 = 22;

fn paths() -> SubactionPaths {
    init_subaction_path(LEFT, RIGHT)
}

/// The set `input` with, in order: the single bool `menu`, the
/// two-handed f32 `grab`, the two-handed vec2 `stick`, the two-handed
/// pose `aim`, the two-handed haptic `buzz`, the two-handed bool `touch`.
fn registry() -> XrActionSets {
    let mut declared = SetupActionSets::new();
    let set = declared.add_action_set("input", "Input".into(), 0);
    set.new_action("menu", "Menu".into(), ActionType::Bool, ActionHandednes::Single);
    set.new_action("grab", "Grab".into(), ActionType::F32, ActionHandednes::Double);
    set.new_action("stick", "Stick".into(), ActionType::Vec2, ActionHandednes::Double);
    set.new_action("aim", "Aim".into(), ActionType::PoseF, ActionHandednes::Double);
    set.new_action("buzz", "Buzz".into(), ActionType::Haptic, ActionHandednes::Double);
    set.new_action("touch", "Touch".into(), ActionType::Bool, ActionHandednes::Double);
    setup_oxr_actions(declared).action_sets
}

fn reading(action: usize, path: u64, value: ActionValue) -> ActionReading {
    ActionReading { set: 0, action, path, value }
}

fn some_pose() -> PoseBits {
    PoseBits {
        position: Vec3Bits { x: 1.5f32.to_bits(), y: 2.5f32.to_bits(), z: 3.5f32.to_bits() },
        orientation: QuatBits { x: 0, y: ONE_BITS, z: 0, w: 0 },
    }
}

#[test]
fn the_paths_of_the_hands_are_kept_as_given() {
    let paths = paths();
    assert_eq!(paths, SubactionPaths { left: LEFT, right: RIGHT });
    assert_eq!(subaction_path(&paths, Hand::Left), LEFT);
    assert_eq!(subaction_path(&paths, Hand::Right), RIGHT);
}

#[test]
fn a_two_handed_action_is_read_under_the_hands_path() {
    let paths = paths();
    assert_eq!(paths.resolve(ActionHandednes::Double, Some(Hand::Left)), LEFT);
    assert_eq!(paths.resolve(ActionHandednes::Double, Some(Hand::Right)), RIGHT);
    assert_eq!(paths.resolve(ActionHandednes::Double, None), NULL_PATH);
}

#[test]
fn a_single_action_is_read_under_the_null_path_whatever_the_hand() {
    let paths = paths();
    assert_eq!(paths.resolve(ActionHandednes::Single, None), NULL_PATH);
    assert_eq!(paths.resolve(ActionHandednes::Single, Some(Hand::Left)), NULL_PATH);
    assert_eq!(paths.resolve(ActionHandednes::Single, Some(Hand::Right)), NULL_PATH);
}

#[test]
fn before_the_first_sync_every_action_reads_as_its_default() {
    let registry = registry();
    let paths = paths();
    let input = InputSnapshot::new();
    assert_eq!(input.get_bool(&registry, &paths, "input", "menu", None), Ok(false));
    assert_eq!(input.get_f32(&registry, &paths, "input", "grab", Some(Hand::Left)), Ok(0));
    assert_eq!(
        input.get_vec2(&registry, &paths, "input", "stick", Some(Hand::Right)),
        Ok((0, 0))
    );
    assert_eq!(
        input.get_pose(&registry, &paths, "input", "aim", Some(Hand::Left)),
        Ok(PoseBits::identity())
    );
    assert_eq!(f32::from_bits(0), 0.0);
}

#[test]
fn a_read_after_a_sync_gives_what_was_synced() {
    let registry = registry();
    let paths = paths();
    let mut input = InputSnapshot::new();
    input.sync(vec![
        reading(0, NULL_PATH, ActionValue::Bool(true)),
        reading(1, LEFT, ActionValue::F32(0.25f32.to_bits())),
        reading(1, RIGHT, ActionValue::F32(0.75f32.to_bits())),
        reading(2, RIGHT, ActionValue::Vec2(0.5f32.to_bits(), (-0.5f32).to_bits())),
        reading(3, LEFT, ActionValue::Pose(some_pose())),
    ]);
    assert_eq!(input.get_bool(&registry, &paths, "input", "menu", None), Ok(true));
    assert_eq!(
        input.get_f32(&registry, &paths, "input", "grab", Some(Hand::Left)),
        Ok(0.25f32.to_bits())
    );
    assert_eq!(
        input.get_f32(&registry, &paths, "input", "grab", Some(Hand::Right)),
        Ok(0.75f32.to_bits())
    );
    assert_eq!(
        input.get_vec2(&registry, &paths, "input", "stick", Some(Hand::Right)),
        Ok((0.5f32.to_bits(), (-0.5f32).to_bits()))
    );
    assert_eq!(
        input.get_pose(&registry, &paths, "input", "aim", Some(Hand::Left)),
        Ok(some_pose())
    );
}

#[test]
fn a_read_without_a_sync_in_between_gives_the_same_again() {
    let registry = registry();
    let paths = paths();
    let mut input = InputSnapshot::new();
    input.sync(vec![reading(1, LEFT, ActionValue::F32(7))]);
    for _ in 0..3 {
        assert_eq!(input.get_f32(&registry, &paths, "input", "grab", Some(Hand::Left)), Ok(7));
        assert_eq!(input.get_bool(&registry, &paths, "input", "menu", None), Ok(false));
    }
}

#[test]
fn a_sync_replaces_every_reading_of_the_sync_before() {
    let registry = registry();
    let paths = paths();
    let mut input = InputSnapshot::new();
    input.sync(vec![
        reading(0, NULL_PATH, ActionValue::Bool(true)),
        reading(1, LEFT, ActionValue::F32(7)),
    ]);
    input.sync(vec![reading(1, LEFT, ActionValue::F32(9))]);
    assert_eq!(input.get_f32(&registry, &paths, "input", "grab", Some(Hand::Left)), Ok(9));
    // What the second sync did not bring is gone, not left over.
    assert_eq!(input.get_bool(&registry, &paths, "input", "menu", None), Ok(false));
    input.sync(vec![]);
    assert_eq!(input.get_f32(&registry, &paths, "input", "grab", Some(Hand::Left)), Ok(0));
}

#[test]
fn an_untracked_hand_reads_as_the_default() {
    let registry = registry();
    let paths = paths();
    let mut input = InputSnapshot::new();
    input.sync(vec![
        reading(1, LEFT, ActionValue::F32(5)),
        reading(5, LEFT, ActionValue::Bool(true)),
    ]);
    assert_eq!(input.get_f32(&registry, &paths, "input", "grab", Some(Hand::Left)), Ok(5));
    assert_eq!(input.get_f32(&registry, &paths, "input", "grab", Some(Hand::Right)), Ok(0));
    assert_eq!(input.get_bool(&registry, &paths, "input", "touch", Some(Hand::Left)), Ok(true));
    assert_eq!(input.get_bool(&registry, &paths, "input", "touch", Some(Hand::Right)), Ok(false));
    assert_eq!(input.get_bool(&registry, &paths, "input", "touch", None), Ok(false));
}

#[test]
fn a_single_action_ignores_the_hand() {
    let registry = registry();
    let paths = paths();
    let mut input = InputSnapshot::new();
    input.sync(vec![reading(0, NULL_PATH, ActionValue::Bool(true))]);
    assert_eq!(input.get_bool(&registry, &paths, "input", "menu", None), Ok(true));
    assert_eq!(input.get_bool(&registry, &paths, "input", "menu", Some(Hand::Left)), Ok(true));
    assert_eq!(input.get_bool(&registry, &paths, "input", "menu", Some(Hand::Right)), Ok(true));
}

#[test]
fn a_reading_of_another_type_is_never_read_as_a_value() {
    let registry = registry();
    let paths = paths();
    let mut input = InputSnapshot::new();
    // Readings filed under the wrong type of value.
    input.sync(vec![
        reading(0, NULL_PATH, ActionValue::F32(ONE_BITS)),
        reading(1, LEFT, ActionValue::Bool(true)),
        reading(2, LEFT, ActionValue::F32(3)),
        reading(3, LEFT, ActionValue::Vec2(1, 2)),
    ]);
    assert_eq!(input.get_bool(&registry, &paths, "input", "menu", None), Ok(false));
    assert_eq!(input.get_f32(&registry, &paths, "input", "grab", Some(Hand::Left)), Ok(0));
    assert_eq!(input.get_vec2(&registry, &paths, "input", "stick", Some(Hand::Left)), Ok((0, 0)));
    assert_eq!(
        input.get_pose(&registry, &paths, "input", "aim", Some(Hand::Left)),
        Ok(PoseBits::identity())
    );
}

#[test]
fn the_first_of_two_readings_for_the_same_action_and_path_counts() {
    let registry = registry();
    let paths = paths();
    let mut input = InputSnapshot::new();
    input.sync(vec![
        reading(1, LEFT, ActionValue::F32(1)),
        reading(1, LEFT, ActionValue::F32(2)),
    ]);
    assert_eq!(input.get_f32(&registry, &paths, "input", "grab", Some(Hand::Left)), Ok(1));
}

#[test]
fn reads_under_the_wrong_type_are_wrong_types() {
    let registry = registry();
    let paths = paths();
    let mut input = InputSnapshot::new();
    input.sync(vec![reading(1, LEFT, ActionValue::F32(5))]);
    let wrong = ActionError::WrongActionType;
    assert_eq!(input.get_bool(&registry, &paths, "input", "grab", Some(Hand::Left)), Err(wrong));
    assert_eq!(input.get_f32(&registry, &paths, "input", "menu", None), Err(wrong));
    assert_eq!(input.get_vec2(&registry, &paths, "input", "grab", None), Err(wrong));
    assert_eq!(input.get_pose(&registry, &paths, "input", "stick", None), Err(wrong));
    assert_eq!(input.get_haptic(&registry, &paths, "input", "aim", None), Err(wrong));
    assert_eq!(input.get_f32(&registry, &paths, "input", "buzz", None), Err(wrong));
}

#[test]
fn reads_of_what_is_not_there_are_not_found() {
    let registry = registry();
    let paths = paths();
    let input = InputSnapshot::new();
    assert_eq!(
        input.get_bool(&registry, &paths, "other", "menu", None),
        Err(ActionError::NoActionSet)
    );
    assert_eq!(
        input.get_f32(&registry, &paths, "input", "other", None),
        Err(ActionError::NoAction)
    );
    assert_eq!(
        input.get_vec2(&registry, &paths, "other", "other", None),
        Err(ActionError::NoActionSet)
    );
    assert_eq!(
        input.get_pose(&registry, &paths, "input", "", None),
        Err(ActionError::NoAction)
    );
    assert_eq!(
        input.get_haptic(&registry, &paths, "", "buzz", None),
        Err(ActionError::NoActionSet)
    );
}

#[test]
fn haptic_feedback_goes_to_the_action_under_the_hands_path() {
    let registry = registry();
    let paths = paths();
    let input = InputSnapshot::new();
    let buzz = TypedAction::Haptic(ActionHandle {
        set: 0,
        action: 4,
        handednes: ActionHandednes::Double,
    });
    assert_eq!(
        input.get_haptic(&registry, &paths, "input", "buzz", Some(Hand::Right)),
        Ok(StateQuery { action: buzz, path: RIGHT })
    );
    assert_eq!(
        input.get_haptic(&registry, &paths, "input", "buzz", None),
        Ok(StateQuery { action: buzz, path: NULL_PATH })
    );
}

#[test]
fn what_is_read_after_a_sync_is_every_action_under_each_of_its_paths() {
    let registry = registry();
    let paths = paths();
    let handle = |action: usize, handednes: ActionHandednes| ActionHandle {
        set: 0,
        action,
        handednes,
    };
    let menu = TypedAction::Bool(handle(0, ActionHandednes::Single));
    let grab = TypedAction::F32(handle(1, ActionHandednes::Double));
    let stick = TypedAction::Vec2(handle(2, ActionHandednes::Double));
    let aim = TypedAction::PoseF(handle(3, ActionHandednes::Double));
    let touch = TypedAction::Bool(handle(5, ActionHandednes::Double));
    assert_eq!(
        state_queries(&registry, &paths),
        vec![
            StateQuery { action: menu, path: NULL_PATH },
            StateQuery { action: grab, path: LEFT },
            StateQuery { action: grab, path: RIGHT },
            StateQuery { action: stick, path: LEFT },
            StateQuery { action: stick, path: RIGHT },
            StateQuery { action: aim, path: LEFT },
            StateQuery { action: aim, path: RIGHT },
            StateQuery { action: touch, path: LEFT },
            StateQuery { action: touch, path: RIGHT },
        ]
    );
}

#[test]
fn nothing_is_read_where_nothing_was_set_up() {
    let registry = setup_oxr_actions(SetupActionSets::new()).action_sets;
    assert!(state_queries(&registry, &paths()).is_empty());
    assert!(state_queries(&XrActionSets::new(), &paths()).is_empty());
}

#[test]
fn every_action_set_is_synced() {
    assert_eq!(action_set_system(&ActionSets(vec![])), Vec::<usize>::new());
    assert_eq!(action_set_system(&ActionSets(vec![0, 1, 2])), vec![0, 1, 2]);
    assert_eq!(action_set_system(&ActionSets(vec![4, 2])), vec![4, 2]);
}

#[test]
fn the_input_is_that_of_the_controller_it_was_made_for() {
    let input = OpenXrInput::new(XrControllerType::OculusTouch);
    assert_eq!(input.controller_type, XrControllerType::OculusTouch);
}

#[test]
fn each_hand_has_its_own_of_a_pair() {
    let pair = Handed { left: 1, right: 2 };
    assert_eq!(*pair.get(Hand::Left), 1);
    assert_eq!(*pair.get(Hand::Right), 2);
}
