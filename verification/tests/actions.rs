use bevy_oxr::xr_input::actions::{
    setup_oxr_actions, ActionError, ActionHandednes, ActionHandle, ActionSetup, ActionType,
    SetupActionSets, TypedAction, XrActionSets, XrBinding, LEFT_HAND_PATH, NULL_PATH,
    RIGHT_HAND_PATH,
};

const SIMPLE: &str = "/interaction_profiles/khr/simple_controller";
const TOUCH: &str = "/interaction_profiles/oculus/touch_controller";

fn handle(set: usize, action: usize, handednes: ActionHandednes) -> ActionHandle {
    ActionHandle { set, action, handednes }
}

/// One set, `input`, with one action of each type, in the order bool,
/// f32, vec2, pose, haptic.
fn one_of_each() -> XrActionSets {
    let mut declared = SetupActionSets::new();
    let set = declared.add_action_set("input", "Input".into(), 0);
    set.new_action("b", "B".into(), ActionType::Bool, ActionHandednes::Single);
    set.new_action("f", "F".into(), ActionType::F32, ActionHandednes::Double);
    set.new_action("v", "V".into(), ActionType::Vec2, ActionHandednes::Single);
    set.new_action("p", "P".into(), ActionType::PoseF, ActionHandednes::Double);
    set.new_action("h", "H".into(), ActionType::Haptic, ActionHandednes::Double);
    setup_oxr_actions(declared).action_sets
}

fn paths_of(setup: &ActionSetup, profile: usize) -> Vec<&'static str> {
    setup.profiles[profile].bindings.iter().map(|binding| binding.path).collect()
}

#[test]
fn null_path_is_the_runtimes() {
    assert_eq!(NULL_PATH, openxr::Path::NULL.into_raw());
    assert_eq!(NULL_PATH as usize, openxr::sys::NULL_PATH);
}

#[test]
fn hand_paths_are_the_runtimes() {
    assert_eq!(LEFT_HAND_PATH, openxr::USER_HAND_LEFT);
    assert_eq!(RIGHT_HAND_PATH, openxr::USER_HAND_RIGHT);
    assert_eq!(LEFT_HAND_PATH, "/user/hand/left");
    assert_eq!(RIGHT_HAND_PATH, "/user/hand/right");
}

#[test]
fn action_errors_have_their_messages() {
    assert_eq!(ActionError::NoActionSet.message(), "Action Set Not Found!");
    assert_eq!(ActionError::NoAction.message(), "Action Not Found!");
    assert_eq!(ActionError::WrongActionType.message(), "Wrong Action Type!");
}

#[test]
fn nothing_declared_sets_nothing_up() {
    let setup = setup_oxr_actions(SetupActionSets::new());
    assert!(setup.sets.is_empty());
    assert!(setup.profiles.is_empty());
    assert_eq!(setup.action_sets.len(), 0);
    assert_eq!(
        setup.action_sets.get_action_bool("input", "b"),
        Err(ActionError::NoActionSet)
    );
}

#[test]
fn an_empty_action_set_is_created_without_actions() {
    let mut declared = SetupActionSets::new();
    declared.add_action_set("input", "Input".into(), 3);
    let setup = setup_oxr_actions(declared);
    assert_eq!(setup.sets.len(), 1);
    assert_eq!(setup.sets[0].name, "input");
    assert_eq!(setup.sets[0].pretty_name, "Input");
    assert_eq!(setup.sets[0].priority, 3);
    assert!(setup.sets[0].actions.is_empty());
    assert!(setup.profiles.is_empty());
    assert_eq!(setup.action_sets.get_action_bool("input", "b"), Err(ActionError::NoAction));
}

#[test]
fn one_double_handed_action_gives_one_suggestion_with_two_bindings() {
    let mut declared = SetupActionSets::new();
    let set = declared.add_action_set("input", "Input".into(), 0);
    set.new_action("select", "Select".into(), ActionType::Bool, ActionHandednes::Double);
    set.suggest_binding(
        SIMPLE,
        &[
            XrBinding::new("select", "/user/hand/left/input/select/click"),
            XrBinding::new("select", "/user/hand/right/input/select/click"),
        ],
    );
    let setup = setup_oxr_actions(declared);

    assert_eq!(setup.profiles.len(), 1);
    assert_eq!(setup.profiles[0].device_path, SIMPLE);
    assert_eq!(setup.profiles[0].bindings.len(), 2);
    let select = TypedAction::Bool(handle(0, 0, ActionHandednes::Double));
    assert_eq!(setup.profiles[0].bindings[0].action, select);
    assert_eq!(setup.profiles[0].bindings[0].path, "/user/hand/left/input/select/click");
    assert_eq!(setup.profiles[0].bindings[1].action, select);
    assert_eq!(setup.profiles[0].bindings[1].path, "/user/hand/right/input/select/click");

    assert_eq!(setup.sets.len(), 1);
    assert_eq!(setup.sets[0].actions.len(), 1);
    assert_eq!(setup.sets[0].actions[0].name, "select");
    assert_eq!(setup.sets[0].actions[0].pretty_name, "Select");
    assert_eq!(setup.sets[0].actions[0].action, select);
    assert_eq!(
        setup.sets[0].actions[0].subaction_paths,
        vec!["/user/hand/left", "/user/hand/right"]
    );
}

#[test]
fn a_double_handed_action_has_both_hands_paths_and_a_single_one_none() {
    let mut declared = SetupActionSets::new();
    let set = declared.add_action_set("input", "Input".into(), 0);
    set.new_action("grab", "Grab".into(), ActionType::F32, ActionHandednes::Double);
    set.new_action("menu", "Menu".into(), ActionType::Bool, ActionHandednes::Single);
    let setup = setup_oxr_actions(declared);
    assert_eq!(setup.sets[0].actions[0].subaction_paths, vec![LEFT_HAND_PATH, RIGHT_HAND_PATH]);
    assert!(setup.sets[0].actions[1].subaction_paths.is_empty());
    assert_eq!(
        setup.sets[0].actions[0].action,
        TypedAction::F32(handle(0, 0, ActionHandednes::Double))
    );
    assert_eq!(
        setup.sets[0].actions[1].action,
        TypedAction::Bool(handle(0, 1, ActionHandednes::Single))
    );
}

#[test]
fn each_profile_gets_one_suggestion_with_the_bindings_of_all_sets() {
    let mut declared = SetupActionSets::new();
    let first = declared.add_action_set("first", "First".into(), 0);
    first.new_action("a", "A".into(), ActionType::Bool, ActionHandednes::Single);
    first.new_action("b", "B".into(), ActionType::F32, ActionHandednes::Double);
    first.suggest_binding(TOUCH, &[XrBinding::new("a", "/a/touch")]);
    first.suggest_binding(
        SIMPLE,
        &[XrBinding::new("b", "/b/simple/1"), XrBinding::new("a", "/a/simple")]
    );
    first.suggest_binding(SIMPLE, &[XrBinding::new("b", "/b/simple/2")]);
    let second = declared.add_action_set("second", "Second".into(), 1);
    second.new_action("c", "C".into(), ActionType::Vec2, ActionHandednes::Single);
    second.suggest_binding(
        TOUCH,
        &[XrBinding::new("c", "/c/touch/1"), XrBinding::new("c", "/c/touch/2")]
    );
    second.suggest_binding("/vive", &[XrBinding::new("c", "/c/vive")]);
    let setup = setup_oxr_actions(declared);

    // One suggestion per profile, in order of first appearance when the
    // sets, their actions and each action's profiles are walked in order.
    assert_eq!(setup.profiles.len(), 3);
    assert_eq!(setup.profiles[0].device_path, TOUCH);
    assert_eq!(setup.profiles[1].device_path, SIMPLE);
    assert_eq!(setup.profiles[2].device_path, "/vive");

    assert_eq!(paths_of(&setup, 0), vec!["/a/touch", "/c/touch/1", "/c/touch/2"]);
    assert_eq!(paths_of(&setup, 1), vec!["/a/simple", "/b/simple/1", "/b/simple/2"]);
    assert_eq!(paths_of(&setup, 2), vec!["/c/vive"]);

    let a = TypedAction::Bool(handle(0, 0, ActionHandednes::Single));
    let b = TypedAction::F32(handle(0, 1, ActionHandednes::Double));
    let c = TypedAction::Vec2(handle(1, 0, ActionHandednes::Single));
    let actions_of = |profile: usize| -> Vec<TypedAction> {
        setup.profiles[profile].bindings.iter().map(|binding| binding.action).collect()
    };
    assert_eq!(actions_of(0), vec![a, c, c]);
    assert_eq!(actions_of(1), vec![a, b, b]);
    assert_eq!(actions_of(2), vec![c]);
}

#[test]
fn no_profile_is_suggested_twice_and_no_binding_is_lost() {
    let profiles = ["/p0", "/p1", "/p2", "/p3"];
    let names = ["a0", "a1", "a2", "a3", "a4", "a5"];
    let mut declared = SetupActionSets::new();
    let mut expected = 0;
    for (s, set_name) in ["s0", "s1", "s2"].iter().enumerate() {
        let set = declared.add_action_set(set_name, "Set".into(), s as u32);
        for name in names {
            set.new_action(name, "Action".into(), ActionType::Bool, ActionHandednes::Single);
        }
        for (a, name) in names.iter().enumerate() {
            let profile = profiles[(a + s) % profiles.len()];
            set.suggest_binding(profile, &[XrBinding::new(name, "/path")]);
            expected += 1;
        }
    }
    let setup = setup_oxr_actions(declared);
    assert_eq!(setup.profiles.len(), profiles.len());
    for (i, one) in setup.profiles.iter().enumerate() {
        for other in &setup.profiles[i + 1..] {
            assert_ne!(one.device_path, other.device_path);
        }
    }
    let total: usize = setup.profiles.iter().map(|profile| profile.bindings.len()).sum();
    assert_eq!(total, expected);
}

#[test]
fn an_action_without_bindings_is_created_and_suggests_nothing() {
    let mut declared = SetupActionSets::new();
    let set = declared.add_action_set("input", "Input".into(), 0);
    set.new_action("bound", "Bound".into(), ActionType::Bool, ActionHandednes::Single);
    set.new_action("unbound", "Unbound".into(), ActionType::Bool, ActionHandednes::Single);
    set.suggest_binding(SIMPLE, &[XrBinding::new("bound", "/x")]);
    let setup = setup_oxr_actions(declared);
    assert_eq!(setup.sets[0].actions.len(), 2);
    assert_eq!(setup.profiles.len(), 1);
    assert_eq!(setup.profiles[0].bindings.len(), 1);
    assert_eq!(
        setup.action_sets.get_action_bool("input", "unbound"),
        Ok(handle(0, 1, ActionHandednes::Single))
    );
}

#[test]
fn a_binding_for_an_undeclared_action_is_refused() {
    let mut declared = SetupActionSets::new();
    let set = declared.add_action_set("input", "Input".into(), 0);
    set.new_action("a", "A".into(), ActionType::Bool, ActionHandednes::Single);
    assert_eq!(
        set.try_suggest_binding(SIMPLE, &[XrBinding::new("missing", "/x")]),
        Err(ActionError::NoAction)
    );
}

#[test]
fn a_suggestion_can_be_tried() {
    let mut declared = SetupActionSets::new();
    let set = declared.add_action_set("input", "Input".into(), 0);
    set.new_action("a", "A".into(), ActionType::Bool, ActionHandednes::Single);
    set.new_action("b", "B".into(), ActionType::Bool, ActionHandednes::Single);
    assert_eq!(
        set.try_suggest_binding(
            SIMPLE,
            &[XrBinding::new("b", "/b"), XrBinding::new("a", "/a")]
        ),
        Ok(())
    );
    assert_eq!(set.try_suggest_binding(SIMPLE, &[]), Ok(()));
    let setup = setup_oxr_actions(declared);
    assert_eq!(setup.profiles.len(), 1);
    assert_eq!(paths_of(&setup, 0), vec!["/a", "/b"]);
}

#[test]
fn the_first_undeclared_action_of_a_suggestion_is_named() {
    let mut declared = SetupActionSets::new();
    let set = declared.add_action_set("input", "Input".into(), 0);
    assert_eq!(set.first_undeclared(&[]), None);
    assert_eq!(set.first_undeclared(&[XrBinding::new("a", "/a")]), Some("a"));
    set.new_action("a", "A".into(), ActionType::Bool, ActionHandednes::Single);
    assert_eq!(set.first_undeclared(&[XrBinding::new("a", "/a")]), None);
    assert_eq!(
        set.first_undeclared(&[XrBinding::new("a", "/a"), XrBinding::new("a", "/b")]),
        None
    );
    assert_eq!(
        set.first_undeclared(&[XrBinding::new("a", "/a"), XrBinding::new("b", "/b")]),
        Some("b")
    );
    assert_eq!(
        set.first_undeclared(&[
            XrBinding::new("c", "/c"),
            XrBinding::new("a", "/a"),
            XrBinding::new("b", "/b")
        ]),
        Some("c")
    );
    assert_eq!(set.first_undeclared(&[XrBinding::new("A", "/a")]), Some("A"));
}

#[test]
fn a_refused_suggestion_leaves_nothing_behind() {
    let mut declared = SetupActionSets::new();
    let set = declared.add_action_set("input", "Input".into(), 0);
    set.new_action("a", "A".into(), ActionType::Bool, ActionHandednes::Single);
    set.suggest_binding(SIMPLE, &[XrBinding::new("a", "/kept")]);
    // The first binding is fine, the second is not: neither is taken.
    assert_eq!(
        set.try_suggest_binding(
            TOUCH,
            &[XrBinding::new("a", "/dropped"), XrBinding::new("missing", "/x")]
        ),
        Err(ActionError::NoAction)
    );
    let setup = setup_oxr_actions(declared);
    assert_eq!(setup.profiles.len(), 1);
    assert_eq!(setup.profiles[0].device_path, SIMPLE);
    assert_eq!(paths_of(&setup, 0), vec!["/kept"]);
}

#[test]
fn no_bindings_are_suggested_by_an_empty_list() {
    let mut declared = SetupActionSets::new();
    let set = declared.add_action_set("input", "Input".into(), 0);
    set.suggest_binding(SIMPLE, &[]);
    let setup = setup_oxr_actions(declared);
    assert!(setup.profiles.is_empty());
}

#[test]
fn declaring_an_action_again_replaces_it_and_drops_its_bindings() {
    let mut declared = SetupActionSets::new();
    let set = declared.add_action_set("input", "Input".into(), 0);
    set.new_action("a", "First".into(), ActionType::Bool, ActionHandednes::Single);
    set.new_action("b", "B".into(), ActionType::Bool, ActionHandednes::Single);
    set.suggest_binding(SIMPLE, &[XrBinding::new("a", "/old")]);
    set.new_action("a", "Second".into(), ActionType::F32, ActionHandednes::Double);
    let setup = setup_oxr_actions(declared);
    assert_eq!(setup.sets[0].actions.len(), 2);
    assert_eq!(setup.sets[0].actions[0].name, "a");
    assert_eq!(setup.sets[0].actions[0].pretty_name, "Second");
    assert_eq!(
        setup.sets[0].actions[0].action,
        TypedAction::F32(handle(0, 0, ActionHandednes::Double))
    );
    assert_eq!(setup.sets[0].actions[1].name, "b");
    assert!(setup.profiles.is_empty());
}

#[test]
fn declaring_an_action_set_again_replaces_it() {
    let mut declared = SetupActionSets::new();
    let set = declared.add_action_set("input", "Old".into(), 1);
    set.new_action("a", "A".into(), ActionType::Bool, ActionHandednes::Single);
    declared.add_action_set("other", "Other".into(), 2);
    let set = declared.add_action_set("input", "New".into(), 5);
    set.new_action("z", "Z".into(), ActionType::Vec2, ActionHandednes::Single);
    let setup = setup_oxr_actions(declared);
    assert_eq!(setup.sets.len(), 2);
    assert_eq!(setup.sets[0].name, "input");
    assert_eq!(setup.sets[0].pretty_name, "New");
    assert_eq!(setup.sets[0].priority, 5);
    assert_eq!(setup.sets[0].actions.len(), 1);
    assert_eq!(setup.sets[0].actions[0].name, "z");
    assert_eq!(setup.sets[1].name, "other");
    assert_eq!(setup.action_sets.get_action_bool("input", "a"), Err(ActionError::NoAction));
}

#[test]
fn the_bindings_of_one_profile_keep_the_order_of_suggestion() {
    let mut declared = SetupActionSets::new();
    let set = declared.add_action_set("input", "Input".into(), 0);
    set.new_action("a", "A".into(), ActionType::Bool, ActionHandednes::Single);
    set.suggest_binding(
        SIMPLE,
        &[XrBinding::new("a", "/3"), XrBinding::new("a", "/1"), XrBinding::new("a", "/2")]
    );
    set.suggest_binding(SIMPLE, &[XrBinding::new("a", "/0")]);
    let setup = setup_oxr_actions(declared);
    assert_eq!(paths_of(&setup, 0), vec!["/3", "/1", "/2", "/0"]);
}

#[test]
fn the_registry_lists_what_was_set_up() {
    let registry = one_of_each();
    assert_eq!(registry.len(), 1);
    assert_eq!(registry.set_name(0), "input");
    assert_eq!(registry.set_len(0), 5);
    assert_eq!(registry.action_name(0, 0), "b");
    assert_eq!(registry.action_name(0, 4), "h");
    assert_eq!(registry.action(0, 0), TypedAction::Bool(handle(0, 0, ActionHandednes::Single)));
    assert_eq!(registry.action(0, 3), TypedAction::PoseF(handle(0, 3, ActionHandednes::Double)));
    assert_eq!(registry.action(0, 3).action_type(), ActionType::PoseF);
    assert_eq!(registry.action(0, 3).handle(), handle(0, 3, ActionHandednes::Double));
}

#[test]
fn each_action_answers_under_its_own_type() {
    let registry = one_of_each();
    assert_eq!(registry.get_action_bool("input", "b"), Ok(handle(0, 0, ActionHandednes::Single)));
    assert_eq!(registry.get_action_f32("input", "f"), Ok(handle(0, 1, ActionHandednes::Double)));
    assert_eq!(registry.get_action_vec2("input", "v"), Ok(handle(0, 2, ActionHandednes::Single)));
    assert_eq!(
        registry.get_action_posef("input", "p"),
        Ok(handle(0, 3, ActionHandednes::Double))
    );
    assert_eq!(
        registry.get_action_haptic("input", "h"),
        Ok(handle(0, 4, ActionHandednes::Double))
    );
}

#[test]
fn an_action_asked_for_under_another_type_is_a_wrong_type() {
    let registry = one_of_each();
    let wrong = Err(ActionError::WrongActionType);
    for name in ["f", "v", "p", "h"] {
        assert_eq!(registry.get_action_bool("input", name), wrong);
    }
    for name in ["b", "v", "p", "h"] {
        assert_eq!(registry.get_action_f32("input", name), wrong);
    }
    for name in ["b", "f", "p", "h"] {
        assert_eq!(registry.get_action_vec2("input", name), wrong);
    }
    for name in ["b", "f", "v", "h"] {
        assert_eq!(registry.get_action_posef("input", name), wrong);
    }
    for name in ["b", "f", "v", "p"] {
        assert_eq!(registry.get_action_haptic("input", name), wrong);
    }
}

#[test]
fn an_unknown_action_set_is_no_action_set() {
    let registry = one_of_each();
    let missing = Err(ActionError::NoActionSet);
    assert_eq!(registry.get_action_bool("other", "b"), missing);
    assert_eq!(registry.get_action_f32("other", "f"), missing);
    assert_eq!(registry.get_action_vec2("", "v"), missing);
    assert_eq!(registry.get_action_posef("Input", "p"), missing);
    assert_eq!(registry.get_action_haptic("inputs", "h"), missing);
}

#[test]
fn an_unknown_action_is_no_action() {
    let registry = one_of_each();
    let missing = Err(ActionError::NoAction);
    assert_eq!(registry.get_action_bool("input", "x"), missing);
    assert_eq!(registry.get_action_f32("input", ""), missing);
    assert_eq!(registry.get_action_vec2("input", "B"), missing);
    assert_eq!(registry.get_action_posef("input", "pp"), missing);
    assert_eq!(registry.get_action_haptic("input", "input"), missing);
}

#[test]
fn actions_of_the_same_name_in_two_sets_are_told_apart() {
    let mut declared = SetupActionSets::new();
    let left = declared.add_action_set("left", "Left".into(), 0);
    left.new_action("grab", "Grab".into(), ActionType::Bool, ActionHandednes::Single);
    let right = declared.add_action_set("right", "Right".into(), 0);
    right.new_action("other", "Other".into(), ActionType::Bool, ActionHandednes::Single);
    right.new_action("grab", "Grab".into(), ActionType::F32, ActionHandednes::Double);
    let registry = setup_oxr_actions(declared).action_sets;
    assert_eq!(
        registry.get_action_bool("left", "grab"),
        Ok(handle(0, 0, ActionHandednes::Single))
    );
    assert_eq!(
        registry.get_action_f32("right", "grab"),
        Ok(handle(1, 1, ActionHandednes::Double))
    );
    assert_eq!(registry.get_action_bool("right", "grab"), Err(ActionError::WrongActionType));
    assert_eq!(registry.get_action_bool("left", "other"), Err(ActionError::NoAction));
}
