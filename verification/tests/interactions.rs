use bevy_oxr::graphics::{XrAppInfo, XrPreferdBlendMode};
use bevy_oxr::input::{ReferenceSpaceType, XrInput};
use bevy_oxr::xr_init::{ready, status_after_setup, xr_only, XrEnableStatus};
use bevy_oxr::xr_input::interactions::{
    interactions, socket_interactions, update_interactable_states, Interactable,
    InteractionEvent, Touched, XRInteractableState, XRInteractorState, XRSelection,
};

fn event(interactable: u64, state: XRInteractableState) -> InteractionEvent {
    InteractionEvent { interactor: 900, interactable, interactable_state: state }
}

fn interactable(entity: u64, state: XRInteractableState, touched: bool) -> Interactable {
    Interactable { entity, state, touched: Touched(touched) }
}

#[test]
fn states_start_idle_and_selections_empty() {
    assert_eq!(XRInteractableState::default(), XRInteractableState::Idle);
    assert_eq!(XRInteractorState::default(), XRInteractorState::Idle);
    assert_eq!(XRSelection::default(), XRSelection::Empty);
}

#[test]
fn a_socket_hovers_or_selects_what_it_overlaps() {
    assert_eq!(
        socket_interactions(1, XRInteractorState::Idle, 2, true),
        Some(InteractionEvent {
            interactor: 1,
            interactable: 2,
            interactable_state: XRInteractableState::Hover
        })
    );
    assert_eq!(
        socket_interactions(1, XRInteractorState::Selecting, 2, true),
        Some(InteractionEvent {
            interactor: 1,
            interactable: 2,
            interactable_state: XRInteractableState::Select
        })
    );
    assert_eq!(socket_interactions(1, XRInteractorState::Idle, 2, false), None);
    assert_eq!(socket_interactions(1, XRInteractorState::Selecting, 2, false), None);
}

#[test]
fn a_direct_interactor_hovers_whatever_it_is_doing() {
    for state in [XRInteractorState::Idle, XRInteractorState::Selecting] {
        assert_eq!(
            interactions(1, state, 2, true, false),
            vec![InteractionEvent {
                interactor: 1,
                interactable: 2,
                interactable_state: XRInteractableState::Hover
            }]
        );
    }
}

#[test]
fn a_ray_interactor_hovers_or_selects_what_its_ray_hits() {
    assert_eq!(
        interactions(1, XRInteractorState::Idle, 2, false, true),
        vec![InteractionEvent {
            interactor: 1,
            interactable: 2,
            interactable_state: XRInteractableState::Hover
        }]
    );
    assert_eq!(
        interactions(1, XRInteractorState::Selecting, 2, false, true),
        vec![InteractionEvent {
            interactor: 1,
            interactable: 2,
            interactable_state: XRInteractableState::Select
        }]
    );
}

#[test]
fn an_interactor_that_reaches_nothing_gives_no_event() {
    assert_eq!(interactions(1, XRInteractorState::Idle, 2, false, false), vec![]);
    assert_eq!(interactions(1, XRInteractorState::Selecting, 2, false, false), vec![]);
}

#[test]
fn an_interactor_of_both_kinds_gives_the_direct_event_first() {
    assert_eq!(
        interactions(1, XRInteractorState::Selecting, 2, true, true),
        vec![
            InteractionEvent {
                interactor: 1,
                interactable: 2,
                interactable_state: XRInteractableState::Hover
            },
            InteractionEvent {
                interactor: 1,
                interactable: 2,
                interactable_state: XRInteractableState::Select
            }
        ]
    );
}

#[test]
fn an_interactable_takes_the_state_of_the_last_event_that_reached_it() {
    let mut all = vec![
        interactable(1, XRInteractableState::Idle, false),
        interactable(2, XRInteractableState::Select, true),
        interactable(3, XRInteractableState::Hover, true),
    ];
    let events = vec![
        event(1, XRInteractableState::Select),
        event(3, XRInteractableState::Hover),
        event(1, XRInteractableState::Hover),
        event(3, XRInteractableState::Select),
    ];
    update_interactable_states(&events, &mut all);
    assert_eq!(
        all,
        vec![
            interactable(1, XRInteractableState::Hover, true),
            interactable(2, XRInteractableState::Idle, false),
            interactable(3, XRInteractableState::Select, true),
        ]
    );
}

#[test]
fn without_events_every_interactable_is_idle_and_untouched() {
    let mut all = vec![
        interactable(1, XRInteractableState::Select, true),
        interactable(2, XRInteractableState::Hover, false),
    ];
    update_interactable_states(&vec![], &mut all);
    assert_eq!(
        all,
        vec![
            interactable(1, XRInteractableState::Idle, false),
            interactable(2, XRInteractableState::Idle, false),
        ]
    );
}

#[test]
fn events_for_unknown_entities_change_nothing() {
    let mut all = vec![interactable(1, XRInteractableState::Hover, true)];
    update_interactable_states(&vec![event(5, XRInteractableState::Select)], &mut all);
    assert_eq!(all, vec![interactable(1, XRInteractableState::Idle, false)]);
    let mut none: Vec<Interactable> = vec![];
    update_interactable_states(&vec![event(5, XRInteractableState::Select)], &mut none);
    assert!(none.is_empty());
}

#[test]
fn an_event_can_put_an_interactable_back_to_idle_and_still_touch_it() {
    let mut all = vec![interactable(1, XRInteractableState::Select, false)];
    update_interactable_states(&vec![event(1, XRInteractableState::Idle)], &mut all);
    assert_eq!(all, vec![interactable(1, XRInteractableState::Idle, true)]);
}

#[test]
fn the_default_blend_mode_is_opaque() {
    assert_eq!(XrPreferdBlendMode::default(), XrPreferdBlendMode::Opaque);
    assert_ne!(XrPreferdBlendMode::Additive, XrPreferdBlendMode::AlphaBlend);
}

#[test]
fn the_default_application_is_called_ambient() {
    assert_eq!(XrAppInfo::default().name, "Ambient");
    let cloned = XrAppInfo { name: "Mine".into() }.clone();
    assert_eq!(cloned.name, "Mine");
}

#[test]
fn the_stage_is_the_local_floor_where_it_is_offered() {
    assert_eq!(
        XrInput::new(true),
        XrInput { stage: ReferenceSpaceType::LocalFloor, head: ReferenceSpaceType::View }
    );
    assert_eq!(
        XrInput::new(false),
        XrInput { stage: ReferenceSpaceType::Stage, head: ReferenceSpaceType::View }
    );
}

#[test]
fn a_failed_setup_disables_xr_and_is_no_error() {
    assert_eq!(status_after_setup(true), XrEnableStatus::Enabled);
    assert_eq!(status_after_setup(false), XrEnableStatus::Disabled);
}

#[test]
fn the_runtime_is_driven_only_while_xr_is_enabled() {
    assert!(xr_only(XrEnableStatus::Enabled));
    assert!(!xr_only(XrEnableStatus::Disabled));
    assert!(!xr_only(XrEnableStatus::Waiting));
}

#[test]
fn the_setup_is_over_unless_it_is_waited_for() {
    assert!(ready(None));
    assert!(ready(Some(XrEnableStatus::Enabled)));
    assert!(ready(Some(XrEnableStatus::Disabled)));
    assert!(!ready(Some(XrEnableStatus::Waiting)));
}
