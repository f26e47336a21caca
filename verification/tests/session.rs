use bevy_oxr::session::{is_legal_edge, SessionState};

fn all_states() -> [SessionState; 9] {
    [
        SessionState::Unknown,
        SessionState::Idle,
        SessionState::Ready,
        SessionState::Synchronized,
        SessionState::Visible,
        SessionState::Focused,
        SessionState::Stopping,
        SessionState::LossPending,
        SessionState::Exiting,
    ]
}

#[test]
fn session_states_have_the_runtimes_numbers() {
    assert_eq!(SessionState::Unknown.into_raw(), openxr::SessionState::UNKNOWN.into_raw());
    assert_eq!(SessionState::Idle.into_raw(), openxr::SessionState::IDLE.into_raw());
    assert_eq!(SessionState::Ready.into_raw(), openxr::SessionState::READY.into_raw());
    assert_eq!(
        SessionState::Synchronized.into_raw(),
        openxr::SessionState::SYNCHRONIZED.into_raw()
    );
    assert_eq!(SessionState::Visible.into_raw(), openxr::SessionState::VISIBLE.into_raw());
    assert_eq!(SessionState::Focused.into_raw(), openxr::SessionState::FOCUSED.into_raw());
    assert_eq!(SessionState::Stopping.into_raw(), openxr::SessionState::STOPPING.into_raw());
    assert_eq!(
        SessionState::LossPending.into_raw(),
        openxr::SessionState::LOSS_PENDING.into_raw()
    );
    assert_eq!(SessionState::Exiting.into_raw(), openxr::SessionState::EXITING.into_raw());
}

#[test]
fn session_states_are_read_from_the_runtimes_numbers() {
    assert_eq!(
        SessionState::from_raw(openxr::SessionState::READY.into_raw()),
        SessionState::Ready
    );
    assert_eq!(
        SessionState::from_raw(openxr::SessionState::EXITING.into_raw()),
        SessionState::Exiting
    );
    assert_eq!(SessionState::from_raw(2), SessionState::Ready);
    assert_eq!(SessionState::from_raw(6), SessionState::Stopping);
    assert_eq!(SessionState::from_raw(7), SessionState::LossPending);
}

#[test]
fn session_state_and_number_stand_for_each_other() {
    for state in all_states() {
        assert_eq!(SessionState::from_raw(state.into_raw()), state);
    }
}

#[test]
fn unknown_numbers_read_as_unknown() {
    assert_eq!(SessionState::from_raw(0), SessionState::Unknown);
    assert_eq!(SessionState::from_raw(9), SessionState::Unknown);
    assert_eq!(SessionState::from_raw(-1), SessionState::Unknown);
    assert_eq!(SessionState::from_raw(i32::MAX), SessionState::Unknown);
    assert_eq!(SessionState::from_raw(i32::MIN), SessionState::Unknown);
}

#[test]
fn only_lost_and_exiting_sessions_are_terminal() {
    for state in all_states() {
        let expected =
            matches!(state, SessionState::LossPending | SessionState::Exiting);
        assert_eq!(state.terminal(), expected);
    }
}

#[test]
fn the_life_cycle_has_its_edges() {
    assert!(is_legal_edge(SessionState::Unknown, SessionState::Idle));
    assert!(is_legal_edge(SessionState::Idle, SessionState::Ready));
    assert!(is_legal_edge(SessionState::Ready, SessionState::Synchronized));
    assert!(is_legal_edge(SessionState::Synchronized, SessionState::Visible));
    assert!(is_legal_edge(SessionState::Visible, SessionState::Focused));
    assert!(is_legal_edge(SessionState::Focused, SessionState::Visible));
    assert!(is_legal_edge(SessionState::Visible, SessionState::Synchronized));
    assert!(is_legal_edge(SessionState::Synchronized, SessionState::Stopping));
    assert!(is_legal_edge(SessionState::Stopping, SessionState::Idle));
    assert!(is_legal_edge(SessionState::Idle, SessionState::Exiting));
}

#[test]
fn the_life_cycle_has_no_other_edges() {
    let mut legal = 0;
    for from in all_states() {
        for to in all_states() {
            if is_legal_edge(from, to) {
                legal += 1;
            }
        }
    }
    // The nine edges of the cycle that do not lead to Ready, and, from each
    // of the seven states that are not terminal, getting ready and the
    // loss of the session.
    assert_eq!(legal, 9 + 7 + 7);
    assert!(!is_legal_edge(SessionState::Unknown, SessionState::Synchronized));
    assert!(!is_legal_edge(SessionState::Idle, SessionState::Focused));
    assert!(!is_legal_edge(SessionState::Focused, SessionState::Exiting));
    assert!(!is_legal_edge(SessionState::Idle, SessionState::Idle));
}

#[test]
fn a_session_can_get_ready_from_any_state_that_is_not_terminal() {
    for from in all_states() {
        assert_eq!(is_legal_edge(from, SessionState::Ready), !from.terminal());
    }
    assert!(is_legal_edge(SessionState::Unknown, SessionState::Ready));
    assert!(is_legal_edge(SessionState::Ready, SessionState::Ready));
    assert!(!is_legal_edge(SessionState::Exiting, SessionState::Ready));
}

#[test]
fn nothing_follows_a_terminal_state() {
    for to in all_states() {
        assert!(!is_legal_edge(SessionState::Exiting, to));
        assert!(!is_legal_edge(SessionState::LossPending, to));
    }
}

#[test]
fn a_session_can_be_lost_from_any_state_that_is_not_terminal() {
    for from in all_states() {
        assert_eq!(is_legal_edge(from, SessionState::LossPending), !from.terminal());
    }
}
