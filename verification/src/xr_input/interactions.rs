//! Interactors and the things they touch.
//!
//! Whether an interactor reaches an interactable is a matter of geometry
//! and is decided elsewhere. What follows from it is decided here: the
//! state an interactable is put in, and how the states of all
//! interactables follow from the events of a frame.

use vstd::prelude::*;

verus! {

/// Whether an interactable was touched this frame.
#[derive(Clone, Copy, Debug, PartialEq, Eq, Structural)]
pub struct Touched(pub bool);

/// What is happening to an interactable.
#[derive(Clone, Copy, Debug, PartialEq, Eq, Structural)]
pub enum XRInteractableState {
    Idle,
    Hover,
    Select,
}

impl Default for XRInteractableState {
    fn default() -> (state: Self)
        ensures
            state == XRInteractableState::Idle,
    {
        XRInteractableState::Idle
    }
}

/// What an interactor is doing.
#[derive(Clone, Copy, Debug, PartialEq, Eq, Structural)]
pub enum XRInteractorState {
    Idle,
    Selecting,
}

impl Default for XRInteractorState {
    fn default() -> (state: Self)
        ensures
            state == XRInteractorState::Idle,
    {
        XRInteractorState::Idle
    }
}

/// What an interactor holds: nothing, or the entity of that identifier.
#[derive(Clone, Copy, Debug, PartialEq, Eq, Structural)]
pub enum XRSelection {
    Empty,
    Full(u64),
}

impl Default for XRSelection {
    fn default() -> (selection: Self)
        ensures
            selection == XRSelection::Empty,
    {
        XRSelection::Empty
    }
}

/// An interactor has reached an interactable. Entities are given by their
/// identifiers.
#[derive(Clone, Copy, Debug, PartialEq, Eq, Structural)]
pub struct InteractionEvent {
    pub interactor: u64,
    pub interactable: u64,
    pub interactable_state: XRInteractableState,
}

/// The state an interactor puts what it reaches in: it selects while it
/// is selecting, and hovers otherwise.
pub open spec fn state_under(interactor_state: XRInteractorState) -> XRInteractableState {
    match interactor_state {
        XRInteractorState::Idle => XRInteractableState::Hover,
        XRInteractorState::Selecting => XRInteractableState::Select,
    }
}

/// What a socket does to an interactable: where the two overlap, the
/// interactable is hovered or, by a selecting socket, selected.
pub fn socket_interactions(
    interactor: u64,
    interactor_state: XRInteractorState,
    interactable: u64,
    overlaps: bool,
) -> (event: Option<InteractionEvent>)
    ensures
        event == (if overlaps {
            Some(
                InteractionEvent {
                    interactor,
                    interactable,
                    interactable_state: state_under(interactor_state),
                },
            )
        } else {
            None
        }),
{
    if overlaps {
        let interactable_state = match interactor_state {
            XRInteractorState::Idle => XRInteractableState::Hover,
            XRInteractorState::Selecting => XRInteractableState::Select,
        };
        Some(InteractionEvent { interactor, interactable, interactable_state })
    } else {
        None
    }
}

/// What an interactor does to an interactable.
///
/// A direct interactor that overlaps the interactable hovers over it,
/// whatever the interactor is doing. A ray interactor whose ray hits the
/// interactable hovers over it or, while selecting, selects it. An
/// interactor that is both gives both events, the direct one first.
pub open spec fn interaction_events(
    interactor: u64,
    interactor_state: XRInteractorState,
    interactable: u64,
    direct_overlaps: bool,
    ray_hits: bool,
) -> Seq<InteractionEvent> {
    let direct = if direct_overlaps {
        seq![
            InteractionEvent {
                interactor,
                interactable,
                interactable_state: XRInteractableState::Hover,
            },
        ]
    } else {
        Seq::empty()
    };
    let ray = if ray_hits {
        seq![
            InteractionEvent {
                interactor,
                interactable,
                interactable_state: state_under(interactor_state),
            },
        ]
    } else {
        Seq::empty()
    };
    direct + ray
}

/// The events of one interactor and one interactable. `direct_overlaps`
/// says that the interactor is a direct one and overlaps the interactable;
/// `ray_hits` that it is a ray interactor with an aim whose ray hits it.
pub fn interactions(
    interactor: u64,
    interactor_state: XRInteractorState,
    interactable: u64,
    direct_overlaps: bool,
    ray_hits: bool,
) -> (events: Vec<InteractionEvent>)
    ensures
        events@ == interaction_events(
            interactor,
            interactor_state,
            interactable,
            direct_overlaps,
            ray_hits,
        ),
{
    let mut events: Vec<InteractionEvent> = Vec::new();
    if direct_overlaps {
        events.push(
            InteractionEvent {
                interactor,
                interactable,
                interactable_state: XRInteractableState::Hover,
            },
        );
    }
    if ray_hits {
        let interactable_state = match interactor_state {
            XRInteractorState::Idle => XRInteractableState::Hover,
            XRInteractorState::Selecting => XRInteractableState::Select,
        };
        events.push(InteractionEvent { interactor, interactable, interactable_state });
    }
    assert(events@ =~= interaction_events(
        interactor,
        interactor_state,
        interactable,
        direct_overlaps,
        ray_hits,
    ));
    events
}

/// An interactable with its state.
#[derive(Clone, Copy, Debug, PartialEq, Eq, Structural)]
pub struct Interactable {
    pub entity: u64,
    pub state: XRInteractableState,
    pub touched: Touched,
}

/// The state of the last event that reached `entity`, if any did.
pub open spec fn last_state_of(events: Seq<InteractionEvent>, entity: u64) -> Option<
    XRInteractableState,
>
    decreases events.len(),
{
    if events.len() == 0 {
        None
    } else if events.last().interactable == entity {
        Some(events.last().interactable_state)
    } else {
        last_state_of(events.drop_last(), entity)
    }
}

/// An interactable after the events of a frame: one that an event reached
/// was touched and is in the state of the last such event; any other was
/// not touched and is idle.
pub open spec fn updated(interactable: Interactable, events: Seq<InteractionEvent>) -> Interactable {
    match last_state_of(events, interactable.entity) {
        Some(state) => Interactable { entity: interactable.entity, state, touched: Touched(true) },
        None => Interactable {
            entity: interactable.entity,
            state: XRInteractableState::Idle,
            touched: Touched(false),
        },
    }
}

/// Brings the interactables up to date with the events of a frame.
pub fn update_interactable_states(
    events: &Vec<InteractionEvent>,
    interactables: &mut Vec<Interactable>,
)
    ensures
        final(interactables)@.len() == old(interactables)@.len(),
        forall|i: int|
            0 <= i < old(interactables)@.len() ==> #[trigger] final(interactables)@[i] == updated(
                old(interactables)@[i],
                events@,
            ),
{
    let n = interactables.len();
    let mut i: usize = 0;
    while i < n
        invariant
            i <= n,
            n == interactables@.len(),
            n == old(interactables)@.len(),
            forall|k: int|
                0 <= k < i ==> #[trigger] interactables@[k] == updated(
                    old(interactables)@[k],
                    events@,
                ),
            forall|k: int| i <= k < n ==> #[trigger] interactables@[k] == old(interactables)@[k],
        decreases n - i,
    {
        let entity = interactables[i].entity;
        let mut found: Option<XRInteractableState> = None;
        let mut e: usize = 0;
        assert(events@.take(0) =~= Seq::<InteractionEvent>::empty());
        while e < events.len()
            invariant
                e <= events@.len(),
                found == last_state_of(events@.take(e as int), entity),
            decreases events@.len() - e,
        {
            if events[e].interactable == entity {
                found = Some(events[e].interactable_state);
            }
            assert(events@.take(e + 1).drop_last() =~= events@.take(e as int));
            assert(events@.take(e + 1).last() == events@[e as int]);
            e += 1;
        }
        assert(events@.take(e as int) =~= events@);
        let next = match found {
            Some(state) => Interactable { entity, state, touched: Touched(true) },
            None => Interactable {
                entity,
                state: XRInteractableState::Idle,
                touched: Touched(false),
            },
        };
        interactables[i] = next;
        i += 1;
    }
}

} // verus!
