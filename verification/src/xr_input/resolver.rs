//! Reading actions: the values of the last sync, by name and hand.
//!
//! Once per tick the runtime syncs the action sets, and what it then
//! reports for each action is stored in an [`InputSnapshot`]. Reads are
//! answered from the snapshot until the next sync replaces it. An action
//! is asked for by the name of its set, its own name and, for a two-handed
//! action, the hand; it answers only under the type it was declared with.
//! An action without a reading, because nothing is bound to it or the hand
//! is not tracked, reads as the default of its type.

use vstd::prelude::*;
use crate::space::{PoseBits, ZERO_BITS};
use crate::xr_input::Hand;
use crate::xr_input::actions::{
    ActionError, ActionHandednes, ActionHandle, ActionType, NULL_PATH, ResolvedSetModel,
    TypedAction, XrActionSets, find_action_of_type,
};

verus! {

/// The runtime's paths for the two hands, as it handed them out at setup.
/// They are fixed before the first tick and never change.
#[derive(Clone, Copy, Debug, PartialEq, Eq, Structural)]
pub struct SubactionPaths {
    pub left: u64,
    pub right: u64,
}

impl SubactionPaths {
    /// The path of a hand.
    pub open spec fn of(self, hand: Hand) -> u64 {
        match hand {
            Hand::Left => self.left,
            Hand::Right => self.right,
        }
    }

    /// The path under which an action is read: a single action has no hand
    /// and is read under the null path whatever hand is asked for; a
    /// two-handed action is read under the path of the hand asked for, and
    /// under the null path where none is.
    pub open spec fn path_for(self, handednes: ActionHandednes, hand: Option<Hand>) -> u64 {
        match (handednes, hand) {
            (ActionHandednes::Double, Some(hand)) => self.of(hand),
            _ => NULL_PATH,
        }
    }

    /// The path under which an action is read.
    pub fn resolve(&self, handednes: ActionHandednes, hand: Option<Hand>) -> (path: u64)
        ensures
            path == self.path_for(handednes, hand),
    {
        match (handednes, hand) {
            (ActionHandednes::Double, Some(Hand::Left)) => self.left,
            (ActionHandednes::Double, Some(Hand::Right)) => self.right,
            _ => NULL_PATH,
        }
    }
}

/// What an action reports. Floats are carried as their bit patterns.
#[derive(Clone, Copy, Debug, PartialEq, Eq, Structural)]
pub enum ActionValue {
    Bool(bool),
    F32(u32),
    Vec2(u32, u32),
    Pose(PoseBits),
}

/// What the runtime reported for one action under one path.
#[derive(Clone, Copy, Debug, PartialEq, Eq, Structural)]
pub struct ActionReading {
    pub set: usize,
    pub action: usize,
    pub path: u64,
    pub value: ActionValue,
}

/// An action to read under a path.
#[derive(Clone, Copy, Debug, PartialEq, Eq, Structural)]
pub struct StateQuery {
    pub action: TypedAction,
    pub path: u64,
}

/// The first reading of the given action under the given path, if any.
pub open spec fn reading_of(readings: Seq<ActionReading>, set: usize, action: usize, path: u64) -> Option<
    ActionValue,
>
    decreases readings.len(),
{
    if readings.len() == 0 {
        None
    } else if readings[0].set == set && readings[0].action == action && readings[0].path == path {
        Some(readings[0].value)
    } else {
        reading_of(readings.drop_first(), set, action, path)
    }
}

/// A boolean reading, or `false` where there is none.
pub open spec fn bool_state(found: Option<ActionValue>) -> bool {
    match found {
        Some(ActionValue::Bool(state)) => state,
        _ => false,
    }
}

/// A float reading, or `0.0` where there is none.
pub open spec fn f32_state(found: Option<ActionValue>) -> u32 {
    match found {
        Some(ActionValue::F32(state)) => state,
        _ => ZERO_BITS,
    }
}

/// A two-dimensional reading, or `(0.0, 0.0)` where there is none.
pub open spec fn vec2_state(found: Option<ActionValue>) -> (u32, u32) {
    match found {
        Some(ActionValue::Vec2(x, y)) => (x, y),
        _ => (ZERO_BITS, ZERO_BITS),
    }
}

/// A pose reading, or the identity where there is none.
pub open spec fn pose_state(found: Option<ActionValue>) -> PoseBits {
    match found {
        Some(ActionValue::Pose(pose)) => pose,
        _ => PoseBits::spec_identity(),
    }
}

/// What is read for an action of type `asked`: the place of the action
/// and its reading, or the error of asking for it.
pub open spec fn read(
    sets: Seq<(Seq<char>, ResolvedSetModel)>,
    paths: SubactionPaths,
    readings: Seq<ActionReading>,
    action_set: Seq<char>,
    action_name: Seq<char>,
    hand: Option<Hand>,
    asked: ActionType,
) -> Result<Option<ActionValue>, ActionError> {
    match find_action_of_type(sets, action_set, action_name, asked) {
        Err(error) => Err(error),
        Ok(handle) => Ok(
            reading_of(
                readings,
                handle.set,
                handle.action,
                paths.path_for(handle.handednes, hand),
            ),
        ),
    }
}

/// The readings of the last sync.
pub struct InputSnapshot {
    readings: Vec<ActionReading>,
}

impl View for InputSnapshot {
    type V = Seq<ActionReading>;

    closed spec fn view(&self) -> Seq<ActionReading> {
        self.readings@
    }
}

impl InputSnapshot {
    /// The snapshot before the first sync: no action has a reading.
    pub fn new() -> (snapshot: InputSnapshot)
        ensures
            snapshot@ == Seq::<ActionReading>::empty(),
    {
        InputSnapshot { readings: Vec::new() }
    }

    /// Takes the readings of a sync. They replace those of the sync before.
    pub fn sync(&mut self, readings: Vec<ActionReading>)
        ensures
            final(self)@ == readings@,
    {
        self.readings = readings;
    }

    /// The reading of the action at `handle` under `path`.
    fn reading(&self, handle: ActionHandle, path: u64) -> (found: Option<ActionValue>)
        ensures
            found == reading_of(self@, handle.set, handle.action, path),
    {
        let mut i: usize = 0;
        assert(self@.skip(0) =~= self@);
        while i < self.readings.len()
            invariant
                i <= self.readings@.len(),
                reading_of(self@, handle.set, handle.action, path) == reading_of(
                    self@.skip(i as int),
                    handle.set,
                    handle.action,
                    path,
                ),
            decreases self.readings@.len() - i,
        {
            let reading = self.readings[i];
            if reading.set == handle.set && reading.action == handle.action && reading.path
                == path {
                assert(self@.skip(i as int)[0] == reading);
                return Some(reading.value);
            }
            assert(self@.skip(i as int)[0] == reading);
            assert(self@.skip(i as int).drop_first() =~= self@.skip(i + 1));
            i += 1;
        }
        assert(self@.skip(i as int).len() == 0);
        None
    }

    /// The state of a boolean action, `false` where it has no reading.
    pub fn get_bool(
        &self,
        action_sets: &XrActionSets,
        paths: &SubactionPaths,
        action_set: &'static str,
        action_name: &'static str,
        hand: Option<Hand>,
    ) -> (state: Result<bool, ActionError>)
        requires
            action_sets.wf(),
        ensures
            state == (match read(
                action_sets@,
                *paths,
                self@,
                action_set@,
                action_name@,
                hand,
                ActionType::Bool,
            ) {
                Ok(found) => Ok(bool_state(found)),
                Err(error) => Err(error),
            }),
    {
        match action_sets.get_action_bool(action_set, action_name) {
            Err(error) => Err(error),
            Ok(handle) => match self.reading(handle, paths.resolve(handle.handednes, hand)) {
                Some(ActionValue::Bool(state)) => Ok(state),
                _ => Ok(false),
            },
        }
    }

    /// The state of a float action, as its bits; `0.0` where it has no reading.
    pub fn get_f32(
        &self,
        action_sets: &XrActionSets,
        paths: &SubactionPaths,
        action_set: &'static str,
        action_name: &'static str,
        hand: Option<Hand>,
    ) -> (state: Result<u32, ActionError>)
        requires
            action_sets.wf(),
        ensures
            state == (match read(
                action_sets@,
                *paths,
                self@,
                action_set@,
                action_name@,
                hand,
                ActionType::F32,
            ) {
                Ok(found) => Ok(f32_state(found)),
                Err(error) => Err(error),
            }),
    {
        match action_sets.get_action_f32(action_set, action_name) {
            Err(error) => Err(error),
            Ok(handle) => match self.reading(handle, paths.resolve(handle.handednes, hand)) {
                Some(ActionValue::F32(state)) => Ok(state),
                _ => Ok(ZERO_BITS),
            },
        }
    }

    /// The state of a two-dimensional action, as the bits of its
    /// coordinates; `(0.0, 0.0)` where it has no reading.
    pub fn get_vec2(
        &self,
        action_sets: &XrActionSets,
        paths: &SubactionPaths,
        action_set: &'static str,
        action_name: &'static str,
        hand: Option<Hand>,
    ) -> (state: Result<(u32, u32), ActionError>)
        requires
            action_sets.wf(),
        ensures
            state == (match read(
                action_sets@,
                *paths,
                self@,
                action_set@,
                action_name@,
                hand,
                ActionType::Vec2,
            ) {
                Ok(found) => Ok(vec2_state(found)),
                Err(error) => Err(error),
            }),
    {
        match action_sets.get_action_vec2(action_set, action_name) {
            Err(error) => Err(error),
            Ok(handle) => match self.reading(handle, paths.resolve(handle.handednes, hand)) {
                Some(ActionValue::Vec2(x, y)) => Ok((x, y)),
                _ => Ok((ZERO_BITS, ZERO_BITS)),
            },
        }
    }

    /// The pose of a pose action; the identity where it has no reading.
    pub fn get_pose(
        &self,
        action_sets: &XrActionSets,
        paths: &SubactionPaths,
        action_set: &'static str,
        action_name: &'static str,
        hand: Option<Hand>,
    ) -> (state: Result<PoseBits, ActionError>)
        requires
            action_sets.wf(),
        ensures
            state == (match read(
                action_sets@,
                *paths,
                self@,
                action_set@,
                action_name@,
                hand,
                ActionType::PoseF,
            ) {
                Ok(found) => Ok(pose_state(found)),
                Err(error) => Err(error),
            }),
    {
        match action_sets.get_action_posef(action_set, action_name) {
            Err(error) => Err(error),
            Ok(handle) => match self.reading(handle, paths.resolve(handle.handednes, hand)) {
                Some(ActionValue::Pose(pose)) => Ok(pose),
                _ => Ok(PoseBits::identity()),
            },
        }
    }

    /// Where to send haptic feedback: the action and the path of the hand.
    /// A haptic action reports nothing, so nothing is read.
    pub fn get_haptic(
        &self,
        action_sets: &XrActionSets,
        paths: &SubactionPaths,
        action_set: &'static str,
        action_name: &'static str,
        hand: Option<Hand>,
    ) -> (target: Result<StateQuery, ActionError>)
        requires
            action_sets.wf(),
        ensures
            target == (match find_action_of_type(
                action_sets@,
                action_set@,
                action_name@,
                ActionType::Haptic,
            ) {
                Ok(handle) => Ok(
                    StateQuery {
                        action: TypedAction::Haptic(handle),
                        path: paths.path_for(handle.handednes, hand),
                    },
                ),
                Err(error) => Err(error),
            }),
    {
        match action_sets.get_action_haptic(action_set, action_name) {
            Err(error) => Err(error),
            Ok(handle) => Ok(
                StateQuery {
                    action: TypedAction::Haptic(handle),
                    path: paths.resolve(handle.handednes, hand),
                },
            ),
        }
    }
}

/// What can be done with a snapshot.
pub enum InputOp {
    /// A sync that brings these readings.
    Sync(Seq<ActionReading>),
    /// A read of any action.
    Read,
}

/// The snapshot after one operation: a sync replaces it, a read leaves it.
pub open spec fn snapshot_after(snapshot: Seq<ActionReading>, op: InputOp) -> Seq<ActionReading> {
    match op {
        InputOp::Sync(readings) => readings,
        InputOp::Read => snapshot,
    }
}

/// The snapshot after each of `ops`, first to last.
pub open spec fn snapshot_after_all(snapshot: Seq<ActionReading>, ops: Seq<InputOp>) -> Seq<
    ActionReading,
>
    decreases ops.len(),
{
    if ops.len() == 0 {
        snapshot
    } else {
        snapshot_after(snapshot_after_all(snapshot, ops.drop_last()), ops.last())
    }
}

/// The readings of the last sync among `ops`, or `snapshot` where none of them is a sync.
pub open spec fn last_synced(snapshot: Seq<ActionReading>, ops: Seq<InputOp>) -> Seq<ActionReading>
    decreases ops.len(),
{
    if ops.len() == 0 {
        snapshot
    } else {
        match ops.last() {
            InputOp::Sync(readings) => readings,
            InputOp::Read => last_synced(snapshot, ops.drop_last()),
        }
    }
}

/// A read is answered from the readings of the last sync before it,
/// however many reads lie between: right after a sync these are the
/// values just synced, and without a sync since the tick before they are
/// still that tick's values.
pub proof fn lemma_reads_see_last_sync(snapshot: Seq<ActionReading>, ops: Seq<InputOp>)
    ensures
        snapshot_after_all(snapshot, ops) == last_synced(snapshot, ops),
    decreases ops.len(),
{
    if ops.len() > 0 {
        lemma_reads_see_last_sync(snapshot, ops.drop_last());
    }
}

/// What there is to read of an action after a sync: nothing of a haptic
/// action; a single action under the null path; a two-handed action under
/// the path of each hand, left first.
pub open spec fn queries_for(action: TypedAction, paths: SubactionPaths) -> Seq<StateQuery> {
    if action is Haptic {
        Seq::empty()
    } else {
        match action.spec_handle().handednes {
            ActionHandednes::Single => seq![StateQuery { action, path: NULL_PATH }],
            ActionHandednes::Double => seq![
                StateQuery { action, path: paths.left },
                StateQuery { action, path: paths.right },
            ],
        }
    }
}

/// What there is to read of the actions of a set, action by action.
pub open spec fn set_queries(actions: Seq<(Seq<char>, TypedAction)>, paths: SubactionPaths) -> Seq<
    StateQuery,
>
    decreases actions.len(),
{
    if actions.len() == 0 {
        Seq::empty()
    } else {
        set_queries(actions.drop_last(), paths) + queries_for(actions.last().1, paths)
    }
}

/// What there is to read of all action sets, set by set.
pub open spec fn all_queries(sets: Seq<(Seq<char>, ResolvedSetModel)>, paths: SubactionPaths) -> Seq<
    StateQuery,
>
    decreases sets.len(),
{
    if sets.len() == 0 {
        Seq::empty()
    } else {
        all_queries(sets.drop_last(), paths) + set_queries(sets.last().1.actions, paths)
    }
}

/// Lists what is to be read after a sync, so that the next snapshot has a
/// reading for whatever may be asked.
pub fn state_queries(action_sets: &XrActionSets, paths: &SubactionPaths) -> (queries: Vec<
    StateQuery,
>)
    requires
        action_sets.wf(),
    ensures
        queries@ == all_queries(action_sets@, *paths),
{
    let ghost sets = action_sets@;
    let mut queries: Vec<StateQuery> = Vec::new();
    let n = action_sets.len();
    let mut i: usize = 0;
    proof {
        assert(sets.take(0) =~= Seq::<(Seq<char>, ResolvedSetModel)>::empty());
    }
    while i < n
        invariant
            i <= n,
            n == sets.len(),
            sets == action_sets@,
            action_sets.wf(),
            queries@ == all_queries(sets.take(i as int), *paths),
        decreases n - i,
    {
        let ghost actions = sets[i as int].1.actions;
        let ghost before = queries@;
        let m = action_sets.set_len(i);
        let mut j: usize = 0;
        proof {
            assert(actions.take(0) =~= Seq::<(Seq<char>, TypedAction)>::empty());
            assert(before + Seq::<StateQuery>::empty() =~= before);
        }
        while j < m
            invariant
                j <= m,
                i < n,
                n == sets.len(),
                sets == action_sets@,
                action_sets.wf(),
                actions == sets[i as int].1.actions,
                m == actions.len(),
                queries@ == before + set_queries(actions.take(j as int), *paths),
            decreases m - j,
        {
            let action = action_sets.action(i, j);
            let ghost earlier = queries@;
            match action {
                TypedAction::Haptic(_) => {},
                _ => match action.handle().handednes {
                    ActionHandednes::Single => {
                        queries.push(StateQuery { action, path: NULL_PATH });
                    },
                    ActionHandednes::Double => {
                        queries.push(StateQuery { action, path: paths.left });
                        queries.push(StateQuery { action, path: paths.right });
                    },
                },
            }
            proof {
                assert(queries@ =~= earlier + queries_for(action, *paths));
                assert(actions.take(j + 1).drop_last() =~= actions.take(j as int));
                assert(actions.take(j + 1).last() == actions[j as int]);
                assert(queries@ =~= before + set_queries(actions.take(j + 1), *paths));
            }
            j += 1;
        }
        proof {
            assert(actions.take(m as int) =~= actions);
            assert(sets.take(i + 1).drop_last() =~= sets.take(i as int));
            assert(sets.take(i + 1).last() == sets[i as int]);
        }
        i += 1;
    }
    proof {
        assert(sets.take(n as int) =~= sets);
    }
    queries
}

} // verus!
