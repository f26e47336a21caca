//! Declaring input actions and resolving them by name.
//!
//! Before a session's action sets are attached, the application declares
//! what it wants to read: action sets, the typed actions in each, and for
//! each interaction profile the input paths it suggests for an action. The
//! declarations live in [`SetupActionSets`]. [`setup_oxr_actions`] turns
//! them into the calls the runtime has to receive and into the registry,
//! [`XrActionSets`], that answers by name for the rest of the session.

use vstd::prelude::*;
use crate::xr_input::profiles::{
    BindingModel, BlockModel, action_at, action_blocks, add_block, add_blocks, all_blocks,
    bindings_for, grouped, lemma_add_blocks_concat, lemma_one_suggestion_per_profile, set_blocks,
};
use crate::name_table::{
    NameTable, distinct_keys, has_key, key_index, lemma_key_index, lemma_map_entries,
    lemma_map_upsert, lemma_upsert, lemma_upsert_again, map_entries, upsert, value_of,
};

verus! {

/// Whether an action is read once or once per hand.
#[derive(Clone, Copy, Debug, PartialEq, Eq, Structural)]
pub enum ActionHandednes {
    Single,
    Double,
}

/// The type of value an action carries.
#[derive(Clone, Copy, Debug, PartialEq, Eq, Structural)]
pub enum ActionType {
    F32,
    Bool,
    PoseF,
    Haptic,
    Vec2,
}

/// What went wrong when an action was asked for by name.
#[derive(Clone, Copy, Debug, PartialEq, Eq, Structural)]
pub enum ActionError {
    NoActionSet,
    NoAction,
    WrongActionType,
}

impl ActionError {
    /// The text of the error.
    pub open spec fn text(self) -> Seq<char> {
        match self {
            ActionError::NoActionSet => "Action Set Not Found!"@,
            ActionError::NoAction => "Action Not Found!"@,
            ActionError::WrongActionType => "Wrong Action Type!"@,
        }
    }

    /// The error as a message for a log or a user.
    pub fn message(&self) -> (message: String)
        ensures
            message@ == self.text(),
    {
        match self {
            ActionError::NoActionSet => "Action Set Not Found!".to_owned(),
            ActionError::NoAction => "Action Not Found!".to_owned(),
            ActionError::WrongActionType => "Wrong Action Type!".to_owned(),
        }
    }
}

/// The suggestion to bind one action to one input path.
pub struct XrBinding {
    action: &'static str,
    path: &'static str,
}

impl View for XrBinding {
    type V = (Seq<char>, Seq<char>);

    /// The action's name and the input path.
    closed spec fn view(&self) -> (Seq<char>, Seq<char>) {
        (self.action@, self.path@)
    }
}

impl XrBinding {
    /// The suggestion to bind the action `action_name` to `binding_path`.
    pub fn new(action_name: &'static str, binding_path: &'static str) -> (binding: XrBinding)
        ensures
            binding@ == (action_name@, binding_path@),
    {
        XrBinding { action: action_name, path: binding_path }
    }
}

/// The suggestions of a slice, each as the pair of action name and path.
pub open spec fn binding_pairs(bindings: Seq<XrBinding>) -> Seq<(Seq<char>, Seq<char>)> {
    Seq::new(bindings.len(), |i: int| bindings[i]@)
}

/// The characters of each path of a list.
pub open spec fn paths_of(paths: Vec<&'static str>) -> Seq<Seq<char>> {
    Seq::new(paths@.len(), |i: int| paths@[i]@)
}

/// The input paths suggested per interaction profile, after `path` is
/// suggested for the profile `device`: it joins the paths that profile
/// already has, or opens the profile's entry.
pub open spec fn with_path(
    bindings: Seq<(Seq<char>, Seq<Seq<char>>)>,
    device: Seq<char>,
    path: Seq<char>,
) -> Seq<(Seq<char>, Seq<Seq<char>>)> {
    if has_key(bindings, device) {
        let at = key_index(bindings, device);
        bindings.update(at, (device, bindings[at].1.push(path)))
    } else {
        bindings.push((device, seq![path]))
    }
}

/// The model of a declared action.
pub struct ActionModel {
    pub pretty_name: Seq<char>,
    pub action_type: ActionType,
    pub handednes: ActionHandednes,
    /// For each interaction profile, in order of first suggestion, the input
    /// paths suggested for this action, in order of suggestion.
    pub bindings: Seq<(Seq<char>, Seq<Seq<char>>)>,
}

/// The model of a declared action set.
pub struct ActionSetModel {
    pub pretty_name: Seq<char>,
    pub priority: u32,
    /// The actions by name, in order of first declaration.
    pub actions: Seq<(Seq<char>, ActionModel)>,
}

impl ActionSetModel {
    /// Whether an action of this name is declared.
    pub open spec fn declares(self, action: Seq<char>) -> bool {
        has_key(self.actions, action)
    }

    /// Whether every suggestion names a declared action.
    pub open spec fn declares_all(self, bindings: Seq<(Seq<char>, Seq<char>)>) -> bool {
        forall|i: int| 0 <= i < bindings.len() ==> self.declares((#[trigger] bindings[i]).0)
    }

    /// The action of the first suggestion that names an action which is
    /// not declared, if there is such a suggestion.
    pub open spec fn first_undeclared(self, bindings: Seq<(Seq<char>, Seq<char>)>) -> Option<
        Seq<char>,
    >
        decreases bindings.len(),
    {
        if bindings.len() == 0 {
            None
        } else if !self.declares(bindings[0].0) {
            Some(bindings[0].0)
        } else {
            self.first_undeclared(bindings.drop_first())
        }
    }

    /// There is a first undeclared action exactly where not every
    /// suggestion names a declared one, and it is not declared.
    pub proof fn lemma_first_undeclared(self, bindings: Seq<(Seq<char>, Seq<char>)>)
        ensures
            self.first_undeclared(bindings) is None <==> self.declares_all(bindings),
            self.first_undeclared(bindings) matches Some(action) ==> !self.declares(action),
        decreases bindings.len(),
    {
        if bindings.len() > 0 {
            let rest = bindings.drop_first();
            self.lemma_first_undeclared(rest);
            if self.declares(bindings[0].0) {
                if self.declares_all(rest) {
                    assert forall|i: int| 0 <= i < bindings.len() implies self.declares(
                        (#[trigger] bindings[i]).0,
                    ) by {
                        if i > 0 {
                            assert(bindings[i] == rest[i - 1]);
                        }
                    }
                }
                if self.declares_all(bindings) {
                    assert forall|i: int| 0 <= i < rest.len() implies self.declares(
                        (#[trigger] rest[i]).0,
                    ) by {
                        assert(rest[i] == bindings[i + 1]);
                    }
                }
            } else {
                assert(bindings[0].0 == bindings[0].0);
            }
        }
    }

    /// The set after an action is declared. Declaring a name again replaces
    /// the earlier declaration, suggestions included.
    pub open spec fn with_action(
        self,
        name: Seq<char>,
        pretty_name: Seq<char>,
        action_type: ActionType,
        handednes: ActionHandednes,
    ) -> ActionSetModel {
        ActionSetModel {
            actions: upsert(
                self.actions,
                name,
                ActionModel { pretty_name, action_type, handednes, bindings: Seq::empty() },
            ),
            ..self
        }
    }

    /// Declaring an action makes its name declared and leaves every name
    /// declared that was.
    pub proof fn lemma_with_action(
        self,
        name: Seq<char>,
        pretty_name: Seq<char>,
        action_type: ActionType,
        handednes: ActionHandednes,
    )
        ensures
            self.with_action(name, pretty_name, action_type, handednes).declares(name),
            forall|other: Seq<char>|
                self.declares(other) ==> #[trigger] self.with_action(
                    name,
                    pretty_name,
                    action_type,
                    handednes,
                ).declares(other),
    {
        let after = self.with_action(name, pretty_name, action_type, handednes).actions;
        let at = if has_key(self.actions, name) {
            key_index(self.actions, name)
        } else {
            self.actions.len() as int
        };
        assert(after[at].0 == name);
        assert forall|other: Seq<char>| self.declares(other) implies has_key(after, other) by {
            let k = key_index(self.actions, other);
            assert(after[k].0 == other);
        }
    }

    /// Whether every name of `names` is declared.
    #[verifier::opaque]
    pub open spec fn declares_each(self, names: Set<Seq<char>>) -> bool {
        forall|name: Seq<char>| names.contains(name) ==> self.declares(name)
    }

    /// Of no names, each is declared.
    pub proof fn lemma_declares_none(self)
        ensures
            self.declares_each(Set::empty()),
    {
        reveal(ActionSetModel::declares_each);
    }

    /// After an action is declared, the names declared before and its own are declared.
    pub proof fn lemma_declares_one_more(
        self,
        names: Set<Seq<char>>,
        name: Seq<char>,
        pretty_name: Seq<char>,
        action_type: ActionType,
        handednes: ActionHandednes,
    )
        requires
            self.declares_each(names),
        ensures
            self.with_action(name, pretty_name, action_type, handednes).declares_each(
                names.insert(name),
            ),
    {
        reveal(ActionSetModel::declares_each);
        self.lemma_with_action(name, pretty_name, action_type, handednes);
    }

    /// Suggestions that all name declared actions still do so with one
    /// more whose action is declared.
    pub proof fn lemma_declares_all_push(
        self,
        names: Set<Seq<char>>,
        bindings: Seq<(Seq<char>, Seq<char>)>,
        action: Seq<char>,
        path: Seq<char>,
    )
        requires
            self.declares_each(names),
            names.contains(action),
            self.declares_all(bindings),
        ensures
            self.declares_all(bindings.push((action, path))),
    {
        reveal(ActionSetModel::declares_each);
        let longer = bindings.push((action, path));
        assert forall|i: int| 0 <= i < longer.len() implies self.declares(
            (#[trigger] longer[i]).0,
        ) by {
            if i < bindings.len() {
                assert(longer[i] == bindings[i]);
            }
        }
    }

    /// The type and the handedness that the action named `name` is declared
    /// with, if it is declared.
    pub open spec fn declared_as(self, name: Seq<char>) -> Option<(ActionType, ActionHandednes)> {
        match value_of(self.actions, name) {
            Some(action) => Some((action.action_type, action.handednes)),
            None => None,
        }
    }

    /// Whether the set declares exactly the names of `kinds`, each once and
    /// with the type and handedness that `kinds` gives it.
    #[verifier::opaque]
    pub open spec fn has_kinds(self, kinds: Map<Seq<char>, (ActionType, ActionHandednes)>) -> bool {
        &&& distinct_keys(self.actions)
        &&& forall|name: Seq<char>| #[trigger]
            self.declared_as(name) == (if kinds.contains_key(name) {
                Some(kinds[name])
            } else {
                None
            })
    }

    /// A set without actions has no kinds.
    pub proof fn lemma_kinds_none(self)
        requires
            self.actions.len() == 0,
        ensures
            self.has_kinds(Map::empty()),
    {
        reveal(ActionSetModel::has_kinds);
    }

    /// Declaring an action gives its name the declared kind and leaves the
    /// kinds of all other names as they were.
    pub proof fn lemma_kinds_one_more(
        self,
        kinds: Map<Seq<char>, (ActionType, ActionHandednes)>,
        name: Seq<char>,
        pretty_name: Seq<char>,
        action_type: ActionType,
        handednes: ActionHandednes,
    )
        requires
            self.has_kinds(kinds),
        ensures
            self.with_action(name, pretty_name, action_type, handednes).has_kinds(
                kinds.insert(name, (action_type, handednes)),
            ),
    {
        reveal(ActionSetModel::has_kinds);
        let declared = ActionModel { pretty_name, action_type, handednes, bindings: Seq::empty() };
        lemma_upsert(self.actions, name, declared);
        let after = self.with_action(name, pretty_name, action_type, handednes);
        let more = kinds.insert(name, (action_type, handednes));
        assert forall|other: Seq<char>| #[trigger]
            after.declared_as(other) == (if more.contains_key(other) {
                Some(more[other])
            } else {
                None
            }) by {
            if other != name {
                assert(self.declared_as(other) == (if kinds.contains_key(other) {
                    Some(kinds[other])
                } else {
                    None
                }));
            }
        }
    }

    /// Suggesting a binding for a declared action changes the kind of no action.
    pub proof fn lemma_kinds_with_binding(
        self,
        kinds: Map<Seq<char>, (ActionType, ActionHandednes)>,
        device: Seq<char>,
        action: Seq<char>,
        path: Seq<char>,
    )
        requires
            self.has_kinds(kinds),
            self.declares(action),
        ensures
            self.with_binding(device, action, path).has_kinds(kinds),
            forall|name: Seq<char>|
                self.declares(name) == #[trigger] self.with_binding(device, action, path).declares(
                    name,
                ),
    {
        reveal(ActionSetModel::has_kinds);
        let after = self.with_binding(device, action, path);
        let at = key_index(self.actions, action);
        assert(distinct_keys(after.actions)) by {
            assert forall|i: int, j: int|
                0 <= i < after.actions.len() && 0 <= j < after.actions.len() && i != j implies (
            #[trigger] after.actions[i]).0 != (#[trigger] after.actions[j]).0 by {
                assert(after.actions[i].0 == self.actions[i].0);
                assert(after.actions[j].0 == self.actions[j].0);
            }
        }
        assert forall|name: Seq<char>|
            self.declares(name) == #[trigger] after.declares(name) && self.declared_as(name)
                == after.declared_as(name) by {
            if self.declares(name) {
                let k = key_index(self.actions, name);
                assert(after.actions[k].0 == name);
                lemma_key_index(self.actions, k);
                lemma_key_index(after.actions, k);
            }
            if after.declares(name) {
                let k = key_index(after.actions, name);
                assert(self.actions[k].0 == name);
            }
        }
        assert forall|name: Seq<char>| #[trigger]
            after.declared_as(name) == (if kinds.contains_key(name) {
                Some(kinds[name])
            } else {
                None
            }) by {
            assert(self.declares(name) == after.declares(name));
            assert(self.declared_as(name) == (if kinds.contains_key(name) {
                Some(kinds[name])
            } else {
                None
            }));
        }
    }

    /// Suggesting bindings for declared actions changes the kind of no action.
    pub proof fn lemma_kinds_with_bindings(
        self,
        kinds: Map<Seq<char>, (ActionType, ActionHandednes)>,
        device: Seq<char>,
        bindings: Seq<(Seq<char>, Seq<char>)>,
    )
        requires
            self.has_kinds(kinds),
            self.declares_all(bindings),
        ensures
            self.with_bindings(device, bindings).has_kinds(kinds),
            forall|name: Seq<char>|
                self.declares(name) == #[trigger] self.with_bindings(device, bindings).declares(
                    name,
                ),
        decreases bindings.len(),
    {
        if bindings.len() > 0 {
            let earlier = bindings.drop_last();
            assert forall|i: int| 0 <= i < earlier.len() implies self.declares(
                (#[trigger] earlier[i]).0,
            ) by {
                assert(earlier[i] == bindings[i]);
            }
            self.lemma_kinds_with_bindings(kinds, device, earlier);
            let before = self.with_bindings(device, earlier);
            assert(self.declares(bindings[bindings.len() - 1].0));
            assert(before.declares(bindings.last().0));
            before.lemma_kinds_with_binding(kinds, device, bindings.last().0, bindings.last().1);
        }
    }

    /// What a name's kind is in a set whose kinds are known.
    pub proof fn lemma_kind_of(
        self,
        kinds: Map<Seq<char>, (ActionType, ActionHandednes)>,
        name: Seq<char>,
    )
        requires
            self.has_kinds(kinds),
        ensures
            distinct_keys(self.actions),
            self.declared_as(name) == (if kinds.contains_key(name) {
                Some(kinds[name])
            } else {
                None
            }),
    {
        reveal(ActionSetModel::has_kinds);
    }

    /// The set after `path` is suggested for `action` under the profile `device`.
    pub open spec fn with_binding(
        self,
        device: Seq<char>,
        action: Seq<char>,
        path: Seq<char>,
    ) -> ActionSetModel
        recommends
            self.declares(action),
    {
        let at = key_index(self.actions, action);
        let declared = self.actions[at].1;
        ActionSetModel {
            actions: self.actions.update(
                at,
                (
                    action,
                    ActionModel {
                        bindings: with_path(declared.bindings, device, path),
                        ..declared
                    },
                ),
            ),
            ..self
        }
    }

    /// The set after each of `bindings` is suggested under `device`, first to last.
    pub open spec fn with_bindings(
        self,
        device: Seq<char>,
        bindings: Seq<(Seq<char>, Seq<char>)>,
    ) -> ActionSetModel
        decreases bindings.len(),
    {
        if bindings.len() == 0 {
            self
        } else {
            self.with_bindings(device, bindings.drop_last()).with_binding(
                device,
                bindings.last().0,
                bindings.last().1,
            )
        }
    }
}

/// A declared action.
pub struct SetupAction {
    pretty_name: String,
    action_type: ActionType,
    handednes: ActionHandednes,
    bindings: NameTable<Vec<&'static str>>,
}

impl View for SetupAction {
    type V = ActionModel;

    closed spec fn view(&self) -> ActionModel {
        ActionModel {
            pretty_name: self.pretty_name@,
            action_type: self.action_type,
            handednes: self.handednes,
            bindings: map_entries(
                self.bindings.entries(),
                |paths: Vec<&'static str>| paths_of(paths),
            ),
        }
    }
}

impl SetupAction {
    /// Well-formedness: the table of suggested paths is well-formed.
    pub closed spec fn wf(&self) -> bool {
        self.bindings.wf()
    }

    /// In a well-formed action no interaction profile is listed twice.
    pub proof fn lemma_wf(&self)
        requires
            self.wf(),
        ensures
            distinct_keys(self@.bindings),
    {
        lemma_map_entries(
            self.bindings.entries(),
            |paths: Vec<&'static str>| paths_of(paths),
        );
    }

    fn new(pretty_name: String, action_type: ActionType, handednes: ActionHandednes) -> (action:
        SetupAction)
        ensures
            action.wf(),
            action@ == (ActionModel {
                pretty_name: pretty_name@,
                action_type,
                handednes,
                bindings: Seq::empty(),
            }),
    {
        let action = SetupAction { pretty_name, action_type, handednes, bindings: NameTable::new() };
        assert(action@.bindings =~= Seq::empty());
        action
    }

    /// Adds `path` to what is suggested for this action under `device_path`.
    fn push_binding(&mut self, device_path: &'static str, path: &'static str)
        requires
            old(self).wf(),
        ensures
            final(self).wf(),
            final(self)@ == (ActionModel {
                bindings: with_path(old(self)@.bindings, device_path@, path@),
                ..old(self)@
            }),
    {
        let ghost f = |paths: Vec<&'static str>| paths_of(paths);
        proof {
            lemma_map_entries(self.bindings.entries(), f);
        }
        match self.bindings.find(device_path) {
            Some(at) => {
                let paths = self.bindings.get_mut(at);
                paths.push(path);
                proof {
                    let before = old(self).bindings.entries();
                    assert(paths_of(self.bindings.entries()[at as int].1) =~= paths_of(
                        before[at as int].1,
                    ).push(path@));
                    assert(self@.bindings =~= with_path(old(self)@.bindings, device_path@, path@));
                }
            },
            None => {
                let mut paths: Vec<&'static str> = Vec::new();
                paths.push(path);
                proof {
                    assert(paths_of(paths) =~= seq![path@]);
                    lemma_map_upsert(self.bindings.entries(), device_path@, paths, f);
                }
                let _ = self.bindings.insert(device_path, paths);
            },
        }
    }
}

/// A declared action set.
pub struct SetupActionSet {
    pretty_name: String,
    priority: u32,
    actions: NameTable<SetupAction>,
}

impl View for SetupActionSet {
    type V = ActionSetModel;

    closed spec fn view(&self) -> ActionSetModel {
        ActionSetModel {
            pretty_name: self.pretty_name@,
            priority: self.priority,
            actions: map_entries(self.actions.entries(), |action: SetupAction| action@),
        }
    }
}

impl SetupActionSet {
    /// Well-formedness: the table of actions is well-formed, and so is
    /// each action in it.
    pub closed spec fn wf(&self) -> bool {
        &&& self.actions.wf()
        &&& forall|i: int|
            0 <= i < self.actions.entries().len() ==> (#[trigger] self.actions.entries()[i]).1.wf()
    }

    /// In a well-formed set no action is declared twice, and no action
    /// lists an interaction profile twice.
    pub proof fn lemma_wf(&self)
        requires
            self.wf(),
        ensures
            distinct_keys(self@.actions),
            forall|i: int|
                0 <= i < self@.actions.len() ==> distinct_keys(
                    (#[trigger] self@.actions[i]).1.bindings,
                ),
    {
        lemma_map_entries(self.actions.entries(), |action: SetupAction| action@);
        assert forall|i: int| 0 <= i < self@.actions.len() implies distinct_keys(
            (#[trigger] self@.actions[i]).1.bindings,
        ) by {
            self.actions.entries()[i].1.lemma_wf();
        }
    }

    /// Declares an action. An action of the same name that was declared
    /// before is replaced, and what was suggested for it is dropped.
    pub fn new_action(
        &mut self,
        name: &'static str,
        pretty_name: String,
        action_type: ActionType,
        handednes: ActionHandednes,
    )
        requires
            old(self).wf(),
        ensures
            final(self).wf(),
            final(self)@ == old(self)@.with_action(name@, pretty_name@, action_type, handednes),
    {
        let action = SetupAction::new(pretty_name, action_type, handednes);
        proof {
            lemma_map_upsert(self.actions.entries(), name@, action, |a: SetupAction| a@);
            lemma_upsert(self.actions.entries(), name@, action);
        }
        let at = self.actions.insert(name, action);
        proof {
            let before = old(self).actions.entries();
            let after = self.actions.entries();
            assert forall|i: int| 0 <= i < after.len() implies (#[trigger] after[i]).1.wf() by {
                if i != at {
                    assert(after[i] == before[i]);
                }
            }
        }
    }

    /// The name of the first action that `bindings` names and that is not
    /// declared; none where every binding names a declared action.
    pub fn first_undeclared(&self, bindings: &[XrBinding]) -> (missing: Option<&'static str>)
        requires
            self.wf(),
        ensures
            missing is None <==> self@.declares_all(binding_pairs(bindings@)),
            match missing {
                Some(action) => self@.first_undeclared(binding_pairs(bindings@)) == Some(action@),
                None => self@.first_undeclared(binding_pairs(bindings@)) is None,
            },
    {
        let ghost pairs = binding_pairs(bindings@);
        proof {
            lemma_map_entries(self.actions.entries(), |action: SetupAction| action@);
            self@.lemma_first_undeclared(pairs);
            assert(pairs.skip(0) =~= pairs);
        }
        let mut i: usize = 0;
        while i < bindings.len()
            invariant
                i <= bindings.len(),
                self.wf(),
                pairs == binding_pairs(bindings@),
                self@.first_undeclared(pairs) == self@.first_undeclared(pairs.skip(i as int)),
                forall|name: Seq<char>| #[trigger]
                    has_key(self@.actions, name) == has_key(self.actions.entries(), name),
            decreases bindings.len() - i,
        {
            let action = bindings[i].action;
            proof {
                assert(pairs.skip(i as int)[0] == pairs[i as int]);
                assert(pairs[i as int].0 == action@);
                assert(pairs.skip(i as int).drop_first() =~= pairs.skip(i + 1));
            }
            if self.actions.find(action).is_none() {
                return Some(action);
            }
            i += 1;
        }
        None
    }

    /// Suggests, for the interaction profile `device_path`, an input path
    /// for each action that `bindings` names, in order. Every binding has
    /// to name an action that is declared: a suggestion for an action that
    /// was never declared is a mistake in the declarations, and there is
    /// no going on from it.
    pub fn suggest_binding(&mut self, device_path: &'static str, bindings: &[XrBinding])
        requires
            old(self).wf(),
            old(self)@.declares_all(binding_pairs(bindings@)),
        ensures
            final(self).wf(),
            final(self)@ == old(self)@.with_bindings(device_path@, binding_pairs(bindings@)),
    {
        let ghost pairs = binding_pairs(bindings@);
        let ghost f = |action: SetupAction| action@;
        let mut i: usize = 0;
        while i < bindings.len()
            invariant
                i <= bindings.len(),
                self.wf(),
                pairs == binding_pairs(bindings@),
                old(self)@.declares_all(pairs),
                self@ == old(self)@.with_bindings(device_path@, pairs.take(i as int)),
                forall|name: Seq<char>| #[trigger]
                    has_key(self@.actions, name) == has_key(old(self)@.actions, name),
            decreases bindings.len() - i,
        {
            let ghost before = *self;
            proof {
                lemma_map_entries(self.actions.entries(), f);
                assert(pairs[i as int].0 == bindings[i as int].action@);
                assert(self@.declares(pairs[i as int].0));
            }
            let found = self.actions.find(bindings[i].action);
            let at = found.unwrap();
            let action = self.actions.get_mut(at);
            action.push_binding(device_path, bindings[i].path);
            proof {
                let earlier = before.actions.entries();
                let later = self.actions.entries();
                assert forall|k: int| 0 <= k < later.len() implies (#[trigger] later[k]).1.wf() by {
                    if k != at {
                        assert(later[k] == earlier[k]);
                    }
                }
                assert(self@.actions =~= before@.with_binding(
                    device_path@,
                    pairs[i as int].0,
                    pairs[i as int].1,
                ).actions);
                assert(pairs.take(i + 1).drop_last() =~= pairs.take(i as int));
                assert forall|name: Seq<char>| #[trigger]
                    has_key(self@.actions, name) == has_key(before@.actions, name) by {
                    if has_key(self@.actions, name) {
                        let k = key_index(self@.actions, name);
                        assert(before@.actions[k].0 == name);
                    }
                    if has_key(before@.actions, name) {
                        let k = key_index(before@.actions, name);
                        assert(self@.actions[k].0 == name);
                    }
                }
            }
            i += 1;
        }
        proof {
            assert(pairs.take(bindings.len() as int) =~= pairs);
        }
    }

    /// Suggests the bindings where that can be done, and says so where it
    /// cannot: all of them are taken, in order, or, where one names an
    /// action that was never declared, none.
    pub fn try_suggest_binding(&mut self, device_path: &'static str, bindings: &[XrBinding]) -> (done:
        Result<(), ActionError>)
        requires
            old(self).wf(),
        ensures
            final(self).wf(),
            done is Ok <==> old(self)@.declares_all(binding_pairs(bindings@)),
            done is Ok ==> final(self)@ == old(self)@.with_bindings(
                device_path@,
                binding_pairs(bindings@),
            ),
            done is Err ==> done == Err::<(), ActionError>(ActionError::NoAction) && final(self)@
                == old(self)@,
    {
        match self.first_undeclared(bindings) {
            None => {
                self.suggest_binding(device_path, bindings);
                Ok(())
            },
            Some(_) => Err(ActionError::NoAction),
        }
    }
}

/// Everything declared so far: the action sets by name, in order of first
/// declaration.
pub struct SetupActionSets {
    sets: NameTable<SetupActionSet>,
}

impl View for SetupActionSets {
    type V = Seq<(Seq<char>, ActionSetModel)>;

    closed spec fn view(&self) -> Seq<(Seq<char>, ActionSetModel)> {
        map_entries(self.sets.entries(), |set: SetupActionSet| set@)
    }
}

/// The model of an action set in which nothing is declared yet.
pub open spec fn empty_action_set(pretty_name: Seq<char>, priority: u32) -> ActionSetModel {
    ActionSetModel { pretty_name, priority, actions: Seq::empty() }
}

impl SetupActionSets {
    /// Well-formedness: the table of action sets is well-formed, and so is
    /// each set in it.
    pub closed spec fn wf(&self) -> bool {
        &&& self.sets.wf()
        &&& forall|i: int|
            0 <= i < self.sets.entries().len() ==> (#[trigger] self.sets.entries()[i]).1.wf()
    }

    /// In well-formed declarations no name is taken twice: not by two
    /// action sets, not by two actions of a set, not by two interaction
    /// profiles of an action.
    pub proof fn lemma_wf(&self)
        requires
            self.wf(),
        ensures
            distinct_keys(self@),
            forall|i: int| 0 <= i < self@.len() ==> distinct_keys((#[trigger] self@[i]).1.actions),
            forall|i: int, j: int|
                0 <= i < self@.len() && 0 <= j < self@[i].1.actions.len() ==> distinct_keys(
                    (#[trigger] self@[i].1.actions[j]).1.bindings,
                ),
    {
        lemma_map_entries(self.sets.entries(), |set: SetupActionSet| set@);
        assert forall|i: int| 0 <= i < self@.len() implies distinct_keys(
            (#[trigger] self@[i]).1.actions,
        ) by {
            self.sets.entries()[i].1.lemma_wf();
        }
        assert forall|i: int, j: int|
            0 <= i < self@.len() && 0 <= j < self@[i].1.actions.len() implies distinct_keys(
            (#[trigger] self@[i].1.actions[j]).1.bindings,
        ) by {
            self.sets.entries()[i].1.lemma_wf();
        }
    }

    /// No declarations.
    pub fn new() -> (declared: SetupActionSets)
        ensures
            declared.wf(),
            declared@ == Seq::<(Seq<char>, ActionSetModel)>::empty(),
    {
        let declared = SetupActionSets { sets: NameTable::new() };
        assert(declared@ =~= Seq::<(Seq<char>, ActionSetModel)>::empty());
        declared
    }

    /// Declares an action set and hands it out for its actions to be
    /// declared. A set of the same name that was declared before is
    /// replaced by the new, empty one.
    pub fn add_action_set(&mut self, name: &'static str, pretty_name: String, priority: u32) -> (set:
        &mut SetupActionSet)
        requires
            old(self).wf(),
        ensures
            set.wf(),
            set@ == empty_action_set(pretty_name@, priority),
            final(self)@ == upsert(old(self)@, name@, final(set)@),
            final(set).wf() ==> final(self).wf(),
    {
        let ghost f = |set: SetupActionSet| set@;
        let fresh = SetupActionSet { pretty_name, priority, actions: NameTable::new() };
        let ghost first = fresh;
        proof {
            assert(fresh@.actions =~= Seq::empty());
            lemma_upsert(self.sets.entries(), name@, fresh);
        }
        let at = self.sets.insert(name, fresh);
        proof {
            let before = old(self).sets.entries();
            let stored = self.sets.entries();
            lemma_key_index(stored, at as int);
            assert forall|i: int| 0 <= i < stored.len() implies (#[trigger] stored[i]).1.wf() by {
                if i != at {
                    assert(stored[i] == before[i]);
                }
            }
            assert forall|later: SetupActionSet| #[trigger]
                map_entries(stored.update(at as int, (name@, later)), f) == upsert(
                    old(self)@,
                    name@,
                    later@,
                ) by {
                lemma_upsert_again(before, name@, first, later);
                lemma_map_upsert(before, name@, later, f);
            }
        }
        let set = self.sets.get_mut(at);
        set
    }
}

/// The place of an action among everything that was set up: the position
/// of its action set, then its own position in that set. The runtime's
/// handles are created in the same order, so the pair finds the handle.
#[derive(Clone, Copy, Debug, PartialEq, Eq, Structural)]
pub struct ActionHandle {
    pub set: usize,
    pub action: usize,
    pub handednes: ActionHandednes,
}

/// An action that was set up, under the type of value it carries.
#[derive(Clone, Copy, Debug, PartialEq, Eq, Structural)]
pub enum TypedAction {
    F32(ActionHandle),
    Bool(ActionHandle),
    PoseF(ActionHandle),
    Haptic(ActionHandle),
    Vec2(ActionHandle),
}

impl TypedAction {
    /// The action of the given type at the given place.
    pub open spec fn typed(action_type: ActionType, handle: ActionHandle) -> TypedAction {
        match action_type {
            ActionType::F32 => TypedAction::F32(handle),
            ActionType::Bool => TypedAction::Bool(handle),
            ActionType::PoseF => TypedAction::PoseF(handle),
            ActionType::Haptic => TypedAction::Haptic(handle),
            ActionType::Vec2 => TypedAction::Vec2(handle),
        }
    }

    /// The type of value the action carries.
    pub open spec fn spec_action_type(self) -> ActionType {
        match self {
            TypedAction::F32(_) => ActionType::F32,
            TypedAction::Bool(_) => ActionType::Bool,
            TypedAction::PoseF(_) => ActionType::PoseF,
            TypedAction::Haptic(_) => ActionType::Haptic,
            TypedAction::Vec2(_) => ActionType::Vec2,
        }
    }

    /// The place of the action.
    pub open spec fn spec_handle(self) -> ActionHandle {
        match self {
            TypedAction::F32(handle) => handle,
            TypedAction::Bool(handle) => handle,
            TypedAction::PoseF(handle) => handle,
            TypedAction::Haptic(handle) => handle,
            TypedAction::Vec2(handle) => handle,
        }
    }

    /// The type of value the action carries.
    #[verifier::when_used_as_spec(spec_action_type)]
    pub fn action_type(self) -> (action_type: ActionType)
        ensures
            action_type == self.spec_action_type(),
    {
        match self {
            TypedAction::F32(_) => ActionType::F32,
            TypedAction::Bool(_) => ActionType::Bool,
            TypedAction::PoseF(_) => ActionType::PoseF,
            TypedAction::Haptic(_) => ActionType::Haptic,
            TypedAction::Vec2(_) => ActionType::Vec2,
        }
    }

    /// The place of the action.
    #[verifier::when_used_as_spec(spec_handle)]
    pub fn handle(self) -> (handle: ActionHandle)
        ensures
            handle == self.spec_handle(),
    {
        match self {
            TypedAction::F32(handle) => handle,
            TypedAction::Bool(handle) => handle,
            TypedAction::PoseF(handle) => handle,
            TypedAction::Haptic(handle) => handle,
            TypedAction::Vec2(handle) => handle,
        }
    }
}

/// Wraps a place in the variant for `action_type`.
fn typed_action(action_type: ActionType, handle: ActionHandle) -> (action: TypedAction)
    ensures
        action == TypedAction::typed(action_type, handle),
{
    match action_type {
        ActionType::F32 => TypedAction::F32(handle),
        ActionType::Bool => TypedAction::Bool(handle),
        ActionType::PoseF => TypedAction::PoseF(handle),
        ActionType::Haptic => TypedAction::Haptic(handle),
        ActionType::Vec2 => TypedAction::Vec2(handle),
    }
}

/// The model of an action set that was set up.
pub struct ResolvedSetModel {
    pub enabled: bool,
    /// The actions by name, in order of declaration.
    pub actions: Seq<(Seq<char>, TypedAction)>,
}

/// An action set that was set up.
pub struct ActionSet {
    enabled: bool,
    actions: NameTable<TypedAction>,
}

impl View for ActionSet {
    type V = ResolvedSetModel;

    closed spec fn view(&self) -> ResolvedSetModel {
        ResolvedSetModel { enabled: self.enabled, actions: self.actions.entries() }
    }
}

impl ActionSet {
    /// Well-formedness: the table of actions is well-formed.
    pub closed spec fn wf(&self) -> bool {
        self.actions.wf()
    }
}

/// What asking for the action `action_name` of the set `action_set` finds.
pub open spec fn find_action(
    sets: Seq<(Seq<char>, ResolvedSetModel)>,
    action_set: Seq<char>,
    action_name: Seq<char>,
) -> Result<TypedAction, ActionError> {
    match value_of(sets, action_set) {
        None => Err(ActionError::NoActionSet),
        Some(set) => match value_of(set.actions, action_name) {
            None => Err(ActionError::NoAction),
            Some(action) => Ok(action),
        },
    }
}

/// What asking for that action as one of type `asked` finds: its place
/// where the action has that type, and an error where it has another.
pub open spec fn find_action_of_type(
    sets: Seq<(Seq<char>, ResolvedSetModel)>,
    action_set: Seq<char>,
    action_name: Seq<char>,
    asked: ActionType,
) -> Result<ActionHandle, ActionError> {
    match find_action(sets, action_set, action_name) {
        Err(error) => Err(error),
        Ok(action) => if action.spec_action_type() == asked {
            Ok(action.spec_handle())
        } else {
            Err(ActionError::WrongActionType)
        },
    }
}

/// Asking for an action under a type it does not have is an error,
/// whatever the action and whatever the type: no value is ever read as
/// another type's.
pub proof fn lemma_wrong_type_is_refused(
    sets: Seq<(Seq<char>, ResolvedSetModel)>,
    action_set: Seq<char>,
    action_name: Seq<char>,
    asked: ActionType,
)
    requires
        find_action(sets, action_set, action_name) is Ok,
        find_action(sets, action_set, action_name)->Ok_0.spec_action_type() != asked,
    ensures
        find_action_of_type(sets, action_set, action_name, asked) == Err::<
            ActionHandle,
            ActionError,
        >(ActionError::WrongActionType),
{
}

/// An action has one type: of the five typed questions exactly one is answered.
pub proof fn lemma_one_type_answers(
    sets: Seq<(Seq<char>, ResolvedSetModel)>,
    action_set: Seq<char>,
    action_name: Seq<char>,
    asked: ActionType,
)
    requires
        find_action(sets, action_set, action_name) is Ok,
    ensures
        find_action_of_type(sets, action_set, action_name, asked) is Ok <==> asked == find_action(
            sets,
            action_set,
            action_name,
        )->Ok_0.spec_action_type(),
{
}

/// The registry of what was set up: the action sets by name.
pub struct XrActionSets {
    sets: NameTable<ActionSet>,
}

impl View for XrActionSets {
    type V = Seq<(Seq<char>, ResolvedSetModel)>;

    closed spec fn view(&self) -> Seq<(Seq<char>, ResolvedSetModel)> {
        map_entries(self.sets.entries(), |set: ActionSet| set@)
    }
}

impl XrActionSets {
    /// Well-formedness: the table of action sets is well-formed, and so is
    /// each set in it.
    pub closed spec fn wf(&self) -> bool {
        &&& self.sets.wf()
        &&& forall|i: int|
            0 <= i < self.sets.entries().len() ==> (#[trigger] self.sets.entries()[i]).1.wf()
    }

    /// In a well-formed registry no two sets share a name, nor two actions of a set.
    pub proof fn lemma_wf(&self)
        requires
            self.wf(),
        ensures
            distinct_keys(self@),
            forall|i: int| 0 <= i < self@.len() ==> distinct_keys((#[trigger] self@[i]).1.actions),
    {
        lemma_map_entries(self.sets.entries(), |set: ActionSet| set@);
    }

    /// A registry without action sets.
    pub fn new() -> (registry: XrActionSets)
        ensures
            registry.wf(),
            registry@ == Seq::<(Seq<char>, ResolvedSetModel)>::empty(),
    {
        let registry = XrActionSets { sets: NameTable::new() };
        assert(registry@ =~= Seq::<(Seq<char>, ResolvedSetModel)>::empty());
        registry
    }

    /// The number of action sets.
    pub fn len(&self) -> (n: usize)
        requires
            self.wf(),
        ensures
            n == self@.len(),
    {
        self.sets.len()
    }

    /// The name of the action set at position `set`.
    pub fn set_name(&self, set: usize) -> (name: &'static str)
        requires
            self.wf(),
            set < self@.len(),
        ensures
            name@ == self@[set as int].0,
    {
        self.sets.name(set)
    }

    /// The number of actions of the action set at position `set`.
    pub fn set_len(&self, set: usize) -> (n: usize)
        requires
            self.wf(),
            set < self@.len(),
        ensures
            n == self@[set as int].1.actions.len(),
    {
        assert(self.sets.entries()[set as int].1.wf());
        self.sets.get(set).actions.len()
    }

    /// The name of the action at position `action` of the set at position `set`.
    pub fn action_name(&self, set: usize, action: usize) -> (name: &'static str)
        requires
            self.wf(),
            set < self@.len(),
            action < self@[set as int].1.actions.len(),
        ensures
            name@ == self@[set as int].1.actions[action as int].0,
    {
        assert(self.sets.entries()[set as int].1.wf());
        self.sets.get(set).actions.name(action)
    }

    /// The action at position `action` of the set at position `set`.
    pub fn action(&self, set: usize, action: usize) -> (found: TypedAction)
        requires
            self.wf(),
            set < self@.len(),
            action < self@[set as int].1.actions.len(),
        ensures
            found == self@[set as int].1.actions[action as int].1,
    {
        assert(self.sets.entries()[set as int].1.wf());
        *self.sets.get(set).actions.get(action)
    }

    fn get_typed_action(&self, action_set: &'static str, action_name: &'static str) -> (found:
        Result<TypedAction, ActionError>)
        requires
            self.wf(),
        ensures
            found == find_action(self@, action_set@, action_name@),
    {
        proof {
            lemma_map_entries(self.sets.entries(), |set: ActionSet| set@);
        }
        let set = match self.sets.find(action_set) {
            None => {
                return Err(ActionError::NoActionSet);
            },
            Some(at) => self.sets.get(at),
        };
        match set.actions.find(action_name) {
            None => Err(ActionError::NoAction),
            Some(at) => Ok(*set.actions.get(at)),
        }
    }

    /// The two-dimensional action of that name: its place, or why it cannot be had.
    pub fn get_action_vec2(&self, action_set: &'static str, action_name: &'static str) -> (found:
        Result<ActionHandle, ActionError>)
        requires
            self.wf(),
        ensures
            found == find_action_of_type(self@, action_set@, action_name@, ActionType::Vec2),
    {
        match self.get_typed_action(action_set, action_name) {
            Err(error) => Err(error),
            Ok(TypedAction::Vec2(handle)) => Ok(handle),
            Ok(_) => Err(ActionError::WrongActionType),
        }
    }

    /// The float action of that name: its place, or why it cannot be had.
    pub fn get_action_f32(&self, action_set: &'static str, action_name: &'static str) -> (found:
        Result<ActionHandle, ActionError>)
        requires
            self.wf(),
        ensures
            found == find_action_of_type(self@, action_set@, action_name@, ActionType::F32),
    {
        match self.get_typed_action(action_set, action_name) {
            Err(error) => Err(error),
            Ok(TypedAction::F32(handle)) => Ok(handle),
            Ok(_) => Err(ActionError::WrongActionType),
        }
    }

    /// The boolean action of that name: its place, or why it cannot be had.
    pub fn get_action_bool(&self, action_set: &'static str, action_name: &'static str) -> (found:
        Result<ActionHandle, ActionError>)
        requires
            self.wf(),
        ensures
            found == find_action_of_type(self@, action_set@, action_name@, ActionType::Bool),
    {
        match self.get_typed_action(action_set, action_name) {
            Err(error) => Err(error),
            Ok(TypedAction::Bool(handle)) => Ok(handle),
            Ok(_) => Err(ActionError::WrongActionType),
        }
    }

    /// The pose action of that name: its place, or why it cannot be had.
    pub fn get_action_posef(&self, action_set: &'static str, action_name: &'static str) -> (found:
        Result<ActionHandle, ActionError>)
        requires
            self.wf(),
        ensures
            found == find_action_of_type(self@, action_set@, action_name@, ActionType::PoseF),
    {
        match self.get_typed_action(action_set, action_name) {
            Err(error) => Err(error),
            Ok(TypedAction::PoseF(handle)) => Ok(handle),
            Ok(_) => Err(ActionError::WrongActionType),
        }
    }

    /// The haptic action of that name: its place, or why it cannot be had.
    pub fn get_action_haptic(&self, action_set: &'static str, action_name: &'static str) -> (found:
        Result<ActionHandle, ActionError>)
        requires
            self.wf(),
        ensures
            found == find_action_of_type(self@, action_set@, action_name@, ActionType::Haptic),
    {
        match self.get_typed_action(action_set, action_name) {
            Err(error) => Err(error),
            Ok(TypedAction::Haptic(handle)) => Ok(handle),
            Ok(_) => Err(ActionError::WrongActionType),
        }
    }
}

/// The path that stands for no path: an action read under it is read for
/// no hand in particular.
pub const NULL_PATH: u64 = 0;

/// The sub-action path of the left hand.
pub const LEFT_HAND_PATH: &'static str = "/user/hand/left";

/// The sub-action path of the right hand.
pub const RIGHT_HAND_PATH: &'static str = "/user/hand/right";

/// The sub-action paths an action is created with: both hands for a
/// two-handed action, none for a single one.
pub open spec fn subaction_paths(handednes: ActionHandednes) -> Seq<Seq<char>> {
    match handednes {
        ActionHandednes::Single => Seq::empty(),
        ActionHandednes::Double => seq![LEFT_HAND_PATH@, RIGHT_HAND_PATH@],
    }
}

/// The model of an action as the runtime is asked to create it.
pub struct PlannedActionModel {
    pub name: Seq<char>,
    pub pretty_name: Seq<char>,
    pub action: TypedAction,
    pub subaction_paths: Seq<Seq<char>>,
}

/// The model of an action set as the runtime is asked to create it.
pub struct PlannedSetModel {
    pub name: Seq<char>,
    pub pretty_name: Seq<char>,
    pub priority: u32,
    pub actions: Seq<PlannedActionModel>,
}

/// An action that the runtime is to create.
pub struct PlannedAction {
    pub name: &'static str,
    pub pretty_name: String,
    /// The type of the action and the place its handle will have.
    pub action: TypedAction,
    pub subaction_paths: Vec<&'static str>,
}

impl View for PlannedAction {
    type V = PlannedActionModel;

    open spec fn view(&self) -> PlannedActionModel {
        PlannedActionModel {
            name: self.name@,
            pretty_name: self.pretty_name@,
            action: self.action,
            subaction_paths: paths_of(self.subaction_paths),
        }
    }
}

/// An action set that the runtime is to create, with its actions in the
/// order in which they are to be created.
pub struct PlannedActionSet {
    pub name: &'static str,
    pub pretty_name: String,
    pub priority: u32,
    pub actions: Vec<PlannedAction>,
}

impl View for PlannedActionSet {
    type V = PlannedSetModel;

    open spec fn view(&self) -> PlannedSetModel {
        PlannedSetModel {
            name: self.name@,
            pretty_name: self.pretty_name@,
            priority: self.priority,
            actions: Seq::new(self.actions@.len(), |j: int| self.actions@[j]@),
        }
    }
}

/// One binding of a suggestion: the action and the input path.
#[derive(Clone, Copy, Debug)]
pub struct PlannedBinding {
    pub action: TypedAction,
    pub path: &'static str,
}

impl View for PlannedBinding {
    type V = BindingModel;

    open spec fn view(&self) -> BindingModel {
        (self.action, self.path@)
    }
}

/// The bindings of a list, each as its model.
pub open spec fn bindings_of(bindings: Seq<PlannedBinding>) -> Seq<BindingModel> {
    Seq::new(bindings.len(), |l: int| bindings[l]@)
}

/// The one suggestion that the runtime receives for an interaction profile.
pub struct ProfileSuggestion {
    pub device_path: &'static str,
    pub bindings: Vec<PlannedBinding>,
}

impl View for ProfileSuggestion {
    type V = BlockModel;

    open spec fn view(&self) -> BlockModel {
        (self.device_path@, bindings_of(self.bindings@))
    }
}

/// Everything that setting the actions up comes to: what the runtime is to
/// create and to be told, in order, and the registry for the session.
pub struct ActionSetup {
    /// The action sets to create, each with its actions. All of them are
    /// attached to the session in one call once the suggestions are made.
    pub sets: Vec<PlannedActionSet>,
    /// The suggestions, one per interaction profile.
    pub profiles: Vec<ProfileSuggestion>,
    /// The actions by name.
    pub action_sets: XrActionSets,
}

/// How the action at position `at` of the set at position `set` is created.
pub open spec fn planned_action(
    set: int,
    at: int,
    name: Seq<char>,
    declared: ActionModel,
) -> PlannedActionModel {
    PlannedActionModel {
        name,
        pretty_name: declared.pretty_name,
        action: action_at(set, at, declared),
        subaction_paths: subaction_paths(declared.handednes),
    }
}

/// How the action set at position `at` is created.
pub open spec fn planned_set(at: int, name: Seq<char>, declared: ActionSetModel) -> PlannedSetModel {
    PlannedSetModel {
        name,
        pretty_name: declared.pretty_name,
        priority: declared.priority,
        actions: Seq::new(
            declared.actions.len(),
            |j: int| planned_action(at, j, declared.actions[j].0, declared.actions[j].1),
        ),
    }
}

/// What is created for the declarations: every set, in order, with every action.
pub open spec fn planned_sets(declared: Seq<(Seq<char>, ActionSetModel)>) -> Seq<PlannedSetModel> {
    Seq::new(declared.len(), |i: int| planned_set(i, declared[i].0, declared[i].1))
}

/// The registry entry of the action set at position `at`: enabled, with
/// every declared action under its name.
pub open spec fn resolved_set(at: int, declared: ActionSetModel) -> ResolvedSetModel {
    ResolvedSetModel {
        enabled: true,
        actions: Seq::new(
            declared.actions.len(),
            |j: int| (declared.actions[j].0, action_at(at, j, declared.actions[j].1)),
        ),
    }
}

/// The registry for the declarations.
pub open spec fn resolved_sets(declared: Seq<(Seq<char>, ActionSetModel)>) -> Seq<
    (Seq<char>, ResolvedSetModel),
> {
    Seq::new(declared.len(), |i: int| (declared[i].0, resolved_set(i, declared[i].1)))
}

/// Every declared action is set up under its own type and under no
/// other: asked for by the names it was declared with, it answers with its
/// place where the type asked for is the declared one, and with
/// [`ActionError::WrongActionType`] where it is any other.
pub proof fn lemma_declared_action_answers_under_its_type(
    declared: Seq<(Seq<char>, ActionSetModel)>,
    set: int,
    action: int,
    asked: ActionType,
)
    requires
        distinct_keys(declared),
        0 <= set < declared.len(),
        distinct_keys(declared[set].1.actions),
        0 <= action < declared[set].1.actions.len(),
    ensures
        find_action(
            resolved_sets(declared),
            declared[set].0,
            declared[set].1.actions[action].0,
        ) == Ok::<TypedAction, ActionError>(
            action_at(set, action, declared[set].1.actions[action].1),
        ),
        find_action_of_type(
            resolved_sets(declared),
            declared[set].0,
            declared[set].1.actions[action].0,
            asked,
        ) == (if asked == declared[set].1.actions[action].1.action_type {
            Ok::<ActionHandle, ActionError>(
                ActionHandle {
                    set: set as usize,
                    action: action as usize,
                    handednes: declared[set].1.actions[action].1.handednes,
                },
            )
        } else {
            Err::<ActionHandle, ActionError>(ActionError::WrongActionType)
        }),
{
    let sets = resolved_sets(declared);
    let actions = sets[set].1.actions;
    assert(distinct_keys(sets)) by {
        assert forall|i: int, j: int|
            0 <= i < sets.len() && 0 <= j < sets.len() && i != j implies (#[trigger] sets[i]).0 != (
        #[trigger] sets[j]).0 by {
            assert(declared[i].0 != declared[j].0);
        }
    }
    assert(distinct_keys(actions)) by {
        let named = declared[set].1.actions;
        assert forall|i: int, j: int|
            0 <= i < actions.len() && 0 <= j < actions.len() && i != j implies (
        #[trigger] actions[i]).0 != (#[trigger] actions[j]).0 by {
            assert(named[i].0 != named[j].0);
        }
    }
    lemma_key_index(sets, set);
    lemma_key_index(actions, action);
}

/// An action set that is declared with an action of some type is set up
/// with it: through the registry the action answers under that type.
pub proof fn lemma_declared_kind_resolves(
    declared: Seq<(Seq<char>, ActionSetModel)>,
    action_set: Seq<char>,
    action_name: Seq<char>,
    action_type: ActionType,
    handednes: ActionHandednes,
)
    requires
        distinct_keys(declared),
        value_of(declared, action_set) matches Some(set) && distinct_keys(set.actions)
            && set.declared_as(action_name) == Some((action_type, handednes)),
    ensures
        find_action_of_type(resolved_sets(declared), action_set, action_name, action_type)
            matches Ok(handle) && handle.handednes == handednes,
{
    let set = key_index(declared, action_set);
    let action = key_index(declared[set].1.actions, action_name);
    lemma_declared_action_answers_under_its_type(declared, set, action, action_type);
}

/// The sets of a list, each as its model.
pub open spec fn sets_of(sets: Seq<PlannedActionSet>) -> Seq<PlannedSetModel> {
    Seq::new(sets.len(), |i: int| sets[i]@)
}

/// The suggestions of a list, each as its model.
pub open spec fn profiles_of(profiles: Seq<ProfileSuggestion>) -> Seq<BlockModel> {
    Seq::new(profiles.len(), |k: int| profiles[k]@)
}

/// The groups of a table, each as its model.
pub open spec fn groups_of(groups: Seq<(Seq<char>, Vec<PlannedBinding>)>) -> Seq<BlockModel> {
    map_entries(groups, |bindings: Vec<PlannedBinding>| bindings_of(bindings@))
}

/// Plans the creation of one action: its sub-action paths follow from its
/// handedness.
fn create_action(
    action: &SetupAction,
    action_name: &'static str,
    set: usize,
    at: usize,
) -> (planned: PlannedAction)
    ensures
        planned@ == planned_action(set as int, at as int, action_name@, action@),
{
    let mut hands: Vec<&'static str> = Vec::new();
    match action.handednes {
        ActionHandednes::Single => {},
        ActionHandednes::Double => {
            hands.push(LEFT_HAND_PATH);
            hands.push(RIGHT_HAND_PATH);
        },
    }
    let handle = ActionHandle { set, action: at, handednes: action.handednes };
    let planned = PlannedAction {
        name: action_name,
        pretty_name: action.pretty_name.clone(),
        action: typed_action(action.action_type, handle),
        subaction_paths: hands,
    };
    assert(planned@.subaction_paths =~= subaction_paths(action@.handednes));
    planned
}

/// Adds what one action suggests to the groups, profile by profile.
fn group_action_bindings(
    action: TypedAction,
    declared: &SetupAction,
    groups: &mut NameTable<Vec<PlannedBinding>>,
)
    requires
        declared.wf(),
        old(groups).wf(),
    ensures
        final(groups).wf(),
        groups_of(final(groups).entries()) == add_blocks(
            groups_of(old(groups).entries()),
            action_blocks(action, declared@.bindings),
        ),
{
    let ghost f = |bindings: Vec<PlannedBinding>| bindings_of(bindings@);
    let ghost blocks = action_blocks(action, declared@.bindings);
    let ghost start = groups_of(groups.entries());
    let n = declared.bindings.len();
    let mut k: usize = 0;
    proof {
        assert(blocks.take(0) =~= Seq::<BlockModel>::empty());
    }
    while k < n
        invariant
            k <= n,
            n == declared.bindings.entries().len(),
            declared.wf(),
            groups.wf(),
            blocks == action_blocks(action, declared@.bindings),
            blocks.len() == n,
            f == |bindings: Vec<PlannedBinding>| bindings_of(bindings@),
            groups_of(groups.entries()) == add_blocks(start, blocks.take(k as int)),
        decreases n - k,
    {
        let device = declared.bindings.name(k);
        let paths = declared.bindings.get(k);
        let mut block: Vec<PlannedBinding> = Vec::new();
        let mut l: usize = 0;
        while l < paths.len()
            invariant
                l <= paths.len(),
                block@.len() == l,
                forall|x: int| 0 <= x < l ==> (#[trigger] block@[x])@ == (action, paths@[x]@),
            decreases paths.len() - l,
        {
            block.push(PlannedBinding { action, path: paths[l] });
            l += 1;
        }
        proof {
            assert(blocks[k as int].0 == device@);
            assert(bindings_of(block@) =~= blocks[k as int].1);
            assert(blocks.take(k + 1).drop_last() =~= blocks.take(k as int));
            assert(blocks.take(k + 1).last() == blocks[k as int]);
            lemma_map_entries(groups.entries(), f);
        }
        let ghost before = groups.entries();
        match groups.find(device) {
            Some(at) => {
                let group = groups.get_mut(at);
                group.append(&mut block);
                proof {
                    let after = groups.entries();
                    assert(bindings_of(after[at as int].1@) =~= bindings_of(before[at as int].1@)
                        + blocks[k as int].1);
                    assert(groups_of(after) =~= add_block(
                        groups_of(before),
                        device@,
                        blocks[k as int].1,
                    ));
                }
            },
            None => {
                proof {
                    lemma_map_upsert(before, device@, block, f);
                }
                let _ = groups.insert(device, block);
            },
        }
        k += 1;
    }
    proof {
        assert(blocks.take(n as int) =~= blocks);
    }
}

/// Plans one action set: its creation, its registry entry, and its share
/// of the groups.
fn plan_action_set(
    at: usize,
    name: &'static str,
    declared: &SetupActionSet,
    groups: &mut NameTable<Vec<PlannedBinding>>,
) -> (planned: (PlannedActionSet, ActionSet))
    requires
        declared.wf(),
        old(groups).wf(),
    ensures
        final(groups).wf(),
        planned.0@ == planned_set(at as int, name@, declared@),
        planned.1.wf(),
        planned.1@ == resolved_set(at as int, declared@),
        groups_of(final(groups).entries()) == add_blocks(
            groups_of(old(groups).entries()),
            set_blocks(at as int, declared@.actions),
        ),
{
    let ghost start = groups_of(groups.entries());
    let ghost model = declared@.actions;
    let mut actions: Vec<PlannedAction> = Vec::new();
    let mut resolved: NameTable<TypedAction> = NameTable::new();
    let n = declared.actions.len();
    let mut j: usize = 0;
    proof {
        declared.lemma_wf();
        assert(model.take(0) =~= Seq::<(Seq<char>, ActionModel)>::empty());
    }
    while j < n
        invariant
            j <= n,
            n == declared.actions.entries().len(),
            declared.wf(),
            model == declared@.actions,
            model.len() == n,
            distinct_keys(model),
            groups.wf(),
            resolved.wf(),
            actions@.len() == j,
            forall|x: int|
                0 <= x < j ==> (#[trigger] actions@[x])@ == planned_action(
                    at as int,
                    x,
                    model[x].0,
                    model[x].1,
                ),
            resolved.entries().len() == j,
            forall|x: int|
                0 <= x < j ==> #[trigger] resolved.entries()[x] == (
                    model[x].0,
                    action_at(at as int, x, model[x].1),
                ),
            groups_of(groups.entries()) == add_blocks(
                start,
                set_blocks(at as int, model.take(j as int)),
            ),
        decreases n - j,
    {
        let action_name = declared.actions.name(j);
        let action = declared.actions.get(j);
        assert(model[j as int] == (action_name@, action@));
        let planned = create_action(action, action_name, at, j);
        proof {
            if has_key(resolved.entries(), action_name@) {
                let x = key_index(resolved.entries(), action_name@);
                assert(model[x].0 == model[j as int].0);
            }
        }
        let _ = resolved.insert(action_name, planned.action);
        proof {
            assert(declared.actions.entries()[j as int].1.wf());
        }
        group_action_bindings(planned.action, action, groups);
        actions.push(planned);
        proof {
            let blocks = action_blocks(action_at(at as int, j as int, action@), action@.bindings);
            assert(model.take(j + 1).drop_last() =~= model.take(j as int));
            assert(model.take(j + 1).last() == model[j as int]);
            assert(set_blocks(at as int, model.take(j + 1)) == set_blocks(
                at as int,
                model.take(j as int),
            ) + blocks);
            lemma_add_blocks_concat(start, set_blocks(at as int, model.take(j as int)), blocks);
        }
        j += 1;
    }
    proof {
        assert(model.take(n as int) =~= model);
    }
    let planned = PlannedActionSet {
        name,
        pretty_name: declared.pretty_name.clone(),
        priority: declared.priority,
        actions,
    };
    let set = ActionSet { enabled: true, actions: resolved };
    proof {
        assert(planned@.actions =~= planned_set(at as int, name@, declared@).actions);
        assert(set@.actions =~= resolved_set(at as int, declared@).actions);
    }
    (planned, set)
}

/// Copies the groups out of their table, one suggestion per group.
fn profile_suggestions(groups: &NameTable<Vec<PlannedBinding>>) -> (profiles: Vec<
    ProfileSuggestion,
>)
    requires
        groups.wf(),
    ensures
        profiles@.len() == groups.entries().len(),
        profiles_of(profiles@) == groups_of(groups.entries()),
{
    let mut profiles: Vec<ProfileSuggestion> = Vec::new();
    let n = groups.len();
    let mut k: usize = 0;
    while k < n
        invariant
            k <= n,
            n == groups.entries().len(),
            groups.wf(),
            profiles@.len() == k,
            forall|x: int|
                0 <= x < k ==> (#[trigger] profiles@[x])@ == groups_of(groups.entries())[x],
        decreases n - k,
    {
        let group = groups.get(k);
        let mut bindings: Vec<PlannedBinding> = Vec::new();
        let mut l: usize = 0;
        while l < group.len()
            invariant
                l <= group.len(),
                bindings@ == group@.take(l as int),
            decreases group.len() - l,
        {
            bindings.push(group[l]);
            assert(group@.take(l + 1) =~= group@.take(l as int).push(group@[l as int]));
            l += 1;
        }
        assert(group@.take(group.len() as int) =~= group@);
        profiles.push(ProfileSuggestion { device_path: groups.name(k), bindings });
        k += 1;
    }
    assert(profiles_of(profiles@) =~= groups_of(groups.entries()));
    profiles
}

/// Sets up everything that was declared.
///
/// For each action set, in order of declaration, the runtime is to create
/// the set and each of its actions, a two-handed action with both hands'
/// sub-action paths and a single one with none. The bindings of all sets
/// and actions are gathered by interaction profile, so that the runtime
/// receives one suggestion per profile: no profile is suggested twice,
/// every profile that a binding names is suggested, and its suggestion
/// holds all bindings declared for it. After the suggestions all sets are
/// attached in one call. The declarations are used up: nothing can be
/// declared once the sets are attached.
pub fn setup_oxr_actions(actions: SetupActionSets) -> (setup: ActionSetup)
    requires
        actions.wf(),
    ensures
        setup.sets@.len() == actions@.len(),
        sets_of(setup.sets@) == planned_sets(actions@),
        setup.profiles@.len() == grouped(all_blocks(actions@)).len(),
        profiles_of(setup.profiles@) == grouped(all_blocks(actions@)),
        distinct_keys(profiles_of(setup.profiles@)),
        forall|device: Seq<char>| #[trigger]
            has_key(profiles_of(setup.profiles@), device) == has_key(all_blocks(actions@), device),
        forall|device: Seq<char>|
            has_key(all_blocks(actions@), device) ==> #[trigger] value_of(
                profiles_of(setup.profiles@),
                device,
            ) == Some(bindings_for(all_blocks(actions@), device)),
        setup.action_sets.wf(),
        setup.action_sets@ == resolved_sets(actions@),
{
    let ghost model = actions@;
    let ghost f = |set: ActionSet| set@;
    let mut sets: Vec<PlannedActionSet> = Vec::new();
    let mut registry = XrActionSets::new();
    let mut groups: NameTable<Vec<PlannedBinding>> = NameTable::new();
    let n = actions.sets.len();
    let mut i: usize = 0;
    proof {
        actions.lemma_wf();
        assert(model.take(0) =~= Seq::<(Seq<char>, ActionSetModel)>::empty());
        assert(groups_of(groups.entries()) =~= Seq::<BlockModel>::empty());
    }
    while i < n
        invariant
            i <= n,
            n == actions.sets.entries().len(),
            actions.wf(),
            model == actions@,
            model.len() == n,
            distinct_keys(model),
            f == |set: ActionSet| set@,
            groups.wf(),
            registry.wf(),
            sets@.len() == i,
            forall|x: int|
                0 <= x < i ==> (#[trigger] sets@[x])@ == planned_set(x, model[x].0, model[x].1),
            registry@.len() == i,
            forall|x: int|
                0 <= x < i ==> #[trigger] registry@[x] == (model[x].0, resolved_set(x, model[x].1)),
            groups_of(groups.entries()) == grouped(all_blocks(model.take(i as int))),
        decreases n - i,
    {
        let set_name = actions.sets.name(i);
        let declared = actions.sets.get(i);
        assert(model[i as int] == (set_name@, declared@));
        assert(actions.sets.entries()[i as int].1.wf());
        let (planned, resolved) = plan_action_set(i, set_name, declared, &mut groups);
        proof {
            lemma_map_entries(registry.sets.entries(), f);
            if has_key(registry@, set_name@) {
                let x = key_index(registry@, set_name@);
                assert(model[x].0 == model[i as int].0);
            }
            lemma_map_upsert(registry.sets.entries(), set_name@, resolved, f);
            lemma_upsert(registry.sets.entries(), set_name@, resolved);
        }
        let ghost stored = registry.sets.entries();
        let at = registry.sets.insert(set_name, resolved);
        sets.push(planned);
        proof {
            let after = registry.sets.entries();
            assert forall|x: int| 0 <= x < after.len() implies (#[trigger] after[x]).1.wf() by {
                if x != at {
                    assert(after[x] == stored[x]);
                }
            }
            assert(model.take(i + 1).drop_last() =~= model.take(i as int));
            assert(model.take(i + 1).last() == model[i as int]);
            lemma_add_blocks_concat(
                Seq::empty(),
                all_blocks(model.take(i as int)),
                set_blocks(i as int, declared@.actions),
            );
        }
        i += 1;
    }
    proof {
        assert(model.take(n as int) =~= model);
        assert(sets_of(sets@) =~= planned_sets(model));
        assert(registry@ =~= resolved_sets(model));
    }
    let profiles = profile_suggestions(&groups);
    proof {
        lemma_one_suggestion_per_profile(all_blocks(model));
    }
    ActionSetup { sets, profiles, action_sets: registry }
}

} // verus!
