//! Grouping suggested bindings by interaction profile.
//!
//! The runtime takes one suggestion per interaction profile, and a second
//! one for the same profile replaces the first. Bindings are declared per
//! action, though, and many actions of many action sets name the same
//! profile. This module says how the declared bindings are gathered into
//! one list per profile, and proves that the gathering loses nothing and
//! names no profile twice.

use vstd::prelude::*;
use crate::name_table::{distinct_keys, has_key, key_index, lemma_key_index, value_of};
use crate::xr_input::actions::{ActionHandle, ActionModel, ActionSetModel, TypedAction};

verus! {

/// A binding as the runtime receives it: the action and the input path.
pub type BindingModel = (TypedAction, Seq<char>);

/// Bindings that were declared together: an interaction profile, and the
/// bindings one action suggests for it.
pub type BlockModel = (Seq<char>, Seq<BindingModel>);

/// The blocks of one action: for each interaction profile it names, in
/// order, the paths suggested there, each bound to the action.
pub open spec fn action_blocks(
    action: TypedAction,
    bindings: Seq<(Seq<char>, Seq<Seq<char>>)>,
) -> Seq<BlockModel> {
    Seq::new(
        bindings.len(),
        |k: int| (bindings[k].0, Seq::new(bindings[k].1.len(), |l: int| (action, bindings[k].1[l]))),
    )
}

/// The action that is set up for the declaration at position `at` of the
/// action set at position `set`.
pub open spec fn action_at(set: int, at: int, declared: ActionModel) -> TypedAction {
    TypedAction::typed(
        declared.action_type,
        ActionHandle { set: set as usize, action: at as usize, handednes: declared.handednes },
    )
}

/// The blocks of the actions of one action set, action by action.
pub open spec fn set_blocks(set: int, actions: Seq<(Seq<char>, ActionModel)>) -> Seq<BlockModel>
    decreases actions.len(),
{
    if actions.len() == 0 {
        Seq::empty()
    } else {
        set_blocks(set, actions.drop_last()) + action_blocks(
            action_at(set, actions.len() - 1, actions.last().1),
            actions.last().1.bindings,
        )
    }
}

/// The blocks of all action sets, set by set.
pub open spec fn all_blocks(declared: Seq<(Seq<char>, ActionSetModel)>) -> Seq<BlockModel>
    decreases declared.len(),
{
    if declared.len() == 0 {
        Seq::empty()
    } else {
        all_blocks(declared.drop_last()) + set_blocks(
            declared.len() - 1,
            declared.last().1.actions,
        )
    }
}

/// The groups after one more block: its bindings follow those its profile
/// already has, or open a group for a profile not seen before.
pub open spec fn add_block(
    groups: Seq<BlockModel>,
    device: Seq<char>,
    bindings: Seq<BindingModel>,
) -> Seq<BlockModel> {
    if has_key(groups, device) {
        let at = key_index(groups, device);
        groups.update(at, (device, groups[at].1 + bindings))
    } else {
        groups.push((device, bindings))
    }
}

/// The groups after each of `blocks` is added, first to last.
pub open spec fn add_blocks(groups: Seq<BlockModel>, blocks: Seq<BlockModel>) -> Seq<BlockModel>
    decreases blocks.len(),
{
    if blocks.len() == 0 {
        groups
    } else {
        add_block(add_blocks(groups, blocks.drop_last()), blocks.last().0, blocks.last().1)
    }
}

/// One group per interaction profile, in order of first appearance, each
/// with all bindings of that profile in the order of `blocks`.
pub open spec fn grouped(blocks: Seq<BlockModel>) -> Seq<BlockModel> {
    add_blocks(Seq::empty(), blocks)
}

/// All bindings that `blocks` hold for the profile `device`, in order.
pub open spec fn bindings_for(blocks: Seq<BlockModel>, device: Seq<char>) -> Seq<BindingModel>
    decreases blocks.len(),
{
    if blocks.len() == 0 {
        Seq::empty()
    } else if blocks.last().0 == device {
        bindings_for(blocks.drop_last(), device) + blocks.last().1
    } else {
        bindings_for(blocks.drop_last(), device)
    }
}

/// Adding the blocks of `first + second` is adding those of `first`, then those of `second`.
pub proof fn lemma_add_blocks_concat(
    groups: Seq<BlockModel>,
    first: Seq<BlockModel>,
    second: Seq<BlockModel>,
)
    ensures
        add_blocks(groups, first + second) == add_blocks(add_blocks(groups, first), second),
    decreases second.len(),
{
    if second.len() == 0 {
        assert(first + second =~= first);
    } else {
        assert((first + second).drop_last() =~= first + second.drop_last());
        assert((first + second).last() == second.last());
        lemma_add_blocks_concat(groups, first, second.drop_last());
    }
}

/// One more block keeps the profiles of the groups distinct, adds its own
/// profile to them and no other, and changes the bindings of its own
/// profile only.
pub proof fn lemma_add_block(groups: Seq<BlockModel>, device: Seq<char>, bindings: Seq<BindingModel>)
    requires
        distinct_keys(groups),
    ensures
        distinct_keys(add_block(groups, device, bindings)),
        has_key(add_block(groups, device, bindings), device),
        value_of(add_block(groups, device, bindings), device) == Some(
            match value_of(groups, device) {
                Some(earlier) => earlier + bindings,
                None => bindings,
            },
        ),
        forall|other: Seq<char>|
            other != device ==> has_key(add_block(groups, device, bindings), other) == has_key(
                groups,
                other,
            ) && value_of(add_block(groups, device, bindings), other) == value_of(groups, other),
{
    let after = add_block(groups, device, bindings);
    let at = if has_key(groups, device) {
        key_index(groups, device)
    } else {
        groups.len() as int
    };
    assert(0 <= at < after.len() && after[at].0 == device);
    assert(distinct_keys(after)) by {
        assert forall|i: int, j: int|
            0 <= i < after.len() && 0 <= j < after.len() && i != j implies (#[trigger] after[i]).0
            != (#[trigger] after[j]).0 by {
            if i != at && j != at {
                assert(after[i] == groups[i] && after[j] == groups[j]);
            } else if i == at {
                assert(after[j] == groups[j]);
            } else {
                assert(after[i] == groups[i]);
            }
        }
    }
    lemma_key_index(after, at);
    assert forall|other: Seq<char>| other != device implies has_key(after, other) == has_key(
        groups,
        other,
    ) && value_of(after, other) == value_of(groups, other) by {
        if has_key(groups, other) {
            let k = key_index(groups, other);
            assert(after[k] == groups[k]);
            lemma_key_index(after, k);
            lemma_key_index(groups, k);
        }
        if has_key(after, other) {
            let k = key_index(after, other);
            assert(k != at);
            assert(after[k] == groups[k]);
        }
    }
}

/// The runtime receives exactly one suggestion for each interaction
/// profile that any binding names, and that suggestion carries every
/// binding declared for the profile, whichever action set and action
/// declared it:
/// no two groups have the same profile; a profile has a group if and only
/// if some block names it; and the group's bindings are all bindings of
/// that profile, in the order of declaration.
pub proof fn lemma_one_suggestion_per_profile(blocks: Seq<BlockModel>)
    ensures
        distinct_keys(grouped(blocks)),
        forall|device: Seq<char>| #[trigger]
            has_key(grouped(blocks), device) == has_key(blocks, device),
        forall|device: Seq<char>|
            has_key(blocks, device) ==> #[trigger] value_of(grouped(blocks), device) == Some(
                bindings_for(blocks, device),
            ),
    decreases blocks.len(),
{
    if blocks.len() == 0 {
        assert forall|device: Seq<char>| !has_key(blocks, device) by {}
        assert forall|device: Seq<char>| !has_key(grouped(blocks), device) by {}
    } else {
        let earlier = blocks.drop_last();
        let last = blocks.last();
        lemma_one_suggestion_per_profile(earlier);
        lemma_add_block(grouped(earlier), last.0, last.1);
        assert(grouped(blocks) == add_block(grouped(earlier), last.0, last.1));
        assert forall|device: Seq<char>| #[trigger]
            has_key(blocks, device) == (has_key(earlier, device) || device == last.0) by {
            if has_key(earlier, device) {
                let k = key_index(earlier, device);
                assert(blocks[k].0 == device);
            }
            if device == last.0 {
                assert(blocks[blocks.len() - 1].0 == device);
            }
            if has_key(blocks, device) {
                let k = key_index(blocks, device);
                if k < blocks.len() - 1 {
                    assert(earlier[k].0 == device);
                }
            }
        }
        assert forall|device: Seq<char>| #[trigger]
            has_key(grouped(blocks), device) == has_key(blocks, device) by {
            assert(has_key(blocks, device) == (has_key(earlier, device) || device == last.0));
            assert(has_key(grouped(earlier), device) == has_key(earlier, device));
        }
        assert forall|device: Seq<char>| has_key(blocks, device) implies #[trigger] value_of(
            grouped(blocks),
            device,
        ) == Some(bindings_for(blocks, device)) by {
            assert(has_key(blocks, device) == (has_key(earlier, device) || device == last.0));
            assert(has_key(grouped(earlier), device) == has_key(earlier, device));
            if device == last.0 {
                if has_key(earlier, device) {
                    assert(value_of(grouped(earlier), device) == Some(
                        bindings_for(earlier, device),
                    ));
                } else {
                    lemma_bindings_for_absent(earlier, device);
                    assert(Seq::<BindingModel>::empty() + last.1 =~= last.1);
                }
            } else {
                assert(value_of(grouped(earlier), device) == Some(bindings_for(earlier, device)));
            }
        }
    }
}

/// Blocks that do not name a profile hold no binding for it.
pub proof fn lemma_bindings_for_absent(blocks: Seq<BlockModel>, device: Seq<char>)
    requires
        !has_key(blocks, device),
    ensures
        bindings_for(blocks, device) == Seq::<BindingModel>::empty(),
    decreases blocks.len(),
{
    if blocks.len() > 0 {
        let earlier = blocks.drop_last();
        assert(blocks[blocks.len() - 1].0 != device);
        if has_key(earlier, device) {
            let k = key_index(earlier, device);
            assert(blocks[k].0 == device);
        }
        lemma_bindings_for_absent(earlier, device);
    }
}

/// Every binding of a block is among the bindings of the block's profile.
pub proof fn lemma_block_is_kept(blocks: Seq<BlockModel>, at: int, binding: int)
    requires
        0 <= at < blocks.len(),
        0 <= binding < blocks[at].1.len(),
    ensures
        bindings_for(blocks, blocks[at].0).contains(blocks[at].1[binding]),
    decreases blocks.len(),
{
    let device = blocks[at].0;
    let earlier = blocks.drop_last();
    let last = blocks.last();
    let kept = bindings_for(earlier, device);
    if at == blocks.len() - 1 {
        let all = kept + last.1;
        assert(all[kept.len() + binding] == last.1[binding]);
    } else {
        assert(earlier[at] == blocks[at]);
        lemma_block_is_kept(earlier, at, binding);
        let found = kept.index_of(blocks[at].1[binding]);
        if last.0 == device {
            let all = kept + last.1;
            assert(all[found] == kept[found]);
        }
    }
}

/// The blocks of an action set hold the blocks of each of its actions.
pub proof fn lemma_set_blocks_hold(
    set: int,
    actions: Seq<(Seq<char>, ActionModel)>,
    action: int,
    profile: int,
)
    requires
        0 <= action < actions.len(),
        0 <= profile < actions[action].1.bindings.len(),
    ensures
        set_blocks(set, actions).contains(
            action_blocks(action_at(set, action, actions[action].1), actions[action].1.bindings)[profile],
        ),
    decreases actions.len(),
{
    let earlier = set_blocks(set, actions.drop_last());
    let last = action_blocks(
        action_at(set, actions.len() - 1, actions.last().1),
        actions.last().1.bindings,
    );
    let all = earlier + last;
    assert(set_blocks(set, actions) == all);
    if action == actions.len() - 1 {
        assert(all[earlier.len() + profile] == last[profile]);
    } else {
        assert(actions.drop_last()[action] == actions[action]);
        lemma_set_blocks_hold(set, actions.drop_last(), action, profile);
        let block = action_blocks(
            action_at(set, action, actions[action].1),
            actions[action].1.bindings,
        )[profile];
        let found = earlier.index_of(block);
        assert(all[found] == earlier[found]);
    }
}

/// The blocks of all action sets hold the blocks of each action of each set.
pub proof fn lemma_all_blocks_hold(
    declared: Seq<(Seq<char>, ActionSetModel)>,
    set: int,
    action: int,
    profile: int,
)
    requires
        0 <= set < declared.len(),
        0 <= action < declared[set].1.actions.len(),
        0 <= profile < declared[set].1.actions[action].1.bindings.len(),
    ensures
        all_blocks(declared).contains(
            action_blocks(
                action_at(set, action, declared[set].1.actions[action].1),
                declared[set].1.actions[action].1.bindings,
            )[profile],
        ),
    decreases declared.len(),
{
    let block = action_blocks(
        action_at(set, action, declared[set].1.actions[action].1),
        declared[set].1.actions[action].1.bindings,
    )[profile];
    let earlier = all_blocks(declared.drop_last());
    let last = set_blocks(declared.len() - 1, declared.last().1.actions);
    let all = earlier + last;
    assert(all_blocks(declared) == all);
    if set == declared.len() - 1 {
        lemma_set_blocks_hold(set, declared[set].1.actions, action, profile);
        let found = last.index_of(block);
        assert(all[earlier.len() + found] == last[found]);
    } else {
        assert(declared.drop_last()[set] == declared[set]);
        lemma_all_blocks_hold(declared.drop_last(), set, action, profile);
        let found = earlier.index_of(block);
        assert(all[found] == earlier[found]);
    }
}

/// No binding is lost: whatever action set declares it, for whatever
/// action and interaction profile, a suggested input path is part of the
/// one suggestion that the runtime receives for that profile, bound to
/// that action.
pub proof fn lemma_every_binding_is_suggested(
    declared: Seq<(Seq<char>, ActionSetModel)>,
    set: int,
    action: int,
    profile: int,
    path: int,
)
    requires
        0 <= set < declared.len(),
        0 <= action < declared[set].1.actions.len(),
        0 <= profile < declared[set].1.actions[action].1.bindings.len(),
        0 <= path < declared[set].1.actions[action].1.bindings[profile].1.len(),
    ensures
        value_of(
            grouped(all_blocks(declared)),
            declared[set].1.actions[action].1.bindings[profile].0,
        ) matches Some(suggested) && suggested.contains(
            (
                action_at(set, action, declared[set].1.actions[action].1),
                declared[set].1.actions[action].1.bindings[profile].1[path],
            ),
        ),
{
    let blocks = all_blocks(declared);
    let model = declared[set].1.actions[action].1;
    let block = action_blocks(action_at(set, action, model), model.bindings)[profile];
    lemma_all_blocks_hold(declared, set, action, profile);
    let at = blocks.index_of(block);
    assert(blocks[at] == block);
    assert(block.1[path] == (action_at(set, action, model), model.bindings[profile].1[path]));
    lemma_block_is_kept(blocks, at, path);
    lemma_one_suggestion_per_profile(blocks);
    assert(has_key(blocks, block.0));
}

} // verus!
