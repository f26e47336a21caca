//! The entities of the bones of both hands.
//!
//! Every bone of a hand is an entity of its own. The entities are kept by
//! hand, finger and bone, each under the identifier the entity has; a bone
//! without an entity has the placeholder that the table was made with.

use vstd::prelude::*;
use crate::xr_input::Hand;
use crate::xr_input::hands::HandBone;

verus! {

/// The entities of the bones of the thumb.
#[derive(Clone, Copy, Debug, PartialEq, Eq, Structural)]
pub struct ThumbResource {
    pub metacarpal: u64,
    pub proximal: u64,
    pub distal: u64,
    pub tip: u64,
}

impl ThumbResource {
    /// All bones without an entity.
    pub fn new(placeholder: u64) -> (bones: ThumbResource)
        ensures
            bones == (ThumbResource {
                metacarpal: placeholder,
                proximal: placeholder,
                distal: placeholder,
                tip: placeholder,
            }),
    {
        ThumbResource {
            metacarpal: placeholder,
            proximal: placeholder,
            distal: placeholder,
            tip: placeholder,
        }
    }
}

/// The entities of the bones of the index finger.
#[derive(Clone, Copy, Debug, PartialEq, Eq, Structural)]
pub struct IndexResource {
    pub metacarpal: u64,
    pub proximal: u64,
    pub intermediate: u64,
    pub distal: u64,
    pub tip: u64,
}

impl IndexResource {
    /// All bones without an entity.
    pub fn new(placeholder: u64) -> (bones: IndexResource)
        ensures
            bones == (IndexResource {
                metacarpal: placeholder,
                proximal: placeholder,
                intermediate: placeholder,
                distal: placeholder,
                tip: placeholder,
            }),
    {
        IndexResource {
            metacarpal: placeholder,
            proximal: placeholder,
            intermediate: placeholder,
            distal: placeholder,
            tip: placeholder,
        }
    }
}

/// The entities of the bones of the middle finger.
#[derive(Clone, Copy, Debug, PartialEq, Eq, Structural)]
pub struct MiddleResource {
    pub metacarpal: u64,
    pub proximal: u64,
    pub intermediate: u64,
    pub distal: u64,
    pub tip: u64,
}

impl MiddleResource {
    /// All bones without an entity.
    pub fn new(placeholder: u64) -> (bones: MiddleResource)
        ensures
            bones == (MiddleResource {
                metacarpal: placeholder,
                proximal: placeholder,
                intermediate: placeholder,
                distal: placeholder,
                tip: placeholder,
            }),
    {
        MiddleResource {
            metacarpal: placeholder,
            proximal: placeholder,
            intermediate: placeholder,
            distal: placeholder,
            tip: placeholder,
        }
    }
}

/// The entities of the bones of the ring finger.
#[derive(Clone, Copy, Debug, PartialEq, Eq, Structural)]
pub struct RingResource {
    pub metacarpal: u64,
    pub proximal: u64,
    pub intermediate: u64,
    pub distal: u64,
    pub tip: u64,
}

impl RingResource {
    /// All bones without an entity.
    pub fn new(placeholder: u64) -> (bones: RingResource)
        ensures
            bones == (RingResource {
                metacarpal: placeholder,
                proximal: placeholder,
                intermediate: placeholder,
                distal: placeholder,
                tip: placeholder,
            }),
    {
        RingResource {
            metacarpal: placeholder,
            proximal: placeholder,
            intermediate: placeholder,
            distal: placeholder,
            tip: placeholder,
        }
    }
}

/// The entities of the bones of the little finger.
#[derive(Clone, Copy, Debug, PartialEq, Eq, Structural)]
pub struct LittleResource {
    pub metacarpal: u64,
    pub proximal: u64,
    pub intermediate: u64,
    pub distal: u64,
    pub tip: u64,
}

impl LittleResource {
    /// All bones without an entity.
    pub fn new(placeholder: u64) -> (bones: LittleResource)
        ensures
            bones == (LittleResource {
                metacarpal: placeholder,
                proximal: placeholder,
                intermediate: placeholder,
                distal: placeholder,
                tip: placeholder,
            }),
    {
        LittleResource {
            metacarpal: placeholder,
            proximal: placeholder,
            intermediate: placeholder,
            distal: placeholder,
            tip: placeholder,
        }
    }
}

/// The entities of the bones of one hand.
#[derive(Clone, Copy, Debug, PartialEq, Eq, Structural)]
pub struct HandResource {
    pub palm: u64,
    pub wrist: u64,
    pub thumb: ThumbResource,
    pub index: IndexResource,
    pub middle: MiddleResource,
    pub ring: RingResource,
    pub little: LittleResource,
}

impl HandResource {
    /// The entity of a bone.
    pub open spec fn entity_of(self, bone: HandBone) -> u64 {
        match bone {
            HandBone::Palm => self.palm,
            HandBone::Wrist => self.wrist,
            HandBone::ThumbMetacarpal => self.thumb.metacarpal,
            HandBone::ThumbProximal => self.thumb.proximal,
            HandBone::ThumbDistal => self.thumb.distal,
            HandBone::ThumbTip => self.thumb.tip,
            HandBone::IndexMetacarpal => self.index.metacarpal,
            HandBone::IndexProximal => self.index.proximal,
            HandBone::IndexIntermediate => self.index.intermediate,
            HandBone::IndexDistal => self.index.distal,
            HandBone::IndexTip => self.index.tip,
            HandBone::MiddleMetacarpal => self.middle.metacarpal,
            HandBone::MiddleProximal => self.middle.proximal,
            HandBone::MiddleIntermediate => self.middle.intermediate,
            HandBone::MiddleDistal => self.middle.distal,
            HandBone::MiddleTip => self.middle.tip,
            HandBone::RingMetacarpal => self.ring.metacarpal,
            HandBone::RingProximal => self.ring.proximal,
            HandBone::RingIntermediate => self.ring.intermediate,
            HandBone::RingDistal => self.ring.distal,
            HandBone::RingTip => self.ring.tip,
            HandBone::LittleMetacarpal => self.little.metacarpal,
            HandBone::LittleProximal => self.little.proximal,
            HandBone::LittleIntermediate => self.little.intermediate,
            HandBone::LittleDistal => self.little.distal,
            HandBone::LittleTip => self.little.tip,
        }
    }

    /// The hand with `entity` as the entity of `bone`.
    pub open spec fn with_entity(self, bone: HandBone, entity: u64) -> HandResource {
        match bone {
            HandBone::Palm => HandResource { palm: entity, ..self },
            HandBone::Wrist => HandResource { wrist: entity, ..self },
            HandBone::ThumbMetacarpal => HandResource {
                thumb: ThumbResource { metacarpal: entity, ..self.thumb },
                ..self
            },
            HandBone::ThumbProximal => HandResource {
                thumb: ThumbResource { proximal: entity, ..self.thumb },
                ..self
            },
            HandBone::ThumbDistal => HandResource {
                thumb: ThumbResource { distal: entity, ..self.thumb },
                ..self
            },
            HandBone::ThumbTip => HandResource {
                thumb: ThumbResource { tip: entity, ..self.thumb },
                ..self
            },
            HandBone::IndexMetacarpal => HandResource {
                index: IndexResource { metacarpal: entity, ..self.index },
                ..self
            },
            HandBone::IndexProximal => HandResource {
                index: IndexResource { proximal: entity, ..self.index },
                ..self
            },
            HandBone::IndexIntermediate => HandResource {
                index: IndexResource { intermediate: entity, ..self.index },
                ..self
            },
            HandBone::IndexDistal => HandResource {
                index: IndexResource { distal: entity, ..self.index },
                ..self
            },
            HandBone::IndexTip => HandResource {
                index: IndexResource { tip: entity, ..self.index },
                ..self
            },
            HandBone::MiddleMetacarpal => HandResource {
                middle: MiddleResource { metacarpal: entity, ..self.middle },
                ..self
            },
            HandBone::MiddleProximal => HandResource {
                middle: MiddleResource { proximal: entity, ..self.middle },
                ..self
            },
            HandBone::MiddleIntermediate => HandResource {
                middle: MiddleResource { intermediate: entity, ..self.middle },
                ..self
            },
            HandBone::MiddleDistal => HandResource {
                middle: MiddleResource { distal: entity, ..self.middle },
                ..self
            },
            HandBone::MiddleTip => HandResource {
                middle: MiddleResource { tip: entity, ..self.middle },
                ..self
            },
            HandBone::RingMetacarpal => HandResource {
                ring: RingResource { metacarpal: entity, ..self.ring },
                ..self
            },
            HandBone::RingProximal => HandResource {
                ring: RingResource { proximal: entity, ..self.ring },
                ..self
            },
            HandBone::RingIntermediate => HandResource {
                ring: RingResource { intermediate: entity, ..self.ring },
                ..self
            },
            HandBone::RingDistal => HandResource {
                ring: RingResource { distal: entity, ..self.ring },
                ..self
            },
            HandBone::RingTip => HandResource {
                ring: RingResource { tip: entity, ..self.ring },
                ..self
            },
            HandBone::LittleMetacarpal => HandResource {
                little: LittleResource { metacarpal: entity, ..self.little },
                ..self
            },
            HandBone::LittleProximal => HandResource {
                little: LittleResource { proximal: entity, ..self.little },
                ..self
            },
            HandBone::LittleIntermediate => HandResource {
                little: LittleResource { intermediate: entity, ..self.little },
                ..self
            },
            HandBone::LittleDistal => HandResource {
                little: LittleResource { distal: entity, ..self.little },
                ..self
            },
            HandBone::LittleTip => HandResource {
                little: LittleResource { tip: entity, ..self.little },
                ..self
            },
        }
    }

    /// A hand whose bones have no entities.
    pub fn new(placeholder: u64) -> (hand: HandResource)
        ensures
            forall|bone: HandBone| #[trigger] hand.entity_of(bone) == placeholder,
    {
        HandResource {
            palm: placeholder,
            wrist: placeholder,
            thumb: ThumbResource::new(placeholder),
            index: IndexResource::new(placeholder),
            middle: MiddleResource::new(placeholder),
            ring: RingResource::new(placeholder),
            little: LittleResource::new(placeholder),
        }
    }

    /// The entity of a bone.
    pub fn entity(&self, bone: HandBone) -> (entity: u64)
        ensures
            entity == self.entity_of(bone),
    {
        match bone {
            HandBone::Palm => self.palm,
            HandBone::Wrist => self.wrist,
            HandBone::ThumbMetacarpal => self.thumb.metacarpal,
            HandBone::ThumbProximal => self.thumb.proximal,
            HandBone::ThumbDistal => self.thumb.distal,
            HandBone::ThumbTip => self.thumb.tip,
            HandBone::IndexMetacarpal => self.index.metacarpal,
            HandBone::IndexProximal => self.index.proximal,
            HandBone::IndexIntermediate => self.index.intermediate,
            HandBone::IndexDistal => self.index.distal,
            HandBone::IndexTip => self.index.tip,
            HandBone::MiddleMetacarpal => self.middle.metacarpal,
            HandBone::MiddleProximal => self.middle.proximal,
            HandBone::MiddleIntermediate => self.middle.intermediate,
            HandBone::MiddleDistal => self.middle.distal,
            HandBone::MiddleTip => self.middle.tip,
            HandBone::RingMetacarpal => self.ring.metacarpal,
            HandBone::RingProximal => self.ring.proximal,
            HandBone::RingIntermediate => self.ring.intermediate,
            HandBone::RingDistal => self.ring.distal,
            HandBone::RingTip => self.ring.tip,
            HandBone::LittleMetacarpal => self.little.metacarpal,
            HandBone::LittleProximal => self.little.proximal,
            HandBone::LittleIntermediate => self.little.intermediate,
            HandBone::LittleDistal => self.little.distal,
            HandBone::LittleTip => self.little.tip,
        }
    }

    /// Notes the entity of a bone.
    pub fn set_entity(&mut self, bone: HandBone, entity: u64)
        ensures
            *final(self) == old(self).with_entity(bone, entity),
    {
        match bone {
            HandBone::Palm => {
                self.palm = entity;
            },
            HandBone::Wrist => {
                self.wrist = entity;
            },
            HandBone::ThumbMetacarpal => {
                self.thumb.metacarpal = entity;
            },
            HandBone::ThumbProximal => {
                self.thumb.proximal = entity;
            },
            HandBone::ThumbDistal => {
                self.thumb.distal = entity;
            },
            HandBone::ThumbTip => {
                self.thumb.tip = entity;
            },
            HandBone::IndexMetacarpal => {
                self.index.metacarpal = entity;
            },
            HandBone::IndexProximal => {
                self.index.proximal = entity;
            },
            HandBone::IndexIntermediate => {
                self.index.intermediate = entity;
            },
            HandBone::IndexDistal => {
                self.index.distal = entity;
            },
            HandBone::IndexTip => {
                self.index.tip = entity;
            },
            HandBone::MiddleMetacarpal => {
                self.middle.metacarpal = entity;
            },
            HandBone::MiddleProximal => {
                self.middle.proximal = entity;
            },
            HandBone::MiddleIntermediate => {
                self.middle.intermediate = entity;
            },
            HandBone::MiddleDistal => {
                self.middle.distal = entity;
            },
            HandBone::MiddleTip => {
                self.middle.tip = entity;
            },
            HandBone::RingMetacarpal => {
                self.ring.metacarpal = entity;
            },
            HandBone::RingProximal => {
                self.ring.proximal = entity;
            },
            HandBone::RingIntermediate => {
                self.ring.intermediate = entity;
            },
            HandBone::RingDistal => {
                self.ring.distal = entity;
            },
            HandBone::RingTip => {
                self.ring.tip = entity;
            },
            HandBone::LittleMetacarpal => {
                self.little.metacarpal = entity;
            },
            HandBone::LittleProximal => {
                self.little.proximal = entity;
            },
            HandBone::LittleIntermediate => {
                self.little.intermediate = entity;
            },
            HandBone::LittleDistal => {
                self.little.distal = entity;
            },
            HandBone::LittleTip => {
                self.little.tip = entity;
            },
        }
    }
}

/// Noting the entity of a bone changes that bone's entity and no other's.
pub proof fn lemma_with_entity(hand: HandResource, bone: HandBone, entity: u64, other: HandBone)
    ensures
        hand.with_entity(bone, entity).entity_of(bone) == entity,
        other != bone ==> hand.with_entity(bone, entity).entity_of(other) == hand.entity_of(other),
{
    match bone {

        HandBone::Palm => {},
        HandBone::Wrist => {},
        HandBone::ThumbMetacarpal => {},
        HandBone::ThumbProximal => {},
        HandBone::ThumbDistal => {},
        HandBone::ThumbTip => {},
        HandBone::IndexMetacarpal => {},
        HandBone::IndexProximal => {},
        HandBone::IndexIntermediate => {},
        HandBone::IndexDistal => {},
        HandBone::IndexTip => {},
        HandBone::MiddleMetacarpal => {},
        HandBone::MiddleProximal => {},
        HandBone::MiddleIntermediate => {},
        HandBone::MiddleDistal => {},
        HandBone::MiddleTip => {},
        HandBone::RingMetacarpal => {},
        HandBone::RingProximal => {},
        HandBone::RingIntermediate => {},
        HandBone::RingDistal => {},
        HandBone::RingTip => {},
        HandBone::LittleMetacarpal => {},
        HandBone::LittleProximal => {},
        HandBone::LittleIntermediate => {},
        HandBone::LittleDistal => {},
        HandBone::LittleTip => {},
    }
}

/// The entities of the bones of both hands.
#[derive(Clone, Copy, Debug, PartialEq, Eq, Structural)]
pub struct HandsResource {
    pub left: HandResource,
    pub right: HandResource,
}

impl HandsResource {
    /// The entity of a bone of a hand.
    pub open spec fn entity_of(self, hand: Hand, bone: HandBone) -> u64 {
        match hand {
            Hand::Left => self.left.entity_of(bone),
            Hand::Right => self.right.entity_of(bone),
        }
    }

    /// Two hands whose bones have no entities.
    pub fn new(placeholder: u64) -> (hands: HandsResource)
        ensures
            forall|hand: Hand, bone: HandBone| #[trigger]
                hands.entity_of(hand, bone) == placeholder,
    {
        HandsResource { left: HandResource::new(placeholder), right: HandResource::new(placeholder) }
    }

    /// The entity of a bone of a hand.
    pub fn entity(&self, hand: Hand, bone: HandBone) -> (entity: u64)
        ensures
            entity == self.entity_of(hand, bone),
    {
        match hand {
            Hand::Left => self.left.entity(bone),
            Hand::Right => self.right.entity(bone),
        }
    }
}

/// Whether every bone of both hands has its entity from `entities`, which
/// lists them hand by hand, the left hand first, and within a hand in the
/// order of the bones' numbers.
pub open spec fn holds_entities(hands: HandsResource, entities: Seq<u64>) -> bool {
    forall|bone: HandBone|
        #![trigger hands.left.entity_of(bone)]
        #![trigger hands.right.entity_of(bone)]
        hands.left.entity_of(bone) == entities[bone.spec_index() as int]
            && hands.right.entity_of(bone) == entities[26 + bone.spec_index()]
}

/// Files the entities of the bones of both hands. `entities` holds one
/// entity for each bone: those of the left hand, then those of the right,
/// each hand's in the order of the bones' numbers.
pub fn spawn_hand_entities(entities: &[u64; 52]) -> (hands: HandsResource)
    ensures
        holds_entities(hands, entities@),
{
    let bones = HandBone::get_all_bones();
    let mut hands = HandsResource::new(0);
    let mut i: usize = 0;
    while i < 26
        invariant
            i <= 26,
            bones@ == HandBone::all(),
            forall|bone: HandBone|
                #![trigger hands.left.entity_of(bone)]
                #![trigger hands.right.entity_of(bone)]
                bone.spec_index() < i ==> hands.left.entity_of(bone) == entities@[bone.spec_index() as int]
                    && hands.right.entity_of(bone) == entities@[26 + bone.spec_index()],
        decreases 26 - i,
    {
        let bone = bones[i];
        let ghost before = hands;
        hands.left.set_entity(bone, entities[i]);
        hands.right.set_entity(bone, entities[26 + i]);
        proof {
            assert(bone.spec_index() == i);
            assert forall|other: HandBone|
                #![trigger hands.left.entity_of(other)]
                #![trigger hands.right.entity_of(other)]
                other.spec_index() < i + 1 implies hands.left.entity_of(other) == entities@[other.spec_index() as int]
                && hands.right.entity_of(other) == entities@[26 + other.spec_index()] by {
                lemma_with_entity(before.left, bone, entities@[i as int], other);
                lemma_with_entity(before.right, bone, entities@[26 + i], other);
                if other != bone {
                    assert(other.spec_index() != i);
                }
            }
        }
        i += 1;
    }
    hands
}

} // verus!
