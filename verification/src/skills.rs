//! The eighteen player skills and their slot numbers.

use vstd::prelude::*;

verus! {

/// Number of player skills; skill slots run from 0 to `SKILL_COUNT - 1`.
pub const SKILL_COUNT: usize = 18;

/// The actor attributes that are player skills, in slot order.
#[derive(Clone, Copy, Debug, PartialEq, Eq, Structural)]
pub enum ActorAttribute {
    OneHanded,
    TwoHanded,
    Marksman,
    Block,
    Smithing,
    HeavyArmor,
    LightArmor,
    Pickpocket,
    LockPicking,
    Sneak,
    Alchemy,
    Speechcraft,
    Alteration,
    Conjuration,
    Destruction,
    Illusion,
    Restoration,
    Enchanting,
}

/// The slot number of a skill.
pub open spec fn skill_slot(skill: ActorAttribute) -> nat {
    match skill {
        ActorAttribute::OneHanded => 0,
        ActorAttribute::TwoHanded => 1,
        ActorAttribute::Marksman => 2,
        ActorAttribute::Block => 3,
        ActorAttribute::Smithing => 4,
        ActorAttribute::HeavyArmor => 5,
        ActorAttribute::LightArmor => 6,
        ActorAttribute::Pickpocket => 7,
        ActorAttribute::LockPicking => 8,
        ActorAttribute::Sneak => 9,
        ActorAttribute::Alchemy => 10,
        ActorAttribute::Speechcraft => 11,
        ActorAttribute::Alteration => 12,
        ActorAttribute::Conjuration => 13,
        ActorAttribute::Destruction => 14,
        ActorAttribute::Illusion => 15,
        ActorAttribute::Restoration => 16,
        ActorAttribute::Enchanting => 17,
    }
}

/// Every skill has a slot below `SKILL_COUNT`, and distinct skills have
/// distinct slots.
pub proof fn lemma_skill_slot_injective(a: ActorAttribute, b: ActorAttribute)
    ensures
        skill_slot(a) < SKILL_COUNT,
        skill_slot(a) == skill_slot(b) ==> a == b,
{
}

/// The skill in a slot: `Some` exactly for the slots below `SKILL_COUNT`,
/// and then the skill whose slot number it is.
pub fn skill_from_slot(skill_slot_index: u32) -> (r: Option<ActorAttribute>)
    ensures
        r is Some <==> skill_slot_index < SKILL_COUNT,
        r matches Some(skill) ==> skill_slot(skill) == skill_slot_index,
{
    match skill_slot_index {
        0 => Some(ActorAttribute::OneHanded),
        1 => Some(ActorAttribute::TwoHanded),
        2 => Some(ActorAttribute::Marksman),
        3 => Some(ActorAttribute::Block),
        4 => Some(ActorAttribute::Smithing),
        5 => Some(ActorAttribute::HeavyArmor),
        6 => Some(ActorAttribute::LightArmor),
        7 => Some(ActorAttribute::Pickpocket),
        8 => Some(ActorAttribute::LockPicking),
        9 => Some(ActorAttribute::Sneak),
        10 => Some(ActorAttribute::Alchemy),
        11 => Some(ActorAttribute::Speechcraft),
        12 => Some(ActorAttribute::Alteration),
        13 => Some(ActorAttribute::Conjuration),
        14 => Some(ActorAttribute::Destruction),
        15 => Some(ActorAttribute::Illusion),
        16 => Some(ActorAttribute::Restoration),
        17 => Some(ActorAttribute::Enchanting),
        _ => None,
    }
}

} // verus!
