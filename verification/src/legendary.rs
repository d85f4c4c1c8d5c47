//! Runtime Legendary skill settings.
//!
//! The four settings are packed into one 32-bit word per slot. Two slots
//! are kept: a new value is written into the slot that is not active and
//! that slot is then made active, so a reader never sees a half-written
//! value.

use vstd::prelude::*;

use crate::breakpoints::{MAX_BREAKPOINT_LEVEL, NO_OVERRIDE};

verus! {

/// Legendary skill settings as the game reads them.
#[derive(Clone, Copy)]
pub struct LegendaryRuntimeValues {
    pub keep_skill_level: bool,
    pub hide_button: bool,
    pub skill_level_enable: u32,
    pub skill_level_after: u32,
}

/// Bit that holds `keep_skill_level`.
pub const KEEP_SKILL_LEVEL_BIT: u32 = 1;

/// Bit that holds `hide_button`.
pub const HIDE_BUTTON_BIT: u32 = 2;

/// Position of the nine bits of `skill_level_enable`.
pub const SKILL_LEVEL_ENABLE_SHIFT: u32 = 2;

/// Position of the nine bits of `skill_level_after`.
pub const SKILL_LEVEL_AFTER_SHIFT: u32 = 11;

/// Mask of a nine-bit skill level.
pub const SKILL_LEVEL_MASK: u32 = 0x1FF;

/// The word that stores `values`.
pub open spec fn pack_legendary(values: LegendaryRuntimeValues) -> u32 {
    ((values.skill_level_enable << SKILL_LEVEL_ENABLE_SHIFT) | (values.skill_level_after
        << SKILL_LEVEL_AFTER_SHIFT)) | (if values.keep_skill_level {
        KEEP_SKILL_LEVEL_BIT
    } else {
        0u32
    }) | (if values.hide_button {
        HIDE_BUTTON_BIT
    } else {
        0u32
    })
}

/// The settings that a stored word holds.
pub open spec fn unpack_legendary(packed: u32) -> LegendaryRuntimeValues {
    LegendaryRuntimeValues {
        keep_skill_level: packed & KEEP_SKILL_LEVEL_BIT != 0,
        hide_button: packed & HIDE_BUTTON_BIT != 0,
        skill_level_enable: (packed >> SKILL_LEVEL_ENABLE_SHIFT) & SKILL_LEVEL_MASK,
        skill_level_after: (packed >> SKILL_LEVEL_AFTER_SHIFT) & SKILL_LEVEL_MASK,
    }
}

/// Settings the runtime accepts: Legendary becomes available at a level
/// from 1 to 500; the level after Legendary is at most 500 and, unless the
/// skill level is kept, either 0 or below the enabling level.
pub open spec fn legendary_values_valid(values: LegendaryRuntimeValues) -> bool {
    &&& values.skill_level_enable != 0
    &&& values.skill_level_enable <= MAX_BREAKPOINT_LEVEL
    &&& values.skill_level_after <= MAX_BREAKPOINT_LEVEL
    &&& (values.keep_skill_level || values.skill_level_after == 0 || values.skill_level_after
        < values.skill_level_enable)
}

/// Settings whose levels fit in nine bits come back unchanged from their
/// stored word.
pub proof fn lemma_legendary_pack_roundtrip(values: LegendaryRuntimeValues)
    requires
        values.skill_level_enable <= SKILL_LEVEL_MASK,
        values.skill_level_after <= SKILL_LEVEL_MASK,
    ensures
        unpack_legendary(pack_legendary(values)) == values,
{
    let e = values.skill_level_enable;
    let a = values.skill_level_after;
    let k: u32 = if values.keep_skill_level {
        1
    } else {
        0
    };
    let h: u32 = if values.hide_button {
        2
    } else {
        0
    };
    let p = ((e << 2u32) | (a << 11u32)) | k | h;
    assert(p == pack_legendary(values));
    assert(p & 1 != 0 <==> k == 1) by (bit_vector)
        requires
            p == ((e << 2u32) | (a << 11u32)) | k | h,
            k == 0 || k == 1,
            h == 0 || h == 2,
    ;
    assert(p & 2 != 0 <==> h == 2) by (bit_vector)
        requires
            p == ((e << 2u32) | (a << 11u32)) | k | h,
            k == 0 || k == 1,
            h == 0 || h == 2,
    ;
    assert((p >> 2u32) & 0x1FF == e) by (bit_vector)
        requires
            p == ((e << 2u32) | (a << 11u32)) | k | h,
            e <= 0x1FF,
            a <= 0x1FF,
            k == 0 || k == 1,
            h == 0 || h == 2,
    ;
    assert((p >> 11u32) & 0x1FF == a) by (bit_vector)
        requires
            p == ((e << 2u32) | (a << 11u32)) | k | h,
            e <= 0x1FF,
            a <= 0x1FF,
            k == 0 || k == 1,
            h == 0 || h == 2,
    ;
}

/// One slot: the four settings packed into a word.
#[derive(Clone, Copy)]
pub struct RuntimeLegendarySlot {
    pub packed: u32,
}

impl RuntimeLegendarySlot {
    pub fn new() -> (s: Self)
        ensures
            s.packed == 0,
    {
        RuntimeLegendarySlot { packed: 0 }
    }

    pub fn store(&mut self, values: LegendaryRuntimeValues)
        ensures
            final(self).packed == pack_legendary(values),
    {
        let mut packed: u32 = (values.skill_level_enable << SKILL_LEVEL_ENABLE_SHIFT) | (
        values.skill_level_after << SKILL_LEVEL_AFTER_SHIFT);
        proof {
            let q = packed;
            assert(q | 0u32 == q) by (bit_vector);
            assert((q | 0u32) | 0u32 == q) by (bit_vector);
            assert((q | 1u32) | 0u32 == q | 1u32) by (bit_vector);
        }
        if values.keep_skill_level {
            packed = packed | KEEP_SKILL_LEVEL_BIT;
        }
        if values.hide_button {
            packed = packed | HIDE_BUTTON_BIT;
        }
        self.packed = packed;
    }

    pub fn load(&self) -> (values: LegendaryRuntimeValues)
        ensures
            values == unpack_legendary(self.packed),
    {
        let packed: u32 = self.packed;
        LegendaryRuntimeValues {
            keep_skill_level: packed & KEEP_SKILL_LEVEL_BIT != 0,
            hide_button: packed & HIDE_BUTTON_BIT != 0,
            skill_level_enable: (packed >> SKILL_LEVEL_ENABLE_SHIFT) & SKILL_LEVEL_MASK,
            skill_level_after: (packed >> SKILL_LEVEL_AFTER_SHIFT) & SKILL_LEVEL_MASK,
        }
    }
}

/// The two slots and the index of the active one (`NO_OVERRIDE` when no
/// override is set).
#[derive(Clone, Copy)]
pub struct RuntimeLegendarySettings {
    pub active_slot: u32,
    pub slots: [RuntimeLegendarySlot; 2],
}

/// Model of `RuntimeLegendarySettings`: the active slot and the words of
/// the two slots.
#[verifier::ext_equal]
pub struct LegendarySettingsView {
    pub active_slot: u32,
    pub packed: Seq<u32>,
}

impl View for RuntimeLegendarySettings {
    type V = LegendarySettingsView;

    open spec fn view(&self) -> LegendarySettingsView {
        LegendarySettingsView {
            active_slot: self.active_slot,
            packed: self.slots@.map_values(|s: RuntimeLegendarySlot| s.packed),
        }
    }
}

/// The slot that a write goes to when `active` is the active one.
pub open spec fn next_legendary_slot(active: u32) -> u32 {
    if active == 0 {
        1
    } else {
        0
    }
}

impl LegendarySettingsView {
    /// No override, both slots zero.
    pub open spec fn initial() -> Self {
        LegendarySettingsView { active_slot: NO_OVERRIDE, packed: seq![0u32, 0u32] }
    }

    /// The override withdrawn; the slots keep their words.
    pub open spec fn cleared(self) -> Self {
        LegendarySettingsView { active_slot: NO_OVERRIDE, ..self }
    }

    /// `values` written to the inactive slot, which becomes active.
    pub open spec fn with_values(self, values: LegendaryRuntimeValues) -> Self {
        let next = next_legendary_slot(self.active_slot);
        LegendarySettingsView {
            active_slot: next,
            packed: self.packed.update(next as int, pack_legendary(values)),
        }
    }

    /// The settings in effect, if an override is set.
    pub open spec fn current(self) -> Option<LegendaryRuntimeValues> {
        if self.active_slot == 0 || self.active_slot == 1 {
            Some(unpack_legendary(self.packed[self.active_slot as int]))
        } else {
            None
        }
    }
}

impl RuntimeLegendarySettings {
    pub fn new() -> (s: Self)
        ensures
            s@ == LegendarySettingsView::initial(),
    {
        let slot = RuntimeLegendarySlot::new();
        let s = RuntimeLegendarySettings { active_slot: NO_OVERRIDE, slots: [slot, slot] };
        assert(s@.packed =~= seq![0u32, 0u32]);
        s
    }

    pub fn clear(&mut self)
        ensures
            final(self)@ == old(self)@.cleared(),
    {
        self.active_slot = NO_OVERRIDE;
    }

    pub fn validate(values: LegendaryRuntimeValues) -> (r: bool)
        ensures
            r == legendary_values_valid(values),
            r <==> (1 <= values.skill_level_enable <= 500 && values.skill_level_after <= 500 && (
            values.keep_skill_level || values.skill_level_after == 0 || values.skill_level_after
                < values.skill_level_enable)),
    {
        if values.skill_level_enable == 0 || values.skill_level_enable > MAX_BREAKPOINT_LEVEL
            || values.skill_level_after > MAX_BREAKPOINT_LEVEL {
            return false;
        }
        values.keep_skill_level || values.skill_level_after == 0 || values.skill_level_after
            < values.skill_level_enable
    }

    pub fn set(&mut self, values: LegendaryRuntimeValues) -> (r: bool)
        ensures
            r == legendary_values_valid(values),
            r <==> (1 <= values.skill_level_enable <= 500 && values.skill_level_after <= 500 && (
            values.keep_skill_level || values.skill_level_after == 0 || values.skill_level_after
                < values.skill_level_enable)),
            final(self)@ == if r {
                old(self)@.with_values(values)
            } else {
                old(self)@
            },
    {
        if !Self::validate(values) {
            return false;
        }
        let active_slot: u32 = self.active_slot;
        let next_slot: u32 = if active_slot == 0 {
            1
        } else {
            0
        };
        let mut slot = self.slots[next_slot as usize];
        slot.store(values);
        self.slots[next_slot as usize] = slot;
        self.active_slot = next_slot;
        true
    }

    pub fn get(&self) -> (r: Option<LegendaryRuntimeValues>)
        ensures
            r == self@.current(),
    {
        let active_slot: u32 = self.active_slot;
        if active_slot == 0 || active_slot == 1 {
            Some(self.slots[active_slot as usize].load())
        } else {
            None
        }
    }
}

/// A value that `set` accepted is what `get` then returns.
pub proof fn lemma_legendary_read_after_write(
    settings: LegendarySettingsView,
    values: LegendaryRuntimeValues,
)
    requires
        settings.packed.len() == 2,
        legendary_values_valid(values),
    ensures
        settings.with_values(values).current() == Some(values),
{
    lemma_legendary_pack_roundtrip(values);
}

} // verus!
