//! Runtime overrides for the settings controlled by the in-game menu.
//!
//! A `RuntimeOverrides` value holds every override the menu can set. A slot
//! holding `NO_OVERRIDE` (or a table that is not committed) has no override,
//! and the game then uses the value from the INI file. `clear_overrides`
//! withdraws every override at once.

use vstd::prelude::*;

use crate::breakpoints::NO_OVERRIDE;
pub use crate::legendary::LegendaryRuntimeValues;
use crate::legendary::{LegendarySettingsView, RuntimeLegendarySettings};
use crate::skills::SKILL_COUNT;
use crate::tables::{
    AttributeTableView, MultiplierTableView, PerksTableView, RuntimeAttributeTable,
    RuntimeMultiplierTable, RuntimePerksAtLevelUpTable, RuntimeSimpleMultiplierTable,
    SimpleMultiplierTableView,
};

verus! {

/// Number of attribute gain tables.
pub const ATTRIBUTE_TABLE_COUNT: usize = 12;

pub const ATTRIBUTE_TABLE_HEALTH_AT_LEVEL_UP: usize = 0;

pub const ATTRIBUTE_TABLE_HEALTH_AT_MAGICKA_LEVEL_UP: usize = 1;

pub const ATTRIBUTE_TABLE_HEALTH_AT_STAMINA_LEVEL_UP: usize = 2;

pub const ATTRIBUTE_TABLE_MAGICKA_AT_HEALTH_LEVEL_UP: usize = 3;

pub const ATTRIBUTE_TABLE_MAGICKA_AT_LEVEL_UP: usize = 4;

pub const ATTRIBUTE_TABLE_MAGICKA_AT_STAMINA_LEVEL_UP: usize = 5;

pub const ATTRIBUTE_TABLE_STAMINA_AT_HEALTH_LEVEL_UP: usize = 6;

pub const ATTRIBUTE_TABLE_STAMINA_AT_MAGICKA_LEVEL_UP: usize = 7;

pub const ATTRIBUTE_TABLE_STAMINA_AT_LEVEL_UP: usize = 8;

pub const ATTRIBUTE_TABLE_CARRY_WEIGHT_AT_HEALTH_LEVEL_UP: usize = 9;

pub const ATTRIBUTE_TABLE_CARRY_WEIGHT_AT_MAGICKA_LEVEL_UP: usize = 10;

pub const ATTRIBUTE_TABLE_CARRY_WEIGHT_AT_STAMINA_LEVEL_UP: usize = 11;

/// Every override the menu can set.
pub struct RuntimeOverrides {
    pub skill_cap_overrides: [u32; SKILL_COUNT],
    pub formula_cap_overrides: [u32; SKILL_COUNT],
    pub enchant_magnitude_cap_override: u32,
    pub enchant_charge_cap_override: u32,
    /// `NO_OVERRIDE`, 0 (false) or 1 (true).
    pub enchant_use_linear_charge_override: u32,
    pub skill_exp_base_mult_override: [u32; SKILL_COUNT],
    pub skill_exp_offset_mult_override: [u32; SKILL_COUNT],
    pub skill_exp_by_skill_level: [RuntimeMultiplierTable; SKILL_COUNT],
    pub skill_exp_by_character_level: [RuntimeMultiplierTable; SKILL_COUNT],
    pub level_exp_base_mult_override: [u32; SKILL_COUNT],
    pub level_exp_by_skill_level: [RuntimeSimpleMultiplierTable; SKILL_COUNT],
    pub level_exp_by_character_level: [RuntimeSimpleMultiplierTable; SKILL_COUNT],
    pub perks_at_level_up: RuntimePerksAtLevelUpTable,
    pub attribute_level_up_tables: [RuntimeAttributeTable; ATTRIBUTE_TABLE_COUNT],
    pub legendary_settings: RuntimeLegendarySettings,
}

/// Model of `RuntimeOverrides`.
#[verifier::ext_equal]
pub struct RuntimeOverridesView {
    pub skill_cap_overrides: Seq<u32>,
    pub formula_cap_overrides: Seq<u32>,
    pub enchant_magnitude_cap_override: u32,
    pub enchant_charge_cap_override: u32,
    pub enchant_use_linear_charge_override: u32,
    pub skill_exp_base_mult_override: Seq<u32>,
    pub skill_exp_offset_mult_override: Seq<u32>,
    pub skill_exp_by_skill_level: Seq<MultiplierTableView>,
    pub skill_exp_by_character_level: Seq<MultiplierTableView>,
    pub level_exp_base_mult_override: Seq<u32>,
    pub level_exp_by_skill_level: Seq<SimpleMultiplierTableView>,
    pub level_exp_by_character_level: Seq<SimpleMultiplierTableView>,
    pub perks_at_level_up: PerksTableView,
    pub attribute_level_up_tables: Seq<AttributeTableView>,
    pub legendary_settings: LegendarySettingsView,
}

impl View for RuntimeOverrides {
    type V = RuntimeOverridesView;

    open spec fn view(&self) -> RuntimeOverridesView {
        RuntimeOverridesView {
            skill_cap_overrides: self.skill_cap_overrides@,
            formula_cap_overrides: self.formula_cap_overrides@,
            enchant_magnitude_cap_override: self.enchant_magnitude_cap_override,
            enchant_charge_cap_override: self.enchant_charge_cap_override,
            enchant_use_linear_charge_override: self.enchant_use_linear_charge_override,
            skill_exp_base_mult_override: self.skill_exp_base_mult_override@,
            skill_exp_offset_mult_override: self.skill_exp_offset_mult_override@,
            skill_exp_by_skill_level: self.skill_exp_by_skill_level@.map_values(
                |t: RuntimeMultiplierTable| t@,
            ),
            skill_exp_by_character_level: self.skill_exp_by_character_level@.map_values(
                |t: RuntimeMultiplierTable| t@,
            ),
            level_exp_base_mult_override: self.level_exp_base_mult_override@,
            level_exp_by_skill_level: self.level_exp_by_skill_level@.map_values(
                |t: RuntimeSimpleMultiplierTable| t@,
            ),
            level_exp_by_character_level: self.level_exp_by_character_level@.map_values(
                |t: RuntimeSimpleMultiplierTable| t@,
            ),
            perks_at_level_up: self.perks_at_level_up@,
            attribute_level_up_tables: self.attribute_level_up_tables@.map_values(
                |t: RuntimeAttributeTable| t@,
            ),
            legendary_settings: self.legendary_settings@,
        }
    }
}

/// A raw slot read as an override: `NO_OVERRIDE` means none.
pub open spec fn raw_override(value: u32) -> Option<u32> {
    if value == NO_OVERRIDE {
        None
    } else {
        Some(value)
    }
}

/// A raw slot read as a yes/no override: 0 is no, 1 is yes, anything else
/// (`NO_OVERRIDE` among them) means none.
pub open spec fn raw_bool_override(value: u32) -> Option<bool> {
    if value == 0 {
        Some(false)
    } else if value == 1 {
        Some(true)
    } else {
        None
    }
}

/// A skill or formula cap the runtime accepts: from 1 to 500.
pub open spec fn cap_value_valid(value: u32) -> bool {
    1 <= value <= 500
}

/// A sequence of `n` slots that all hold `NO_OVERRIDE`.
pub open spec fn no_overrides(n: nat) -> Seq<u32> {
    Seq::new(n, |i: int| NO_OVERRIDE)
}

impl RuntimeOverridesView {
    /// The state before the menu sets anything.
    pub open spec fn initial() -> Self {
        RuntimeOverridesView {
            skill_cap_overrides: no_overrides(18),
            formula_cap_overrides: no_overrides(18),
            enchant_magnitude_cap_override: NO_OVERRIDE,
            enchant_charge_cap_override: NO_OVERRIDE,
            enchant_use_linear_charge_override: NO_OVERRIDE,
            skill_exp_base_mult_override: no_overrides(18),
            skill_exp_offset_mult_override: no_overrides(18),
            skill_exp_by_skill_level: Seq::new(18, |i: int| MultiplierTableView::initial()),
            skill_exp_by_character_level: Seq::new(18, |i: int| MultiplierTableView::initial()),
            level_exp_base_mult_override: no_overrides(18),
            level_exp_by_skill_level: Seq::new(18, |i: int| SimpleMultiplierTableView::initial()),
            level_exp_by_character_level: Seq::new(
                18,
                |i: int| SimpleMultiplierTableView::initial(),
            ),
            perks_at_level_up: PerksTableView::initial(),
            attribute_level_up_tables: Seq::new(12, |i: int| AttributeTableView::initial()),
            legendary_settings: LegendarySettingsView::initial(),
        }
    }

    /// Every override withdrawn. Staged table entries and the Legendary
    /// slots keep their contents.
    pub open spec fn cleared(self) -> Self {
        RuntimeOverridesView {
            skill_cap_overrides: no_overrides(18),
            formula_cap_overrides: no_overrides(18),
            enchant_magnitude_cap_override: NO_OVERRIDE,
            enchant_charge_cap_override: NO_OVERRIDE,
            enchant_use_linear_charge_override: NO_OVERRIDE,
            skill_exp_base_mult_override: no_overrides(18),
            skill_exp_offset_mult_override: no_overrides(18),
            skill_exp_by_skill_level: self.skill_exp_by_skill_level.map_values(
                |t: MultiplierTableView| t.cleared(),
            ),
            skill_exp_by_character_level: self.skill_exp_by_character_level.map_values(
                |t: MultiplierTableView| t.cleared(),
            ),
            level_exp_base_mult_override: no_overrides(18),
            level_exp_by_skill_level: self.level_exp_by_skill_level.map_values(
                |t: SimpleMultiplierTableView| t.cleared(),
            ),
            level_exp_by_character_level: self.level_exp_by_character_level.map_values(
                |t: SimpleMultiplierTableView| t.cleared(),
            ),
            perks_at_level_up: self.perks_at_level_up.cleared(),
            attribute_level_up_tables: self.attribute_level_up_tables.map_values(
                |t: AttributeTableView| t.cleared(),
            ),
            legendary_settings: self.legendary_settings.cleared(),
        }
    }

    // --- what the game reads ---

    pub open spec fn skill_cap(self, slot: int) -> Option<u32> {
        raw_override(self.skill_cap_overrides[slot])
    }

    pub open spec fn formula_cap(self, slot: int) -> Option<u32> {
        raw_override(self.formula_cap_overrides[slot])
    }

    pub open spec fn enchant_magnitude_cap(self) -> Option<u32> {
        raw_override(self.enchant_magnitude_cap_override)
    }

    pub open spec fn enchant_charge_cap(self) -> Option<u32> {
        raw_override(self.enchant_charge_cap_override)
    }

    pub open spec fn enchant_use_linear_charge(self) -> Option<bool> {
        raw_bool_override(self.enchant_use_linear_charge_override)
    }

    /// The base and offset multipliers, present only when both are set.
    pub open spec fn skill_exp_base(self, slot: int) -> Option<(u32, u32)> {
        let base = self.skill_exp_base_mult_override[slot];
        let offset = self.skill_exp_offset_mult_override[slot];
        if base == NO_OVERRIDE || offset == NO_OVERRIDE {
            None
        } else {
            Some((base, offset))
        }
    }

    pub open spec fn skill_exp_skill_level(self, slot: int, level: u32) -> Option<(u32, u32)> {
        self.skill_exp_by_skill_level[slot].nearest(level)
    }

    pub open spec fn skill_exp_character_level(self, slot: int, level: u32) -> Option<(u32, u32)> {
        self.skill_exp_by_character_level[slot].nearest(level)
    }

    pub open spec fn level_exp_base(self, slot: int) -> Option<u32> {
        raw_override(self.level_exp_base_mult_override[slot])
    }

    pub open spec fn level_exp_skill_level(self, slot: int, level: u32) -> Option<u32> {
        self.level_exp_by_skill_level[slot].nearest(level)
    }

    pub open spec fn level_exp_character_level(self, slot: int, level: u32) -> Option<u32> {
        self.level_exp_by_character_level[slot].nearest(level)
    }

    pub open spec fn perks_cumulative_delta(self, level: u32) -> Option<u32> {
        self.perks_at_level_up.cumulative_delta(level)
    }

    /// The attribute gain of table `table_index` at `level`; no table past
    /// the last one.
    pub open spec fn attribute(self, table_index: int, level: u32) -> Option<u32> {
        if table_index < ATTRIBUTE_TABLE_COUNT {
            self.attribute_level_up_tables[table_index].nearest(level)
        } else {
            None
        }
    }

    pub open spec fn legendary(self) -> Option<LegendaryRuntimeValues> {
        self.legendary_settings.current()
    }

    // --- what the menu writes ---

    pub open spec fn with_skill_cap(self, slot: int, value: u32) -> Self {
        RuntimeOverridesView {
            skill_cap_overrides: self.skill_cap_overrides.update(slot, value),
            ..self
        }
    }

    pub open spec fn with_formula_cap(self, slot: int, value: u32) -> Self {
        RuntimeOverridesView {
            formula_cap_overrides: self.formula_cap_overrides.update(slot, value),
            ..self
        }
    }

    pub open spec fn with_enchant_magnitude_cap(self, value: u32) -> Self {
        RuntimeOverridesView { enchant_magnitude_cap_override: value, ..self }
    }

    pub open spec fn with_enchant_charge_cap(self, value: u32) -> Self {
        RuntimeOverridesView { enchant_charge_cap_override: value, ..self }
    }

    pub open spec fn with_enchant_use_linear_charge(self, value: bool) -> Self {
        RuntimeOverridesView {
            enchant_use_linear_charge_override: if value {
                1
            } else {
                0
            },
            ..self
        }
    }

    pub open spec fn with_skill_exp_base(self, slot: int, base: u32, offset: u32) -> Self {
        RuntimeOverridesView {
            skill_exp_base_mult_override: self.skill_exp_base_mult_override.update(slot, base),
            skill_exp_offset_mult_override: self.skill_exp_offset_mult_override.update(slot, offset),
            ..self
        }
    }

    pub open spec fn with_skill_exp_skill_level_table(self, slot: int, t: MultiplierTableView) -> Self {
        RuntimeOverridesView {
            skill_exp_by_skill_level: self.skill_exp_by_skill_level.update(slot, t),
            ..self
        }
    }

    pub open spec fn with_skill_exp_character_level_table(
        self,
        slot: int,
        t: MultiplierTableView,
    ) -> Self {
        RuntimeOverridesView {
            skill_exp_by_character_level: self.skill_exp_by_character_level.update(slot, t),
            ..self
        }
    }

    pub open spec fn with_level_exp_base(self, slot: int, value: u32) -> Self {
        RuntimeOverridesView {
            level_exp_base_mult_override: self.level_exp_base_mult_override.update(slot, value),
            ..self
        }
    }

    pub open spec fn with_level_exp_skill_level_table(
        self,
        slot: int,
        t: SimpleMultiplierTableView,
    ) -> Self {
        RuntimeOverridesView {
            level_exp_by_skill_level: self.level_exp_by_skill_level.update(slot, t),
            ..self
        }
    }

    pub open spec fn with_level_exp_character_level_table(
        self,
        slot: int,
        t: SimpleMultiplierTableView,
    ) -> Self {
        RuntimeOverridesView {
            level_exp_by_character_level: self.level_exp_by_character_level.update(slot, t),
            ..self
        }
    }

    pub open spec fn with_perks_table(self, t: PerksTableView) -> Self {
        RuntimeOverridesView { perks_at_level_up: t, ..self }
    }

    pub open spec fn with_attribute_table(self, table_index: int, t: AttributeTableView) -> Self {
        RuntimeOverridesView {
            attribute_level_up_tables: self.attribute_level_up_tables.update(table_index, t),
            ..self
        }
    }

    pub open spec fn with_legendary(self, l: LegendarySettingsView) -> Self {
        RuntimeOverridesView { legendary_settings: l, ..self }
    }
}

impl RuntimeOverrides {
    /// No override set: every slot `NO_OVERRIDE`, every table fresh.
    pub fn new() -> (s: Self)
        ensures
            s@ == RuntimeOverridesView::initial(),
    {
        let multiplier_table = RuntimeMultiplierTable::new();
        let simple_table = RuntimeSimpleMultiplierTable::new();
        let attribute_table = RuntimeAttributeTable::new();
        let s = RuntimeOverrides {
            skill_cap_overrides: [NO_OVERRIDE; SKILL_COUNT],
            formula_cap_overrides: [NO_OVERRIDE; SKILL_COUNT],
            enchant_magnitude_cap_override: NO_OVERRIDE,
            enchant_charge_cap_override: NO_OVERRIDE,
            enchant_use_linear_charge_override: NO_OVERRIDE,
            skill_exp_base_mult_override: [NO_OVERRIDE; SKILL_COUNT],
            skill_exp_offset_mult_override: [NO_OVERRIDE; SKILL_COUNT],
            skill_exp_by_skill_level: [multiplier_table; SKILL_COUNT],
            skill_exp_by_character_level: [multiplier_table; SKILL_COUNT],
            level_exp_base_mult_override: [NO_OVERRIDE; SKILL_COUNT],
            level_exp_by_skill_level: [simple_table; SKILL_COUNT],
            level_exp_by_character_level: [simple_table; SKILL_COUNT],
            perks_at_level_up: RuntimePerksAtLevelUpTable::new(),
            attribute_level_up_tables: [attribute_table; ATTRIBUTE_TABLE_COUNT],
            legendary_settings: RuntimeLegendarySettings::new(),
        };
        assert(s@ =~= RuntimeOverridesView::initial());
        s
    }
}


// ---------------------------------------------------------------------
// Skill and formula caps
// ---------------------------------------------------------------------

pub fn get_skill_cap_override(overrides: &RuntimeOverrides, skill_slot: usize) -> (r: Option<u32>)
    requires
        skill_slot < SKILL_COUNT,
    ensures
        r == overrides@.skill_cap(skill_slot as int),
{
    let value: u32 = overrides.skill_cap_overrides[skill_slot];
    if value == NO_OVERRIDE {
        None
    } else {
        Some(value)
    }
}

/// Stores a skill cap from 1 to 500; refuses any other value.
pub fn set_skill_cap_override(overrides: &mut RuntimeOverrides, skill_slot: usize, value: u32) -> (r: bool)
    requires
        cap_value_valid(value) ==> skill_slot < SKILL_COUNT,
    ensures
        r == cap_value_valid(value),
        final(overrides)@ == if r {
            old(overrides)@.with_skill_cap(skill_slot as int, value)
        } else {
            old(overrides)@
        },
{
    if value == 0 || value > 500 {
        return false;
    }
    overrides.skill_cap_overrides[skill_slot] = value;
    true
}

pub fn get_formula_cap_override(overrides: &RuntimeOverrides, skill_slot: usize) -> (r: Option<u32>)
    requires
        skill_slot < SKILL_COUNT,
    ensures
        r == overrides@.formula_cap(skill_slot as int),
{
    let value: u32 = overrides.formula_cap_overrides[skill_slot];
    if value == NO_OVERRIDE {
        None
    } else {
        Some(value)
    }
}

/// Stores a formula cap from 1 to 500; refuses any other value.
pub fn set_formula_cap_override(overrides: &mut RuntimeOverrides, skill_slot: usize, value: u32) -> (r: bool)
    requires
        cap_value_valid(value) ==> skill_slot < SKILL_COUNT,
    ensures
        r == cap_value_valid(value),
        final(overrides)@ == if r {
            old(overrides)@.with_formula_cap(skill_slot as int, value)
        } else {
            old(overrides)@
        },
{
    if value == 0 || value > 500 {
        return false;
    }
    overrides.formula_cap_overrides[skill_slot] = value;
    true
}

// ---------------------------------------------------------------------
// Enchanting
// ---------------------------------------------------------------------

pub fn get_enchant_magnitude_cap_override(overrides: &RuntimeOverrides) -> (r: Option<u32>)
    ensures
        r == overrides@.enchant_magnitude_cap(),
{
    let value: u32 = overrides.enchant_magnitude_cap_override;
    if value == NO_OVERRIDE {
        None
    } else {
        Some(value)
    }
}

pub fn set_enchant_magnitude_cap_override(overrides: &mut RuntimeOverrides, value: u32)
    ensures
        final(overrides)@ == old(overrides)@.with_enchant_magnitude_cap(value),
{
    overrides.enchant_magnitude_cap_override = value;
}

pub fn get_enchant_charge_cap_override(overrides: &RuntimeOverrides) -> (r: Option<u32>)
    ensures
        r == overrides@.enchant_charge_cap(),
{
    let value: u32 = overrides.enchant_charge_cap_override;
    if value == NO_OVERRIDE {
        None
    } else {
        Some(value)
    }
}

pub fn set_enchant_charge_cap_override(overrides: &mut RuntimeOverrides, value: u32)
    ensures
        final(overrides)@ == old(overrides)@.with_enchant_charge_cap(value),
{
    overrides.enchant_charge_cap_override = value;
}

pub fn get_enchant_use_linear_charge_override(overrides: &RuntimeOverrides) -> (r: Option<bool>)
    ensures
        r == overrides@.enchant_use_linear_charge(),
{
    let value: u32 = overrides.enchant_use_linear_charge_override;
    if value == NO_OVERRIDE {
        None
    } else if value == 0 {
        Some(false)
    } else if value == 1 {
        Some(true)
    } else {
        None
    }
}

pub fn set_enchant_use_linear_charge_override(overrides: &mut RuntimeOverrides, value: bool)
    ensures
        final(overrides)@ == old(overrides)@.with_enchant_use_linear_charge(value),
{
    overrides.enchant_use_linear_charge_override = if value {
        1
    } else {
        0
    };
}

// ---------------------------------------------------------------------
// Skill experience: base multipliers
// ---------------------------------------------------------------------

pub fn get_skill_exp_base_override(overrides: &RuntimeOverrides, skill_slot: usize) -> (r: Option<(u32, u32)>)
    requires
        skill_slot < SKILL_COUNT,
    ensures
        r == overrides@.skill_exp_base(skill_slot as int),
{
    let base: u32 = overrides.skill_exp_base_mult_override[skill_slot];
    let offset: u32 = overrides.skill_exp_offset_mult_override[skill_slot];
    if base == NO_OVERRIDE || offset == NO_OVERRIDE {
        None
    } else {
        Some((base, offset))
    }
}

pub fn set_skill_exp_base_override(
    overrides: &mut RuntimeOverrides,
    skill_slot: usize,
    base_hundredths: u32,
    offset_hundredths: u32,
)
    requires
        skill_slot < SKILL_COUNT,
    ensures
        final(overrides)@ == old(overrides)@.with_skill_exp_base(
            skill_slot as int,
            base_hundredths,
            offset_hundredths,
        ),
{
    overrides.skill_exp_base_mult_override[skill_slot] = base_hundredths;
    overrides.skill_exp_offset_mult_override[skill_slot] = offset_hundredths;
}

// ---------------------------------------------------------------------
// Skill experience: breakpoints by skill level
// ---------------------------------------------------------------------

pub fn begin_skill_exp_skill_level_override(overrides: &mut RuntimeOverrides, skill_slot: usize)
    requires
        skill_slot < SKILL_COUNT,
    ensures
        final(overrides)@ == old(overrides)@.with_skill_exp_skill_level_table(
            skill_slot as int,
            old(overrides)@.skill_exp_by_skill_level[skill_slot as int].cleared(),
        ),
{
    let mut table = overrides.skill_exp_by_skill_level[skill_slot];
    table.begin_update();
    overrides.skill_exp_by_skill_level[skill_slot] = table;
}

pub fn set_skill_exp_skill_level_entry(
    overrides: &mut RuntimeOverrides,
    skill_slot: usize,
    index: usize,
    level: u32,
    base_hundredths: u32,
    offset_hundredths: u32,
) -> (r: bool)
    requires
        skill_slot < SKILL_COUNT,
    ensures
        r == (index < crate::tables::MAX_SKILL_EXP_BREAKPOINTS),
        final(overrides)@ == if r {
            old(overrides)@.with_skill_exp_skill_level_table(
                skill_slot as int,
                old(overrides)@.skill_exp_by_skill_level[skill_slot as int].with_entry(
                    index as int,
                    level,
                    base_hundredths,
                    offset_hundredths,
                ),
            )
        } else {
            old(overrides)@
        },
{
    let mut table = overrides.skill_exp_by_skill_level[skill_slot];
    let r = table.set_entry(index, level, base_hundredths, offset_hundredths);
    overrides.skill_exp_by_skill_level[skill_slot] = table;
    r
}

pub fn commit_skill_exp_skill_level_override(
    overrides: &mut RuntimeOverrides,
    skill_slot: usize,
    count: usize,
) -> (r: bool)
    requires
        skill_slot < SKILL_COUNT,
    ensures
        r == old(overrides)@.skill_exp_by_skill_level[skill_slot as int].commit_accepts(count as int),
        final(overrides)@ == if r {
            old(overrides)@.with_skill_exp_skill_level_table(
                skill_slot as int,
                old(overrides)@.skill_exp_by_skill_level[skill_slot as int].committed(count as int),
            )
        } else {
            old(overrides)@
        },
{
    let mut table = overrides.skill_exp_by_skill_level[skill_slot];
    let r = table.commit(count);
    overrides.skill_exp_by_skill_level[skill_slot] = table;
    r
}

pub fn get_skill_exp_skill_level_override(
    overrides: &RuntimeOverrides,
    skill_slot: usize,
    level: u32,
) -> (r: Option<(u32, u32)>)
    requires
        skill_slot < SKILL_COUNT,
    ensures
        r == overrides@.skill_exp_skill_level(skill_slot as int, level),
{
    overrides.skill_exp_by_skill_level[skill_slot].get_nearest(level)
}


// ---------------------------------------------------------------------
// Skill experience: breakpoints by character level
// ---------------------------------------------------------------------

pub fn begin_skill_exp_character_level_override(overrides: &mut RuntimeOverrides, skill_slot: usize)
    requires
        skill_slot < SKILL_COUNT,
    ensures
        final(overrides)@ == old(overrides)@.with_skill_exp_character_level_table(
            skill_slot as int,
            old(overrides)@.skill_exp_by_character_level[skill_slot as int].cleared(),
        ),
{
    let mut table = overrides.skill_exp_by_character_level[skill_slot];
    table.begin_update();
    overrides.skill_exp_by_character_level[skill_slot] = table;
}

pub fn set_skill_exp_character_level_entry(
    overrides: &mut RuntimeOverrides,
    skill_slot: usize,
    index: usize,
    level: u32,
    base_hundredths: u32,
    offset_hundredths: u32,
) -> (r: bool)
    requires
        skill_slot < SKILL_COUNT,
    ensures
        r == (index < crate::tables::MAX_SKILL_EXP_BREAKPOINTS),
        final(overrides)@ == if r {
            old(overrides)@.with_skill_exp_character_level_table(
                skill_slot as int,
                old(overrides)@.skill_exp_by_character_level[skill_slot as int].with_entry(
                    index as int,
                    level,
                    base_hundredths,
                    offset_hundredths,
                ),
            )
        } else {
            old(overrides)@
        },
{
    let mut table = overrides.skill_exp_by_character_level[skill_slot];
    let r = table.set_entry(index, level, base_hundredths, offset_hundredths);
    overrides.skill_exp_by_character_level[skill_slot] = table;
    r
}

pub fn commit_skill_exp_character_level_override(
    overrides: &mut RuntimeOverrides,
    skill_slot: usize,
    count: usize,
) -> (r: bool)
    requires
        skill_slot < SKILL_COUNT,
    ensures
        r == old(overrides)@.skill_exp_by_character_level[skill_slot as int].commit_accepts(
            count as int,
        ),
        final(overrides)@ == if r {
            old(overrides)@.with_skill_exp_character_level_table(
                skill_slot as int,
                old(overrides)@.skill_exp_by_character_level[skill_slot as int].committed(
                    count as int,
                ),
            )
        } else {
            old(overrides)@
        },
{
    let mut table = overrides.skill_exp_by_character_level[skill_slot];
    let r = table.commit(count);
    overrides.skill_exp_by_character_level[skill_slot] = table;
    r
}

pub fn get_skill_exp_character_level_override(
    overrides: &RuntimeOverrides,
    skill_slot: usize,
    level: u32,
) -> (r: Option<(u32, u32)>)
    requires
        skill_slot < SKILL_COUNT,
    ensures
        r == overrides@.skill_exp_character_level(skill_slot as int, level),
{
    overrides.skill_exp_by_character_level[skill_slot].get_nearest(level)
}

// ---------------------------------------------------------------------
// Player level experience: base multiplier
// ---------------------------------------------------------------------

pub fn get_level_exp_base_override(overrides: &RuntimeOverrides, skill_slot: usize) -> (r: Option<u32>)
    requires
        skill_slot < SKILL_COUNT,
    ensures
        r == overrides@.level_exp_base(skill_slot as int),
{
    let value: u32 = overrides.level_exp_base_mult_override[skill_slot];
    if value == NO_OVERRIDE {
        None
    } else {
        Some(value)
    }
}

pub fn set_level_exp_base_override(
    overrides: &mut RuntimeOverrides,
    skill_slot: usize,
    multiplier_hundredths: u32,
)
    requires
        skill_slot < SKILL_COUNT,
    ensures
        final(overrides)@ == old(overrides)@.with_level_exp_base(
            skill_slot as int,
            multiplier_hundredths,
        ),
{
    overrides.level_exp_base_mult_override[skill_slot] = multiplier_hundredths;
}

// ---------------------------------------------------------------------
// Player level experience: breakpoints by skill level
// ---------------------------------------------------------------------

pub fn begin_level_exp_skill_level_override(overrides: &mut RuntimeOverrides, skill_slot: usize)
    requires
        skill_slot < SKILL_COUNT,
    ensures
        final(overrides)@ == old(overrides)@.with_level_exp_skill_level_table(
            skill_slot as int,
            old(overrides)@.level_exp_by_skill_level[skill_slot as int].cleared(),
        ),
{
    let mut table = overrides.level_exp_by_skill_level[skill_slot];
    table.begin_update();
    overrides.level_exp_by_skill_level[skill_slot] = table;
}

pub fn set_level_exp_skill_level_entry(
    overrides: &mut RuntimeOverrides,
    skill_slot: usize,
    index: usize,
    level: u32,
    multiplier_hundredths: u32,
) -> (r: bool)
    requires
        skill_slot < SKILL_COUNT,
    ensures
        r == (index < crate::tables::MAX_LEVEL_EXP_BREAKPOINTS),
        final(overrides)@ == if r {
            old(overrides)@.with_level_exp_skill_level_table(
                skill_slot as int,
                old(overrides)@.level_exp_by_skill_level[skill_slot as int].with_entry(
                    index as int,
                    level,
                    multiplier_hundredths,
                ),
            )
        } else {
            old(overrides)@
        },
{
    let mut table = overrides.level_exp_by_skill_level[skill_slot];
    let r = table.set_entry(index, level, multiplier_hundredths);
    overrides.level_exp_by_skill_level[skill_slot] = table;
    r
}

pub fn commit_level_exp_skill_level_override(
    overrides: &mut RuntimeOverrides,
    skill_slot: usize,
    count: usize,
) -> (r: bool)
    requires
        skill_slot < SKILL_COUNT,
    ensures
        r == old(overrides)@.level_exp_by_skill_level[skill_slot as int].commit_accepts(count as int),
        final(overrides)@ == if r {
            old(overrides)@.with_level_exp_skill_level_table(
                skill_slot as int,
                old(overrides)@.level_exp_by_skill_level[skill_slot as int].committed(count as int),
            )
        } else {
            old(overrides)@
        },
{
    let mut table = overrides.level_exp_by_skill_level[skill_slot];
    let r = table.commit(count);
    overrides.level_exp_by_skill_level[skill_slot] = table;
    r
}

pub fn get_level_exp_skill_level_override(
    overrides: &RuntimeOverrides,
    skill_slot: usize,
    level: u32,
) -> (r: Option<u32>)
    requires
        skill_slot < SKILL_COUNT,
    ensures
        r == overrides@.level_exp_skill_level(skill_slot as int, level),
{
    overrides.level_exp_by_skill_level[skill_slot].get_nearest(level)
}

// ---------------------------------------------------------------------
// Player level experience: breakpoints by character level
// ---------------------------------------------------------------------

pub fn begin_level_exp_character_level_override(overrides: &mut RuntimeOverrides, skill_slot: usize)
    requires
        skill_slot < SKILL_COUNT,
    ensures
        final(overrides)@ == old(overrides)@.with_level_exp_character_level_table(
            skill_slot as int,
            old(overrides)@.level_exp_by_character_level[skill_slot as int].cleared(),
        ),
{
    let mut table = overrides.level_exp_by_character_level[skill_slot];
    table.begin_update();
    overrides.level_exp_by_character_level[skill_slot] = table;
}

pub fn set_level_exp_character_level_entry(
    overrides: &mut RuntimeOverrides,
    skill_slot: usize,
    index: usize,
    level: u32,
    multiplier_hundredths: u32,
) -> (r: bool)
    requires
        skill_slot < SKILL_COUNT,
    ensures
        r == (index < crate::tables::MAX_LEVEL_EXP_BREAKPOINTS),
        final(overrides)@ == if r {
            old(overrides)@.with_level_exp_character_level_table(
                skill_slot as int,
                old(overrides)@.level_exp_by_character_level[skill_slot as int].with_entry(
                    index as int,
                    level,
                    multiplier_hundredths,
                ),
            )
        } else {
            old(overrides)@
        },
{
    let mut table = overrides.level_exp_by_character_level[skill_slot];
    let r = table.set_entry(index, level, multiplier_hundredths);
    overrides.level_exp_by_character_level[skill_slot] = table;
    r
}

pub fn commit_level_exp_character_level_override(
    overrides: &mut RuntimeOverrides,
    skill_slot: usize,
    count: usize,
) -> (r: bool)
    requires
        skill_slot < SKILL_COUNT,
    ensures
        r == old(overrides)@.level_exp_by_character_level[skill_slot as int].commit_accepts(
            count as int,
        ),
        final(overrides)@ == if r {
            old(overrides)@.with_level_exp_character_level_table(
                skill_slot as int,
                old(overrides)@.level_exp_by_character_level[skill_slot as int].committed(
                    count as int,
                ),
            )
        } else {
            old(overrides)@
        },
{
    let mut table = overrides.level_exp_by_character_level[skill_slot];
    let r = table.commit(count);
    overrides.level_exp_by_character_level[skill_slot] = table;
    r
}

pub fn get_level_exp_character_level_override(
    overrides: &RuntimeOverrides,
    skill_slot: usize,
    level: u32,
) -> (r: Option<u32>)
    requires
        skill_slot < SKILL_COUNT,
    ensures
        r == overrides@.level_exp_character_level(skill_slot as int, level),
{
    overrides.level_exp_by_character_level[skill_slot].get_nearest(level)
}

// ---------------------------------------------------------------------
// Perks at level up
// ---------------------------------------------------------------------

pub fn begin_perks_at_level_up_override(overrides: &mut RuntimeOverrides)
    ensures
        final(overrides)@ == old(overrides)@.with_perks_table(
            old(overrides)@.perks_at_level_up.cleared(),
        ),
{
    overrides.perks_at_level_up.begin_update();
}

/// Stages a perk breakpoint; refuses an index past the table or a value
/// above 10000 hundredths.
pub fn set_perks_at_level_up_entry(
    overrides: &mut RuntimeOverrides,
    index: usize,
    level: u32,
    perk_hundredths: u32,
) -> (r: bool)
    ensures
        r == (index < crate::tables::MAX_PERKS_AT_LEVEL_UP_BREAKPOINTS && perk_hundredths
            <= crate::tables::MAX_PERKS_AT_LEVEL_UP_HUNDREDTHS),
        final(overrides)@ == if r {
            old(overrides)@.with_perks_table(
                old(overrides)@.perks_at_level_up.with_entry(index as int, level, perk_hundredths),
            )
        } else {
            old(overrides)@
        },
{
    overrides.perks_at_level_up.set_entry(index, level, perk_hundredths)
}

pub fn commit_perks_at_level_up_override(overrides: &mut RuntimeOverrides, count: usize) -> (r: bool)
    ensures
        r == old(overrides)@.perks_at_level_up.commit_accepts(count as int),
        final(overrides)@ == if r {
            old(overrides)@.with_perks_table(
                old(overrides)@.perks_at_level_up.committed(count as int),
            )
        } else {
            old(overrides)@
        },
{
    overrides.perks_at_level_up.commit(count)
}

/// Whole perks gained on reaching `level` under the published perk table.
pub fn get_perks_at_level_up_cumulative_delta(overrides: &RuntimeOverrides, level: u32) -> (r: Option<u32>)
    requires
        overrides@.perks_at_level_up.scan_defined(level),
    ensures
        r == overrides@.perks_cumulative_delta(level),
        r matches Some(d) ==> d == crate::breakpoints::perk_delta(
            overrides@.perks_at_level_up.levels,
            overrides@.perks_at_level_up.perk_hundredths,
            overrides@.perks_at_level_up.count as int,
            level as int,
        ),
{
    overrides.perks_at_level_up.get_cumulative_delta(level)
}

// ---------------------------------------------------------------------
// Attribute gains at level up
// ---------------------------------------------------------------------

/// Withdraws the override of an attribute table; refuses an index past the
/// last table.
pub fn begin_attribute_override(overrides: &mut RuntimeOverrides, table_index: usize) -> (r: bool)
    ensures
        r == (table_index < ATTRIBUTE_TABLE_COUNT),
        final(overrides)@ == if r {
            old(overrides)@.with_attribute_table(
                table_index as int,
                old(overrides)@.attribute_level_up_tables[table_index as int].cleared(),
            )
        } else {
            old(overrides)@
        },
{
    if table_index >= ATTRIBUTE_TABLE_COUNT {
        return false;
    }
    let mut table = overrides.attribute_level_up_tables[table_index];
    table.begin_update();
    overrides.attribute_level_up_tables[table_index] = table;
    true
}

/// Stages an attribute breakpoint; refuses an unknown table, an index past
/// the table or a level above 500.
pub fn set_attribute_entry(
    overrides: &mut RuntimeOverrides,
    table_index: usize,
    index: usize,
    level: u32,
    value: u32,
) -> (r: bool)
    ensures
        r == (table_index < ATTRIBUTE_TABLE_COUNT && index < crate::tables::MAX_ATTRIBUTE_BREAKPOINTS
            && level <= crate::breakpoints::MAX_BREAKPOINT_LEVEL),
        final(overrides)@ == if r {
            old(overrides)@.with_attribute_table(
                table_index as int,
                old(overrides)@.attribute_level_up_tables[table_index as int].with_entry(
                    index as int,
                    level,
                    value,
                ),
            )
        } else {
            old(overrides)@
        },
{
    if table_index >= ATTRIBUTE_TABLE_COUNT || index >= crate::tables::MAX_ATTRIBUTE_BREAKPOINTS
        || level > crate::breakpoints::MAX_BREAKPOINT_LEVEL {
        return false;
    }
    let mut table = overrides.attribute_level_up_tables[table_index];
    let r = table.set_entry(index, level, value);
    overrides.attribute_level_up_tables[table_index] = table;
    r
}

/// Publishes the first `count` staged entries of an attribute table when
/// they form a valid table; refuses an unknown table.
pub fn commit_attribute_override(
    overrides: &mut RuntimeOverrides,
    table_index: usize,
    count: usize,
) -> (r: bool)
    ensures
        r == (table_index < ATTRIBUTE_TABLE_COUNT && old(
            overrides,
        )@.attribute_level_up_tables[table_index as int].commit_accepts(count as int)),
        final(overrides)@ == if r {
            old(overrides)@.with_attribute_table(
                table_index as int,
                old(overrides)@.attribute_level_up_tables[table_index as int].committed(
                    count as int,
                ),
            )
        } else {
            old(overrides)@
        },
{
    if table_index >= ATTRIBUTE_TABLE_COUNT {
        return false;
    }
    let mut table = overrides.attribute_level_up_tables[table_index];
    let r = table.commit(count);
    overrides.attribute_level_up_tables[table_index] = table;
    r
}

pub fn get_attribute_override(overrides: &RuntimeOverrides, table_index: usize, level: u32) -> (r: Option<u32>)
    ensures
        r == overrides@.attribute(table_index as int, level),
{
    if table_index >= ATTRIBUTE_TABLE_COUNT {
        return None;
    }
    overrides.attribute_level_up_tables[table_index].get_nearest(level)
}

// ---------------------------------------------------------------------
// Legendary settings
// ---------------------------------------------------------------------

/// Sets the Legendary settings when they are valid (see
/// `legendary_values_valid`); refuses them otherwise.
pub fn set_legendary_override(
    overrides: &mut RuntimeOverrides,
    keep_skill_level: bool,
    hide_button: bool,
    skill_level_enable: u32,
    skill_level_after: u32,
) -> (r: bool)
    ensures
        ({
            let values = LegendaryRuntimeValues {
                keep_skill_level,
                hide_button,
                skill_level_enable,
                skill_level_after,
            };
            &&& r == crate::legendary::legendary_values_valid(values)
            &&& final(overrides)@ == if r {
                old(overrides)@.with_legendary(old(overrides)@.legendary_settings.with_values(values))
            } else {
                old(overrides)@
            }
        }),
{
    overrides.legendary_settings.set(
        LegendaryRuntimeValues { keep_skill_level, hide_button, skill_level_enable, skill_level_after },
    )
}

pub fn get_legendary_override(overrides: &RuntimeOverrides) -> (r: Option<LegendaryRuntimeValues>)
    ensures
        r == overrides@.legendary(),
{
    overrides.legendary_settings.get()
}

// ---------------------------------------------------------------------
// Reset
// ---------------------------------------------------------------------

/// Withdraws every override, so that the INI values apply again.
pub fn clear_overrides(overrides: &mut RuntimeOverrides)
    ensures
        final(overrides)@ == old(overrides)@.cleared(),
{
    let mut index: usize = 0;
    while index < SKILL_COUNT
        invariant
            index <= SKILL_COUNT,
            forall|j: int|
                0 <= j < SKILL_COUNT ==> #[trigger] overrides.skill_cap_overrides@[j] == if j < index {
                    NO_OVERRIDE
                } else {
                    old(overrides).skill_cap_overrides@[j]
                },
            forall|j: int|
                0 <= j < SKILL_COUNT ==> #[trigger] overrides.formula_cap_overrides@[j] == if j < index {
                    NO_OVERRIDE
                } else {
                    old(overrides).formula_cap_overrides@[j]
                },
            forall|j: int|
                0 <= j < SKILL_COUNT ==> #[trigger] overrides.skill_exp_base_mult_override@[j] == if j < index {
                    NO_OVERRIDE
                } else {
                    old(overrides).skill_exp_base_mult_override@[j]
                },
            forall|j: int|
                0 <= j < SKILL_COUNT ==> #[trigger] overrides.skill_exp_offset_mult_override@[j] == if j < index {
                    NO_OVERRIDE
                } else {
                    old(overrides).skill_exp_offset_mult_override@[j]
                },
            forall|j: int|
                0 <= j < SKILL_COUNT ==> #[trigger] overrides.level_exp_base_mult_override@[j] == if j < index {
                    NO_OVERRIDE
                } else {
                    old(overrides).level_exp_base_mult_override@[j]
                },
            forall|j: int|
                0 <= j < SKILL_COUNT ==> #[trigger] overrides.skill_exp_by_skill_level@[j]@ == if j < index {
                    old(overrides).skill_exp_by_skill_level@[j]@.cleared()
                } else {
                    old(overrides).skill_exp_by_skill_level@[j]@
                },
            forall|j: int|
                0 <= j < SKILL_COUNT ==> #[trigger] overrides.skill_exp_by_character_level@[j]@ == if j < index {
                    old(overrides).skill_exp_by_character_level@[j]@.cleared()
                } else {
                    old(overrides).skill_exp_by_character_level@[j]@
                },
            forall|j: int|
                0 <= j < SKILL_COUNT ==> #[trigger] overrides.level_exp_by_skill_level@[j]@ == if j < index {
                    old(overrides).level_exp_by_skill_level@[j]@.cleared()
                } else {
                    old(overrides).level_exp_by_skill_level@[j]@
                },
            forall|j: int|
                0 <= j < SKILL_COUNT ==> #[trigger] overrides.level_exp_by_character_level@[j]@ == if j < index {
                    old(overrides).level_exp_by_character_level@[j]@.cleared()
                } else {
                    old(overrides).level_exp_by_character_level@[j]@
                },
            overrides.enchant_magnitude_cap_override == old(overrides).enchant_magnitude_cap_override,
            overrides.enchant_charge_cap_override == old(overrides).enchant_charge_cap_override,
            overrides.enchant_use_linear_charge_override == old(
                overrides,
            ).enchant_use_linear_charge_override,
            overrides.perks_at_level_up@ == old(overrides).perks_at_level_up@,
            overrides.attribute_level_up_tables@ == old(overrides).attribute_level_up_tables@,
            overrides.legendary_settings@ == old(overrides).legendary_settings@,
        decreases SKILL_COUNT - index,
    {
        overrides.skill_cap_overrides[index] = NO_OVERRIDE;
        overrides.formula_cap_overrides[index] = NO_OVERRIDE;
        overrides.skill_exp_base_mult_override[index] = NO_OVERRIDE;
        overrides.skill_exp_offset_mult_override[index] = NO_OVERRIDE;
        let mut table = overrides.skill_exp_by_skill_level[index];
        table.clear();
        overrides.skill_exp_by_skill_level[index] = table;
        let mut table = overrides.skill_exp_by_character_level[index];
        table.clear();
        overrides.skill_exp_by_character_level[index] = table;
        overrides.level_exp_base_mult_override[index] = NO_OVERRIDE;
        let mut table = overrides.level_exp_by_skill_level[index];
        table.clear();
        overrides.level_exp_by_skill_level[index] = table;
        let mut table = overrides.level_exp_by_character_level[index];
        table.clear();
        overrides.level_exp_by_character_level[index] = table;
        index = index + 1;
    }
    assert(overrides.skill_cap_overrides@ =~= no_overrides(18));
    assert(overrides.formula_cap_overrides@ =~= no_overrides(18));
    assert(overrides.skill_exp_base_mult_override@ =~= no_overrides(18));
    assert(overrides.skill_exp_offset_mult_override@ =~= no_overrides(18));
    assert(overrides.level_exp_base_mult_override@ =~= no_overrides(18));
    assert(overrides@.skill_exp_by_skill_level =~= old(overrides)@.cleared().skill_exp_by_skill_level);
    assert(overrides@.skill_exp_by_character_level =~= old(overrides)@.cleared().skill_exp_by_character_level);
    assert(overrides@.level_exp_by_skill_level =~= old(overrides)@.cleared().level_exp_by_skill_level);
    assert(overrides@.level_exp_by_character_level =~= old(overrides)@.cleared().level_exp_by_character_level);
    overrides.enchant_magnitude_cap_override = NO_OVERRIDE;
    overrides.enchant_charge_cap_override = NO_OVERRIDE;
    overrides.enchant_use_linear_charge_override = NO_OVERRIDE;
    overrides.perks_at_level_up.clear();
    let mut index: usize = 0;
    while index < ATTRIBUTE_TABLE_COUNT
        invariant
            index <= ATTRIBUTE_TABLE_COUNT,
            forall|j: int|
                0 <= j < ATTRIBUTE_TABLE_COUNT ==> #[trigger] overrides.attribute_level_up_tables@[j]@
                    == if j < index {
                    old(overrides).attribute_level_up_tables@[j]@.cleared()
                } else {
                    old(overrides).attribute_level_up_tables@[j]@
                },
            overrides.skill_cap_overrides@ == no_overrides(18),
            overrides.formula_cap_overrides@ == no_overrides(18),
            overrides.skill_exp_base_mult_override@ == no_overrides(18),
            overrides.skill_exp_offset_mult_override@ == no_overrides(18),
            overrides.level_exp_base_mult_override@ == no_overrides(18),
            overrides@.skill_exp_by_skill_level == old(overrides)@.cleared().skill_exp_by_skill_level,
            overrides@.skill_exp_by_character_level == old(
                overrides,
            )@.cleared().skill_exp_by_character_level,
            overrides@.level_exp_by_skill_level == old(overrides)@.cleared().level_exp_by_skill_level,
            overrides@.level_exp_by_character_level == old(
                overrides,
            )@.cleared().level_exp_by_character_level,
            overrides.enchant_magnitude_cap_override == NO_OVERRIDE,
            overrides.enchant_charge_cap_override == NO_OVERRIDE,
            overrides.enchant_use_linear_charge_override == NO_OVERRIDE,
            overrides.perks_at_level_up@ == old(overrides).perks_at_level_up@.cleared(),
            overrides.legendary_settings@ == old(overrides).legendary_settings@,
        decreases ATTRIBUTE_TABLE_COUNT - index,
    {
        let mut table = overrides.attribute_level_up_tables[index];
        table.clear();
        overrides.attribute_level_up_tables[index] = table;
        index = index + 1;
    }
    overrides.legendary_settings.clear();
    assert(overrides@.attribute_level_up_tables =~= old(overrides)@.cleared().attribute_level_up_tables);
}

} // verus!
