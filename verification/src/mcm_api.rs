//! The runtime override interface that the in-game menu calls.
//!
//! Every entry point checks its arguments the same way before it touches
//! the overrides: an unknown skill slot or table, an index past a table, a
//! level above 500 or a multiplier above 10000 hundredths is refused, and
//! the getters of INI values answer `u32::MAX` for a request they cannot
//! serve.

use vstd::prelude::*;

use crate::breakpoints::{MAX_BREAKPOINT_LEVEL, MAX_MULTIPLIER_HUNDREDTHS};
use crate::ini::{ini_attribute_table, IniSettings};
use crate::runtime_settings::{
    begin_attribute_override, begin_level_exp_character_level_override,
    begin_level_exp_skill_level_override, begin_perks_at_level_up_override,
    begin_skill_exp_character_level_override, begin_skill_exp_skill_level_override,
    clear_overrides, commit_attribute_override, commit_level_exp_character_level_override,
    commit_level_exp_skill_level_override, commit_perks_at_level_up_override,
    commit_skill_exp_character_level_override, commit_skill_exp_skill_level_override,
    set_attribute_entry, set_enchant_charge_cap_override, set_enchant_magnitude_cap_override,
    set_enchant_use_linear_charge_override, set_formula_cap_override,
    set_level_exp_base_override, set_level_exp_character_level_entry,
    set_level_exp_skill_level_entry, set_perks_at_level_up_entry, set_skill_cap_override,
    set_skill_exp_base_override, set_skill_exp_character_level_entry,
    set_skill_exp_skill_level_entry, RuntimeOverrides, ATTRIBUTE_TABLE_COUNT,
};
use crate::skills::{skill_from_slot, SKILL_COUNT};
use crate::tables::{
    MAX_ATTRIBUTE_BREAKPOINTS, MAX_LEVEL_EXP_BREAKPOINTS, MAX_PERKS_AT_LEVEL_UP_BREAKPOINTS,
    MAX_SKILL_EXP_BREAKPOINTS,
};

verus! {

/// Answer of an INI getter that cannot serve the request.
pub const INI_VALUE_UNAVAILABLE: u32 = 0xFFFF_FFFF;

/// The breakpoint level at `index` of a list of levels, or
/// `INI_VALUE_UNAVAILABLE` past its end.
pub open spec fn level_at_or_unavailable(levels: Seq<u32>, index: int) -> u32 {
    if 0 <= index < levels.len() {
        levels[index]
    } else {
        INI_VALUE_UNAVAILABLE
    }
}

fn level_at(levels: &Vec<u32>, index: usize) -> (r: u32)
    ensures
        r == level_at_or_unavailable(levels@, index as int),
{
    if index < levels.len() {
        levels[index]
    } else {
        INI_VALUE_UNAVAILABLE
    }
}

// ---------------------------------------------------------------------
// Skill and formula caps
// ---------------------------------------------------------------------

/// Sets a skill cap override; `false` only for an unknown skill slot. A cap
/// outside 1 to 500 is not stored, though the call still answers `true`.
pub fn Uncapper_SetSkillCapOverride(overrides: &mut RuntimeOverrides, skill_slot: u32, value: u32) -> (r: bool)
    ensures
        r == (skill_slot < SKILL_COUNT),
        final(overrides)@ == if r && crate::runtime_settings::cap_value_valid(value) {
            old(overrides)@.with_skill_cap(skill_slot as int, value)
        } else {
            old(overrides)@
        },
{
    let skill_slot: usize = skill_slot as usize;
    if skill_slot >= SKILL_COUNT {
        return false;
    }
    set_skill_cap_override(overrides, skill_slot, value);
    true
}

/// Sets a formula cap override; `false` only for an unknown skill slot. A
/// cap outside 1 to 500 is not stored, though the call still answers
/// `true`.
pub fn Uncapper_SetFormulaCapOverride(overrides: &mut RuntimeOverrides, skill_slot: u32, value: u32) -> (r: bool)
    ensures
        r == (skill_slot < SKILL_COUNT),
        final(overrides)@ == if r && crate::runtime_settings::cap_value_valid(value) {
            old(overrides)@.with_formula_cap(skill_slot as int, value)
        } else {
            old(overrides)@
        },
{
    let skill_slot: usize = skill_slot as usize;
    if skill_slot >= SKILL_COUNT {
        return false;
    }
    set_formula_cap_override(overrides, skill_slot, value);
    true
}

pub fn Uncapper_ClearOverrides(overrides: &mut RuntimeOverrides)
    ensures
        final(overrides)@ == old(overrides)@.cleared(),
{
    clear_overrides(overrides);
}

pub fn Uncapper_GetIniSkillCap(ini: &IniSettings, skill_slot: u32) -> (r: u32)
    ensures
        r == if skill_slot < SKILL_COUNT {
            ini.skill_caps@[skill_slot as int]
        } else {
            INI_VALUE_UNAVAILABLE
        },
{
    match skill_from_slot(skill_slot) {
        None => INI_VALUE_UNAVAILABLE,
        Some(_) => ini.skill_caps[skill_slot as usize],
    }
}

pub fn Uncapper_GetIniFormulaCap(ini: &IniSettings, skill_slot: u32) -> (r: u32)
    ensures
        r == if skill_slot < SKILL_COUNT {
            ini.skill_formula_caps@[skill_slot as int]
        } else {
            INI_VALUE_UNAVAILABLE
        },
{
    match skill_from_slot(skill_slot) {
        None => INI_VALUE_UNAVAILABLE,
        Some(_) => ini.skill_formula_caps[skill_slot as usize],
    }
}

// ---------------------------------------------------------------------
// Enchanting
// ---------------------------------------------------------------------

/// Sets the enchantment magnitude cap override; accepts 1 to 500.
pub fn Uncapper_SetEnchantMagnitudeCapOverride(overrides: &mut RuntimeOverrides, value: u32) -> (r: bool)
    ensures
        r == (1 <= value <= 500),
        final(overrides)@ == if r {
            old(overrides)@.with_enchant_magnitude_cap(value)
        } else {
            old(overrides)@
        },
{
    if value < 1 || value > 500 {
        return false;
    }
    set_enchant_magnitude_cap_override(overrides, value);
    true
}

/// Sets the enchantment charge cap override; accepts 1 to 199.
pub fn Uncapper_SetEnchantChargeCapOverride(overrides: &mut RuntimeOverrides, value: u32) -> (r: bool)
    ensures
        r == (1 <= value <= 199),
        final(overrides)@ == if r {
            old(overrides)@.with_enchant_charge_cap(value)
        } else {
            old(overrides)@
        },
{
    if value < 1 || value > 199 {
        return false;
    }
    set_enchant_charge_cap_override(overrides, value);
    true
}

/// Sets the linear charge override from 0 (no) or 1 (yes); refuses any
/// other value.
pub fn Uncapper_SetEnchantUseLinearChargeOverride(overrides: &mut RuntimeOverrides, value: u32) -> (r: bool)
    ensures
        r == (value <= 1),
        final(overrides)@ == if r {
            old(overrides)@.with_enchant_use_linear_charge(value == 1)
        } else {
            old(overrides)@
        },
{
    let enabled: bool = match value {
        0 => false,
        1 => true,
        _ => return false,
    };
    set_enchant_use_linear_charge_override(overrides, enabled);
    true
}

pub fn Uncapper_GetIniEnchantMagnitudeCap(ini: &IniSettings) -> (r: u32)
    ensures
        r == ini.enchant_magnitude_cap,
{
    ini.enchant_magnitude_cap
}

pub fn Uncapper_GetIniEnchantChargeCap(ini: &IniSettings) -> (r: u32)
    ensures
        r == ini.enchant_charge_cap,
{
    ini.enchant_charge_cap
}

pub fn Uncapper_GetIniEnchantUseLinearCharge(ini: &IniSettings) -> (r: u32)
    ensures
        r == if ini.enchant_use_linear_charge {
            1u32
        } else {
            0u32
        },
{
    if ini.enchant_use_linear_charge {
        1
    } else {
        0
    }
}

// ---------------------------------------------------------------------
// Skill experience: base multipliers
// ---------------------------------------------------------------------

/// Sets the base and offset skill experience multipliers of a skill;
/// refuses an unknown slot or a multiplier above 10000 hundredths.
pub fn Uncapper_SetSkillExpBaseOverride(
    overrides: &mut RuntimeOverrides,
    skill_slot: u32,
    base_hundredths: u32,
    offset_hundredths: u32,
) -> (r: bool)
    ensures
        r == (skill_slot < SKILL_COUNT && base_hundredths <= MAX_MULTIPLIER_HUNDREDTHS
            && offset_hundredths <= MAX_MULTIPLIER_HUNDREDTHS),
        final(overrides)@ == if r {
            old(overrides)@.with_skill_exp_base(skill_slot as int, base_hundredths, offset_hundredths)
        } else {
            old(overrides)@
        },
{
    let skill_slot: usize = skill_slot as usize;
    if skill_slot >= SKILL_COUNT {
        return false;
    }
    if base_hundredths > MAX_MULTIPLIER_HUNDREDTHS || offset_hundredths > MAX_MULTIPLIER_HUNDREDTHS {
        return false;
    }
    set_skill_exp_base_override(overrides, skill_slot, base_hundredths, offset_hundredths);
    true
}

// ---------------------------------------------------------------------
// Skill experience: breakpoints by skill level
// ---------------------------------------------------------------------

pub fn Uncapper_GetIniSkillExpSkillLevelBreakpointCount(ini: &IniSettings, skill_slot: u32) -> (r: u32)
    ensures
        r == if skill_slot < SKILL_COUNT {
            ini.skill_exp_mults_with_skills_levels@[skill_slot as int]@.len() as u32
        } else {
            INI_VALUE_UNAVAILABLE
        },
{
    match skill_from_slot(skill_slot) {
        None => INI_VALUE_UNAVAILABLE,
        Some(_) => ini.skill_exp_mults_with_skills_levels[skill_slot as usize].len() as u32,
    }
}

pub fn Uncapper_GetIniSkillExpSkillLevelBreakpointLevel(ini: &IniSettings, skill_slot: u32, index: u32) -> (r: u32)
    ensures
        r == if skill_slot < SKILL_COUNT {
            level_at_or_unavailable(ini.skill_exp_mults_with_skills_levels@[skill_slot as int]@, index as int)
        } else {
            INI_VALUE_UNAVAILABLE
        },
{
    match skill_from_slot(skill_slot) {
        None => INI_VALUE_UNAVAILABLE,
        Some(_) => level_at(&ini.skill_exp_mults_with_skills_levels[skill_slot as usize], index as usize),
    }
}

/// Withdraws the override of a skill's table; refuses an unknown slot.
pub fn Uncapper_BeginSkillExpSkillLevelOverride(overrides: &mut RuntimeOverrides, skill_slot: u32) -> (r: bool)
    ensures
        r == (skill_slot < SKILL_COUNT),
        final(overrides)@ == if r {
            old(overrides)@.with_skill_exp_skill_level_table(
                skill_slot as int,
                old(overrides)@.skill_exp_by_skill_level[skill_slot as int].cleared(),
            )
        } else {
            old(overrides)@
        },
{
    let skill_slot: usize = skill_slot as usize;
    if skill_slot >= SKILL_COUNT {
        return false;
    }
    begin_skill_exp_skill_level_override(overrides, skill_slot);
    true
}

/// Stages a breakpoint; refuses an unknown slot, an index past the table,
/// a level above 500 or a multiplier above 10000 hundredths.
pub fn Uncapper_SetSkillExpSkillLevelBreakpoint(
    overrides: &mut RuntimeOverrides,
    skill_slot: u32,
    index: u32,
    level: u32,
    base_hundredths: u32,
    offset_hundredths: u32,
) -> (r: bool)
    ensures
        r == (skill_slot < SKILL_COUNT && index < MAX_SKILL_EXP_BREAKPOINTS && level
            <= MAX_BREAKPOINT_LEVEL && base_hundredths <= MAX_MULTIPLIER_HUNDREDTHS
            && offset_hundredths <= MAX_MULTIPLIER_HUNDREDTHS),
        final(overrides)@ == if r {
            old(overrides)@.with_skill_exp_skill_level_table(
                skill_slot as int,
                old(overrides)@.skill_exp_by_skill_level[skill_slot as int].with_entry(
                    index as int,
                    level,
                    base_hundredths,
                    offset_hundredths,
                ),
            )
        } else {
            old(overrides)@
        },
{
    let skill_slot: usize = skill_slot as usize;
    let index: usize = index as usize;
    if skill_slot >= SKILL_COUNT {
        return false;
    }
    if index >= MAX_SKILL_EXP_BREAKPOINTS {
        return false;
    }
    if level > MAX_BREAKPOINT_LEVEL {
        return false;
    }
    if base_hundredths > MAX_MULTIPLIER_HUNDREDTHS || offset_hundredths > MAX_MULTIPLIER_HUNDREDTHS {
        return false;
    }
    set_skill_exp_skill_level_entry(
        overrides,
        skill_slot,
        index,
        level,
        base_hundredths,
        offset_hundredths,
    )
}

/// Publishes the first `count` staged breakpoints when they form a valid
/// table; refuses an unknown slot.
pub fn Uncapper_CommitSkillExpSkillLevelOverride(overrides: &mut RuntimeOverrides, skill_slot: u32, count: u32) -> (r: bool)
    ensures
        r == (skill_slot < SKILL_COUNT && old(overrides)@.skill_exp_by_skill_level[skill_slot as int].commit_accepts(
            count as int,
        )),
        final(overrides)@ == if r {
            old(overrides)@.with_skill_exp_skill_level_table(
                skill_slot as int,
                old(overrides)@.skill_exp_by_skill_level[skill_slot as int].committed(count as int),
            )
        } else {
            old(overrides)@
        },
{
    let skill_slot: usize = skill_slot as usize;
    let count: usize = count as usize;
    if skill_slot >= SKILL_COUNT {
        return false;
    }
    if count == 0 || count > MAX_SKILL_EXP_BREAKPOINTS {
        return false;
    }
    commit_skill_exp_skill_level_override(overrides, skill_slot, count)
}

// ---------------------------------------------------------------------
// Skill experience: breakpoints by character level
// ---------------------------------------------------------------------

pub fn Uncapper_GetIniSkillExpCharacterLevelBreakpointCount(ini: &IniSettings, skill_slot: u32) -> (r: u32)
    ensures
        r == if skill_slot < SKILL_COUNT {
            ini.skill_exp_mults_with_pc_lvl_levels@[skill_slot as int]@.len() as u32
        } else {
            INI_VALUE_UNAVAILABLE
        },
{
    match skill_from_slot(skill_slot) {
        None => INI_VALUE_UNAVAILABLE,
        Some(_) => ini.skill_exp_mults_with_pc_lvl_levels[skill_slot as usize].len() as u32,
    }
}

pub fn Uncapper_GetIniSkillExpCharacterLevelBreakpointLevel(ini: &IniSettings, skill_slot: u32, index: u32) -> (r: u32)
    ensures
        r == if skill_slot < SKILL_COUNT {
            level_at_or_unavailable(ini.skill_exp_mults_with_pc_lvl_levels@[skill_slot as int]@, index as int)
        } else {
            INI_VALUE_UNAVAILABLE
        },
{
    match skill_from_slot(skill_slot) {
        None => INI_VALUE_UNAVAILABLE,
        Some(_) => level_at(&ini.skill_exp_mults_with_pc_lvl_levels[skill_slot as usize], index as usize),
    }
}

/// Withdraws the override of a skill's table; refuses an unknown slot.
pub fn Uncapper_BeginSkillExpCharacterLevelOverride(overrides: &mut RuntimeOverrides, skill_slot: u32) -> (r: bool)
    ensures
        r == (skill_slot < SKILL_COUNT),
        final(overrides)@ == if r {
            old(overrides)@.with_skill_exp_character_level_table(
                skill_slot as int,
                old(overrides)@.skill_exp_by_character_level[skill_slot as int].cleared(),
            )
        } else {
            old(overrides)@
        },
{
    let skill_slot: usize = skill_slot as usize;
    if skill_slot >= SKILL_COUNT {
        return false;
    }
    begin_skill_exp_character_level_override(overrides, skill_slot);
    true
}

/// Stages a breakpoint; refuses an unknown slot, an index past the table,
/// a level above 500 or a multiplier above 10000 hundredths.
pub fn Uncapper_SetSkillExpCharacterLevelBreakpoint(
    overrides: &mut RuntimeOverrides,
    skill_slot: u32,
    index: u32,
    level: u32,
    base_hundredths: u32,
    offset_hundredths: u32,
) -> (r: bool)
    ensures
        r == (skill_slot < SKILL_COUNT && index < MAX_SKILL_EXP_BREAKPOINTS && level
            <= MAX_BREAKPOINT_LEVEL && base_hundredths <= MAX_MULTIPLIER_HUNDREDTHS
            && offset_hundredths <= MAX_MULTIPLIER_HUNDREDTHS),
        final(overrides)@ == if r {
            old(overrides)@.with_skill_exp_character_level_table(
                skill_slot as int,
                old(overrides)@.skill_exp_by_character_level[skill_slot as int].with_entry(
                    index as int,
                    level,
                    base_hundredths,
                    offset_hundredths,
                ),
            )
        } else {
            old(overrides)@
        },
{
    let skill_slot: usize = skill_slot as usize;
    let index: usize = index as usize;
    if skill_slot >= SKILL_COUNT {
        return false;
    }
    if index >= MAX_SKILL_EXP_BREAKPOINTS {
        return false;
    }
    if level > MAX_BREAKPOINT_LEVEL {
        return false;
    }
    if base_hundredths > MAX_MULTIPLIER_HUNDREDTHS || offset_hundredths > MAX_MULTIPLIER_HUNDREDTHS {
        return false;
    }
    set_skill_exp_character_level_entry(
        overrides,
        skill_slot,
        index,
        level,
        base_hundredths,
        offset_hundredths,
    )
}

/// Publishes the first `count` staged breakpoints when they form a valid
/// table; refuses an unknown slot.
pub fn Uncapper_CommitSkillExpCharacterLevelOverride(overrides: &mut RuntimeOverrides, skill_slot: u32, count: u32) -> (r: bool)
    ensures
        r == (skill_slot < SKILL_COUNT && old(overrides)@.skill_exp_by_character_level[skill_slot as int].commit_accepts(
            count as int,
        )),
        final(overrides)@ == if r {
            old(overrides)@.with_skill_exp_character_level_table(
                skill_slot as int,
                old(overrides)@.skill_exp_by_character_level[skill_slot as int].committed(count as int),
            )
        } else {
            old(overrides)@
        },
{
    let skill_slot: usize = skill_slot as usize;
    let count: usize = count as usize;
    if skill_slot >= SKILL_COUNT {
        return false;
    }
    if count == 0 || count > MAX_SKILL_EXP_BREAKPOINTS {
        return false;
    }
    commit_skill_exp_character_level_override(overrides, skill_slot, count)
}

// ---------------------------------------------------------------------
// Player level experience: base multiplier
// ---------------------------------------------------------------------

/// Sets a skill's player level experience multiplier; refuses an unknown
/// slot or a multiplier above 10000 hundredths.
pub fn Uncapper_SetLevelExpMultiplierOverride(
    overrides: &mut RuntimeOverrides,
    skill_slot: u32,
    multiplier_hundredths: u32,
) -> (r: bool)
    ensures
        r == (skill_slot < SKILL_COUNT && multiplier_hundredths <= MAX_MULTIPLIER_HUNDREDTHS),
        final(overrides)@ == if r {
            old(overrides)@.with_level_exp_base(skill_slot as int, multiplier_hundredths)
        } else {
            old(overrides)@
        },
{
    let skill_slot: usize = skill_slot as usize;
    if skill_slot >= SKILL_COUNT {
        return false;
    }
    if multiplier_hundredths > MAX_MULTIPLIER_HUNDREDTHS {
        return false;
    }
    set_level_exp_base_override(overrides, skill_slot, multiplier_hundredths);
    true
}

// ---------------------------------------------------------------------
// Player level experience: breakpoints by skill level
// ---------------------------------------------------------------------

pub fn Uncapper_GetIniLevelExpSkillLevelBreakpointCount(ini: &IniSettings, skill_slot: u32) -> (r: u32)
    ensures
        r == if skill_slot < SKILL_COUNT {
            ini.level_exp_mults_with_skills_levels@[skill_slot as int]@.len() as u32
        } else {
            INI_VALUE_UNAVAILABLE
        },
{
    match skill_from_slot(skill_slot) {
        None => INI_VALUE_UNAVAILABLE,
        Some(_) => ini.level_exp_mults_with_skills_levels[skill_slot as usize].len() as u32,
    }
}

pub fn Uncapper_GetIniLevelExpSkillLevelBreakpointLevel(ini: &IniSettings, skill_slot: u32, index: u32) -> (r: u32)
    ensures
        r == if skill_slot < SKILL_COUNT {
            level_at_or_unavailable(ini.level_exp_mults_with_skills_levels@[skill_slot as int]@, index as int)
        } else {
            INI_VALUE_UNAVAILABLE
        },
{
    match skill_from_slot(skill_slot) {
        None => INI_VALUE_UNAVAILABLE,
        Some(_) => level_at(&ini.level_exp_mults_with_skills_levels[skill_slot as usize], index as usize),
    }
}

/// Withdraws the override of a skill's table; refuses an unknown slot.
pub fn Uncapper_BeginLevelExpSkillLevelOverride(overrides: &mut RuntimeOverrides, skill_slot: u32) -> (r: bool)
    ensures
        r == (skill_slot < SKILL_COUNT),
        final(overrides)@ == if r {
            old(overrides)@.with_level_exp_skill_level_table(
                skill_slot as int,
                old(overrides)@.level_exp_by_skill_level[skill_slot as int].cleared(),
            )
        } else {
            old(overrides)@
        },
{
    let skill_slot: usize = skill_slot as usize;
    if skill_slot >= SKILL_COUNT {
        return false;
    }
    begin_level_exp_skill_level_override(overrides, skill_slot);
    true
}

/// Stages a breakpoint; refuses an unknown slot, an index past the table,
/// a level above 500 or a multiplier above 10000 hundredths.
pub fn Uncapper_SetLevelExpSkillLevelBreakpoint(
    overrides: &mut RuntimeOverrides,
    skill_slot: u32,
    index: u32,
    level: u32,
    multiplier_hundredths: u32,
) -> (r: bool)
    ensures
        r == (skill_slot < SKILL_COUNT && index < MAX_LEVEL_EXP_BREAKPOINTS && level
            <= MAX_BREAKPOINT_LEVEL && multiplier_hundredths <= MAX_MULTIPLIER_HUNDREDTHS),
        final(overrides)@ == if r {
            old(overrides)@.with_level_exp_skill_level_table(
                skill_slot as int,
                old(overrides)@.level_exp_by_skill_level[skill_slot as int].with_entry(
                    index as int,
                    level,
                    multiplier_hundredths,
                ),
            )
        } else {
            old(overrides)@
        },
{
    let skill_slot: usize = skill_slot as usize;
    let index: usize = index as usize;
    if skill_slot >= SKILL_COUNT {
        return false;
    }
    if index >= MAX_LEVEL_EXP_BREAKPOINTS {
        return false;
    }
    if level > MAX_BREAKPOINT_LEVEL {
        return false;
    }
    if multiplier_hundredths > MAX_MULTIPLIER_HUNDREDTHS {
        return false;
    }
    set_level_exp_skill_level_entry(overrides, skill_slot, index, level, multiplier_hundredths)
}

/// Publishes the first `count` staged breakpoints when they form a valid
/// table; refuses an unknown slot.
pub fn Uncapper_CommitLevelExpSkillLevelOverride(overrides: &mut RuntimeOverrides, skill_slot: u32, count: u32) -> (r: bool)
    ensures
        r == (skill_slot < SKILL_COUNT && old(overrides)@.level_exp_by_skill_level[skill_slot as int].commit_accepts(
            count as int,
        )),
        final(overrides)@ == if r {
            old(overrides)@.with_level_exp_skill_level_table(
                skill_slot as int,
                old(overrides)@.level_exp_by_skill_level[skill_slot as int].committed(count as int),
            )
        } else {
            old(overrides)@
        },
{
    let skill_slot: usize = skill_slot as usize;
    let count: usize = count as usize;
    if skill_slot >= SKILL_COUNT {
        return false;
    }
    if count == 0 || count > MAX_LEVEL_EXP_BREAKPOINTS {
        return false;
    }
    commit_level_exp_skill_level_override(overrides, skill_slot, count)
}

// ---------------------------------------------------------------------
// Player level experience: breakpoints by character level
// ---------------------------------------------------------------------

pub fn Uncapper_GetIniLevelExpCharacterLevelBreakpointCount(ini: &IniSettings, skill_slot: u32) -> (r: u32)
    ensures
        r == if skill_slot < SKILL_COUNT {
            ini.level_exp_mults_with_pc_lvl_levels@[skill_slot as int]@.len() as u32
        } else {
            INI_VALUE_UNAVAILABLE
        },
{
    match skill_from_slot(skill_slot) {
        None => INI_VALUE_UNAVAILABLE,
        Some(_) => ini.level_exp_mults_with_pc_lvl_levels[skill_slot as usize].len() as u32,
    }
}

pub fn Uncapper_GetIniLevelExpCharacterLevelBreakpointLevel(ini: &IniSettings, skill_slot: u32, index: u32) -> (r: u32)
    ensures
        r == if skill_slot < SKILL_COUNT {
            level_at_or_unavailable(ini.level_exp_mults_with_pc_lvl_levels@[skill_slot as int]@, index as int)
        } else {
            INI_VALUE_UNAVAILABLE
        },
{
    match skill_from_slot(skill_slot) {
        None => INI_VALUE_UNAVAILABLE,
        Some(_) => level_at(&ini.level_exp_mults_with_pc_lvl_levels[skill_slot as usize], index as usize),
    }
}

/// Withdraws the override of a skill's table; refuses an unknown slot.
pub fn Uncapper_BeginLevelExpCharacterLevelOverride(overrides: &mut RuntimeOverrides, skill_slot: u32) -> (r: bool)
    ensures
        r == (skill_slot < SKILL_COUNT),
        final(overrides)@ == if r {
            old(overrides)@.with_level_exp_character_level_table(
                skill_slot as int,
                old(overrides)@.level_exp_by_character_level[skill_slot as int].cleared(),
            )
        } else {
            old(overrides)@
        },
{
    let skill_slot: usize = skill_slot as usize;
    if skill_slot >= SKILL_COUNT {
        return false;
    }
    begin_level_exp_character_level_override(overrides, skill_slot);
    true
}

/// Stages a breakpoint; refuses an unknown slot, an index past the table,
/// a level above 500 or a multiplier above 10000 hundredths.
pub fn Uncapper_SetLevelExpCharacterLevelBreakpoint(
    overrides: &mut RuntimeOverrides,
    skill_slot: u32,
    index: u32,
    level: u32,
    multiplier_hundredths: u32,
) -> (r: bool)
    ensures
        r == (skill_slot < SKILL_COUNT && index < MAX_LEVEL_EXP_BREAKPOINTS && level
            <= MAX_BREAKPOINT_LEVEL && multiplier_hundredths <= MAX_MULTIPLIER_HUNDREDTHS),
        final(overrides)@ == if r {
            old(overrides)@.with_level_exp_character_level_table(
                skill_slot as int,
                old(overrides)@.level_exp_by_character_level[skill_slot as int].with_entry(
                    index as int,
                    level,
                    multiplier_hundredths,
                ),
            )
        } else {
            old(overrides)@
        },
{
    let skill_slot: usize = skill_slot as usize;
    let index: usize = index as usize;
    if skill_slot >= SKILL_COUNT {
        return false;
    }
    if index >= MAX_LEVEL_EXP_BREAKPOINTS {
        return false;
    }
    if level > MAX_BREAKPOINT_LEVEL {
        return false;
    }
    if multiplier_hundredths > MAX_MULTIPLIER_HUNDREDTHS {
        return false;
    }
    set_level_exp_character_level_entry(overrides, skill_slot, index, level, multiplier_hundredths)
}

/// Publishes the first `count` staged breakpoints when they form a valid
/// table; refuses an unknown slot.
pub fn Uncapper_CommitLevelExpCharacterLevelOverride(overrides: &mut RuntimeOverrides, skill_slot: u32, count: u32) -> (r: bool)
    ensures
        r == (skill_slot < SKILL_COUNT && old(overrides)@.level_exp_by_character_level[skill_slot as int].commit_accepts(
            count as int,
        )),
        final(overrides)@ == if r {
            old(overrides)@.with_level_exp_character_level_table(
                skill_slot as int,
                old(overrides)@.level_exp_by_character_level[skill_slot as int].committed(count as int),
            )
        } else {
            old(overrides)@
        },
{
    let skill_slot: usize = skill_slot as usize;
    let count: usize = count as usize;
    if skill_slot >= SKILL_COUNT {
        return false;
    }
    if count == 0 || count > MAX_LEVEL_EXP_BREAKPOINTS {
        return false;
    }
    commit_level_exp_character_level_override(overrides, skill_slot, count)
}

// ---------------------------------------------------------------------
// Perks at level up
// ---------------------------------------------------------------------

pub fn Uncapper_GetIniPerksAtLevelUpBreakpointCount(ini: &IniSettings) -> (r: u32)
    ensures
        r == ini.perks_at_lvl_up_levels@.len() as u32,
{
    ini.perks_at_lvl_up_levels.len() as u32
}

pub fn Uncapper_GetIniPerksAtLevelUpBreakpointLevel(ini: &IniSettings, index: u32) -> (r: u32)
    ensures
        r == level_at_or_unavailable(ini.perks_at_lvl_up_levels@, index as int),
{
    level_at(&ini.perks_at_lvl_up_levels, index as usize)
}

pub fn Uncapper_BeginPerksAtLevelUpOverride(overrides: &mut RuntimeOverrides) -> (r: bool)
    ensures
        r,
        final(overrides)@ == old(overrides)@.with_perks_table(
            old(overrides)@.perks_at_level_up.cleared(),
        ),
{
    begin_perks_at_level_up_override(overrides);
    true
}

/// Stages a perk breakpoint; refuses an index past the table, a level
/// above 500 or a value above 10000 hundredths.
pub fn Uncapper_SetPerksAtLevelUpBreakpoint(
    overrides: &mut RuntimeOverrides,
    index: u32,
    level: u32,
    perk_hundredths: u32,
) -> (r: bool)
    ensures
        r == (index < MAX_PERKS_AT_LEVEL_UP_BREAKPOINTS && level <= MAX_BREAKPOINT_LEVEL
            && perk_hundredths <= crate::tables::MAX_PERKS_AT_LEVEL_UP_HUNDREDTHS),
        final(overrides)@ == if r {
            old(overrides)@.with_perks_table(
                old(overrides)@.perks_at_level_up.with_entry(index as int, level, perk_hundredths),
            )
        } else {
            old(overrides)@
        },
{
    let index: usize = index as usize;
    if index >= MAX_PERKS_AT_LEVEL_UP_BREAKPOINTS {
        return false;
    }
    if level > MAX_BREAKPOINT_LEVEL {
        return false;
    }
    set_perks_at_level_up_entry(overrides, index, level, perk_hundredths)
}

/// Publishes the first `count` staged perk breakpoints when they form a
/// valid table.
pub fn Uncapper_CommitPerksAtLevelUpOverride(overrides: &mut RuntimeOverrides, count: u32) -> (r: bool)
    ensures
        r == old(overrides)@.perks_at_level_up.commit_accepts(count as int),
        final(overrides)@ == if r {
            old(overrides)@.with_perks_table(old(overrides)@.perks_at_level_up.committed(count as int))
        } else {
            old(overrides)@
        },
{
    let count: usize = count as usize;
    if count == 0 || count > MAX_PERKS_AT_LEVEL_UP_BREAKPOINTS {
        return false;
    }
    commit_perks_at_level_up_override(overrides, count)
}

// ---------------------------------------------------------------------
// Attributes at level up
// ---------------------------------------------------------------------

pub fn Uncapper_GetIniAttributeBreakpointCount(ini: &IniSettings, table_index: u32) -> (r: u32)
    ensures
        r == if table_index < ATTRIBUTE_TABLE_COUNT {
            ini.attribute_sections()[table_index as int].entries@.len() as u32
        } else {
            INI_VALUE_UNAVAILABLE
        },
{
    match ini_attribute_table(ini, table_index as usize) {
        None => INI_VALUE_UNAVAILABLE,
        Some(table) => table.len() as u32,
    }
}

pub fn Uncapper_GetIniAttributeBreakpointLevel(ini: &IniSettings, table_index: u32, index: u32) -> (r: u32)
    ensures
        r == if table_index < ATTRIBUTE_TABLE_COUNT && index < ini.attribute_sections()[table_index as int].entries@.len() {
            ini.attribute_sections()[table_index as int].entries@[index as int].0
        } else {
            INI_VALUE_UNAVAILABLE
        },
{
    match ini_attribute_table(ini, table_index as usize) {
        None => INI_VALUE_UNAVAILABLE,
        Some(table) => match table.get_at(index as usize) {
            None => INI_VALUE_UNAVAILABLE,
            Some((level, _)) => level,
        },
    }
}

pub fn Uncapper_GetIniAttributeBreakpointValue(ini: &IniSettings, table_index: u32, index: u32) -> (r: u32)
    ensures
        r == if table_index < ATTRIBUTE_TABLE_COUNT && index < ini.attribute_sections()[table_index as int].entries@.len() {
            ini.attribute_sections()[table_index as int].entries@[index as int].1
        } else {
            INI_VALUE_UNAVAILABLE
        },
{
    match ini_attribute_table(ini, table_index as usize) {
        None => INI_VALUE_UNAVAILABLE,
        Some(table) => match table.get_at(index as usize) {
            None => INI_VALUE_UNAVAILABLE,
            Some((_, value)) => value,
        },
    }
}

/// Withdraws the override of an attribute table; refuses an unknown table.
pub fn Uncapper_BeginAttributeOverride(overrides: &mut RuntimeOverrides, table_index: u32) -> (r: bool)
    ensures
        r == (table_index < ATTRIBUTE_TABLE_COUNT),
        final(overrides)@ == if r {
            old(overrides)@.with_attribute_table(
                table_index as int,
                old(overrides)@.attribute_level_up_tables[table_index as int].cleared(),
            )
        } else {
            old(overrides)@
        },
{
    let table_index: usize = table_index as usize;
    if table_index >= ATTRIBUTE_TABLE_COUNT {
        return false;
    }
    begin_attribute_override(overrides, table_index)
}

/// Stages an attribute breakpoint; refuses an unknown table, an index past
/// the table or a level above 500.
pub fn Uncapper_SetAttributeBreakpoint(
    overrides: &mut RuntimeOverrides,
    table_index: u32,
    index: u32,
    level: u32,
    value: u32,
) -> (r: bool)
    ensures
        r == (table_index < ATTRIBUTE_TABLE_COUNT && index < MAX_ATTRIBUTE_BREAKPOINTS && level
            <= MAX_BREAKPOINT_LEVEL),
        final(overrides)@ == if r {
            old(overrides)@.with_attribute_table(
                table_index as int,
                old(overrides)@.attribute_level_up_tables[table_index as int].with_entry(
                    index as int,
                    level,
                    value,
                ),
            )
        } else {
            old(overrides)@
        },
{
    let table_index: usize = table_index as usize;
    let index: usize = index as usize;
    if table_index >= ATTRIBUTE_TABLE_COUNT {
        return false;
    }
    if index >= MAX_ATTRIBUTE_BREAKPOINTS {
        return false;
    }
    if level > MAX_BREAKPOINT_LEVEL {
        return false;
    }
    set_attribute_entry(overrides, table_index, index, level, value)
}

/// Publishes the first `count` staged breakpoints of an attribute table
/// when they form a valid table; refuses an unknown table.
pub fn Uncapper_CommitAttributeOverride(overrides: &mut RuntimeOverrides, table_index: u32, count: u32) -> (r: bool)
    ensures
        r == (table_index < ATTRIBUTE_TABLE_COUNT && old(
            overrides,
        )@.attribute_level_up_tables[table_index as int].commit_accepts(count as int)),
        final(overrides)@ == if r {
            old(overrides)@.with_attribute_table(
                table_index as int,
                old(overrides)@.attribute_level_up_tables[table_index as int].committed(count as int),
            )
        } else {
            old(overrides)@
        },
{
    let table_index: usize = table_index as usize;
    let count: usize = count as usize;
    if table_index >= ATTRIBUTE_TABLE_COUNT {
        return false;
    }
    if count == 0 || count > MAX_ATTRIBUTE_BREAKPOINTS {
        return false;
    }
    commit_attribute_override(overrides, table_index, count)
}

pub fn Uncapper_GetIniUseAttributesAtLevelUp(ini: &IniSettings) -> (r: u32)
    ensures
        r == if ini.attr_points_en {
            1u32
        } else {
            0u32
        },
{
    if ini.attr_points_en {
        1
    } else {
        0
    }
}

} // verus!
