//! The baseline configuration read from the INI file, as far as the menu
//! reads it back as whole numbers.
//!
//! Multipliers in the INI file are fractional; the menu reads them through
//! the host, which keeps them next to this value. Here each fractional
//! section is represented by the levels of its breakpoints.

use vstd::prelude::*;

use crate::runtime_settings::{
    ATTRIBUTE_TABLE_HEALTH_AT_LEVEL_UP,
    ATTRIBUTE_TABLE_HEALTH_AT_MAGICKA_LEVEL_UP,
    ATTRIBUTE_TABLE_HEALTH_AT_STAMINA_LEVEL_UP,
    ATTRIBUTE_TABLE_MAGICKA_AT_HEALTH_LEVEL_UP,
    ATTRIBUTE_TABLE_MAGICKA_AT_LEVEL_UP,
    ATTRIBUTE_TABLE_MAGICKA_AT_STAMINA_LEVEL_UP,
    ATTRIBUTE_TABLE_STAMINA_AT_HEALTH_LEVEL_UP,
    ATTRIBUTE_TABLE_STAMINA_AT_MAGICKA_LEVEL_UP,
    ATTRIBUTE_TABLE_STAMINA_AT_LEVEL_UP,
    ATTRIBUTE_TABLE_CARRY_WEIGHT_AT_HEALTH_LEVEL_UP,
    ATTRIBUTE_TABLE_CARRY_WEIGHT_AT_MAGICKA_LEVEL_UP,
    ATTRIBUTE_TABLE_CARRY_WEIGHT_AT_STAMINA_LEVEL_UP,
    ATTRIBUTE_TABLE_COUNT,
};
use crate::skills::SKILL_COUNT;

verus! {

/// A section of `level = value` breakpoints, in file order.
pub struct LeveledIniSection {
    pub entries: Vec<(u32, u32)>,
}

impl LeveledIniSection {
    /// Number of breakpoints.
    pub fn len(&self) -> (n: usize)
        ensures
            n == self.entries@.len(),
    {
        self.entries.len()
    }

    /// The breakpoint at `index`, if there is one.
    pub fn get_at(&self, index: usize) -> (r: Option<(u32, u32)>)
        ensures
            r == if index < self.entries@.len() {
                Some(self.entries@[index as int])
            } else {
                None
            },
    {
        if index < self.entries.len() {
            Some(self.entries[index])
        } else {
            None
        }
    }
}

/// The INI baseline that the menu reads back.
pub struct IniSettings {
    pub skill_caps: [u32; SKILL_COUNT],
    pub skill_formula_caps: [u32; SKILL_COUNT],
    pub enchant_magnitude_cap: u32,
    pub enchant_charge_cap: u32,
    pub enchant_use_linear_charge: bool,
    /// Whether attribute gains at level up are in use.
    pub attr_points_en: bool,
    /// Breakpoint levels of the skill experience multipliers by skill level.
    pub skill_exp_mults_with_skills_levels: [Vec<u32>; SKILL_COUNT],
    /// Breakpoint levels of the skill experience multipliers by character
    /// level.
    pub skill_exp_mults_with_pc_lvl_levels: [Vec<u32>; SKILL_COUNT],
    /// Breakpoint levels of the player level experience multipliers by
    /// skill level.
    pub level_exp_mults_with_skills_levels: [Vec<u32>; SKILL_COUNT],
    /// Breakpoint levels of the player level experience multipliers by
    /// character level.
    pub level_exp_mults_with_pc_lvl_levels: [Vec<u32>; SKILL_COUNT],
    /// Breakpoint levels of the perks granted at level up.
    pub perks_at_lvl_up_levels: Vec<u32>,
    pub hp_at_lvl_up: LeveledIniSection,
    pub hp_at_mp_lvl_up: LeveledIniSection,
    pub hp_at_sp_lvl_up: LeveledIniSection,
    pub mp_at_hp_lvl_up: LeveledIniSection,
    pub mp_at_lvl_up: LeveledIniSection,
    pub mp_at_sp_lvl_up: LeveledIniSection,
    pub sp_at_hp_lvl_up: LeveledIniSection,
    pub sp_at_mp_lvl_up: LeveledIniSection,
    pub sp_at_lvl_up: LeveledIniSection,
    pub cw_at_hp_lvl_up: LeveledIniSection,
    pub cw_at_mp_lvl_up: LeveledIniSection,
    pub cw_at_sp_lvl_up: LeveledIniSection,
}

impl IniSettings {
    /// The attribute gain sections in table order: health, magicka,
    /// stamina and carry weight gains, each at health, magicka and stamina
    /// level ups (with the attribute's own level up in its own position).
    pub open spec fn attribute_sections(self) -> Seq<LeveledIniSection> {
        seq![
            self.hp_at_lvl_up,
            self.hp_at_mp_lvl_up,
            self.hp_at_sp_lvl_up,
            self.mp_at_hp_lvl_up,
            self.mp_at_lvl_up,
            self.mp_at_sp_lvl_up,
            self.sp_at_hp_lvl_up,
            self.sp_at_mp_lvl_up,
            self.sp_at_lvl_up,
            self.cw_at_hp_lvl_up,
            self.cw_at_mp_lvl_up,
            self.cw_at_sp_lvl_up,
        ]
    }
}

/// The INI section of attribute table `table_index`; none past the last
/// table.
pub fn ini_attribute_table(ini: &IniSettings, table_index: usize) -> (r: Option<&LeveledIniSection>)
    ensures
        r is Some <==> table_index < ATTRIBUTE_TABLE_COUNT,
        r matches Some(section) ==> *section == ini.attribute_sections()[table_index as int],
{
    match table_index {
        ATTRIBUTE_TABLE_HEALTH_AT_LEVEL_UP => Some(&ini.hp_at_lvl_up),
        ATTRIBUTE_TABLE_HEALTH_AT_MAGICKA_LEVEL_UP => Some(&ini.hp_at_mp_lvl_up),
        ATTRIBUTE_TABLE_HEALTH_AT_STAMINA_LEVEL_UP => Some(&ini.hp_at_sp_lvl_up),
        ATTRIBUTE_TABLE_MAGICKA_AT_HEALTH_LEVEL_UP => Some(&ini.mp_at_hp_lvl_up),
        ATTRIBUTE_TABLE_MAGICKA_AT_LEVEL_UP => Some(&ini.mp_at_lvl_up),
        ATTRIBUTE_TABLE_MAGICKA_AT_STAMINA_LEVEL_UP => Some(&ini.mp_at_sp_lvl_up),
        ATTRIBUTE_TABLE_STAMINA_AT_HEALTH_LEVEL_UP => Some(&ini.sp_at_hp_lvl_up),
        ATTRIBUTE_TABLE_STAMINA_AT_MAGICKA_LEVEL_UP => Some(&ini.sp_at_mp_lvl_up),
        ATTRIBUTE_TABLE_STAMINA_AT_LEVEL_UP => Some(&ini.sp_at_lvl_up),
        ATTRIBUTE_TABLE_CARRY_WEIGHT_AT_HEALTH_LEVEL_UP => Some(&ini.cw_at_hp_lvl_up),
        ATTRIBUTE_TABLE_CARRY_WEIGHT_AT_MAGICKA_LEVEL_UP => Some(&ini.cw_at_mp_lvl_up),
        ATTRIBUTE_TABLE_CARRY_WEIGHT_AT_STAMINA_LEVEL_UP => Some(&ini.cw_at_sp_lvl_up),
        _ => None,
    }
}

} // verus!
