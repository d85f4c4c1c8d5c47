use skyrim_uncapper::ini::{ini_attribute_table, IniSettings, LeveledIniSection};
use skyrim_uncapper::mcm_api::{
    Uncapper_BeginAttributeOverride, Uncapper_BeginLevelExpCharacterLevelOverride,
    Uncapper_BeginLevelExpSkillLevelOverride, Uncapper_BeginPerksAtLevelUpOverride,
    Uncapper_BeginSkillExpCharacterLevelOverride, Uncapper_BeginSkillExpSkillLevelOverride,
    Uncapper_ClearOverrides, Uncapper_CommitAttributeOverride,
    Uncapper_CommitLevelExpCharacterLevelOverride, Uncapper_CommitLevelExpSkillLevelOverride,
    Uncapper_CommitPerksAtLevelUpOverride, Uncapper_CommitSkillExpCharacterLevelOverride,
    Uncapper_CommitSkillExpSkillLevelOverride, Uncapper_GetIniAttributeBreakpointCount,
    Uncapper_GetIniAttributeBreakpointLevel, Uncapper_GetIniAttributeBreakpointValue,
    Uncapper_GetIniEnchantChargeCap, Uncapper_GetIniEnchantMagnitudeCap,
    Uncapper_GetIniEnchantUseLinearCharge, Uncapper_GetIniFormulaCap,
    Uncapper_GetIniLevelExpCharacterLevelBreakpointCount,
    Uncapper_GetIniLevelExpCharacterLevelBreakpointLevel,
    Uncapper_GetIniLevelExpSkillLevelBreakpointCount,
    Uncapper_GetIniLevelExpSkillLevelBreakpointLevel,
    Uncapper_GetIniPerksAtLevelUpBreakpointCount, Uncapper_GetIniPerksAtLevelUpBreakpointLevel,
    Uncapper_GetIniSkillCap, Uncapper_GetIniSkillExpCharacterLevelBreakpointCount,
    Uncapper_GetIniSkillExpCharacterLevelBreakpointLevel,
    Uncapper_GetIniSkillExpSkillLevelBreakpointCount,
    Uncapper_GetIniSkillExpSkillLevelBreakpointLevel, Uncapper_GetIniUseAttributesAtLevelUp,
    Uncapper_SetAttributeBreakpoint, Uncapper_SetEnchantChargeCapOverride,
    Uncapper_SetEnchantMagnitudeCapOverride, Uncapper_SetEnchantUseLinearChargeOverride,
    Uncapper_SetFormulaCapOverride, Uncapper_SetLevelExpCharacterLevelBreakpoint,
    Uncapper_SetLevelExpMultiplierOverride, Uncapper_SetLevelExpSkillLevelBreakpoint,
    Uncapper_SetPerksAtLevelUpBreakpoint, Uncapper_SetSkillCapOverride,
    Uncapper_SetSkillExpBaseOverride, Uncapper_SetSkillExpCharacterLevelBreakpoint,
    Uncapper_SetSkillExpSkillLevelBreakpoint,
};
use skyrim_uncapper::runtime_settings::{
    get_attribute_override, get_enchant_charge_cap_override, get_enchant_magnitude_cap_override,
    get_enchant_use_linear_charge_override, get_formula_cap_override,
    get_level_exp_base_override, get_level_exp_character_level_override,
    get_level_exp_skill_level_override, get_perks_at_level_up_cumulative_delta,
    get_skill_cap_override, get_skill_exp_base_override,
    get_skill_exp_character_level_override, get_skill_exp_skill_level_override,
    RuntimeOverrides,
};
use skyrim_uncapper::skills::{skill_from_slot, ActorAttribute, SKILL_COUNT};

fn section(entries: Vec<(u32, u32)>) -> LeveledIniSection {
    LeveledIniSection { entries }
}

fn sample_ini() -> IniSettings {
    let mut skill_caps = [100u32; SKILL_COUNT];
    skill_caps[3] = 250;
    let mut formula_caps = [100u32; SKILL_COUNT];
    formula_caps[17] = 150;
    let levels: [Vec<u32>; SKILL_COUNT] = std::array::from_fn(|i| vec![0, 10 + i as u32]);
    IniSettings {
        skill_caps,
        skill_formula_caps: formula_caps,
        enchant_magnitude_cap: 100,
        enchant_charge_cap: 50,
        enchant_use_linear_charge: true,
        attr_points_en: false,
        skill_exp_mults_with_skills_levels: levels.clone(),
        skill_exp_mults_with_pc_lvl_levels: std::array::from_fn(|_| vec![0]),
        level_exp_mults_with_skills_levels: std::array::from_fn(|_| vec![0, 5, 9]),
        level_exp_mults_with_pc_lvl_levels: std::array::from_fn(|_| Vec::new()),
        perks_at_lvl_up_levels: vec![0, 20, 40],
        hp_at_lvl_up: section(vec![(0, 10), (30, 5)]),
        hp_at_mp_lvl_up: section(vec![(0, 1)]),
        hp_at_sp_lvl_up: section(vec![(0, 2)]),
        mp_at_hp_lvl_up: section(vec![(0, 3)]),
        mp_at_lvl_up: section(vec![(0, 4)]),
        mp_at_sp_lvl_up: section(vec![(0, 5)]),
        sp_at_hp_lvl_up: section(vec![(0, 6)]),
        sp_at_mp_lvl_up: section(vec![(0, 7)]),
        sp_at_lvl_up: section(vec![(0, 8)]),
        cw_at_hp_lvl_up: section(vec![(0, 9)]),
        cw_at_mp_lvl_up: section(vec![(0, 10)]),
        cw_at_sp_lvl_up: section(vec![(0, 11), (20, 12)]),
    }
}

#[test]
fn skill_slots_name_the_eighteen_skills() {
    assert_eq!(skill_from_slot(0), Some(ActorAttribute::OneHanded));
    assert_eq!(skill_from_slot(9), Some(ActorAttribute::Sneak));
    assert_eq!(skill_from_slot(17), Some(ActorAttribute::Enchanting));
    assert_eq!(skill_from_slot(18), None);
    assert_eq!(skill_from_slot(u32::MAX), None);
}

#[test]
fn cap_setters_refuse_unknown_slots_only() {
    let mut o = RuntimeOverrides::new();
    assert!(!Uncapper_SetSkillCapOverride(&mut o, 18, 100));
    assert!(Uncapper_SetSkillCapOverride(&mut o, 4, 100));
    assert_eq!(get_skill_cap_override(&o, 4), Some(100));
    // An invalid cap is not stored, yet the call answers true.
    assert!(Uncapper_SetSkillCapOverride(&mut o, 4, 0));
    assert_eq!(get_skill_cap_override(&o, 4), Some(100));
    assert!(!Uncapper_SetFormulaCapOverride(&mut o, 18, 100));
    assert!(Uncapper_SetFormulaCapOverride(&mut o, 5, 501));
    assert_eq!(get_formula_cap_override(&o, 5), None);
    assert!(Uncapper_SetFormulaCapOverride(&mut o, 5, 500));
    assert_eq!(get_formula_cap_override(&o, 5), Some(500));
}

#[test]
fn enchant_setters_check_their_ranges() {
    let mut o = RuntimeOverrides::new();
    assert!(!Uncapper_SetEnchantMagnitudeCapOverride(&mut o, 0));
    assert!(!Uncapper_SetEnchantMagnitudeCapOverride(&mut o, 501));
    assert!(Uncapper_SetEnchantMagnitudeCapOverride(&mut o, 500));
    assert_eq!(get_enchant_magnitude_cap_override(&o), Some(500));
    assert!(!Uncapper_SetEnchantChargeCapOverride(&mut o, 200));
    assert!(!Uncapper_SetEnchantChargeCapOverride(&mut o, 0));
    assert!(Uncapper_SetEnchantChargeCapOverride(&mut o, 199));
    assert_eq!(get_enchant_charge_cap_override(&o), Some(199));
    assert!(!Uncapper_SetEnchantUseLinearChargeOverride(&mut o, 2));
    assert_eq!(get_enchant_use_linear_charge_override(&o), None);
    assert!(Uncapper_SetEnchantUseLinearChargeOverride(&mut o, 1));
    assert_eq!(get_enchant_use_linear_charge_override(&o), Some(true));
    assert!(Uncapper_SetEnchantUseLinearChargeOverride(&mut o, 0));
    assert_eq!(get_enchant_use_linear_charge_override(&o), Some(false));
}

#[test]
fn skill_exp_base_override_checks_multipliers() {
    let mut o = RuntimeOverrides::new();
    assert!(!Uncapper_SetSkillExpBaseOverride(&mut o, 18, 100, 100));
    assert!(!Uncapper_SetSkillExpBaseOverride(&mut o, 1, 10_001, 100));
    assert!(!Uncapper_SetSkillExpBaseOverride(&mut o, 1, 100, 10_001));
    assert_eq!(get_skill_exp_base_override(&o, 1), None);
    assert!(Uncapper_SetSkillExpBaseOverride(&mut o, 1, 10_000, 0));
    assert_eq!(get_skill_exp_base_override(&o, 1), Some((10_000, 0)));
    assert!(!Uncapper_SetLevelExpMultiplierOverride(&mut o, 1, 10_001));
    assert!(!Uncapper_SetLevelExpMultiplierOverride(&mut o, 18, 10));
    assert!(Uncapper_SetLevelExpMultiplierOverride(&mut o, 1, 10));
    assert_eq!(get_level_exp_base_override(&o, 1), Some(10));
}

#[test]
fn skill_exp_breakpoints_through_the_menu_interface() {
    let mut o = RuntimeOverrides::new();
    assert!(!Uncapper_BeginSkillExpSkillLevelOverride(&mut o, 18));
    assert!(Uncapper_BeginSkillExpSkillLevelOverride(&mut o, 2));
    assert!(!Uncapper_SetSkillExpSkillLevelBreakpoint(&mut o, 18, 0, 0, 100, 100));
    assert!(!Uncapper_SetSkillExpSkillLevelBreakpoint(&mut o, 2, 32, 0, 100, 100));
    assert!(!Uncapper_SetSkillExpSkillLevelBreakpoint(&mut o, 2, 0, 501, 100, 100));
    assert!(!Uncapper_SetSkillExpSkillLevelBreakpoint(&mut o, 2, 0, 0, 10_001, 100));
    assert!(!Uncapper_SetSkillExpSkillLevelBreakpoint(&mut o, 2, 0, 0, 100, 10_001));
    assert!(Uncapper_SetSkillExpSkillLevelBreakpoint(&mut o, 2, 0, 0, 100, 100));
    assert!(Uncapper_SetSkillExpSkillLevelBreakpoint(&mut o, 2, 1, 50, 200, 20));
    assert!(!Uncapper_CommitSkillExpSkillLevelOverride(&mut o, 18, 2));
    assert!(!Uncapper_CommitSkillExpSkillLevelOverride(&mut o, 2, 0));
    assert!(!Uncapper_CommitSkillExpSkillLevelOverride(&mut o, 2, 33));
    assert!(Uncapper_CommitSkillExpSkillLevelOverride(&mut o, 2, 2));
    assert_eq!(get_skill_exp_skill_level_override(&o, 2, 60), Some((200, 20)));

    assert!(Uncapper_BeginSkillExpCharacterLevelOverride(&mut o, 2));
    assert!(!Uncapper_BeginSkillExpCharacterLevelOverride(&mut o, 18));
    assert!(Uncapper_SetSkillExpCharacterLevelBreakpoint(&mut o, 2, 0, 0, 30, 40));
    assert!(!Uncapper_SetSkillExpCharacterLevelBreakpoint(&mut o, 2, 1, 600, 30, 40));
    assert!(Uncapper_CommitSkillExpCharacterLevelOverride(&mut o, 2, 1));
    assert!(!Uncapper_CommitSkillExpCharacterLevelOverride(&mut o, 18, 1));
    assert_eq!(get_skill_exp_character_level_override(&o, 2, 60), Some((30, 40)));
}

#[test]
fn level_exp_breakpoints_through_the_menu_interface() {
    let mut o = RuntimeOverrides::new();
    assert!(Uncapper_BeginLevelExpSkillLevelOverride(&mut o, 0));
    assert!(!Uncapper_BeginLevelExpSkillLevelOverride(&mut o, 18));
    assert!(Uncapper_SetLevelExpSkillLevelBreakpoint(&mut o, 0, 0, 0, 100));
    assert!(!Uncapper_SetLevelExpSkillLevelBreakpoint(&mut o, 0, 1, 5, 10_001));
    assert!(Uncapper_CommitLevelExpSkillLevelOverride(&mut o, 0, 1));
    assert_eq!(get_level_exp_skill_level_override(&o, 0, 7), Some(100));

    assert!(Uncapper_BeginLevelExpCharacterLevelOverride(&mut o, 0));
    assert!(!Uncapper_BeginLevelExpCharacterLevelOverride(&mut o, 18));
    assert!(Uncapper_SetLevelExpCharacterLevelBreakpoint(&mut o, 0, 0, 1, 100));
    assert!(!Uncapper_CommitLevelExpCharacterLevelOverride(&mut o, 0, 1));
    assert!(Uncapper_SetLevelExpCharacterLevelBreakpoint(&mut o, 0, 0, 0, 100));
    assert!(!Uncapper_SetLevelExpCharacterLevelBreakpoint(&mut o, 0, 32, 0, 100));
    assert!(Uncapper_CommitLevelExpCharacterLevelOverride(&mut o, 0, 1));
    assert!(!Uncapper_CommitLevelExpCharacterLevelOverride(&mut o, 0, 33));
    assert_eq!(get_level_exp_character_level_override(&o, 0, 7), Some(100));
}

#[test]
fn perks_and_attributes_through_the_menu_interface() {
    let mut o = RuntimeOverrides::new();
    assert!(Uncapper_BeginPerksAtLevelUpOverride(&mut o));
    assert!(!Uncapper_SetPerksAtLevelUpBreakpoint(&mut o, 32, 0, 100));
    assert!(!Uncapper_SetPerksAtLevelUpBreakpoint(&mut o, 0, 501, 100));
    assert!(!Uncapper_SetPerksAtLevelUpBreakpoint(&mut o, 0, 0, 10_001));
    assert!(Uncapper_SetPerksAtLevelUpBreakpoint(&mut o, 0, 0, 200));
    assert!(!Uncapper_CommitPerksAtLevelUpOverride(&mut o, 0));
    assert!(Uncapper_CommitPerksAtLevelUpOverride(&mut o, 1));
    assert_eq!(get_perks_at_level_up_cumulative_delta(&o, 4), Some(2));

    assert!(!Uncapper_BeginAttributeOverride(&mut o, 12));
    assert!(Uncapper_BeginAttributeOverride(&mut o, 3));
    assert!(!Uncapper_SetAttributeBreakpoint(&mut o, 12, 0, 0, 5));
    assert!(!Uncapper_SetAttributeBreakpoint(&mut o, 3, 32, 0, 5));
    assert!(!Uncapper_SetAttributeBreakpoint(&mut o, 3, 0, 501, 5));
    assert!(Uncapper_SetAttributeBreakpoint(&mut o, 3, 0, 0, 5));
    assert!(!Uncapper_CommitAttributeOverride(&mut o, 12, 1));
    assert!(!Uncapper_CommitAttributeOverride(&mut o, 3, 0));
    assert!(Uncapper_CommitAttributeOverride(&mut o, 3, 1));
    assert_eq!(get_attribute_override(&o, 3, 100), Some(5));

    Uncapper_ClearOverrides(&mut o);
    assert_eq!(get_perks_at_level_up_cumulative_delta(&o, 4), None);
    assert_eq!(get_attribute_override(&o, 3, 100), None);
}

#[test]
fn ini_getters_read_the_baseline() {
    let ini = sample_ini();
    assert_eq!(Uncapper_GetIniSkillCap(&ini, 3), 250);
    assert_eq!(Uncapper_GetIniSkillCap(&ini, 18), u32::MAX);
    assert_eq!(Uncapper_GetIniFormulaCap(&ini, 17), 150);
    assert_eq!(Uncapper_GetIniFormulaCap(&ini, 40), u32::MAX);
    assert_eq!(Uncapper_GetIniEnchantMagnitudeCap(&ini), 100);
    assert_eq!(Uncapper_GetIniEnchantChargeCap(&ini), 50);
    assert_eq!(Uncapper_GetIniEnchantUseLinearCharge(&ini), 1);
    assert_eq!(Uncapper_GetIniUseAttributesAtLevelUp(&ini), 0);

    assert_eq!(Uncapper_GetIniSkillExpSkillLevelBreakpointCount(&ini, 5), 2);
    assert_eq!(Uncapper_GetIniSkillExpSkillLevelBreakpointCount(&ini, 18), u32::MAX);
    assert_eq!(Uncapper_GetIniSkillExpSkillLevelBreakpointLevel(&ini, 5, 1), 15);
    assert_eq!(Uncapper_GetIniSkillExpSkillLevelBreakpointLevel(&ini, 5, 2), u32::MAX);
    assert_eq!(Uncapper_GetIniSkillExpSkillLevelBreakpointLevel(&ini, 18, 0), u32::MAX);
    assert_eq!(Uncapper_GetIniSkillExpCharacterLevelBreakpointCount(&ini, 0), 1);
    assert_eq!(Uncapper_GetIniSkillExpCharacterLevelBreakpointLevel(&ini, 0, 0), 0);
    assert_eq!(Uncapper_GetIniLevelExpSkillLevelBreakpointCount(&ini, 0), 3);
    assert_eq!(Uncapper_GetIniLevelExpSkillLevelBreakpointLevel(&ini, 0, 2), 9);
    assert_eq!(Uncapper_GetIniLevelExpCharacterLevelBreakpointCount(&ini, 0), 0);
    assert_eq!(Uncapper_GetIniLevelExpCharacterLevelBreakpointLevel(&ini, 0, 0), u32::MAX);

    assert_eq!(Uncapper_GetIniPerksAtLevelUpBreakpointCount(&ini), 3);
    assert_eq!(Uncapper_GetIniPerksAtLevelUpBreakpointLevel(&ini, 1), 20);
    assert_eq!(Uncapper_GetIniPerksAtLevelUpBreakpointLevel(&ini, 3), u32::MAX);

    assert_eq!(Uncapper_GetIniAttributeBreakpointCount(&ini, 0), 2);
    assert_eq!(Uncapper_GetIniAttributeBreakpointCount(&ini, 12), u32::MAX);
    assert_eq!(Uncapper_GetIniAttributeBreakpointLevel(&ini, 0, 1), 30);
    assert_eq!(Uncapper_GetIniAttributeBreakpointValue(&ini, 0, 1), 5);
    assert_eq!(Uncapper_GetIniAttributeBreakpointValue(&ini, 11, 1), 12);
    assert_eq!(Uncapper_GetIniAttributeBreakpointValue(&ini, 11, 2), u32::MAX);
    assert_eq!(Uncapper_GetIniAttributeBreakpointLevel(&ini, 12, 0), u32::MAX);
}

#[test]
fn attribute_sections_in_table_order() {
    let ini = sample_ini();
    for index in 0..12usize {
        let table = ini_attribute_table(&ini, index).unwrap();
        let last = table.entries.last().unwrap().1;
        let expected = if index == 0 { 5 } else if index == 11 { 12 } else { index as u32 };
        assert_eq!(last, expected);
    }
    assert!(ini_attribute_table(&ini, 12).is_none());
    assert_eq!(ini.hp_at_lvl_up.len(), 2);
    assert_eq!(ini.hp_at_lvl_up.get_at(1), Some((30, 5)));
    assert_eq!(ini.hp_at_lvl_up.get_at(2), None);
}
