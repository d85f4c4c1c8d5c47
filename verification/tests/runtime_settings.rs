use skyrim_uncapper::runtime_settings::{
    begin_attribute_override, begin_perks_at_level_up_override,
    begin_skill_exp_skill_level_override, clear_overrides, commit_attribute_override,
    commit_level_exp_character_level_override, commit_perks_at_level_up_override,
    commit_skill_exp_skill_level_override, get_attribute_override,
    get_enchant_charge_cap_override, get_enchant_magnitude_cap_override,
    get_enchant_use_linear_charge_override, get_formula_cap_override,
    get_legendary_override, get_level_exp_base_override,
    get_level_exp_character_level_override, get_level_exp_skill_level_override,
    get_perks_at_level_up_cumulative_delta, get_skill_cap_override,
    get_skill_exp_base_override, get_skill_exp_character_level_override,
    get_skill_exp_skill_level_override, set_attribute_entry,
    set_enchant_charge_cap_override, set_enchant_magnitude_cap_override,
    set_enchant_use_linear_charge_override, set_formula_cap_override,
    set_legendary_override, set_level_exp_base_override,
    set_level_exp_character_level_entry, set_level_exp_skill_level_entry,
    commit_level_exp_skill_level_override, begin_level_exp_skill_level_override,
    set_perks_at_level_up_entry, set_skill_cap_override, set_skill_exp_base_override,
    set_skill_exp_character_level_entry, commit_skill_exp_character_level_override,
    set_skill_exp_skill_level_entry, RuntimeOverrides,
    ATTRIBUTE_TABLE_CARRY_WEIGHT_AT_STAMINA_LEVEL_UP, ATTRIBUTE_TABLE_COUNT,
};

fn fresh() -> RuntimeOverrides {
    RuntimeOverrides::new()
}

#[test]
fn new_state_reports_no_override() {
    let o = fresh();
    for slot in 0..18 {
        assert_eq!(get_skill_cap_override(&o, slot), None);
        assert_eq!(get_formula_cap_override(&o, slot), None);
        assert_eq!(get_skill_exp_base_override(&o, slot), None);
        assert_eq!(get_level_exp_base_override(&o, slot), None);
        assert_eq!(get_skill_exp_skill_level_override(&o, slot, 50), None);
        assert_eq!(get_skill_exp_character_level_override(&o, slot, 50), None);
        assert_eq!(get_level_exp_skill_level_override(&o, slot, 50), None);
        assert_eq!(get_level_exp_character_level_override(&o, slot, 50), None);
    }
    assert_eq!(get_enchant_magnitude_cap_override(&o), None);
    assert_eq!(get_enchant_charge_cap_override(&o), None);
    assert_eq!(get_enchant_use_linear_charge_override(&o), None);
    assert_eq!(get_perks_at_level_up_cumulative_delta(&o, 10), None);
    for table in 0..ATTRIBUTE_TABLE_COUNT {
        assert_eq!(get_attribute_override(&o, table, 10), None);
    }
    assert!(get_legendary_override(&o).is_none());
}

#[test]
fn skill_cap_read_after_write() {
    let mut o = fresh();
    assert!(set_skill_cap_override(&mut o, 3, 250));
    assert_eq!(get_skill_cap_override(&o, 3), Some(250));
    assert_eq!(get_skill_cap_override(&o, 4), None);
    assert!(set_skill_cap_override(&mut o, 3, 1));
    assert_eq!(get_skill_cap_override(&o, 3), Some(1));
    assert!(set_skill_cap_override(&mut o, 17, 500));
    assert_eq!(get_skill_cap_override(&o, 17), Some(500));
}

#[test]
fn skill_cap_out_of_range_is_refused() {
    let mut o = fresh();
    assert!(set_skill_cap_override(&mut o, 2, 100));
    assert!(!set_skill_cap_override(&mut o, 2, 0));
    assert!(!set_skill_cap_override(&mut o, 2, 501));
    assert_eq!(get_skill_cap_override(&o, 2), Some(100));
    // An invalid value is refused before the slot is looked at.
    assert!(!set_skill_cap_override(&mut o, 99, 0));
}

#[test]
fn formula_cap_read_after_write() {
    let mut o = fresh();
    assert!(set_formula_cap_override(&mut o, 0, 100));
    assert_eq!(get_formula_cap_override(&o, 0), Some(100));
    assert!(!set_formula_cap_override(&mut o, 0, 600));
    assert_eq!(get_formula_cap_override(&o, 0), Some(100));
}

#[test]
fn enchant_overrides_read_after_write() {
    let mut o = fresh();
    set_enchant_magnitude_cap_override(&mut o, 120);
    set_enchant_charge_cap_override(&mut o, 80);
    assert_eq!(get_enchant_magnitude_cap_override(&o), Some(120));
    assert_eq!(get_enchant_charge_cap_override(&o), Some(80));
    set_enchant_use_linear_charge_override(&mut o, true);
    assert_eq!(get_enchant_use_linear_charge_override(&o), Some(true));
    set_enchant_use_linear_charge_override(&mut o, false);
    assert_eq!(get_enchant_use_linear_charge_override(&o), Some(false));
    // Storing the raw "no override" value withdraws the override.
    set_enchant_magnitude_cap_override(&mut o, u32::MAX);
    assert_eq!(get_enchant_magnitude_cap_override(&o), None);
}

#[test]
fn skill_exp_base_needs_both_multipliers() {
    let mut o = fresh();
    set_skill_exp_base_override(&mut o, 5, 150, 75);
    assert_eq!(get_skill_exp_base_override(&o, 5), Some((150, 75)));
    set_skill_exp_base_override(&mut o, 5, 150, u32::MAX);
    assert_eq!(get_skill_exp_base_override(&o, 5), None);
    set_level_exp_base_override(&mut o, 6, 300);
    assert_eq!(get_level_exp_base_override(&o, 6), Some(300));
}

fn fill_skill_table(o: &mut RuntimeOverrides, slot: usize) {
    begin_skill_exp_skill_level_override(o, slot);
    assert!(set_skill_exp_skill_level_entry(o, slot, 0, 0, 100, 100));
    assert!(set_skill_exp_skill_level_entry(o, slot, 1, 10, 150, 50));
    assert!(set_skill_exp_skill_level_entry(o, slot, 2, 20, 200, 0));
}

#[test]
fn multiplier_table_lookup_after_commit() {
    let mut o = fresh();
    fill_skill_table(&mut o, 4);
    assert_eq!(get_skill_exp_skill_level_override(&o, 4, 5), None);
    assert!(commit_skill_exp_skill_level_override(&mut o, 4, 3));
    assert_eq!(get_skill_exp_skill_level_override(&o, 4, 0), Some((100, 100)));
    assert_eq!(get_skill_exp_skill_level_override(&o, 4, 9), Some((100, 100)));
    assert_eq!(get_skill_exp_skill_level_override(&o, 4, 10), Some((150, 50)));
    assert_eq!(get_skill_exp_skill_level_override(&o, 4, 19), Some((150, 50)));
    assert_eq!(get_skill_exp_skill_level_override(&o, 4, 20), Some((200, 0)));
    assert_eq!(get_skill_exp_skill_level_override(&o, 4, 4000), Some((200, 0)));
    // Only the first two entries published.
    begin_skill_exp_skill_level_override(&mut o, 4);
    assert!(commit_skill_exp_skill_level_override(&mut o, 4, 2));
    assert_eq!(get_skill_exp_skill_level_override(&o, 4, 30), Some((150, 50)));
    // Another skill is untouched.
    assert_eq!(get_skill_exp_skill_level_override(&o, 3, 30), None);
}

#[test]
fn begin_update_withdraws_until_commit() {
    let mut o = fresh();
    fill_skill_table(&mut o, 0);
    assert!(commit_skill_exp_skill_level_override(&mut o, 0, 3));
    begin_skill_exp_skill_level_override(&mut o, 0);
    assert_eq!(get_skill_exp_skill_level_override(&o, 0, 15), None);
    assert!(commit_skill_exp_skill_level_override(&mut o, 0, 3));
    assert_eq!(get_skill_exp_skill_level_override(&o, 0, 15), Some((150, 50)));
}

#[test]
fn commit_refuses_invalid_tables() {
    let mut o = fresh();
    fill_skill_table(&mut o, 1);
    assert!(!commit_skill_exp_skill_level_override(&mut o, 1, 0));
    assert!(!commit_skill_exp_skill_level_override(&mut o, 1, 33));
    // First level not zero.
    assert!(set_skill_exp_skill_level_entry(&mut o, 1, 0, 1, 100, 100));
    assert!(!commit_skill_exp_skill_level_override(&mut o, 1, 3));
    assert!(set_skill_exp_skill_level_entry(&mut o, 1, 0, 0, 100, 100));
    // Levels not increasing.
    assert!(set_skill_exp_skill_level_entry(&mut o, 1, 2, 10, 200, 0));
    assert!(!commit_skill_exp_skill_level_override(&mut o, 1, 3));
    // Level above 500.
    assert!(set_skill_exp_skill_level_entry(&mut o, 1, 2, 501, 200, 0));
    assert!(!commit_skill_exp_skill_level_override(&mut o, 1, 3));
    // Multiplier above 10000.
    assert!(set_skill_exp_skill_level_entry(&mut o, 1, 2, 30, 10_001, 0));
    assert!(!commit_skill_exp_skill_level_override(&mut o, 1, 3));
    assert_eq!(get_skill_exp_skill_level_override(&o, 1, 30), None);
    // A failed commit leaves the table unpublished; a good one publishes.
    assert!(set_skill_exp_skill_level_entry(&mut o, 1, 2, 30, 10_000, 0));
    assert!(commit_skill_exp_skill_level_override(&mut o, 1, 3));
    assert_eq!(get_skill_exp_skill_level_override(&o, 1, 30), Some((10_000, 0)));
}

#[test]
fn set_entry_refuses_index_past_table() {
    let mut o = fresh();
    assert!(!set_skill_exp_skill_level_entry(&mut o, 0, 32, 0, 100, 100));
    assert!(!set_skill_exp_character_level_entry(&mut o, 0, 32, 0, 100, 100));
    assert!(!set_level_exp_skill_level_entry(&mut o, 0, 32, 0, 100));
    assert!(!set_level_exp_character_level_entry(&mut o, 0, 32, 0, 100));
    assert!(set_skill_exp_skill_level_entry(&mut o, 0, 31, 0, 100, 100));
}

#[test]
fn character_level_and_level_exp_tables() {
    let mut o = fresh();
    assert!(set_skill_exp_character_level_entry(&mut o, 2, 0, 0, 90, 80));
    assert!(set_skill_exp_character_level_entry(&mut o, 2, 1, 40, 70, 60));
    assert!(commit_skill_exp_character_level_override(&mut o, 2, 2));
    assert_eq!(get_skill_exp_character_level_override(&o, 2, 39), Some((90, 80)));
    assert_eq!(get_skill_exp_character_level_override(&o, 2, 40), Some((70, 60)));

    begin_level_exp_skill_level_override(&mut o, 7);
    assert!(set_level_exp_skill_level_entry(&mut o, 7, 0, 0, 100));
    assert!(set_level_exp_skill_level_entry(&mut o, 7, 1, 25, 250));
    assert!(commit_level_exp_skill_level_override(&mut o, 7, 2));
    assert_eq!(get_level_exp_skill_level_override(&o, 7, 24), Some(100));
    assert_eq!(get_level_exp_skill_level_override(&o, 7, 25), Some(250));

    assert!(set_level_exp_character_level_entry(&mut o, 8, 0, 0, 500));
    assert!(!set_level_exp_character_level_entry(&mut o, 8, 40, 0, 500));
    assert!(commit_level_exp_character_level_override(&mut o, 8, 1));
    assert_eq!(get_level_exp_character_level_override(&o, 8, 300), Some(500));
    assert!(set_level_exp_character_level_entry(&mut o, 8, 0, 0, 10_001));
    assert!(!commit_level_exp_character_level_override(&mut o, 8, 1));
}

#[test]
fn perks_cumulative_delta_accumulates_fractions() {
    let mut o = fresh();
    begin_perks_at_level_up_override(&mut o);
    assert!(set_perks_at_level_up_entry(&mut o, 0, 0, 50));
    assert!(set_perks_at_level_up_entry(&mut o, 1, 10, 100));
    assert!(commit_perks_at_level_up_override(&mut o, 2));
    // Half a perk per level below 10, one per level from 10 on.
    assert_eq!(get_perks_at_level_up_cumulative_delta(&o, 0), Some(0));
    assert_eq!(get_perks_at_level_up_cumulative_delta(&o, 1), Some(1));
    assert_eq!(get_perks_at_level_up_cumulative_delta(&o, 2), Some(0));
    assert_eq!(get_perks_at_level_up_cumulative_delta(&o, 3), Some(1));
    assert_eq!(get_perks_at_level_up_cumulative_delta(&o, 9), Some(1));
    assert_eq!(get_perks_at_level_up_cumulative_delta(&o, 10), Some(1));
    assert_eq!(get_perks_at_level_up_cumulative_delta(&o, 11), Some(1));
    let total: u32 = (0..=20).map(|l| get_perks_at_level_up_cumulative_delta(&o, l).unwrap()).sum();
    // 10 levels at 0.5 and 11 levels at 1: 16 whole perks.
    assert_eq!(total, 16);
}

#[test]
fn perks_large_values_and_refusals() {
    let mut o = fresh();
    assert!(!set_perks_at_level_up_entry(&mut o, 0, 0, 10_001));
    assert!(!set_perks_at_level_up_entry(&mut o, 32, 0, 100));
    assert!(set_perks_at_level_up_entry(&mut o, 0, 0, 250));
    assert!(commit_perks_at_level_up_override(&mut o, 1));
    // 2.5 perks per level: levels 0..=3 total 10, levels 0..=2 total 7.5.
    assert_eq!(get_perks_at_level_up_cumulative_delta(&o, 3), Some(3));
    // At the highest level the totals are 250 * 2^32 and 250 * (2^32 - 1)
    // hundredths: 10737418240 and 10737418237 whole perks.
    assert_eq!(get_perks_at_level_up_cumulative_delta(&o, u32::MAX), Some(3));
}

#[test]
fn attribute_tables() {
    let mut o = fresh();
    assert!(!begin_attribute_override(&mut o, ATTRIBUTE_TABLE_COUNT));
    assert!(begin_attribute_override(&mut o, ATTRIBUTE_TABLE_CARRY_WEIGHT_AT_STAMINA_LEVEL_UP));
    assert!(!set_attribute_entry(&mut o, 11, 0, 501, 5));
    assert!(!set_attribute_entry(&mut o, 12, 0, 0, 5));
    assert!(set_attribute_entry(&mut o, 11, 0, 0, 5));
    assert!(set_attribute_entry(&mut o, 11, 1, 50, 10));
    assert!(!commit_attribute_override(&mut o, 12, 2));
    assert!(commit_attribute_override(&mut o, 11, 2));
    assert_eq!(get_attribute_override(&o, 11, 49), Some(5));
    assert_eq!(get_attribute_override(&o, 11, 50), Some(10));
    assert_eq!(get_attribute_override(&o, 12, 50), None);
    assert_eq!(get_attribute_override(&o, 10, 50), None);
}

#[test]
fn legendary_read_after_write() {
    let mut o = fresh();
    assert!(set_legendary_override(&mut o, false, true, 100, 0));
    let v = get_legendary_override(&o).unwrap();
    assert!(!v.keep_skill_level);
    assert!(v.hide_button);
    assert_eq!(v.skill_level_enable, 100);
    assert_eq!(v.skill_level_after, 0);
    assert!(set_legendary_override(&mut o, true, false, 500, 500));
    let v = get_legendary_override(&o).unwrap();
    assert!(v.keep_skill_level);
    assert!(!v.hide_button);
    assert_eq!(v.skill_level_enable, 500);
    assert_eq!(v.skill_level_after, 500);
    assert!(set_legendary_override(&mut o, false, false, 100, 15));
    let v = get_legendary_override(&o).unwrap();
    assert_eq!((v.skill_level_enable, v.skill_level_after), (100, 15));
}

#[test]
fn legendary_refuses_invalid_values() {
    let mut o = fresh();
    assert!(!set_legendary_override(&mut o, false, false, 0, 0));
    assert!(!set_legendary_override(&mut o, false, false, 501, 0));
    assert!(!set_legendary_override(&mut o, true, false, 100, 501));
    // Without keeping the level, the level after must be 0 or below the
    // enabling level.
    assert!(!set_legendary_override(&mut o, false, false, 100, 100));
    assert!(get_legendary_override(&o).is_none());
    assert!(set_legendary_override(&mut o, true, false, 100, 100));
    assert!(set_legendary_override(&mut o, false, false, 100, 99));
}

#[test]
fn clear_overrides_falls_back_everywhere() {
    let mut o = fresh();
    assert!(set_skill_cap_override(&mut o, 0, 200));
    assert!(set_formula_cap_override(&mut o, 17, 200));
    set_enchant_magnitude_cap_override(&mut o, 10);
    set_enchant_charge_cap_override(&mut o, 10);
    set_enchant_use_linear_charge_override(&mut o, true);
    set_skill_exp_base_override(&mut o, 1, 1, 1);
    set_level_exp_base_override(&mut o, 1, 1);
    fill_skill_table(&mut o, 9);
    assert!(commit_skill_exp_skill_level_override(&mut o, 9, 3));
    assert!(set_perks_at_level_up_entry(&mut o, 0, 0, 100));
    assert!(commit_perks_at_level_up_override(&mut o, 1));
    assert!(set_attribute_entry(&mut o, 0, 0, 0, 5));
    assert!(commit_attribute_override(&mut o, 0, 1));
    assert!(set_legendary_override(&mut o, false, false, 100, 0));

    clear_overrides(&mut o);

    assert_eq!(get_skill_cap_override(&o, 0), None);
    assert_eq!(get_formula_cap_override(&o, 17), None);
    assert_eq!(get_enchant_magnitude_cap_override(&o), None);
    assert_eq!(get_enchant_charge_cap_override(&o), None);
    assert_eq!(get_enchant_use_linear_charge_override(&o), None);
    assert_eq!(get_skill_exp_base_override(&o, 1), None);
    assert_eq!(get_level_exp_base_override(&o, 1), None);
    assert_eq!(get_skill_exp_skill_level_override(&o, 9, 15), None);
    assert_eq!(get_perks_at_level_up_cumulative_delta(&o, 5), None);
    assert_eq!(get_attribute_override(&o, 0, 5), None);
    assert!(get_legendary_override(&o).is_none());

    // The staged entries are kept: committing again republishes them.
    assert!(commit_skill_exp_skill_level_override(&mut o, 9, 3));
    assert_eq!(get_skill_exp_skill_level_override(&o, 9, 15), Some((150, 50)));
}

#[test]
fn legendary_writes_alternate_between_slots() {
    let mut o = fresh();
    // With no active slot the first write goes to slot 0.
    assert!(set_legendary_override(&mut o, false, false, 100, 0));
    assert_eq!(o.legendary_settings.active_slot, 0);
    let first = o.legendary_settings.slots[0].packed;
    assert!(set_legendary_override(&mut o, true, true, 200, 300));
    assert_eq!(o.legendary_settings.active_slot, 1);
    // The word being read before the write is untouched by it.
    assert_eq!(o.legendary_settings.slots[0].packed, first);
    // enable 200 at bit 2, after 300 at bit 11, both flags set.
    assert_eq!(o.legendary_settings.slots[1].packed, (200 << 2) | (300 << 11) | 3);
    // A refused write changes nothing.
    assert!(!set_legendary_override(&mut o, false, false, 0, 0));
    assert_eq!(o.legendary_settings.active_slot, 1);
}
