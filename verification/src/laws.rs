//! Properties of the override layer as a whole, stated over the models that
//! the operations' contracts use.

use vstd::prelude::*;

use crate::breakpoints::{levels_valid, perk_delta_sum, perk_total, NO_OVERRIDE};
use crate::legendary::{legendary_values_valid, LegendaryRuntimeValues};
use crate::runtime_settings::{RuntimeOverrides, RuntimeOverridesView};
use crate::tables::{AttributeTableView, MultiplierTableView, PerksTableView, SimpleMultiplierTableView};

verus! {

impl RuntimeOverridesView {
    /// Every per-skill sequence has one entry per skill, there is one
    /// attribute table per attribute kind, and two Legendary slots.
    pub open spec fn well_formed(self) -> bool {
        &&& self.skill_cap_overrides.len() == 18
        &&& self.formula_cap_overrides.len() == 18
        &&& self.skill_exp_base_mult_override.len() == 18
        &&& self.skill_exp_offset_mult_override.len() == 18
        &&& self.skill_exp_by_skill_level.len() == 18
        &&& self.skill_exp_by_character_level.len() == 18
        &&& self.level_exp_base_mult_override.len() == 18
        &&& self.level_exp_by_skill_level.len() == 18
        &&& self.level_exp_by_character_level.len() == 18
        &&& self.attribute_level_up_tables.len() == 12
        &&& self.legendary_settings.packed.len() == 2
    }
}

/// The model of every `RuntimeOverrides` value is well formed.
pub proof fn law_overrides_well_formed(overrides: RuntimeOverrides)
    ensures
        overrides@.well_formed(),
{
}

/// After `clear_overrides` nothing reports an override: every cap,
/// multiplier, table, perk and attribute lookup and the Legendary settings
/// answer `None`, so the game falls back to the INI values.
pub proof fn law_cleared_overrides_fall_back_to_ini(
    v: RuntimeOverridesView,
    skill_slot: int,
    table_index: int,
    level: u32,
)
    requires
        v.well_formed(),
        0 <= skill_slot < 18,
        0 <= table_index,
    ensures
        v.cleared().skill_cap(skill_slot) is None,
        v.cleared().formula_cap(skill_slot) is None,
        v.cleared().enchant_magnitude_cap() is None,
        v.cleared().enchant_charge_cap() is None,
        v.cleared().enchant_use_linear_charge() is None,
        v.cleared().skill_exp_base(skill_slot) is None,
        v.cleared().skill_exp_skill_level(skill_slot, level) is None,
        v.cleared().skill_exp_character_level(skill_slot, level) is None,
        v.cleared().level_exp_base(skill_slot) is None,
        v.cleared().level_exp_skill_level(skill_slot, level) is None,
        v.cleared().level_exp_character_level(skill_slot, level) is None,
        v.cleared().perks_cumulative_delta(level) is None,
        v.cleared().attribute(table_index, level) is None,
        v.cleared().legendary() is None,
{
}

/// Before the menu sets anything, nothing reports an override.
pub proof fn law_initial_state_has_no_overrides(skill_slot: int, table_index: int, level: u32)
    requires
        0 <= skill_slot < 18,
        0 <= table_index,
    ensures
        RuntimeOverridesView::initial().skill_cap(skill_slot) is None,
        RuntimeOverridesView::initial().formula_cap(skill_slot) is None,
        RuntimeOverridesView::initial().enchant_magnitude_cap() is None,
        RuntimeOverridesView::initial().enchant_charge_cap() is None,
        RuntimeOverridesView::initial().enchant_use_linear_charge() is None,
        RuntimeOverridesView::initial().skill_exp_base(skill_slot) is None,
        RuntimeOverridesView::initial().skill_exp_skill_level(skill_slot, level) is None,
        RuntimeOverridesView::initial().skill_exp_character_level(skill_slot, level) is None,
        RuntimeOverridesView::initial().level_exp_base(skill_slot) is None,
        RuntimeOverridesView::initial().level_exp_skill_level(skill_slot, level) is None,
        RuntimeOverridesView::initial().level_exp_character_level(skill_slot, level) is None,
        RuntimeOverridesView::initial().perks_cumulative_delta(level) is None,
        RuntimeOverridesView::initial().attribute(table_index, level) is None,
        RuntimeOverridesView::initial().legendary() is None,
{
}

/// A value written into a slot is what that slot then reads, and the
/// other slots keep their values. (A stored `NO_OVERRIDE` reads as none:
/// the laws exclude it.)
pub proof fn law_single_values_read_after_write(
    v: RuntimeOverridesView,
    skill_slot: int,
    other_slot: int,
    value: u32,
    second: u32,
    flag: bool,
)
    requires
        v.well_formed(),
        0 <= skill_slot < 18,
        0 <= other_slot < 18,
        other_slot != skill_slot,
        value != NO_OVERRIDE,
        second != NO_OVERRIDE,
    ensures
        v.with_skill_cap(skill_slot, value).skill_cap(skill_slot) == Some(value),
        v.with_skill_cap(skill_slot, value).skill_cap(other_slot) == v.skill_cap(other_slot),
        v.with_formula_cap(skill_slot, value).formula_cap(skill_slot) == Some(value),
        v.with_formula_cap(skill_slot, value).formula_cap(other_slot) == v.formula_cap(other_slot),
        v.with_enchant_magnitude_cap(value).enchant_magnitude_cap() == Some(value),
        v.with_enchant_charge_cap(value).enchant_charge_cap() == Some(value),
        v.with_enchant_use_linear_charge(flag).enchant_use_linear_charge() == Some(flag),
        v.with_skill_exp_base(skill_slot, value, second).skill_exp_base(skill_slot) == Some(
            (value, second),
        ),
        v.with_skill_exp_base(skill_slot, value, second).skill_exp_base(other_slot)
            == v.skill_exp_base(other_slot),
        v.with_level_exp_base(skill_slot, value).level_exp_base(skill_slot) == Some(value),
        v.with_level_exp_base(skill_slot, value).level_exp_base(other_slot) == v.level_exp_base(
            other_slot,
        ),
{
}

/// Beginning an update withdraws a table's override until the next
/// successful commit, whatever entries are staged meanwhile.
pub proof fn law_begin_update_withdraws_table(
    m: MultiplierTableView,
    s: SimpleMultiplierTableView,
    p: PerksTableView,
    a: AttributeTableView,
    index: int,
    level: u32,
    x: u32,
    y: u32,
    z: u32,
)
    ensures
        m.cleared().nearest(level) is None,
        m.cleared().with_entry(index, x, y, z).nearest(level) is None,
        s.cleared().nearest(level) is None,
        s.cleared().with_entry(index, x, y).nearest(level) is None,
        p.cleared().cumulative_delta(level) is None,
        p.cleared().with_entry(index, x, y).cumulative_delta(level) is None,
        a.cleared().nearest(level) is None,
        a.cleared().with_entry(index, x, y).nearest(level) is None,
{
}

/// After a successful commit, a skill experience table answers at any
/// level with the multipliers of the greatest breakpoint at or below that
/// level; there always is one, since the first breakpoint is at level 0.
pub proof fn law_committed_multiplier_table_lookup(
    t: MultiplierTableView,
    count: int,
    level: u32,
    k: int,
)
    requires
        t.levels.len() == 32,
        t.commit_accepts(count),
        0 <= k < count,
        t.levels[k] <= level,
        forall|j: int| k < j < count ==> #[trigger] t.levels[j] > level,
    ensures
        t.committed(count).nearest(level) == Some((t.base_hundredths[k], t.offset_hundredths[k])),
{
    lemma_greatest_breakpoint_unique(t.levels, count, level as int, k);
}

/// After a successful commit, a player level experience table answers at
/// any level with the multiplier of the greatest breakpoint at or below
/// that level.
pub proof fn law_committed_simple_table_lookup(
    t: SimpleMultiplierTableView,
    count: int,
    level: u32,
    k: int,
)
    requires
        t.levels.len() == 32,
        t.commit_accepts(count),
        0 <= k < count,
        t.levels[k] <= level,
        forall|j: int| k < j < count ==> #[trigger] t.levels[j] > level,
    ensures
        t.committed(count).nearest(level) == Some(t.multiplier_hundredths[k]),
{
    lemma_greatest_breakpoint_unique(t.levels, count, level as int, k);
}

/// After a successful commit, an attribute table answers at any level with
/// the gain of the greatest breakpoint at or below that level.
pub proof fn law_committed_attribute_table_lookup(
    t: AttributeTableView,
    count: int,
    level: u32,
    k: int,
)
    requires
        t.levels.len() == 32,
        t.commit_accepts(count),
        0 <= k < count,
        t.levels[k] <= level,
        forall|j: int| k < j < count ==> #[trigger] t.levels[j] > level,
    ensures
        t.committed(count).nearest(level) == Some(t.values[k]),
{
    lemma_greatest_breakpoint_unique(t.levels, count, level as int, k);
}

proof fn lemma_greatest_breakpoint_unique(levels: Seq<u32>, count: int, level: int, k: int)
    requires
        levels_valid(levels, count),
        0 <= k < count,
        levels[k] <= level,
        forall|j: int| k < j < count ==> #[trigger] levels[j] > level,
    ensures
        crate::breakpoints::nearest_index(levels, count, level) == k,
{
    crate::breakpoints::lemma_nearest_is_greatest_at_or_below(levels, count, level);
    let n = crate::breakpoints::nearest_index(levels, count, level);
    if n < k {
        assert(levels[k] > level);
    } else if k < n {
        assert(levels[n] > level);
    }
}

/// A committed perk table can be read at every level, and the whole perks
/// it reports for the levels `0 ..= level` add up to the whole part of the
/// total perks granted over those levels.
pub proof fn law_committed_perk_table_accumulates(t: PerksTableView, count: int, level: u32)
    requires
        t.levels.len() == 32,
        t.perk_hundredths.len() == 32,
        t.commit_accepts(count),
    ensures
        t.committed(count).scan_defined(level),
        t.committed(count).cumulative_delta(level) is Some,
        perk_delta_sum(t.levels, t.perk_hundredths, count, level as nat) == perk_total(
            t.levels,
            t.perk_hundredths,
            count,
            (level + 1) as nat,
        ) / 100,
{
    crate::breakpoints::lemma_valid_levels_scan_defined(
        t.levels,
        t.perk_hundredths,
        count,
        level as int,
    );
    crate::breakpoints::lemma_perk_deltas_telescope(t.levels, t.perk_hundredths, count, level as nat);
}

/// Legendary settings that were accepted are what the game then reads,
/// and the write goes to the slot that was not being read, leaving the
/// previously active word intact.
pub proof fn law_legendary_read_after_write(v: RuntimeOverridesView, values: LegendaryRuntimeValues)
    requires
        v.well_formed(),
        legendary_values_valid(values),
    ensures
        v.with_legendary(v.legendary_settings.with_values(values)).legendary() == Some(values),
        v.legendary_settings.active_slot == 0 || v.legendary_settings.active_slot == 1
            ==> v.legendary_settings.with_values(values).packed[v.legendary_settings.active_slot as int]
            == v.legendary_settings.packed[v.legendary_settings.active_slot as int],
{
    crate::legendary::lemma_legendary_read_after_write(v.legendary_settings, values);
}


/// A skill experience table is published exactly when it has 1 to 32
/// entries whose levels start at 0, increase strictly and stay at most 500,
/// and whose two multipliers are at most 10000 hundredths each; nothing
/// else about the values is required.
pub proof fn law_multiplier_commit_accepts_exactly_valid_tables(t: MultiplierTableView, count: int)
    requires
        t.levels.len() == 32,
    ensures
        t.commit_accepts(count) <==> (0 < count <= 32 && t.levels[0] == 0 && (forall|i: int|
            0 <= i < count ==> #[trigger] t.levels[i] <= 500) && (forall|i: int|
            0 < i < count ==> t.levels[i - 1] < #[trigger] t.levels[i]) && (forall|i: int|
            0 <= i < count ==> #[trigger] t.base_hundredths[i] <= 10000) && (forall|i: int|
            0 <= i < count ==> #[trigger] t.offset_hundredths[i] <= 10000)),
{
}

/// A player level experience table is published exactly when it has 1 to
/// 32 entries whose levels start at 0, increase strictly and stay at most
/// 500, and whose multipliers (0 included) are at most 10000 hundredths.
pub proof fn law_simple_commit_accepts_exactly_valid_tables(
    t: SimpleMultiplierTableView,
    count: int,
)
    requires
        t.levels.len() == 32,
    ensures
        t.commit_accepts(count) <==> (0 < count <= 32 && t.levels[0] == 0 && (forall|i: int|
            0 <= i < count ==> #[trigger] t.levels[i] <= 500) && (forall|i: int|
            0 < i < count ==> t.levels[i - 1] < #[trigger] t.levels[i]) && (forall|i: int|
            0 <= i < count ==> #[trigger] t.multiplier_hundredths[i] <= 10000)),
{
}

/// A perk table is published exactly when it has 1 to 32 entries whose
/// levels start at 0, increase strictly and stay at most 500, and whose
/// perk values (0 included) are at most 10000 hundredths.
pub proof fn law_perks_commit_accepts_exactly_valid_tables(t: PerksTableView, count: int)
    requires
        t.levels.len() == 32,
    ensures
        t.commit_accepts(count) <==> (0 < count <= 32 && t.levels[0] == 0 && (forall|i: int|
            0 <= i < count ==> #[trigger] t.levels[i] <= 500) && (forall|i: int|
            0 < i < count ==> t.levels[i - 1] < #[trigger] t.levels[i]) && (forall|i: int|
            0 <= i < count ==> #[trigger] t.perk_hundredths[i] <= 10000)),
{
}

/// An attribute table is published exactly when it has 1 to 32 entries
/// whose levels start at 0, increase strictly and stay at most 500; the
/// gains may be anything, 0 included.
pub proof fn law_attribute_commit_accepts_exactly_valid_tables(t: AttributeTableView, count: int)
    requires
        t.levels.len() == 32,
    ensures
        t.commit_accepts(count) <==> (0 < count <= 32 && t.levels[0] == 0 && (forall|i: int|
            0 <= i < count ==> #[trigger] t.levels[i] <= 500) && (forall|i: int|
            0 < i < count ==> t.levels[i - 1] < #[trigger] t.levels[i])),
        forall|values: Seq<u32>|
            values.len() == 32 ==> #[trigger] (AttributeTableView { values, ..t }).commit_accepts(
                count,
            ) == t.commit_accepts(count),
{
}

/// Legendary settings are accepted exactly when the enabling level is 1 to
/// 500, the level after is at most 500, and either the skill level is kept,
/// or the level after is 0, or it is below the enabling level. In
/// particular, without keeping the level and with a nonzero level after,
/// acceptance is decided by comparing the level after with the enabling
/// level, and the two flags other than keep never matter.
pub proof fn law_legendary_acceptance(values: LegendaryRuntimeValues, hide: bool)
    ensures
        legendary_values_valid(values) <==> (1 <= values.skill_level_enable <= 500
            && values.skill_level_after <= 500 && (values.keep_skill_level
            || values.skill_level_after == 0 || values.skill_level_after
            < values.skill_level_enable)),
        !values.keep_skill_level && 1 <= values.skill_level_enable <= 500 && 0
            < values.skill_level_after <= 500 ==> (legendary_values_valid(values) <==> values.skill_level_after
            < values.skill_level_enable),
        legendary_values_valid(LegendaryRuntimeValues { hide_button: hide, ..values })
            == legendary_values_valid(values),
{
}


/// In a committed perk table the total perks (in hundredths) granted over
/// the levels `0 .. n` start at zero and grow, at each level, by the value
/// of the greatest breakpoint at or below that level; the whole perks
/// reported on reaching a level are the whole part of the total once that
/// level's value is added, less the whole part of the total before it.
pub proof fn law_committed_perk_table_rates(t: PerksTableView, count: int, level: u32, k: int)
    requires
        t.levels.len() == 32,
        t.perk_hundredths.len() == 32,
        t.commit_accepts(count),
        0 <= k < count,
        t.levels[k] <= level,
        forall|j: int| k < j < count ==> #[trigger] t.levels[j] > level,
    ensures
        perk_total(t.levels, t.perk_hundredths, count, 0) == 0,
        perk_total(t.levels, t.perk_hundredths, count, (level + 1) as nat) == perk_total(
            t.levels,
            t.perk_hundredths,
            count,
            level as nat,
        ) + t.perk_hundredths[k],
        t.committed(count).cumulative_delta(level) == Some(
            ((perk_total(t.levels, t.perk_hundredths, count, level as nat) + t.perk_hundredths[k])
                / 100 - perk_total(t.levels, t.perk_hundredths, count, level as nat) / 100) as u32,
        ),
{
    lemma_greatest_breakpoint_unique(t.levels, count, level as int, k);
    crate::breakpoints::lemma_leading_run(t.levels, count, level as int);
}

} // verus!
