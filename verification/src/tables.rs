//! The runtime breakpoint tables.
//!
//! Every table is filled in three steps: `begin_update` withdraws the
//! current override, `set_entry` stages entries, and `commit` checks the
//! staged entries and, when they form a valid table, publishes the first
//! `count` of them. Until a commit succeeds the table reports no override.

use vstd::prelude::*;

use crate::breakpoints::{
    count_active, levels_valid, nearest_index, perk_delta, perk_scan_defined, perk_total,
    segment_end, values_bounded, MAX_BREAKPOINT_LEVEL, MAX_MULTIPLIER_HUNDREDTHS, NO_OVERRIDE,
};

verus! {

/// Capacity of the skill experience breakpoint tables.
pub const MAX_SKILL_EXP_BREAKPOINTS: usize = 32;

/// Capacity of the player level experience breakpoint tables.
pub const MAX_LEVEL_EXP_BREAKPOINTS: usize = 32;

/// Capacity of the perks at level up table.
pub const MAX_PERKS_AT_LEVEL_UP_BREAKPOINTS: usize = 32;

/// Highest perk value, in hundredths, that one breakpoint may grant.
pub const MAX_PERKS_AT_LEVEL_UP_HUNDREDTHS: u32 = 10_000;

/// Capacity of each attribute gain table.
pub const MAX_ATTRIBUTE_BREAKPOINTS: usize = 32;

// ---------------------------------------------------------------------
// Skill experience: a base and an offset multiplier per breakpoint
// ---------------------------------------------------------------------

/// Breakpoint table with a base and an offset multiplier (in hundredths)
/// per breakpoint. `count` is `NO_OVERRIDE` while no table is committed.
#[derive(Clone, Copy)]
pub struct RuntimeMultiplierTable {
    pub count: u32,
    pub levels: [u32; 32],
    pub base_hundredths: [u32; 32],
    pub offset_hundredths: [u32; 32],
}

/// Model of a `RuntimeMultiplierTable`.
#[verifier::ext_equal]
pub struct MultiplierTableView {
    pub count: u32,
    pub levels: Seq<u32>,
    pub base_hundredths: Seq<u32>,
    pub offset_hundredths: Seq<u32>,
}

impl View for RuntimeMultiplierTable {
    type V = MultiplierTableView;

    open spec fn view(&self) -> MultiplierTableView {
        MultiplierTableView {
            count: self.count,
            levels: self.levels@,
            base_hundredths: self.base_hundredths@,
            offset_hundredths: self.offset_hundredths@,
        }
    }
}

impl MultiplierTableView {
    /// The table as first created: no override, every level 0 and every
    /// multiplier 100 hundredths.
    pub open spec fn initial() -> Self {
        MultiplierTableView {
            count: NO_OVERRIDE,
            levels: Seq::new(32, |i: int| 0u32),
            base_hundredths: Seq::new(32, |i: int| 100u32),
            offset_hundredths: Seq::new(32, |i: int| 100u32),
        }
    }

    /// The table with its override withdrawn; staged entries stay.
    pub open spec fn cleared(self) -> Self {
        MultiplierTableView { count: NO_OVERRIDE, ..self }
    }

    /// The table with entry `index` overwritten.
    pub open spec fn with_entry(self, index: int, level: u32, base: u32, offset: u32) -> Self {
        MultiplierTableView {
            levels: self.levels.update(index, level),
            base_hundredths: self.base_hundredths.update(index, base),
            offset_hundredths: self.offset_hundredths.update(index, offset),
            ..self
        }
    }

    /// The first `count` entries form a valid table: levels start at 0,
    /// increase strictly and stay at most 500; both multipliers are at most
    /// 10000 hundredths.
    pub open spec fn commit_accepts(self, count: int) -> bool {
        &&& count <= 32
        &&& levels_valid(self.levels, count)
        &&& values_bounded(self.base_hundredths, count, MAX_MULTIPLIER_HUNDREDTHS)
        &&& values_bounded(self.offset_hundredths, count, MAX_MULTIPLIER_HUNDREDTHS)
    }

    /// The table with its first `count` entries published.
    pub open spec fn committed(self, count: int) -> Self {
        MultiplierTableView { count: count as u32, ..self }
    }

    /// The multipliers in effect at `level`, if a table is published.
    pub open spec fn nearest(self, level: u32) -> Option<(u32, u32)> {
        if count_active(self.count, 32) {
            let k = nearest_index(self.levels, self.count as int, level as int);
            Some((self.base_hundredths[k], self.offset_hundredths[k]))
        } else {
            None
        }
    }
}

impl RuntimeMultiplierTable {
    pub fn new() -> (t: Self)
        ensures
            t@ == MultiplierTableView::initial(),
    {
        RuntimeMultiplierTable {
            count: NO_OVERRIDE,
            levels: [0u32; 32],
            base_hundredths: [100u32; 32],
            offset_hundredths: [100u32; 32],
        }
    }

    pub fn clear(&mut self)
        ensures
            final(self)@ == old(self)@.cleared(),
    {
        self.count = NO_OVERRIDE;
    }

    pub fn begin_update(&mut self)
        ensures
            final(self)@ == old(self)@.cleared(),
    {
        self.count = NO_OVERRIDE;
    }

    pub fn set_entry(
        &mut self,
        index: usize,
        level: u32,
        base_hundredths: u32,
        offset_hundredths: u32,
    ) -> (r: bool)
        ensures
            r == (index < MAX_SKILL_EXP_BREAKPOINTS),
            final(self)@ == if r {
                old(self)@.with_entry(index as int, level, base_hundredths, offset_hundredths)
            } else {
                old(self)@
            },
    {
        if index >= MAX_SKILL_EXP_BREAKPOINTS {
            return false;
        }
        self.levels[index] = level;
        self.base_hundredths[index] = base_hundredths;
        self.offset_hundredths[index] = offset_hundredths;
        true
    }

    pub fn commit(&mut self, count: usize) -> (r: bool)
        ensures
            r == old(self)@.commit_accepts(count as int),
            r <==> (0 < count <= 32 && old(self).levels@[0] == 0 && (forall|i: int|
                0 <= i < count ==> #[trigger] old(self).levels@[i] <= 500) && (forall|i: int|
                0 < i < count ==> old(self).levels@[i - 1] < #[trigger] old(self).levels@[i]) && (forall|i: int|
                0 <= i < count ==> #[trigger] old(self).base_hundredths@[i] <= 10000) && (forall|i: int|
                0 <= i < count ==> #[trigger] old(self).offset_hundredths@[i] <= 10000)),
            final(self)@ == if r {
                old(self)@.committed(count as int)
            } else {
                old(self)@
            },
    {
        if count == 0 || count > MAX_SKILL_EXP_BREAKPOINTS {
            return false;
        }
        let mut previous_level: u32 = 0;
        let mut index: usize = 0;
        while index < count
            invariant
                0 < count <= 32,
                index <= count,
                forall|j: int|
                    0 <= j < index ==> #[trigger] self.levels@[j] <= MAX_BREAKPOINT_LEVEL
                        && self.base_hundredths@[j] <= MAX_MULTIPLIER_HUNDREDTHS
                        && self.offset_hundredths@[j] <= MAX_MULTIPLIER_HUNDREDTHS,
                index > 0 ==> self.levels@[0] == 0,
                forall|j: int| 0 < j < index ==> self.levels@[j - 1] < #[trigger] self.levels@[j],
                index > 0 ==> previous_level == self.levels@[index - 1],
            decreases count - index,
        {
            let level: u32 = self.levels[index];
            let base_hundredths: u32 = self.base_hundredths[index];
            let offset_hundredths: u32 = self.offset_hundredths[index];
            if level > MAX_BREAKPOINT_LEVEL {
                return false;
            }
            if index == 0 && level != 0 {
                return false;
            }
            if base_hundredths > MAX_MULTIPLIER_HUNDREDTHS || offset_hundredths
                > MAX_MULTIPLIER_HUNDREDTHS {
                return false;
            }
            if index > 0 && level <= previous_level {
                return false;
            }
            previous_level = level;
            index = index + 1;
        }
        self.count = count as u32;
        true
    }

    pub fn get_nearest(&self, level: u32) -> (r: Option<(u32, u32)>)
        ensures
            r == self@.nearest(level),
    {
        let count: u32 = self.count;
        if count == NO_OVERRIDE {
            return None;
        }
        let count: usize = count as usize;
        if count == 0 || count > MAX_SKILL_EXP_BREAKPOINTS {
            return None;
        }
        let mut selected_index: usize = 0;
        let mut index: usize = 0;
        while index < count
            invariant
                0 < count <= 32,
                count == self.count,
                index <= count,
                forall|j: int| 0 <= j < index ==> #[trigger] self.levels@[j] <= level,
                selected_index == if index == 0 {
                    0
                } else {
                    index - 1
                },
            ensures
                index <= count,
                forall|j: int| 0 <= j < index ==> #[trigger] self.levels@[j] <= level,
                index < count ==> self.levels@[index as int] > level,
                selected_index == if index == 0 {
                    0
                } else {
                    index - 1
                },
            decreases count - index,
        {
            let breakpoint_level: u32 = self.levels[index];
            if breakpoint_level <= level {
                selected_index = index;
            } else {
                break;
            }
            index = index + 1;
        }
        proof {
            crate::breakpoints::lemma_leading_run(self.levels@, count as int, level as int);
        }
        Some((self.base_hundredths[selected_index], self.offset_hundredths[selected_index]))
    }
}


// ---------------------------------------------------------------------
// Player level experience: one multiplier per breakpoint
// ---------------------------------------------------------------------

/// Breakpoint table with one multiplier (in hundredths) per breakpoint.
#[derive(Clone, Copy)]
pub struct RuntimeSimpleMultiplierTable {
    pub count: u32,
    pub levels: [u32; 32],
    pub multiplier_hundredths: [u32; 32],
}

/// Model of a `RuntimeSimpleMultiplierTable`.
#[verifier::ext_equal]
pub struct SimpleMultiplierTableView {
    pub count: u32,
    pub levels: Seq<u32>,
    pub multiplier_hundredths: Seq<u32>,
}

impl View for RuntimeSimpleMultiplierTable {
    type V = SimpleMultiplierTableView;

    open spec fn view(&self) -> SimpleMultiplierTableView {
        SimpleMultiplierTableView {
            count: self.count,
            levels: self.levels@,
            multiplier_hundredths: self.multiplier_hundredths@,
        }
    }
}

impl SimpleMultiplierTableView {
    /// The table as first created: no override, every level 0 and every
    /// multiplier 100 hundredths.
    pub open spec fn initial() -> Self {
        SimpleMultiplierTableView {
            count: NO_OVERRIDE,
            levels: Seq::new(32, |i: int| 0u32),
            multiplier_hundredths: Seq::new(32, |i: int| 100u32),
        }
    }

    /// The table with its override withdrawn; staged entries stay.
    pub open spec fn cleared(self) -> Self {
        SimpleMultiplierTableView { count: NO_OVERRIDE, ..self }
    }

    /// The table with entry `index` overwritten.
    pub open spec fn with_entry(self, index: int, level: u32, multiplier: u32) -> Self {
        SimpleMultiplierTableView {
            levels: self.levels.update(index, level),
            multiplier_hundredths: self.multiplier_hundredths.update(index, multiplier),
            ..self
        }
    }

    /// The first `count` entries form a valid table: levels start at 0,
    /// increase strictly and stay at most 500; multipliers are at most
    /// 10000 hundredths.
    pub open spec fn commit_accepts(self, count: int) -> bool {
        &&& count <= 32
        &&& levels_valid(self.levels, count)
        &&& values_bounded(self.multiplier_hundredths, count, MAX_MULTIPLIER_HUNDREDTHS)
    }

    /// The table with its first `count` entries published.
    pub open spec fn committed(self, count: int) -> Self {
        SimpleMultiplierTableView { count: count as u32, ..self }
    }

    /// The multiplier in effect at `level`, if a table is published.
    pub open spec fn nearest(self, level: u32) -> Option<u32> {
        if count_active(self.count, 32) {
            Some(self.multiplier_hundredths[nearest_index(self.levels, self.count as int, level as int)])
        } else {
            None
        }
    }
}

impl RuntimeSimpleMultiplierTable {
    pub fn new() -> (t: Self)
        ensures
            t@ == SimpleMultiplierTableView::initial(),
    {
        RuntimeSimpleMultiplierTable {
            count: NO_OVERRIDE,
            levels: [0u32; 32],
            multiplier_hundredths: [100u32; 32],
        }
    }

    pub fn clear(&mut self)
        ensures
            final(self)@ == old(self)@.cleared(),
    {
        self.count = NO_OVERRIDE;
    }

    pub fn begin_update(&mut self)
        ensures
            final(self)@ == old(self)@.cleared(),
    {
        self.count = NO_OVERRIDE;
    }

    pub fn set_entry(&mut self, index: usize, level: u32, multiplier_hundredths: u32) -> (r: bool)
        ensures
            r == (index < MAX_LEVEL_EXP_BREAKPOINTS),
            final(self)@ == if r {
                old(self)@.with_entry(index as int, level, multiplier_hundredths)
            } else {
                old(self)@
            },
    {
        if index >= MAX_LEVEL_EXP_BREAKPOINTS {
            return false;
        }
        self.levels[index] = level;
        self.multiplier_hundredths[index] = multiplier_hundredths;
        true
    }

    pub fn commit(&mut self, count: usize) -> (r: bool)
        ensures
            r == old(self)@.commit_accepts(count as int),
            r <==> (0 < count <= 32 && old(self).levels@[0] == 0 && (forall|i: int|
                0 <= i < count ==> #[trigger] old(self).levels@[i] <= 500) && (forall|i: int|
                0 < i < count ==> old(self).levels@[i - 1] < #[trigger] old(self).levels@[i]) && (forall|i: int|
                0 <= i < count ==> #[trigger] old(self).multiplier_hundredths@[i] <= 10000)),
            final(self)@ == if r {
                old(self)@.committed(count as int)
            } else {
                old(self)@
            },
    {
        if count == 0 || count > MAX_LEVEL_EXP_BREAKPOINTS {
            return false;
        }
        let mut previous_level: u32 = 0;
        let mut index: usize = 0;
        while index < count
            invariant
                0 < count <= 32,
                index <= count,
                forall|j: int|
                    0 <= j < index ==> #[trigger] self.levels@[j] <= MAX_BREAKPOINT_LEVEL
                        && self.multiplier_hundredths@[j] <= MAX_MULTIPLIER_HUNDREDTHS,
                index > 0 ==> self.levels@[0] == 0,
                forall|j: int| 0 < j < index ==> self.levels@[j - 1] < #[trigger] self.levels@[j],
                index > 0 ==> previous_level == self.levels@[index - 1],
            decreases count - index,
        {
            let level: u32 = self.levels[index];
            let multiplier: u32 = self.multiplier_hundredths[index];
            if level > MAX_BREAKPOINT_LEVEL {
                return false;
            }
            if index == 0 && level != 0 {
                return false;
            }
            if multiplier > MAX_MULTIPLIER_HUNDREDTHS {
                return false;
            }
            if index > 0 && level <= previous_level {
                return false;
            }
            previous_level = level;
            index = index + 1;
        }
        self.count = count as u32;
        true
    }

    pub fn get_nearest(&self, level: u32) -> (r: Option<u32>)
        ensures
            r == self@.nearest(level),
    {
        let count: u32 = self.count;
        if count == NO_OVERRIDE {
            return None;
        }
        let count: usize = count as usize;
        if count == 0 || count > MAX_LEVEL_EXP_BREAKPOINTS {
            return None;
        }
        let mut selected_index: usize = 0;
        let mut index: usize = 0;
        while index < count
            invariant
                0 < count <= 32,
                count == self.count,
                index <= count,
                forall|j: int| 0 <= j < index ==> #[trigger] self.levels@[j] <= level,
                selected_index == if index == 0 {
                    0
                } else {
                    index - 1
                },
            ensures
                index <= count,
                forall|j: int| 0 <= j < index ==> #[trigger] self.levels@[j] <= level,
                index < count ==> self.levels@[index as int] > level,
                selected_index == if index == 0 {
                    0
                } else {
                    index - 1
                },
            decreases count - index,
        {
            let breakpoint_level: u32 = self.levels[index];
            if breakpoint_level <= level {
                selected_index = index;
            } else {
                break;
            }
            index = index + 1;
        }
        proof {
            crate::breakpoints::lemma_leading_run(self.levels@, count as int, level as int);
        }
        Some(self.multiplier_hundredths[selected_index])
    }
}

// ---------------------------------------------------------------------
// Perks at level up
// ---------------------------------------------------------------------

/// Breakpoint table giving the perks, in hundredths, granted per level.
#[derive(Clone, Copy)]
pub struct RuntimePerksAtLevelUpTable {
    pub count: u32,
    pub levels: [u32; 32],
    pub perk_hundredths: [u32; 32],
}

/// Model of a `RuntimePerksAtLevelUpTable`.
#[verifier::ext_equal]
pub struct PerksTableView {
    pub count: u32,
    pub levels: Seq<u32>,
    pub perk_hundredths: Seq<u32>,
}

impl View for RuntimePerksAtLevelUpTable {
    type V = PerksTableView;

    open spec fn view(&self) -> PerksTableView {
        PerksTableView {
            count: self.count,
            levels: self.levels@,
            perk_hundredths: self.perk_hundredths@,
        }
    }
}

impl PerksTableView {
    /// The table as first created: no override, every level 0 and every
    /// value 100 hundredths.
    pub open spec fn initial() -> Self {
        PerksTableView {
            count: NO_OVERRIDE,
            levels: Seq::new(32, |i: int| 0u32),
            perk_hundredths: Seq::new(32, |i: int| 100u32),
        }
    }

    /// The table with its override withdrawn; staged entries stay.
    pub open spec fn cleared(self) -> Self {
        PerksTableView { count: NO_OVERRIDE, ..self }
    }

    /// The table with entry `index` overwritten.
    pub open spec fn with_entry(self, index: int, level: u32, perk_hundredths: u32) -> Self {
        PerksTableView {
            levels: self.levels.update(index, level),
            perk_hundredths: self.perk_hundredths.update(index, perk_hundredths),
            ..self
        }
    }

    /// The first `count` entries form a valid table: levels start at 0,
    /// increase strictly and stay at most 500; values are at most 10000
    /// hundredths.
    pub open spec fn commit_accepts(self, count: int) -> bool {
        &&& count <= 32
        &&& levels_valid(self.levels, count)
        &&& values_bounded(self.perk_hundredths, count, MAX_PERKS_AT_LEVEL_UP_HUNDREDTHS)
    }

    /// The table with its first `count` entries published.
    pub open spec fn committed(self, count: int) -> Self {
        PerksTableView { count: count as u32, ..self }
    }

    /// The published table can be accumulated up to `level` (always true of
    /// a table that `commit` accepted).
    pub open spec fn scan_defined(self, level: u32) -> bool {
        count_active(self.count, 32) ==> perk_scan_defined(
            self.levels,
            self.perk_hundredths,
            self.count as int,
            level as int,
        )
    }

    /// Whole perks gained on reaching `level`, if a table is published.
    pub open spec fn cumulative_delta(self, level: u32) -> Option<u32> {
        if count_active(self.count, 32) {
            Some(perk_delta(self.levels, self.perk_hundredths, self.count as int, level as int) as u32)
        } else {
            None
        }
    }
}

impl RuntimePerksAtLevelUpTable {
    pub fn new() -> (t: Self)
        ensures
            t@ == PerksTableView::initial(),
    {
        RuntimePerksAtLevelUpTable {
            count: NO_OVERRIDE,
            levels: [0u32; 32],
            perk_hundredths: [100u32; 32],
        }
    }

    pub fn clear(&mut self)
        ensures
            final(self)@ == old(self)@.cleared(),
    {
        self.count = NO_OVERRIDE;
    }

    pub fn begin_update(&mut self)
        ensures
            final(self)@ == old(self)@.cleared(),
    {
        self.count = NO_OVERRIDE;
    }

    pub fn set_entry(&mut self, index: usize, level: u32, perk_hundredths: u32) -> (r: bool)
        ensures
            r == (index < MAX_PERKS_AT_LEVEL_UP_BREAKPOINTS && perk_hundredths
                <= MAX_PERKS_AT_LEVEL_UP_HUNDREDTHS),
            final(self)@ == if r {
                old(self)@.with_entry(index as int, level, perk_hundredths)
            } else {
                old(self)@
            },
    {
        if index >= MAX_PERKS_AT_LEVEL_UP_BREAKPOINTS || perk_hundredths
            > MAX_PERKS_AT_LEVEL_UP_HUNDREDTHS {
            return false;
        }
        self.levels[index] = level;
        self.perk_hundredths[index] = perk_hundredths;
        true
    }

    pub fn commit(&mut self, count: usize) -> (r: bool)
        ensures
            r == old(self)@.commit_accepts(count as int),
            r <==> (0 < count <= 32 && old(self).levels@[0] == 0 && (forall|i: int|
                0 <= i < count ==> #[trigger] old(self).levels@[i] <= 500) && (forall|i: int|
                0 < i < count ==> old(self).levels@[i - 1] < #[trigger] old(self).levels@[i]) && (forall|i: int|
                0 <= i < count ==> #[trigger] old(self).perk_hundredths@[i] <= 10000)),
            final(self)@ == if r {
                old(self)@.committed(count as int)
            } else {
                old(self)@
            },
    {
        if count == 0 || count > MAX_PERKS_AT_LEVEL_UP_BREAKPOINTS {
            return false;
        }
        let mut previous_level: u32 = 0;
        let mut index: usize = 0;
        while index < count
            invariant
                0 < count <= 32,
                index <= count,
                forall|j: int|
                    0 <= j < index ==> #[trigger] self.levels@[j] <= MAX_BREAKPOINT_LEVEL
                        && self.perk_hundredths@[j] <= MAX_PERKS_AT_LEVEL_UP_HUNDREDTHS,
                index > 0 ==> self.levels@[0] == 0,
                forall|j: int| 0 < j < index ==> self.levels@[j - 1] < #[trigger] self.levels@[j],
                index > 0 ==> previous_level == self.levels@[index - 1],
            decreases count - index,
        {
            let level: u32 = self.levels[index];
            let perk_hundredths: u32 = self.perk_hundredths[index];
            if level > MAX_BREAKPOINT_LEVEL {
                return false;
            }
            if perk_hundredths > MAX_PERKS_AT_LEVEL_UP_HUNDREDTHS {
                return false;
            }
            if index == 0 && level != 0 {
                return false;
            }
            if index > 0 && level <= previous_level {
                return false;
            }
            previous_level = level;
            index = index + 1;
        }
        self.count = count as u32;
        true
    }

    pub fn get_cumulative_delta(&self, level: u32) -> (r: Option<u32>)
        requires
            self@.scan_defined(level),
        ensures
            r == self@.cumulative_delta(level),
            r matches Some(d) ==> d == perk_delta(
                self.levels@,
                self.perk_hundredths@,
                self.count as int,
                level as int,
            ),
    {
        let count: u32 = self.count;
        if count == NO_OVERRIDE {
            return None;
        }
        let count: usize = count as usize;
        if count == 0 || count > MAX_PERKS_AT_LEVEL_UP_BREAKPOINTS {
            return None;
        }
        let ghost levels = self.levels@;
        let ghost perks = self.perk_hundredths@;
        let ghost n = count as int;
        let ghost lv = level as int;
        proof {
            crate::breakpoints::lemma_leading_run(levels, n, lv);
            crate::breakpoints::lemma_scan_defined_facts(levels, perks, n, lv);
        }
        let target_exclusive: u64 = level as u64 + 1;
        let mut accumulated_hundredths: u64 = 0;
        let mut previous_hundredths: u64 = 0;
        let mut index: usize = 0;
        while index < count
            invariant
                0 < count <= 32,
                n == count,
                levels == self.levels@,
                perks == self.perk_hundredths@,
                lv == level,
                target_exclusive == level + 1,
                forall|k: int|
                    0 <= k && k + 1 < crate::breakpoints::leading_run(levels, n, lv) ==> levels[k]
                        <= #[trigger] levels[k + 1],
                forall|k: int|
                    0 <= k < crate::breakpoints::leading_run(levels, n, lv) ==> perk_total(
                        levels,
                        perks,
                        n,
                        segment_end(levels, n, lv, k) as nat,
                    ) >= #[trigger] perks[k],
                0 <= crate::breakpoints::leading_run(levels, n, lv) <= n,
                forall|j: int| 0 <= j < crate::breakpoints::leading_run(levels, n, lv) ==> #[trigger] levels[j] <= lv,
                crate::breakpoints::leading_run(levels, n, lv) < n ==> levels[crate::breakpoints::leading_run(levels, n, lv)] > lv,
                index <= crate::breakpoints::leading_run(levels, n, lv),
                index == 0 ==> accumulated_hundredths == 0 && previous_hundredths == 0,
                index > 0 ==> accumulated_hundredths == perk_total(
                    levels,
                    perks,
                    n,
                    segment_end(levels, n, lv, index - 1) as nat,
                ) && previous_hundredths == accumulated_hundredths - perks[index - 1],
            ensures
                index == crate::breakpoints::leading_run(levels, n, lv),
                index == 0 ==> accumulated_hundredths == 0 && previous_hundredths == 0,
                index > 0 ==> accumulated_hundredths == perk_total(
                    levels,
                    perks,
                    n,
                    segment_end(levels, n, lv, index - 1) as nat,
                ) && previous_hundredths == accumulated_hundredths - perks[index - 1],
            decreases count - index,
        {
            let breakpoint_level: u32 = self.levels[index];
            if breakpoint_level > level {
                break;
            }
            let next_level: u64 = if index + 1 < count {
                self.levels[index + 1] as u64
            } else {
                target_exclusive
            };
            let segment_end_level: u64 = if target_exclusive <= next_level {
                target_exclusive
            } else {
                next_level
            };
            let perk_hundredths: u64 = self.perk_hundredths[index] as u64;
            let ghost i = index as int;
            proof {
                let r = crate::breakpoints::leading_run(levels, n, lv);
                assert(i < r) by {
                    if r <= i {
                        if r < n {
                            assert(levels[r] <= lv);
                        }
                    }
                }
                assert(segment_end_level == segment_end(levels, n, lv, i));
                crate::breakpoints::lemma_perk_total_through_band(levels, perks, n, lv, i);
                crate::breakpoints::lemma_perk_total_bounds(
                    levels,
                    perks,
                    n,
                    segment_end(levels, n, lv, i) as nat,
                );
                let d = segment_end_level - breakpoint_level;
                assert(d * perk_hundredths <= 0x1_0000_0000 * 0xFFFF_FFFF) by (nonlinear_arith)
                    requires
                        0 <= d <= 0x1_0000_0000,
                        perk_hundredths <= 0xFFFF_FFFF,
                ;
                assert(segment_end(levels, n, lv, i) * 0xFFFF_FFFF <= 0x1_0000_0000 * 0xFFFF_FFFF)
                    by (nonlinear_arith)
                    requires
                        segment_end(levels, n, lv, i) <= 0x1_0000_0000,
                ;
                assert(perks[i] <= perk_total(levels, perks, n, segment_end(levels, n, lv, i) as nat));
            }
            accumulated_hundredths = accumulated_hundredths + (segment_end_level
                - breakpoint_level as u64) * perk_hundredths;
            previous_hundredths = accumulated_hundredths - perk_hundredths;
            index = index + 1;
        }
        proof {
            let r = crate::breakpoints::leading_run(levels, n, lv);
            if r == 0 {
                crate::breakpoints::lemma_perk_total_before_first(levels, perks, n, (lv + 1) as nat);
                crate::breakpoints::lemma_perk_total_before_first(levels, perks, n, lv as nat);
            } else {
                assert(segment_end(levels, n, lv, r - 1) == lv + 1);
                assert(perk_total(levels, perks, n, (lv + 1) as nat) == perk_total(
                    levels,
                    perks,
                    n,
                    lv as nat,
                ) + crate::breakpoints::perk_rate(levels, perks, n, lv));
            }
        }
        proof {
            crate::breakpoints::lemma_perk_delta_bounds(levels, perks, n, lv);
        }
        Some(((accumulated_hundredths / 100) - (previous_hundredths / 100)) as u32)
    }
}

// ---------------------------------------------------------------------
// Attribute gains at level up
// ---------------------------------------------------------------------

/// Breakpoint table giving an attribute gain per breakpoint.
#[derive(Clone, Copy)]
pub struct RuntimeAttributeTable {
    pub count: u32,
    pub levels: [u32; 32],
    pub values: [u32; 32],
}

/// Model of a `RuntimeAttributeTable`.
#[verifier::ext_equal]
pub struct AttributeTableView {
    pub count: u32,
    pub levels: Seq<u32>,
    pub values: Seq<u32>,
}

impl View for RuntimeAttributeTable {
    type V = AttributeTableView;

    open spec fn view(&self) -> AttributeTableView {
        AttributeTableView { count: self.count, levels: self.levels@, values: self.values@ }
    }
}

impl AttributeTableView {
    /// The table as first created: no override, every level and value 0.
    pub open spec fn initial() -> Self {
        AttributeTableView {
            count: NO_OVERRIDE,
            levels: Seq::new(32, |i: int| 0u32),
            values: Seq::new(32, |i: int| 0u32),
        }
    }

    /// The table with its override withdrawn; staged entries stay.
    pub open spec fn cleared(self) -> Self {
        AttributeTableView { count: NO_OVERRIDE, ..self }
    }

    /// The table with entry `index` overwritten.
    pub open spec fn with_entry(self, index: int, level: u32, value: u32) -> Self {
        AttributeTableView {
            levels: self.levels.update(index, level),
            values: self.values.update(index, value),
            ..self
        }
    }

    /// The first `count` entries form a valid table: levels start at 0,
    /// increase strictly and stay at most 500.
    pub open spec fn commit_accepts(self, count: int) -> bool {
        &&& count <= 32
        &&& levels_valid(self.levels, count)
    }

    /// The table with its first `count` entries published.
    pub open spec fn committed(self, count: int) -> Self {
        AttributeTableView { count: count as u32, ..self }
    }

    /// The gain in effect at `level`, if a table is published.
    pub open spec fn nearest(self, level: u32) -> Option<u32> {
        if count_active(self.count, 32) {
            Some(self.values[nearest_index(self.levels, self.count as int, level as int)])
        } else {
            None
        }
    }
}

impl RuntimeAttributeTable {
    pub fn new() -> (t: Self)
        ensures
            t@ == AttributeTableView::initial(),
    {
        RuntimeAttributeTable { count: NO_OVERRIDE, levels: [0u32; 32], values: [0u32; 32] }
    }

    pub fn clear(&mut self)
        ensures
            final(self)@ == old(self)@.cleared(),
    {
        self.count = NO_OVERRIDE;
    }

    pub fn begin_update(&mut self)
        ensures
            final(self)@ == old(self)@.cleared(),
    {
        self.count = NO_OVERRIDE;
    }

    pub fn set_entry(&mut self, index: usize, level: u32, value: u32) -> (r: bool)
        ensures
            r == (index < MAX_ATTRIBUTE_BREAKPOINTS && level <= MAX_BREAKPOINT_LEVEL),
            final(self)@ == if r {
                old(self)@.with_entry(index as int, level, value)
            } else {
                old(self)@
            },
    {
        if index >= MAX_ATTRIBUTE_BREAKPOINTS || level > MAX_BREAKPOINT_LEVEL {
            return false;
        }
        self.levels[index] = level;
        self.values[index] = value;
        true
    }

    pub fn commit(&mut self, count: usize) -> (r: bool)
        ensures
            r == old(self)@.commit_accepts(count as int),
            r <==> (0 < count <= 32 && old(self).levels@[0] == 0 && (forall|i: int|
                0 <= i < count ==> #[trigger] old(self).levels@[i] <= 500) && (forall|i: int|
                0 < i < count ==> old(self).levels@[i - 1] < #[trigger] old(self).levels@[i])),
            final(self)@ == if r {
                old(self)@.committed(count as int)
            } else {
                old(self)@
            },
    {
        if count == 0 || count > MAX_ATTRIBUTE_BREAKPOINTS {
            return false;
        }
        let mut previous_level: u32 = 0;
        let mut index: usize = 0;
        while index < count
            invariant
                0 < count <= 32,
                index <= count,
                forall|j: int| 0 <= j < index ==> #[trigger] self.levels@[j] <= MAX_BREAKPOINT_LEVEL,
                index > 0 ==> self.levels@[0] == 0,
                forall|j: int| 0 < j < index ==> self.levels@[j - 1] < #[trigger] self.levels@[j],
                index > 0 ==> previous_level == self.levels@[index - 1],
            decreases count - index,
        {
            let level: u32 = self.levels[index];
            if level > MAX_BREAKPOINT_LEVEL {
                return false;
            }
            if index == 0 && level != 0 {
                return false;
            }
            if index > 0 && level <= previous_level {
                return false;
            }
            previous_level = level;
            index = index + 1;
        }
        self.count = count as u32;
        true
    }

    pub fn get_nearest(&self, level: u32) -> (r: Option<u32>)
        ensures
            r == self@.nearest(level),
    {
        let count: u32 = self.count;
        if count == NO_OVERRIDE {
            return None;
        }
        let count: usize = count as usize;
        if count == 0 || count > MAX_ATTRIBUTE_BREAKPOINTS {
            return None;
        }
        let mut selected_index: usize = 0;
        let mut index: usize = 0;
        while index < count
            invariant
                0 < count <= 32,
                count == self.count,
                index <= count,
                forall|j: int| 0 <= j < index ==> #[trigger] self.levels@[j] <= level,
                selected_index == if index == 0 {
                    0
                } else {
                    index - 1
                },
            ensures
                index <= count,
                forall|j: int| 0 <= j < index ==> #[trigger] self.levels@[j] <= level,
                index < count ==> self.levels@[index as int] > level,
                selected_index == if index == 0 {
                    0
                } else {
                    index - 1
                },
            decreases count - index,
        {
            let breakpoint_level: u32 = self.levels[index];
            if breakpoint_level <= level {
                selected_index = index;
            } else {
                break;
            }
            index = index + 1;
        }
        proof {
            crate::breakpoints::lemma_leading_run(self.levels@, count as int, level as int);
        }
        Some(self.values[selected_index])
    }
}

} // verus!
