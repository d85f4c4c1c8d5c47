//! Breakpoint tables: a list of levels, each starting a band in which one
//! value applies. This module holds the mathematics shared by every table:
//! which breakpoint is in effect at a level, when a staged table may be
//! committed, and how the perk rates accumulate over levels.

use vstd::prelude::*;

verus! {

/// Raw value of a slot that holds no override.
pub const NO_OVERRIDE: u32 = 0xFFFF_FFFF;

/// Highest level a committed breakpoint may start at.
pub const MAX_BREAKPOINT_LEVEL: u32 = 500;

/// Highest multiplier, in hundredths, that a table accepts.
pub const MAX_MULTIPLIER_HUNDREDTHS: u32 = 10_000;

/// Length of the run of breakpoints, starting at index `i` and stopping at
/// `count`, whose levels are all at most `level`: the first index at or
/// after `i` that is `count` or holds a level above `level`.
pub open spec fn leading_run_from(levels: Seq<u32>, i: int, count: int, level: int) -> int
    decreases count - i,
{
    if i >= count || levels[i] > level {
        i
    } else {
        leading_run_from(levels, i + 1, count, level)
    }
}

/// Number of leading breakpoints (among the first `count`) whose levels are
/// all at most `level`.
pub open spec fn leading_run(levels: Seq<u32>, count: int, level: int) -> int {
    leading_run_from(levels, 0, count, level)
}

/// The breakpoint in effect at `level`: the last one of the leading run of
/// breakpoints at or below `level`, or the first one when that run is empty.
pub open spec fn nearest_index(levels: Seq<u32>, count: int, level: int) -> int {
    let r = leading_run(levels, count, level);
    if r == 0 {
        0
    } else {
        r - 1
    }
}

/// A raw count names a committed table: it is neither `NO_OVERRIDE` nor
/// zero, and fits in the table.
pub open spec fn count_active(count: u32, capacity: int) -> bool {
    count != NO_OVERRIDE && 0 < count <= capacity
}

/// The first `count` levels form a committed breakpoint list: the first is
/// zero, each is at most `MAX_BREAKPOINT_LEVEL`, and each is above the one
/// before it.
pub open spec fn levels_valid(levels: Seq<u32>, count: int) -> bool {
    &&& 0 < count <= levels.len()
    &&& levels[0] == 0
    &&& forall|i: int| 0 <= i < count ==> #[trigger] levels[i] <= MAX_BREAKPOINT_LEVEL
    &&& forall|i: int| 0 < i < count ==> levels[i - 1] < #[trigger] levels[i]
}

/// Every one of the first `count` values is at most `bound`.
pub open spec fn values_bounded(values: Seq<u32>, count: int, bound: u32) -> bool {
    forall|i: int| 0 <= i < count ==> #[trigger] values[i] <= bound
}

proof fn lemma_leading_run_from(levels: Seq<u32>, i: int, count: int, level: int)
    requires
        0 <= i <= count,
        forall|j: int| 0 <= j < i ==> #[trigger] levels[j] <= level,
    ensures
        i <= leading_run_from(levels, i, count, level) <= count,
        forall|j: int|
            0 <= j < leading_run_from(levels, i, count, level) ==> #[trigger] levels[j] <= level,
        leading_run_from(levels, i, count, level) < count ==> levels[leading_run_from(
            levels,
            i,
            count,
            level,
        )] > level,
    decreases count - i,
{
    if i < count && levels[i] <= level {
        lemma_leading_run_from(levels, i + 1, count, level);
    }
}

/// The leading run is the unique index `r` up to `count` below which every
/// level is at most `level`, and at which (unless `r == count`) the level
/// is above it.
pub proof fn lemma_leading_run(levels: Seq<u32>, count: int, level: int)
    requires
        0 <= count,
    ensures
        0 <= leading_run(levels, count, level) <= count,
        forall|j: int| 0 <= j < leading_run(levels, count, level) ==> #[trigger] levels[j] <= level,
        leading_run(levels, count, level) < count ==> levels[leading_run(levels, count, level)]
            > level,
        forall|r: int|
            #![trigger levels[r]]
            0 <= r <= count && (forall|j: int| 0 <= j < r ==> #[trigger] levels[j] <= level) && (r
                < count ==> levels[r] > level) ==> r == leading_run(levels, count, level),
{
    lemma_leading_run_from(levels, 0, count, level);
    let r0 = leading_run(levels, count, level);
    assert forall|r: int|
        #![trigger levels[r]]
        0 <= r <= count && (forall|j: int| 0 <= j < r ==> #[trigger] levels[j] <= level) && (r
            < count ==> levels[r] > level) implies r == r0 by {
        if r < r0 {
            assert(levels[r] <= level);
        } else if r0 < r {
            assert(levels[r0] <= level);
        }
    }
}

/// Adjacent order within the first `n` levels gives order between any two.
pub proof fn lemma_adjacent_nondecreasing(levels: Seq<u32>, n: int)
    requires
        forall|i: int| 0 <= i && i + 1 < n ==> levels[i] <= #[trigger] levels[i + 1],
    ensures
        forall|j: int, k: int| 0 <= j <= k < n ==> #[trigger] levels[j] <= #[trigger] levels[k],
    decreases n,
{
    if n > 0 {
        lemma_adjacent_nondecreasing(levels, n - 1);
        assert forall|j: int, k: int| 0 <= j <= k < n implies #[trigger] levels[j]
            <= #[trigger] levels[k] by {
            if k == n - 1 && j < k {
                let m = k - 1;
                assert(levels[j] <= levels[m]);
                assert(levels[m] <= levels[m + 1]);
            }
        }
    }
}

/// Strictly increasing adjacent levels are strictly increasing between any
/// two positions.
pub proof fn lemma_adjacent_increasing(levels: Seq<u32>, n: int)
    requires
        forall|i: int| 0 < i < n ==> levels[i - 1] < #[trigger] levels[i],
    ensures
        forall|j: int, k: int| 0 <= j < k < n ==> #[trigger] levels[j] < #[trigger] levels[k],
    decreases n,
{
    if n > 0 {
        lemma_adjacent_increasing(levels, n - 1);
        assert forall|j: int, k: int| 0 <= j < k < n implies #[trigger] levels[j]
            < #[trigger] levels[k] by {
            if k == n - 1 && j < k - 1 {
                assert(levels[j] < levels[k - 1]);
                assert(levels[k - 1] < levels[k]);
            }
        }
    }
}

/// In a committed breakpoint list the breakpoint in effect at `level` is
/// the greatest one whose level is at most `level`.
pub proof fn lemma_nearest_is_greatest_at_or_below(levels: Seq<u32>, count: int, level: int)
    requires
        levels_valid(levels, count),
        0 <= level,
    ensures
        0 <= nearest_index(levels, count, level) < count,
        levels[nearest_index(levels, count, level)] <= level,
        forall|j: int|
            nearest_index(levels, count, level) < j < count ==> #[trigger] levels[j] > level,
{
    lemma_leading_run(levels, count, level);
    lemma_adjacent_increasing(levels, count);
    let r = leading_run(levels, count, level);
    if r == 0 {
        assert(levels[0] > level);
    }
    assert forall|j: int| nearest_index(levels, count, level) < j < count implies #[trigger] levels[j]
        > level by {
        if r < j {
            assert(levels[r] < levels[j]);
        }
    }
}

// ---------------------------------------------------------------------
// Perks awarded at level up
// ---------------------------------------------------------------------

/// Perks, in hundredths, that the perk table grants at character level `x`:
/// the value of the breakpoint in effect there, or nothing below the first
/// breakpoint.
pub open spec fn perk_rate(levels: Seq<u32>, perks: Seq<u32>, count: int, x: int) -> int {
    let r = leading_run(levels, count, x);
    if r == 0 {
        0
    } else {
        perks[r - 1] as int
    }
}

/// Total perks, in hundredths, granted over the levels `0 .. n`.
pub open spec fn perk_total(levels: Seq<u32>, perks: Seq<u32>, count: int, n: nat) -> int
    decreases n,
{
    if n == 0 {
        0
    } else {
        perk_total(levels, perks, count, (n - 1) as nat) + perk_rate(
            levels,
            perks,
            count,
            n - 1,
        )
    }
}

/// Whole perks gained on reaching `level`: the whole part of the total over
/// `0 ..= level`, less the whole part of the total over `0 .. level`.
pub open spec fn perk_delta(levels: Seq<u32>, perks: Seq<u32>, count: int, level: int) -> int {
    perk_total(levels, perks, count, (level + 1) as nat) / 100 - perk_total(
        levels,
        perks,
        count,
        level as nat,
    ) / 100
}

/// End (exclusive) of the band of levels up to `level` in which the
/// breakpoint `i` is the one in effect.
pub open spec fn segment_end(levels: Seq<u32>, count: int, level: int, i: int) -> int {
    if i + 1 < count {
        if level + 1 < levels[i + 1] {
            level + 1
        } else {
            levels[i + 1] as int
        }
    } else {
        level + 1
    }
}

/// The perk breakpoints at or below `level` can be accumulated band by band
/// without a band running backwards or the running total falling below the
/// band's own rate: the levels of the leading run do not decrease, and the
/// total up to the end of each band is at least that band's value.
pub open spec fn perk_scan_defined(levels: Seq<u32>, perks: Seq<u32>, count: int, level: int) -> bool {
    let r = leading_run(levels, count, level);
    forall|i: int|
        #![trigger perks[i]]
        0 <= i < r ==> (i + 1 < r ==> levels[i] <= levels[i + 1]) && perk_total(
            levels,
            perks,
            count,
            segment_end(levels, count, level, i) as nat,
        ) >= perks[i]
}

/// A committed perk table can always be accumulated.
pub proof fn lemma_valid_levels_scan_defined(
    levels: Seq<u32>,
    perks: Seq<u32>,
    count: int,
    level: int,
)
    requires
        levels_valid(levels, count),
        count <= perks.len(),
        0 <= level,
    ensures
        perk_scan_defined(levels, perks, count, level),
{
    lemma_leading_run(levels, count, level);
    lemma_adjacent_increasing(levels, count);
    let r = leading_run(levels, count, level);
    assert forall|i: int| #![trigger perks[i]] 0 <= i < r implies (i + 1 < r ==> levels[i]
        <= levels[i + 1]) && perk_total(
        levels,
        perks,
        count,
        segment_end(levels, count, level, i) as nat,
    ) >= perks[i] by {
        lemma_adjacent_nondecreasing_from_increasing(levels, count);
        if i + 1 < r {
            assert(levels[i] <= levels[i + 1]);
        }
        lemma_perk_total_through_band(levels, perks, count, level, i);
        lemma_perk_total_bounds(levels, perks, count, levels[i] as nat);
        lemma_adjacent_increasing(levels, count);
        if i + 1 < count {
            assert(levels[i] < levels[i + 1]);
        }
        let d = segment_end(levels, count, level, i) - levels[i];
        let p = perks[i] as int;
        assert(d * p >= p) by (nonlinear_arith)
            requires
                d >= 1,
                p >= 0,
        ;
    }
}

proof fn lemma_adjacent_nondecreasing_from_increasing(levels: Seq<u32>, count: int)
    requires
        forall|i: int| 0 < i < count ==> levels[i - 1] < #[trigger] levels[i],
    ensures
        forall|i: int| 0 <= i && i + 1 < count ==> levels[i] <= #[trigger] levels[i + 1],
{
    assert forall|i: int| 0 <= i && i + 1 < count implies levels[i] <= #[trigger] levels[i + 1] by {
        assert(levels[(i + 1) - 1] < levels[i + 1]);
    }
}

/// Within band `i` of the leading run the rate is the band's value.
pub proof fn lemma_rate_in_band(
    levels: Seq<u32>,
    perks: Seq<u32>,
    count: int,
    level: int,
    i: int,
    x: int,
)
    requires
        0 <= count <= levels.len(),
        0 <= i < leading_run(levels, count, level),
        forall|k: int| 0 <= k && k + 1 < leading_run(levels, count, level) ==> levels[k] <= #[trigger] levels[k + 1],
        levels[i] <= x < segment_end(levels, count, level, i),
    ensures
        leading_run(levels, count, x) == i + 1,
        perk_rate(levels, perks, count, x) == perks[i],
{
    lemma_leading_run(levels, count, level);
    lemma_leading_run(levels, count, x);
    let r = leading_run(levels, count, level);
    lemma_adjacent_nondecreasing(levels, r);
    assert forall|j: int| 0 <= j < i + 1 implies #[trigger] levels[j] <= x by {
        assert(levels[j] <= levels[i]);
    }
    if i + 1 < count {
        if i + 1 < r {
            assert(levels[i + 1] >= segment_end(levels, count, level, i));
        } else {
            assert(levels[r] > level);
        }
        assert(levels[i + 1] > x);
    }
}

/// Over a stretch of levels with a constant rate the total grows by the
/// rate per level.
pub proof fn lemma_perk_total_constant(
    levels: Seq<u32>,
    perks: Seq<u32>,
    count: int,
    a: nat,
    k: nat,
    p: int,
)
    requires
        forall|x: int| a <= x < a + k ==> #[trigger] perk_rate(levels, perks, count, x) == p,
    ensures
        perk_total(levels, perks, count, a + k) == perk_total(levels, perks, count, a) + k * p,
    decreases k,
{
    if k > 0 {
        lemma_perk_total_constant(levels, perks, count, a, (k - 1) as nat, p);
        assert(perk_rate(levels, perks, count, a + k - 1) == p);
        assert(perk_total(levels, perks, count, a + k) == perk_total(
            levels,
            perks,
            count,
            (a + (k - 1)) as nat,
        ) + perk_rate(levels, perks, count, a + k - 1));
        assert((k - 1) * p + p == k * p) by (nonlinear_arith);
    } else {
        assert(k * p == 0) by (nonlinear_arith)
            requires
                k == 0,
        ;
    }
}

/// No perks are granted below the first breakpoint.
pub proof fn lemma_perk_total_before_first(
    levels: Seq<u32>,
    perks: Seq<u32>,
    count: int,
    n: nat,
)
    requires
        0 < count <= levels.len(),
        n <= levels[0],
    ensures
        perk_total(levels, perks, count, n) == 0,
{
    assert forall|x: int| 0 <= x < n implies #[trigger] perk_rate(levels, perks, count, x) == 0 by {
        lemma_leading_run(levels, count, x);
        assert(leading_run(levels, count, x) == 0);
    }
    lemma_perk_total_constant(levels, perks, count, 0, n, 0);
}

/// The total over `0 .. n` lies between zero and `n` times the largest
/// `u32`.
pub proof fn lemma_perk_total_bounds(levels: Seq<u32>, perks: Seq<u32>, count: int, n: nat)
    requires
        0 <= count <= perks.len(),
    ensures
        0 <= perk_total(levels, perks, count, n) <= n * 0xFFFF_FFFF,
    decreases n,
{
    if n > 0 {
        lemma_perk_total_bounds(levels, perks, count, (n - 1) as nat);
        lemma_leading_run(levels, count, n - 1);
    }
}

/// Total up to the end of band `i` of the leading run, taken band by band.
pub proof fn lemma_perk_total_through_band(
    levels: Seq<u32>,
    perks: Seq<u32>,
    count: int,
    level: int,
    i: int,
)
    requires
        0 < count <= levels.len(),
        0 <= i < leading_run(levels, count, level),
        forall|k: int| 0 <= k && k + 1 < leading_run(levels, count, level) ==> levels[k] <= #[trigger] levels[k + 1],
    ensures
        levels[i] <= segment_end(levels, count, level, i),
        perk_total(levels, perks, count, segment_end(levels, count, level, i) as nat) == perk_total(
            levels,
            perks,
            count,
            levels[i] as nat,
        ) + (segment_end(levels, count, level, i) - levels[i]) * perks[i],
        perk_total(levels, perks, count, levels[i] as nat) == if i == 0 {
            0
        } else {
            perk_total(levels, perks, count, segment_end(levels, count, level, i - 1) as nat)
        },
    decreases i,
{
    lemma_leading_run(levels, count, level);
    let r = leading_run(levels, count, level);
    let e = segment_end(levels, count, level, i);
    assert(levels[i] <= level);
    if i + 1 < count {
        if i + 1 < r {
            assert(levels[i + 1] <= level);
            assert(levels[i] <= levels[i + 1]);
        } else {
            assert(levels[r] > level);
        }
    }
    let k = (e - levels[i]) as nat;
    assert forall|x: int| levels[i] <= x < levels[i] + k implies #[trigger] perk_rate(
        levels,
        perks,
        count,
        x,
    ) == perks[i] by {
        lemma_rate_in_band(levels, perks, count, level, i, x);
    }
    lemma_perk_total_constant(levels, perks, count, levels[i] as nat, k, perks[i] as int);
    if i == 0 {
        lemma_perk_total_before_first(levels, perks, count, levels[0] as nat);
    } else {
        assert(levels[i] <= level);
        assert(segment_end(levels, count, level, i - 1) == levels[i]);
    }
}

/// Summing the whole perks gained on reaching each level `0 ..= level`
/// gives the whole part of the total over `0 ..= level`.
pub proof fn lemma_perk_deltas_telescope(
    levels: Seq<u32>,
    perks: Seq<u32>,
    count: int,
    level: nat,
)
    ensures
        perk_delta_sum(levels, perks, count, level) == perk_total(
            levels,
            perks,
            count,
            level + 1,
        ) / 100,
    decreases level,
{
    if level > 0 {
        lemma_perk_deltas_telescope(levels, perks, count, (level - 1) as nat);
    }
}

/// Sum of the whole perks gained on reaching each of the levels
/// `0 ..= level`.
pub open spec fn perk_delta_sum(levels: Seq<u32>, perks: Seq<u32>, count: int, level: nat) -> int
    decreases level,
{
    if level == 0 {
        perk_delta(levels, perks, count, 0)
    } else {
        perk_delta_sum(levels, perks, count, (level - 1) as nat) + perk_delta(
            levels,
            perks,
            count,
            level as int,
        )
    }
}


/// The two facts that `perk_scan_defined` packs, one quantifier each.
pub proof fn lemma_scan_defined_facts(levels: Seq<u32>, perks: Seq<u32>, count: int, level: int)
    requires
        perk_scan_defined(levels, perks, count, level),
    ensures
        forall|k: int|
            0 <= k && k + 1 < leading_run(levels, count, level) ==> levels[k] <= #[trigger] levels[k
                + 1],
        forall|k: int|
            0 <= k < leading_run(levels, count, level) ==> perk_total(
                levels,
                perks,
                count,
                segment_end(levels, count, level, k) as nat,
            ) >= #[trigger] perks[k],
{
    assert forall|k: int|
        0 <= k && k + 1 < leading_run(levels, count, level) implies levels[k] <= #[trigger] levels[k
        + 1] by {
        let r = leading_run(levels, count, level);
        assert(0 <= k < r);
        assert(k + 1 < r ==> levels[k] <= levels[k + 1]) by {
            let p = perks[k];
        }
    }
}


/// The whole perks gained at one level lie between zero and the whole part
/// of the largest `u32` over 100, plus one: they always fit in a `u32`.
pub proof fn lemma_perk_delta_bounds(levels: Seq<u32>, perks: Seq<u32>, count: int, level: int)
    requires
        0 <= level,
    ensures
        0 <= perk_delta(levels, perks, count, level) <= 42_949_673,
{
    let a = perk_total(levels, perks, count, level as nat);
    let rate = perk_rate(levels, perks, count, level);
    assert(perk_total(levels, perks, count, (level + 1) as nat) == a + rate);
    assert(0 <= rate <= 0xFFFF_FFFF) by {
        let r = leading_run(levels, count, level);
        if r != 0 {
            assert(0 <= perks[r - 1] <= 0xFFFF_FFFF);
        }
    }
    assert(0 <= (a + rate) / 100 - a / 100 <= 42_949_673) by (nonlinear_arith)
        requires
            0 <= rate <= 0xFFFF_FFFF,
    ;
}

} // verus!
