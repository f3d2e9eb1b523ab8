//! The fade ramp: which duty each step of a half-cycle drives.

use vstd::prelude::*;

verus! {

/// Which way a half-cycle sweeps the duty.
#[derive(Clone, Copy, Debug, PartialEq, Eq, Structural)]
pub enum FadeDirection {
    /// From dark to full brightness.
    Ascending,
    /// From full brightness to dark.
    Descending,
}

/// Number of steps after the first in a half-cycle, unless chosen otherwise.
pub const DEFAULT_STEP_COUNT: u32 = 33;

/// Milliseconds each step is held, unless chosen otherwise.
pub const DEFAULT_STEP_PERIOD_MS: u32 = 20;

/// Milliseconds of darkness between two full cycles, unless chosen otherwise.
pub const DEFAULT_PAUSE_MS: u32 = 500;

/// The duty driven at step `step_index` of a half-cycle of `step_count + 1`
/// steps that sweeps between 0 and `max_duty`.
pub open spec fn duty_level(
    max_duty: int,
    step_count: int,
    step_index: int,
    direction: FadeDirection,
) -> int {
    match direction {
        FadeDirection::Ascending => (max_duty * step_index) / step_count,
        FadeDirection::Descending => (max_duty * (step_count - step_index)) / step_count,
    }
}

/// The duties of one whole half-cycle, in the order they are driven.
pub open spec fn half_cycle(max_duty: int, step_count: int, direction: FadeDirection) -> Seq<int> {
    Seq::new((step_count + 1) as nat, |i: int| duty_level(max_duty, step_count, i, direction))
}

/// A scaled fraction `max * part / whole` with `part <= whole` stays within
/// `0..=max`, is 0 at `part == 0` and `max` at `part == whole`.
proof fn lemma_fraction_bounds(max: int, part: int, whole: int)
    requires
        0 <= max,
        0 <= part <= whole,
        0 < whole,
    ensures
        0 <= (max * part) / whole <= max,
        part == 0 ==> (max * part) / whole == 0,
        part == whole ==> (max * part) / whole == max,
{
    assert(0 <= max * part <= max * whole) by (nonlinear_arith)
        requires
            0 <= max,
            0 <= part <= whole,
    ;
    assert((max * whole) / whole == max) by (nonlinear_arith)
        requires
            0 < whole,
    ;
    assert(0 <= (max * part) / whole <= (max * whole) / whole) by (nonlinear_arith)
        requires
            0 <= max * part <= max * whole,
            0 < whole,
    ;
    assert(part == 0 ==> max * part == 0) by (nonlinear_arith);
}

/// A larger part gives a fraction at least as large, and a strictly larger
/// one once `max` is no smaller than `whole`.
proof fn lemma_fraction_grows(max: int, low: int, high: int, whole: int)
    requires
        0 <= max,
        0 <= low < high,
        0 < whole,
    ensures
        (max * low) / whole <= (max * high) / whole,
        max >= whole ==> (max * low) / whole < (max * high) / whole,
{
    assert(max * low <= max * high) by (nonlinear_arith)
        requires
            0 <= max,
            low < high,
    ;
    assert((max * low) / whole <= (max * high) / whole) by (nonlinear_arith)
        requires
            max * low <= max * high,
            0 < whole,
    ;
    if max >= whole {
        assert(max * low + whole <= max * high) by (nonlinear_arith)
            requires
                max >= whole,
                0 < whole,
                low + 1 <= high,
        ;
        assert((max * low) / whole < (max * high) / whole) by (nonlinear_arith)
            requires
                max * low + whole <= max * high,
                0 < whole,
        ;
    }
}

/// Computes the duty of one step of a half-cycle.
///
/// The product is formed in 64 bits, so no choice of `max_duty` overflows.
pub fn duty_at(
    max_duty: u32,
    step_count: u32,
    step_index: u32,
    direction: FadeDirection,
) -> (duty: u32)
    requires
        step_count > 0,
        step_index <= step_count,
    ensures
        duty == duty_level(max_duty as int, step_count as int, step_index as int, direction),
        duty <= max_duty,
{
    let part: u32 = match direction {
        FadeDirection::Ascending => step_index,
        FadeDirection::Descending => step_count - step_index,
    };
    proof {
        lemma_fraction_bounds(max_duty as int, part as int, step_count as int);
        assert(0 <= (max_duty as int) * (part as int) <= 0xffff_ffff * 0xffff_ffff)
            by (nonlinear_arith)
            requires
                0 <= max_duty <= 0xffff_ffff,
                0 <= part <= 0xffff_ffff,
        ;
    }
    let scaled: u64 = (max_duty as u64) * (part as u64);
    let level: u64 = scaled / (step_count as u64);
    level as u32
}

/// How long each step is held when a half-cycle of `step_count + 1` steps is
/// to take about `half_cycle_ms` milliseconds.
pub fn step_period_for(half_cycle_ms: u32, step_count: u32) -> (period_ms: u32)
    requires
        step_count > 0,
    ensures
        period_ms == half_cycle_ms as int / step_count as int,
{
    half_cycle_ms / step_count
}

/// A half-cycle has `step_count + 1` steps, starts and ends at the two
/// extremes 0 and `max_duty`, never leaves that range and never turns back:
/// an ascending one does not fall, a descending one does not rise.
pub proof fn lemma_half_cycle_is_monotone(max_duty: int, step_count: int, direction: FadeDirection)
    requires
        0 <= max_duty,
        0 < step_count,
    ensures
        half_cycle(max_duty, step_count, direction).len() == step_count + 1,
        forall|i: int|
            0 <= i <= step_count ==> 0 <= #[trigger] half_cycle(max_duty, step_count, direction)[i]
                <= max_duty,
        direction == FadeDirection::Ascending ==> {
            &&& half_cycle(max_duty, step_count, direction)[0] == 0
            &&& half_cycle(max_duty, step_count, direction)[step_count] == max_duty
            &&& forall|i: int, j: int|
                0 <= i < j <= step_count ==> #[trigger] half_cycle(
                    max_duty,
                    step_count,
                    direction,
                )[i] <= #[trigger] half_cycle(max_duty, step_count, direction)[j]
        },
        direction == FadeDirection::Descending ==> {
            &&& half_cycle(max_duty, step_count, direction)[0] == max_duty
            &&& half_cycle(max_duty, step_count, direction)[step_count] == 0
            &&& forall|i: int, j: int|
                0 <= i < j <= step_count ==> #[trigger] half_cycle(
                    max_duty,
                    step_count,
                    direction,
                )[i] >= #[trigger] half_cycle(max_duty, step_count, direction)[j]
        },
{
    let cycle = half_cycle(max_duty, step_count, direction);
    assert forall|i: int| 0 <= i <= step_count implies 0 <= #[trigger] cycle[i] <= max_duty by {
        lemma_fraction_bounds(max_duty, i, step_count);
        lemma_fraction_bounds(max_duty, step_count - i, step_count);
    }
    lemma_fraction_bounds(max_duty, 0, step_count);
    lemma_fraction_bounds(max_duty, step_count, step_count);
    assert forall|i: int, j: int| 0 <= i < j <= step_count implies (direction
        == FadeDirection::Ascending ==> #[trigger] cycle[i] <= #[trigger] cycle[j]) && (direction
        == FadeDirection::Descending ==> cycle[i] >= cycle[j]) by {
        lemma_fraction_grows(max_duty, i, j, step_count);
        lemma_fraction_grows(max_duty, step_count - j, step_count - i, step_count);
    }
}

/// Once `max_duty` is at least `step_count`, every step of a half-cycle
/// drives a duty of its own: an ascending one rises with every step, a
/// descending one falls with every step, so the `step_count + 1` values are
/// pairwise distinct.
pub proof fn lemma_half_cycle_is_strict(max_duty: int, step_count: int, direction: FadeDirection)
    requires
        0 < step_count <= max_duty,
    ensures
        direction == FadeDirection::Ascending ==> forall|i: int, j: int|
            0 <= i < j <= step_count ==> #[trigger] half_cycle(max_duty, step_count, direction)[i]
                < #[trigger] half_cycle(max_duty, step_count, direction)[j],
        direction == FadeDirection::Descending ==> forall|i: int, j: int|
            0 <= i < j <= step_count ==> #[trigger] half_cycle(max_duty, step_count, direction)[i]
                > #[trigger] half_cycle(max_duty, step_count, direction)[j],
        half_cycle(max_duty, step_count, direction).no_duplicates(),
{
    let cycle = half_cycle(max_duty, step_count, direction);
    assert forall|i: int, j: int| 0 <= i < j <= step_count implies (direction
        == FadeDirection::Ascending ==> #[trigger] cycle[i] < #[trigger] cycle[j]) && (direction
        == FadeDirection::Descending ==> cycle[i] > cycle[j]) by {
        lemma_fraction_grows(max_duty, i, j, step_count);
        lemma_fraction_grows(max_duty, step_count - j, step_count - i, step_count);
    }
    assert forall|i: int, j: int| 0 <= i < cycle.len() && 0 <= j < cycle.len() && i != j implies cycle[i]
        != cycle[j] by {
        if i < j {
            assert(cycle[i] != cycle[j]);
        } else {
            assert(cycle[j] != cycle[i]);
        }
    }
}

} // verus!
