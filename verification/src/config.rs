//! Fiber count bounds and the defaults every front end starts from.

use vstd::prelude::*;

verus! {

/// Fewest fibers a lamp is built with.
pub const MIN_FIBERS: u32 = 10;

/// Most fibers a lamp is built with.
pub const MAX_FIBERS: u32 = 500;

/// Fibers in a lamp when nothing else is asked for.
pub const DEFAULT_FIBER_COUNT: u32 = 500;

/// Palette size when nothing else is asked for.
pub const DEFAULT_NCOLORS: u32 = 64;

/// Multisampling requested by the screensaver front ends when nothing else is asked for.
pub const DEFAULT_MSAA_SAMPLES: u32 = 4;

/// The fiber count kept from a requested one: the request moved into
/// `MIN_FIBERS..=MAX_FIBERS`.
pub open spec fn clamped_fiber_count(count: int) -> int {
    if count < MIN_FIBERS {
        MIN_FIBERS as int
    } else if count > MAX_FIBERS {
        MAX_FIBERS as int
    } else {
        count
    }
}

/// Moves a requested fiber count into the allowed range.
pub fn clamp_fiber_count(count: u32) -> (kept: u32)
    ensures
        kept == clamped_fiber_count(count as int),
        MIN_FIBERS <= kept <= MAX_FIBERS,
        count < MIN_FIBERS ==> kept == MIN_FIBERS,
        count > MAX_FIBERS ==> kept == MAX_FIBERS,
        MIN_FIBERS <= count <= MAX_FIBERS ==> kept == count,
{
    if count < MIN_FIBERS {
        MIN_FIBERS
    } else if count > MAX_FIBERS {
        MAX_FIBERS
    } else {
        count
    }
}

/// A count that is already allowed is kept as it is.
pub proof fn lemma_clamp_keeps_allowed(count: int)
    requires
        MIN_FIBERS <= count <= MAX_FIBERS,
    ensures
        clamped_fiber_count(count) == count,
{
}

/// The count kept is always allowed, and it is the allowed count nearest to
/// the request: the minimum below the range, the maximum above it.
pub proof fn lemma_clamp_nearest_allowed(count: int)
    ensures
        MIN_FIBERS <= clamped_fiber_count(count) <= MAX_FIBERS,
        count < MIN_FIBERS ==> clamped_fiber_count(count) == MIN_FIBERS,
        count > MAX_FIBERS ==> clamped_fiber_count(count) == MAX_FIBERS,
        forall|n: int|
            MIN_FIBERS <= n <= MAX_FIBERS ==> #[trigger] (n - count) * (n - count) >= (
            clamped_fiber_count(count) - count) * (clamped_fiber_count(count) - count),
{
    let k: int = clamped_fiber_count(count);
    assert forall|n: int| MIN_FIBERS <= n <= MAX_FIBERS implies #[trigger] (n - count) * (n
        - count) >= (k - count) * (k - count) by {
        if count < MIN_FIBERS {
            assert((n - count) * (n - count) >= (k - count) * (k - count)) by (nonlinear_arith)
                requires
                    n >= k,
                    k > count,
            ;
        } else if count > MAX_FIBERS {
            assert((n - count) * (n - count) >= (k - count) * (k - count)) by (nonlinear_arith)
                requires
                    n <= k,
                    k < count,
            ;
        } else {
            assert((n - count) * (n - count) >= (k - count) * (k - count)) by (nonlinear_arith)
                requires
                    k == count,
            ;
        }
    }
}

/// Clamping twice gives what clamping once gives.
pub proof fn lemma_clamp_idempotent(count: int)
    ensures
        clamped_fiber_count(clamped_fiber_count(count)) == clamped_fiber_count(count),
{
}

/// Asking for more fibers never gives fewer.
pub proof fn lemma_clamp_monotone(a: int, b: int)
    requires
        a <= b,
    ensures
        clamped_fiber_count(a) <= clamped_fiber_count(b),
{
}

/// The default fiber count is an allowed one, so clamping leaves it alone.
pub proof fn lemma_default_fiber_count_allowed()
    ensures
        clamped_fiber_count(DEFAULT_FIBER_COUNT as int) == DEFAULT_FIBER_COUNT,
{
}

} // verus!
