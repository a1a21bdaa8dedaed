//! The lamp's bump schedule: every so many steps the base of the lamp is
//! knocked, which sets the fibers swaying.

use vstd::prelude::*;

verus! {

/// Steps between two bumps of a new lamp, less one.
pub const DEFAULT_CYCLES: u32 = 10000;

/// Counts simulation steps and says on which ones the lamp is bumped.
#[derive(Clone, Copy, Debug)]
pub struct BumpTimer {
    /// Steps counted since the last bump.
    pub bump_counter: u32,
    /// A bump comes on the step that takes the counter past this value.
    pub cycles: u32,
}

/// The counter after one step.
pub open spec fn next_counter(counter: int, cycles: int) -> int {
    if counter + 1 > cycles {
        0
    } else {
        counter + 1
    }
}

/// Whether the step taken from `counter` bumps the lamp.
pub open spec fn bumps_after(counter: int, cycles: int) -> bool {
    counter + 1 > cycles
}

/// The counter after `n` steps.
pub open spec fn counter_after(counter: int, cycles: int, n: nat) -> int
    decreases n,
{
    if n == 0 {
        counter
    } else {
        next_counter(counter_after(counter, cycles, (n - 1) as nat), cycles)
    }
}

impl BumpTimer {
    /// The schedule of a new lamp: nothing counted yet, a bump every
    /// `DEFAULT_CYCLES + 1` steps.
    pub fn new() -> (timer: Self)
        ensures
            timer.bump_counter == 0,
            timer.cycles == DEFAULT_CYCLES,
    {
        BumpTimer { bump_counter: 0, cycles: DEFAULT_CYCLES }
    }

    /// Counts one step and says whether the lamp is bumped on it; on a bump
    /// the counter starts again from zero.
    pub fn tick(&mut self) -> (bumped: bool)
        requires
            old(self).bump_counter < u32::MAX,
        ensures
            bumped == bumps_after(old(self).bump_counter as int, old(self).cycles as int),
            final(self).bump_counter == next_counter(
                old(self).bump_counter as int,
                old(self).cycles as int,
            ),
            final(self).cycles == old(self).cycles,
    {
        self.bump_counter = self.bump_counter + 1;
        if self.bump_counter > self.cycles {
            self.bump_counter = 0;
            true
        } else {
            false
        }
    }
}

/// One step moves the counter forward by one, modulo `cycles + 1`.
proof fn lemma_step_mod(x: int, m: int)
    requires
        0 <= x,
        1 <= m,
    ensures
        next_counter(x % m, m - 1) == (x + 1) % m,
        bumps_after(x % m, m - 1) == ((x + 1) % m == 0),
{
    vstd::arithmetic::div_mod::lemma_fundamental_div_mod(x, m);
    let q: int = x / m;
    let c: int = x % m;
    assert(0 <= c < m) by {
        vstd::arithmetic::div_mod::lemma_mod_pos_bound(x, m);
    }
    if c + 1 < m {
        assert(x + 1 == q * m + (c + 1)) by (nonlinear_arith)
            requires
                x == m * q + c,
        ;
        vstd::arithmetic::div_mod::lemma_fundamental_div_mod_converse(x + 1, m, q, c + 1);
    } else {
        assert(x + 1 == (q + 1) * m + 0) by (nonlinear_arith)
            requires
                x == m * q + c,
                c + 1 == m,
        ;
        vstd::arithmetic::div_mod::lemma_fundamental_div_mod_converse(x + 1, m, q + 1, 0);
    }
}

/// From a counter within its range, the counter after `n` steps is the
/// number of steps counted so far modulo `cycles + 1`: the lamp is bumped
/// once every `cycles + 1` steps, and on no other step.
pub proof fn lemma_bump_period(counter: int, cycles: int, n: nat)
    requires
        0 <= counter <= cycles,
    ensures
        counter_after(counter, cycles, n) == (counter + n) % (cycles + 1),
        n >= 1 ==> (bumps_after(counter_after(counter, cycles, (n - 1) as nat), cycles) <==> (
        counter + n) % (cycles + 1) == 0),
    decreases n,
{
    let m: int = cycles + 1;
    if n == 0 {
        vstd::arithmetic::div_mod::lemma_small_mod(counter as nat, m as nat);
    } else {
        lemma_bump_period(counter, cycles, (n - 1) as nat);
        lemma_step_mod(counter + n - 1, m);
    }
}

/// A new lamp is first bumped on step `DEFAULT_CYCLES + 1`, and not before.
pub proof fn lemma_first_bump_of_new_lamp(n: nat)
    requires
        1 <= n <= DEFAULT_CYCLES + 1,
    ensures
        bumps_after(counter_after(0, DEFAULT_CYCLES as int, (n - 1) as nat), DEFAULT_CYCLES as int)
            <==> n == DEFAULT_CYCLES + 1,
{
    lemma_bump_period(0, DEFAULT_CYCLES as int, n);
    let m: int = DEFAULT_CYCLES + 1;
    if n < m {
        vstd::arithmetic::div_mod::lemma_small_mod(n, m as nat);
    } else {
        vstd::arithmetic::div_mod::lemma_mod_self_0(m);
    }
}

} // verus!
