//! The fixed-timestep driver: wall-clock time (in nanoseconds) accumulates,
//! and each call drains the accumulator into a whole number of simulation
//! steps, leaving a fraction behind for presentation interpolation. The
//! number of steps and the final state depend only on the total accumulated
//! time, not on how the wall-clock deltas were chunked.

use vstd::prelude::*;
use crate::fx::FX_ONE;

verus! {

pub struct FixedTimestep {
    /// The leftover fraction of a step, as a fixed-point value in
    /// `[0, FX_ONE)`; purely cosmetic, never fed back into simulation.
    pub interpolation: i64,
    /// Length of one simulation step in nanoseconds.
    pub fixed_delta: u64,
    /// Wall-clock time not yet simulated, always less than `fixed_delta`.
    pub accumulator: u64,
}

impl FixedTimestep {
    pub open spec fn wf(self) -> bool {
        self.fixed_delta > 0 && self.accumulator < self.fixed_delta
    }

    /// How many whole steps an update with this much new time runs.
    pub open spec fn spec_steps(self, delta: int) -> int {
        (self.accumulator + delta) / (self.fixed_delta as int)
    }

    /// The accumulator left after an update with this much new time.
    pub open spec fn spec_leftover(self, delta: int) -> int {
        (self.accumulator + delta) % (self.fixed_delta as int)
    }

    pub fn with_fixed_fps(fixed_fps: u64) -> (r: FixedTimestep)
        requires
            0 < fixed_fps <= 1_000_000_000,
        ensures
            r.wf(),
            r.fixed_delta == 1_000_000_000u64 / fixed_fps,
            r.accumulator == 0,
            r.interpolation == 0,
    {
        proof {
            vstd::arithmetic::div_mod::lemma_div_non_zero(1_000_000_000, fixed_fps as int);
        }
        FixedTimestep {
            interpolation: 0,
            fixed_delta: 1_000_000_000 / fixed_fps,
            accumulator: 0,
        }
    }

    /// Feeds one wall-clock delta and returns how many simulation steps the
    /// caller must now run; the leftover fraction is exposed in
    /// `interpolation`.
    pub fn update(&mut self, delta: u64) -> (steps: u64)
        requires
            old(self).wf(),
            old(self).accumulator + delta <= u64::MAX,
        ensures
            final(self).wf(),
            final(self).fixed_delta == old(self).fixed_delta,
            steps as int == old(self).spec_steps(delta as int),
            final(self).accumulator as int == old(self).spec_leftover(delta as int),
            final(self).interpolation as int == (final(self).accumulator as int) * (
            FX_ONE as int) / (final(self).fixed_delta as int),
            0 <= final(self).interpolation < FX_ONE,
    {
        let total: u64 = self.accumulator + delta;
        let steps: u64 = total / self.fixed_delta;
        self.accumulator = total % self.fixed_delta;
        let scaled: u128 = (self.accumulator as u128) * (FX_ONE as u128);
        self.interpolation = (scaled / (self.fixed_delta as u128)) as i64;
        proof {
            let a = self.accumulator as int;
            let f = self.fixed_delta as int;
            vstd::arithmetic::div_mod::lemma_fundamental_div_mod(
                total as int,
                old(self).fixed_delta as int,
            );
            assert(a < f);
            assert(a * (FX_ONE as int) < f * (FX_ONE as int)) by (nonlinear_arith)
                requires
                    a < f,
            ;
            vstd::arithmetic::div_mod::lemma_multiply_divide_lt(
                a * (FX_ONE as int),
                f,
                FX_ONE as int,
            );
            assert(a * (FX_ONE as int) >= 0) by (nonlinear_arith)
                requires
                    a >= 0,
            ;
            vstd::arithmetic::div_mod::lemma_div_pos_is_pos(a * (FX_ONE as int), f);
        }
        steps
    }
}

/// Law: feeding wall-clock time in two chunks runs the same total number of
/// steps and leaves the same accumulator as feeding it in one, so the
/// simulated frame sequence depends only on total time.
pub proof fn lemma_fixed_timestep_chunking(ts: FixedTimestep, d1: int, d2: int)
    requires
        ts.wf(),
        d1 >= 0,
        d2 >= 0,
    ensures
        ({
            let mid = FixedTimestep { accumulator: ts.spec_leftover(d1) as u64, ..ts };
            mid.spec_leftover(d2) == ts.spec_leftover(d1 + d2) && ts.spec_steps(d1)
                + mid.spec_steps(d2) == ts.spec_steps(d1 + d2)
        }),
{
    let f = ts.fixed_delta as int;
    let a = ts.accumulator as int;
    let s1 = (a + d1) / f;
    let r1 = (a + d1) % f;
    vstd::arithmetic::div_mod::lemma_fundamental_div_mod(a + d1, f);
    vstd::arithmetic::div_mod::lemma_mod_bound(a + d1, f);
    let s2 = (r1 + d2) / f;
    let r2 = (r1 + d2) % f;
    vstd::arithmetic::div_mod::lemma_fundamental_div_mod(r1 + d2, f);
    vstd::arithmetic::div_mod::lemma_mod_bound(r1 + d2, f);
    assert(a + d1 + d2 == f * (s1 + s2) + r2) by (nonlinear_arith)
        requires
            a + d1 == f * s1 + r1,
            r1 + d2 == f * s2 + r2,
    ;
    vstd::arithmetic::div_mod::lemma_fundamental_div_mod_converse(a + d1 + d2, f, s1 + s2, r2);
    assert(r1 < f);
    assert((FixedTimestep { accumulator: ts.spec_leftover(d1) as u64, ..ts }).accumulator as int
        == r1);
}

} // verus!
