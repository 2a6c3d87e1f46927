//! The rolling Z-score engine.
//!
//! The engine keeps the most recent `lookback` observations in a sliding
//! window and scores each new observation against the window's mean and
//! standard deviation. To stay accurate at large magnitudes it accumulates
//! the sums `ex = sum of (x - k)` and `ex2 = sum of (x - k)^2` relative to a
//! reference value `k` drawn from the window (the shifted-data algorithm),
//! and re-anchors those sums with an exact algebraic shift whenever the
//! observation serving as reference leaves the window.
//!
//! Every observation, sum and result is an IEEE 754 binary64 bit pattern
//! (`u64`); see the `fp` module. The behaviour of every operation is pinned
//! down, bit for bit, by the spec-level model in this module: `step_model`
//! describes one insertion, `run_from` a whole sequence of them.

use std::collections::VecDeque;
use vstd::prelude::*;

use crate::fp::{
    abs_bits, add_bits, div_bits, fadd, fdiv, flt, fmul, fp_of_uint, fsqrt, fsub, lt_bits, mag_of,
    mul_bits, of_uint_bits, sqrt_full, sub_bits, ONE_BITS, TOL_BITS, TWO_BITS,
};

verus! {

/// Spec-level state of an engine: the configured window bound, the window
/// contents (oldest first), the reference value `k`, and the two shifted
/// accumulators, all as binary64 bit patterns.
#[verifier::ext_equal]
pub ghost struct EngineModel {
    pub lookback: int,
    pub window: Seq<u64>,
    pub k: u64,
    pub ex: u64,
    pub ex2: u64,
}

/// The state of a freshly constructed engine: empty window, zero reference,
/// zero sums.
pub open spec fn init_model(lookback: int) -> EngineModel {
    EngineModel { lookback, window: Seq::empty(), k: 0u64, ex: 0u64, ex2: 0u64 }
}

/// The state after a reset: identical to a freshly constructed engine with
/// the same lookback.
pub open spec fn reset_model(m: EngineModel) -> EngineModel {
    init_model(m.lookback)
}

/// Whether the evicted front element is recognised as the current reference:
/// its absolute difference from the reference is below the tolerance.
pub open spec fn evicts_reference(front: u64, k: u64) -> bool {
    lt_bits(mag_of(sub_bits(front, k)), TOL_BITS)
}

/// One insertion, exactly as the engine performs it:
/// 1. an empty window adopts the observation as reference `k`;
/// 2. the observation is appended and the shifted sums absorb it;
/// 3. if the window now exceeds the bound, the oldest element is removed and
///    the sums release it;
/// 4. if the removed element was recognised as the reference and the window
///    is still non-empty, the new front becomes the reference and the sums
///    are re-centred by the exact algebraic shift identity.
pub open spec fn step_model(m: EngineModel, x: u64) -> EngineModel {
    let k0 = if m.window.len() == 0 {
        x
    } else {
        m.k
    };
    let dx = sub_bits(x, k0);
    let ex_in = add_bits(m.ex, dx);
    let ex2_in = add_bits(m.ex2, mul_bits(dx, dx));
    let w1 = m.window.push(x);
    if w1.len() > m.lookback {
        let front = w1[0];
        let removing_k = evicts_reference(front, k0);
        let dxo = sub_bits(front, k0);
        let ex_out = sub_bits(ex_in, dxo);
        let ex2_out = sub_bits(ex2_in, mul_bits(dxo, dxo));
        let w2 = w1.subrange(1, w1.len() as int);
        if removing_k && w2.len() > 0 {
            let k_new = w2[0];
            let shift = sub_bits(k0, k_new);
            let nf = of_uint_bits(w2.len() as u64);
            let ex_re = add_bits(ex_out, mul_bits(nf, shift));
            let ex2_re = add_bits(
                add_bits(ex2_out, mul_bits(mul_bits(TWO_BITS, shift), ex_out)),
                mul_bits(mul_bits(nf, shift), shift),
            );
            EngineModel { lookback: m.lookback, window: w2, k: k_new, ex: ex_re, ex2: ex2_re }
        } else {
            EngineModel { lookback: m.lookback, window: w2, k: k0, ex: ex_out, ex2: ex2_out }
        }
    } else {
        EngineModel { lookback: m.lookback, window: w1, k: k0, ex: ex_in, ex2: ex2_in }
    }
}

/// The state after inserting every element of `xs`, oldest first, starting
/// from `m`.
pub open spec fn run_from(m: EngineModel, xs: Seq<u64>) -> EngineModel
    decreases xs.len(),
{
    if xs.len() == 0 {
        m
    } else {
        run_from(step_model(m, xs[0]), xs.subrange(1, xs.len() as int))
    }
}

/// The state of a fresh engine with the given lookback after inserting every
/// element of `xs`.
pub open spec fn run_model(lookback: int, xs: Seq<u64>) -> EngineModel {
    run_from(init_model(lookback), xs)
}

/// The bits of the window's count as a binary64 value.
pub open spec fn count_bits(m: EngineModel) -> u64 {
    of_uint_bits(m.window.len() as u64)
}

/// The sample variance of the window, by the shifted-data formula
/// `(ex2 - ex^2 / n) / (n - 1)`, as binary64 bits.
pub open spec fn variance_bits(m: EngineModel) -> u64 {
    let nf = count_bits(m);
    div_bits(sub_bits(m.ex2, div_bits(mul_bits(m.ex, m.ex), nf)), sub_bits(nf, ONE_BITS))
}

/// The window mean `k + ex / n`, as binary64 bits.
pub open spec fn mean_bits(m: EngineModel) -> u64 {
    add_bits(m.k, div_bits(m.ex, count_bits(m)))
}

/// The Z-score of the observation `x` against the window: exactly zero when
/// the variance is below the tolerance, and otherwise
/// `(x - mean) / sqrt(variance)`.
pub open spec fn zscore_bits(m: EngineModel, x: u64) -> u64 {
    if lt_bits(variance_bits(m), TOL_BITS) {
        0u64
    } else {
        div_bits(sub_bits(x, mean_bits(m)), sqrt_full(variance_bits(m)))
    }
}

/// What an insertion or a read-only score query returns: no value while the
/// window holds fewer than `lookback` observations, and the Z-score once it
/// is full.
pub open spec fn zscore_out(m: EngineModel, x: u64) -> Option<u64> {
    if m.window.len() < m.lookback {
        None
    } else {
        Some(zscore_bits(m, x))
    }
}

/// The standard deviation reported by the engine: the variance clamped to
/// zero if rounding made it negative, and its square root otherwise.
pub open spec fn std_bits(m: EngineModel) -> u64 {
    if lt_bits(variance_bits(m), 0u64) {
        0u64
    } else {
        sqrt_full(variance_bits(m))
    }
}

/// What a batch insertion returns: the result of the final insertion, or no
/// value for an empty batch.
pub open spec fn batch_out(m: EngineModel, xs: Seq<u64>) -> Option<u64>
    decreases xs.len(),
{
    if xs.len() == 0 {
        None
    } else if xs.len() == 1 {
        zscore_out(step_model(m, xs[0]), xs[0])
    } else {
        batch_out(step_model(m, xs[0]), xs.subrange(1, xs.len() as int))
    }
}

/// The sequence of results of inserting every element of `xs` in turn,
/// starting from `m`.
pub open spec fn outputs_from(m: EngineModel, xs: Seq<u64>) -> Seq<Option<u64>>
    decreases xs.len(),
{
    if xs.len() == 0 {
        Seq::empty()
    } else {
        seq![zscore_out(step_model(m, xs[0]), xs[0])] + outputs_from(
            step_model(m, xs[0]),
            xs.subrange(1, xs.len() as int),
        )
    }
}

/// A rolling Z-score engine over a sliding window of binary64 observations,
/// using the shifted-data algorithm for numerical stability at large
/// magnitudes. All observations and results are bit patterns (`u64`).
pub struct ZScoreEngine {
    prices: VecDeque<u64>,
    lookback: usize,
    k: u64,
    ex: u64,
    ex2: u64,
}

impl View for ZScoreEngine {
    type V = EngineModel;

    closed spec fn view(&self) -> EngineModel {
        EngineModel {
            lookback: self.lookback as int,
            window: self.prices@,
            k: self.k,
            ex: self.ex,
            ex2: self.ex2,
        }
    }
}

impl ZScoreEngine {
    /// A structurally valid engine: a viable window bound, never exceeded by
    /// the window.
    pub open spec fn wf(self) -> bool {
        &&& self@.lookback >= 2
        &&& self@.window.len() <= self@.lookback
    }

    /// Create an engine with the given window bound. A window of one
    /// observation has no sample variance, so the bound must exceed one.
    pub fn new(lookback: usize) -> (engine: Self)
        requires
            1 < lookback < usize::MAX,
        ensures
            engine@ == init_model(lookback as int),
            engine.wf(),
    {
        let engine = ZScoreEngine {
            prices: VecDeque::with_capacity(lookback + 1),
            lookback,
            k: 0,
            ex: 0,
            ex2: 0,
        };
        proof {
            assert(engine@ =~= init_model(lookback as int));
        }
        engine
    }

    /// Insert an observation and return its Z-score, or no value while the
    /// window is still warming up. The new state is exactly one model step
    /// from the old.
    pub fn update(&mut self, price: u64) -> (r: Option<u64>)
        requires
            old(self).wf(),
        ensures
            final(self)@ == step_model(old(self)@, price),
            final(self).wf(),
            r == zscore_out(final(self)@, price),
            r is Some <==> final(self)@.window.len() == final(self)@.lookback,
    {
        if self.prices.len() == 0 {
            self.k = price;
        }
        let dx = fsub(price, self.k);
        self.ex = fadd(self.ex, dx);
        self.ex2 = fadd(self.ex2, fmul(dx, dx));
        self.prices.push_back(price);

        if self.prices.len() > self.lookback {
            let front = self.prices[0];
            let dxo = fsub(front, self.k);
            let removing_k = flt(abs_bits(dxo), TOL_BITS);
            let _ = self.prices.pop_front();
            self.ex = fsub(self.ex, dxo);
            self.ex2 = fsub(self.ex2, fmul(dxo, dxo));

            if removing_k && self.prices.len() > 0 {
                let k_new = self.prices[0];
                let old_k = self.k;
                self.k = k_new;
                let shift = fsub(old_k, k_new);
                let nf = fp_of_uint(self.prices.len() as u64);
                let ex_out = self.ex;
                self.ex = fadd(ex_out, fmul(nf, shift));
                self.ex2 = fadd(
                    fadd(self.ex2, fmul(fmul(TWO_BITS, shift), ex_out)),
                    fmul(fmul(nf, shift), shift),
                );
            }
        }
        proof {
            assert(self@ =~= step_model(old(self)@, price));
        }
        self.calculate_zscore(price)
    }

    /// The Z-score of the most recent observation against the current
    /// window, without inserting anything.
    pub fn get_zscore(&self) -> (r: Option<u64>)
        ensures
            r == if self@.window.len() == 0 {
                Option::<u64>::None
            } else {
                zscore_out(self@, self@.window.last())
            },
    {
        if self.prices.len() == 0 {
            None
        } else {
            let current = self.prices[self.prices.len() - 1];
            self.calculate_zscore(current)
        }
    }

    /// The window mean `k + ex / n`, defined once the window holds at least
    /// two observations.
    pub fn get_mean(&self) -> (r: Option<u64>)
        ensures
            r == if self@.window.len() >= 2 {
                Option::Some(mean_bits(self@))
            } else {
                Option::<u64>::None
            },
    {
        let n = self.prices.len();
        if n >= 2 {
            Some(fadd(self.k, fdiv(self.ex, fp_of_uint(n as u64))))
        } else {
            None
        }
    }

    /// The window standard deviation, defined once the window holds at least
    /// two observations; a variance driven negative by rounding is clamped
    /// to zero rather than rejected.
    pub fn get_std(&self) -> (r: Option<u64>)
        ensures
            r == if self@.window.len() >= 2 {
                Option::Some(std_bits(self@))
            } else {
                Option::<u64>::None
            },
    {
        let n = self.prices.len();
        if n >= 2 {
            let nf = fp_of_uint(n as u64);
            let variance = fdiv(
                fsub(self.ex2, fdiv(fmul(self.ex, self.ex), nf)),
                fsub(nf, ONE_BITS),
            );
            if flt(variance, 0) {
                Some(0)
            } else {
                Some(fsqrt(variance))
            }
        } else {
            None
        }
    }

    /// Clear the window and zero the reference and both sums, restoring the
    /// just-constructed state with the same lookback.
    pub fn reset(&mut self)
        requires
            old(self).wf(),
        ensures
            final(self)@ == reset_model(old(self)@),
            final(self).wf(),
    {
        self.prices.clear();
        self.k = 0;
        self.ex = 0;
        self.ex2 = 0;
        proof {
            assert(self@ =~= reset_model(old(self)@));
        }
    }

    /// Whether the window has accumulated at least `lookback` observations.
    pub fn is_ready(&self) -> (r: bool)
        ensures
            r == (self@.window.len() >= self@.lookback),
    {
        self.prices.len() >= self.lookback
    }

    /// The number of observations currently in the window.
    pub fn count(&self) -> (r: usize)
        ensures
            r == self@.window.len(),
    {
        self.prices.len()
    }

    /// The configured window bound.
    pub fn lookback(&self) -> (r: usize)
        ensures
            r == self@.lookback,
    {
        self.lookback
    }

    /// The observations currently in the window, oldest first.
    pub fn get_prices(&self) -> (r: Vec<u64>)
        ensures
            r@ == self@.window,
    {
        let mut out: Vec<u64> = Vec::new();
        let n = self.prices.len();
        for i in 0..n
            invariant
                n == self.prices@.len(),
                out@ == self.prices@.subrange(0, i as int),
        {
            out.push(self.prices[i]);
            proof {
                assert(out@ =~= self.prices@.subrange(0, i + 1 as int));
            }
        }
        proof {
            assert(out@ =~= self@.window);
        }
        out
    }

    /// Insert every observation of the batch in order and return the final
    /// insertion's result, or no value for an empty batch.
    pub fn update_batch(&mut self, prices: Vec<u64>) -> (r: Option<u64>)
        requires
            old(self).wf(),
        ensures
            final(self)@ == run_from(old(self)@, prices@),
            final(self).wf(),
            r == batch_out(old(self)@, prices@),
    {
        let mut result: Option<u64> = None;
        let n = prices.len();
        for i in 0..n
            invariant
                self.wf(),
                n == prices@.len(),
                self@ == run_from(old(self)@, prices@.subrange(0, i as int)),
                result == batch_out(old(self)@, prices@.subrange(0, i as int)),
        {
            result = self.update(prices[i]);
            proof {
                lemma_run_from_snoc(old(self)@, prices@.subrange(0, i as int), prices@[i as int]);
                lemma_batch_out_snoc(old(self)@, prices@.subrange(0, i as int), prices@[i as int]);
                assert(prices@.subrange(0, i as int).push(prices@[i as int]) =~= prices@.subrange(
                    0,
                    i + 1 as int,
                ));
            }
        }
        proof {
            assert(prices@.subrange(0, n as int) =~= prices@);
        }
        result
    }

    /// The Z-score of `current_price` against the current window, or no
    /// value while the window holds fewer than `lookback` observations.
    fn calculate_zscore(&self, current_price: u64) -> (r: Option<u64>)
        ensures
            r == zscore_out(self@, current_price),
    {
        if self.prices.len() < self.lookback {
            return None;
        }
        let nf = fp_of_uint(self.prices.len() as u64);
        let variance = fdiv(
            fsub(self.ex2, fdiv(fmul(self.ex, self.ex), nf)),
            fsub(nf, ONE_BITS),
        );
        if flt(variance, TOL_BITS) {
            return Some(0);
        }
        let std_dev = fsqrt(variance);
        let mean = fadd(self.k, fdiv(self.ex, nf));
        Some(fdiv(fsub(current_price, mean), std_dev))
    }
}

/// Running a sequence and then one more observation is one step on the state
/// the sequence reached.
pub proof fn lemma_run_from_snoc(m: EngineModel, xs: Seq<u64>, x: u64)
    ensures
        run_from(m, xs.push(x)) == step_model(run_from(m, xs), x),
    decreases xs.len(),
{
    let ys = xs.push(x);
    if xs.len() == 0 {
        assert(ys[0] == x);
        assert(ys.subrange(1, ys.len() as int) =~= Seq::<u64>::empty());
        assert(run_from(m, ys) == run_from(step_model(m, x), ys.subrange(1, ys.len() as int)));
        assert(run_from(m, xs) == m);
    } else {
        let tail = xs.subrange(1, xs.len() as int);
        assert(ys[0] == xs[0]);
        assert(ys.subrange(1, ys.len() as int) =~= tail.push(x));
        lemma_run_from_snoc(step_model(m, xs[0]), tail, x);
        assert(run_from(m, ys) == run_from(step_model(m, ys[0]), ys.subrange(1, ys.len() as int)));
        assert(run_from(m, xs) == run_from(step_model(m, xs[0]), tail));
    }
}

/// The result of a batch is the score of its last observation against the
/// state reached after inserting all of it.
pub proof fn lemma_batch_out_snoc(m: EngineModel, xs: Seq<u64>, x: u64)
    ensures
        batch_out(m, xs.push(x)) == zscore_out(run_from(m, xs.push(x)), x),
    decreases xs.len(),
{
    lemma_run_from_snoc(m, xs, x);
    if xs.len() == 0 {
        assert(xs.push(x)[0] == x);
    } else {
        let ys = xs.push(x);
        assert(ys[0] == xs[0]);
        assert(ys.subrange(1, ys.len() as int) =~= xs.subrange(1, xs.len() as int).push(x));
        lemma_batch_out_snoc(step_model(m, xs[0]), xs.subrange(1, xs.len() as int), x);
    }
}


} // verus!
