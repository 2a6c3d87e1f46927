//! Laws of the engine, proved over the spec-level model.
//!
//! Each public proof function here states a property of the model functions
//! (`step_model`, `run_from`, `run_model`, `outputs_from`) that every engine
//! obeys through the contracts of `new`, `update`, `update_batch` and
//! `reset`.

use vstd::prelude::*;

use crate::zscore::{
    evicts_reference, init_model, lemma_run_from_snoc, outputs_from, reset_model, run_from,
    run_model, step_model, EngineModel,
};

verus! {

/// The last `n` elements of a sequence, or the whole sequence if it is
/// shorter than `n`.
pub open spec fn last_n(s: Seq<u64>, n: int) -> Seq<u64> {
    if s.len() <= n {
        s
    } else {
        s.subrange(s.len() - n, s.len() as int)
    }
}

/// One step turns the window into the last `lookback` elements of the old
/// window with the new observation appended, and never lets it outgrow the
/// bound.
pub proof fn lemma_step_window(m: EngineModel, x: u64)
    requires
        m.lookback >= 1,
        m.window.len() <= m.lookback,
    ensures
        step_model(m, x).lookback == m.lookback,
        step_model(m, x).window == last_n(m.window.push(x), m.lookback),
        step_model(m, x).window.len() <= m.lookback,
        step_model(m, x).window.len() == if m.window.len() < m.lookback {
            m.window.len() + 1
        } else {
            m.lookback as nat
        },
{
    let w1 = m.window.push(x);
    if w1.len() > m.lookback {
        assert(w1.len() == m.lookback + 1);
        assert(w1.subrange(1, w1.len() as int) =~= last_n(w1, m.lookback));
    } else {
        assert(last_n(w1, m.lookback) == w1);
    }
}

/// Keeping only the last `n` elements before appending more does not change
/// the last `n` elements of the whole.
proof fn lemma_last_n_absorbs(s: Seq<u64>, t: Seq<u64>, n: int)
    requires
        n >= 0,
    ensures
        last_n(last_n(s, n) + t, n) == last_n(s + t, n),
{
    if s.len() <= n {
        assert(last_n(s, n) + t =~= s + t);
    } else {
        let cut = s.subrange(s.len() - n, s.len() as int);
        assert((cut + t).len() == n + t.len());
        if t.len() == 0 {
            assert(cut + t =~= cut);
            assert(s + t =~= s);
            assert(last_n(cut, n) == cut);
            assert(last_n(s, n) == cut);
        } else {
            assert(last_n(cut + t, n) =~= last_n(s + t, n)) by {
                let l = (cut + t).len();
                let a = (cut + t).subrange(l - n, l as int);
                let sl = (s + t).len();
                let b = (s + t).subrange(sl - n, sl as int);
                assert(a.len() == b.len());
                assert forall|i: int| 0 <= i < a.len() implies a[i] == b[i] by {
                    assert(a[i] == (cut + t)[l - n + i]);
                    assert(b[i] == (s + t)[sl - n + i]);
                }
            }
        }
    }
}

/// After any run, the window holds exactly the last `lookback` elements of
/// the old window followed by the inserted sequence.
pub proof fn lemma_run_window(m: EngineModel, xs: Seq<u64>)
    requires
        m.lookback >= 1,
        m.window.len() <= m.lookback,
    ensures
        run_from(m, xs).lookback == m.lookback,
        run_from(m, xs).window == last_n(m.window + xs, m.lookback),
        run_from(m, xs).window.len() <= m.lookback,
    decreases xs.len(),
{
    if xs.len() == 0 {
        assert(m.window + xs =~= m.window);
    } else {
        let x0 = xs[0];
        let tail = xs.subrange(1, xs.len() as int);
        let m1 = step_model(m, x0);
        lemma_step_window(m, x0);
        lemma_run_window(m1, tail);
        lemma_last_n_absorbs(m.window.push(x0), tail, m.lookback);
        assert(m.window.push(x0) + tail =~= m.window + xs);
    }
}

/// After every insertion the window count equals the smaller of the number
/// of insertions since the last reset and the lookback.
pub proof fn lemma_count_matches_insertions(lookback: int, xs: Seq<u64>)
    requires
        lookback >= 2,
    ensures
        run_model(lookback, xs).window.len() == if xs.len() <= lookback {
            xs.len() as int
        } else {
            lookback
        },
{
    lemma_run_window(init_model(lookback), xs);
    assert(Seq::<u64>::empty() + xs =~= xs);
}

/// The engine becomes ready exactly upon the `lookback`-th insertion, and
/// one further insertion never takes readiness away; short of a reset it
/// therefore remains ready thereafter.
pub proof fn lemma_ready_monotonic(lookback: int, xs: Seq<u64>, x: u64)
    requires
        lookback >= 2,
    ensures
        run_model(lookback, xs).window.len() >= lookback <==> xs.len() >= lookback,
        run_model(lookback, xs).window.len() >= lookback ==> run_model(
            lookback,
            xs.push(x),
        ).window.len() >= lookback,
{
    lemma_count_matches_insertions(lookback, xs);
    lemma_count_matches_insertions(lookback, xs.push(x));
}

/// The window holds exactly the most recent observations, oldest first: the
/// last `lookback` of the inserted sequence.
pub proof fn lemma_window_holds_latest(lookback: int, xs: Seq<u64>)
    requires
        lookback >= 2,
    ensures
        run_model(lookback, xs).window == last_n(xs, lookback),
{
    lemma_run_window(init_model(lookback), xs);
    assert(Seq::<u64>::empty() + xs =~= xs);
}

/// A reset followed by replaying a sequence reproduces, bit for bit, the
/// states and the outputs of a freshly constructed engine with the same
/// lookback fed the same sequence.
pub proof fn lemma_reset_replay(m: EngineModel, xs: Seq<u64>)
    ensures
        run_from(reset_model(m), xs) == run_from(init_model(m.lookback), xs),
        outputs_from(reset_model(m), xs) == outputs_from(init_model(m.lookback), xs),
{
}

/// The reference value is always one of the observations inserted since the
/// last reset: it is adopted from the first observation of an epoch and
/// re-chosen only from within the window.
pub proof fn lemma_reference_is_an_observation(lookback: int, xs: Seq<u64>)
    requires
        lookback >= 2,
        xs.len() > 0,
    ensures
        xs.contains(run_model(lookback, xs).k),
    decreases xs.len(),
{
    if xs.len() == 1 {
        assert(xs.subrange(1, xs.len() as int) =~= Seq::<u64>::empty());
        let m1 = step_model(init_model(lookback), xs[0]);
        assert(m1.k == xs[0]);
        assert(run_model(lookback, xs) == run_from(m1, xs.subrange(1, xs.len() as int)));
        assert(run_from(m1, Seq::<u64>::empty()) == m1);
        assert(run_model(lookback, xs).k == xs[0]);
        assert(xs.contains(xs[0]));
    } else {
        let ys = xs.subrange(0, xs.len() - 1);
        let x = xs[xs.len() - 1];
        assert(ys.push(x) =~= xs);
        lemma_run_from_snoc(init_model(lookback), ys, x);
        let m = run_model(lookback, ys);
        let mm = step_model(m, x);
        assert(run_model(lookback, xs) == mm);
        lemma_reference_is_an_observation(lookback, ys);
        lemma_run_window(init_model(lookback), ys);
        assert(Seq::<u64>::empty() + ys =~= ys);
        assert(m.window == last_n(ys, lookback));
        assert(m.window.len() >= 1);
        let i = choose|i: int| 0 <= i < ys.len() && ys[i] == m.k;
        assert(xs[i] == m.k);
        assert(xs.contains(m.k));
        let w1 = m.window.push(x);
        if w1.len() > m.lookback {
            assert(m.window.len() == lookback);
            let w2 = w1.subrange(1, w1.len() as int);
            if evicts_reference(w1[0], m.k) && w2.len() > 0 {
                assert(mm.k == w2[0]);
                assert(w2[0] == w1[1]);
                assert(w1[1] == m.window[1]);
                let start: int = if ys.len() <= lookback {
                    0
                } else {
                    ys.len() - lookback
                };
                assert(m.window[1] == ys[start + 1]);
                assert(xs[start + 1] == m.window[1]);
                assert(xs.contains(mm.k));
            } else {
                assert(mm.k == m.k);
            }
        } else {
            assert(mm.k == m.k);
        }
    }
}

} // verus!
