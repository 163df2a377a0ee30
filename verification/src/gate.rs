use vstd::prelude::*;

verus! {

/// How many simulation frames pass between two firings of the tick gate.
pub const TICK_THRESHOLD: usize = 20;

/// A tick gate: a counter that fires (returns `true`) once every
/// `threshold` calls of `increment` and then starts over from zero.
/// It decouples the mutation cadence from the frame cadence.
pub struct Counter {
    pub count: usize,
    pub threshold: usize,
}

impl Counter {
    /// Between firings the count stays strictly below the threshold.
    pub open spec fn wf(self) -> bool {
        self.count < self.threshold
    }

    pub fn new(threshold: usize) -> (r: Counter)
        requires
            threshold >= 1,
        ensures
            r.count == 0,
            r.threshold == threshold,
            r.wf(),
    {
        Counter { count: 0, threshold }
    }

    /// Counts one frame; fires exactly when this call makes the count reach
    /// the threshold, and then resets the count.
    pub fn increment(&mut self) -> (fired: bool)
        requires
            old(self).wf(),
        ensures
            final(self).threshold == old(self).threshold,
            fired == (old(self).count + 1 == old(self).threshold),
            final(self).count == (if fired { 0int } else { old(self).count + 1 }),
            final(self).wf(),
    {
        self.count += 1;
        let reached_threshold = self.count >= self.threshold;
        if reached_threshold {
            self.count = 0;
        }
        reached_threshold
    }
}

/// One gating decision for the current frame, on an explicit counter.
pub fn increment_counter(counter: &mut Counter) -> (fired: bool)
    requires
        old(counter).wf(),
    ensures
        final(counter).threshold == old(counter).threshold,
        fired == (old(counter).count + 1 == old(counter).threshold),
        final(counter).count == (if fired { 0int } else { old(counter).count + 1 }),
        final(counter).wf(),
{
    counter.increment()
}

/// Law: firing is periodic. If a counter's count stands at `k % t` (as it
/// does after `k` calls of `increment` on a fresh counter of threshold `t`),
/// then the next call fires exactly when `k + 1` is a multiple of `t`, and
/// leaves the count at `(k + 1) % t` — so `true` comes back exactly once
/// every `t` calls, and the count always lies in `[0, t)`.
pub proof fn lemma_gate_periodicity(prev: Counter, next: Counter, fired: bool, k: nat)
    requires
        prev.wf(),
        prev.count == k % (prev.threshold as nat),
        next.threshold == prev.threshold,
        fired == (prev.count + 1 == prev.threshold),
        next.count == (if fired { 0int } else { prev.count + 1 }),
    ensures
        fired == ((k + 1) % (prev.threshold as nat) == 0),
        next.count == (k + 1) % (prev.threshold as nat),
        0 <= next.count < next.threshold,
{
    let t = prev.threshold as int;
    let c = prev.count as int;
    let q = k as int / t;
    vstd::arithmetic::div_mod::lemma_fundamental_div_mod(k as int, t);
    if c + 1 == t {
        assert(k + 1 == (q + 1) * t + 0) by (nonlinear_arith)
            requires k as int == t * q + c && c + 1 == t;
        vstd::arithmetic::div_mod::lemma_fundamental_div_mod_converse_mod(
            k as int + 1, t, q + 1, 0);
    } else {
        assert(k + 1 == q * t + (c + 1)) by (nonlinear_arith)
            requires k as int == t * q + c;
        vstd::arithmetic::div_mod::lemma_fundamental_div_mod_converse_mod(
            k as int + 1, t, q, c + 1);
    }
}

} // verus!
