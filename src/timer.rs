use vstd::prelude::*;

use crate::constants::PERIOD_US;

verus! {

/// A repeating one-second timer. `just_finished` is a pulse: it holds for
/// the tick in which a period ended and is cleared by the next tick that
/// ends none.
pub struct SecondTimer {
    /// Time since the last period ended, in microseconds.
    pub elapsed_us: u64,
    /// Whether the last tick ended a period.
    pub finished: bool,
}

/// The timer after `delta` more microseconds.
pub open spec fn tick_spec(t: SecondTimer, delta: nat) -> SecondTimer {
    SecondTimer {
        elapsed_us: ((t.elapsed_us + delta) % (PERIOD_US as int)) as u64,
        finished: t.elapsed_us + delta >= PERIOD_US,
    }
}

impl SecondTimer {
    /// The elapsed time stays inside one period.
    pub open spec fn wf(&self) -> bool {
        self.elapsed_us < PERIOD_US
    }

    pub fn new() -> (r: Self)
        ensures
            r.wf(),
            r.elapsed_us == 0,
            !r.finished,
    {
        SecondTimer { elapsed_us: 0, finished: false }
    }

    /// Whether the last tick ended a period.
    pub fn just_finished(&self) -> (r: bool)
        ensures
            r == self.finished,
    {
        self.finished
    }

    /// Advances the timer by `delta_us` microseconds.
    pub fn tick(&mut self, delta_us: u64)
        requires
            old(self).wf(),
        ensures
            final(self).wf(),
            *final(self) == tick_spec(*old(self), delta_us as nat),
    {
        let to_end: u64 = PERIOD_US - self.elapsed_us;
        if delta_us >= to_end {
            let rest: u64 = delta_us - to_end;
            proof {
                let p = PERIOD_US as int;
                let e = self.elapsed_us as int;
                let d = delta_us as int;
                assert(e + d == (d - (p - e)) + p);
                vstd::arithmetic::div_mod::lemma_mod_add_multiples_vanish(d - (p - e), p);
            }
            self.elapsed_us = rest % PERIOD_US;
            self.finished = true;
        } else {
            proof {
                vstd::arithmetic::div_mod::lemma_small_mod(
                    (self.elapsed_us + delta_us) as nat,
                    PERIOD_US as nat,
                );
            }
            self.elapsed_us = self.elapsed_us + delta_us;
            self.finished = false;
        }
    }
}

/// The timer after ticks of the durations `ds`, in order.
pub open spec fn run_timer(t: SecondTimer, ds: Seq<nat>) -> SecondTimer
    decreases ds.len(),
{
    if ds.len() == 0 {
        t
    } else {
        tick_spec(run_timer(t, ds.drop_last()), ds.last())
    }
}

/// How many of the ticks of the durations `ds` end a period.
pub open spec fn pulse_count(t: SecondTimer, ds: Seq<nat>) -> nat
    decreases ds.len(),
{
    if ds.len() == 0 {
        0
    } else {
        pulse_count(t, ds.drop_last()) + if run_timer(t, ds).finished {
            1nat
        } else {
            0nat
        }
    }
}

/// The sum of the durations `ds`.
pub open spec fn total(ds: Seq<nat>) -> nat
    decreases ds.len(),
{
    if ds.len() == 0 {
        0
    } else {
        total(ds.drop_last()) + ds.last()
    }
}

proof fn lemma_mod_once(x: int, p: int)
    requires
        0 < p,
        0 <= x < 2 * p,
    ensures
        x % p == if x >= p {
            x - p
        } else {
            x
        },
{
    if x >= p {
        vstd::arithmetic::div_mod::lemma_mod_add_multiples_vanish(x - p, p);
        vstd::arithmetic::div_mod::lemma_small_mod((x - p) as nat, p as nat);
    } else {
        vstd::arithmetic::div_mod::lemma_small_mod(x as nat, p as nat);
    }
}

/// With no tick longer than a period, every microsecond ticked is either in
/// a completed period or in the elapsed time.
proof fn lemma_clock_accounting(t: SecondTimer, ds: Seq<nat>)
    requires
        t.wf(),
        forall|i: int| 0 <= i < ds.len() ==> #[trigger] ds[i] <= PERIOD_US,
    ensures
        run_timer(t, ds).wf(),
        pulse_count(t, ds) * PERIOD_US + run_timer(t, ds).elapsed_us == t.elapsed_us + total(ds),
    decreases ds.len(),
{
    if ds.len() > 0 {
        let dl = ds.drop_last();
        assert forall|i: int| 0 <= i < dl.len() implies #[trigger] dl[i] <= PERIOD_US by {
            assert(dl[i] == ds[i]);
        }
        lemma_clock_accounting(t, dl);
        let prev = run_timer(t, dl);
        assert(ds.last() == ds[ds.len() - 1]);
        lemma_mod_once(prev.elapsed_us + ds.last(), PERIOD_US as int);
    }
}

/// Ticking a fresh timer through durations of at most one period each,
/// summing to `total(ds)`, ends exactly `total(ds) / PERIOD_US` periods:
/// one pulse per full second, however the time is cut into ticks.
pub proof fn lemma_one_pulse_per_second(ds: Seq<nat>)
    requires
        forall|i: int| 0 <= i < ds.len() ==> #[trigger] ds[i] <= PERIOD_US,
    ensures
        pulse_count(SecondTimer { elapsed_us: 0, finished: false }, ds) == total(ds)
            / (PERIOD_US as nat),
{
    let t = SecondTimer { elapsed_us: 0, finished: false };
    lemma_clock_accounting(t, ds);
    vstd::arithmetic::div_mod::lemma_fundamental_div_mod_converse(
        total(ds) as int,
        PERIOD_US as int,
        pulse_count(t, ds) as int,
        run_timer(t, ds).elapsed_us as int,
    );
}

impl Default for SecondTimer {
    fn default() -> (r: Self)
        ensures
            r.wf(),
            r.elapsed_us == 0,
            !r.finished,
    {
        Self::new()
    }
}

} // verus!
