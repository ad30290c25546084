//! Pacing of the independently clocked activities: instruction execution and
//! timer decay each run at their own fixed period, on clocks in microseconds.
use vstd::prelude::*;

verus! {

/// Paces one activity: activation `k` (from 1) is due at `k * period_us`.
#[derive(Clone, Copy, Debug, PartialEq, Eq, Structural)]
pub struct Pacer {
    /// Microseconds between activations; positive.
    pub period_us: u64,
    /// Activations handed out so far.
    pub done: u64,
}

/// The pacer once the clock reads `now_us`: every activation due by then
/// counts as handed out.
pub open spec fn pacer_at(p: Pacer, now_us: u64) -> Pacer {
    Pacer {
        period_us: p.period_us,
        done: if p.done >= now_us / p.period_us { p.done } else { (now_us / p.period_us) as u64 },
    }
}

impl Pacer {
    pub fn new(period_us: u64) -> (r: Pacer)
        requires
            period_us > 0,
        ensures
            r == (Pacer { period_us, done: 0 }),
    {
        Pacer { period_us, done: 0 }
    }

    /// How many activations became due since the last call, when the clock
    /// reads `now_us`.
    pub fn due(&mut self, now_us: u64) -> (r: u64)
        requires
            old(self).period_us > 0,
        ensures
            *final(self) == pacer_at(*old(self), now_us),
            r == final(self).done - old(self).done,
    {
        let total = now_us / self.period_us;
        if total > self.done {
            let r = total - self.done;
            self.done = total;
            r
        } else {
            0
        }
    }

    /// How long to sleep after an activation that took `elapsed_us`: the rest
    /// of the period, or `None` when the activation overran its period.
    pub fn remaining(&self, elapsed_us: u64) -> (r: Option<u64>)
        ensures
            elapsed_us < self.period_us ==> r == Some((self.period_us - elapsed_us) as u64),
            elapsed_us >= self.period_us ==> (r is None),
    {
        if elapsed_us < self.period_us {
            Some(self.period_us - elapsed_us)
        } else {
            None
        }
    }
}

/// Instruction execution and timer decay, each with its own pacer.
#[derive(Clone, Copy, Debug, PartialEq, Eq, Structural)]
pub struct Scheduler {
    pub cpu: Pacer,
    pub timer: Pacer,
}

impl Scheduler {
    pub open spec fn wf(self) -> bool {
        self.cpu.period_us > 0 && self.timer.period_us > 0
    }

    pub fn new(cpu_period_us: u64, timer_period_us: u64) -> (r: Scheduler)
        requires
            cpu_period_us > 0,
            timer_period_us > 0,
        ensures
            r.cpu == (Pacer { period_us: cpu_period_us, done: 0 }),
            r.timer == (Pacer { period_us: timer_period_us, done: 0 }),
            r.wf(),
    {
        Scheduler { cpu: Pacer::new(cpu_period_us), timer: Pacer::new(timer_period_us) }
    }

    /// The instruction steps and timer ticks due when the clock reads
    /// `now_us`, in that order.
    pub fn advance(&mut self, now_us: u64) -> (r: (u64, u64))
        requires
            old(self).wf(),
        ensures
            final(self).cpu == pacer_at(old(self).cpu, now_us),
            final(self).timer == pacer_at(old(self).timer, now_us),
            r.0 == final(self).cpu.done - old(self).cpu.done,
            r.1 == final(self).timer.done - old(self).timer.done,
            final(self).wf(),
    {
        let steps = self.cpu.due(now_us);
        let ticks = self.timer.due(now_us);
        (steps, ticks)
    }
}

/// The scheduler after the clock readings `times`, in order.
pub open spec fn run_schedule(s: Scheduler, times: Seq<u64>) -> Scheduler
    decreases times.len(),
{
    if times.len() == 0 {
        s
    } else {
        let s1 = run_schedule(s, times.drop_last());
        Scheduler { cpu: pacer_at(s1.cpu, times.last()), timer: pacer_at(s1.timer, times.last()) }
    }
}

/// Timer ticks handed out over the clock readings `times`.
pub open spec fn timer_ticks(s: Scheduler, times: Seq<u64>) -> int {
    run_schedule(s, times).timer.done - s.timer.done
}

/// The timers decay at their own rate whatever the instruction rate: two
/// schedulers that differ only in how they pace instructions hand out the
/// same timer ticks over any sequence of clock readings. From a fresh timer
/// pacer and nondecreasing readings, the ticks are the number of whole timer
/// periods up to the last reading.
pub proof fn lemma_timer_rate_independent(s1: Scheduler, s2: Scheduler, times: Seq<u64>)
    requires
        s1.wf(),
        s2.wf(),
        s1.timer == s2.timer,
    ensures
        run_schedule(s1, times).timer == run_schedule(s2, times).timer,
        timer_ticks(s1, times) == timer_ticks(s2, times),
        s1.timer.done == 0 && times.len() > 0 && (forall|i: int, j: int|
            0 <= i <= j < times.len() ==> times[i] <= times[j]) ==> timer_ticks(s1, times)
            == times.last() as int / s1.timer.period_us as int,
    decreases times.len(),
{
    if times.len() > 0 {
        let prefix = times.drop_last();
        lemma_timer_rate_independent(s1, s2, prefix);
        lemma_pacer_periods_kept(s1, prefix);
        if s1.timer.done == 0 && (forall|i: int, j: int|
            0 <= i <= j < times.len() ==> times[i] <= times[j]) && prefix.len() > 0 {
            assert(prefix.last() == times[times.len() - 2]);
            assert(prefix.last() <= times.last());
            vstd::arithmetic::div_mod::lemma_div_is_ordered(
                prefix.last() as int,
                times.last() as int,
                s1.timer.period_us as int,
            );
        }
    }
}

proof fn lemma_pacer_periods_kept(s: Scheduler, times: Seq<u64>)
    ensures
        run_schedule(s, times).cpu.period_us == s.cpu.period_us,
        run_schedule(s, times).timer.period_us == s.timer.period_us,
    decreases times.len(),
{
    if times.len() > 0 {
        lemma_pacer_periods_kept(s, times.drop_last());
    }
}

} // verus!
