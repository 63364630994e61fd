use vstd::prelude::*;

verus! {

/// Elapsed time after adding `dt`, saturating at the largest representable value.
pub open spec fn saturating_elapsed(elapsed: nat, dt: nat) -> nat {
    if elapsed + dt <= u64::MAX {
        elapsed + dt
    } else {
        u64::MAX as nat
    }
}

/// A countdown measured in microseconds of game time.
///
/// While the timer is enabled (started and not stopped), every `tick` adds to the
/// elapsed time; a stopped timer keeps its elapsed time. It is `finished` once the
/// elapsed time reaches the deadline.
#[derive(Debug, Copy, Clone)]
pub struct Timer {
    /// Deadline in microseconds.
    deadline: u64,
    /// Time accumulated so far, in microseconds.
    elapsed: u64,
    /// If true, then ticks increase the elapsed time.
    enabled: bool,
}

impl Timer {
    /// Facts about the transitions, for callers that reason on the timer's fields.
    pub broadcast proof fn lemma_transitions(t: Timer, dt: nat, b: bool)
        ensures
            #[trigger] t.after_tick(dt).spec_elapsed() == if t.spec_enabled() {
                saturating_elapsed(t.spec_elapsed(), dt)
            } else {
                t.spec_elapsed()
            },
            t.after_tick(dt).spec_deadline() == t.spec_deadline(),
            t.after_tick(dt).spec_enabled() == t.spec_enabled(),
            #[trigger] t.after_reset().spec_elapsed() == 0,
            t.after_reset().spec_deadline() == t.spec_deadline(),
            t.after_reset().spec_enabled() == t.spec_enabled(),
            #[trigger] t.with_enabled(b).spec_enabled() == b,
            #[trigger] Timer::of_micros_spec(dt as u64).spec_elapsed() == 0,
            Timer::of_micros_spec(dt as u64).spec_deadline() == dt as u64,
            !Timer::of_micros_spec(dt as u64).spec_enabled(),
            t.with_enabled(b).spec_elapsed() == t.spec_elapsed(),
            t.with_enabled(b).spec_deadline() == t.spec_deadline(),
    {
    }

    /// The deadline and the elapsed time fit a `u64`.
    pub broadcast proof fn lemma_bounds(t: Timer)
        ensures
            #[trigger] t.spec_deadline() <= u64::MAX,
            #[trigger] t.spec_elapsed() <= u64::MAX,
    {
    }

    pub closed spec fn spec_deadline(&self) -> nat {
        self.deadline as nat
    }

    pub closed spec fn spec_elapsed(&self) -> nat {
        self.elapsed as nat
    }

    pub closed spec fn spec_enabled(&self) -> bool {
        self.enabled
    }

    /// The timer after `dt` more microseconds went by: it counts them only if enabled.
    pub closed spec fn after_tick(self, dt: nat) -> Timer {
        if self.enabled {
            Timer { elapsed: saturating_elapsed(self.elapsed as nat, dt) as u64, ..self }
        } else {
            self
        }
    }

    /// The timer with nothing elapsed.
    pub closed spec fn after_reset(self) -> Timer {
        Timer { elapsed: 0, ..self }
    }

    /// The timer, started (`true`) or stopped (`false`).
    pub closed spec fn with_enabled(self, enabled: bool) -> Timer {
        Timer { enabled, ..self }
    }

    /// True when the elapsed time reached the deadline.
    pub open spec fn spec_finished(&self) -> bool {
        self.spec_elapsed() >= self.spec_deadline()
    }

    /// A stopped timer with nothing elapsed and the given deadline.
    pub closed spec fn of_micros_spec(deadline: u64) -> Timer {
        Timer { deadline, elapsed: 0, enabled: false }
    }

    /// A stopped timer with nothing elapsed and the given deadline.
    pub fn of_micros(deadline: u64) -> (r: Self)
        ensures
            r == Timer::of_micros_spec(deadline),
            r.spec_deadline() == deadline,
            r.spec_elapsed() == 0,
            !r.spec_enabled(),
    {
        Self { deadline, elapsed: 0, enabled: false }
    }

    /// A started timer with nothing elapsed and the given deadline.
    pub fn running(deadline: u64) -> (r: Self)
        ensures
            r == Timer::of_micros_spec(deadline).with_enabled(true),
            r.spec_deadline() == deadline,
            r.spec_elapsed() == 0,
            r.spec_enabled(),
    {
        Self { deadline, elapsed: 0, enabled: true }
    }

    /// A timer that has already run for `elapsed` microseconds.
    pub fn with_elapsed(deadline: u64, elapsed: u64, enabled: bool) -> (r: Self)
        ensures
            r.spec_deadline() == deadline,
            r.spec_elapsed() == elapsed,
            r.spec_enabled() == enabled,
    {
        Self { deadline, elapsed, enabled }
    }

    pub fn deadline(&self) -> (r: u64)
        ensures
            r == self.spec_deadline(),
    {
        self.deadline
    }

    pub fn elapsed(&self) -> (r: u64)
        ensures
            r == self.spec_elapsed(),
    {
        self.elapsed
    }

    pub fn is_enabled(&self) -> (r: bool)
        ensures
            r == self.spec_enabled(),
    {
        self.enabled
    }

    pub fn start(&mut self)
        ensures
            *final(self) == old(self).with_enabled(true),
            final(self).spec_enabled(),
            final(self).spec_elapsed() == old(self).spec_elapsed(),
            final(self).spec_deadline() == old(self).spec_deadline(),
    {
        self.enabled = true;
    }

    pub fn stop(&mut self)
        ensures
            *final(self) == old(self).with_enabled(false),
            !final(self).spec_enabled(),
            final(self).spec_elapsed() == old(self).spec_elapsed(),
            final(self).spec_deadline() == old(self).spec_deadline(),
    {
        self.enabled = false;
    }

    pub fn reset(&mut self)
        ensures
            *final(self) == old(self).after_reset(),
            final(self).spec_elapsed() == 0,
            final(self).spec_enabled() == old(self).spec_enabled(),
            final(self).spec_deadline() == old(self).spec_deadline(),
    {
        self.elapsed = 0;
    }

    /// Update the timer: `dt` microseconds of game time went by. An enabled timer counts
    /// them (the elapsed time saturates at `u64::MAX`); a stopped one keeps its time.
    pub fn tick(&mut self, dt: u64)
        ensures
            *final(self) == old(self).after_tick(dt as nat),
            final(self).spec_elapsed() == if old(self).spec_enabled() {
                saturating_elapsed(old(self).spec_elapsed(), dt as nat)
            } else {
                old(self).spec_elapsed()
            },
            final(self).spec_enabled() == old(self).spec_enabled(),
            final(self).spec_deadline() == old(self).spec_deadline(),
    {
        if self.enabled {
            self.elapsed = self.elapsed.saturating_add(dt);
        }
    }

    /// Returns true if the deadline has been reached.
    pub fn finished(&self) -> (r: bool)
        ensures
            r == self.spec_finished(),
    {
        self.elapsed >= self.deadline
    }

    /// Time left before the deadline, zero once finished.
    pub fn remaining(&self) -> (r: u64)
        ensures
            r == if self.spec_finished() { 0 } else { self.spec_deadline() - self.spec_elapsed() },
    {
        if self.elapsed >= self.deadline {
            0
        } else {
            self.deadline - self.elapsed
        }
    }
}

/// Ticking never makes a finished timer unfinished nor takes time back; a stopped
/// timer keeps its time; a reset timer with a positive deadline is not finished, and a
/// running one is finished again after ticks adding up to its deadline.
pub proof fn law_timer_monotone(t: Timer, dt: nat, dt2: nat)
    ensures
        t.spec_finished() ==> t.after_tick(dt).spec_finished(),
        t.after_tick(dt).spec_elapsed() >= t.spec_elapsed(),
        !t.spec_enabled() ==> t.after_tick(dt) == t,
        t.spec_deadline() > 0 ==> !t.after_reset().spec_finished(),
        t.spec_enabled() && dt + dt2 >= t.spec_deadline() ==> t.after_reset().after_tick(dt).after_tick(
            dt2,
        ).spec_finished(),
{
    Timer::lemma_transitions(t, dt, true);
    Timer::lemma_transitions(t.after_reset(), dt, true);
    Timer::lemma_transitions(t.after_reset().after_tick(dt), dt2, true);
}

/// The facts on timers that their users reason with.
pub broadcast group group_timer {
    Timer::lemma_transitions,
    Timer::lemma_bounds,
}

} // verus!
