use vstd::prelude::*;

verus! {

/// A timer's state as plain values, kept in nanoseconds.
///
/// It mirrors what a `bevy::time::Timer` holds for an unpaused timer: its
/// duration, the elapsed time, whether it repeats, whether it is finished and
/// how often it finished during the last tick.
#[derive(Clone, Copy, PartialEq, Eq, Structural, Debug)]
pub struct GameTimer {
    pub duration: u64,
    pub elapsed: u64,
    pub repeating: bool,
    pub finished: bool,
    pub times_finished_this_tick: u32,
}

/// What one tick of an unfinished timer gives: the new elapsed time, whether
/// it is finished, and how often it finished during the tick.
pub open spec fn spec_advance(duration: u64, elapsed: u64, repeating: bool, delta: u64) -> (
    u64,
    bool,
    u32,
) {
    let total = elapsed + delta;
    if total < duration {
        (total as u64, false, 0u32)
    } else if !repeating {
        (duration, true, 1u32)
    } else if duration == 0 {
        (0u64, true, u32::MAX)
    } else {
        ((total % (duration as int)) as u64, true, (total / (duration as int)) as u32)
    }
}

/// Ticks a fresh, unpaused `bevy::time::Timer` whose elapsed time was set to
/// `elapsed`, by `delta`, and reads back its elapsed time, `is_finished` and
/// `times_finished_this_tick`.
///
/// Claimed of `Timer::tick` (bevy_time 0.18 source): the stopwatch adds `delta`;
/// the timer finishes once the elapsed time reaches the duration; a one-shot
/// timer then clamps its elapsed time to the duration and counts one finish; a
/// repeating timer keeps the remainder modulo the duration and counts the
/// quotient (`u32::MAX` and zero elapsed time for a zero duration).
#[verifier::external_body]
fn bevy_timer_advance(duration: u64, elapsed: u64, repeating: bool, delta: u64) -> (r: (
    u64,
    bool,
    u32,
))
    requires
        elapsed + delta <= u64::MAX,
        repeating && duration > 0 ==> (elapsed + delta) / (duration as int) <= u32::MAX,
    ensures
        r == spec_advance(duration, elapsed, repeating, delta),
{
    let mode = if repeating {
        bevy::time::TimerMode::Repeating
    } else {
        bevy::time::TimerMode::Once
    };
    let mut timer = bevy::time::Timer::new(std::time::Duration::from_nanos(duration), mode);
    timer.set_elapsed(std::time::Duration::from_nanos(elapsed));
    timer.tick(std::time::Duration::from_nanos(delta));
    (timer.elapsed().as_nanos() as u64, timer.is_finished(), timer.times_finished_this_tick())
}

/// The timer after `tick(delta)`: a finished one-shot timer stays as it is
/// and reports no finish; any other advances as `spec_advance` says.
pub open spec fn spec_tick(t: GameTimer, delta: u64) -> GameTimer {
    if !t.repeating && t.finished {
        GameTimer { times_finished_this_tick: 0, ..t }
    } else {
        let r = spec_advance(t.duration, t.elapsed, t.repeating, delta);
        GameTimer { elapsed: r.0, finished: r.1, times_finished_this_tick: r.2, ..t }
    }
}

/// The timer after ticking by each of `deltas` in turn.
pub open spec fn tick_all(t: GameTimer, deltas: Seq<u64>) -> GameTimer
    decreases deltas.len(),
{
    if deltas.len() == 0 {
        t
    } else {
        tick_all(spec_tick(t, deltas[0]), deltas.drop_first())
    }
}

/// The sum of `deltas`.
pub open spec fn total(deltas: Seq<u64>) -> int
    decreases deltas.len(),
{
    if deltas.len() == 0 {
        0
    } else {
        deltas[0] + total(deltas.drop_first())
    }
}

impl GameTimer {
    /// Whether `tick` can advance this timer by `delta` without overflow.
    pub open spec fn can_tick(&self, delta: u64) -> bool {
        &&& self.elapsed + delta <= u64::MAX
        &&& self.repeating && self.duration > 0 ==> (self.elapsed + delta) / (self.duration as int)
            <= u32::MAX
    }

    /// Advances a one-shot timer by `delta` nanoseconds, for any `delta`: a
    /// step longer than the nanosecond count can hold is shortened to what it
    /// can hold, which finishes the timer all the same.
    pub fn tick_once(&mut self, delta: u64)
        requires
            !old(self).repeating,
        ensures
            *final(self) == spec_tick(*old(self), delta),
    {
        let room = u64::MAX - self.elapsed;
        let step = if delta > room {
            room
        } else {
            delta
        };
        self.tick(step);
    }

    /// Whether `tick` can advance this timer by `delta` without overflow.
    pub fn fits_tick(&self, delta: u64) -> (b: bool)
        ensures
            b == self.can_tick(delta),
    {
        match self.elapsed.checked_add(delta) {
            None => false,
            Some(total) => !self.repeating || self.duration == 0 || total / self.duration
                <= 0xFFFF_FFFF,
        }
    }

    /// A timer of `duration` nanoseconds that has not run yet.
    pub open spec fn spec_new(duration: u64, repeating: bool) -> GameTimer {
        GameTimer { duration, elapsed: 0, repeating, finished: false, times_finished_this_tick: 0 }
    }

    /// A timer that has not run yet.
    pub fn new(duration: u64, repeating: bool) -> (t: GameTimer)
        ensures
            t == GameTimer::spec_new(duration, repeating),
    {
        GameTimer { duration, elapsed: 0, repeating, finished: false, times_finished_this_tick: 0 }
    }

    pub fn duration(&self) -> (d: u64)
        ensures
            d == self.duration,
    {
        self.duration
    }

    pub fn is_finished(&self) -> (b: bool)
        ensures
            b == self.finished,
    {
        self.finished
    }

    pub fn just_finished(&self) -> (b: bool)
        ensures
            b == (self.times_finished_this_tick > 0),
    {
        self.times_finished_this_tick > 0
    }

    /// Sets the duration; nothing else changes.
    pub fn set_duration(&mut self, duration: u64)
        ensures
            *final(self) == (GameTimer { duration, ..*old(self) }),
    {
        self.duration = duration;
    }

    /// Sets the elapsed time; the finished flag is left as it was.
    pub fn set_elapsed(&mut self, elapsed: u64)
        ensures
            *final(self) == (GameTimer { elapsed, ..*old(self) }),
    {
        self.elapsed = elapsed;
    }

    /// Back to zero elapsed time, unfinished.
    pub fn reset(&mut self)
        ensures
            *final(self) == (GameTimer {
                elapsed: 0,
                finished: false,
                times_finished_this_tick: 0,
                ..*old(self)
            }),
    {
        self.elapsed = 0;
        self.finished = false;
        self.times_finished_this_tick = 0;
    }

    /// Advances the timer by `delta` nanoseconds. A finished one-shot timer
    /// stays as it is and reports no finish for this tick.
    pub fn tick(&mut self, delta: u64)
        requires
            old(self).can_tick(delta),
        ensures
            *final(self) == spec_tick(*old(self), delta),
    {
        if !self.repeating && self.finished {
            self.times_finished_this_tick = 0;
        } else {
            let (elapsed, finished, times) = bevy_timer_advance(
                self.duration,
                self.elapsed,
                self.repeating,
                delta,
            );
            self.elapsed = elapsed;
            self.finished = finished;
            self.times_finished_this_tick = times;
        }
    }
}

} // verus!
