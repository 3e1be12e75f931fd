use vstd::prelude::*;

use crate::timer::{spec_tick, GameTimer};

verus! {

/// The movement keys held down this frame.
#[derive(Clone, Copy, PartialEq, Eq, Structural, Debug, Default)]
pub struct MovementKeys {
    pub w: bool,
    pub a: bool,
    pub s: bool,
    pub d: bool,
    pub up: bool,
    pub left: bool,
    pub down: bool,
    pub right: bool,
}

/// One axis of the steering: +1, -1, or 0 when both or neither are held.
pub open spec fn axis(plus: bool, minus: bool) -> int {
    (if plus { 1int } else { 0int }) - (if minus { 1int } else { 0int })
}

/// The direction the salamander is steered in, before it is scaled to unit
/// length: W or Up adds one upwards, S or Down one downwards, A or Left one to
/// the left, D or Right one to the right.
pub fn input_direction(keys: &MovementKeys) -> (dir: (i8, i8))
    ensures
        dir.0 == axis(keys.d || keys.right, keys.a || keys.left),
        dir.1 == axis(keys.w || keys.up, keys.s || keys.down),
{
    let mut x: i8 = 0;
    let mut y: i8 = 0;
    if keys.w || keys.up {
        y = y + 1;
    }
    if keys.s || keys.down {
        y = y - 1;
    }
    if keys.a || keys.left {
        x = x - 1;
    }
    if keys.d || keys.right {
        x = x + 1;
    }
    (x, y)
}

/// The salamander's blinking after a hit, timed by a one-shot timer.
#[derive(Clone, Copy, PartialEq, Eq, Structural, Debug)]
pub struct HitFlash {
    pub timer: GameTimer,
}

impl HitFlash {
    /// A flash lasting `duration` nanoseconds, just started.
    pub fn new(duration: u64) -> (f: HitFlash)
        ensures
            f.timer == GameTimer::spec_new(duration, false),
    {
        HitFlash { timer: GameTimer::new(duration, false) }
    }
}

/// Advances the flash by the frame's `delta` nanoseconds; returns whether it
/// is over (the caller then shows the salamander and removes the flash).
pub fn tick_hit_flash(flash: &mut HitFlash, delta: u64) -> (over: bool)
    requires
        !old(flash).timer.repeating,
    ensures
        final(flash).timer == spec_tick(old(flash).timer, delta),
        over == final(flash).timer.finished,
{
    flash.timer.tick_once(delta);
    flash.timer.is_finished()
}

} // verus!
