//! Activity indicator: an on/off LED flag that decays a fixed number of
//! monotonic ticks after the last observed traffic, with wraparound-safe
//! timing, plus the out-of-band USB event flag and the edge-triggered
//! bookkeeping of the previous poll's activity.

use vstd::prelude::*;

use crate::DECAY_WINDOW_TICKS;

verus! {

/// Ticks elapsed from `last` to `now` on a monotonic `u64` counter that is
/// allowed to wrap around: modular subtraction.
pub open spec fn elapsed_ticks(now: u64, last: u64) -> int {
    if now >= last {
        now - last
    } else {
        now - last + 0x1_0000_0000_0000_0000
    }
}

/// The tick reached `k` ticks after `t` on a wrapping `u64` counter:
/// modular addition.
pub open spec fn tick_add(t: u64, k: u64) -> u64 {
    if t + k <= u64::MAX {
        (t + k) as u64
    } else {
        (t + k - 0x1_0000_0000_0000_0000) as u64
    }
}

/// Decay correctness: elapsed time measured by modular subtraction recovers
/// the true distance `k` from the stamp `t`, even when the counter wraps
/// between `t` and `t + k`. Hence, for a decay window `w`, the indicator's
/// check `elapsed <= w` holds at the tick `k` past `t` exactly when `k <= w`:
/// the LED is on throughout `[t, t + w]` and off beyond it.
pub proof fn lemma_decay_window(t: u64, k: u64, w: u64)
    ensures
        elapsed_ticks(tick_add(t, k), t) == k,
        (elapsed_ticks(tick_add(t, k), t) <= w) == (k <= w),
{
}

/// LED flag and activity bookkeeping, mutated only by the first core's main
/// loop (and, for the overflow signal, by the UART engine); the physical pin
/// write that mirrors `led_on` happens outside this crate.
pub struct ActivityState {
    /// Whether the LED is (to be) lit.
    pub led_on: bool,
    /// Monotonic tick of the last observed activity.
    pub last_activity_tick: u64,
    /// The previous update's activity value, for the edge-triggered step.
    pub last_usb_activity: bool,
    /// Out-of-band explicit USB event flag, set outside the polling path and
    /// consumed (cleared) by the next update.
    pub usb_event: bool,
}

impl ActivityState {
    pub fn new(now: u64) -> (a: ActivityState)
        ensures
            a == (ActivityState {
                led_on: false,
                last_activity_tick: now,
                last_usb_activity: false,
                usb_event: false,
            }),
    {
        ActivityState { led_on: false, last_activity_tick: now, last_usb_activity: false, usb_event: false }
    }

    /// Raises the out-of-band USB event flag; the next update treats it as
    /// activity and clears it.
    pub fn signal_usb_event(&mut self)
        ensures
            *final(self) == (ActivityState { usb_event: true, ..*old(self) }),
    {
        self.usb_event = true;
    }

    /// Forces the LED flag on, the lossy-overflow signal: a dropped byte is
    /// reported this way and no other.
    pub fn force_led_on(&mut self)
        ensures
            *final(self) == (ActivityState { led_on: true, ..*old(self) }),
    {
        self.led_on = true;
    }

    /// One pass of the indicator, run after each USB engine poll.
    ///
    /// A raised event flag is cleared and counts as activity; activity stamps
    /// `now` as the last-activity tick; the edge-triggered step mirrors the
    /// activity value onto the LED; and, authoritatively last, the LED is set
    /// to whether the wraparound-safe elapsed time since the last activity is
    /// within the decay window. Returns the LED state to drive the pin.
    pub fn update(&mut self, usb_activity: bool, now: u64) -> (led: bool)
        ensures
            ({
                let active = usb_activity || old(self).usb_event;
                let stamp = if active { now } else { old(self).last_activity_tick };
                &&& final(self).usb_event == false
                &&& final(self).last_activity_tick == stamp
                &&& final(self).last_usb_activity == active
                &&& final(self).led_on == (elapsed_ticks(now, stamp) <= DECAY_WINDOW_TICKS)
                &&& led == final(self).led_on
            }),
    {
        let mut activity = usb_activity;
        if self.usb_event {
            self.usb_event = false;
            activity = true;
            self.last_activity_tick = now;
            self.led_on = true;
        } else if activity {
            self.last_activity_tick = now;
        }
        if activity != self.last_usb_activity {
            self.led_on = activity;
            self.last_usb_activity = activity;
        }
        let elapsed = now.wrapping_sub(self.last_activity_tick);
        self.led_on = elapsed <= DECAY_WINDOW_TICKS;
        self.led_on
    }
}

} // verus!
