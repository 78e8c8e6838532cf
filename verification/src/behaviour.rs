//! What holds of every timer, proved over [`TimerState`].

use crate::timer::TimerState;
use vstd::prelude::*;

verus! {

/// A timer made at some instant does not fire when ticked at that same
/// instant, nor at any earlier reading of the clock: nothing has elapsed.
pub proof fn fresh_timer_is_idle(made_at: u64, now: u64)
    requires
        now <= made_at,
    ensures
        !TimerState::fresh(made_at).fires(now),
        TimerState::fresh(made_at).ticked(now) == TimerState::fresh(made_at),
{
}

/// Once more than the timeout has passed since the anchor, the tick at `now`
/// fires and rearms the timer at `now`. A tick at `later`, before more than
/// the timeout has passed again, does not fire: of the two ticks exactly one
/// fires.
pub proof fn fire_then_rearm(s: TimerState, now: u64, later: u64)
    requires
        s.enabled,
        now > s.anchor + s.timeout,
        later <= now + s.timeout,
    ensures
        s.fires(now),
        s.ticked(now) == (TimerState { anchor: now, ..s }),
        !s.ticked(now).fires(later),
        s.ticked(now).ticked(later) == s.ticked(now),
        s.fire_count(seq![now, later]) == 1,
{
    let times = seq![now, later];
    let rest = times.drop_first();
    assert(times[0] == now);
    assert(rest.len() == 1);
    assert(rest[0] == later);
    assert(rest.drop_first().len() == 0);
    let armed = s.ticked(now);
    assert(armed.ticked(later).fire_count(rest.drop_first()) == 0);
    assert(armed.fire_count(rest) == 0);
}

/// A disabled timer never fires and never changes, however many ticks it is
/// given and whatever the clock shows at each.
pub proof fn disabled_never_fires(s: TimerState, times: Seq<u64>)
    requires
        !s.enabled,
    ensures
        s.fire_count(times) == 0,
        s.run(times) == s,
    decreases times.len(),
{
    if times.len() > 0 {
        assert(s.ticked(times[0]) == s);
        disabled_never_fires(s, times.drop_first());
    }
}

/// Switching a timer off at one instant and on again at another leaves it
/// armed at the second. However long it was overdue before, it does not fire
/// at the instant it is switched on; from then on it fires exactly when more
/// than its timeout has passed since that instant.
pub proof fn reenable_resets_clock(s: TimerState, off_at: u64, on_at: u64, now: u64)
    ensures
        s.toggled(false, off_at).toggled(true, on_at) == (TimerState {
            enabled: true,
            anchor: on_at,
            timeout: s.timeout,
        }),
        !s.toggled(false, off_at).toggled(true, on_at).fires(on_at),
        s.toggled(false, off_at).toggled(true, on_at).fires(now) <==> now > on_at + s.timeout,
{
}

/// Setting the flag, to either value, never leaves a timer that fires at the
/// instant of the call.
pub proof fn toggle_never_fires_at_once(s: TimerState, enabled: bool, now: u64)
    ensures
        !s.toggled(enabled, now).fires(now),
{
}

/// When the time already elapsed exceeds a newly set timeout, the next tick
/// fires. The anchor did not move with the timeout.
pub proof fn shorter_timeout_fires_at_once(s: TimerState, timeout: u64, now: u64)
    requires
        s.enabled,
        s.elapsed(now) > timeout,
    ensures
        s.with_timeout(timeout).anchor == s.anchor,
        s.with_timeout(timeout).fires(now),
        s.with_timeout(timeout).ticked(now).anchor == now,
{
}

/// Ticking at one instant twice fires at most once: the first tick, if it
/// fires, arms the timer at that instant.
pub proof fn no_double_fire(s: TimerState, now: u64)
    ensures
        !s.ticked(now).fires(now),
{
}

} // verus!
