//! The timer widget and the model its contracts are stated over.

use crate::clock::time_ms;
use crate::geometry::{make_origin_point, make_unsized, origin_point, unsized_size, Point, Size};
use vstd::prelude::*;

verus! {

/// What a timer is, apart from its handler: the view of a [`TimerWidget`].
/// Times are milliseconds since a fixed epoch.
pub struct TimerState {
    /// While false, ticks do nothing.
    pub enabled: bool,
    /// The instant from which elapsed time is measured.
    pub anchor: u64,
    /// The timer is due once more than this has elapsed.
    pub timeout: u64,
}

impl TimerState {
    /// A timer made at `now`: enabled, armed at `now`, with a timeout of zero.
    pub open spec fn fresh(now: u64) -> TimerState {
        TimerState { enabled: true, anchor: now, timeout: 0 }
    }

    /// Milliseconds from the anchor to `now`. A clock that has gone back
    /// behind the anchor counts as no time passed.
    pub open spec fn elapsed(self, now: u64) -> nat {
        if now >= self.anchor {
            (now - self.anchor) as nat
        } else {
            0
        }
    }

    /// Whether a tick at `now` fires: the timer is enabled and strictly more
    /// than the timeout has elapsed.
    pub open spec fn fires(self, now: u64) -> bool {
        self.enabled && self.elapsed(now) > self.timeout
    }

    /// The state after a tick at `now`: rearmed at `now` if the tick fires,
    /// and the same state if it does not.
    pub open spec fn ticked(self, now: u64) -> TimerState {
        if self.fires(now) {
            TimerState { anchor: now, ..self }
        } else {
            self
        }
    }

    /// The state after the flag was set at `now`: the anchor moves to `now`
    /// whatever the flag was and whatever it becomes.
    pub open spec fn toggled(self, enabled: bool, now: u64) -> TimerState {
        TimerState { enabled, anchor: now, ..self }
    }

    /// The state with another timeout. The anchor stays.
    pub open spec fn with_timeout(self, timeout: u64) -> TimerState {
        TimerState { timeout, ..self }
    }

    /// The state after one tick at each of `times`, in order.
    pub open spec fn run(self, times: Seq<u64>) -> TimerState
        decreases times.len(),
    {
        if times.len() == 0 {
            self
        } else {
            self.ticked(times[0]).run(times.drop_first())
        }
    }

    /// How many of the ticks at `times`, made in order, fire.
    pub open spec fn fire_count(self, times: Seq<u64>) -> nat
        decreases times.len(),
    {
        if times.len() == 0 {
            0
        } else {
            let rest = self.ticked(times[0]).fire_count(times.drop_first());
            if self.fires(times[0]) {
                rest + 1
            } else {
                rest
            }
        }
    }
}

/// An invisible widget that calls its handler whenever more than its timeout
/// has passed since it was last armed. `F` is the type of the handler; with
/// `Box<dyn Fn()>` any closure can be registered.
pub struct TimerWidget<F: Fn()> {
    enabled: bool,
    initiated: u64,
    timeout: u64,
    timeout_function: Option<F>,
}

impl<F: Fn()> View for TimerWidget<F> {
    type V = TimerState;

    closed spec fn view(&self) -> TimerState {
        TimerState { enabled: self.enabled, anchor: self.initiated, timeout: self.timeout }
    }
}

impl<F: Fn()> TimerWidget<F> {
    /// The registered handler; `None` stands for the handler that does nothing.
    pub closed spec fn handler(&self) -> Option<F> {
        self.timeout_function
    }

    /// The handler, if there is one, may be called at any time.
    #[verifier::type_invariant]
    closed spec fn callable(&self) -> bool {
        self.timeout_function matches Some(f) ==> f.requires(())
    }

    /// A timer made at the instant `now`: enabled, with a timeout of zero and
    /// a handler that does nothing.
    pub fn new_at(now: u64) -> (timer: Self)
        ensures
            timer@ == TimerState::fresh(now),
            timer.handler() is None,
    {
        TimerWidget { enabled: true, initiated: now, timeout: 0, timeout_function: None }
    }

    /// A timer made now, by the system clock. Without a clock that can be
    /// read there is no instant to arm the timer at, and none is made.
    pub fn new() -> (made: Option<Self>)
        ensures
            made matches Some(timer) ==> timer.handler() is None && exists|now: u64|
                timer@ == #[trigger] TimerState::fresh(now),
    {
        match time_ms() {
            Some(now) => {
                let timer = Self::new_at(now);
                assert(timer@ == TimerState::fresh(now));
                Some(timer)
            },
            None => None,
        }
    }

    /// One tick at the instant `now`. A disabled timer does nothing. An
    /// enabled one fires when strictly more than its timeout has elapsed
    /// since its anchor: it rearms at `now` and then calls the handler, so
    /// that whatever the handler promises of a call holds afterwards.
    /// Returns whether it fired.
    pub fn tick_at(&mut self, now: u64) -> (fired: bool)
        ensures
            fired == old(self)@.fires(now),
            final(self)@ == old(self)@.ticked(now),
            final(self).handler() == old(self).handler(),
            fired ==> (old(self).handler() matches Some(f) ==> f.ensures((), ())),
    {
        proof {
            use_type_invariant(&*self);
        }
        if !self.enabled {
            return false;
        }
        if now <= self.initiated {
            return false;
        }
        let elapsed: u64 = now - self.initiated;
        if elapsed > self.timeout {
            self.initiated = now;
            match &self.timeout_function {
                Some(f) => f(),
                None => {},
            }
            true
        } else {
            false
        }
    }

    /// One tick at the instant the system clock shows. A disabled timer
    /// does nothing and does not look at the clock. For an enabled one the
    /// outcome is that of `tick_at` for the instant that was read; where the
    /// clock cannot be read the result is `None` and the timer is as it was.
    pub fn tick(&mut self) -> (fired: Option<bool>)
        ensures
            !old(self)@.enabled ==> fired == Some(false),
            fired matches Some(f) ==> exists|now: u64|
                f == old(self)@.fires(now) && final(self)@ == #[trigger] old(self)@.ticked(now),
            fired is None ==> *final(self) == *old(self),
            fired != Some(true) ==> final(self)@ == old(self)@,
            fired == Some(true) ==> final(self)@.anchor > old(self)@.anchor + old(self)@.timeout,
            final(self)@.enabled == old(self)@.enabled,
            final(self)@.timeout == old(self)@.timeout,
            final(self).handler() == old(self).handler(),
            fired == Some(true) ==> (old(self).handler() matches Some(f) ==> f.ensures((), ())),
    {
        if !self.enabled {
            assert(self@.ticked(self@.anchor) == self@);
            return Some(false);
        }
        match time_ms() {
            Some(now) => Some(self.tick_at(now)),
            None => None,
        }
    }

    /// Sets the flag at the instant `now` and moves the anchor there, whether
    /// the timer is being enabled or disabled. The handler is not called.
    pub fn set_enabled_at(&mut self, enabled: bool, now: u64)
        ensures
            final(self)@ == old(self)@.toggled(enabled, now),
            final(self).handler() == old(self).handler(),
    {
        proof {
            use_type_invariant(&*self);
        }
        self.enabled = enabled;
        self.initiated = now;
    }

    /// Sets the flag and moves the anchor to the instant the system clock
    /// shows. Where the clock cannot be read the result is `None` and the
    /// timer is as it was, flag included.
    pub fn set_enabled(&mut self, enabled: bool) -> (done: Option<()>)
        ensures
            done is Some ==> exists|now: u64|
                final(self)@ == #[trigger] old(self)@.toggled(enabled, now),
            done is Some ==> final(self)@.enabled == enabled,
            done is None ==> *final(self) == *old(self),
            final(self)@.timeout == old(self)@.timeout,
            final(self).handler() == old(self).handler(),
    {
        match time_ms() {
            Some(now) => {
                self.set_enabled_at(enabled, now);
                Some(())
            },
            None => None,
        }
    }

    /// Registers `timeout_function` in place of the handler held so far,
    /// which is dropped. Neither of the two is called.
    pub fn on_timeout(&mut self, timeout_function: F)
        requires
            timeout_function.requires(()),
        ensures
            final(self).handler() == Some(timeout_function),
            final(self)@ == old(self)@,
    {
        self.timeout_function = Some(timeout_function);
    }

    /// Replaces the timeout. The anchor stays, so the next tick measures the
    /// time already elapsed against the new timeout.
    pub fn set_timeout(&mut self, timeout: u64)
        ensures
            final(self)@ == old(self)@.with_timeout(timeout),
            final(self).handler() == old(self).handler(),
    {
        proof {
            use_type_invariant(&*self);
        }
        self.timeout = timeout;
    }

    /// Whether ticks are acted on.
    pub fn is_enabled(&self) -> (enabled: bool)
        ensures
            enabled == self@.enabled,
    {
        self.enabled
    }

    /// The timeout in milliseconds.
    pub fn timeout(&self) -> (timeout: u64)
        ensures
            timeout == self@.timeout,
    {
        self.timeout
    }

    /// The instant at which the timer was last armed.
    pub fn initiated(&self) -> (anchor: u64)
        ensures
            anchor == self@.anchor,
    {
        self.initiated
    }

    /// Always true. The host visits every widget that asks to be redrawn, and
    /// that visit is what makes the timer tick: the flag asks for polling,
    /// not for pixels.
    pub fn is_invalidated(&mut self) -> (invalidated: bool)
        ensures
            invalidated,
            *final(self) == *old(self),
    {
        true
    }

    /// The origin of a widget that is not on screen: (0, 0) in every state.
    pub fn get_origin(&mut self) -> (origin: Point)
        ensures
            origin == origin_point(),
            *final(self) == *old(self),
    {
        make_origin_point()
    }

    /// The size of a widget that is not on screen: 0 by 0 in every state.
    pub fn get_size(&mut self) -> (size: Size)
        ensures
            size == unsized_size(),
            *final(self) == *old(self),
    {
        make_unsized()
    }

    /// The pointer came in: a timer takes no input.
    pub fn mouse_entered(&mut self, _widget_id: i32)
        ensures
            *final(self) == *old(self),
    {
    }

    /// The pointer went out: a timer takes no input.
    pub fn mouse_exited(&mut self, _widget_id: i32)
        ensures
            *final(self) == *old(self),
    {
    }

    /// The wheel was turned: a timer takes no input.
    pub fn mouse_scrolled(&mut self, _widget_id: i32, _point: Point)
        ensures
            *final(self) == *old(self),
    {
    }

    /// The per-frame hook. A timer draws nothing: it ticks, and what comes
    /// back is what `tick` gives.
    pub fn draw(&mut self) -> (fired: Option<bool>)
        ensures
            !old(self)@.enabled ==> fired == Some(false),
            fired matches Some(f) ==> exists|now: u64|
                f == old(self)@.fires(now) && final(self)@ == #[trigger] old(self)@.ticked(now),
            fired is None ==> *final(self) == *old(self),
            final(self).handler() == old(self).handler(),
            fired == Some(true) ==> (old(self).handler() matches Some(f) ==> f.ensures((), ())),
    {
        self.tick()
    }
}

} // verus!
