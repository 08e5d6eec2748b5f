//! An invisible widget that injects an event each time a timeout elapses.
use vstd::prelude::*;

use crate::callbacks::CallbackEvent;
use crate::point::{make_origin_point, make_unsized, origin_point, zero_size, Point, Size};
use crate::widget::{Configurable, Widget};
use std::time::{SystemTime, UNIX_EPOCH};

verus! {

/// Slot for the "timer triggered" hook.
pub const CALLBACK_TIMER: u32 = 100;

/// Relies on `SystemTime::now` and `SystemTime::duration_since`: the wall
/// clock in milliseconds since the Unix epoch, or zero for a clock set before
/// it. Nothing is promised of the value.
#[verifier::external_body]
fn time_ms() -> (r: u64) {
    match SystemTime::now().duration_since(UNIX_EPOCH) {
        Ok(d) => d.as_millis() as u64,
        Err(_) => 0,
    }
}

/// The state of a timer, as its contracts speak of it.
pub struct TimerState {
    /// Whether ticks are taken into account.
    pub enabled: bool,
    /// When the current period began, in milliseconds.
    pub initiated: u64,
    /// How long a period lasts, in milliseconds.
    pub timeout: u64,
    /// The event that waits to be injected.
    pub pending: Option<CallbackEvent>,
}

/// The event a timer produces when it fires.
pub open spec fn timer_event() -> CallbackEvent {
    CallbackEvent::TimerTriggered { widget_id: 0 }
}

/// Time passed from `initiated` to `now`; a clock that went backwards counts
/// as no time at all.
pub open spec fn elapsed(now: u64, initiated: u64) -> int {
    if now >= initiated {
        now - initiated
    } else {
        0
    }
}

/// Whether a tick at `now` fires the timer.
pub open spec fn fires(s: TimerState, now: u64) -> bool {
    s.enabled && elapsed(now, s.initiated) > s.timeout
}

/// The state after a tick at `now`: a firing restarts the period at `now`
/// and leaves the event pending; otherwise nothing changes.
pub open spec fn after_tick(s: TimerState, now: u64) -> TimerState {
    if fires(s, now) {
        TimerState { initiated: now, pending: Some(timer_event()), ..s }
    } else {
        s
    }
}

/// A timer just created at `now`.
pub open spec fn fresh_timer(now: u64) -> TimerState {
    TimerState { enabled: true, initiated: now, timeout: 0, pending: None }
}

/// The state after `set_enabled(enabled)` at `now`: the period restarts
/// whatever the flag was.
pub open spec fn after_set_enabled(s: TimerState, enabled: bool, now: u64) -> TimerState {
    TimerState { enabled, initiated: now, ..s }
}

/// The state after the pending event was handed out.
pub open spec fn after_inject(s: TimerState) -> TimerState {
    TimerState { pending: None, ..s }
}

/// The timer widget. It is never drawn and takes no room; each frame's draw
/// call is its tick. Time is read from the wall clock, and a reading earlier
/// than the start of the period counts as no time passed, so a clock set back
/// delays the timer rather than firing it.
pub struct TimerWidget {
    config: Configurable,
    enabled: bool,
    initiated: u64,
    timeout: u64,
    event: Option<CallbackEvent>,
}

impl View for TimerWidget {
    type V = TimerState;

    closed spec fn view(&self) -> TimerState {
        TimerState {
            enabled: self.enabled,
            initiated: self.initiated,
            timeout: self.timeout,
            pending: self.event,
        }
    }
}

impl TimerWidget {
    /// Creates an enabled timer with a zero timeout whose period starts at `now`.
    pub fn new_at(now: u64) -> (r: Self)
        ensures
            r@ == fresh_timer(now),
    {
        TimerWidget {
            config: Configurable::new(),
            enabled: true,
            initiated: now,
            timeout: 0,
            event: None,
        }
    }

    /// Creates an enabled timer with a zero timeout whose period starts now.
    pub fn new() -> (r: Self)
        ensures
            exists|now: u64| r@ == fresh_timer(now),
    {
        TimerWidget::new_at(time_ms())
    }

    /// Checks the time passed at `now` against the timeout, and leaves an
    /// event pending when it is exceeded.
    pub fn tick_at(&mut self, now: u64)
        ensures
            final(self)@ == after_tick(old(self)@, now),
    {
        if !self.enabled {
            return;
        }
        let elapsed = now.saturating_sub(self.initiated);
        if elapsed > self.timeout {
            self.initiated = now;
            self.event = Some(CallbackEvent::TimerTriggered { widget_id: 0 });
        }
    }

    /// Checks the time passed against the timeout on the clock.
    fn tick(&mut self)
        ensures
            exists|now: u64| final(self)@ == after_tick(old(self)@, now),
    {
        let now = time_ms();
        self.tick_at(now);
    }

    /// Enables or disables the timer, and restarts its period at `now`.
    pub fn set_enabled_at(&mut self, enabled: bool, now: u64)
        ensures
            final(self)@ == after_set_enabled(old(self)@, enabled, now),
    {
        self.enabled = enabled;
        self.initiated = now;
    }

    /// Enables or disables the timer, and restarts its period on the clock.
    pub fn set_enabled(&mut self, enabled: bool)
        ensures
            exists|now: u64| final(self)@ == after_set_enabled(old(self)@, enabled, now),
    {
        let now = time_ms();
        self.set_enabled_at(enabled, now);
    }

    /// Sets the timeout in milliseconds; the current period goes on.
    pub fn set_timeout(&mut self, timeout: u64)
        ensures
            final(self)@ == (TimerState { timeout, ..old(self)@ }),
    {
        self.timeout = timeout;
    }
}

impl Widget for TimerWidget {
    /// A timer always asks for a redraw, so that it ticks every frame.
    open spec fn invalidated(&self) -> bool {
        true
    }

    open spec fn origin(&self) -> Point {
        origin_point()
    }

    open spec fn extent(&self) -> Size {
        zero_size()
    }

    open spec fn injects(&self) -> bool {
        true
    }

    open spec fn pending(&self) -> Option<CallbackEvent> {
        self@.pending
    }

    fn config(&mut self) -> &mut Configurable {
        &mut self.config
    }

    fn is_invalidated(&mut self) -> (r: bool) {
        true
    }

    fn get_origin(&mut self) -> (r: Point) {
        make_origin_point()
    }

    fn get_size(&mut self) -> (r: Size) {
        make_unsized()
    }

    fn injects_events(&mut self) -> (r: bool) {
        true
    }

    fn inject_event(&mut self) -> (r: Option<CallbackEvent>)
        ensures
            final(self)@ == after_inject(old(self)@),
    {
        let r = self.event;
        self.event = None;
        r
    }

    /// Draws nothing; ticks the timer.
    fn draw(&mut self)
        ensures
            exists|now: u64| final(self)@ == after_tick(old(self)@, now),
    {
        self.tick();
    }
}

/// A tick before the timeout has passed leaves the timer as it was; one after
/// it leaves exactly the timer's event pending and restarts the period at the
/// tick, so that a tick at the same moment does not fire again.
pub proof fn lemma_fires_only_past_timeout(s: TimerState, now: u64)
    requires
        s.enabled,
        s.pending is None,
    ensures
        elapsed(now, s.initiated) <= s.timeout ==> after_tick(s, now) == s,
        elapsed(now, s.initiated) > s.timeout ==> {
            &&& after_tick(s, now).pending == Some(timer_event())
            &&& after_tick(s, now).initiated == now
            &&& elapsed(now, after_tick(s, now).initiated) == 0
            &&& !fires(after_tick(s, now), now)
        },
{
}

/// After a firing, injection hands out the event once; a second injection
/// right after it hands out nothing.
pub proof fn lemma_event_injected_once(s: TimerState, now: u64)
    requires
        fires(s, now),
    ensures
        after_tick(s, now).pending == Some(timer_event()),
        after_inject(after_tick(s, now)).pending is None,
        after_inject(after_inject(after_tick(s, now))).pending is None,
{
}

/// A disabled timer ignores every tick. Enabling it restarts the period, so a
/// tick at the same moment does not fire; with a zero timeout, any later tick
/// does.
pub proof fn lemma_disable_and_reenable(s: TimerState, t: u64, now: u64)
    ensures
        !s.enabled ==> after_tick(s, now) == s,
        after_tick(after_set_enabled(s, false, t), now) == after_set_enabled(s, false, t),
        !fires(after_set_enabled(s, true, t), t),
        s.timeout == 0 && now > t ==> fires(after_set_enabled(s, true, t), now),
{
}

/// Lowering the timeout below the time already passed makes the very next
/// tick fire.
pub proof fn lemma_lowered_timeout_fires_next_tick(s: TimerState, timeout: u64, now: u64)
    requires
        s.enabled,
        elapsed(now, s.initiated) > timeout,
    ensures
        fires(TimerState { timeout, ..s }, now),
        after_tick(TimerState { timeout, ..s }, now).pending == Some(timer_event()),
{
}

/// A timer reports the origin and no size, whatever its state.
pub proof fn lemma_timer_geometry(w: TimerWidget)
    ensures
        w.origin() == origin_point(),
        w.extent() == zero_size(),
{
}

} // verus!
