//! The capability contract that every widget honours towards the host loop.
use vstd::prelude::*;

use crate::callbacks::CallbackEvent;
use crate::point::{Point, Size};

verus! {

/// Handle to a widget's configuration store. The store's keys and values
/// belong to the host; the event core only hands the handle out.
pub struct Configurable {}

impl Configurable {
    /// Creates an empty store.
    pub fn new() -> (r: Self) {
        Configurable {}
    }
}

/// What the host loop calls on each widget: `draw` once per frame, then, when
/// `injects_events` says so, `inject_event`.
pub trait Widget: Sized {
    /// Whether the widget asks to be redrawn.
    spec fn invalidated(&self) -> bool;

    /// The widget's origin on the screen.
    spec fn origin(&self) -> Point;

    /// The widget's size on the screen.
    spec fn extent(&self) -> Size;

    /// Whether the host must poll `inject_event` after each frame.
    spec fn injects(&self) -> bool;

    /// The event waiting to be injected, if any.
    spec fn pending(&self) -> Option<CallbackEvent>;

    /// The widget's configuration store.
    fn config(&mut self) -> &mut Configurable;

    /// Whether the widget needs to be redrawn this frame.
    fn is_invalidated(&mut self) -> (r: bool)
        ensures
            r == old(self).invalidated(),
            *final(self) == *old(self),
    ;

    /// The widget's current origin.
    fn get_origin(&mut self) -> (r: Point)
        ensures
            r == old(self).origin(),
            *final(self) == *old(self),
    ;

    /// The widget's current size.
    fn get_size(&mut self) -> (r: Size)
        ensures
            r == old(self).extent(),
            *final(self) == *old(self),
    ;

    /// Whether the widget produces events of its own.
    fn injects_events(&mut self) -> (r: bool)
        ensures
            r == old(self).injects(),
            *final(self) == *old(self),
    ;

    /// Hands out the pending event, once: afterwards nothing is pending.
    fn inject_event(&mut self) -> (r: Option<CallbackEvent>)
        requires
            old(self).injects(),
        ensures
            r == old(self).pending(),
            final(self).pending() is None,
    ;

    /// Called once per frame by the host; a widget without visuals uses it as
    /// its per-frame tick.
    fn draw(&mut self);
}

} // verus!
