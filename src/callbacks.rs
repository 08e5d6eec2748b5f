//! Registry of typed callbacks, stored under numeric slot identifiers.
use vstd::prelude::*;

use crate::point::{Point, Size};
use piston_window::{Button, ButtonState, Key};
use std::collections::HashMap;

verus! {

/// Key code reported by piston's input layer, carried through to key callbacks.
#[verifier::external_type_specification]
#[verifier::external_body]
pub struct ExKey(piston_window::Key);

/// Press or release state reported by piston's input layer.
#[verifier::external_type_specification]
#[verifier::external_body]
pub struct ExButtonState(piston_window::ButtonState);

/// Keyboard, mouse or controller button reported by piston's input layer.
#[verifier::external_type_specification]
#[verifier::external_body]
pub struct ExButton(piston_window::Button);

/// Slot for the "mouse entered" hook; holds a `SingleCallback`.
pub const CALLBACK_MOUSE_ENTERED: u32 = 1;

/// Slot for the "mouse exited" hook; holds a `SingleCallback`.
pub const CALLBACK_MOUSE_EXITED: u32 = 2;

/// Slot for the "mouse scrolled" hook; holds a `PointCallback`.
pub const CALLBACK_MOUSE_SCROLLED: u32 = 3;

/// Slot for the "mouse moved" hook; holds a `PointCallback`.
pub const CALLBACK_MOUSE_MOVED: u32 = 4;

/// Slot for the "key pressed" hook; holds a `KeyCallback`.
pub const CALLBACK_KEY_PRESSED: u32 = 5;

/// Slot for the "window resized" hook; holds a `SizeCallback`.
pub const CALLBACK_WINDOW_RESIZED: u32 = 6;

/// Slot for the "window focused" hook; holds a `BoolCallback`.
pub const CALLBACK_WINDOW_FOCUSED: u32 = 7;

/// Slot for the "button pressed down" hook; holds a `ButtonCallback`.
pub const CALLBACK_BUTTON_DOWN: u32 = 8;

/// Slot for the "button released inside the same widget" hook; holds a `ButtonCallback`.
pub const CALLBACK_BUTTON_UP_INSIDE: u32 = 9;

/// A boxed closure that takes its arguments as one value `A` (a tuple for
/// several arguments). Verus cannot look inside a `dyn Fn`, so the box is kept
/// opaque: a callback is created from a closure and invoked by reference, any
/// number of times.
#[verifier::external_body]
#[verifier::reject_recursive_types(A)]
pub struct Callback<A> {
    callback: Box<dyn Fn(A)>,
}

impl<A> Callback<A> {
    /// Boxes the closure `f`.
    #[verifier::external_body]
    pub fn new<F: Fn(A) + 'static>(f: F) -> Self {
        Callback { callback: Box::new(f) }
    }

    /// Invokes the boxed closure with `args`; the callback itself is only borrowed.
    #[verifier::external_body]
    pub fn call(&self, args: A) {
        (self.callback)(args)
    }
}

/// Callback that takes no input.
pub type BlankCallback = Callback<()>;

/// Callback that takes a widget ID.
pub type SingleCallback = Callback<i32>;

/// Callback that takes a widget ID and a flag.
pub type BoolCallback = Callback<(i32, bool)>;

/// Callback that takes a widget ID and a point on the screen.
pub type PointCallback = Callback<(i32, Point)>;

/// Callback that takes a widget ID and a size.
pub type SizeCallback = Callback<(i32, Size)>;

/// Callback that takes a widget ID, a key code and its press/release state.
pub type KeyCallback = Callback<(i32, Key, ButtonState)>;

/// Callback that takes a widget ID and a button code.
pub type ButtonCallback = Callback<(i32, Button)>;

/// One callback, tagged with the shape of the arguments it takes. The host
/// matches on the tag and calls the closure with the matching arguments.
pub enum CallbackTypes {
    /// Callback that calls a function without any data.
    BlankCallback { callback: BlankCallback },
    /// Callback that only supplies its widget ID.
    SingleCallback { callback: SingleCallback },
    /// Callback that supplies its widget ID and a boolean flag.
    BoolCallback { callback: BoolCallback },
    /// Callback that supplies its widget ID and a point within the widget.
    PointCallback { callback: PointCallback },
    /// Callback that supplies its widget ID and a size.
    SizeCallback { callback: SizeCallback },
    /// Callback that supplies its widget ID, a key code, and button state.
    KeyCallback { callback: KeyCallback },
    /// Callback that supplies its widget ID and a button code.
    ButtonCallback { callback: ButtonCallback },
}

/// An event produced by a widget outside the normal input path, handed to the
/// host loop exactly once by injection.
#[derive(Clone, Copy, Debug, PartialEq, Eq, Structural)]
pub enum CallbackEvent {
    /// A timer reached its timeout.
    TimerTriggered { widget_id: i32 },
}

/// The callbacks of one widget, one per slot; writing a slot again replaces
/// what it held.
pub struct CallbackStore {
    callbacks: HashMap<u32, CallbackTypes>,
}

impl View for CallbackStore {
    type V = Map<u32, CallbackTypes>;

    closed spec fn view(&self) -> Map<u32, CallbackTypes> {
        self.callbacks@
    }
}

impl CallbackStore {
    /// Creates a store with no slot filled.
    pub fn new() -> (r: Self)
        ensures
            r@ == Map::<u32, CallbackTypes>::empty(),
    {
        CallbackStore { callbacks: HashMap::new() }
    }

    /// Stores `func` at slot `id`, replacing what was there.
    pub fn put(&mut self, id: u32, func: CallbackTypes)
        ensures
            final(self)@ == old(self)@.insert(id, func),
    {
        self.callbacks.insert(id, func);
    }

    /// Whether slot `id` holds a callback.
    pub fn contains(&self, id: u32) -> (r: bool)
        ensures
            r == self@.contains_key(id),
    {
        self.callbacks.contains_key(&id)
    }

    /// Returns the callback at slot `id`. A slot that holds nothing is first
    /// filled with a `BlankCallback` that does nothing, so the lookup never
    /// fails; a caller that expected another shape falls into its fallback arm.
    pub fn get(&mut self, id: u32) -> (r: &CallbackTypes)
        ensures
            old(self)@.contains_key(id) ==> final(self)@ == old(self)@ && *r == old(self)@[id],
            !old(self)@.contains_key(id) ==> final(self)@ == old(self)@.insert(id, *r)
                && *r is BlankCallback,
    {
        if !self.callbacks.contains_key(&id) {
            self.put(id, CallbackTypes::BlankCallback { callback: Callback::new(|_args: ()| {}) });
        }
        self.callbacks.get(&id).unwrap()
    }
}

/// A lookup after storing `v` at slot `id` finds the slot filled, leaves the
/// store as it is, and returns `v` itself, so the closure it calls is the one
/// that was stored.
pub proof fn lemma_get_after_put(m: Map<u32, CallbackTypes>, id: u32, v: CallbackTypes)
    ensures
        m.insert(id, v).contains_key(id),
        m.insert(id, v)[id] == v,
{
}

/// The first lookup of an empty slot fills it with the blank callback it
/// returns; a second lookup finds the slot filled and returns that same
/// callback, leaving the store as it is.
pub proof fn lemma_default_is_kept(m: Map<u32, CallbackTypes>, id: u32, r: CallbackTypes)
    requires
        !m.contains_key(id),
        r is BlankCallback,
    ensures
        m.insert(id, r).contains_key(id),
        m.insert(id, r)[id] == r,
        m.insert(id, r)[id] is BlankCallback,
        m.insert(id, r).remove(id) == m,
{
    assert(m.insert(id, r).remove(id) =~= m);
}

} // verus!
