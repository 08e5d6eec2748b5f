//! Event and callback core of a small widget toolkit: a registry of typed
//! callbacks keyed by slot, the capability contract every widget honours, and
//! an invisible timer widget that injects events on its own.

pub mod point;
pub mod callbacks;
pub mod widget;
pub mod timer_widget;
