//! Debouncing of mouse buttons: a per-button decision engine that drops
//! contact bounce, the translator that routes device events through it, and
//! the decisions of the device session and of the supervisor that restarts
//! sessions after the device is lost.

use vstd::prelude::*;

pub mod buttons;
pub mod engine;
pub mod session;
pub mod supervisor;
pub mod translator;

verus! {

} // verus!
