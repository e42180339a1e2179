//! A small library behind two gamepad demonstration programs: one that logs
//! physical input events, and one that drives a virtual Xbox 360 controller
//! through a fixed script of button presses and stick movements.
//!
//! The library holds the pure logic of both: the gamepad state snapshots, the
//! fixed action script and the exact sequence of state updates it unfolds
//! into, and the rendering of input events into log lines. The thin binary
//! around it performs the device I/O and the sleeps.

pub mod events;
pub mod pad;
pub mod script;
