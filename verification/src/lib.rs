//! Sans-I/O core of a kettle alarm: a square-wave tone generator driven by a
//! timer's compare-match events, a driver for a single-wire temperature
//! sensor, and the controller that sounds the alarm when the water boils.
//!
//! Nothing here touches a register or a pin. Every operation is a transition
//! on plain values; the firmware performs the bus transactions and mirrors the
//! generator's state to the hardware inside its critical sections.

pub mod alarm;
pub mod error;
pub mod resolution;
pub mod rom;
pub mod temp;
pub mod tone;
