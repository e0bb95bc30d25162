//! Core of a brightness daemon: a target brightness is derived from an
//! ambient-light sensor reading and a user-adjustable offset, and the
//! commands that forward it to the displays are produced whenever it changes.
//!
//! Everything here is pure computation on plain values. Reading the sensor,
//! sleeping, spawning processes and serving the bus or the tray are left to
//! the host program, which feeds this crate and carries out what it returns.

pub mod brightness;
pub mod config;
pub mod control;
pub mod decimal;
pub mod dispatch;
pub mod offset;
pub mod sensor;
