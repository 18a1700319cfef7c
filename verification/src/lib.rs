//! A Bluetooth Low Energy keyboard and mouse, as far as it can be decided
//! without touching a radio: which usage a key reports, what bytes a report
//! holds, which keys are held, and what a session does with each event.
//!
//! The modules, leaves first: [`consts`] and [`gatt`] describe the fixed GATT
//! surface, [`hid`] encodes usages and reports and declares them in the HID
//! service, [`tracker`] holds the input state, [`session`] arbitrates between
//! the peripheral stack and the input producers, [`ui`] is the producer for a
//! window, and [`host_power`] finds the host's battery level in what the
//! system reports.

pub mod consts;
pub mod gatt;
pub mod hid;
pub mod host_power;
pub mod session;
pub mod tracker;
pub mod ui;
