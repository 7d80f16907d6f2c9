//! Activity-driven keyboard backlight control for laptops whose embedded
//! controller speaks the ChromeOS EC host-command interface.
//!
//! The crate holds the decisions of the daemon and nothing that touches a
//! device: callers read the hardware, hand the values in, and carry out the
//! commands and pauses that come back.

pub mod activity;
pub mod command;
pub mod devices;
pub mod fade;
pub mod monitor;
pub mod protocol;
