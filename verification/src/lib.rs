//! The decisions of a driver for the Bosto T608 graphics tablet.
//!
//! The tablet sends packets over USB ([`packet`]). For each one the
//! [`dispatcher`] says what has to be emitted on three virtual input devices,
//! and remembers what it needs for the next. What a packet calls for is written
//! down in [`model`]. What that means for the tablet and for the system, from
//! bytes to codes and values, is in [`behaviour`]; what else holds of it is in
//! [`laws`], and over time in [`history`]. The devices' side is an [`outbox`],
//! which takes emissions until a device refuses one; what the devices have to
//! advertise beforehand is in [`setup`].
//!
//! [`physical_device`] says how to get hold of the tablet, [`session`] how a
//! session goes. Neither does any I/O: they say what to do next, and are told
//! what came of it.

pub mod action;
pub mod attributes;
pub mod behaviour;
pub mod debug;
pub mod dispatcher;
pub mod history;
pub mod input;
pub mod laws;
pub mod model;
pub mod outbox;
pub mod packet;
pub mod physical_device;
pub mod session;
pub mod setup;
pub mod usb;
