//! Verified core of a USB composite input device: a macro keypad with a
//! rotary encoder, exposed to the host as two independent HID interfaces
//! (a boot-protocol keyboard and a consumer-control interface).
//!
//! The crate holds the device's decision logic as pure, contract-checked
//! functions: classifying button edges, validating quadrature detents,
//! buffering events on a bounded drop-oldest bus, and synthesizing the
//! outbound HID reports. The surrounding tasks (GPIO edge waits, timers,
//! USB transmission) drive these functions and perform the actual I/O.

pub mod bus;
pub mod buttons;
pub mod encoder;
pub mod hid;
pub mod layouts;
pub mod led;
pub mod uart;
