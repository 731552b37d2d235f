//! Marker type for the serial-bridge collaborator.
//!
//! The bridge task is an independent bidirectional byte relay between a
//! USB serial endpoint and a hardware UART; it shares no state with the
//! input pipeline and its I/O loops live with the other tasks. Its relay
//! legs stop with this marker when the host side of the USB endpoint
//! goes away, and the task then waits for the next connection.

use vstd::prelude::*;

verus! {

/// The USB serial endpoint is no longer connected; the relay leg that
/// observed it ends and the bridge waits for a reconnect.
#[derive(Clone, Copy, Debug, PartialEq, Eq, Structural)]
pub struct Disconnected {}

} // verus!
