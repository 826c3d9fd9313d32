//! The closed error taxonomy shared by the codec, the interface wrapper and
//! the control loop.

use vstd::prelude::*;

verus! {

/// Outcome classification for the HID report paths.
///
/// `WouldBlock` is not an operational error: it reports that no new command
/// has arrived since the last poll, the dominant outcome of most control-loop
/// iterations. `SerializationError` marks a byte payload of the wrong shape
/// met while packing or unpacking a report. `TransportError` covers every
/// other fault of the underlying transport (endpoint stall, overflow, ...),
/// which the control loop absorbs without stopping.
#[derive(Clone, Copy, Debug, PartialEq, Eq, Structural)]
pub enum HidError {
    WouldBlock,
    SerializationError,
    TransportError,
}

} // verus!
