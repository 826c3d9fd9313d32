//! Verified core of a custom USB HID LED controller.
//!
//! A host computer sends 4-byte command reports that set the brightness of
//! three LED channels (white, infrared, ultraviolet); the device answers
//! standard HID requests with a vendor-defined report descriptor and drives
//! three PWM outputs. This crate holds everything with a protocol contract:
//! the report descriptor and its grammar, the fixed-width binary codec, the
//! error taxonomy, and the control-loop state machine that clamps duty
//! cycles and dispatches them to the PWM channels. The USB transport and the
//! PWM hardware themselves live outside the crate and hand it plain bytes.

pub mod codec;
pub mod control;
pub mod descriptor;
pub mod error;
