//! Fixed-width binary codec for the two HID report types.
//!
//! Both reports travel as exactly 4 bytes. Packing lays the fields out in
//! declaration order, little-endian; unpacking is its inverse and rejects any
//! buffer whose length is not exactly 4 — no truncation, no padding, no
//! partial decode. The codec is format-only: duty-cycle bytes are
//! unconstrained here, range clamping belongs to the control loop.

use vstd::prelude::*;

use crate::error::HidError;

verus! {

/// Number of bytes of every report on the wire.
pub const REPORT_WIRE_SIZE: usize = 4;

/// Status report (device -> host): one unsigned 32-bit field, four byte
/// lanes reserved for future telemetry, currently opaque.
#[derive(Clone, Copy, Debug, PartialEq, Eq, Structural)]
pub struct CustomHidReport {
    pub data: u32,
}

/// Command report (host -> device): intended duty percentage for each LED
/// channel. The wire value of each duty byte is unconstrained (0-255); the
/// control loop clamps it to the PWM range. `reserved` is padding that
/// consumers must ignore and may hold any value.
#[derive(Clone, Copy, Debug, PartialEq, Eq, Structural)]
pub struct CustomHidCommand {
    /// Duty percent for the white LED channel.
    pub wh: u8,
    /// Duty percent for the infrared LED channel.
    pub ir: u8,
    /// Duty percent for the ultraviolet LED channel.
    pub uv: u8,
    /// Unused padding byte.
    pub reserved: u8,
}

/// The 4 wire bytes of a command report, in field-declaration order.
pub open spec fn spec_pack_command(c: CustomHidCommand) -> Seq<u8> {
    seq![c.wh, c.ir, c.uv, c.reserved]
}

/// The command report encoded by 4 wire bytes.
pub open spec fn spec_unpack_command(b: Seq<u8>) -> CustomHidCommand
    recommends
        b.len() == REPORT_WIRE_SIZE,
{
    CustomHidCommand { wh: b[0], ir: b[1], uv: b[2], reserved: b[3] }
}

/// The 4 wire bytes of a status report: its 32-bit field, little-endian.
pub open spec fn spec_pack_report(r: CustomHidReport) -> Seq<u8> {
    seq![
        (r.data & 0xff) as u8,
        ((r.data >> 8) & 0xff) as u8,
        ((r.data >> 16) & 0xff) as u8,
        ((r.data >> 24) & 0xff) as u8,
    ]
}

/// The 32-bit status field encoded by 4 little-endian wire bytes.
pub open spec fn spec_report_data(b: Seq<u8>) -> u32
    recommends
        b.len() == REPORT_WIRE_SIZE,
{
    (b[0] as u32) | ((b[1] as u32) << 8) | ((b[2] as u32) << 16) | ((b[3] as u32) << 24)
}

impl Default for CustomHidCommand {
    /// The all-zero command: every channel dark.
    fn default() -> (c: Self)
        ensures
            c == (CustomHidCommand { wh: 0, ir: 0, uv: 0, reserved: 0 }),
    {
        CustomHidCommand { wh: 0, ir: 0, uv: 0, reserved: 0 }
    }
}

impl Default for CustomHidReport {
    /// The all-zero status report.
    fn default() -> (r: Self)
        ensures
            r == (CustomHidReport { data: 0 }),
    {
        CustomHidReport { data: 0 }
    }
}

impl CustomHidCommand {
    /// Serializes the command into its fixed-width wire layout.
    /// Packing never fails: every field is already byte-sized.
    pub fn pack(&self) -> (data: [u8; REPORT_WIRE_SIZE])
        ensures
            data@ == spec_pack_command(*self),
    {
        let data: [u8; REPORT_WIRE_SIZE] = [self.wh, self.ir, self.uv, self.reserved];
        proof {
            assert(data@ =~= spec_pack_command(*self));
        }
        data
    }

    /// Decodes a wire buffer, all-or-nothing: a buffer whose length is not
    /// exactly 4 is rejected with `SerializationError`, never truncated or
    /// padded.
    pub fn unpack(bytes: &[u8]) -> (r: Result<Self, HidError>)
        ensures
            bytes@.len() == REPORT_WIRE_SIZE ==> r == Ok::<Self, HidError>(
                spec_unpack_command(bytes@),
            ),
            bytes@.len() != REPORT_WIRE_SIZE ==> r == Err::<Self, HidError>(
                HidError::SerializationError,
            ),
    {
        if bytes.len() == REPORT_WIRE_SIZE {
            Ok(CustomHidCommand { wh: bytes[0], ir: bytes[1], uv: bytes[2], reserved: bytes[3] })
        } else {
            Err(HidError::SerializationError)
        }
    }
}

impl CustomHidReport {
    /// Serializes the status report into its little-endian wire layout.
    /// Packing never fails.
    pub fn pack(&self) -> (data: [u8; REPORT_WIRE_SIZE])
        ensures
            data@ == spec_pack_report(*self),
    {
        let data: [u8; REPORT_WIRE_SIZE] = [
            (self.data & 0xff) as u8,
            ((self.data >> 8) & 0xff) as u8,
            ((self.data >> 16) & 0xff) as u8,
            ((self.data >> 24) & 0xff) as u8,
        ];
        proof {
            assert(data@ =~= spec_pack_report(*self));
        }
        data
    }

    /// Decodes a wire buffer, all-or-nothing, as `CustomHidCommand::unpack`.
    pub fn unpack(bytes: &[u8]) -> (r: Result<Self, HidError>)
        ensures
            bytes@.len() == REPORT_WIRE_SIZE ==> r == Ok::<Self, HidError>(
                CustomHidReport { data: spec_report_data(bytes@) },
            ),
            bytes@.len() != REPORT_WIRE_SIZE ==> r == Err::<Self, HidError>(
                HidError::SerializationError,
            ),
    {
        if bytes.len() == REPORT_WIRE_SIZE {
            let data = (bytes[0] as u32) | ((bytes[1] as u32) << 8) | ((bytes[2] as u32) << 16) | (
            (bytes[3] as u32) << 24);
            Ok(CustomHidReport { data })
        } else {
            Err(HidError::SerializationError)
        }
    }
}

/// Unpacking inverts packing: every command report survives the wire
/// unchanged, for all four byte fields over their full range.
pub proof fn lemma_command_round_trip(c: CustomHidCommand)
    ensures
        spec_unpack_command(spec_pack_command(c)) == c,
{
}

/// Packing inverts unpacking: every 4-byte buffer is reproduced exactly by
/// re-packing the command it decodes to, so the codec is a bijection on
/// 4-byte buffers.
pub proof fn lemma_command_bytes_round_trip(b: Seq<u8>)
    requires
        b.len() == REPORT_WIRE_SIZE,
    ensures
        spec_pack_command(spec_unpack_command(b)) == b,
{
    assert(spec_pack_command(spec_unpack_command(b)) =~= b);
}

/// The status codec is symmetric too: unpacking the packed bytes of a status
/// report yields the original 32-bit field.
pub proof fn lemma_report_round_trip(r: CustomHidReport)
    ensures
        spec_report_data(spec_pack_report(r)) == r.data,
{
    let d = r.data;
    assert(((d & 0xff) as u8 as u32) | ((((d >> 8) & 0xff) as u8 as u32) << 8) | ((((d >> 16)
        & 0xff) as u8 as u32) << 16) | ((((d >> 24) & 0xff) as u8 as u32) << 24) == d)
        by (bit_vector);
}

/// And the other direction: re-packing the status report decoded from any
/// 4-byte buffer reproduces the buffer.
pub proof fn lemma_report_bytes_round_trip(b: Seq<u8>)
    requires
        b.len() == REPORT_WIRE_SIZE,
    ensures
        spec_pack_report(CustomHidReport { data: spec_report_data(b) }) == b,
{
    let b0 = b[0];
    let b1 = b[1];
    let b2 = b[2];
    let b3 = b[3];
    let d = spec_report_data(b);
    assert(d == (b0 as u32) | ((b1 as u32) << 8) | ((b2 as u32) << 16) | ((b3 as u32) << 24));
    assert({
        let v = (b0 as u32) | ((b1 as u32) << 8) | ((b2 as u32) << 16) | ((b3 as u32) << 24);
        (v & 0xff) as u8 == b0 && ((v >> 8) & 0xff) as u8 == b1 && ((v >> 16) & 0xff) as u8 == b2
            && ((v >> 24) & 0xff) as u8 == b3
    }) by (bit_vector);
    assert(spec_pack_report(CustomHidReport { data: d }) =~= b);
}

} // verus!
