//! The interface wrapper, the device-class adapter and the control-loop
//! state machine.
//!
//! The raw USB transport stays outside the crate: each loop iteration it
//! hands in a [`TransportEvent`] — the bytes of a freshly buffered report, a
//! would-block condition, or a fault — and takes back plain bytes to send.
//! Everything decided from that event is verified here: decoding, the error
//! taxonomy, duty-cycle clamping, and the fail-static rule that no malformed
//! or missing command ever changes the PWM state or stops the loop.

use vstd::prelude::*;

use crate::codec::{
    CustomHidCommand, CustomHidReport, REPORT_WIRE_SIZE, spec_pack_report, spec_unpack_command,
};
use crate::error::HidError;

verus! {

/// Highest duty-cycle percentage the PWM hardware accepts.
pub const MAX_DUTY_PERCENT: u8 = 100;

/// What the non-blocking transport read produced this iteration.
///
/// `Report` carries exactly the bytes of the most recently buffered inbound
/// report (older unconsumed reports are dropped by the transport's
/// single-slot buffering). `WouldBlock` means no new report since the last
/// poll. `Fault` stands for any other transport-layer error.
#[derive(Clone, Copy, Debug)]
pub enum TransportEvent<'a> {
    Report(&'a [u8]),
    WouldBlock,
    Fault,
}

/// A duty value clamped to the inclusive PWM range [0, 100]: values above
/// 100 truncate to 100, values already in range pass through.
pub open spec fn spec_clamp(duty: u8) -> u8 {
    if duty > MAX_DUTY_PERCENT {
        MAX_DUTY_PERCENT
    } else {
        duty
    }
}

/// Clamps a wire duty byte (0-255) to the PWM percentage range [0, 100].
pub fn clamp_duty(duty: u8) -> (r: u8)
    ensures
        r == spec_clamp(duty),
        r <= MAX_DUTY_PERCENT,
{
    if duty > MAX_DUTY_PERCENT {
        MAX_DUTY_PERCENT
    } else {
        duty
    }
}

/// Clamping is the identity on [0, 100], is exactly 100 above, and is
/// idempotent.
pub proof fn lemma_clamp_idempotent(duty: u8)
    ensures
        duty <= MAX_DUTY_PERCENT ==> spec_clamp(duty) == duty,
        duty > MAX_DUTY_PERCENT ==> spec_clamp(duty) == MAX_DUTY_PERCENT,
        spec_clamp(spec_clamp(duty)) == spec_clamp(duty),
{
}

/// The duty cycle currently applied to each of the three exclusively owned
/// PWM channel handles, in percent.
#[derive(Clone, Copy, Debug, PartialEq, Eq, Structural)]
pub struct PwmState {
    /// White LED channel.
    pub wh: u8,
    /// Infrared LED channel.
    pub ir: u8,
    /// Ultraviolet LED channel.
    pub uv: u8,
}

/// Every duty the hardware is asked for lies in [0, 100]; out-of-range input
/// to the set-duty-cycle primitive would violate its contract.
pub open spec fn wf_pwm(s: PwmState) -> bool {
    s.wh <= MAX_DUTY_PERCENT && s.ir <= MAX_DUTY_PERCENT && s.uv <= MAX_DUTY_PERCENT
}

/// The PWM state a command leaves behind: each field clamped to [0, 100].
pub open spec fn spec_apply(c: CustomHidCommand) -> PwmState {
    PwmState { wh: spec_clamp(c.wh), ir: spec_clamp(c.ir), uv: spec_clamp(c.uv) }
}

impl PwmState {
    /// Initial state of the three channels, each clamped into range.
    pub fn new(wh: u8, ir: u8, uv: u8) -> (s: Self)
        ensures
            s == (PwmState { wh: spec_clamp(wh), ir: spec_clamp(ir), uv: spec_clamp(uv) }),
            wf_pwm(s),
    {
        PwmState { wh: clamp_duty(wh), ir: clamp_duty(ir), uv: clamp_duty(uv) }
    }
}

/// One LED channel, named for dispatching duty updates to its PWM handle.
#[derive(Clone, Copy, Debug, PartialEq, Eq, Structural)]
pub enum Channel {
    White,
    Infrared,
    Ultraviolet,
}

/// The duty updates a command dispatches, in the fixed order infrared,
/// white, ultraviolet. Each channel is independent, so the order has no
/// observable effect, but it stays constant for determinism.
pub fn channel_updates(cmd: &CustomHidCommand) -> (r: Vec<(Channel, u8)>)
    ensures
        r@ == seq![
            (Channel::Infrared, spec_clamp(cmd.ir)),
            (Channel::White, spec_clamp(cmd.wh)),
            (Channel::Ultraviolet, spec_clamp(cmd.uv)),
        ],
{
    let mut r: Vec<(Channel, u8)> = Vec::new();
    r.push((Channel::Infrared, clamp_duty(cmd.ir)));
    r.push((Channel::White, clamp_duty(cmd.wh)));
    r.push((Channel::Ultraviolet, clamp_duty(cmd.uv)));
    proof {
        assert(r@ =~= seq![
            (Channel::Infrared, spec_clamp(cmd.ir)),
            (Channel::White, spec_clamp(cmd.wh)),
            (Channel::Ultraviolet, spec_clamp(cmd.uv)),
        ]);
    }
    r
}

/// The custom HID class: composes the codec with the transport bytes and
/// implements the polling contract a generic USB device loop expects of a
/// class driver. It holds no command state — it has exactly one operating
/// state ("ready") for its whole lifetime.
#[derive(Clone, Copy, Debug, PartialEq, Eq, Structural)]
pub struct CustomHid {}

impl CustomHid {
    /// A ready HID class instance.
    pub fn new() -> (h: Self)
        ensures
            h == (CustomHid {}),
    {
        CustomHid {}
    }

    /// Packs a status report into the bytes to hand to the transport's
    /// outbound report slot. Packing cannot fail, so nothing reaches the
    /// transport half-written.
    pub fn write_report(&mut self, report: &CustomHidReport) -> (data: [u8; REPORT_WIRE_SIZE])
        ensures
            data@ == spec_pack_report(*report),
            *final(self) == *old(self),
    {
        report.pack()
    }

    /// Decodes the latest transport event into `command`.
    ///
    /// On a 4-byte report the command is replaced by the decoded value and
    /// the call succeeds. On anything else `command` is left untouched and
    /// the event is classified: a report of any other length is a
    /// `SerializationError`, no new data is `WouldBlock`, and a transport
    /// fault passes through as `TransportError`.
    pub fn read_report(&mut self, event: TransportEvent<'_>, command: &mut CustomHidCommand) -> (r:
        Result<(), HidError>)
        ensures
            *final(self) == *old(self),
            event matches TransportEvent::Report(b) ==> (if b@.len() == REPORT_WIRE_SIZE {
                r == Ok::<(), HidError>(()) && *final(command) == spec_unpack_command(b@)
            } else {
                r == Err::<(), HidError>(HidError::SerializationError) && *final(command) == *old(
                    command,
                )
            }),
            event matches TransportEvent::WouldBlock ==> r == Err::<(), HidError>(
                HidError::WouldBlock,
            ) && *final(command) == *old(command),
            event matches TransportEvent::Fault ==> r == Err::<(), HidError>(
                HidError::TransportError,
            ) && *final(command) == *old(command),
    {
        match event {
            TransportEvent::Report(bytes) => match CustomHidCommand::unpack(bytes) {
                Ok(cmd) => {
                    *command = cmd;
                    Ok(())
                },
                Err(e) => Err(e),
            },
            TransportEvent::WouldBlock => Err(HidError::WouldBlock),
            TransportEvent::Fault => Err(HidError::TransportError),
        }
    }

    /// Bus-reset hook of the polling contract: a no-op, there is no internal
    /// state to clear.
    pub fn reset(&mut self)
        ensures
            *final(self) == *old(self),
    {
    }

    /// Periodic tick hook of the polling contract: a no-op returning
    /// success, the command protocol is strictly host-initiated.
    pub fn tick(&mut self) -> (r: Result<(), HidError>)
        ensures
            r == Ok::<(), HidError>(()),
            *final(self) == *old(self),
    {
        Ok(())
    }
}

/// One control-loop iteration's decision: the PWM state to apply and the
/// outcome to report.
///
/// A well-formed 4-byte report decodes and sets every channel to its clamped
/// duty. Every other event leaves the PWM state bit-identical to the state
/// before the iteration — would-block by design, malformed input and
/// transport faults by the fail-static rule — and no event ever stops the
/// loop.
pub fn step(state: &PwmState, event: TransportEvent<'_>) -> (r: (
    PwmState,
    Result<CustomHidCommand, HidError>,
))
    ensures
        event matches TransportEvent::Report(b) ==> (if b@.len() == REPORT_WIRE_SIZE {
            r.1 == Ok::<CustomHidCommand, HidError>(spec_unpack_command(b@)) && r.0 == spec_apply(
                spec_unpack_command(b@),
            ) && wf_pwm(r.0)
        } else {
            r.1 == Err::<CustomHidCommand, HidError>(HidError::SerializationError) && r.0 == *state
        }),
        event matches TransportEvent::WouldBlock ==> r.1 == Err::<CustomHidCommand, HidError>(
            HidError::WouldBlock,
        ) && r.0 == *state,
        event matches TransportEvent::Fault ==> r.1 == Err::<CustomHidCommand, HidError>(
            HidError::TransportError,
        ) && r.0 == *state,
        wf_pwm(*state) ==> wf_pwm(r.0),
{
    match event {
        TransportEvent::Report(bytes) => match CustomHidCommand::unpack(bytes) {
            Ok(cmd) => {
                let next = PwmState {
                    wh: clamp_duty(cmd.wh),
                    ir: clamp_duty(cmd.ir),
                    uv: clamp_duty(cmd.uv),
                };
                (next, Ok(cmd))
            },
            Err(e) => (*state, Err(e)),
        },
        TransportEvent::WouldBlock => (*state, Err(HidError::WouldBlock)),
        TransportEvent::Fault => (*state, Err(HidError::TransportError)),
    }
}

} // verus!

