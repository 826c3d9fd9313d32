//! Tests for the interface wrapper, the device-class adapter and the
//! control-loop state machine.

use custom_hid::codec::{CustomHidCommand, CustomHidReport};
use custom_hid::control::{
    clamp_duty, channel_updates, step, Channel, CustomHid, PwmState, TransportEvent,
};
use custom_hid::error::HidError;

#[test]
fn clamp_is_identity_on_valid_range() {
    for duty in 0u8..=100 {
        assert_eq!(clamp_duty(duty), duty);
    }
}

#[test]
fn clamp_truncates_to_100_above_range() {
    for duty in 101u8..=255 {
        assert_eq!(clamp_duty(duty), 100);
    }
}

#[test]
fn clamp_is_idempotent() {
    for duty in 0u8..=255 {
        assert_eq!(clamp_duty(clamp_duty(duty)), clamp_duty(duty));
    }
}

#[test]
fn read_report_decodes_nominal_command() {
    let mut hid = CustomHid::new();
    let mut command = CustomHidCommand::default();
    let r = hid.read_report(TransportEvent::Report(&[50, 75, 25, 0]), &mut command);
    assert_eq!(r, Ok(()));
    assert_eq!(command, CustomHidCommand { wh: 50, ir: 75, uv: 25, reserved: 0 });
}

#[test]
fn read_report_would_block_leaves_command() {
    let mut hid = CustomHid::new();
    let mut command = CustomHidCommand { wh: 9, ir: 8, uv: 7, reserved: 6 };
    let before = command;
    let r = hid.read_report(TransportEvent::WouldBlock, &mut command);
    assert_eq!(r, Err(HidError::WouldBlock));
    assert_eq!(command, before);
}

#[test]
fn read_report_rejects_malformed_lengths() {
    let mut hid = CustomHid::new();
    let mut command = CustomHidCommand { wh: 1, ir: 2, uv: 3, reserved: 4 };
    let before = command;
    for bytes in [&[10u8, 20, 30][..], &[10u8, 20, 30, 40, 50][..], &[][..]] {
        let r = hid.read_report(TransportEvent::Report(bytes), &mut command);
        assert_eq!(r, Err(HidError::SerializationError));
        assert_eq!(command, before);
    }
}

#[test]
fn read_report_passes_transport_fault_through() {
    let mut hid = CustomHid::new();
    let mut command = CustomHidCommand::default();
    let before = command;
    let r = hid.read_report(TransportEvent::Fault, &mut command);
    assert_eq!(r, Err(HidError::TransportError));
    assert_eq!(command, before);
}

#[test]
fn write_report_hands_packed_bytes_to_transport() {
    let mut hid = CustomHid::new();
    let report = CustomHidReport { data: 0xa1b2_c3d4 };
    assert_eq!(hid.write_report(&report), [0xd4, 0xc3, 0xb2, 0xa1]);
}

#[test]
fn adapter_reset_and_tick_are_ready_noops() {
    let mut hid = CustomHid::new();
    hid.reset();
    assert_eq!(hid.tick(), Ok(()));
}

#[test]
fn step_nominal_command() {
    let state = PwmState::new(25, 50, 75);
    let (next, outcome) = step(&state, TransportEvent::Report(&[50, 75, 25, 0]));
    assert_eq!(outcome, Ok(CustomHidCommand { wh: 50, ir: 75, uv: 25, reserved: 0 }));
    assert_eq!(next, PwmState { wh: 50, ir: 75, uv: 25 });
}

#[test]
fn step_saturating_command() {
    let state = PwmState::new(0, 0, 0);
    let (next, outcome) = step(&state, TransportEvent::Report(&[255, 0, 200, 0]));
    assert!(outcome.is_ok());
    assert_eq!(next, PwmState { wh: 100, ir: 0, uv: 100 });
}

#[test]
fn step_would_block_keeps_state_bit_identical() {
    let state = PwmState::new(25, 50, 75);
    let (next, outcome) = step(&state, TransportEvent::WouldBlock);
    assert_eq!(outcome, Err(HidError::WouldBlock));
    assert_eq!(next, state);
}

#[test]
fn step_malformed_input_keeps_state() {
    let state = PwmState::new(25, 50, 75);
    for bytes in [&[50u8, 75, 25][..], &[50u8, 75, 25, 0, 0][..]] {
        let (next, outcome) = step(&state, TransportEvent::Report(bytes));
        assert_eq!(outcome, Err(HidError::SerializationError));
        assert_eq!(next, state);
    }
}

#[test]
fn step_transport_fault_keeps_state() {
    let state = PwmState::new(1, 2, 3);
    let (next, outcome) = step(&state, TransportEvent::Fault);
    assert_eq!(outcome, Err(HidError::TransportError));
    assert_eq!(next, state);
}

#[test]
fn update_order_is_infrared_white_ultraviolet() {
    let cmd = CustomHidCommand { wh: 255, ir: 0, uv: 200, reserved: 0 };
    let updates = channel_updates(&cmd);
    assert_eq!(
        updates,
        vec![
            (Channel::Infrared, 0),
            (Channel::White, 100),
            (Channel::Ultraviolet, 100),
        ]
    );
}

#[test]
fn initial_state_is_clamped_into_range() {
    let s = PwmState::new(255, 101, 100);
    assert_eq!(s, PwmState { wh: 100, ir: 100, uv: 100 });
}
