//! Tests of mode toggling, packet-time configuration, frame layout and
//! pacing.

use open_dmx::DMX_CHANNELS;
use open_dmx::dmx_serial::AgentCommunication;
use open_dmx::dmx_serial::DMXSerial;
use open_dmx::frame::DataBits;
use open_dmx::frame::Parity;
use open_dmx::frame::StopBits;
use open_dmx::frame::WorkerEvent;
use open_dmx::frame::break_line_settings;
use open_dmx::frame::data_line_settings;
use open_dmx::frame::encode_frame;
use open_dmx::frame::pause_after_frame_us;
use open_dmx::frame::plan_frame;
use open_dmx::frame::worker_continues;
use open_dmx::frame::DEFAULT_MIN_BREAK_TO_BREAK_US;
use open_dmx::frame::TIME_BREAK_TO_DATA_US;
use std::sync::mpsc;

fn open_interface(name: &str) -> (DMXSerial, mpsc::Receiver<()>, mpsc::SyncSender<()>) {
    let (trigger_tx, trigger_rx) = mpsc::channel();
    let (completion_tx, completion_rx) = mpsc::sync_channel(0);
    let dmx = DMXSerial::from_parts(
        name.to_string(),
        AgentCommunication::new(trigger_tx, completion_rx),
    );
    (dmx, trigger_rx, completion_tx)
}

#[test]
fn mode_toggles_are_idempotent_and_exclusive() {
    let (mut dmx, _trigger_rx, _completion_tx) = open_interface("COM3");
    dmx.set_sync();
    assert!(dmx.is_sync());
    assert!(!dmx.is_async());
    dmx.set_sync();
    assert!(dmx.is_sync());
    assert!(!dmx.is_async());
    dmx.set_async();
    assert!(!dmx.is_sync());
    assert!(dmx.is_async());
    dmx.set_async();
    assert!(!dmx.is_sync());
    assert!(dmx.is_async());
}

#[test]
fn packet_time_round_trip_exact() {
    let (mut dmx, _trigger_rx, _completion_tx) = open_interface("COM3");
    assert_eq!(dmx.get_packet_time(), DEFAULT_MIN_BREAK_TO_BREAK_US);
    dmx.set_packet_time(30_000);
    assert_eq!(dmx.get_packet_time(), 30_000);
    dmx.set_packet_time(0);
    assert_eq!(dmx.get_packet_time(), 0);
    dmx.set_packet_time(u64::MAX);
    assert_eq!(dmx.get_packet_time(), u64::MAX);
}

#[test]
fn line_settings_match_the_wire_format() {
    let b = break_line_settings();
    assert_eq!(b.baud_rate, 57600);
    assert!(matches!(b.data_bits, DataBits::Seven));
    assert!(matches!(b.stop_bits, StopBits::One));
    assert!(matches!(b.parity, Parity::Off));
    let d = data_line_settings();
    assert_eq!(d.baud_rate, 250000);
    assert!(matches!(d.data_bits, DataBits::Eight));
    assert!(matches!(d.stop_bits, StopBits::Two));
    assert!(matches!(d.parity, Parity::Off));
    assert_eq!(TIME_BREAK_TO_DATA_US, 136);
}

#[test]
fn encoded_frame_layout_is_exact() {
    let mut channels = [0u8; DMX_CHANNELS];
    channels[0] = 10;
    channels[1] = 20;
    channels[511] = 30;
    let frame = encode_frame(&channels);
    assert_eq!(frame.len(), 513);
    assert_eq!(frame[0], 0x00);
    assert_eq!(frame[1], 10);
    assert_eq!(frame[2], 20);
    assert_eq!(frame[512], 30);
    for i in 3..512usize {
        assert_eq!(frame[i], 0);
    }
}

#[test]
fn frame_plan_pins_every_step() {
    let mut channels = [0u8; DMX_CHANNELS];
    channels[0] = 1;
    channels[255] = 128;
    let plan = plan_frame(&channels);
    assert_eq!(plan.break_settings.baud_rate, 57600);
    assert!(matches!(plan.break_settings.data_bits, DataBits::Seven));
    assert_eq!(plan.break_byte, 0x00);
    assert_eq!(plan.gap_us, 136);
    assert_eq!(plan.data_settings.baud_rate, 250000);
    assert!(matches!(plan.data_settings.stop_bits, StopBits::Two));
    assert_eq!(plan.payload.len(), 513);
    assert_eq!(plan.payload[0], 0x00);
    assert_eq!(plan.payload[1], 1);
    assert_eq!(plan.payload[256], 128);
}

#[test]
fn pause_reaches_the_pacing_floor() {
    assert_eq!(pause_after_frame_us(22_700, 0), 22_700);
    assert_eq!(pause_after_frame_us(22_700, 700), 22_000);
    assert_eq!(pause_after_frame_us(22_700, 22_700), 0);
    assert_eq!(pause_after_frame_us(22_700, 40_000), 0);
    assert_eq!(pause_after_frame_us(0, 0), 0);
    // The floor holds: elapsed plus the computed pause is never below the
    // configured minimum.
    for &(min, elapsed) in
        &[(22_700u64, 0u64), (22_700, 700), (22_700, 22_700), (22_700, 40_000), (0, 5), (50, 49)]
    {
        let pause = pause_after_frame_us(min, elapsed);
        assert!(elapsed.saturating_add(pause) >= min);
    }
}

#[test]
fn worker_stops_only_on_closure_or_failure() {
    assert!(worker_continues(WorkerEvent::TriggerReceived));
    assert!(worker_continues(WorkerEvent::FrameSent));
    assert!(worker_continues(WorkerEvent::CompletionOffered));
    assert!(!worker_continues(WorkerEvent::TriggerClosed));
    assert!(!worker_continues(WorkerEvent::FrameFailed));
    assert!(!worker_continues(WorkerEvent::CompletionClosed));
}
