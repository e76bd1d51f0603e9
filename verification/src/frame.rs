//! The DMX512 frame protocol: the line settings for the break and data
//! sections of a frame, the layout of the 513-byte payload, the pacing
//! rule that keeps a floor on the time between consecutive frames, and
//! the decisions of the transmission worker's cycle.
//!
//! Everything here is pure computation; the worker that owns the serial
//! line executes the settings, writes and pauses that these functions
//! describe.

use vstd::prelude::*;
use crate::DMX_CHANNELS;

verus! {

/// Microseconds to pause between the break write and the data write of a
/// frame: the mark-after-break gap.
pub const TIME_BREAK_TO_DATA_US: u64 = 136;

/// Default floor, in microseconds, on the time from the start of one
/// frame's break to the start of the next frame's break.
pub const DEFAULT_MIN_BREAK_TO_BREAK_US: u64 = 22_700;

/// Number of data bits per symbol on the serial line.
#[derive(Debug, PartialEq, Eq, Structural, Clone, Copy)]
pub enum DataBits {
    Seven,
    Eight,
}

/// Number of stop bits per symbol on the serial line.
#[derive(Debug, PartialEq, Eq, Structural, Clone, Copy)]
pub enum StopBits {
    One,
    Two,
}

/// Parity setting of the serial line; DMX512 never uses a parity bit.
#[derive(Debug, PartialEq, Eq, Structural, Clone, Copy)]
pub enum Parity {
    Off,
}

/// One configuration of the serial line. The line is always driven
/// without flow control.
#[derive(Debug, PartialEq, Eq, Structural, Clone, Copy)]
pub struct LineSettings {
    pub baud_rate: u32,
    pub data_bits: DataBits,
    pub stop_bits: StopBits,
    pub parity: Parity,
}

/// The line settings under which a single zero byte reads as a DMX break
/// condition: slow enough that the byte holds the line low long enough.
pub fn break_line_settings() -> (r: LineSettings)
    ensures
        r.baud_rate == 57600,
        r.data_bits is Seven,
        r.stop_bits is One,
        r.parity is Off,
{
    LineSettings {
        baud_rate: 57600,
        data_bits: DataBits::Seven,
        stop_bits: StopBits::One,
        parity: Parity::Off,
    }
}

/// The line settings for the data section of a DMX frame.
pub fn data_line_settings() -> (r: LineSettings)
    ensures
        r.baud_rate == 250000,
        r.data_bits is Eight,
        r.stop_bits is Two,
        r.parity is Off,
{
    LineSettings {
        baud_rate: 250000,
        data_bits: DataBits::Eight,
        stop_bits: StopBits::Two,
        parity: Parity::Off,
    }
}

/// The data section of a frame: the zero start code followed by the 512
/// channel values in index order.
pub open spec fn frame_spec(channels: Seq<u8>) -> Seq<u8> {
    seq![0u8] + channels
}

/// Builds the 513-byte data section of a frame from the channel values:
/// byte 0 is the start code `0x00`, bytes 1 to 512 are the channels in
/// index order.
pub fn encode_frame(channels: &[u8; DMX_CHANNELS]) -> (r: [u8; 513])
    ensures
        r@ == frame_spec(channels@),
{
    let mut data: [u8; 513] = [0; 513];
    let mut i: usize = 0;
    while i < DMX_CHANNELS
        invariant
            i <= DMX_CHANNELS,
            data@.len() == 513,
            data@[0] == 0,
            forall|j: int| 0 <= j < i ==> data@[j + 1] == channels@[j],
        decreases DMX_CHANNELS - i,
    {
        data[i + 1] = channels[i];
        i = i + 1;
    }
    proof {
        assert(data@ =~= frame_spec(channels@));
    }
    data
}

/// Everything the worker must do on the line to emit one frame, in
/// order: configure `break_settings` and write the single `break_byte`,
/// pause `gap_us` microseconds, then configure `data_settings` and write
/// `payload`. The pause that follows the frame is computed separately,
/// from the time the frame took; see [`pause_after_frame_us`].
pub struct FramePlan {
    /// Line settings under which the break byte reads as a DMX break.
    pub break_settings: LineSettings,
    /// The single byte whose slow transmission holds the line low.
    pub break_byte: u8,
    /// Microseconds of mark-after-break between break and data.
    pub gap_us: u64,
    /// Line settings for the data section.
    pub data_settings: LineSettings,
    /// The 513-byte data section: start code, then the channels.
    pub payload: [u8; 513],
}

/// Plans one frame for the given channel values: the compute half of a
/// frame transmission, pinning every byte and setting the worker puts on
/// the line.
pub fn plan_frame(channels: &[u8; DMX_CHANNELS]) -> (r: FramePlan)
    ensures
        r.break_settings.baud_rate == 57600,
        r.break_settings.data_bits is Seven,
        r.break_settings.stop_bits is One,
        r.break_settings.parity is Off,
        r.break_byte == 0,
        r.gap_us == TIME_BREAK_TO_DATA_US,
        r.data_settings.baud_rate == 250000,
        r.data_settings.data_bits is Eight,
        r.data_settings.stop_bits is Two,
        r.data_settings.parity is Off,
        r.payload@ == frame_spec(channels@),
{
    FramePlan {
        break_settings: break_line_settings(),
        break_byte: 0x00,
        gap_us: TIME_BREAK_TO_DATA_US,
        data_settings: data_line_settings(),
        payload: encode_frame(channels),
    }
}

/// How long the worker must still pause after a frame: the configured
/// break-to-break floor minus the time the frame has already taken, and
/// zero once the floor is already met.
pub open spec fn pause_after_frame_spec(min_break_to_break_us: u64, elapsed_us: u64) -> u64 {
    if elapsed_us >= min_break_to_break_us {
        0u64
    } else {
        (min_break_to_break_us - elapsed_us) as u64
    }
}

/// Computes the remaining pause after a frame; see
/// [`pause_after_frame_spec`]. Never yields a negative duration: once the
/// elapsed time reaches the floor the pause is zero.
pub fn pause_after_frame_us(min_break_to_break_us: u64, elapsed_us: u64) -> (r: u64)
    ensures
        r == pause_after_frame_spec(min_break_to_break_us, elapsed_us),
{
    if elapsed_us >= min_break_to_break_us {
        0
    } else {
        min_break_to_break_us - elapsed_us
    }
}

/// Law: the time from the start of one break to the start of the next is
/// never less than the configured floor. Whatever time a frame took, that
/// time plus the pause computed for it reaches the floor.
pub proof fn lemma_pacing_floor(min_break_to_break_us: u64, elapsed_us: u64)
    ensures
        elapsed_us + pause_after_frame_spec(min_break_to_break_us, elapsed_us)
            >= min_break_to_break_us,
{
}

/// One observation the transmission worker makes during a cycle.
#[derive(Debug, PartialEq, Eq, Structural, Clone, Copy)]
pub enum WorkerEvent {
    /// A sync-mode trigger arrived from the interface.
    TriggerReceived,
    /// The trigger channel is closed: the interface is gone.
    TriggerClosed,
    /// The whole frame was written to the line.
    FrameSent,
    /// The transport failed while the frame was being sent.
    FrameFailed,
    /// The completion signal was handed over, or nobody was waiting for
    /// it yet.
    CompletionOffered,
    /// The completion channel is closed: the interface is gone.
    CompletionClosed,
}

/// Decides whether the worker keeps cycling after an observation. The
/// worker stops for good when either signalling channel is closed, which
/// means the interface was dropped or replaced, and when the transport
/// fails, which it treats as a fatal disconnection.
pub fn worker_continues(event: WorkerEvent) -> (r: bool)
    ensures
        r <==> !(event is TriggerClosed || event is FrameFailed || event is CompletionClosed),
{
    match event {
        WorkerEvent::TriggerClosed => false,
        WorkerEvent::FrameFailed => false,
        WorkerEvent::CompletionClosed => false,
        WorkerEvent::TriggerReceived => true,
        WorkerEvent::FrameSent => true,
        WorkerEvent::CompletionOffered => true,
    }
}

} // verus!
