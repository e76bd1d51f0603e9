//! Driver core for a DMX512 lighting interface on a serial line.
//!
//! The crate holds the verified logic of the interface: the 512-channel
//! universe with its validation rules, the frame layout and pacing rules of
//! the DMX512 wire protocol, the shared cells through which a background
//! transmitter observes caller state, and the signalling that ties the two
//! together. The raw serial transport and the worker thread itself live
//! outside this crate and consume the plans and decisions computed here.

use vstd::prelude::*;

pub mod dmx_serial;
pub mod error;
pub mod frame;
pub mod thread;

pub use dmx_serial::AgentCommunication;
pub use dmx_serial::DMXSerial;

verus! {

/// The fixed number of DMX channels in one universe.
pub const DMX_CHANNELS: usize = 512;

/// Checks that a one-based channel index lies in `1..=DMX_CHANNELS`.
///
/// Indices below `1` are rejected as too low, indices above
/// [`DMX_CHANNELS`] as too high.
pub fn check_valid_channel(channel: usize) -> (r: Result<(), error::DMXChannelValidityError>)
    ensures
        r is Ok <==> 1 <= channel <= DMX_CHANNELS,
        r == Err::<(), _>(error::DMXChannelValidityError::TooLow) <==> channel < 1,
        r == Err::<(), _>(error::DMXChannelValidityError::TooHigh) <==> channel > DMX_CHANNELS,
{
    if channel > DMX_CHANNELS {
        return Err(error::DMXChannelValidityError::TooHigh);
    }
    if channel < 1 {
        return Err(error::DMXChannelValidityError::TooLow);
    }
    Ok(())
}

} // verus!
