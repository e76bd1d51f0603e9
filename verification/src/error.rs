//! Error types of the interface.

use vstd::prelude::*;

verus! {

/// Error returned when the transmission agent behind an interface has
/// terminated, either because the serial line failed or because its
/// signalling endpoints were torn down.
#[derive(Debug, PartialEq, Eq, Structural, Clone, Copy)]
pub struct DMXDisconnectionError;

impl DMXDisconnectionError {
    /// A human-readable description of the error.
    pub fn message(&self) -> (r: &'static str)
        ensures
            r@ == "DMX Port disconnected"@,
    {
        "DMX Port disconnected"
    }
}

/// Error returned when a one-based channel index falls outside `1..=512`.
#[derive(Debug, PartialEq, Eq, Structural, Clone, Copy)]
pub enum DMXChannelValidityError {
    /// The index was above the top channel of the universe.
    TooHigh,
    /// The index was below `1`.
    TooLow,
}

impl DMXChannelValidityError {
    /// A human-readable description of the error.
    pub fn message(&self) -> (r: &'static str)
        ensures
            *self is TooHigh ==> r@ == "DMX channel too high"@,
            *self is TooLow ==> r@ == "DMX channel too low"@,
    {
        match self {
            DMXChannelValidityError::TooHigh => "DMX channel too high",
            DMXChannelValidityError::TooLow => "DMX channel too low",
        }
    }
}

} // verus!
