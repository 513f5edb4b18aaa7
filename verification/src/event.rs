//! Messages exchanged between the input decoders, the user interface state
//! machine and the tuner coordinator.

use vstd::prelude::*;

verus! {

/// Something that happened: a gesture on the rotary encoder or its push
/// button, or a change reported by the tuner.
#[derive(Clone, Debug, PartialEq, Eq)]
pub enum InputEvent {
    /// The button was held for a short while and released.
    ShortPress,
    /// The button was held for a long while and released.
    LongPress,
    /// The encoder was turned one detent downwards.
    ScrollDown,
    /// The encoder was turned one detent upwards.
    ScrollUp,
    /// The tuner is now at this frequency, in kHz.
    ChangeFrequency(u32),
    /// The tuner received new station text.
    ChangeStationInfo(String),
    /// The received signal strength changed noticeably.
    ChangeRSSI(u8),
}

/// An instruction for the tuner.
#[derive(Clone, Copy, Debug, PartialEq, Eq)]
pub enum OutputCommand {
    /// Tune to this frequency, in kHz.
    SetFrequency(u32),
    /// Set the output volume, `0..=15`.
    SetVolume(u8),
    /// Search for the next station above the current frequency.
    SeekUp,
    /// Search for the next station below the current frequency.
    SeekDown,
}

} // verus!
