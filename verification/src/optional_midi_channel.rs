//! An optional MIDI channel: either a concrete channel or an explicit
//! "no channel" selection.

use crate::error::RismidiError;
use crate::midi_channel::{channel_of_1_based, MidiChannel};
use vstd::prelude::*;

verus! {

/// A parameter value representing either a MIDI channel or no selection at
/// all.
///
/// The "no channel" state is a deliberate user choice (for example "apply to
/// all channels"); it is distinct from an event kind that cannot carry a
/// channel in the first place.
#[derive(Clone, Copy, Debug, PartialEq, Eq, Structural)]
pub enum OptionalMidiChannel {
    /// No channel is selected.
    NoChannel,
    /// One concrete channel is selected.
    Selected(MidiChannel),
}

impl OptionalMidiChannel {
    /// If a channel is selected, get its index as a 0-based [`u8`].
    ///
    /// Fails with [`RismidiError::NoChannelSelected`] exactly when no channel
    /// is selected.
    pub fn try_to_0_based(&self) -> (r: Result<u8, RismidiError>)
        ensures
            r == match self {
                OptionalMidiChannel::NoChannel => Err::<u8, RismidiError>(
                    RismidiError::NoChannelSelected,
                ),
                OptionalMidiChannel::Selected(c) => Ok::<u8, RismidiError>(c.spec_to_0_based()),
            },
    {
        match self.try_to_1_based() {
            Ok(c) => Ok(c - 1),
            Err(e) => Err(e),
        }
    }

    /// If a channel is selected, get its index as a 1-based [`u8`].
    ///
    /// Fails with [`RismidiError::NoChannelSelected`] exactly when no channel
    /// is selected.
    pub fn try_to_1_based(&self) -> (r: Result<u8, RismidiError>)
        ensures
            r == match self {
                OptionalMidiChannel::NoChannel => Err::<u8, RismidiError>(
                    RismidiError::NoChannelSelected,
                ),
                OptionalMidiChannel::Selected(c) => Ok::<u8, RismidiError>(c.spec_to_1_based()),
            },
    {
        match self {
            OptionalMidiChannel::NoChannel => Err(RismidiError::NoChannelSelected),
            OptionalMidiChannel::Selected(c) => Ok(c.to_1_based()),
        }
    }

    /// Turns a 0-based channel number into a selected [`OptionalMidiChannel`].
    ///
    /// Succeeds exactly for inputs in `0..16`. The "no channel" state is
    /// never produced here: an out-of-range index is an error, not an absent
    /// selection.
    pub fn try_from_0_based(channel: usize) -> (r: Result<OptionalMidiChannel, RismidiError>)
        ensures
            channel < 16 ==> r == Ok::<OptionalMidiChannel, RismidiError>(
                OptionalMidiChannel::Selected(channel_of_1_based((channel + 1) as u8)),
            ),
            channel >= 16 ==> r == Err::<OptionalMidiChannel, RismidiError>(
                (RismidiError::UIntOutOfBounds { found: channel, min: 0, max: 15 }),
            ),
    {
        if channel < 16 {
            match Self::try_from_1_based(channel + 1) {
                Ok(c) => Ok(c),
                Err(_) => Err(RismidiError::UIntOutOfBounds { found: channel, min: 0, max: 15 }),
            }
        } else {
            Err(RismidiError::UIntOutOfBounds { found: channel, min: 0, max: 15 })
        }
    }

    /// Turns a 1-based channel number into a selected [`OptionalMidiChannel`].
    ///
    /// Succeeds exactly for inputs in `1..=16`.
    pub fn try_from_1_based(channel: usize) -> (r: Result<OptionalMidiChannel, RismidiError>)
        ensures
            1 <= channel <= 16 ==> r == Ok::<OptionalMidiChannel, RismidiError>(
                OptionalMidiChannel::Selected(channel_of_1_based(channel as u8)),
            ),
            !(1 <= channel <= 16) ==> r == Err::<OptionalMidiChannel, RismidiError>(
                (RismidiError::UIntOutOfBounds { found: channel, min: 1, max: 16 }),
            ),
    {
        match MidiChannel::try_from_1_based(channel) {
            Ok(c) => Ok(OptionalMidiChannel::Selected(c)),
            Err(_) => Err(RismidiError::UIntOutOfBounds { found: channel, min: 1, max: 16 }),
        }
    }
}

impl MidiChannel {
    /// Extracts the concrete channel from an optional selection.
    ///
    /// Fails with [`RismidiError::NoChannelSelected`] exactly when no channel
    /// is selected.
    pub fn try_from_optional(value: OptionalMidiChannel) -> (r: Result<MidiChannel, RismidiError>)
        ensures
            r == match value {
                OptionalMidiChannel::NoChannel => Err::<MidiChannel, RismidiError>(
                    RismidiError::NoChannelSelected,
                ),
                OptionalMidiChannel::Selected(c) => Ok::<MidiChannel, RismidiError>(c),
            },
    {
        match value {
            OptionalMidiChannel::NoChannel => Err(RismidiError::NoChannelSelected),
            OptionalMidiChannel::Selected(c) => {
                proof {
                    crate::midi_channel::lemma_channel_index_round_trip(c);
                }
                match MidiChannel::try_from_1_based(c.to_1_based() as usize) {
                    Ok(found) => Ok(found),
                    Err(e) => Err(e),
                }
            },
        }
    }
}

impl From<MidiChannel> for OptionalMidiChannel {
    /// Selecting a concrete channel always yields the `Selected` form.
    fn from(channel: MidiChannel) -> (r: Self) {
        OptionalMidiChannel::Selected(channel)
    }
}

impl vstd::std_specs::convert::FromSpecImpl<MidiChannel> for OptionalMidiChannel {
    open spec fn obeys_from_spec() -> bool {
        true
    }

    open spec fn from_spec(channel: MidiChannel) -> Self {
        OptionalMidiChannel::Selected(channel)
    }
}

} // verus!
