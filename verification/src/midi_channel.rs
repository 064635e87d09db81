//! The validated domain type for a MIDI channel.

use crate::error::RismidiError;
use vstd::prelude::*;

verus! {

/// The number of MIDI notes existing according to the MIDI v1 specification.
pub const NUM_MIDI_NOTES: u8 = 128;

/// The number of MIDI channels existing according to the MIDI v1 specification.
pub const NUM_MIDI_CHANNELS: u8 = 16;

/// Represents a MIDI channel.
///
/// A value of this type always denotes one of the 16 channels of the MIDI v1
/// specification; integers outside the valid range are rejected by the
/// fallible constructors and can never reach a `MidiChannel`.
#[derive(Clone, Copy, Debug, PartialEq, Eq, Structural, PartialOrd, Ord)]
pub enum MidiChannel {
    /// Channel 1 (in 1-based numbering)
    Channel1,
    /// Channel 2 (in 1-based numbering)
    Channel2,
    /// Channel 3 (in 1-based numbering)
    Channel3,
    /// Channel 4 (in 1-based numbering)
    Channel4,
    /// Channel 5 (in 1-based numbering)
    Channel5,
    /// Channel 6 (in 1-based numbering)
    Channel6,
    /// Channel 7 (in 1-based numbering)
    Channel7,
    /// Channel 8 (in 1-based numbering)
    Channel8,
    /// Channel 9 (in 1-based numbering)
    Channel9,
    /// Channel 10 (in 1-based numbering)
    Channel10,
    /// Channel 11 (in 1-based numbering)
    Channel11,
    /// Channel 12 (in 1-based numbering)
    Channel12,
    /// Channel 13 (in 1-based numbering)
    Channel13,
    /// Channel 14 (in 1-based numbering)
    Channel14,
    /// Channel 15 (in 1-based numbering)
    Channel15,
    /// Channel 16 (in 1-based numbering)
    Channel16,
}

/// The channel whose 0-based index is `n`, for `n` in `0..16`.
///
/// Out-of-range indices are mapped to `Channel16` so that the function is
/// total; contracts only ever apply it to indices below 16.
pub open spec fn channel_of_0_based(n: u8) -> MidiChannel {
    if n == 0 {
        MidiChannel::Channel1
    } else if n == 1 {
        MidiChannel::Channel2
    } else if n == 2 {
        MidiChannel::Channel3
    } else if n == 3 {
        MidiChannel::Channel4
    } else if n == 4 {
        MidiChannel::Channel5
    } else if n == 5 {
        MidiChannel::Channel6
    } else if n == 6 {
        MidiChannel::Channel7
    } else if n == 7 {
        MidiChannel::Channel8
    } else if n == 8 {
        MidiChannel::Channel9
    } else if n == 9 {
        MidiChannel::Channel10
    } else if n == 10 {
        MidiChannel::Channel11
    } else if n == 11 {
        MidiChannel::Channel12
    } else if n == 12 {
        MidiChannel::Channel13
    } else if n == 13 {
        MidiChannel::Channel14
    } else if n == 14 {
        MidiChannel::Channel15
    } else {
        MidiChannel::Channel16
    }
}

/// The channel whose 1-based index is `n`, for `n` in `1..=16`.
pub open spec fn channel_of_1_based(n: u8) -> MidiChannel {
    channel_of_0_based((n - 1) as u8)
}

impl MidiChannel {
    /// The channel's 0-based index, in `0..16`.
    pub open spec fn spec_to_0_based(self) -> u8 {
        match self {
            MidiChannel::Channel1 => 0,
            MidiChannel::Channel2 => 1,
            MidiChannel::Channel3 => 2,
            MidiChannel::Channel4 => 3,
            MidiChannel::Channel5 => 4,
            MidiChannel::Channel6 => 5,
            MidiChannel::Channel7 => 6,
            MidiChannel::Channel8 => 7,
            MidiChannel::Channel9 => 8,
            MidiChannel::Channel10 => 9,
            MidiChannel::Channel11 => 10,
            MidiChannel::Channel12 => 11,
            MidiChannel::Channel13 => 12,
            MidiChannel::Channel14 => 13,
            MidiChannel::Channel15 => 14,
            MidiChannel::Channel16 => 15,
        }
    }

    /// The channel's 1-based index, in `1..=16`.
    pub open spec fn spec_to_1_based(self) -> u8 {
        (self.spec_to_0_based() + 1) as u8
    }

    /// Get the channel's index as a 0-based [`u8`].
    pub fn to_0_based(&self) -> (r: u8)
        ensures
            r == self.spec_to_0_based(),
            r < 16,
    {
        match self {
            MidiChannel::Channel1 => 0,
            MidiChannel::Channel2 => 1,
            MidiChannel::Channel3 => 2,
            MidiChannel::Channel4 => 3,
            MidiChannel::Channel5 => 4,
            MidiChannel::Channel6 => 5,
            MidiChannel::Channel7 => 6,
            MidiChannel::Channel8 => 7,
            MidiChannel::Channel9 => 8,
            MidiChannel::Channel10 => 9,
            MidiChannel::Channel11 => 10,
            MidiChannel::Channel12 => 11,
            MidiChannel::Channel13 => 12,
            MidiChannel::Channel14 => 13,
            MidiChannel::Channel15 => 14,
            MidiChannel::Channel16 => 15,
        }
    }

    /// Get the channel's index as a 1-based [`u8`].
    pub fn to_1_based(&self) -> (r: u8)
        ensures
            r == self.spec_to_1_based(),
            1 <= r <= 16,
    {
        self.to_0_based() + 1
    }

    /// Turns a 0-based channel number into a [`MidiChannel`].
    ///
    /// Succeeds exactly for inputs in `0..16`; any other input is rejected
    /// with [`RismidiError::UIntOutOfBounds`].
    pub fn try_from_0_based(channel: usize) -> (r: Result<MidiChannel, RismidiError>)
        ensures
            channel < 16 ==> r == Ok::<MidiChannel, RismidiError>(channel_of_0_based(channel as u8)),
            channel >= 16 ==> r == Err::<MidiChannel, RismidiError>(
                (RismidiError::UIntOutOfBounds { found: channel, min: 0, max: 15 }),
            ),
    {
        match channel {
            0 => Ok(MidiChannel::Channel1),
            1 => Ok(MidiChannel::Channel2),
            2 => Ok(MidiChannel::Channel3),
            3 => Ok(MidiChannel::Channel4),
            4 => Ok(MidiChannel::Channel5),
            5 => Ok(MidiChannel::Channel6),
            6 => Ok(MidiChannel::Channel7),
            7 => Ok(MidiChannel::Channel8),
            8 => Ok(MidiChannel::Channel9),
            9 => Ok(MidiChannel::Channel10),
            10 => Ok(MidiChannel::Channel11),
            11 => Ok(MidiChannel::Channel12),
            12 => Ok(MidiChannel::Channel13),
            13 => Ok(MidiChannel::Channel14),
            14 => Ok(MidiChannel::Channel15),
            15 => Ok(MidiChannel::Channel16),
            _ => Err(RismidiError::UIntOutOfBounds { found: channel, min: 0, max: 15 }),
        }
    }

    /// Turns a 1-based channel number into a [`MidiChannel`].
    ///
    /// Succeeds exactly for inputs in `1..=16`; any other input is rejected
    /// with [`RismidiError::UIntOutOfBounds`].
    pub fn try_from_1_based(channel: usize) -> (r: Result<MidiChannel, RismidiError>)
        ensures
            1 <= channel <= 16 ==> r == Ok::<MidiChannel, RismidiError>(
                channel_of_1_based(channel as u8),
            ),
            !(1 <= channel <= 16) ==> r == Err::<MidiChannel, RismidiError>(
                (RismidiError::UIntOutOfBounds { found: channel, min: 1, max: 16 }),
            ),
    {
        if 1 <= channel && channel <= 16 {
            match Self::try_from_0_based(channel - 1) {
                Ok(c) => Ok(c),
                Err(_) => Err(RismidiError::UIntOutOfBounds { found: channel, min: 1, max: 16 }),
            }
        } else {
            Err(RismidiError::UIntOutOfBounds { found: channel, min: 1, max: 16 })
        }
    }
}

/// Converting a channel to its 0-based (or 1-based) index and back yields
/// the same channel.
pub proof fn lemma_channel_index_round_trip(c: MidiChannel)
    ensures
        channel_of_0_based(c.spec_to_0_based()) == c,
        channel_of_1_based(c.spec_to_1_based()) == c,
{
}

/// Converting an in-range index to a channel and back yields the same index.
pub proof fn lemma_index_channel_round_trip(n: u8)
    ensures
        n < 16 ==> channel_of_0_based(n).spec_to_0_based() == n,
        1 <= n <= 16 ==> channel_of_1_based(n).spec_to_1_based() == n,
{
}

/// The 0-based index determines the channel: no two distinct channels share
/// an index.
pub proof fn lemma_channel_index_injective(a: MidiChannel, b: MidiChannel)
    requires
        a.spec_to_0_based() == b.spec_to_0_based(),
    ensures
        a == b,
{
}

} // verus!
