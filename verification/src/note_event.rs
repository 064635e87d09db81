//! The musical event model and channel access on it.
//!
//! Every event kind is classified here, once and for all, as channel-bearing
//! or channel-less. Channel-bearing kinds carry a 0-based channel index as it
//! arrives from the host, which may be out of range and is therefore
//! validated on access; channel-less kinds must be passed through unchanged
//! by every channel-rewriting operation.

use crate::error::RismidiError;
use crate::midi_channel::{channel_of_0_based, MidiChannel};
use vstd::prelude::*;

verus! {

/// A single timestamped musical event.
///
/// The `timing` field is the event's position inside the current processing
/// block; this crate forwards it untouched. Channel fields are 0-based raw
/// indices as delivered by the host; note fields are MIDI note numbers.
#[derive(Clone, Copy, Debug, PartialEq, Eq)]
pub enum NoteEvent {
    /// A note starts sounding.
    NoteOn { timing: u32, voice_id: Option<i32>, channel: u8, note: u8 },
    /// A note stops sounding.
    NoteOff { timing: u32, voice_id: Option<i32>, channel: u8, note: u8 },
    /// A note is choked off immediately.
    Choke { timing: u32, voice_id: Option<i32>, channel: u8, note: u8 },
    /// The plugin reports that a voice has ended.
    VoiceTerminated { timing: u32, voice_id: Option<i32>, channel: u8, note: u8 },
    /// Per-voice modulation; carries no channel.
    PolyModulation { timing: u32, voice_id: i32, poly_modulation_id: u32 },
    /// Monophonic automation for a polyphonic parameter; carries no channel.
    MonoAutomation { timing: u32, poly_modulation_id: u32 },
    /// Per-voice pressure.
    PolyPressure { timing: u32, voice_id: Option<i32>, channel: u8, note: u8 },
    /// Per-voice volume.
    PolyVolume { timing: u32, voice_id: Option<i32>, channel: u8, note: u8 },
    /// Per-voice panning.
    PolyPan { timing: u32, voice_id: Option<i32>, channel: u8, note: u8 },
    /// Per-voice tuning.
    PolyTuning { timing: u32, voice_id: Option<i32>, channel: u8, note: u8 },
    /// Per-voice vibrato.
    PolyVibrato { timing: u32, voice_id: Option<i32>, channel: u8, note: u8 },
    /// Per-voice expression.
    PolyExpression { timing: u32, voice_id: Option<i32>, channel: u8, note: u8 },
    /// Per-voice brightness.
    PolyBrightness { timing: u32, voice_id: Option<i32>, channel: u8, note: u8 },
    /// Channel-wide pressure.
    MidiChannelPressure { timing: u32, channel: u8 },
    /// A pitch-bend change.
    MidiPitchBend { timing: u32, channel: u8 },
    /// A control change.
    MidiCC { timing: u32, channel: u8, cc: u8 },
    /// A program change.
    MidiProgramChange { timing: u32, channel: u8, program: u8 },
}

impl NoteEvent {
    /// The raw 0-based channel field, for channel-bearing kinds.
    pub open spec fn spec_channel_field(self) -> Option<u8> {
        match self {
            NoteEvent::NoteOn { channel, .. } => Some(channel),
            NoteEvent::NoteOff { channel, .. } => Some(channel),
            NoteEvent::Choke { channel, .. } => Some(channel),
            NoteEvent::VoiceTerminated { channel, .. } => Some(channel),
            NoteEvent::PolyModulation { .. } => None,
            NoteEvent::MonoAutomation { .. } => None,
            NoteEvent::PolyPressure { channel, .. } => Some(channel),
            NoteEvent::PolyVolume { channel, .. } => Some(channel),
            NoteEvent::PolyPan { channel, .. } => Some(channel),
            NoteEvent::PolyTuning { channel, .. } => Some(channel),
            NoteEvent::PolyVibrato { channel, .. } => Some(channel),
            NoteEvent::PolyExpression { channel, .. } => Some(channel),
            NoteEvent::PolyBrightness { channel, .. } => Some(channel),
            NoteEvent::MidiChannelPressure { channel, .. } => Some(channel),
            NoteEvent::MidiPitchBend { channel, .. } => Some(channel),
            NoteEvent::MidiCC { channel, .. } => Some(channel),
            NoteEvent::MidiProgramChange { channel, .. } => Some(channel),
        }
    }

    /// The note number, for kinds that carry one.
    pub open spec fn spec_note_field(self) -> Option<u8> {
        match self {
            NoteEvent::NoteOn { note, .. } => Some(note),
            NoteEvent::NoteOff { note, .. } => Some(note),
            NoteEvent::Choke { note, .. } => Some(note),
            NoteEvent::VoiceTerminated { note, .. } => Some(note),
            NoteEvent::PolyPressure { note, .. } => Some(note),
            NoteEvent::PolyVolume { note, .. } => Some(note),
            NoteEvent::PolyPan { note, .. } => Some(note),
            NoteEvent::PolyTuning { note, .. } => Some(note),
            NoteEvent::PolyVibrato { note, .. } => Some(note),
            NoteEvent::PolyExpression { note, .. } => Some(note),
            NoteEvent::PolyBrightness { note, .. } => Some(note),
            _ => None,
        }
    }

    /// The same event with its channel field replaced by `idx`; the identity
    /// on channel-less kinds.
    pub open spec fn spec_with_channel_index(self, idx: u8) -> NoteEvent {
        match self {
            NoteEvent::NoteOn { timing, voice_id, channel: _, note } => NoteEvent::NoteOn {
                timing,
                voice_id,
                channel: idx,
                note,
            },
            NoteEvent::NoteOff { timing, voice_id, channel: _, note } => NoteEvent::NoteOff {
                timing,
                voice_id,
                channel: idx,
                note,
            },
            NoteEvent::Choke { timing, voice_id, channel: _, note } => NoteEvent::Choke {
                timing,
                voice_id,
                channel: idx,
                note,
            },
            NoteEvent::VoiceTerminated { timing, voice_id, channel: _, note } => {
                NoteEvent::VoiceTerminated { timing, voice_id, channel: idx, note }
            },
            NoteEvent::PolyModulation { .. } => self,
            NoteEvent::MonoAutomation { .. } => self,
            NoteEvent::PolyPressure { timing, voice_id, channel: _, note } => {
                NoteEvent::PolyPressure { timing, voice_id, channel: idx, note }
            },
            NoteEvent::PolyVolume { timing, voice_id, channel: _, note } => {
                NoteEvent::PolyVolume { timing, voice_id, channel: idx, note }
            },
            NoteEvent::PolyPan { timing, voice_id, channel: _, note } => NoteEvent::PolyPan {
                timing,
                voice_id,
                channel: idx,
                note,
            },
            NoteEvent::PolyTuning { timing, voice_id, channel: _, note } => {
                NoteEvent::PolyTuning { timing, voice_id, channel: idx, note }
            },
            NoteEvent::PolyVibrato { timing, voice_id, channel: _, note } => {
                NoteEvent::PolyVibrato { timing, voice_id, channel: idx, note }
            },
            NoteEvent::PolyExpression { timing, voice_id, channel: _, note } => {
                NoteEvent::PolyExpression { timing, voice_id, channel: idx, note }
            },
            NoteEvent::PolyBrightness { timing, voice_id, channel: _, note } => {
                NoteEvent::PolyBrightness { timing, voice_id, channel: idx, note }
            },
            NoteEvent::MidiChannelPressure { timing, channel: _ } => {
                NoteEvent::MidiChannelPressure { timing, channel: idx }
            },
            NoteEvent::MidiPitchBend { timing, channel: _ } => NoteEvent::MidiPitchBend {
                timing,
                channel: idx,
            },
            NoteEvent::MidiCC { timing, channel: _, cc } => NoteEvent::MidiCC {
                timing,
                channel: idx,
                cc,
            },
            NoteEvent::MidiProgramChange { timing, channel: _, program } => {
                NoteEvent::MidiProgramChange { timing, channel: idx, program }
            },
        }
    }

    /// The same event with its channel replaced by `channel`'s 0-based index.
    pub open spec fn spec_with_channel(self, channel: MidiChannel) -> NoteEvent {
        self.spec_with_channel_index(channel.spec_to_0_based())
    }

    /// What [`Self::get_channel`] returns: the validated channel, or the
    /// reason there is none.
    pub open spec fn spec_get_channel(self) -> Result<MidiChannel, RismidiError> {
        match self.spec_channel_field() {
            Option::None => Err(RismidiError::MsgHasNoChannel),
            Option::Some(c) => if c < 16 {
                Ok(channel_of_0_based(c))
            } else {
                Err(RismidiError::UIntOutOfBounds { found: c as usize, min: 0, max: 15 })
            },
        }
    }

    /// Whether the note number, if this event kind carries one, is a valid
    /// MIDI note. Note numbers are validated upstream of this crate, so
    /// stateful operations may assume this much; channel indices, by
    /// contrast, are treated as untrusted everywhere.
    pub open spec fn spec_note_in_range(self) -> bool {
        match self.spec_note_field() {
            Option::Some(n) => n < 128,
            Option::None => true,
        }
    }

    /// An event as a correct host delivers it: the channel index, if present,
    /// names one of the 16 channels, and the note number, if present, is a
    /// valid MIDI note.
    pub open spec fn wf(self) -> bool {
        &&& match self.spec_channel_field() {
            Option::Some(c) => c < 16,
            Option::None => true,
        }
        &&& self.spec_note_in_range()
    }

    /// The raw 0-based channel field, if this event kind carries one.
    pub fn channel_index(&self) -> (r: Option<u8>)
        ensures
            r == self.spec_channel_field(),
    {
        match self {
            NoteEvent::NoteOn { channel, .. } => Some(*channel),
            NoteEvent::NoteOff { channel, .. } => Some(*channel),
            NoteEvent::Choke { channel, .. } => Some(*channel),
            NoteEvent::VoiceTerminated { channel, .. } => Some(*channel),
            NoteEvent::PolyModulation { .. } => None,
            NoteEvent::MonoAutomation { .. } => None,
            NoteEvent::PolyPressure { channel, .. } => Some(*channel),
            NoteEvent::PolyVolume { channel, .. } => Some(*channel),
            NoteEvent::PolyPan { channel, .. } => Some(*channel),
            NoteEvent::PolyTuning { channel, .. } => Some(*channel),
            NoteEvent::PolyVibrato { channel, .. } => Some(*channel),
            NoteEvent::PolyExpression { channel, .. } => Some(*channel),
            NoteEvent::PolyBrightness { channel, .. } => Some(*channel),
            NoteEvent::MidiChannelPressure { channel, .. } => Some(*channel),
            NoteEvent::MidiPitchBend { channel, .. } => Some(*channel),
            NoteEvent::MidiCC { channel, .. } => Some(*channel),
            NoteEvent::MidiProgramChange { channel, .. } => Some(*channel),
        }
    }

    /// Gets the current MIDI channel, if any.
    ///
    /// Fails with [`RismidiError::MsgHasNoChannel`] on channel-less kinds and
    /// with [`RismidiError::UIntOutOfBounds`] when the host delivered a
    /// channel index outside `0..16`.
    pub fn get_channel(&self) -> (r: Result<MidiChannel, RismidiError>)
        ensures
            r == self.spec_get_channel(),
    {
        match self.channel_index() {
            None => Err(RismidiError::MsgHasNoChannel),
            Some(c) => MidiChannel::try_from_0_based(c as usize),
        }
    }

    /// Sets the channel for the current event, if it has any.
    ///
    /// Channel-less kinds are left untouched and reported via
    /// [`RismidiError::MsgHasNoChannel`].
    pub fn set_channel(&mut self, new_channel: MidiChannel) -> (r: Result<(), RismidiError>)
        ensures
            *final(self) == old(self).spec_with_channel(new_channel),
            r == match old(self).spec_channel_field() {
                Option::Some(_) => Ok::<(), RismidiError>(()),
                Option::None => Err::<(), RismidiError>(RismidiError::MsgHasNoChannel),
            },
    {
        let has_channel = self.channel_index().is_some();
        *self = self.with_channel(new_channel);
        if has_channel {
            Ok(())
        } else {
            Err(RismidiError::MsgHasNoChannel)
        }
    }

    /// Returns the same event, but if it has a MIDI channel, it is
    /// overwritten with `channel`.
    pub fn with_channel(self, channel: MidiChannel) -> (r: Self)
        ensures
            r == self.spec_with_channel(channel),
    {
        let idx = channel.to_0_based();
        match self {
            NoteEvent::NoteOn { timing, voice_id, channel: _, note } => NoteEvent::NoteOn {
                timing,
                voice_id,
                channel: idx,
                note,
            },
            NoteEvent::NoteOff { timing, voice_id, channel: _, note } => NoteEvent::NoteOff {
                timing,
                voice_id,
                channel: idx,
                note,
            },
            NoteEvent::Choke { timing, voice_id, channel: _, note } => NoteEvent::Choke {
                timing,
                voice_id,
                channel: idx,
                note,
            },
            NoteEvent::VoiceTerminated { timing, voice_id, channel: _, note } => {
                NoteEvent::VoiceTerminated { timing, voice_id, channel: idx, note }
            },
            NoteEvent::PolyModulation { .. } => self,
            NoteEvent::MonoAutomation { .. } => self,
            NoteEvent::PolyPressure { timing, voice_id, channel: _, note } => {
                NoteEvent::PolyPressure { timing, voice_id, channel: idx, note }
            },
            NoteEvent::PolyVolume { timing, voice_id, channel: _, note } => {
                NoteEvent::PolyVolume { timing, voice_id, channel: idx, note }
            },
            NoteEvent::PolyPan { timing, voice_id, channel: _, note } => NoteEvent::PolyPan {
                timing,
                voice_id,
                channel: idx,
                note,
            },
            NoteEvent::PolyTuning { timing, voice_id, channel: _, note } => {
                NoteEvent::PolyTuning { timing, voice_id, channel: idx, note }
            },
            NoteEvent::PolyVibrato { timing, voice_id, channel: _, note } => {
                NoteEvent::PolyVibrato { timing, voice_id, channel: idx, note }
            },
            NoteEvent::PolyExpression { timing, voice_id, channel: _, note } => {
                NoteEvent::PolyExpression { timing, voice_id, channel: idx, note }
            },
            NoteEvent::PolyBrightness { timing, voice_id, channel: _, note } => {
                NoteEvent::PolyBrightness { timing, voice_id, channel: idx, note }
            },
            NoteEvent::MidiChannelPressure { timing, channel: _ } => {
                NoteEvent::MidiChannelPressure { timing, channel: idx }
            },
            NoteEvent::MidiPitchBend { timing, channel: _ } => NoteEvent::MidiPitchBend {
                timing,
                channel: idx,
            },
            NoteEvent::MidiCC { timing, channel: _, cc } => NoteEvent::MidiCC {
                timing,
                channel: idx,
                cc,
            },
            NoteEvent::MidiProgramChange { timing, channel: _, program } => {
                NoteEvent::MidiProgramChange { timing, channel: idx, program }
            },
        }
    }
}

} // verus!
