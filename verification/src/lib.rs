//! Deterministic MIDI channel routing for real-time event processing.
//!
//! The crate models MIDI channels as a validated domain type, remembers per
//! (channel, note) where a note start was routed so the matching note end can
//! follow it, and converts an optional channel selection to and from the plain
//! integer and string forms a plugin host works with.

pub mod channel_filter;
pub mod channel_tracker;
pub mod channelize;
pub mod error;
pub mod midi_channel;
pub mod note_event;
pub mod optional_midi_channel;
pub mod params;
pub mod text;
pub mod time;
pub mod validate;

pub use channel_filter::{RisChannelFilter, RisChannelFilterParams};
pub use channel_tracker::ChannelTracker;
pub use channelize::{RisChannelize, RisChannelizeParams};
pub use error::RismidiError;
pub use midi_channel::{MidiChannel, NUM_MIDI_CHANNELS, NUM_MIDI_NOTES};
pub use note_event::NoteEvent;
pub use optional_midi_channel::OptionalMidiChannel;
pub use params::OptionalMidiChannelParam;
pub use time::{NoteDuration, SimpleTime, TimeDuration, Tuplet};
pub use validate::ValidationMode;
