//! The error type shared by all fallible operations of this crate.

use vstd::prelude::*;

verus! {

/// Everything that can go wrong in this crate.
///
/// None of these conditions is fatal: every caller inside the crate either
/// reports the error to its own caller or falls back to a defined default, so
/// the real-time event path never panics on malformed input.
#[derive(Debug, PartialEq, Eq, Structural)]
#[non_exhaustive]
pub enum RismidiError {
    /// A signed integer was outside the closed range `[min, max]`.
    IntOutOfBounds { found: i32, min: i32, max: i32 },

    /// An unsigned integer was outside the closed range `[min, max]`.
    UIntOutOfBounds { found: usize, min: usize, max: usize },

    /// Channel access was attempted on an event kind that carries no channel.
    MsgHasNoChannel,

    /// A conversion needed a concrete channel, but "no channel" was selected.
    NoChannelSelected,

    /// The plugin host handed over text that does not denote any selection.
    UnknownInput,
}

} // verus!
