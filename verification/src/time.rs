//! Musical durations: wall-clock time and note values.

use vstd::prelude::*;

verus! {

/// A duration in "wall clock" time (milliseconds, seconds, ...).
pub type TimeDuration = std::time::Duration;

/// Relies on `std::time::Duration::clone`: `Duration` is a `Copy` type, so
/// cloning yields the same value.
pub assume_specification[ <std::time::Duration as Clone>::clone ](
    v: &std::time::Duration,
) -> (r: std::time::Duration)
    ensures
        r == *v,
;

/// Models a musical tuplet: `num_tuplet_notes` notes played in the time of
/// `num_regular_notes` regular ones.
#[derive(Clone, Debug, PartialEq, Eq, Hash)]
pub struct Tuplet {
    /// How many regular notes the tuplet replaces.
    pub num_regular_notes: u32,
    /// How many notes the tuplet squeezes into that time.
    pub num_tuplet_notes: u32,
}

/// The duration of a note, in relation to a pulse of quarter notes.
#[derive(Clone, Debug, PartialEq, Eq, Hash)]
pub struct NoteDuration {
    /// Counts how many notes of `1/denominator` length this duration spans.
    pub nominator: u32,
    /// The note value the duration is measured in (4 means quarter notes).
    pub denominator: u32,
    /// How many dots lengthen the note.
    pub dots: u32,
    /// The tuplet this duration is part of, if any.
    pub tuplet: Option<Tuplet>,
}

impl NoteDuration {
    /// Creates a new [`NoteDuration`] of `nominator` notes of
    /// `1/denominator` length, with no dots and no tuplet.
    pub fn new(nominator: u32, denominator: u32) -> (r: NoteDuration)
        ensures
            r == (NoteDuration { nominator, denominator, dots: 0, tuplet: Option::None }),
    {
        NoteDuration { nominator, denominator, dots: 0, tuplet: None }
    }

    /// Changes how many dots the note has.
    ///
    /// The first dot increases the length of the note by half. Each
    /// subsequent dot increases the length of the note by half the length of
    /// the previous dot.
    pub fn dotted(self, num_dots: u32) -> (r: Self)
        ensures
            r == (NoteDuration { dots: num_dots, ..self }),
    {
        NoteDuration { dots: num_dots, ..self }
    }

    /// Turns the current [`NoteDuration`] into a triplet: three notes in the
    /// time of two.
    pub fn triplet(self) -> (r: Self)
        ensures
            r == (NoteDuration {
                tuplet: Option::Some(Tuplet { num_regular_notes: 2, num_tuplet_notes: 3 }),
                ..self
            }),
    {
        self.tuplet(Tuplet { num_regular_notes: 2, num_tuplet_notes: 3 })
    }

    /// Turns the current [`NoteDuration`] into a tuplet.
    ///
    /// You can think of a tuplet as a more generalized version of a triplet.
    pub fn tuplet(self, tuplet: Tuplet) -> (r: Self)
        ensures
            r == (NoteDuration { tuplet: Option::Some(tuplet), ..self }),
    {
        NoteDuration { tuplet: Some(tuplet), ..self }
    }

    /// Removes all tuplets from the current [`NoteDuration`].
    pub fn straight(self) -> (r: Self)
        ensures
            r == (NoteDuration { tuplet: Option::None, ..self }),
    {
        NoteDuration { tuplet: None, ..self }
    }
}

/// Specifies a "musical" duration, like "a quarter note" or "200 ms".
#[derive(Clone, Debug, PartialEq, Eq, Hash)]
pub enum SimpleTime {
    /// "Wall clock" time.
    Free(TimeDuration),
    /// Time as synchronized to the musical grid.
    Sync(NoteDuration),
}

} // verus!
