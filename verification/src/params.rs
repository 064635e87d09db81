//! The bidirectional codec between an automatable plain parameter value, an
//! optional channel selection, and its display string.
//!
//! The plain integer encoding is part of the persisted-state contract of a
//! plugin: 0 denotes "no channel", and k in `1..=16` denotes channel k in
//! 1-based numbering. It must not change across versions.

use crate::error::RismidiError;
use crate::midi_channel::{channel_of_1_based, MidiChannel};
use crate::text::{is_space, spec_parse_i32, spec_trim, spec_trim_end, spec_trim_start};
use vstd::prelude::*;
use vstd::string::StringExecFns;

verus! {

/// The plain integer encoding of a selection: 0 for "no channel", the
/// 1-based channel number otherwise.
pub open spec fn spec_selection_to_inner(selection: Option<MidiChannel>) -> int {
    match selection {
        Option::None => 0,
        Option::Some(c) => c.spec_to_1_based() as int,
    }
}

/// The selection denoted by a plain integer in `0..=16`: "no channel" for 0,
/// channel `inner_val` (1-based) otherwise.
///
/// Total for convenience; contracts only apply it to values in `0..=16`.
pub open spec fn spec_selection_from_inner(inner_val: int) -> Option<MidiChannel> {
    if inner_val == 0 {
        Option::None
    } else {
        Option::Some(channel_of_1_based(inner_val as u8))
    }
}

/// The decimal numeral (1-based) under which a channel is displayed.
pub open spec fn spec_channel_numeral(c: MidiChannel) -> Seq<char> {
    match c {
        MidiChannel::Channel1 => "1"@,
        MidiChannel::Channel2 => "2"@,
        MidiChannel::Channel3 => "3"@,
        MidiChannel::Channel4 => "4"@,
        MidiChannel::Channel5 => "5"@,
        MidiChannel::Channel6 => "6"@,
        MidiChannel::Channel7 => "7"@,
        MidiChannel::Channel8 => "8"@,
        MidiChannel::Channel9 => "9"@,
        MidiChannel::Channel10 => "10"@,
        MidiChannel::Channel11 => "11"@,
        MidiChannel::Channel12 => "12"@,
        MidiChannel::Channel13 => "13"@,
        MidiChannel::Channel14 => "14"@,
        MidiChannel::Channel15 => "15"@,
        MidiChannel::Channel16 => "16"@,
    }
}

/// The display text of a selection: the configured "no channel" label, or
/// the channel's 1-based decimal numeral.
pub open spec fn spec_selection_to_string(
    selection: Option<MidiChannel>,
    no_channel_msg: Seq<char>,
) -> Seq<char> {
    match selection {
        Option::None => no_channel_msg,
        Option::Some(c) => spec_channel_numeral(c),
    }
}

/// The channel whose canonical display numeral is `s`, if any: exactly the
/// sixteen texts `"1"` through `"16"` denote a channel, nothing else.
pub open spec fn spec_channel_of_numeral(s: Seq<char>) -> Option<MidiChannel> {
    if s == "1"@ {
        Option::Some(MidiChannel::Channel1)
    } else if s == "2"@ {
        Option::Some(MidiChannel::Channel2)
    } else if s == "3"@ {
        Option::Some(MidiChannel::Channel3)
    } else if s == "4"@ {
        Option::Some(MidiChannel::Channel4)
    } else if s == "5"@ {
        Option::Some(MidiChannel::Channel5)
    } else if s == "6"@ {
        Option::Some(MidiChannel::Channel6)
    } else if s == "7"@ {
        Option::Some(MidiChannel::Channel7)
    } else if s == "8"@ {
        Option::Some(MidiChannel::Channel8)
    } else if s == "9"@ {
        Option::Some(MidiChannel::Channel9)
    } else if s == "10"@ {
        Option::Some(MidiChannel::Channel10)
    } else if s == "11"@ {
        Option::Some(MidiChannel::Channel11)
    } else if s == "12"@ {
        Option::Some(MidiChannel::Channel12)
    } else if s == "13"@ {
        Option::Some(MidiChannel::Channel13)
    } else if s == "14"@ {
        Option::Some(MidiChannel::Channel14)
    } else if s == "15"@ {
        Option::Some(MidiChannel::Channel15)
    } else if s == "16"@ {
        Option::Some(MidiChannel::Channel16)
    } else {
        Option::None
    }
}

/// The selection denoted by user-entered text, given the configured
/// "no channel" label: the exact inverse of [`spec_selection_to_string`].
///
/// Surrounding whitespace of the input is ignored, as is surrounding
/// whitespace of the label. Only two forms are accepted: text matching the
/// label denotes "no channel", and the sixteen canonical numerals `"1"`
/// through `"16"` denote their channel. Any other text is a parse error:
/// a decimal integer outside `0..=16` is [`RismidiError::IntOutOfBounds`],
/// and everything else — non-numeric text as well as non-canonical numeral
/// forms such as signed or zero-padded digits — is
/// [`RismidiError::UnknownInput`].
pub open spec fn spec_selection_from_string(
    description: Seq<char>,
    no_channel_msg: Seq<char>,
) -> Result<Option<MidiChannel>, RismidiError> {
    let trimmed = spec_trim(description);
    if trimmed == spec_trim(no_channel_msg) {
        Result::Ok(Option::None)
    } else {
        match spec_channel_of_numeral(trimmed) {
            Option::Some(c) => Result::Ok(Option::Some(c)),
            Option::None => match spec_parse_i32(trimmed) {
                Option::Some(v) => if 0 <= v <= 16 {
                    Result::Err(RismidiError::UnknownInput)
                } else {
                    Result::Err(RismidiError::IntOutOfBounds { found: v as i32, min: 0, max: 16 })
                },
                Option::None => Result::Err(RismidiError::UnknownInput),
            },
        }
    }
}

/// The selection one step up from `selection` in the order
/// "no channel" < channel 1 < ... < channel 16, saturating at channel 16.
pub open spec fn spec_next_step(selection: Option<MidiChannel>) -> Option<MidiChannel> {
    if spec_selection_to_inner(selection) < 16 {
        spec_selection_from_inner(spec_selection_to_inner(selection) + 1)
    } else {
        selection
    }
}

/// The selection one step down from `selection` in the same order,
/// saturating at "no channel".
pub open spec fn spec_previous_step(selection: Option<MidiChannel>) -> Option<MidiChannel> {
    if spec_selection_to_inner(selection) > 0 {
        spec_selection_from_inner(spec_selection_to_inner(selection) - 1)
    } else {
        selection
    }
}

/// A plugin parameter modelling either the selection of a MIDI channel or
/// the explicit selection of no channel.
///
/// The host owns the underlying plain value and may change it between any
/// two events (sample-accurate automation); this struct only interprets
/// whatever value is current when it is read.
pub struct OptionalMidiChannelParam {
    /// The underlying plain parameter value, as the host stores and
    /// automates it. Correct use keeps it in `0..=16`, but malformed
    /// automation data may not; reads fall back to `default` then.
    pub plain_value: i32,
    /// The statically configured selection to fall back to when the plain
    /// value is out of range.
    pub default: Option<MidiChannel>,
    /// The display text of the "no channel selected" state.
    pub no_channel_description: String,
    /// The parameter name shown by the plugin host.
    pub name: String,
}

impl OptionalMidiChannelParam {
    /// The default description of the "no channel selected" state.
    pub const DEFAULT_NO_CHANNEL_DESCRIPTION: &'static str = "No Channel";

    /// The selection this parameter currently holds: its plain value if that
    /// is a valid encoding, its configured default otherwise.
    pub open spec fn spec_value(self) -> Option<MidiChannel> {
        if 0 <= self.plain_value <= 16 {
            spec_selection_from_inner(self.plain_value as int)
        } else {
            self.default
        }
    }

    /// Creates a new [`OptionalMidiChannelParam`] named `name` with the
    /// given default selection and the default "No Channel" label.
    ///
    /// Use the other associated functions to modify the behavior of the
    /// parameter.
    pub fn new(name: &str, default: Option<MidiChannel>) -> (r: Self)
        ensures
            r.plain_value == spec_selection_to_inner(default),
            r.default == default,
            r.no_channel_description@ == "No Channel"@,
            r.name@ == name@,
    {
        let instance = OptionalMidiChannelParam {
            plain_value: Self::selection_to_inner(default),
            default,
            no_channel_description: String::new(),
            name: String::from_str(name),
        };
        instance.with_none_selected_description(Self::DEFAULT_NO_CHANNEL_DESCRIPTION)
    }

    /// The parameter's current selection, after any host automation has been
    /// applied to the plain value.
    pub fn value(&self) -> (r: Option<MidiChannel>)
        ensures
            r == self.spec_value(),
    {
        match Self::try_selection_from_inner(self.plain_value) {
            Ok(selection) => selection,
            Err(_) => self.default,
        }
    }

    /// Returns the display string for the current value: an out-of-range
    /// plain value is rendered as the configured default, exactly as
    /// [`Self::value`] resolves it.
    pub fn description(&self) -> (r: String)
        ensures
            r@ == spec_selection_to_string(self.spec_value(), self.no_channel_description@),
    {
        let shown = self.value();
        Self::selection_to_string(shown, self.no_channel_description.as_str())
    }

    /// Sets the description of the "no channel selected" position. Usually,
    /// this is shown to the user by the plugin host.
    pub fn with_none_selected_description(self, description: &str) -> (r: Self)
        ensures
            r.plain_value == self.plain_value,
            r.default == self.default,
            r.no_channel_description@ == description@,
            r.name@ == self.name@,
    {
        OptionalMidiChannelParam {
            no_channel_description: description.to_owned(),
            ..self
        }
    }

    /// The plain encoding of a selection: 0 for "no channel", the 1-based
    /// channel number otherwise.
    pub fn selection_to_inner(selection: Option<MidiChannel>) -> (r: i32)
        ensures
            r as int == spec_selection_to_inner(selection),
            0 <= r <= 16,
    {
        match selection {
            None => 0,
            Some(channel) => channel.to_1_based() as i32,
        }
    }

    /// Decodes a plain value into a selection.
    ///
    /// Succeeds exactly for plain values in `0..=16`; everything else is
    /// rejected with [`RismidiError::IntOutOfBounds`].
    pub fn try_selection_from_inner(inner_val: i32) -> (r: Result<
        Option<MidiChannel>,
        RismidiError,
    >)
        ensures
            0 <= inner_val <= 16 ==> r == Ok::<Option<MidiChannel>, RismidiError>(
                spec_selection_from_inner(inner_val as int),
            ),
            !(0 <= inner_val <= 16) ==> r == Err::<Option<MidiChannel>, RismidiError>(
                (RismidiError::IntOutOfBounds { found: inner_val, min: 0, max: 16 }),
            ),
    {
        if inner_val == 0 {
            Ok(None)
        } else if 1 <= inner_val && inner_val <= 16 {
            match MidiChannel::try_from_1_based(inner_val as usize) {
                Ok(c) => Ok(Some(c)),
                Err(_) => Err(RismidiError::IntOutOfBounds { found: inner_val, min: 0, max: 16 }),
            }
        } else {
            Err(RismidiError::IntOutOfBounds { found: inner_val, min: 0, max: 16 })
        }
    }

    /// Renders a selection as the text shown to the user: `no_channel_msg`
    /// for "no channel", the 1-based decimal numeral otherwise.
    pub fn selection_to_string(selection: Option<MidiChannel>, no_channel_msg: &str) -> (r: String)
        ensures
            r@ == spec_selection_to_string(selection, no_channel_msg@),
    {
        match selection {
            None => no_channel_msg.to_owned(),
            Some(channel) => match channel {
                MidiChannel::Channel1 => String::from_str("1"),
                MidiChannel::Channel2 => String::from_str("2"),
                MidiChannel::Channel3 => String::from_str("3"),
                MidiChannel::Channel4 => String::from_str("4"),
                MidiChannel::Channel5 => String::from_str("5"),
                MidiChannel::Channel6 => String::from_str("6"),
                MidiChannel::Channel7 => String::from_str("7"),
                MidiChannel::Channel8 => String::from_str("8"),
                MidiChannel::Channel9 => String::from_str("9"),
                MidiChannel::Channel10 => String::from_str("10"),
                MidiChannel::Channel11 => String::from_str("11"),
                MidiChannel::Channel12 => String::from_str("12"),
                MidiChannel::Channel13 => String::from_str("13"),
                MidiChannel::Channel14 => String::from_str("14"),
                MidiChannel::Channel15 => String::from_str("15"),
                MidiChannel::Channel16 => String::from_str("16"),
            },
        }
    }

    /// The channel denoted by one of the sixteen canonical numerals `"1"`
    /// through `"16"`, if `text` is one.
    fn channel_of_numeral(text: &str) -> (r: Option<MidiChannel>)
        ensures
            r == spec_channel_of_numeral(text@),
    {
        if crate::text::str_eq(text, "1") {
            Some(MidiChannel::Channel1)
        } else if crate::text::str_eq(text, "2") {
            Some(MidiChannel::Channel2)
        } else if crate::text::str_eq(text, "3") {
            Some(MidiChannel::Channel3)
        } else if crate::text::str_eq(text, "4") {
            Some(MidiChannel::Channel4)
        } else if crate::text::str_eq(text, "5") {
            Some(MidiChannel::Channel5)
        } else if crate::text::str_eq(text, "6") {
            Some(MidiChannel::Channel6)
        } else if crate::text::str_eq(text, "7") {
            Some(MidiChannel::Channel7)
        } else if crate::text::str_eq(text, "8") {
            Some(MidiChannel::Channel8)
        } else if crate::text::str_eq(text, "9") {
            Some(MidiChannel::Channel9)
        } else if crate::text::str_eq(text, "10") {
            Some(MidiChannel::Channel10)
        } else if crate::text::str_eq(text, "11") {
            Some(MidiChannel::Channel11)
        } else if crate::text::str_eq(text, "12") {
            Some(MidiChannel::Channel12)
        } else if crate::text::str_eq(text, "13") {
            Some(MidiChannel::Channel13)
        } else if crate::text::str_eq(text, "14") {
            Some(MidiChannel::Channel14)
        } else if crate::text::str_eq(text, "15") {
            Some(MidiChannel::Channel15)
        } else if crate::text::str_eq(text, "16") {
            Some(MidiChannel::Channel16)
        } else {
            None
        }
    }

    /// Parses user-entered text into a selection, the exact inverse of
    /// [`Self::selection_to_string`].
    ///
    /// The text is trimmed of surrounding whitespace; it is accepted only if
    /// it then matches the (likewise trimmed) `no_channel_msg` label, which
    /// denotes "no channel", or is one of the sixteen canonical numerals
    /// `"1"` through `"16"`. Anything else fails: a decimal integer outside
    /// `0..=16` with [`RismidiError::IntOutOfBounds`], all other text —
    /// signed or zero-padded digits included — with
    /// [`RismidiError::UnknownInput`].
    pub fn try_selection_from_string(description: &str, no_channel_msg: &str) -> (r: Result<
        Option<MidiChannel>,
        RismidiError,
    >)
        ensures
            r == spec_selection_from_string(description@, no_channel_msg@),
    {
        let trimmed = crate::text::trim(description);
        let label = crate::text::trim(no_channel_msg);
        if crate::text::str_eq(trimmed, label) {
            return Ok(None);
        }
        match Self::channel_of_numeral(trimmed) {
            Some(channel) => Ok(Some(channel)),
            None => match crate::text::parse_i32(trimmed) {
                None => Err(RismidiError::UnknownInput),
                Some(v) => {
                    if 0 <= v && v <= 16 {
                        Err(RismidiError::UnknownInput)
                    } else {
                        Err(RismidiError::IntOutOfBounds { found: v, min: 0, max: 16 })
                    }
                },
            },
        }
    }

    /// Moves one step up through "no channel" < channel 1 < ... < channel
    /// 16, saturating at channel 16.
    pub fn next_step(selection: Option<MidiChannel>) -> (r: Option<MidiChannel>)
        ensures
            r == spec_next_step(selection),
    {
        match selection {
            None => Some(MidiChannel::Channel1),
            Some(c) => {
                let k = c.to_1_based();
                if k < 16 {
                    proof {
                        crate::midi_channel::lemma_channel_index_round_trip(c);
                    }
                    match MidiChannel::try_from_1_based((k + 1) as usize) {
                        Ok(up) => Some(up),
                        Err(_) => Some(c),
                    }
                } else {
                    Some(c)
                }
            },
        }
    }

    /// Moves one step down through the same order, saturating at
    /// "no channel".
    pub fn previous_step(selection: Option<MidiChannel>) -> (r: Option<MidiChannel>)
        ensures
            r == spec_previous_step(selection),
    {
        match selection {
            None => None,
            Some(c) => {
                let k = c.to_1_based();
                if k == 1 {
                    None
                } else {
                    proof {
                        crate::midi_channel::lemma_channel_index_round_trip(c);
                    }
                    match MidiChannel::try_from_1_based((k - 1) as usize) {
                        Ok(down) => Some(down),
                        Err(_) => Some(c),
                    }
                }
            },
        }
    }
}

/// A text whose first and last characters are no whitespace carries no
/// whitespace to trim.
proof fn lemma_trim_of_nonspace(s: Seq<char>)
    requires
        s.len() > 0,
        !is_space(s[0]),
        !is_space(s.last()),
    ensures
        spec_trim(s) == s,
{
    assert(spec_trim_start(s) == s);
    assert(spec_trim_end(s) == s);
}

/// Every channel's display numeral is whitespace-free and reads back as
/// exactly that channel.
proof fn lemma_numeral_props(c: MidiChannel)
    ensures
        spec_trim(spec_channel_numeral(c)) == spec_channel_numeral(c),
        spec_channel_of_numeral(spec_channel_numeral(c)) == Option::Some(c),
{
    reveal_strlit("1");
    reveal_strlit("2");
    reveal_strlit("3");
    reveal_strlit("4");
    reveal_strlit("5");
    reveal_strlit("6");
    reveal_strlit("7");
    reveal_strlit("8");
    reveal_strlit("9");
    reveal_strlit("10");
    reveal_strlit("11");
    reveal_strlit("12");
    reveal_strlit("13");
    reveal_strlit("14");
    reveal_strlit("15");
    reveal_strlit("16");
    lemma_trim_of_nonspace(spec_channel_numeral(c));
}

/// The codec round trip: rendering any selection and parsing the text back
/// yields the same selection, for any configured "no channel" label —
/// labels with surrounding whitespace included — as long as the label does
/// not itself read as one of the sixteen channel numerals.
pub proof fn lemma_string_round_trip(selection: Option<MidiChannel>, label: Seq<char>)
    requires
        forall|c: MidiChannel| spec_trim(label) != #[trigger] spec_channel_numeral(c),
    ensures
        spec_selection_from_string(spec_selection_to_string(selection, label), label)
            == Ok::<Option<MidiChannel>, RismidiError>(selection),
{
    match selection {
        Option::None => {},
        Option::Some(c) => {
            lemma_numeral_props(c);
        },
    }
}

/// Stepping moves monotonically through the plain encoding: one step up adds
/// exactly one (saturating at 16), one step down subtracts exactly one
/// (saturating at 0), and within range the two operations undo each other.
/// Starting from "no channel", repeated upward steps therefore visit the 16
/// channels in order, with no skips or repeats, and downward steps reverse
/// that walk exactly.
pub proof fn lemma_stepping_monotone(selection: Option<MidiChannel>)
    ensures
        spec_selection_to_inner(spec_next_step(selection)) == if spec_selection_to_inner(selection)
            < 16 {
            spec_selection_to_inner(selection) + 1
        } else {
            16int
        },
        spec_selection_to_inner(spec_previous_step(selection)) == if spec_selection_to_inner(
            selection,
        ) > 0 {
            spec_selection_to_inner(selection) - 1
        } else {
            0int
        },
        spec_selection_to_inner(selection) < 16 ==> spec_previous_step(spec_next_step(selection))
            == selection,
        spec_selection_to_inner(selection) > 0 ==> spec_next_step(spec_previous_step(selection))
            == selection,
{
    match selection {
        Option::None => {
            crate::midi_channel::lemma_index_channel_round_trip(1);
        },
        Option::Some(c) => {
            let k = c.spec_to_1_based();
            crate::midi_channel::lemma_channel_index_round_trip(c);
            if k < 16 {
                crate::midi_channel::lemma_index_channel_round_trip((k + 1) as u8);
            }
            if k > 1 {
                crate::midi_channel::lemma_index_channel_round_trip((k - 1) as u8);
            }
        },
    }
}

} // verus!
