use rismidi::{MidiChannel, OptionalMidiChannelParam, RismidiError};

#[test]
fn description_when_none_selected() {
    let no_channel_description = "this is a test string";
    let param = OptionalMidiChannelParam::new("test", None)
        .with_none_selected_description(no_channel_description);

    // param is still in the default position: no channel selected
    assert_eq!(param.description(), no_channel_description);
}

#[test]
fn description_when_channel_selected() {
    for i in 1..=16 {
        let channel = MidiChannel::try_from_1_based(i).unwrap();
        let param = OptionalMidiChannelParam::new("test", Some(channel));

        assert_eq!(param.description(), format!("{i}"));
    }
}

#[test]
fn string_round_trip_all_selections() {
    for label in ["No Channel", "All", "  label with spaces  ", ""] {
        let mut selections = vec![None];
        for i in 1..=16 {
            selections.push(Some(MidiChannel::try_from_1_based(i).unwrap()));
        }
        for selection in selections {
            let text = OptionalMidiChannelParam::selection_to_string(selection, label);
            assert_eq!(
                OptionalMidiChannelParam::try_selection_from_string(&text, label),
                Ok(selection)
            );
        }
    }
}

#[test]
fn from_string_trims_whitespace() {
    assert_eq!(
        OptionalMidiChannelParam::try_selection_from_string(" 12 ", "No Channel"),
        Ok(Some(MidiChannel::Channel12))
    );
    assert_eq!(
        OptionalMidiChannelParam::try_selection_from_string("\t No Channel \n", "No Channel"),
        Ok(None)
    );
}

#[test]
fn from_string_rejects_noncanonical_numeral_forms() {
    // Only the label and the canonical numerals "1".."16" are accepted:
    // "0", signed and zero-padded forms are parse errors.
    assert_eq!(
        OptionalMidiChannelParam::try_selection_from_string("0", "No Channel"),
        Err(RismidiError::UnknownInput)
    );
    assert_eq!(
        OptionalMidiChannelParam::try_selection_from_string("+7", "No Channel"),
        Err(RismidiError::UnknownInput)
    );
    assert_eq!(
        OptionalMidiChannelParam::try_selection_from_string("007", "No Channel"),
        Err(RismidiError::UnknownInput)
    );
}

#[test]
fn from_string_rejects_unknown_text() {
    assert_eq!(
        OptionalMidiChannelParam::try_selection_from_string("garbage", "No Channel"),
        Err(RismidiError::UnknownInput)
    );
    // Too large for an i32: not recognized as a number at all.
    assert_eq!(
        OptionalMidiChannelParam::try_selection_from_string("99999999999999999999", "No Channel"),
        Err(RismidiError::UnknownInput)
    );
    assert_eq!(
        OptionalMidiChannelParam::try_selection_from_string("", "No Channel"),
        Err(RismidiError::UnknownInput)
    );
}

#[test]
fn from_string_rejects_out_of_range_numbers() {
    assert_eq!(
        OptionalMidiChannelParam::try_selection_from_string("17", "No Channel"),
        Err(RismidiError::IntOutOfBounds {
            found: 17,
            min: 0,
            max: 16
        })
    );
    assert_eq!(
        OptionalMidiChannelParam::try_selection_from_string("-1", "No Channel"),
        Err(RismidiError::IntOutOfBounds {
            found: -1,
            min: 0,
            max: 16
        })
    );
}

#[test]
fn label_matching_a_numeral_takes_precedence() {
    // With a label that reads as a channel numeral, the label wins: the text
    // "12" then denotes "no channel", so the rendering of channel 12 does
    // not survive the round trip. This is why such labels are excluded from
    // the round-trip guarantee.
    assert_eq!(
        OptionalMidiChannelParam::try_selection_from_string("12", "12"),
        Ok(None)
    );
}

#[test]
fn inner_encoding_round_trip() {
    let mut selections = vec![None];
    for i in 1..=16 {
        selections.push(Some(MidiChannel::try_from_1_based(i).unwrap()));
    }
    for selection in selections {
        let inner = OptionalMidiChannelParam::selection_to_inner(selection);
        assert_eq!(
            OptionalMidiChannelParam::try_selection_from_inner(inner),
            Ok(selection)
        );
    }
    assert_eq!(
        OptionalMidiChannelParam::try_selection_from_inner(17),
        Err(RismidiError::IntOutOfBounds {
            found: 17,
            min: 0,
            max: 16
        })
    );
}

#[test]
fn value_falls_back_to_default_when_out_of_range() {
    let mut param = OptionalMidiChannelParam::new("test", Some(MidiChannel::Channel2));
    assert_eq!(param.value(), Some(MidiChannel::Channel2));

    // Malformed automation data: the plain value leaves 0..=16.
    param.plain_value = 99;
    assert_eq!(param.value(), Some(MidiChannel::Channel2));

    param.plain_value = 5;
    assert_eq!(param.value(), Some(MidiChannel::Channel5));
}

#[test]
fn description_falls_back_to_default_when_out_of_range() {
    let mut param = OptionalMidiChannelParam::new("test", Some(MidiChannel::Channel3));

    // Malformed automation data resolves to the configured default, and the
    // display string reports that default.
    param.plain_value = 99;
    assert_eq!(param.description(), "3");

    let mut no_default = OptionalMidiChannelParam::new("test", None);
    no_default.plain_value = -1;
    assert_eq!(no_default.description(), "No Channel");
}

#[test]
fn stepping_visits_channels_in_order() {
    let mut selection = None;
    for i in 1..=16 {
        selection = OptionalMidiChannelParam::next_step(selection);
        assert_eq!(selection, Some(MidiChannel::try_from_1_based(i).unwrap()));
    }
    // Saturates at channel 16.
    assert_eq!(OptionalMidiChannelParam::next_step(selection), selection);
}

#[test]
fn stepping_reverses_exactly() {
    let mut selection = Some(MidiChannel::Channel16);
    for i in (1..=15).rev() {
        selection = OptionalMidiChannelParam::previous_step(selection);
        assert_eq!(selection, Some(MidiChannel::try_from_1_based(i).unwrap()));
    }
    selection = OptionalMidiChannelParam::previous_step(selection);
    assert_eq!(selection, None);
    // Saturates at "no channel".
    assert_eq!(OptionalMidiChannelParam::previous_step(selection), None);
}
