use rismidi::{MidiChannel, OptionalMidiChannel, RismidiError};

#[test]
fn midi_channel_from_none() {
    let c = MidiChannel::try_from_optional(OptionalMidiChannel::NoChannel);
    assert!(matches!(c, Err(RismidiError::NoChannelSelected)));
}

#[test]
fn midi_channel_from_some() {
    for i in 1..=16 {
        let opt_channel = OptionalMidiChannel::try_from_1_based(i).unwrap();
        assert_eq!(opt_channel.try_to_1_based(), Ok(i as u8));

        let channel = MidiChannel::try_from_optional(opt_channel).unwrap();
        assert_eq!(channel.to_1_based(), opt_channel.try_to_1_based().unwrap());
    }
}

#[test]
fn num_variants_is_17() {
    // One value for "no channel", plus one per valid 1-based index.
    let mut num_variants = 1;
    for i in 0..=u8::MAX as usize {
        if OptionalMidiChannel::try_from_1_based(i).is_ok() {
            num_variants += 1;
        }
    }
    assert_eq!(num_variants, 17);
}

#[test]
fn index_is_1_based_channel_number() {
    for i in 1..=16 {
        let channel = OptionalMidiChannel::try_from_1_based(i).unwrap();
        assert_eq!(channel.try_to_1_based(), Ok(i as u8));
    }
}

#[test]
fn optional_zero_based_conversions() {
    for i in 0..16 {
        let channel = OptionalMidiChannel::try_from_0_based(i).unwrap();
        assert_eq!(channel.try_to_0_based(), Ok(i as u8));
    }
    assert_eq!(
        OptionalMidiChannel::try_from_0_based(16),
        Err(RismidiError::UIntOutOfBounds {
            found: 16,
            min: 0,
            max: 15
        })
    );
    assert_eq!(
        OptionalMidiChannel::NoChannel.try_to_0_based(),
        Err(RismidiError::NoChannelSelected)
    );
}

#[test]
fn optional_channel_from_concrete_channel() {
    let channel = MidiChannel::Channel12;
    let optional = OptionalMidiChannel::from(channel);
    assert_eq!(optional, OptionalMidiChannel::Selected(MidiChannel::Channel12));
    assert_eq!(optional.try_to_1_based(), Ok(12));
}
