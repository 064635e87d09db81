use rismidi::{MidiChannel, RismidiError, NUM_MIDI_CHANNELS};

#[test]
fn num_variants_matches_num_midi_channels() {
    let mut num_variants = 0;
    for i in 0..=u8::MAX as usize {
        if MidiChannel::try_from_0_based(i).is_ok() {
            num_variants += 1;
        }
    }
    assert_eq!(num_variants, NUM_MIDI_CHANNELS as usize);
}

#[test]
fn midi_channel_num_variants_matches_num_midi_channels() {
    let mut num_variants = 0;
    for i in 0..=u8::MAX as usize {
        if MidiChannel::try_from_0_based(i).is_ok() {
            num_variants += 1;
        }
    }
    assert_eq!(num_variants, NUM_MIDI_CHANNELS as usize);
}

#[test]
fn zero_based_round_trip() {
    for c in 0..16 {
        let channel = MidiChannel::try_from_0_based(c).unwrap();
        assert_eq!(channel.to_0_based() as usize, c);
    }
    assert!(MidiChannel::try_from_0_based(16).is_err());
}

#[test]
fn one_based_round_trip() {
    for c in 1..=16 {
        let channel = MidiChannel::try_from_1_based(c).unwrap();
        assert_eq!(channel.to_1_based() as usize, c);
    }
    assert!(MidiChannel::try_from_1_based(0).is_err());
    assert!(MidiChannel::try_from_1_based(17).is_err());
}

#[test]
fn out_of_range_error_contents() {
    assert_eq!(
        MidiChannel::try_from_0_based(99),
        Err(RismidiError::UIntOutOfBounds {
            found: 99,
            min: 0,
            max: 15
        })
    );
    assert_eq!(
        MidiChannel::try_from_1_based(0),
        Err(RismidiError::UIntOutOfBounds {
            found: 0,
            min: 1,
            max: 16
        })
    );
    assert_eq!(
        MidiChannel::try_from_1_based(17),
        Err(RismidiError::UIntOutOfBounds {
            found: 17,
            min: 1,
            max: 16
        })
    );
}

#[test]
fn specific_indices_map_to_expected_channels() {
    assert_eq!(MidiChannel::try_from_0_based(0), Ok(MidiChannel::Channel1));
    assert_eq!(MidiChannel::try_from_1_based(12), Ok(MidiChannel::Channel12));
    assert_eq!(MidiChannel::Channel1.to_0_based(), 0);
    assert_eq!(MidiChannel::Channel1.to_1_based(), 1);
    assert_eq!(MidiChannel::Channel16.to_0_based(), 15);
    assert_eq!(MidiChannel::Channel16.to_1_based(), 16);
}
