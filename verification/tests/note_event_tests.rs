use rismidi::{MidiChannel, NoteEvent, RismidiError};

#[test]
fn get_channel_validates_the_raw_index() {
    let valid = NoteEvent::NoteOn {
        timing: 0,
        voice_id: None,
        channel: 3,
        note: 54,
    };
    assert_eq!(valid.get_channel(), Ok(MidiChannel::Channel4));

    let invalid = NoteEvent::NoteOn {
        timing: 0,
        voice_id: None,
        channel: 99,
        note: 54,
    };
    assert_eq!(
        invalid.get_channel(),
        Err(RismidiError::UIntOutOfBounds {
            found: 99,
            min: 0,
            max: 15
        })
    );
}

#[test]
fn get_channel_fails_on_channel_less_kinds() {
    let event = NoteEvent::MonoAutomation {
        timing: 0,
        poly_modulation_id: 1,
    };
    assert_eq!(event.get_channel(), Err(RismidiError::MsgHasNoChannel));

    let event = NoteEvent::PolyModulation {
        timing: 0,
        voice_id: 1,
        poly_modulation_id: 2,
    };
    assert_eq!(event.get_channel(), Err(RismidiError::MsgHasNoChannel));
}

#[test]
fn set_channel_rewrites_channel_bearing_kinds() {
    let mut event = NoteEvent::MidiPitchBend {
        timing: 2,
        channel: 0,
    };
    assert_eq!(event.set_channel(MidiChannel::Channel9), Ok(()));
    assert_eq!(
        event,
        NoteEvent::MidiPitchBend {
            timing: 2,
            channel: 8
        }
    );
}

#[test]
fn set_channel_leaves_channel_less_kinds_alone() {
    let mut event = NoteEvent::MonoAutomation {
        timing: 3,
        poly_modulation_id: 7,
    };
    let before = event;
    assert_eq!(
        event.set_channel(MidiChannel::Channel9),
        Err(RismidiError::MsgHasNoChannel)
    );
    assert_eq!(event, before);
}

#[test]
fn with_channel_rewrites_every_channel_bearing_kind() {
    let target = MidiChannel::Channel14;
    let events = vec![
        NoteEvent::NoteOn {
            timing: 0,
            voice_id: Some(1),
            channel: 0,
            note: 60,
        },
        NoteEvent::Choke {
            timing: 1,
            voice_id: None,
            channel: 5,
            note: 61,
        },
        NoteEvent::PolyPressure {
            timing: 2,
            voice_id: None,
            channel: 9,
            note: 62,
        },
        NoteEvent::MidiProgramChange {
            timing: 3,
            channel: 15,
            program: 42,
        },
    ];
    for event in events {
        let rewritten = event.with_channel(target);
        assert_eq!(rewritten.get_channel(), Ok(target));
    }
}
