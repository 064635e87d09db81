use rismidi::{ChannelTracker, MidiChannel, NoteEvent, RisChannelize};

#[test]
fn note_events_are_transformed() {
    let mut processor = RisChannelize::default();

    {
        let in_event = NoteEvent::NoteOn {
            timing: 123,
            voice_id: None,
            channel: 3,
            note: 54,
        };

        let out_event = processor.transform_event(in_event, Some(MidiChannel::Channel12));
        assert_eq!(out_event, in_event.with_channel(MidiChannel::Channel12));
    }
    {
        let in_event = NoteEvent::NoteOff {
            timing: 123,
            voice_id: None,
            channel: 3,
            note: 54,
        };

        let out_event = processor.transform_event(in_event, Some(MidiChannel::Channel12));
        assert_eq!(out_event, in_event.with_channel(MidiChannel::Channel12));
    }
}

#[test]
fn note_off_follows_note_on_channel() {
    let mut processor = RisChannelize::default();

    {
        let in_event = NoteEvent::NoteOn {
            timing: 123,
            voice_id: None,
            channel: 3,
            note: 54,
        };

        let out_event = processor.transform_event(in_event, Some(MidiChannel::Channel12));
        assert_eq!(out_event, in_event.with_channel(MidiChannel::Channel12));
    }
    {
        let in_event = NoteEvent::NoteOff {
            timing: 123,
            voice_id: None,
            channel: 3,
            note: 54,
        };

        let out_event = processor.transform_event(in_event, Some(MidiChannel::Channel9));
        assert_eq!(out_event, in_event.with_channel(MidiChannel::Channel12));
    }
}

#[test]
fn no_transform_if_no_channel_selected() {
    let mut processor = RisChannelize::default();

    {
        let in_event = NoteEvent::NoteOn {
            timing: 123,
            voice_id: None,
            channel: 3,
            note: 54,
        };

        let out_event = processor.transform_event(in_event, None);
        assert_eq!(out_event, in_event.with_channel(MidiChannel::Channel4));
    }
    {
        let in_event = NoteEvent::NoteOff {
            timing: 123,
            voice_id: None,
            channel: 3,
            note: 54,
        };

        let out_event = processor.transform_event(in_event, None);
        assert_eq!(out_event, in_event.with_channel(MidiChannel::Channel4));
    }
}

#[test]
fn other_channel_bearing_events_are_rewritten_without_tracking() {
    let mut processor = RisChannelize::default();

    let cc = NoteEvent::MidiCC {
        timing: 5,
        channel: 2,
        cc: 64,
    };
    let out = processor.transform_event(cc, Some(MidiChannel::Channel7));
    assert_eq!(out, cc.with_channel(MidiChannel::Channel7));

    // The tracker was not touched: a note end on the same channel still
    // resolves to its own channel.
    let off = NoteEvent::NoteOff {
        timing: 6,
        voice_id: None,
        channel: 2,
        note: 60,
    };
    let out_off = processor.transform_event(off, None);
    assert_eq!(out_off, off);
}

#[test]
fn channel_less_events_pass_through_channelize() {
    let mut processor = RisChannelize::default();
    let in_event = NoteEvent::MonoAutomation {
        timing: 9,
        poly_modulation_id: 4,
    };
    let out = processor.transform_event(in_event, Some(MidiChannel::Channel3));
    assert_eq!(out, in_event);
}

#[test]
fn later_note_on_overwrites_tracker_entry() {
    let mut processor = RisChannelize::default();
    let on = NoteEvent::NoteOn {
        timing: 0,
        voice_id: None,
        channel: 3,
        note: 54,
    };
    processor.transform_event(on, Some(MidiChannel::Channel12));
    // A second note start for the same key before any note end: last write
    // wins.
    processor.transform_event(on, Some(MidiChannel::Channel5));

    let off = NoteEvent::NoteOff {
        timing: 1,
        voice_id: None,
        channel: 3,
        note: 54,
    };
    let out = processor.transform_event(off, None);
    assert_eq!(out, off.with_channel(MidiChannel::Channel5));
}

#[test]
fn malformed_channel_passes_through_channelize() {
    let mut processor = RisChannelize::default();

    // Host input is untrusted: a note start or note end whose channel field
    // does not validate passes through unchanged and leaves the tracker
    // alone.
    let on = NoteEvent::NoteOn {
        timing: 0,
        voice_id: None,
        channel: 99,
        note: 54,
    };
    assert_eq!(
        processor.transform_event(on, Some(MidiChannel::Channel12)),
        on
    );

    let off = NoteEvent::NoteOff {
        timing: 1,
        voice_id: None,
        channel: 200,
        note: 54,
    };
    assert_eq!(processor.transform_event(off, None), off);

    // The tracker was not touched by the malformed note start.
    let valid_off = NoteEvent::NoteOff {
        timing: 2,
        voice_id: None,
        channel: 3,
        note: 54,
    };
    assert_eq!(
        processor.transform_event(valid_off, Some(MidiChannel::Channel9)),
        valid_off
    );
}

#[test]
fn tracker_starts_as_identity_mapping() {
    let tracker = ChannelTracker::new();
    for c in 0..16 {
        let channel = MidiChannel::try_from_0_based(c).unwrap();
        for note in [0u8, 1, 64, 127] {
            assert_eq!(tracker.get(note, channel), channel);
        }
    }
}

#[test]
fn tracker_set_changes_only_its_key() {
    let mut tracker = ChannelTracker::new();
    let c3 = MidiChannel::try_from_1_based(3).unwrap();
    let c4 = MidiChannel::try_from_1_based(4).unwrap();
    let c12 = MidiChannel::try_from_1_based(12).unwrap();

    tracker.set(54, c3, c12);
    assert_eq!(tracker.get(54, c3), c12);
    assert_eq!(tracker.get(55, c3), c3);
    assert_eq!(tracker.get(54, c4), c4);
}

#[test]
fn channelize_block_routes_note_off_across_target_change() {
    let mut processor = RisChannelize::default();
    let on = NoteEvent::NoteOn {
        timing: 0,
        voice_id: None,
        channel: 3,
        note: 54,
    };
    let off = NoteEvent::NoteOff {
        timing: 10,
        voice_id: None,
        channel: 3,
        note: 54,
    };
    let events = vec![on, off];
    // The target moves to channel 9 before the note end arrives; the note
    // end must still follow the note start to channel 12.
    let targets = vec![Some(MidiChannel::Channel12), Some(MidiChannel::Channel9)];
    let out = processor.process_block(&events, &targets);
    assert_eq!(
        out,
        vec![
            on.with_channel(MidiChannel::Channel12),
            off.with_channel(MidiChannel::Channel12)
        ]
    );
}
