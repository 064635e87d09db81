use rismidi::{MidiChannel, NoteEvent, RisChannelFilter};

#[test]
fn transform_note_event_on_filter_channel() {
    let processor = RisChannelFilter::default();

    let in_event = NoteEvent::NoteOn {
        timing: 123,
        voice_id: None,
        channel: 11,
        note: 54,
    };

    let out_event = processor.transform_event(in_event, Some(MidiChannel::Channel12));
    assert_eq!(out_event, Some(in_event));
}

#[test]
fn transform_note_event_on_ignored_channel() {
    let processor = RisChannelFilter::default();

    let in_event = NoteEvent::NoteOn {
        timing: 123,
        voice_id: None,
        channel: 13,
        note: 54,
    };

    let out_event = processor.transform_event(in_event, Some(MidiChannel::Channel12));
    assert_eq!(out_event, None);
}

#[test]
fn transform_note_event_with_no_channel_selected() {
    let processor = RisChannelFilter::default();

    let in_event = NoteEvent::NoteOn {
        timing: 123,
        voice_id: None,
        channel: 13,
        note: 54,
    };

    let out_event = processor.transform_event(in_event, None);
    assert_eq!(out_event, Some(in_event));
}

#[test]
fn transform_event_without_channel() {
    let processor = RisChannelFilter::default();

    for filter_chn in [Some(MidiChannel::Channel12), None] {
        let in_event = NoteEvent::PolyModulation {
            timing: 0,
            voice_id: 1,
            poly_modulation_id: 2,
        };

        let out_event = processor.transform_event(in_event, filter_chn);
        assert_eq!(out_event, Some(in_event));
    }
}

#[test]
fn no_target_passes_every_channel() {
    let processor = RisChannelFilter::default();
    for channel in 0..16 {
        let in_event = NoteEvent::MidiCC {
            timing: 7,
            channel,
            cc: 64,
        };
        assert_eq!(processor.transform_event(in_event, None), Some(in_event));
    }
}

#[test]
fn invalid_channel_is_passed_through_not_dropped() {
    let processor = RisChannelFilter::default();
    let in_event = NoteEvent::NoteOn {
        timing: 1,
        voice_id: None,
        channel: 200,
        note: 3,
    };
    assert_eq!(
        processor.transform_event(in_event, Some(MidiChannel::Channel5)),
        Some(in_event)
    );
}

#[test]
fn filter_block_keeps_order_and_respects_per_event_targets() {
    let processor = RisChannelFilter::default();
    let events = vec![
        NoteEvent::NoteOn {
            timing: 0,
            voice_id: None,
            channel: 11,
            note: 10,
        },
        NoteEvent::NoteOn {
            timing: 1,
            voice_id: None,
            channel: 13,
            note: 11,
        },
        NoteEvent::NoteOn {
            timing: 2,
            voice_id: None,
            channel: 13,
            note: 12,
        },
    ];
    // The target changes in mid-block: the second event is dropped, the
    // third passes because by then no channel is filtered any more.
    let targets = vec![
        Some(MidiChannel::Channel12),
        Some(MidiChannel::Channel12),
        None,
    ];
    let out = processor.process_block(&events, &targets);
    assert_eq!(out, vec![events[0], events[2]]);
}
