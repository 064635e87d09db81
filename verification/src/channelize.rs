//! The channelize policy: move events to a target channel while keeping
//! note starts and note ends paired.
//!
//! The one correctness-critical idea of this crate lives here: where new
//! notes go is decided by the target parameter, which may change at any
//! time, but where an already-sounding note's end goes was fixed at its
//! start and is recalled from the tracker — so changing the routing
//! parameter in mid-note can never leave a note hanging on an abandoned
//! channel.

use crate::channel_tracker::ChannelTracker;
use crate::midi_channel::{channel_of_0_based, MidiChannel};
use crate::note_event::NoteEvent;
use crate::params::OptionalMidiChannelParam;
use vstd::prelude::*;

verus! {

/// What the channelize policy does to one event: the emitted event and the
/// tracker state afterwards.
///
/// A note end is rewritten to the channel recorded for its (channel, note)
/// key, whatever the current target is. A note start is rewritten to the
/// target (or kept on its own channel if no target is selected) and that
/// decision is recorded. A note start or note end whose channel field does
/// not validate — host input is untrusted — passes through unchanged with
/// the tracker untouched: a validation failure never stalls the event path.
/// Every other channel-bearing event is rewritten to the target if one is
/// selected, without consulting the tracker; note ends are exactly the
/// note-off kind, so a choke or voice termination is rewritten like any
/// other channel-bearing event. Channel-less events pass through unchanged.
/// Only a note start changes the tracker.
pub open spec fn spec_channelize_event(
    tracker: ChannelTracker,
    in_event: NoteEvent,
    target_chn: Option<MidiChannel>,
) -> (NoteEvent, ChannelTracker) {
    match in_event {
        NoteEvent::NoteOff { channel, note, .. } => {
            if channel < 16 {
                let in_channel = channel_of_0_based(channel);
                let out_channel = tracker.spec_get(in_channel, note);
                (in_event.spec_with_channel(out_channel), tracker)
            } else {
                (in_event, tracker)
            }
        },
        NoteEvent::NoteOn { channel, note, .. } => {
            if channel < 16 {
                let in_channel = channel_of_0_based(channel);
                let out_channel = match target_chn {
                    Option::Some(c) => c,
                    Option::None => in_channel,
                };
                (
                    in_event.spec_with_channel(out_channel),
                    tracker.spec_set(in_channel, note, out_channel),
                )
            } else {
                (in_event, tracker)
            }
        },
        _ => {
            let out_event = match target_chn {
                Option::Some(c) => in_event.spec_with_channel(c),
                Option::None => in_event,
            };
            (out_event, tracker)
        },
    }
}

/// What the channelize policy does to a whole processing block, event by
/// event in input order, threading the tracker state through. `targets[i]`
/// is the parameter value current when event `i` is processed.
pub open spec fn spec_channelize_block(
    tracker: ChannelTracker,
    events: Seq<NoteEvent>,
    targets: Seq<Option<MidiChannel>>,
) -> (Seq<NoteEvent>, ChannelTracker)
    decreases events.len(),
{
    if events.len() == 0 {
        (Seq::empty(), tracker)
    } else {
        let (out_init, mid) = spec_channelize_block(
            tracker,
            events.drop_last(),
            targets.drop_last(),
        );
        let (out_last, fin) = spec_channelize_event(mid, events.last(), targets.last());
        (out_init.push(out_last), fin)
    }
}

/// The parameters of the channelizer: the single target-channel control.
pub struct RisChannelizeParams {
    /// The channel to move events to; "no channel" means no change.
    pub target_channel: OptionalMidiChannelParam,
}

impl Default for RisChannelizeParams {
    /// The channelizer starts with no target selected, labelled
    /// "No Change": incoming channels are kept.
    fn default() -> (r: Self)
        ensures
            r.target_channel.plain_value == 0,
            r.target_channel.default == Option::<MidiChannel>::None,
            r.target_channel.no_channel_description@ == "No Change"@,
            r.target_channel.name@ == "Target Channel"@,
    {
        RisChannelizeParams {
            target_channel: OptionalMidiChannelParam::new(
                "Target Channel",
                None,
            ).with_none_selected_description("No Change"),
        }
    }
}

/// An event processor that moves events to a target channel while keeping
/// note starts and note ends paired.
pub struct RisChannelize {
    /// The processor's parameters, owned by the host between events.
    pub params: RisChannelizeParams,
    /// Remembers where each sounding note's start was routed.
    pub channel_tracker: ChannelTracker,
}

impl Default for RisChannelize {
    /// A fresh channelizer: default parameters and the identity tracker.
    fn default() -> (r: Self)
        ensures
            r.params.target_channel.plain_value == 0,
            r.params.target_channel.default == Option::<MidiChannel>::None,
            r.params.target_channel.no_channel_description@ == "No Change"@,
            forall|c: MidiChannel, n: u8|
                n < 128 ==> #[trigger] r.channel_tracker.spec_get(c, n) == c,
    {
        RisChannelize {
            params: RisChannelizeParams::default(),
            channel_tracker: ChannelTracker::new(),
        }
    }
}

impl RisChannelize {
    /// Applies the channelize policy to one event under the current
    /// parameter value, updating the tracker on note starts.
    ///
    /// The channel field is untrusted host input: a note start or note end
    /// whose channel fails validation passes through unchanged and leaves
    /// the tracker alone.
    pub fn transform_event(&mut self, in_event: NoteEvent, target_chn: Option<MidiChannel>) -> (r:
        NoteEvent)
        requires
            in_event.spec_note_in_range(),
        ensures
            r == spec_channelize_event(old(self).channel_tracker, in_event, target_chn).0,
            final(self).channel_tracker == spec_channelize_event(
                old(self).channel_tracker,
                in_event,
                target_chn,
            ).1,
            final(self).params == old(self).params,
    {
        match in_event {
            NoteEvent::NoteOff { timing: _, voice_id: _, channel, note } => {
                // A note end always follows where the matching note start
                // was sent, regardless of the current target.
                match MidiChannel::try_from_0_based(channel as usize) {
                    Ok(in_channel) => {
                        let out_channel = self.channel_tracker.get(note, in_channel);
                        in_event.with_channel(out_channel)
                    },
                    Err(_) => in_event,
                }
            },
            NoteEvent::NoteOn { timing: _, voice_id: _, channel, note } => {
                // A note start goes to the target (or stays put), and the
                // decision is recorded so the matching note end can be sent
                // there too.
                match MidiChannel::try_from_0_based(channel as usize) {
                    Ok(in_channel) => {
                        let out_channel = match target_chn {
                            Some(c) => c,
                            None => in_channel,
                        };
                        self.channel_tracker.set(note, in_channel, out_channel);
                        in_event.with_channel(out_channel)
                    },
                    Err(_) => in_event,
                }
            },
            _ => {
                // Move the event to the target channel, if any was set.
                match target_chn {
                    Some(channel) => in_event.with_channel(channel),
                    None => in_event,
                }
            },
        }
    }

    /// Applies the channelize policy to an ordered block of events.
    ///
    /// `targets[i]` is the target parameter value current when event `i` is
    /// processed, so a value change in mid-block (sample-accurate
    /// automation) takes effect from exactly that event on. Exactly one
    /// event comes out per event in, in input order.
    pub fn process_block(
        &mut self,
        in_events: &Vec<NoteEvent>,
        targets: &Vec<Option<MidiChannel>>,
    ) -> (out: Vec<NoteEvent>)
        requires
            in_events@.len() == targets@.len(),
            forall|j: int|
                0 <= j < in_events@.len() ==> (#[trigger] in_events@[j]).spec_note_in_range(),
        ensures
            out@ == spec_channelize_block(old(self).channel_tracker, in_events@, targets@).0,
            final(self).channel_tracker == spec_channelize_block(
                old(self).channel_tracker,
                in_events@,
                targets@,
            ).1,
            final(self).params == old(self).params,
    {
        let mut out: Vec<NoteEvent> = Vec::new();
        let mut i: usize = 0;
        while i < in_events.len()
            invariant
                i <= in_events@.len(),
                in_events@.len() == targets@.len(),
                forall|j: int|
                0 <= j < in_events@.len() ==> (#[trigger] in_events@[j]).spec_note_in_range(),
                out@ == spec_channelize_block(
                    old(self).channel_tracker,
                    in_events@.subrange(0, i as int),
                    targets@.subrange(0, i as int),
                ).0,
                self.channel_tracker == spec_channelize_block(
                    old(self).channel_tracker,
                    in_events@.subrange(0, i as int),
                    targets@.subrange(0, i as int),
                ).1,
                self.params == old(self).params,
            decreases in_events@.len() - i,
        {
            let out_event = self.transform_event(in_events[i], targets[i]);
            out.push(out_event);
            proof {
                assert(in_events@.subrange(0, i + 1).drop_last() =~= in_events@.subrange(
                    0,
                    i as int,
                ));
                assert(targets@.subrange(0, i + 1).drop_last() =~= targets@.subrange(0, i as int));
                assert(in_events@.subrange(0, i + 1).last() == in_events@[i as int]);
                assert(targets@.subrange(0, i + 1).last() == targets@[i as int]);
            }
            i = i + 1;
        }
        proof {
            assert(in_events@.subrange(0, in_events@.len() as int) =~= in_events@);
            assert(targets@.subrange(0, targets@.len() as int) =~= targets@);
        }
        out
    }
}

/// The guarantee that rules out hanging notes: after a note start has been
/// routed under any target value, the matching note end — same input
/// channel, same note — is routed to the same output channel, whatever the
/// target value has become in between.
pub proof fn lemma_note_off_follows_note_on(
    tracker: ChannelTracker,
    on_event: NoteEvent,
    off_event: NoteEvent,
    target_at_on: Option<MidiChannel>,
    target_at_off: Option<MidiChannel>,
)
    requires
        on_event is NoteOn,
        off_event is NoteOff,
        on_event.wf(),
        off_event.wf(),
        off_event.spec_channel_field() == on_event.spec_channel_field(),
        off_event.spec_note_field() == on_event.spec_note_field(),
    ensures
        ({
            let (out_on, mid) = spec_channelize_event(tracker, on_event, target_at_on);
            let (out_off, _) = spec_channelize_event(mid, off_event, target_at_off);
            out_off.spec_channel_field() == out_on.spec_channel_field()
        }),
{
    let channel = on_event.spec_channel_field()->Some_0;
    let note = on_event.spec_note_field()->Some_0;
    let in_channel = channel_of_0_based(channel);
    let out_channel = match target_at_on {
        Option::Some(c) => c,
        Option::None => in_channel,
    };
    crate::channel_tracker::lemma_tracker_set_get(tracker, in_channel, note, out_channel);
}

/// Whether `e` is a note start for exactly the key `(in_channel, note)` —
/// the only kind of event that can change that key's tracker entry.
pub open spec fn starts_note(e: NoteEvent, in_channel: MidiChannel, note: u8) -> bool {
    match e {
        NoteEvent::NoteOn { channel, note: n, .. } => channel < 16 && channel_of_0_based(channel)
            == in_channel && n == note,
        _ => false,
    }
}

/// The tracker state just before event `m` of a block is processed.
pub open spec fn block_tracker_before(
    tracker: ChannelTracker,
    events: Seq<NoteEvent>,
    targets: Seq<Option<MidiChannel>>,
    m: int,
) -> ChannelTracker {
    spec_channelize_block(tracker, events.subrange(0, m), targets.subrange(0, m)).1
}

/// The event a block emits at position `m`: event `m` transformed under the
/// tracker state of that moment.
pub open spec fn block_output_at(
    tracker: ChannelTracker,
    events: Seq<NoteEvent>,
    targets: Seq<Option<MidiChannel>>,
    m: int,
) -> NoteEvent {
    spec_channelize_event(block_tracker_before(tracker, events, targets, m), events[m], targets[m]).0
}

/// A block emits exactly one event per event taken in.
proof fn lemma_block_output_len(
    tracker: ChannelTracker,
    events: Seq<NoteEvent>,
    targets: Seq<Option<MidiChannel>>,
)
    ensures
        spec_channelize_block(tracker, events, targets).0.len() == events.len(),
    decreases events.len(),
{
    if events.len() > 0 {
        lemma_block_output_len(tracker, events.drop_last(), targets.drop_last());
    }
}

/// Processing one more event steps the tracker by exactly that event.
proof fn lemma_block_step(
    tracker: ChannelTracker,
    events: Seq<NoteEvent>,
    targets: Seq<Option<MidiChannel>>,
    m: int,
)
    requires
        events.len() == targets.len(),
        0 <= m < events.len(),
    ensures
        block_tracker_before(tracker, events, targets, m + 1) == spec_channelize_event(
            block_tracker_before(tracker, events, targets, m),
            events[m],
            targets[m],
        ).1,
{
    assert(events.subrange(0, m + 1).drop_last() =~= events.subrange(0, m));
    assert(targets.subrange(0, m + 1).drop_last() =~= targets.subrange(0, m));
    assert(events.subrange(0, m + 1).last() == events[m]);
    assert(targets.subrange(0, m + 1).last() == targets[m]);
}

/// What a block emits at position `m` is [`block_output_at`]: the block's
/// output sequence indexes into exactly the per-event transformations.
pub proof fn lemma_block_output_at(
    tracker: ChannelTracker,
    events: Seq<NoteEvent>,
    targets: Seq<Option<MidiChannel>>,
    m: int,
)
    requires
        events.len() == targets.len(),
        0 <= m < events.len(),
    ensures
        spec_channelize_block(tracker, events, targets).0.len() == events.len(),
        spec_channelize_block(tracker, events, targets).0[m] == block_output_at(
            tracker,
            events,
            targets,
            m,
        ),
    decreases events.len(),
{
    lemma_block_output_len(tracker, events, targets);
    let init_events = events.drop_last();
    let init_targets = targets.drop_last();
    lemma_block_output_len(tracker, init_events, init_targets);
    if m == events.len() - 1 {
        assert(events.subrange(0, m) =~= init_events.subrange(0, m));
        assert(targets.subrange(0, m) =~= init_targets.subrange(0, m));
        assert(events.subrange(0, m) =~= init_events);
        assert(targets.subrange(0, m) =~= init_targets);
    } else {
        lemma_block_output_at(tracker, init_events, init_targets, m);
        assert(events.subrange(0, m) =~= init_events.subrange(0, m));
        assert(targets.subrange(0, m) =~= init_targets.subrange(0, m));
        assert(init_events[m] == events[m]);
        assert(init_targets[m] == targets[m]);
    }
}

/// The tracker component of a block composes: processing events `0..b` is
/// processing `0..a` and then `a..b` from the state reached.
proof fn lemma_tracker_segment(
    tracker: ChannelTracker,
    events: Seq<NoteEvent>,
    targets: Seq<Option<MidiChannel>>,
    a: int,
    b: int,
)
    requires
        events.len() == targets.len(),
        0 <= a <= b <= events.len(),
    ensures
        block_tracker_before(tracker, events, targets, b) == spec_channelize_block(
            block_tracker_before(tracker, events, targets, a),
            events.subrange(a, b),
            targets.subrange(a, b),
        ).1,
    decreases b - a,
{
    if a == b {
        assert(events.subrange(a, b) =~= Seq::<NoteEvent>::empty());
        assert(targets.subrange(a, b) =~= Seq::<Option<MidiChannel>>::empty());
    } else {
        lemma_tracker_segment(tracker, events, targets, a, b - 1);
        lemma_block_step(tracker, events, targets, b - 1);
        assert(events.subrange(a, b).drop_last() =~= events.subrange(a, b - 1));
        assert(targets.subrange(a, b).drop_last() =~= targets.subrange(a, b - 1));
        assert(events.subrange(a, b).last() == events[b - 1]);
        assert(targets.subrange(a, b).last() == targets[b - 1]);
    }
}

/// A block that contains no note start for a key leaves that key's tracker
/// entry alone.
proof fn lemma_block_preserves_untouched_key(
    tracker: ChannelTracker,
    events: Seq<NoteEvent>,
    targets: Seq<Option<MidiChannel>>,
    in_channel: MidiChannel,
    note: u8,
)
    requires
        events.len() == targets.len(),
        note < 128,
        forall|k: int| 0 <= k < events.len() ==> (#[trigger] events[k]).spec_note_in_range(),
        forall|k: int| 0 <= k < events.len() ==> !starts_note(#[trigger] events[k], in_channel, note),
    ensures
        spec_channelize_block(tracker, events, targets).1.spec_get(in_channel, note)
            == tracker.spec_get(in_channel, note),
    decreases events.len(),
{
    if events.len() > 0 {
        lemma_block_preserves_untouched_key(
            tracker,
            events.drop_last(),
            targets.drop_last(),
            in_channel,
            note,
        );
        let mid = spec_channelize_block(tracker, events.drop_last(), targets.drop_last()).1;
        let last = events.last();
        assert(last.spec_note_in_range());
        assert(!starts_note(last, in_channel, note));
        match last {
            NoteEvent::NoteOn { channel, note: n, .. } => {
                if channel < 16 {
                    let written_channel = channel_of_0_based(channel);
                    let out_channel = match targets.last() {
                        Option::Some(c) => c,
                        Option::None => written_channel,
                    };
                    crate::channel_tracker::lemma_tracker_set_get(
                        mid,
                        written_channel,
                        n,
                        out_channel,
                    );
                }
            },
            _ => {},
        }
    }
}

/// No hanging notes, stated for a whole processing block: when a note start
/// at position `i` and the matching note end at position `j` are processed
/// in one block, with no other note start for the same key in between, the
/// emitted note end is routed to the same output channel as the emitted note
/// start — whatever the target parameter did in between, and whatever other
/// events were interleaved.
pub proof fn lemma_block_no_hanging_note(
    tracker: ChannelTracker,
    events: Seq<NoteEvent>,
    targets: Seq<Option<MidiChannel>>,
    i: int,
    j: int,
)
    requires
        events.len() == targets.len(),
        forall|k: int| 0 <= k < events.len() ==> (#[trigger] events[k]).spec_note_in_range(),
        0 <= i < j < events.len(),
        events[i] is NoteOn,
        events[j] is NoteOff,
        events[i].wf(),
        events[j].wf(),
        events[j].spec_channel_field() == events[i].spec_channel_field(),
        events[j].spec_note_field() == events[i].spec_note_field(),
        forall|k: int|
            i < k < j ==> !starts_note(
                #[trigger] events[k],
                channel_of_0_based(events[i].spec_channel_field()->Some_0),
                events[i].spec_note_field()->Some_0,
            ),
    ensures
        spec_channelize_block(tracker, events, targets).0[j].spec_channel_field()
            == spec_channelize_block(tracker, events, targets).0[i].spec_channel_field(),
{
    let in_channel = channel_of_0_based(events[i].spec_channel_field()->Some_0);
    let note = events[i].spec_note_field()->Some_0;
    let out_channel = match targets[i] {
        Option::Some(c) => c,
        Option::None => in_channel,
    };
    lemma_block_output_at(tracker, events, targets, i);
    lemma_block_output_at(tracker, events, targets, j);

    // After event i, the key's entry holds the note start's output channel.
    let before_i = block_tracker_before(tracker, events, targets, i);
    lemma_block_step(tracker, events, targets, i);
    crate::channel_tracker::lemma_tracker_set_get(before_i, in_channel, note, out_channel);

    // The events between i and j never start a note on that key, so the
    // entry survives until event j.
    let after_i = block_tracker_before(tracker, events, targets, i + 1);
    lemma_tracker_segment(tracker, events, targets, i + 1, j);
    let middle_events = events.subrange(i + 1, j);
    let middle_targets = targets.subrange(i + 1, j);
    assert forall|k: int|
        0 <= k < middle_events.len() implies (#[trigger] middle_events[k]).spec_note_in_range()
            && !starts_note(middle_events[k], in_channel, note) by {
        assert(middle_events[k] == events[i + 1 + k]);
    };
    lemma_block_preserves_untouched_key(after_i, middle_events, middle_targets, in_channel, note);
    assert(block_tracker_before(tracker, events, targets, j).spec_get(in_channel, note)
        == out_channel);
}

} // verus!
