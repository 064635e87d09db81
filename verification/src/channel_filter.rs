//! The filter policy: drop events that are not on the target channel.

use crate::midi_channel::MidiChannel;
use crate::note_event::NoteEvent;
use crate::params::OptionalMidiChannelParam;
use vstd::prelude::*;

verus! {

/// What the filter policy does to one event.
///
/// With no target selected, every event passes through unchanged. With a
/// target channel, a channel-bearing event passes through exactly when its
/// channel equals the target; channel-less events, and events whose channel
/// field cannot be validated, always pass through — a validation failure
/// alone never drops an event.
pub open spec fn spec_filter_event(
    in_event: NoteEvent,
    filter_chn: Option<MidiChannel>,
) -> Option<NoteEvent> {
    match filter_chn {
        Option::None => Option::Some(in_event),
        Option::Some(filter_channel) => match in_event.spec_get_channel() {
            Result::Err(_) => Option::Some(in_event),
            Result::Ok(in_channel) => if in_channel == filter_channel {
                Option::Some(in_event)
            } else {
                Option::None
            },
        },
    }
}

/// What the filter policy does to a whole processing block, event by event,
/// preserving input order. `targets[i]` is the parameter value current when
/// event `i` is processed.
pub open spec fn spec_filter_block(
    events: Seq<NoteEvent>,
    targets: Seq<Option<MidiChannel>>,
) -> Seq<NoteEvent>
    decreases events.len(),
{
    if events.len() == 0 {
        Seq::empty()
    } else {
        let init = spec_filter_block(events.drop_last(), targets.drop_last());
        match spec_filter_event(events.last(), targets.last()) {
            Option::Some(e) => init.push(e),
            Option::None => init,
        }
    }
}

/// The parameters of the channel filter: the single target-channel control.
pub struct RisChannelFilterParams {
    /// The channel to keep; "no channel" means every event passes.
    pub target_channel: OptionalMidiChannelParam,
}

impl Default for RisChannelFilterParams {
    /// The filter starts with no target selected, labelled "All": every
    /// channel passes.
    fn default() -> (r: Self)
        ensures
            r.target_channel.plain_value == 0,
            r.target_channel.default == Option::<MidiChannel>::None,
            r.target_channel.no_channel_description@ == "All"@,
            r.target_channel.name@ == "Target Channel"@,
    {
        RisChannelFilterParams {
            target_channel: OptionalMidiChannelParam::new(
                "Target Channel",
                None,
            ).with_none_selected_description("All"),
        }
    }
}

/// An event processor that keeps only events on a target channel.
pub struct RisChannelFilter {
    /// The processor's parameters, owned by the host between events.
    pub params: RisChannelFilterParams,
}

impl Default for RisChannelFilter {
    /// A fresh filter with default parameters.
    fn default() -> (r: Self)
        ensures
            r.params.target_channel.plain_value == 0,
            r.params.target_channel.default == Option::<MidiChannel>::None,
            r.params.target_channel.no_channel_description@ == "All"@,
    {
        RisChannelFilter { params: RisChannelFilterParams::default() }
    }
}

impl RisChannelFilter {
    /// Applies the filter policy to one event under the current parameter
    /// value; `None` means the event is dropped.
    pub fn transform_event(&self, in_event: NoteEvent, filter_chn: Option<MidiChannel>) -> (r:
        Option<NoteEvent>)
        ensures
            r == spec_filter_event(in_event, filter_chn),
    {
        match filter_chn {
            None => Some(in_event),
            Some(filter_channel) => match in_event.get_channel() {
                Err(_) => Some(in_event),
                Ok(in_channel) => {
                    if in_channel == filter_channel {
                        Some(in_event)
                    } else {
                        None
                    }
                },
            },
        }
    }

    /// Applies the filter policy to an ordered block of events.
    ///
    /// `targets[i]` is the target parameter value current when event `i` is
    /// processed, so a value change in mid-block (sample-accurate
    /// automation) takes effect from exactly that event on. Surviving events
    /// come out in input order.
    pub fn process_block(
        &self,
        in_events: &Vec<NoteEvent>,
        targets: &Vec<Option<MidiChannel>>,
    ) -> (out: Vec<NoteEvent>)
        requires
            in_events@.len() == targets@.len(),
        ensures
            out@ == spec_filter_block(in_events@, targets@),
    {
        let mut out: Vec<NoteEvent> = Vec::new();
        let mut i: usize = 0;
        while i < in_events.len()
            invariant
                i <= in_events@.len(),
                in_events@.len() == targets@.len(),
                out@ == spec_filter_block(
                    in_events@.subrange(0, i as int),
                    targets@.subrange(0, i as int),
                ),
            decreases in_events@.len() - i,
        {
            match self.transform_event(in_events[i], targets[i]) {
                Some(out_event) => out.push(out_event),
                None => {},
            }
            proof {
                assert(in_events@.subrange(0, i + 1).drop_last() =~= in_events@.subrange(
                    0,
                    i as int,
                ));
                assert(targets@.subrange(0, i + 1).drop_last() =~= targets@.subrange(0, i as int));
                assert(in_events@.subrange(0, i + 1).last() == in_events@[i as int]);
                assert(targets@.subrange(0, i + 1).last() == targets@[i as int]);
            }
            i = i + 1;
        }
        proof {
            assert(in_events@.subrange(0, in_events@.len() as int) =~= in_events@);
            assert(targets@.subrange(0, targets@.len() as int) =~= targets@);
        }
        out
    }
}

/// With no target channel selected, the filter passes every event, on every
/// channel, through unchanged.
pub proof fn lemma_filter_none_passes_all(in_event: NoteEvent)
    ensures
        spec_filter_event(in_event, Option::None) == Option::Some(in_event),
{
}

} // verus!
