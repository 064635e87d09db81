//! The per-note routing memory of the channelize policy.

use crate::midi_channel::{channel_of_0_based, MidiChannel};
use vstd::prelude::*;

verus! {

broadcast use vstd::array::group_array_axioms;

/// Remembers, for every (input channel, note) pair, the output channel the
/// most recent note start for that pair was routed to.
///
/// The table covers the whole key space of 16 channels times 128 notes, so a
/// lookup never fails and neither lookup nor update allocates. Every entry
/// starts out as the key's own input channel, so an untouched tracker routes
/// every note end back to where it came from.
pub struct ChannelTracker {
    cache: [MidiChannel; 2048],
}

impl ChannelTracker {
    /// The flat table index of the entry for `(in_channel, note)`.
    pub open spec fn spec_index(in_channel: MidiChannel, note: u8) -> int {
        in_channel.spec_to_0_based() * 128 + note
    }

    /// The output channel currently recorded for `(in_channel, note)`.
    pub closed spec fn spec_get(self, in_channel: MidiChannel, note: u8) -> MidiChannel {
        self.cache@[Self::spec_index(in_channel, note)]
    }

    /// The tracker with the entry for `(in_channel, note)` replaced by
    /// `out_channel` and all other entries unchanged.
    pub closed spec fn spec_set(
        self,
        in_channel: MidiChannel,
        note: u8,
        out_channel: MidiChannel,
    ) -> ChannelTracker {
        ChannelTracker {
            cache: vstd::array::spec_array_update(
                self.cache,
                Self::spec_index(in_channel, note),
                out_channel,
            ),
        }
    }

    /// Builds the identity tracker: every key's output channel equals its own
    /// input channel.
    pub fn new() -> (r: ChannelTracker)
        ensures
            forall|c: MidiChannel, n: u8| n < 128 ==> #[trigger] r.spec_get(c, n) == c,
    {
        let mut tracker = ChannelTracker { cache: [MidiChannel::Channel1; 2048] };

        let mut channel_idx: usize = 0;
        while channel_idx < 16
            invariant
                channel_idx <= 16,
                forall|c: MidiChannel, n: u8|
                    c.spec_to_0_based() < channel_idx && n < 128
                        ==> #[trigger] tracker.spec_get(c, n) == c,
            decreases 16 - channel_idx,
        {
            let channel = match MidiChannel::try_from_0_based(channel_idx) {
                Ok(c) => c,
                Err(_) => MidiChannel::Channel1,
            };
            proof {
                crate::midi_channel::lemma_index_channel_round_trip(channel_idx as u8);
            }
            let mut note_idx: usize = 0;
            while note_idx < 128
                invariant
                    channel_idx < 16,
                    note_idx <= 128,
                    channel == channel_of_0_based(channel_idx as u8),
                    channel.spec_to_0_based() == channel_idx,
                    forall|c: MidiChannel, n: u8|
                        c.spec_to_0_based() < channel_idx && n < 128
                            ==> #[trigger] tracker.spec_get(c, n) == c,
                    forall|n: u8|
                        n < note_idx ==> #[trigger] tracker.spec_get(channel, n) == channel,
                decreases 128 - note_idx,
            {
                let ghost prev = tracker;
                tracker.cache[channel_idx * 128 + note_idx] = channel;
                proof {
                    assert forall|c: MidiChannel, n: u8|
                        c.spec_to_0_based() < channel_idx && n < 128
                            implies #[trigger] tracker.spec_get(c, n) == c by {
                        assert(prev.spec_get(c, n) == c);
                    };
                    assert forall|n: u8|
                        n < note_idx + 1 implies #[trigger] tracker.spec_get(channel, n)
                            == channel by {
                        if n < note_idx {
                            assert(prev.spec_get(channel, n) == channel);
                        }
                    };
                }
                note_idx = note_idx + 1;
            }
            proof {
                assert forall|c: MidiChannel, n: u8|
                    c.spec_to_0_based() < channel_idx + 1 && n < 128
                        implies #[trigger] tracker.spec_get(c, n) == c by {
                    if c.spec_to_0_based() == channel_idx {
                        crate::midi_channel::lemma_channel_index_injective(c, channel);
                        assert(tracker.spec_get(channel, n) == channel);
                    }
                };
            }
            channel_idx = channel_idx + 1;
        }

        tracker
    }

    /// Overwrites the single entry for `(in_channel, note)`.
    pub fn set(&mut self, note: u8, in_channel: MidiChannel, out_channel: MidiChannel)
        requires
            note < 128,
        ensures
            *final(self) == old(self).spec_set(in_channel, note, out_channel),
            final(self).spec_get(in_channel, note) == out_channel,
            forall|c: MidiChannel, n: u8|
                n < 128 && !(c == in_channel && n == note)
                    ==> #[trigger] final(self).spec_get(c, n) == old(self).spec_get(c, n),
    {
        let idx = (in_channel.to_0_based() as usize) * 128 + (note as usize);
        self.cache[idx] = out_channel;
        proof {
            lemma_tracker_index_injective(in_channel, note);
            assert(self.cache =~= vstd::array::spec_array_update(
                old(self).cache,
                ChannelTracker::spec_index(in_channel, note),
                out_channel,
            ));
            assert forall|c: MidiChannel, n: u8|
                n < 128 && !(c == in_channel && n == note)
                    implies #[trigger] self.spec_get(c, n) == old(self).spec_get(c, n) by {};
        }
    }

    /// Reads the entry for `(in_channel, note)`; always succeeds.
    pub fn get(&self, note: u8, in_channel: MidiChannel) -> (r: MidiChannel)
        requires
            note < 128,
        ensures
            r == self.spec_get(in_channel, note),
    {
        let idx = (in_channel.to_0_based() as usize) * 128 + (note as usize);
        self.cache[idx]
    }
}

/// How an updated tracker reads back: the updated key holds the new value,
/// and every other key is unchanged.
pub proof fn lemma_tracker_set_get(
    t: ChannelTracker,
    in_channel: MidiChannel,
    note: u8,
    out_channel: MidiChannel,
)
    requires
        note < 128,
    ensures
        t.spec_set(in_channel, note, out_channel).spec_get(in_channel, note) == out_channel,
        forall|c: MidiChannel, n: u8|
            n < 128 && !(c == in_channel && n == note)
                ==> #[trigger] t.spec_set(in_channel, note, out_channel).spec_get(c, n)
                    == t.spec_get(c, n),
{
    lemma_tracker_index_injective(in_channel, note);
    assert forall|c: MidiChannel, n: u8|
        n < 128 && !(c == in_channel && n == note)
            implies #[trigger] t.spec_set(in_channel, note, out_channel).spec_get(c, n)
                == t.spec_get(c, n) by {};
}

/// Distinct (channel, note) keys occupy distinct slots of the flat table.
proof fn lemma_tracker_index_injective(in_channel: MidiChannel, note: u8)
    requires
        note < 128,
    ensures
        forall|c: MidiChannel, n: u8|
            n < 128 && !(c == in_channel && n == note)
                ==> #[trigger] ChannelTracker::spec_index(c, n) != ChannelTracker::spec_index(
                    in_channel,
                    note,
                ),
{
    assert forall|c: MidiChannel, n: u8|
        n < 128 && !(c == in_channel && n == note)
            implies #[trigger] ChannelTracker::spec_index(c, n) != ChannelTracker::spec_index(
                in_channel,
                note,
            ) by {
        if c.spec_to_0_based() == in_channel.spec_to_0_based() {
            crate::midi_channel::lemma_channel_index_injective(c, in_channel);
        }
    }
}

} // verus!
