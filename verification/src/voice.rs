//! The note state of the voice and the transitions that events cause.

use vstd::prelude::*;
use crate::event::{Event, NOTE_OFF, NOTE_ON};

verus! {

/// The state after a note-off for `note`: silent if `note` is the sounding
/// note, unchanged otherwise.
pub open spec fn after_note_off(state: Option<u8>, note: u8) -> Option<u8> {
    if state == Some(note) {
        None
    } else {
        state
    }
}

/// The state after a MIDI message with the given status byte and first data
/// byte. Every status but note-on and note-off leaves the state alone.
pub open spec fn after_midi(state: Option<u8>, status: u8, note: u8) -> Option<u8> {
    if status == NOTE_ON {
        Some(note)
    } else if status == NOTE_OFF {
        after_note_off(state, note)
    } else {
        state
    }
}

/// The state after one event.
pub open spec fn after_event(state: Option<u8>, event: Event) -> Option<u8> {
    match event {
        Event::Midi { data } => after_midi(state, data[0], data[1]),
        Event::Other => state,
    }
}

/// The state after a batch of events, applied in the order of arrival.
pub open spec fn after_events(state: Option<u8>, events: Seq<Event>) -> Option<u8>
    decreases events.len(),
{
    if events.len() == 0 {
        state
    } else {
        after_event(after_events(state, events.drop_last()), events.last())
    }
}

/// Whether a batch of events holds a note-on.
pub open spec fn holds_note_on(events: Seq<Event>) -> bool {
    exists|i: int| 0 <= i < events.len() && (#[trigger] events[i]).is_note_on()
}

/// A monophonic voice. Its view is the note that sounds, `None` when silent.
#[derive(Debug)]
pub struct SawWave {
    note: Option<u8>,
}

impl View for SawWave {
    type V = Option<u8>;

    closed spec fn view(&self) -> Option<u8> {
        self.note
    }
}

impl Default for SawWave {
    /// A silent voice.
    fn default() -> (voice: SawWave)
        ensures
            voice@ is None,
    {
        SawWave { note: None }
    }
}

impl SawWave {
    /// The note that sounds, if any.
    pub fn note(&self) -> (note: Option<u8>)
        ensures
            note == self@,
    {
        self.note
    }

    /// Starts `note`, replacing whatever sounded before. The time since the
    /// last note-on starts over with this call.
    pub fn note_on(&mut self, note: u8)
        ensures
            final(self)@ == Some(note),
    {
        self.note = Some(note);
    }

    /// Releases `note`: the voice falls silent if `note` is the one that
    /// sounds, and is left alone otherwise.
    pub fn note_off(&mut self, note: u8)
        ensures
            final(self)@ == after_note_off(old(self)@, note),
    {
        if self.note == Some(note) {
            self.note = None;
        }
    }

    /// Applies one raw MIDI message `[status, data1, data2]`. Returns whether
    /// a note started, in which case the time since the last note-on starts
    /// over.
    pub fn process_midi_event(&mut self, data: [u8; 3]) -> (started: bool)
        ensures
            final(self)@ == after_midi(old(self)@, data[0], data[1]),
            started == (data[0] == NOTE_ON),
    {
        let status: u8 = data[0];
        if status == NOTE_OFF {
            self.note_off(data[1]);
            false
        } else if status == NOTE_ON {
            self.note_on(data[1]);
            true
        } else {
            false
        }
    }

    /// Applies the events of a block in the order of arrival. Returns whether
    /// any of them started a note, in which case the time since the last
    /// note-on starts over.
    pub fn process_events(&mut self, events: Vec<Event>) -> (started: bool)
        ensures
            final(self)@ == after_events(old(self)@, events@),
            started == holds_note_on(events@),
    {
        let mut started: bool = false;
        let mut i: usize = 0;
        while i < events.len()
            invariant
                i <= events.len(),
                self@ == after_events(old(self)@, events@.take(i as int)),
                started == holds_note_on(events@.take(i as int)),
            decreases events.len() - i,
        {
            proof {
                let before = events@.take(i as int);
                let upto = events@.take(i + 1);
                assert(upto.drop_last() == before);
                if holds_note_on(before) {
                    let k = choose|k: int| 0 <= k < before.len() && (#[trigger] before[k]).is_note_on();
                    assert(upto[k].is_note_on());
                }
                if events@[i as int].is_note_on() {
                    assert(upto[i as int].is_note_on());
                }
            }
            match events[i] {
                Event::Midi { data } => {
                    if self.process_midi_event(data) {
                        started = true;
                    }
                },
                Event::Other => {},
            }
            i += 1;
        }
        assert(events@.take(events.len() as int) == events@);
        started
    }
}

/// Releasing the note that was just started silences the voice; releasing
/// any other note leaves the started one sounding.
pub proof fn law_note_off_after_note_on(on: u8, off: u8)
    ensures
        after_note_off(Some(on), off) == (if off == on {
            None
        } else {
            Some(on)
        }),
{
}

/// The same of a batch: a MIDI note-off that follows a MIDI note-on silences
/// the voice if it names the same note, and otherwise leaves the note of the
/// note-on sounding, whatever sounded before the two.
pub proof fn law_midi_note_off_after_note_on(state: Option<u8>, on: [u8; 3], off: [u8; 3])
    requires
        on[0] == NOTE_ON,
        off[0] == NOTE_OFF,
    ensures
        after_events(state, seq![Event::Midi { data: on }, Event::Midi { data: off }]) == (if off[1]
            == on[1] {
            None
        } else {
            Some(on[1])
        }),
{
    let both = seq![Event::Midi { data: on }, Event::Midi { data: off }];
    let head = seq![Event::Midi { data: on }];
    assert(both.drop_last() == head);
    assert(after_events(state, head) == Some(on[1]));
}

/// Of two note-ons in a row the second wins: its note sounds, whatever
/// sounded before, and it starts a note like any note-on.
pub proof fn law_last_note_on_wins(state: Option<u8>, first: [u8; 3], second: [u8; 3])
    requires
        first[0] == NOTE_ON,
        second[0] == NOTE_ON,
    ensures
        after_events(state, seq![Event::Midi { data: first }, Event::Midi { data: second }])
            == Some(second[1]),
        (Event::Midi { data: second }).is_note_on(),
{
}

/// An event that is no MIDI note-on or note-off changes nothing.
pub proof fn law_other_events_are_ignored(state: Option<u8>, event: Event)
    requires
        event matches Event::Midi { data } ==> data[0] != NOTE_ON && data[0] != NOTE_OFF,
    ensures
        after_event(state, event) == state,
        !event.is_note_on(),
{
}

/// Two batches applied one after the other act as their concatenation does:
/// where a block of events is cut in two makes no difference.
pub proof fn law_batches_compose(state: Option<u8>, first: Seq<Event>, second: Seq<Event>)
    ensures
        after_events(state, first + second) == after_events(after_events(state, first), second),
        holds_note_on(first + second) == (holds_note_on(first) || holds_note_on(second)),
    decreases second.len(),
{
    let all = first + second;
    if second.len() == 0 {
        assert(all == first);
    } else {
        assert(all.drop_last() == first + second.drop_last());
        assert(all.last() == second.last());
        law_batches_compose(state, first, second.drop_last());
    }
    if holds_note_on(first) {
        let k = choose|k: int| 0 <= k < first.len() && (#[trigger] first[k]).is_note_on();
        assert(all[k].is_note_on());
    }
    if holds_note_on(second) {
        let k = choose|k: int| 0 <= k < second.len() && (#[trigger] second[k]).is_note_on();
        assert(all[first.len() + k].is_note_on());
    }
    if holds_note_on(all) {
        let k = choose|k: int| 0 <= k < all.len() && (#[trigger] all[k]).is_note_on();
        if k < first.len() {
            assert(first[k].is_note_on());
        } else {
            assert(second[k - first.len()].is_note_on());
        }
    }
}

} // verus!
