//! Events as the host hands them to the voice.

use vstd::prelude::*;

verus! {

/// Status byte of a MIDI note-off message.
pub const NOTE_OFF: u8 = 128;

/// Status byte of a MIDI note-on message.
pub const NOTE_ON: u8 = 144;

/// One event of a block. Only MIDI events carry anything the voice reads:
/// the three raw bytes `[status, data1, data2]`.
#[derive(Clone, Copy, Debug)]
pub enum Event {
    Midi { data: [u8; 3] },
    Other,
}

impl Event {
    /// Whether this event is a MIDI note-on.
    pub open spec fn is_note_on(self) -> bool {
        self matches Event::Midi { data } && data[0] == NOTE_ON
    }
}

} // verus!
