//! Control logic of a monophonic sawtooth synthesizer voice.
//!
//! The voice follows one note at a time: the latest note-on wins, and a
//! note-off silences the voice only when it names the sounding note.

pub mod event;
pub mod parameter;
pub mod plugin;
pub mod voice;
