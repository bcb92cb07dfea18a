//! What the voice tells a host about itself: its identity and what it can do.

use vstd::prelude::*;
use crate::voice::SawWave;

verus! {

/// The kind of plugin, as hosts sort them.
#[derive(Clone, Copy, Debug, PartialEq, Eq, Structural)]
pub enum Category {
    Unknown,
    Effect,
    Synth,
    Analysis,
    Mastering,
    Spacializer,
    RoomFx,
    SurroundFx,
    Restoration,
    OfflineProcess,
    Shell,
    Generator,
}

/// The static description of a plugin.
#[derive(Debug)]
pub struct Info {
    pub name: String,
    pub vendor: String,
    pub presets: i32,
    pub parameters: i32,
    pub inputs: i32,
    pub outputs: i32,
    pub unique_id: i32,
    pub version: i32,
    pub category: Category,
    pub initial_delay: i32,
    pub preset_chunks: bool,
    pub double_precision: bool,
    pub silent_when_stopped: bool,
}

/// The settings of a description that the voice does not choose itself.
struct InfoDefaults {
    presets: i32,
    version: i32,
    preset_chunks: bool,
    double_precision: bool,
    silent_when_stopped: bool,
}

/// Reads the settings that `vst2::plugin::Info::default()` gives a plugin
/// which names none of its own. Trusted: the contract repeats the values in
/// that function's body, one preset, version 1, no preset chunks, double
/// precision on, not silent when stopped.
#[verifier::external_body]
fn info_defaults() -> (d: InfoDefaults)
    ensures
        d.presets == 1,
        d.version == 1,
        !d.preset_chunks,
        d.double_precision,
        !d.silent_when_stopped,
{
    let d = vst2::plugin::Info::default();
    InfoDefaults {
        presets: d.presets,
        version: d.version,
        preset_chunks: d.preset_chunks,
        double_precision: d.f64_precision,
        silent_when_stopped: d.silent_when_stopped,
    }
}

/// Something a host may ask a plugin whether it can do.
#[derive(Debug)]
pub enum CanDo {
    SendEvents,
    SendMidiEvent,
    ReceiveEvents,
    ReceiveMidiEvent,
    ReceiveTimeInfo,
    Offline,
    MidiProgramNames,
    Bypass,
    ReceiveSysExEvent,
    MidiSingleNoteTuningChange,
    MidiKeyBasedInstrumentControl,
    Other(String),
}

/// The answer to such a question.
#[derive(Clone, Copy, Debug, PartialEq, Eq, Structural)]
pub enum Supported {
    Yes,
    Maybe,
    No,
}

/// The voice's answer: it takes MIDI events, and commits to nothing else.
pub open spec fn support_for(can_do: CanDo) -> Supported {
    if can_do is ReceiveMidiEvent {
        Supported::Yes
    } else {
        Supported::Maybe
    }
}

impl SawWave {
    /// The description of the voice as a plugin: a synth named "SawWave" by
    /// "SpectralFlux" with two inputs, two outputs and one parameter.
    pub fn get_info(&self) -> (info: Info)
        ensures
            info.name@ == "SawWave"@,
            info.vendor@ == "SpectralFlux"@,
            info.unique_id == 6667,
            info.category == Category::Synth,
            info.inputs == 2,
            info.outputs == 2,
            info.parameters == 1,
            info.initial_delay == 0,
            info.presets == 1,
            info.version == 1,
            !info.preset_chunks,
            info.double_precision,
            !info.silent_when_stopped,
    {
        let d = info_defaults();
        Info {
            name: "SawWave".to_owned(),
            vendor: "SpectralFlux".to_owned(),
            unique_id: 6667,
            category: Category::Synth,
            inputs: 2,
            outputs: 2,
            parameters: 1,
            initial_delay: 0,
            presets: d.presets,
            version: d.version,
            preset_chunks: d.preset_chunks,
            double_precision: d.double_precision,
            silent_when_stopped: d.silent_when_stopped,
        }
    }

    /// Whether the voice supports what the host asks about.
    pub fn can_do(&self, can_do: CanDo) -> (answer: Supported)
        ensures
            answer == support_for(can_do),
    {
        match can_do {
            CanDo::ReceiveMidiEvent => Supported::Yes,
            _ => Supported::Maybe,
        }
    }
}

} // verus!
