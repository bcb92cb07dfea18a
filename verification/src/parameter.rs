//! The table of host-visible parameters. The voice has one, at index 0.

use vstd::prelude::*;
use crate::voice::SawWave;

verus! {

/// A parameter of the voice.
#[derive(Clone, Copy, Debug, PartialEq, Eq, Structural)]
pub enum Parameter {
    /// The output gain.
    Level,
}

/// The parameter that a host index addresses, if any.
pub open spec fn parameter_at(index: i32) -> Option<Parameter> {
    if index == 0 {
        Some(Parameter::Level)
    } else {
        None
    }
}

/// The display name of the parameter at `index`, empty for an index that
/// addresses nothing.
pub open spec fn parameter_name(index: i32) -> Seq<char> {
    match parameter_at(index) {
        Some(Parameter::Level) => "Level"@,
        None => Seq::empty(),
    }
}

/// The unit label of the parameter at `index`, empty for an index that
/// addresses nothing.
pub open spec fn parameter_label(index: i32) -> Seq<char> {
    match parameter_at(index) {
        Some(Parameter::Level) => "%"@,
        None => Seq::empty(),
    }
}

impl Parameter {
    /// Looks up the parameter that a host index addresses.
    pub fn at(index: i32) -> (parameter: Option<Parameter>)
        ensures
            parameter == parameter_at(index),
    {
        if index == 0 {
            Some(Parameter::Level)
        } else {
            None
        }
    }
}

impl SawWave {
    /// The display name of the parameter at `index`.
    pub fn get_parameter_name(&self, index: i32) -> (name: String)
        ensures
            name@ == parameter_name(index),
    {
        match Parameter::at(index) {
            Some(Parameter::Level) => "Level".to_owned(),
            None => String::new(),
        }
    }

    /// The unit label of the parameter at `index`.
    pub fn get_parameter_label(&self, index: i32) -> (label: String)
        ensures
            label@ == parameter_label(index),
    {
        match Parameter::at(index) {
            Some(Parameter::Level) => "%".to_owned(),
            None => String::new(),
        }
    }
}

} // verus!
