//! A validated step of a pattern.

use crate::domain::{Note, StepNumber, Time, Transpose};
use vstd::prelude::*;

verus! {

/// A validated step of a pattern.
#[derive(Debug)]
pub struct NewTB303Step {
    pub number: StepNumber,
    pub note: Option<Note>,
    pub transpose: Option<Transpose>,
    pub time: Time,
    pub accent: Option<bool>,
    pub slide: Option<bool>,
}

/// What a step holds, as plain values.
pub struct StepView {
    pub number: int,
    pub note: Option<Note>,
    pub transpose: Option<Transpose>,
    pub time: Time,
    pub accent: Option<bool>,
    pub slide: Option<bool>,
}

impl StepView {
    /// A rest carries no pitch: neither a note nor an octave shift.
    pub open spec fn rest_is_silent(self) -> bool {
        self.time == Time::Rest ==> self.note is None && self.transpose is None
    }
}

impl View for NewTB303Step {
    type V = StepView;

    open spec fn view(&self) -> StepView {
        StepView {
            number: self.number@,
            note: self.note,
            transpose: self.transpose,
            time: self.time,
            accent: self.accent,
            slide: self.slide,
        }
    }
}

} // verus!
