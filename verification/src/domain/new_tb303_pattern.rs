//! A validated pattern, ready to be stored.

use crate::domain::new_tb303_step::StepView;
use crate::domain::{Author, Description, Knob, Name, NewTB303Step, Tempo, Title, Waveform};
use vstd::prelude::*;

verus! {

/// A validated pattern, ready to be stored.
#[derive(Debug)]
pub struct NewTB303Pattern {
    pub name: Name,
    pub author: Option<Author>,
    pub title: Option<Title>,
    pub description: Option<Description>,
    pub waveform: Option<Waveform>,
    pub triplets: Option<bool>,
    pub tempo: Option<Tempo>,
    pub tuning: Option<Knob>,
    pub cut_off_freq: Option<Knob>,
    pub resonance: Option<Knob>,
    pub env_mod: Option<Knob>,
    pub decay: Option<Knob>,
    pub accent: Option<Knob>,
    pub is_public: Option<bool>,
    pub steps: Vec<NewTB303Step>,
}

/// What a validated pattern holds, as plain values.
pub struct PatternView {
    pub name: Seq<char>,
    pub author: Option<Seq<char>>,
    pub title: Option<Seq<char>>,
    pub description: Option<Seq<char>>,
    pub waveform: Option<Waveform>,
    pub triplets: Option<bool>,
    pub tempo: Option<int>,
    pub tuning: Option<int>,
    pub cut_off_freq: Option<int>,
    pub resonance: Option<int>,
    pub env_mod: Option<int>,
    pub decay: Option<int>,
    pub accent: Option<int>,
    pub is_public: Option<bool>,
    pub steps: Seq<StepView>,
}

/// The steps of a pattern, as plain values and in the order they are held.
pub open spec fn step_views(steps: Seq<NewTB303Step>) -> Seq<StepView> {
    Seq::new(steps.len(), |i: int| steps[i]@)
}

/// Whether steps form a sequence that a pattern may hold: between one and sixteen
/// of them, rests without pitch, and the numbers `1..=N` each used once.
pub open spec fn well_sequenced(steps: Seq<StepView>) -> bool {
    &&& 1 <= steps.len() <= 16
    &&& forall|i: int| 0 <= i < steps.len() ==> (#[trigger] steps[i]).rest_is_silent()
    &&& forall|i: int, j: int|
        0 <= i < j < steps.len() ==> (#[trigger] steps[i]).number != (#[trigger] steps[j]).number
    &&& forall|i: int| 0 <= i < steps.len() ==> 1 <= (#[trigger] steps[i]).number <= steps.len()
}

/// The value of an optional knob, if it is set.
pub open spec fn knob_of(field: Option<Knob>) -> Option<int> {
    match field {
        Some(knob) => Some(knob@),
        None => None,
    }
}

impl View for NewTB303Pattern {
    type V = PatternView;

    open spec fn view(&self) -> PatternView {
        PatternView {
            name: self.name@,
            author: match self.author {
                Some(author) => Some(author@),
                None => None,
            },
            title: match self.title {
                Some(title) => Some(title@),
                None => None,
            },
            description: match self.description {
                Some(description) => Some(description@),
                None => None,
            },
            waveform: self.waveform,
            triplets: self.triplets,
            tempo: match self.tempo {
                Some(tempo) => Some(tempo@),
                None => None,
            },
            tuning: knob_of(self.tuning),
            cut_off_freq: knob_of(self.cut_off_freq),
            resonance: knob_of(self.resonance),
            env_mod: knob_of(self.env_mod),
            decay: knob_of(self.decay),
            accent: knob_of(self.accent),
            is_public: self.is_public,
            steps: step_views(self.steps@),
        }
    }
}

impl PatternView {
    /// Whether the steps of the pattern are well sequenced.
    pub open spec fn well_formed(self) -> bool {
        well_sequenced(self.steps)
    }
}

} // verus!
