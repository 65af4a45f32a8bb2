//! Patterns as they are submitted and as they are read back.

use crate::domain::{Note, Time, Transpose, Waveform};
use crate::store::rows::Timestamp;
use vstd::prelude::*;

verus! {

/// The text of an optional field, if the field is there.
pub open spec fn text_of(field: Option<String>) -> Option<Seq<char>> {
    match field {
        Some(text) => Some(text@),
        None => None,
    }
}

/// The number in an optional field, if the field is there.
pub open spec fn number_of(field: Option<i32>) -> Option<int> {
    match field {
        Some(number) => Some(number as int),
        None => None,
    }
}

/// A step as submitted: its number has not been checked yet.
#[derive(Debug, Clone, Copy, PartialEq, Eq)]
pub struct CreateTB303Step {
    pub number: i32,
    pub note: Option<Note>,
    pub transpose: Option<Transpose>,
    pub time: Time,
    pub accent: Option<bool>,
    pub slide: Option<bool>,
}

/// A pattern as submitted: no field has been checked yet.
#[derive(Debug, PartialEq, Eq)]
pub struct CreateTB303Pattern {
    pub name: String,
    pub author: Option<String>,
    pub title: Option<String>,
    pub description: Option<String>,
    pub tempo: Option<i32>,
    pub waveform: Option<Waveform>,
    pub triplets: Option<bool>,
    pub tuning: Option<i32>,
    pub cut_off_freq: Option<i32>,
    pub resonance: Option<i32>,
    pub env_mod: Option<i32>,
    pub decay: Option<i32>,
    pub accent: Option<i32>,
    pub is_public: Option<bool>,
    pub steps: Vec<CreateTB303Step>,
}

/// What a submitted pattern holds, as plain values.
pub struct Submission {
    pub name: Seq<char>,
    pub author: Option<Seq<char>>,
    pub title: Option<Seq<char>>,
    pub description: Option<Seq<char>>,
    pub tempo: Option<int>,
    pub waveform: Option<Waveform>,
    pub triplets: Option<bool>,
    pub tuning: Option<int>,
    pub cut_off_freq: Option<int>,
    pub resonance: Option<int>,
    pub env_mod: Option<int>,
    pub decay: Option<int>,
    pub accent: Option<int>,
    pub is_public: Option<bool>,
    pub steps: Seq<CreateTB303Step>,
}

impl View for CreateTB303Pattern {
    type V = Submission;

    open spec fn view(&self) -> Submission {
        Submission {
            name: self.name@,
            author: text_of(self.author),
            title: text_of(self.title),
            description: text_of(self.description),
            tempo: number_of(self.tempo),
            waveform: self.waveform,
            triplets: self.triplets,
            tuning: number_of(self.tuning),
            cut_off_freq: number_of(self.cut_off_freq),
            resonance: number_of(self.resonance),
            env_mod: number_of(self.env_mod),
            decay: number_of(self.decay),
            accent: number_of(self.accent),
            is_public: self.is_public,
            steps: self.steps@,
        }
    }
}

/// A step as it is read back from the store.
#[derive(Debug, PartialEq, Eq)]
pub struct TB303Step {
    pub id: u128,
    pub number: i32,
    pub note: Option<String>,
    pub transpose: Option<String>,
    pub time: Option<String>,
    pub accent: Option<bool>,
    pub slide: Option<bool>,
}

/// What a step read back holds, as plain values.
pub struct TB303StepView {
    pub id: u128,
    pub number: i32,
    pub note: Option<Seq<char>>,
    pub transpose: Option<Seq<char>>,
    pub time: Option<Seq<char>>,
    pub accent: Option<bool>,
    pub slide: Option<bool>,
}

impl View for TB303Step {
    type V = TB303StepView;

    open spec fn view(&self) -> TB303StepView {
        TB303StepView {
            id: self.id,
            number: self.number,
            note: text_of(self.note),
            transpose: text_of(self.transpose),
            time: text_of(self.time),
            accent: self.accent,
            slide: self.slide,
        }
    }
}

/// Steps read back, as plain values and in the order they are held.
pub open spec fn read_step_views(steps: Seq<TB303Step>) -> Seq<TB303StepView> {
    Seq::new(steps.len(), |i: int| steps[i]@)
}

/// A pattern as it is read back from the store, with its steps.
#[derive(Debug, PartialEq, Eq)]
pub struct TB303Pattern {
    pub id: Option<u128>,
    pub name: String,
    pub author: Option<String>,
    pub title: Option<String>,
    pub description: Option<String>,
    pub tempo: Option<i32>,
    pub waveform: Option<String>,
    pub triplets: Option<bool>,
    pub tuning: Option<i32>,
    pub cut_off_freq: Option<i32>,
    pub resonance: Option<i32>,
    pub env_mod: Option<i32>,
    pub decay: Option<i32>,
    pub accent: Option<i32>,
    pub is_public: Option<bool>,
    pub created_at: Option<Timestamp>,
    pub updated_at: Option<Timestamp>,
    pub steps: Vec<TB303Step>,
}

/// What a pattern read back holds, as plain values.
pub struct TB303PatternView {
    pub id: Option<u128>,
    pub name: Seq<char>,
    pub author: Option<Seq<char>>,
    pub title: Option<Seq<char>>,
    pub description: Option<Seq<char>>,
    pub tempo: Option<i32>,
    pub waveform: Option<Seq<char>>,
    pub triplets: Option<bool>,
    pub tuning: Option<i32>,
    pub cut_off_freq: Option<i32>,
    pub resonance: Option<i32>,
    pub env_mod: Option<i32>,
    pub decay: Option<i32>,
    pub accent: Option<i32>,
    pub is_public: Option<bool>,
    pub created_at: Option<Timestamp>,
    pub updated_at: Option<Timestamp>,
    pub steps: Seq<TB303StepView>,
}

impl View for TB303Pattern {
    type V = TB303PatternView;

    open spec fn view(&self) -> TB303PatternView {
        TB303PatternView {
            id: self.id,
            name: self.name@,
            author: text_of(self.author),
            title: text_of(self.title),
            description: text_of(self.description),
            tempo: self.tempo,
            waveform: text_of(self.waveform),
            triplets: self.triplets,
            tuning: self.tuning,
            cut_off_freq: self.cut_off_freq,
            resonance: self.resonance,
            env_mod: self.env_mod,
            decay: self.decay,
            accent: self.accent,
            is_public: self.is_public,
            created_at: self.created_at,
            updated_at: self.updated_at,
            steps: read_step_views(self.steps@),
        }
    }
}

/// A pattern as a listing shows it: without its steps.
#[derive(Debug, PartialEq, Eq)]
pub struct TB303PatternSummary {
    pub pattern_id: u128,
    pub name: String,
    pub author: Option<String>,
    pub title: Option<String>,
    pub is_public: bool,
    pub created_at: Timestamp,
    pub updated_at: Timestamp,
}

/// What a listed pattern holds, as plain values.
pub struct TB303PatternSummaryView {
    pub pattern_id: u128,
    pub name: Seq<char>,
    pub author: Option<Seq<char>>,
    pub title: Option<Seq<char>>,
    pub is_public: bool,
    pub created_at: Timestamp,
    pub updated_at: Timestamp,
}

impl View for TB303PatternSummary {
    type V = TB303PatternSummaryView;

    open spec fn view(&self) -> TB303PatternSummaryView {
        TB303PatternSummaryView {
            pattern_id: self.pattern_id,
            name: self.name@,
            author: text_of(self.author),
            title: text_of(self.title),
            is_public: self.is_public,
            created_at: self.created_at,
            updated_at: self.updated_at,
        }
    }
}

/// Listed patterns, as plain values and in the order they are held.
pub open spec fn summary_views(list: Seq<TB303PatternSummary>) -> Seq<TB303PatternSummaryView> {
    Seq::new(list.len(), |i: int| list[i]@)
}

} // verus!
