//! The two tables as rows of plain values, and how a validated pattern becomes rows.
//!
//! A pattern is one header row and one row per step. Flags and knobs that the
//! pattern leaves out are stored with their defaults: `false` and `0`.

use crate::domain::new_tb303_pattern::PatternView;
use crate::domain::new_tb303_step::StepView;
use crate::domain::{Knob, NewTB303Pattern, NewTB303Step, Note, Transpose, Waveform};
use crate::models::text_of;
use vstd::prelude::*;
use vstd::string::*;

verus! {

/// A point in time: microseconds since the Unix epoch, in UTC.
#[derive(Debug, Clone, Copy, PartialEq, Eq, Structural)]
pub struct Timestamp {
    pub micros: i64,
}

/// The columns of a header row that a submission decides.
#[derive(Debug, Clone, PartialEq, Eq)]
pub struct PatternFields {
    pub name: String,
    pub author: Option<String>,
    pub title: Option<String>,
    pub description: Option<String>,
    pub waveform: Option<String>,
    pub triplets: Option<bool>,
    pub tempo: Option<i32>,
    pub tuning: Option<i32>,
    pub cut_off_freq: Option<i32>,
    pub resonance: Option<i32>,
    pub env_mod: Option<i32>,
    pub decay: Option<i32>,
    pub accent: Option<i32>,
    pub is_public: Option<bool>,
}

/// What the submitted columns of a header row hold, as plain values.
pub struct PatternFieldsView {
    pub name: Seq<char>,
    pub author: Option<Seq<char>>,
    pub title: Option<Seq<char>>,
    pub description: Option<Seq<char>>,
    pub waveform: Option<Seq<char>>,
    pub triplets: Option<bool>,
    pub tempo: Option<i32>,
    pub tuning: Option<i32>,
    pub cut_off_freq: Option<i32>,
    pub resonance: Option<i32>,
    pub env_mod: Option<i32>,
    pub decay: Option<i32>,
    pub accent: Option<i32>,
    pub is_public: Option<bool>,
}

impl View for PatternFields {
    type V = PatternFieldsView;

    open spec fn view(&self) -> PatternFieldsView {
        PatternFieldsView {
            name: self.name@,
            author: text_of(self.author),
            title: text_of(self.title),
            description: text_of(self.description),
            waveform: text_of(self.waveform),
            triplets: self.triplets,
            tempo: self.tempo,
            tuning: self.tuning,
            cut_off_freq: self.cut_off_freq,
            resonance: self.resonance,
            env_mod: self.env_mod,
            decay: self.decay,
            accent: self.accent,
            is_public: self.is_public,
        }
    }
}

/// A row of the header table.
#[derive(Debug, Clone, PartialEq, Eq)]
pub struct PatternRow {
    pub pattern_id: u128,
    pub user_id: u128,
    pub fields: PatternFields,
    pub created_at: Timestamp,
    pub updated_at: Timestamp,
}

/// What a header row holds, as plain values.
pub struct PatternRowView {
    pub pattern_id: u128,
    pub user_id: u128,
    pub fields: PatternFieldsView,
    pub created_at: Timestamp,
    pub updated_at: Timestamp,
}

impl View for PatternRow {
    type V = PatternRowView;

    open spec fn view(&self) -> PatternRowView {
        PatternRowView {
            pattern_id: self.pattern_id,
            user_id: self.user_id,
            fields: self.fields@,
            created_at: self.created_at,
            updated_at: self.updated_at,
        }
    }
}

/// A row of the steps table.
#[derive(Debug, Clone, PartialEq, Eq)]
pub struct StepRow {
    pub step_id: u128,
    pub pattern_id: u128,
    pub number: i32,
    pub note: Option<String>,
    pub transpose: Option<String>,
    pub time: Option<String>,
    pub accent: Option<bool>,
    pub slide: Option<bool>,
    pub created_at: Timestamp,
}

/// What a row of the steps table holds, as plain values.
pub struct StepRowView {
    pub step_id: u128,
    pub pattern_id: u128,
    pub number: i32,
    pub note: Option<Seq<char>>,
    pub transpose: Option<Seq<char>>,
    pub time: Option<Seq<char>>,
    pub accent: Option<bool>,
    pub slide: Option<bool>,
    pub created_at: Timestamp,
}

impl View for StepRow {
    type V = StepRowView;

    open spec fn view(&self) -> StepRowView {
        StepRowView {
            step_id: self.step_id,
            pattern_id: self.pattern_id,
            number: self.number,
            note: text_of(self.note),
            transpose: text_of(self.transpose),
            time: text_of(self.time),
            accent: self.accent,
            slide: self.slide,
            created_at: self.created_at,
        }
    }
}

/// Rows of the steps table, as plain values and in the order they are held.
pub open spec fn step_row_views(rows: Seq<StepRow>) -> Seq<StepRowView> {
    Seq::new(rows.len(), |i: int| rows[i]@)
}

/// The stored value of an optional flag: `false` where it was left out.
pub open spec fn flag_or_false(flag: Option<bool>) -> bool {
    match flag {
        Some(value) => value,
        None => false,
    }
}

/// The stored value of an optional knob: `0` where it was left out.
pub open spec fn knob_or_zero(knob: Option<int>) -> int {
    match knob {
        Some(value) => value,
        None => 0,
    }
}

/// The text by which an optional waveform is stored.
pub open spec fn waveform_label(waveform: Option<Waveform>) -> Option<Seq<char>> {
    match waveform {
        Some(value) => Some(value.label()),
        None => None,
    }
}

/// The text by which an optional note is stored.
pub open spec fn note_label(note: Option<Note>) -> Option<Seq<char>> {
    match note {
        Some(value) => Some(value.label()),
        None => None,
    }
}

/// The text by which an optional octave shift is stored.
pub open spec fn transpose_label(transpose: Option<Transpose>) -> Option<Seq<char>> {
    match transpose {
        Some(value) => Some(value.label()),
        None => None,
    }
}

/// The columns that a validated pattern decides: texts as they are, the
/// waveform by its label, the tempo as it is, absent flags as `false` and
/// absent knobs as `0`.
pub open spec fn stored_fields(p: PatternView) -> PatternFieldsView
    recommends
        fits_columns(p),
{
    PatternFieldsView {
        name: p.name,
        author: p.author,
        title: p.title,
        description: p.description,
        waveform: waveform_label(p.waveform),
        triplets: Some(flag_or_false(p.triplets)),
        tempo: match p.tempo {
            Some(tempo) => Some(tempo as i32),
            None => None,
        },
        tuning: Some(knob_or_zero(p.tuning) as i32),
        cut_off_freq: Some(knob_or_zero(p.cut_off_freq) as i32),
        resonance: Some(knob_or_zero(p.resonance) as i32),
        env_mod: Some(knob_or_zero(p.env_mod) as i32),
        decay: Some(knob_or_zero(p.decay) as i32),
        accent: Some(knob_or_zero(p.accent) as i32),
        is_public: Some(flag_or_false(p.is_public)),
    }
}

/// Whether the numbers of a pattern fit the columns that store them. Every
/// pattern that the parsers made does.
pub open spec fn fits_columns(p: PatternView) -> bool {
    &&& p.tempo matches Some(tempo) ==> i32::MIN <= tempo <= i32::MAX
    &&& i32::MIN <= knob_or_zero(p.tuning) <= i32::MAX
    &&& i32::MIN <= knob_or_zero(p.cut_off_freq) <= i32::MAX
    &&& i32::MIN <= knob_or_zero(p.resonance) <= i32::MAX
    &&& i32::MIN <= knob_or_zero(p.env_mod) <= i32::MAX
    &&& i32::MIN <= knob_or_zero(p.decay) <= i32::MAX
    &&& i32::MIN <= knob_or_zero(p.accent) <= i32::MAX
}

/// The row that stores a step of the pattern `pattern_id` under the
/// identifier `step_id`: pitch and timing by their labels, absent flags as `false`.
pub open spec fn stored_step(
    pattern_id: u128,
    step_id: u128,
    step: StepView,
    now: Timestamp,
) -> StepRowView {
    StepRowView {
        step_id,
        pattern_id,
        number: step.number as i32,
        note: note_label(step.note),
        transpose: transpose_label(step.transpose),
        time: Some(step.time.label()),
        accent: Some(flag_or_false(step.accent)),
        slide: Some(flag_or_false(step.slide)),
        created_at: now,
    }
}

fn knob_value(knob: &Option<Knob>) -> (value: i32)
    ensures
        value == knob_or_zero(crate::domain::new_tb303_pattern::knob_of(*knob)),
{
    match knob {
        Some(knob) => *knob.as_ref(),
        None => 0,
    }
}

fn flag_value(flag: Option<bool>) -> (value: bool)
    ensures
        value == flag_or_false(flag),
{
    match flag {
        Some(value) => value,
        None => false,
    }
}

impl PatternFields {
    /// Works out the columns that a validated pattern decides.
    pub fn of(pattern: &NewTB303Pattern) -> (fields: PatternFields)
        ensures
            fits_columns(pattern@),
            fields@ == stored_fields(pattern@),
    {
        PatternFields {
            name: String::from_str(pattern.name.as_ref()),
            author: match &pattern.author {
                Some(author) => Some(String::from_str(author.as_ref())),
                None => None,
            },
            title: match &pattern.title {
                Some(title) => Some(String::from_str(title.as_ref())),
                None => None,
            },
            description: match &pattern.description {
                Some(description) => Some(String::from_str(description.as_ref())),
                None => None,
            },
            waveform: match &pattern.waveform {
                Some(waveform) => Some(String::from_str(waveform.as_ref())),
                None => None,
            },
            triplets: Some(flag_value(pattern.triplets)),
            tempo: match &pattern.tempo {
                Some(tempo) => Some(*tempo.as_ref()),
                None => None,
            },
            tuning: Some(knob_value(&pattern.tuning)),
            cut_off_freq: Some(knob_value(&pattern.cut_off_freq)),
            resonance: Some(knob_value(&pattern.resonance)),
            env_mod: Some(knob_value(&pattern.env_mod)),
            decay: Some(knob_value(&pattern.decay)),
            accent: Some(knob_value(&pattern.accent)),
            is_public: Some(flag_value(pattern.is_public)),
        }
    }
}

/// Makes the row that stores one step.
pub fn step_row(pattern_id: u128, step_id: u128, step: &NewTB303Step, now: Timestamp) -> (row:
    StepRow)
    ensures
        row@ == stored_step(pattern_id, step_id, step@, now),
{
    StepRow {
        step_id,
        pattern_id,
        number: *step.number.as_ref(),
        note: match &step.note {
            Some(note) => Some(String::from_str(note.as_ref())),
            None => None,
        },
        transpose: match &step.transpose {
            Some(transpose) => Some(String::from_str(transpose.as_ref())),
            None => None,
        },
        time: Some(String::from_str(step.time.as_ref())),
        accent: Some(flag_value(step.accent)),
        slide: Some(flag_value(step.slide)),
        created_at: now,
    }
}

} // verus!
