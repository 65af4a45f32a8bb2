//! Turns a submitted pattern into a validated one, or says why it cannot be.
//!
//! Every field is parsed first, in a fixed order, and the first field that
//! fails gives the reason. The rules on the steps as a whole come after that:
//! their count, rests without pitch, no number used twice, and numbers that
//! run from 1 without a gap.

use crate::domain::new_tb303_pattern::{knob_of, step_views, PatternView};
use crate::domain::new_tb303_step::StepView;
use crate::domain::{
    Author, Description, Knob, Name, NewTB303Pattern, NewTB303Step, StepNumber, Tempo, Time, Title,
};
use crate::models::{number_of, text_of, CreateTB303Pattern, CreateTB303Step, Submission};
use crate::rules::{lemma_accepts_exactly_the_well_sequenced, lemma_first_invalid_number};
use crate::text::{push_signed, signed_decimal};
use vstd::prelude::*;
use vstd::string::*;

verus! {

/// The reason against an optional description, if there is one.
pub open spec fn description_rejection(field: Option<Seq<char>>) -> Option<Seq<char>> {
    match field {
        Some(text) => if Description::admits(text) {
            None
        } else {
            Some(Description::rejection(text))
        },
        None => None,
    }
}

/// The reason against an optional tempo, if there is one.
pub open spec fn tempo_rejection(field: Option<int>) -> Option<Seq<char>> {
    match field {
        Some(value) => if Tempo::admits(value) {
            None
        } else {
            Some(Tempo::rejection(value))
        },
        None => None,
    }
}

/// The reason against an optional knob value, if there is one.
pub open spec fn knob_rejection(field: Option<int>) -> Option<Seq<char>> {
    match field {
        Some(value) => if Knob::admits(value) {
            None
        } else {
            Some(Knob::rejection(value))
        },
        None => None,
    }
}

/// The reason against the fields of the pattern itself: that of the first field
/// that its parser does not admit, in the order name, description, tempo, tuning,
/// cutoff, resonance, envelope modulation, decay, accent.
pub open spec fn header_rejection(s: Submission) -> Option<Seq<char>> {
    if !Name::admits(s.name) {
        Some(Name::rejection(s.name))
    } else if description_rejection(s.description) is Some {
        description_rejection(s.description)
    } else if tempo_rejection(s.tempo) is Some {
        tempo_rejection(s.tempo)
    } else if knob_rejection(s.tuning) is Some {
        knob_rejection(s.tuning)
    } else if knob_rejection(s.cut_off_freq) is Some {
        knob_rejection(s.cut_off_freq)
    } else if knob_rejection(s.resonance) is Some {
        knob_rejection(s.resonance)
    } else if knob_rejection(s.env_mod) is Some {
        knob_rejection(s.env_mod)
    } else if knob_rejection(s.decay) is Some {
        knob_rejection(s.decay)
    } else {
        knob_rejection(s.accent)
    }
}

/// The position of the first step, from `from` on, whose number is not admitted.
pub open spec fn first_invalid_number(steps: Seq<CreateTB303Step>, from: int) -> Option<int>
    decreases steps.len() - from,
{
    if from < 0 || from >= steps.len() {
        None
    } else if !StepNumber::admits(steps[from].number as int) {
        Some(from)
    } else {
        first_invalid_number(steps, from + 1)
    }
}

/// The reason against the step numbers: that of the first one not admitted.
pub open spec fn number_rejection(steps: Seq<CreateTB303Step>) -> Option<Seq<char>> {
    match first_invalid_number(steps, 0) {
        Some(i) => Some(StepNumber::rejection(steps[i].number as int)),
        None => None,
    }
}

/// The reason against a submission that a single field gives, if any does.
pub open spec fn field_rejection(s: Submission) -> Option<Seq<char>> {
    if header_rejection(s) is Some {
        header_rejection(s)
    } else {
        number_rejection(s.steps)
    }
}

/// A submitted step as it stands once its number has been admitted.
pub open spec fn checked(step: CreateTB303Step) -> StepView {
    StepView {
        number: step.number as int,
        note: step.note,
        transpose: step.transpose,
        time: step.time,
        accent: step.accent,
        slide: step.slide,
    }
}

/// The submitted steps, in the order submitted, once their numbers have been admitted.
pub open spec fn checked_steps(steps: Seq<CreateTB303Step>) -> Seq<StepView> {
    Seq::new(steps.len(), |i: int| checked(steps[i]))
}

/// The position of the first rest, from `from` on, that carries a note or an octave shift.
pub open spec fn first_pitched_rest(steps: Seq<StepView>, from: int) -> Option<int>
    decreases steps.len() - from,
{
    if from < 0 || from >= steps.len() {
        None
    } else if !steps[from].rest_is_silent() {
        Some(from)
    } else {
        first_pitched_rest(steps, from + 1)
    }
}

/// Whether the number of the step at `at` was already used by a step before it.
pub open spec fn repeats(steps: Seq<StepView>, at: int) -> bool {
    exists|i: int| 0 <= i < at && (#[trigger] steps[i]).number == steps[at].number
}

/// The position of the first step, from `from` on, that repeats an earlier number.
pub open spec fn first_repeat(steps: Seq<StepView>, from: int) -> Option<int>
    decreases steps.len() - from,
{
    if from < 0 || from >= steps.len() {
        None
    } else if repeats(steps, from) {
        Some(from)
    } else {
        first_repeat(steps, from + 1)
    }
}

/// Whether some step has the number `k`.
pub open spec fn has_number(steps: Seq<StepView>, k: int) -> bool {
    exists|i: int| 0 <= i < steps.len() && (#[trigger] steps[i]).number == k
}

/// The least number from `from` on that no step has. Step numbers end at 16,
/// so the search ends at 17.
pub open spec fn least_absent(steps: Seq<StepView>, from: int) -> int
    decreases 17 - from,
{
    if from > 16 || !has_number(steps, from) {
        from
    } else {
        least_absent(steps, from + 1)
    }
}

/// The least number from `from` up to 16 that some step has.
pub open spec fn least_present(steps: Seq<StepView>, from: int) -> Option<int>
    decreases 17 - from,
{
    if from > 16 {
        None
    } else if has_number(steps, from) {
        Some(from)
    } else {
        least_present(steps, from + 1)
    }
}

/// The reason given when there is no step at all.
pub open spec fn no_steps_message() -> Seq<char> {
    "Pattern must contain at least one step."@
}

/// The reason given when there are more than sixteen steps.
pub open spec fn too_many_steps_message() -> Seq<char> {
    "A pattern can only have up to 16 steps."@
}

/// The reason given when the step numbered `number` is a rest with pitch.
pub open spec fn rest_message(number: int) -> Seq<char> {
    "Step "@ + signed_decimal(number) + " is marked as 'rest' contains a note or octave."@
}

/// The reason given when `number` is used by more than one step.
pub open spec fn duplicate_message(number: int) -> Seq<char> {
    "Duplicate step number: "@ + signed_decimal(number)
}

/// The reason given when no step is numbered 1.
pub open spec fn start_message() -> Seq<char> {
    "Step sequence must start with 1"@
}

/// The reason given when the numbers jump from below `expected` to `found`.
pub open spec fn missing_message(expected: int, found: int) -> Seq<char> {
    "Missing step in sequence: expected "@ + signed_decimal(expected) + ", found "@
        + signed_decimal(found)
}

/// The reason against steps whose numbers have each been admitted. The rules are
/// tried in this order and the first one broken gives the reason: the count,
/// rests without pitch, numbers used once, numbers from 1 without a gap.
pub open spec fn sequence_rejection(steps: Seq<StepView>) -> Option<Seq<char>> {
    if steps.len() == 0 {
        Some(no_steps_message())
    } else if steps.len() > 16 {
        Some(too_many_steps_message())
    } else if first_pitched_rest(steps, 0) is Some {
        Some(rest_message(steps[first_pitched_rest(steps, 0)->0].number))
    } else if first_repeat(steps, 0) is Some {
        Some(duplicate_message(steps[first_repeat(steps, 0)->0].number))
    } else if !has_number(steps, 1) {
        Some(start_message())
    } else if least_present(steps, least_absent(steps, 1) + 1) is Some {
        Some(
            missing_message(
                least_absent(steps, 1),
                least_present(steps, least_absent(steps, 1) + 1)->0,
            ),
        )
    } else {
        None
    }
}

/// The reason against a submission, if there is one: that of the first field
/// that fails, else that of the first rule on the steps that is broken.
pub open spec fn rejection(s: Submission) -> Option<Seq<char>> {
    if field_rejection(s) is Some {
        field_rejection(s)
    } else {
        sequence_rejection(checked_steps(s.steps))
    }
}

/// The validated pattern that an accepted submission becomes: every field as
/// submitted, the steps in the order submitted.
pub open spec fn accepted(s: Submission) -> PatternView {
    PatternView {
        name: s.name,
        author: s.author,
        title: s.title,
        description: s.description,
        waveform: s.waveform,
        triplets: s.triplets,
        tempo: s.tempo,
        tuning: s.tuning,
        cut_off_freq: s.cut_off_freq,
        resonance: s.resonance,
        env_mod: s.env_mod,
        decay: s.decay,
        accent: s.accent,
        is_public: s.is_public,
        steps: checked_steps(s.steps),
    }
}

fn parse_optional_knob(field: Option<i32>) -> (parsed: Result<Option<Knob>, String>)
    ensures
        match parsed {
            Ok(knob) => knob_rejection(number_of(field)) is None && knob_of(knob) == number_of(
                field,
            ),
            Err(reason) => knob_rejection(number_of(field)) == Some(reason@),
        },
{
    match field {
        Some(value) => match Knob::parse(value) {
            Ok(knob) => Ok(Some(knob)),
            Err(reason) => Err(reason),
        },
        None => Ok(None),
    }
}

fn parse_optional_tempo(field: Option<i32>) -> (parsed: Result<Option<Tempo>, String>)
    ensures
        match parsed {
            Ok(tempo) => tempo_rejection(number_of(field)) is None && match tempo {
                Some(t) => number_of(field) == Some(t@),
                None => field is None,
            },
            Err(reason) => tempo_rejection(number_of(field)) == Some(reason@),
        },
{
    match field {
        Some(value) => match Tempo::parse(value) {
            Ok(tempo) => Ok(Some(tempo)),
            Err(reason) => Err(reason),
        },
        None => Ok(None),
    }
}

fn parse_optional_description(field: Option<String>) -> (parsed: Result<
    Option<Description>,
    String,
>)
    ensures
        match parsed {
            Ok(description) => description_rejection(text_of(field)) is None && match description {
                Some(d) => text_of(field) == Some(d@),
                None => field is None,
            },
            Err(reason) => description_rejection(text_of(field)) == Some(reason@),
        },
{
    match field {
        Some(text) => match Description::parse(text) {
            Ok(description) => Ok(Some(description)),
            Err(reason) => Err(reason),
        },
        None => Ok(None),
    }
}

fn parse_optional_author(field: Option<String>) -> (parsed: Option<Author>)
    ensures
        match parsed {
            Some(author) => text_of(field) == Some(author@),
            None => field is None,
        },
{
    match field {
        Some(text) => match Author::parse(text) {
            Ok(author) => Some(author),
            Err(_) => None,
        },
        None => None,
    }
}

fn parse_optional_title(field: Option<String>) -> (parsed: Option<Title>)
    ensures
        match parsed {
            Some(title) => text_of(field) == Some(title@),
            None => field is None,
        },
{
    match field {
        Some(text) => match Title::parse(text) {
            Ok(title) => Some(title),
            Err(_) => None,
        },
        None => None,
    }
}

/// Parses the number of every step, in order, and stops at the first one refused.
pub fn parse_steps(steps: &Vec<CreateTB303Step>) -> (parsed: Result<Vec<NewTB303Step>, String>)
    ensures
        match parsed {
            Ok(out) => number_rejection(steps@) is None && step_views(out@) == checked_steps(
                steps@,
            ),
            Err(reason) => number_rejection(steps@) == Some(reason@),
        },
{
    let mut out: Vec<NewTB303Step> = Vec::new();
    let mut i: usize = 0;
    while i < steps.len()
        invariant
            i <= steps.len(),
            out.len() == i,
            first_invalid_number(steps@, 0) == first_invalid_number(steps@, i as int),
            forall|j: int| 0 <= j < i ==> (#[trigger] out[j])@ == checked(steps[j]),
        decreases steps.len() - i,
    {
        let step = steps[i];
        match StepNumber::parse(step.number) {
            Ok(number) => {
                out.push(
                    NewTB303Step {
                        number,
                        note: step.note,
                        transpose: step.transpose,
                        time: step.time,
                        accent: step.accent,
                        slide: step.slide,
                    },
                );
            },
            Err(reason) => {
                return Err(reason);
            },
        }
        i = i + 1;
    }
    Ok(out)
}

fn build_rest_message(number: i32) -> (m: String)
    ensures
        m@ == rest_message(number as int),
{
    let mut m = String::from_str("Step ");
    push_signed(&mut m, number as i64);
    m.append(" is marked as 'rest' contains a note or octave.");
    m
}

fn build_duplicate_message(number: i32) -> (m: String)
    ensures
        m@ == duplicate_message(number as int),
{
    let mut m = String::from_str("Duplicate step number: ");
    push_signed(&mut m, number as i64);
    m
}

fn build_missing_message(expected: i32, found: i32) -> (m: String)
    ensures
        m@ == missing_message(expected as int, found as int),
{
    let mut m = String::from_str("Missing step in sequence: expected ");
    push_signed(&mut m, expected as i64);
    m.append(", found ");
    push_signed(&mut m, found as i64);
    m
}

fn holds_number(steps: &Vec<NewTB303Step>, k: i32) -> (held: bool)
    ensures
        held == has_number(step_views(steps@), k as int),
{
    let mut i: usize = 0;
    while i < steps.len()
        invariant
            i <= steps.len(),
            forall|j: int| 0 <= j < i ==> (#[trigger] step_views(steps@)[j]).number != k,
        decreases steps.len() - i,
    {
        if *steps[i].number.as_ref() == k {
            assert(step_views(steps@)[i as int].number == k);
            return true;
        }
        i = i + 1;
    }
    false
}

fn used_before(steps: &Vec<NewTB303Step>, at: usize) -> (used: bool)
    requires
        at < steps.len(),
    ensures
        used == repeats(step_views(steps@), at as int),
{
    let number = *steps[at].number.as_ref();
    let mut i: usize = 0;
    while i < at
        invariant
            i <= at < steps.len(),
            number == step_views(steps@)[at as int].number,
            forall|j: int| 0 <= j < i ==> (#[trigger] step_views(steps@)[j]).number != number,
        decreases at - i,
    {
        if *steps[i].number.as_ref() == number {
            assert(step_views(steps@)[i as int].number == number);
            return true;
        }
        i = i + 1;
    }
    false
}

/// Holds steps whose numbers have each been admitted to the rules on the steps
/// as a whole, and gives the reason of the first rule broken.
pub fn check_sequence(steps: &Vec<NewTB303Step>) -> (checked: Result<(), String>)
    ensures
        match checked {
            Ok(_) => sequence_rejection(step_views(steps@)) is None,
            Err(reason) => sequence_rejection(step_views(steps@)) == Some(reason@),
        },
{
    let ghost views = step_views(steps@);
    let n = steps.len();
    if n == 0 {
        return Err(String::from_str("Pattern must contain at least one step."));
    }
    if n > 16 {
        return Err(String::from_str("A pattern can only have up to 16 steps."));
    }
    let mut i: usize = 0;
    while i < n
        invariant
            n == steps.len(),
            1 <= n <= 16,
            views == step_views(steps@),
            i <= n,
            first_pitched_rest(views, 0) == first_pitched_rest(views, i as int),
        decreases n - i,
    {
        let step = &steps[i];
        let is_rest = match step.time {
            Time::Rest => true,
            _ => false,
        };
        if is_rest && (step.note.is_some() || step.transpose.is_some()) {
            return Err(build_rest_message(*step.number.as_ref()));
        }
        i = i + 1;
    }
    let mut j: usize = 0;
    while j < n
        invariant
            n == steps.len(),
            1 <= n <= 16,
            views == step_views(steps@),
            j <= n,
            first_pitched_rest(views, 0) is None,
            first_repeat(views, 0) == first_repeat(views, j as int),
        decreases n - j,
    {
        if used_before(steps, j) {
            return Err(build_duplicate_message(*steps[j].number.as_ref()));
        }
        j = j + 1;
    }
    if !holds_number(steps, 1) {
        return Err(String::from_str("Step sequence must start with 1"));
    }
    let mut expected: i32 = 1;
    while expected <= 16 && holds_number(steps, expected)
        invariant
            views == step_views(steps@),
            1 <= expected <= 17,
            least_absent(views, 1) == least_absent(views, expected as int),
        decreases 17 - expected,
    {
        expected = expected + 1;
    }
    let mut found: i32 = expected + 1;
    while found <= 16
        invariant
            views == step_views(steps@),
            1 <= steps.len() <= 16,
            first_pitched_rest(views, 0) is None,
            first_repeat(views, 0) is None,
            has_number(views, 1),
            1 <= expected <= 17,
            expected < found <= 18,
            least_absent(views, 1) == expected,
            least_present(views, expected + 1) == least_present(views, found as int),
        decreases 17 - found,
    {
        if holds_number(steps, found) {
            return Err(build_missing_message(expected, found));
        }
        found = found + 1;
    }
    Ok(())
}

impl CreateTB303Pattern {
    /// Validates the submission. It is accepted exactly when nothing speaks
    /// against it, and then every field is kept as submitted; otherwise the
    /// result is the one reason that `rejection` gives.
    pub fn try_into(self) -> (validated: Result<NewTB303Pattern, String>)
        ensures
            match validated {
                Ok(pattern) => rejection(self@) is None && pattern@ == accepted(self@)
                    && pattern@.well_formed(),
                Err(reason) => rejection(self@) == Some(reason@),
            },
    {
        let name = match Name::parse(self.name) {
            Ok(name) => name,
            Err(reason) => {
                return Err(reason);
            },
        };
        let author = parse_optional_author(self.author);
        let title = parse_optional_title(self.title);
        let description = match parse_optional_description(self.description) {
            Ok(description) => description,
            Err(reason) => {
                return Err(reason);
            },
        };
        let waveform = self.waveform;
        let triplets = self.triplets;
        let tempo = match parse_optional_tempo(self.tempo) {
            Ok(tempo) => tempo,
            Err(reason) => {
                return Err(reason);
            },
        };
        let tuning = match parse_optional_knob(self.tuning) {
            Ok(knob) => knob,
            Err(reason) => {
                return Err(reason);
            },
        };
        let cut_off_freq = match parse_optional_knob(self.cut_off_freq) {
            Ok(knob) => knob,
            Err(reason) => {
                return Err(reason);
            },
        };
        let resonance = match parse_optional_knob(self.resonance) {
            Ok(knob) => knob,
            Err(reason) => {
                return Err(reason);
            },
        };
        let env_mod = match parse_optional_knob(self.env_mod) {
            Ok(knob) => knob,
            Err(reason) => {
                return Err(reason);
            },
        };
        let decay = match parse_optional_knob(self.decay) {
            Ok(knob) => knob,
            Err(reason) => {
                return Err(reason);
            },
        };
        let accent = match parse_optional_knob(self.accent) {
            Ok(knob) => knob,
            Err(reason) => {
                return Err(reason);
            },
        };
        let is_public = self.is_public;
        let steps = match parse_steps(&self.steps) {
            Ok(steps) => steps,
            Err(reason) => {
                return Err(reason);
            },
        };
        proof {
            lemma_first_invalid_number(self.steps@, 0);
            lemma_accepts_exactly_the_well_sequenced(step_views(steps@));
        }
        match check_sequence(&steps) {
            Ok(_) => {},
            Err(reason) => {
                return Err(reason);
            },
        }
        let pattern = NewTB303Pattern {
            name,
            author,
            title,
            description,
            waveform,
            triplets,
            tempo,
            tuning,
            cut_off_freq,
            resonance,
            env_mod,
            decay,
            accent,
            is_public,
            steps,
        };
        Ok(pattern)
    }
}

} // verus!
