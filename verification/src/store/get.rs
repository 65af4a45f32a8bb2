//! Reading a pattern back: by its identifier, or one picked at random among
//! the public ones. The header row is read first, then the step rows in
//! ascending order of their numbers.

use crate::models::{read_step_views, TB303Pattern, TB303PatternView, TB303Step, TB303StepView};
use crate::store::errors::GetPatternError;
use crate::store::protocol::{Fault, Reply, ReplyView, Request, RequestView};
use crate::store::rows::{step_row_views, PatternRow, PatternRowView, StepRow, StepRowView};
use vstd::prelude::*;

verus! {

/// The step that a row of the steps table reads back as.
pub open spec fn read_step(row: StepRowView) -> TB303StepView {
    TB303StepView {
        id: row.step_id,
        number: row.number,
        note: row.note,
        transpose: row.transpose,
        time: row.time,
        accent: row.accent,
        slide: row.slide,
    }
}

/// The steps that rows read back as, in the order of the rows.
pub open spec fn read_steps(rows: Seq<StepRowView>) -> Seq<TB303StepView> {
    Seq::new(rows.len(), |i: int| read_step(rows[i]))
}

/// The pattern that a header row and the rows of its steps read back as.
pub open spec fn assembled(row: PatternRowView, steps: Seq<StepRowView>) -> TB303PatternView {
    TB303PatternView {
        id: Some(row.pattern_id),
        name: row.fields.name,
        author: row.fields.author,
        title: row.fields.title,
        description: row.fields.description,
        tempo: row.fields.tempo,
        waveform: row.fields.waveform,
        triplets: row.fields.triplets,
        tuning: row.fields.tuning,
        cut_off_freq: row.fields.cut_off_freq,
        resonance: row.fields.resonance,
        env_mod: row.fields.env_mod,
        decay: row.fields.decay,
        accent: row.fields.accent,
        is_public: row.fields.is_public,
        created_at: Some(row.created_at),
        updated_at: Some(row.updated_at),
        steps: read_steps(steps),
    }
}

/// Puts a pattern together from its header row and the rows of its steps,
/// keeping the order of the rows.
pub fn assemble(row: PatternRow, steps: Vec<StepRow>) -> (pattern: TB303Pattern)
    ensures
        pattern@ == assembled(row@, step_row_views(steps@)),
{
    let ghost rows = step_row_views(steps@);
    let mut steps = steps;
    let mut steps_response: Vec<TB303Step> = Vec::new();
    // The rows are taken from the back, so the steps come out reversed first.
    while steps.len() > 0
        invariant
            steps.len() + steps_response.len() == rows.len(),
            step_row_views(steps@) == rows.take(steps.len() as int),
            forall|j: int|
                0 <= j < steps_response.len() ==> (#[trigger] steps_response[j])@ == read_step(
                    rows[rows.len() - 1 - j],
                ),
        decreases steps.len(),
    {
        let ghost before = steps@;
        let step = steps.pop().unwrap();
        assert(step@ == rows[steps.len() as int]) by {
            assert(step_row_views(before)[before.len() - 1] == before[before.len() - 1]@);
        }
        assert(step_row_views(steps@) =~= rows.take(steps.len() as int)) by {
            assert forall|j: int| 0 <= j < steps.len() implies step_row_views(steps@)[j]
                == rows.take(steps.len() as int)[j] by {
                assert(step_row_views(before)[j] == before[j]@);
            }
        }
        steps_response.push(
            TB303Step {
                id: step.step_id,
                number: step.number,
                note: step.note,
                transpose: step.transpose,
                time: step.time,
                accent: step.accent,
                slide: step.slide,
            },
        );
    }
    let mut ordered: Vec<TB303Step> = Vec::new();
    while steps_response.len() > 0
        invariant
            steps_response.len() + ordered.len() == rows.len(),
            forall|j: int|
                0 <= j < steps_response.len() ==> (#[trigger] steps_response[j])@ == read_step(
                    rows[rows.len() - 1 - j],
                ),
            forall|j: int|
                0 <= j < ordered.len() ==> (#[trigger] ordered[j])@ == read_step(rows[j]),
        decreases steps_response.len(),
    {
        let step = steps_response.pop().unwrap();
        ordered.push(step);
    }
    let pattern = TB303Pattern {
        id: Some(row.pattern_id),
        name: row.fields.name,
        author: row.fields.author,
        title: row.fields.title,
        description: row.fields.description,
        tempo: row.fields.tempo,
        waveform: row.fields.waveform,
        triplets: row.fields.triplets,
        tuning: row.fields.tuning,
        cut_off_freq: row.fields.cut_off_freq,
        resonance: row.fields.resonance,
        env_mod: row.fields.env_mod,
        decay: row.fields.decay,
        accent: row.fields.accent,
        is_public: row.fields.is_public,
        created_at: Some(row.created_at),
        updated_at: Some(row.updated_at),
        steps: ordered,
    };
    assert(read_step_views(pattern.steps@) =~= read_steps(rows));
    pattern
}

/// How far the reading of a pattern has come; each state names the request
/// whose reply it waits for.
#[derive(Debug, PartialEq, Eq)]
pub enum Fetch {
    /// Waits for a public pattern to be picked.
    Picking,
    /// Waits for the header row of the pattern.
    ReadingPattern { pattern_id: u128 },
    /// Holds the header row and waits for the step rows.
    ReadingSteps { row: PatternRow },
}

/// What a state of a reading holds, as plain values.
pub enum FetchView {
    Picking,
    ReadingPattern { pattern_id: u128 },
    ReadingSteps { row: PatternRowView },
}

impl View for Fetch {
    type V = FetchView;

    open spec fn view(&self) -> FetchView {
        match *self {
            Fetch::Picking => FetchView::Picking,
            Fetch::ReadingPattern { pattern_id } => FetchView::ReadingPattern { pattern_id },
            Fetch::ReadingSteps { row } => FetchView::ReadingSteps { row: row@ },
        }
    }
}

/// What a reading does next: it asks for one more request, or it is over.
#[derive(Debug, PartialEq, Eq)]
pub enum FetchStep {
    Ask(Fetch, Request),
    Finished(Result<TB303Pattern, GetPatternError>),
}

/// What a reading does next, as plain values.
pub enum FetchStepView {
    Ask(FetchView, RequestView),
    Finished(Result<TB303PatternView, GetPatternError>),
}

impl View for FetchStep {
    type V = FetchStepView;

    open spec fn view(&self) -> FetchStepView {
        match *self {
            FetchStep::Ask(state, request) => FetchStepView::Ask(state@, request@),
            FetchStep::Finished(Ok(pattern)) => FetchStepView::Finished(Ok(pattern@)),
            FetchStep::Finished(Err(error)) => FetchStepView::Finished(Err(error)),
        }
    }
}

/// The end of a reading on a fault of the database.
pub open spec fn fetch_fault(fault: Fault) -> FetchStepView {
    FetchStepView::Finished(Err(GetPatternError::UnexpectedError(fault)))
}

impl Fetch {
    /// The step that follows a reply. Where nothing could be picked the
    /// reading ends with `NoPatterns`, where the header row is missing with
    /// `PatternNotFound`; else it ends with the pattern put together from the
    /// header row and the step rows, in the order the step rows came. Any
    /// reply of another kind than the one awaited ends it on a fault.
    pub open spec fn next(state: FetchView, reply: ReplyView) -> FetchStepView {
        match state {
            FetchView::Picking => match reply {
                ReplyView::Picked(Some(pattern_id)) => FetchStepView::Ask(
                    FetchView::ReadingPattern { pattern_id },
                    RequestView::SelectPattern { pattern_id },
                ),
                ReplyView::Picked(None) => FetchStepView::Finished(
                    Err(GetPatternError::NoPatterns),
                ),
                _ => fetch_fault(Fault::FetchRandom),
            },
            FetchView::ReadingPattern { pattern_id } => match reply {
                ReplyView::Pattern(Some(row)) => FetchStepView::Ask(
                    FetchView::ReadingSteps { row },
                    RequestView::SelectSteps { pattern_id },
                ),
                ReplyView::Pattern(None) => FetchStepView::Finished(
                    Err(GetPatternError::PatternNotFound(pattern_id)),
                ),
                _ => fetch_fault(Fault::FetchPattern),
            },
            FetchView::ReadingSteps { row } => match reply {
                ReplyView::Steps(steps) => FetchStepView::Finished(Ok(assembled(row, steps))),
                _ => fetch_fault(Fault::FetchSteps),
            },
        }
    }

    /// Takes the reply to the request last asked and says what comes next.
    pub fn advance(self, reply: Reply) -> (step: FetchStep)
        ensures
            step@ == Self::next(self@, reply@),
    {
        match self {
            Fetch::Picking => match reply {
                Reply::Picked(Some(pattern_id)) => FetchStep::Ask(
                    Fetch::ReadingPattern { pattern_id },
                    Request::SelectPattern { pattern_id },
                ),
                Reply::Picked(None) => FetchStep::Finished(Err(GetPatternError::NoPatterns)),
                _ => stop_on(Fault::FetchRandom),
            },
            Fetch::ReadingPattern { pattern_id } => match reply {
                Reply::Pattern(Some(row)) => FetchStep::Ask(
                    Fetch::ReadingSteps { row },
                    Request::SelectSteps { pattern_id },
                ),
                Reply::Pattern(None) => FetchStep::Finished(
                    Err(GetPatternError::PatternNotFound(pattern_id)),
                ),
                _ => stop_on(Fault::FetchPattern),
            },
            Fetch::ReadingSteps { row } => match reply {
                Reply::Steps(steps) => FetchStep::Finished(Ok(assemble(row, steps))),
                _ => stop_on(Fault::FetchSteps),
            },
        }
    }
}

fn stop_on(fault: Fault) -> (step: FetchStep)
    ensures
        step@ == fetch_fault(fault),
{
    FetchStep::Finished(Err(GetPatternError::UnexpectedError(fault)))
}

/// Begins to read the pattern `pattern_id` with its steps.
pub fn fetch_pattern_by_id(pattern_id: u128) -> (begun: (Fetch, Request))
    ensures
        begun.0@ == (FetchView::ReadingPattern { pattern_id }),
        begun.1@ == (RequestView::SelectPattern { pattern_id }),
{
    (Fetch::ReadingPattern { pattern_id }, Request::SelectPattern { pattern_id })
}

/// Begins to read one public pattern picked at random.
pub fn get_random_tb303_pattern() -> (begun: (Fetch, Request))
    ensures
        begun.0@ == FetchView::Picking,
        begun.1@ == RequestView::SelectRandomPublic,
{
    (Fetch::Picking, Request::SelectRandomPublic)
}

} // verus!
