//! Creating a pattern: the header row and the step rows go in together, inside
//! one transaction, or not at all.

use crate::domain::new_tb303_pattern::{step_views, PatternView};
use crate::domain::new_tb303_step::StepView;
use crate::domain::{NewTB303Pattern, NewTB303Step};
use crate::ids::{fresh_id, now};
use crate::models::CreateTB303Pattern;
use crate::store::errors::{CreatePatternError, CreatePatternErrorView};
use crate::store::protocol::{Fault, Reply, ReplyView, Request, RequestView};
use crate::store::rows::{
    step_row, step_row_views, stored_fields, stored_step, PatternFields, PatternRow,
    PatternRowView, StepRow, StepRowView, Timestamp,
};
use crate::validation::{accepted, rejection};
use vstd::prelude::*;

verus! {

/// The header row that stores a pattern for `user_id` under `pattern_id`,
/// created and last updated at `now`.
pub open spec fn stored_pattern(
    p: PatternView,
    user_id: u128,
    pattern_id: u128,
    now: Timestamp,
) -> PatternRowView {
    PatternRowView {
        pattern_id,
        user_id,
        fields: stored_fields(p),
        created_at: now,
        updated_at: now,
    }
}

/// Whether `rows` store `steps` for the pattern `pattern_id`: one row for each
/// step, in the order of the steps, each under the identifier and the time that
/// the row itself holds.
pub open spec fn store_steps(
    rows: Seq<StepRowView>,
    pattern_id: u128,
    steps: Seq<StepView>,
) -> bool {
    &&& rows.len() == steps.len()
    &&& forall|i: int|
        0 <= i < rows.len() ==> #[trigger] rows[i] == stored_step(
            pattern_id,
            rows[i].step_id,
            steps[i],
            rows[i].created_at,
        )
}

/// Makes the header row that stores a pattern.
pub fn pattern_row(
    new_pattern: &NewTB303Pattern,
    user_id: u128,
    pattern_id: u128,
    now: Timestamp,
) -> (row: PatternRow)
    ensures
        row@ == stored_pattern(new_pattern@, user_id, pattern_id, now),
{
    PatternRow {
        pattern_id,
        user_id,
        fields: PatternFields::of(new_pattern),
        created_at: now,
        updated_at: now,
    }
}

/// Makes the header row that stores a new pattern, under a fresh identifier
/// and with the present time.
pub fn insert_pattern(new_pattern: &NewTB303Pattern, user_id: u128) -> (row: PatternRow)
    ensures
        row@ == stored_pattern(new_pattern@, user_id, row.pattern_id, row.created_at),
{
    let pattern_id = fresh_id();
    let created_at = now();
    pattern_row(new_pattern, user_id, pattern_id, created_at)
}

/// Makes the rows that store the steps of a pattern, each under a fresh
/// identifier and with the present time.
pub fn insert_steps_tb303(pattern_id: u128, steps: &Vec<NewTB303Step>) -> (rows: Vec<StepRow>)
    ensures
        store_steps(step_row_views(rows@), pattern_id, step_views(steps@)),
{
    let mut rows: Vec<StepRow> = Vec::new();
    let mut i: usize = 0;
    while i < steps.len()
        invariant
            i <= steps.len(),
            rows.len() == i,
            forall|j: int|
                0 <= j < i ==> (#[trigger] rows[j])@ == stored_step(
                    pattern_id,
                    rows[j].step_id,
                    steps[j]@,
                    rows[j].created_at,
                ),
        decreases steps.len() - i,
    {
        let step_id = fresh_id();
        let created_at = now();
        rows.push(step_row(pattern_id, step_id, &steps[i], created_at));
        i = i + 1;
    }
    rows
}

/// How far the creation of a pattern has come; each state names the request
/// whose reply it waits for, and holds the rows still to be written.
#[derive(Debug, PartialEq, Eq)]
pub enum Creation {
    /// Waits for the transaction to open.
    Starting { row: PatternRow, steps: Vec<StepRow> },
    /// Waits for the header row to be written.
    WritingPattern { pattern_id: u128, steps: Vec<StepRow> },
    /// Waits for the step rows to be written.
    WritingSteps { pattern_id: u128 },
    /// Waits for the transaction to commit.
    Committing { pattern_id: u128 },
}

/// What a state of a creation holds, as plain values.
pub enum CreationView {
    Starting { row: PatternRowView, steps: Seq<StepRowView> },
    WritingPattern { pattern_id: u128, steps: Seq<StepRowView> },
    WritingSteps { pattern_id: u128 },
    Committing { pattern_id: u128 },
}

impl View for Creation {
    type V = CreationView;

    open spec fn view(&self) -> CreationView {
        match *self {
            Creation::Starting { row, steps } => CreationView::Starting {
                row: row@,
                steps: step_row_views(steps@),
            },
            Creation::WritingPattern { pattern_id, steps } => CreationView::WritingPattern {
                pattern_id,
                steps: step_row_views(steps@),
            },
            Creation::WritingSteps { pattern_id } => CreationView::WritingSteps { pattern_id },
            Creation::Committing { pattern_id } => CreationView::Committing { pattern_id },
        }
    }
}

/// What a creation does next: it asks for one more request, or it is over.
#[derive(Debug, PartialEq, Eq)]
pub enum CreateStep {
    Ask(Creation, Request),
    Finished(Result<u128, CreatePatternError>),
}

/// What a creation does next, as plain values.
pub enum CreateStepView {
    Ask(CreationView, RequestView),
    Finished(Result<u128, CreatePatternErrorView>),
}

impl View for CreateStep {
    type V = CreateStepView;

    open spec fn view(&self) -> CreateStepView {
        match *self {
            CreateStep::Ask(state, request) => CreateStepView::Ask(state@, request@),
            CreateStep::Finished(Ok(pattern_id)) => CreateStepView::Finished(Ok(pattern_id)),
            CreateStep::Finished(Err(error)) => CreateStepView::Finished(Err(error@)),
        }
    }
}

/// The end of a creation on a fault of the database.
pub open spec fn create_fault(fault: Fault) -> CreateStepView {
    CreateStepView::Finished(Err(CreatePatternErrorView::UnexpectedError(fault)))
}

impl Creation {
    /// The step that follows a reply. Every request must be answered `Done`
    /// for the creation to go on; it ends with the identifier of the pattern
    /// once the commit is done, and on a fault at the first other reply.
    pub open spec fn next(state: CreationView, reply: ReplyView) -> CreateStepView {
        match state {
            CreationView::Starting { row, steps } => if reply is Done {
                CreateStepView::Ask(
                    CreationView::WritingPattern { pattern_id: row.pattern_id, steps },
                    RequestView::InsertPattern(row),
                )
            } else {
                create_fault(Fault::CreateBegin)
            },
            CreationView::WritingPattern { pattern_id, steps } => if !(reply is Done) {
                create_fault(Fault::CreateInsertPattern)
            } else if steps.len() == 0 {
                CreateStepView::Ask(CreationView::Committing { pattern_id }, RequestView::Commit)
            } else {
                CreateStepView::Ask(
                    CreationView::WritingSteps { pattern_id },
                    RequestView::InsertSteps(steps),
                )
            },
            CreationView::WritingSteps { pattern_id } => if reply is Done {
                CreateStepView::Ask(CreationView::Committing { pattern_id }, RequestView::Commit)
            } else {
                create_fault(Fault::CreateInsertSteps)
            },
            CreationView::Committing { pattern_id } => if reply is Done {
                CreateStepView::Finished(Ok(pattern_id))
            } else {
                create_fault(Fault::CreateCommit)
            },
        }
    }

    /// Begins the creation of a pattern from the rows that store it.
    pub fn start(row: PatternRow, steps: Vec<StepRow>) -> (begun: (Creation, Request))
        ensures
            begun.0@ == (CreationView::Starting { row: row@, steps: step_row_views(steps@) }),
            begun.1@ == RequestView::Begin,
    {
        (Creation::Starting { row, steps }, Request::Begin)
    }

    /// Takes the reply to the request last asked and says what comes next.
    pub fn advance(self, reply: Reply) -> (step: CreateStep)
        ensures
            step@ == Self::next(self@, reply@),
    {
        let done = match reply {
            Reply::Done => true,
            _ => false,
        };
        match self {
            Creation::Starting { row, steps } => {
                if done {
                    let pattern_id = row.pattern_id;
                    CreateStep::Ask(
                        Creation::WritingPattern { pattern_id, steps },
                        Request::InsertPattern(row),
                    )
                } else {
                    CreateStep::Finished(
                        Err(CreatePatternError::UnexpectedError(Fault::CreateBegin)),
                    )
                }
            },
            Creation::WritingPattern { pattern_id, steps } => {
                if !done {
                    CreateStep::Finished(
                        Err(CreatePatternError::UnexpectedError(Fault::CreateInsertPattern)),
                    )
                } else if steps.len() == 0 {
                    CreateStep::Ask(Creation::Committing { pattern_id }, Request::Commit)
                } else {
                    CreateStep::Ask(
                        Creation::WritingSteps { pattern_id },
                        Request::InsertSteps(steps),
                    )
                }
            },
            Creation::WritingSteps { pattern_id } => {
                if done {
                    CreateStep::Ask(Creation::Committing { pattern_id }, Request::Commit)
                } else {
                    CreateStep::Finished(
                        Err(CreatePatternError::UnexpectedError(Fault::CreateInsertSteps)),
                    )
                }
            },
            Creation::Committing { pattern_id } => {
                if done {
                    CreateStep::Finished(Ok(pattern_id))
                } else {
                    CreateStep::Finished(
                        Err(CreatePatternError::UnexpectedError(Fault::CreateCommit)),
                    )
                }
            },
        }
    }
}

/// Validates a submission and begins to create the pattern for `user_id`.
/// A submission that is refused ends the operation before any request is made.
pub fn create_tb303_pattern(pattern: CreateTB303Pattern, user_id: u128) -> (begun: Result<
    (Creation, Request),
    CreatePatternError,
>)
    ensures
        match begun {
            Ok((state, request)) => {
                &&& rejection(pattern@) is None
                &&& request@ == RequestView::Begin
                &&& state@ matches CreationView::Starting { row, steps }
                &&& row == stored_pattern(
                    accepted(pattern@),
                    user_id,
                    row.pattern_id,
                    row.created_at,
                )
                &&& store_steps(steps, row.pattern_id, accepted(pattern@).steps)
            },
            Err(error) => {
                &&& rejection(pattern@) matches Some(reason)
                &&& error@ == CreatePatternErrorView::ValidationError(reason)
            },
        },
{
    match pattern.try_into() {
        Ok(new_pattern) => {
            let row = insert_pattern(&new_pattern, user_id);
            let steps = insert_steps_tb303(row.pattern_id, &new_pattern.steps);
            Ok(Creation::start(row, steps))
        },
        Err(reason) => Err(CreatePatternError::ValidationError(reason)),
    }
}

} // verus!
