//! Replacing a pattern: the header row is overwritten and the step rows are
//! deleted and written anew, inside one transaction. A pattern that does not
//! exist and a pattern of another owner are told apart by nothing.

use crate::domain::new_tb303_pattern::PatternView;
use crate::ids::now;
use crate::models::CreateTB303Pattern;
use crate::store::create::{insert_steps_tb303, store_steps};
use crate::store::errors::{UpdatePatternError, UpdatePatternErrorView};
use crate::store::protocol::{Fault, Reply, ReplyView, Request, RequestView};
use crate::store::rows::{
    step_row_views, stored_fields, PatternFields, PatternFieldsView, StepRow, StepRowView,
    Timestamp,
};
use crate::validation::{accepted, rejection};
use vstd::prelude::*;

verus! {

/// What an update is to write: the new columns of the header row, the time of
/// the update, and the rows of the new steps.
#[derive(Debug, PartialEq, Eq)]
pub struct Replacement {
    pub pattern_id: u128,
    pub user_id: u128,
    pub fields: PatternFields,
    pub updated_at: Timestamp,
    pub steps: Vec<StepRow>,
}

/// What an update is to write, as plain values.
pub struct ReplacementView {
    pub pattern_id: u128,
    pub user_id: u128,
    pub fields: PatternFieldsView,
    pub updated_at: Timestamp,
    pub steps: Seq<StepRowView>,
}

impl View for Replacement {
    type V = ReplacementView;

    open spec fn view(&self) -> ReplacementView {
        ReplacementView {
            pattern_id: self.pattern_id,
            user_id: self.user_id,
            fields: self.fields@,
            updated_at: self.updated_at,
            steps: step_row_views(self.steps@),
        }
    }
}

impl ReplacementView {
    /// Whether this is what replaces the pattern `pattern_id` of `user_id` by `p`.
    pub open spec fn replaces(self, pattern_id: u128, user_id: u128, p: PatternView) -> bool {
        &&& self.pattern_id == pattern_id
        &&& self.user_id == user_id
        &&& self.fields == stored_fields(p)
        &&& store_steps(self.steps, pattern_id, p.steps)
    }
}

/// How far the update of a pattern has come; each state names the request whose
/// reply it waits for, and holds what is still to be written.
#[derive(Debug, PartialEq, Eq)]
pub enum Update {
    /// Waits for the transaction to open.
    Starting(Replacement),
    /// Waits to learn whether the owner has such a pattern.
    Checking(Replacement),
    /// Waits for the header row to be overwritten.
    WritingPattern { pattern_id: u128, steps: Vec<StepRow> },
    /// Waits for the old step rows to be deleted.
    ClearingSteps { pattern_id: u128, steps: Vec<StepRow> },
    /// Waits for the new step rows to be written.
    WritingSteps { pattern_id: u128 },
    /// Waits for the transaction to commit.
    Committing { pattern_id: u128 },
}

/// What a state of an update holds, as plain values.
pub enum UpdateView {
    Starting(ReplacementView),
    Checking(ReplacementView),
    WritingPattern { pattern_id: u128, steps: Seq<StepRowView> },
    ClearingSteps { pattern_id: u128, steps: Seq<StepRowView> },
    WritingSteps { pattern_id: u128 },
    Committing { pattern_id: u128 },
}

impl View for Update {
    type V = UpdateView;

    open spec fn view(&self) -> UpdateView {
        match *self {
            Update::Starting(plan) => UpdateView::Starting(plan@),
            Update::Checking(plan) => UpdateView::Checking(plan@),
            Update::WritingPattern { pattern_id, steps } => UpdateView::WritingPattern {
                pattern_id,
                steps: step_row_views(steps@),
            },
            Update::ClearingSteps { pattern_id, steps } => UpdateView::ClearingSteps {
                pattern_id,
                steps: step_row_views(steps@),
            },
            Update::WritingSteps { pattern_id } => UpdateView::WritingSteps { pattern_id },
            Update::Committing { pattern_id } => UpdateView::Committing { pattern_id },
        }
    }
}

/// What an update does next: it asks for one more request, or it is over.
#[derive(Debug, PartialEq, Eq)]
pub enum UpdateStep {
    Ask(Update, Request),
    Finished(Result<u128, UpdatePatternError>),
}

/// What an update does next, as plain values.
pub enum UpdateStepView {
    Ask(UpdateView, RequestView),
    Finished(Result<u128, UpdatePatternErrorView>),
}

impl View for UpdateStep {
    type V = UpdateStepView;

    open spec fn view(&self) -> UpdateStepView {
        match *self {
            UpdateStep::Ask(state, request) => UpdateStepView::Ask(state@, request@),
            UpdateStep::Finished(Ok(pattern_id)) => UpdateStepView::Finished(Ok(pattern_id)),
            UpdateStep::Finished(Err(error)) => UpdateStepView::Finished(Err(error@)),
        }
    }
}

/// The end of an update on a fault of the database.
pub open spec fn update_fault(fault: Fault) -> UpdateStepView {
    UpdateStepView::Finished(Err(UpdatePatternErrorView::UnexpectedError(fault)))
}

impl Update {
    /// The step that follows a reply. The update goes on while every request is
    /// answered as it should be; it ends with `PatternNotFound` where the owner
    /// has no such pattern, with the identifier once the commit is done, and on
    /// a fault at the first reply of another kind.
    pub open spec fn next(state: UpdateView, reply: ReplyView) -> UpdateStepView {
        match state {
            UpdateView::Starting(plan) => if reply is Done {
                UpdateStepView::Ask(
                    UpdateView::Checking(plan),
                    RequestView::CheckOwned { pattern_id: plan.pattern_id, user_id: plan.user_id },
                )
            } else {
                update_fault(Fault::UpdateBegin)
            },
            UpdateView::Checking(plan) => match reply {
                ReplyView::Exists(true) => UpdateStepView::Ask(
                    UpdateView::WritingPattern { pattern_id: plan.pattern_id, steps: plan.steps },
                    RequestView::UpdatePattern {
                        pattern_id: plan.pattern_id,
                        fields: plan.fields,
                        updated_at: plan.updated_at,
                    },
                ),
                ReplyView::Exists(false) => UpdateStepView::Finished(
                    Err(UpdatePatternErrorView::PatternNotFound(plan.pattern_id)),
                ),
                _ => update_fault(Fault::UpdateCheck),
            },
            UpdateView::WritingPattern { pattern_id, steps } => if reply is Done {
                UpdateStepView::Ask(
                    UpdateView::ClearingSteps { pattern_id, steps },
                    RequestView::DeleteSteps { pattern_id },
                )
            } else {
                update_fault(Fault::UpdatePattern)
            },
            UpdateView::ClearingSteps { pattern_id, steps } => if !(reply is Done) {
                update_fault(Fault::UpdateDeleteSteps)
            } else if steps.len() == 0 {
                UpdateStepView::Ask(UpdateView::Committing { pattern_id }, RequestView::Commit)
            } else {
                UpdateStepView::Ask(
                    UpdateView::WritingSteps { pattern_id },
                    RequestView::InsertSteps(steps),
                )
            },
            UpdateView::WritingSteps { pattern_id } => if reply is Done {
                UpdateStepView::Ask(UpdateView::Committing { pattern_id }, RequestView::Commit)
            } else {
                update_fault(Fault::UpdateInsertSteps)
            },
            UpdateView::Committing { pattern_id } => if reply is Done {
                UpdateStepView::Finished(Ok(pattern_id))
            } else {
                update_fault(Fault::UpdateCommit)
            },
        }
    }

    /// Begins an update from what it is to write.
    pub fn start(plan: Replacement) -> (begun: (Update, Request))
        ensures
            begun.0@ == UpdateView::Starting(plan@),
            begun.1@ == RequestView::Begin,
    {
        (Update::Starting(plan), Request::Begin)
    }

    /// Takes the reply to the request last asked and says what comes next.
    pub fn advance(self, reply: Reply) -> (step: UpdateStep)
        ensures
            step@ == Self::next(self@, reply@),
    {
        match self {
            Update::Starting(plan) => match reply {
                Reply::Done => {
                    let request = Request::CheckOwned {
                        pattern_id: plan.pattern_id,
                        user_id: plan.user_id,
                    };
                    UpdateStep::Ask(Update::Checking(plan), request)
                },
                _ => stop_on(Fault::UpdateBegin),
            },
            Update::Checking(plan) => match reply {
                Reply::Exists(exists) => {
                    if exists {
                        let Replacement { pattern_id, user_id: _, fields, updated_at, steps } =
                            plan;
                        UpdateStep::Ask(
                            Update::WritingPattern { pattern_id, steps },
                            Request::UpdatePattern { pattern_id, fields, updated_at },
                        )
                    } else {
                        UpdateStep::Finished(
                            Err(UpdatePatternError::PatternNotFound(plan.pattern_id)),
                        )
                    }
                },
                _ => stop_on(Fault::UpdateCheck),
            },
            Update::WritingPattern { pattern_id, steps } => match reply {
                Reply::Done => UpdateStep::Ask(
                    Update::ClearingSteps { pattern_id, steps },
                    Request::DeleteSteps { pattern_id },
                ),
                _ => stop_on(Fault::UpdatePattern),
            },
            Update::ClearingSteps { pattern_id, steps } => match reply {
                Reply::Done => {
                    if steps.len() == 0 {
                        UpdateStep::Ask(Update::Committing { pattern_id }, Request::Commit)
                    } else {
                        UpdateStep::Ask(
                            Update::WritingSteps { pattern_id },
                            Request::InsertSteps(steps),
                        )
                    }
                },
                _ => stop_on(Fault::UpdateDeleteSteps),
            },
            Update::WritingSteps { pattern_id } => match reply {
                Reply::Done => UpdateStep::Ask(Update::Committing { pattern_id }, Request::Commit),
                _ => stop_on(Fault::UpdateInsertSteps),
            },
            Update::Committing { pattern_id } => match reply {
                Reply::Done => UpdateStep::Finished(Ok(pattern_id)),
                _ => stop_on(Fault::UpdateCommit),
            },
        }
    }
}

fn stop_on(fault: Fault) -> (step: UpdateStep)
    ensures
        step@ == update_fault(fault),
{
    UpdateStep::Finished(Err(UpdatePatternError::UnexpectedError(fault)))
}

/// Validates a submission and begins to replace the pattern `pattern_id` of
/// `user_id` by it. A submission that is refused ends the operation before any
/// request is made.
pub fn update_tb303_pattern(pattern_id: u128, pattern: CreateTB303Pattern, user_id: u128) -> (begun:
    Result<(Update, Request), UpdatePatternError>)
    ensures
        match begun {
            Ok((state, request)) => {
                &&& rejection(pattern@) is None
                &&& request@ == RequestView::Begin
                &&& state@ matches UpdateView::Starting(plan)
                &&& plan.replaces(pattern_id, user_id, accepted(pattern@))
            },
            Err(error) => {
                &&& rejection(pattern@) matches Some(reason)
                &&& error@ == UpdatePatternErrorView::ValidationError(reason)
            },
        },
{
    match pattern.try_into() {
        Ok(new_pattern) => {
            let plan = Replacement {
                pattern_id,
                user_id,
                fields: PatternFields::of(&new_pattern),
                updated_at: now(),
                steps: insert_steps_tb303(pattern_id, &new_pattern.steps),
            };
            Ok(Update::start(plan))
        },
        Err(reason) => Err(UpdatePatternError::ValidationError(reason)),
    }
}

} // verus!
