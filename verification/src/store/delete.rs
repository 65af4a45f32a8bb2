//! Deleting a pattern: the owner is looked up first, so that a pattern of
//! another owner is told apart from one that does not exist; then the step
//! rows and the header row go, inside one transaction.

use crate::store::errors::DeletePatternError;
use crate::store::protocol::{Fault, Reply, ReplyView, Request, RequestView};
use vstd::prelude::*;

verus! {

/// The request whose reply a deletion waits for.
#[derive(Debug, Clone, Copy, PartialEq, Eq, Structural)]
pub enum DeleteStage {
    /// The owner of the pattern is being read.
    ReadingOwner,
    /// The transaction is being opened.
    Beginning,
    /// The step rows are being deleted.
    ClearingSteps,
    /// The header row is being deleted.
    DeletingPattern,
    /// The transaction is being committed.
    Committing,
}

/// How far the deletion of the pattern `pattern_id`, asked for by `user_id`, has come.
#[derive(Debug, Clone, Copy, PartialEq, Eq, Structural)]
pub struct Deletion {
    pub stage: DeleteStage,
    pub pattern_id: u128,
    pub user_id: u128,
}

/// What a deletion does next: it asks for one more request, or it is over.
#[derive(Debug, PartialEq, Eq)]
pub enum DeleteStep {
    Ask(Deletion, Request),
    Finished(Result<(), DeletePatternError>),
}

/// What a deletion does next, as plain values.
pub enum DeleteStepView {
    Ask(Deletion, RequestView),
    Finished(Result<(), DeletePatternError>),
}

impl View for DeleteStep {
    type V = DeleteStepView;

    open spec fn view(&self) -> DeleteStepView {
        match *self {
            DeleteStep::Ask(state, request) => DeleteStepView::Ask(state, request@),
            DeleteStep::Finished(result) => DeleteStepView::Finished(result),
        }
    }
}

/// The end of a deletion on a fault of the database.
pub open spec fn delete_fault(fault: Fault) -> DeleteStepView {
    DeleteStepView::Finished(Err(DeletePatternError::UnexpectedError(fault)))
}

impl Deletion {
    /// The same deletion, waiting at another stage.
    pub open spec fn at(self, stage: DeleteStage) -> Deletion {
        Deletion { stage, pattern_id: self.pattern_id, user_id: self.user_id }
    }

    /// The step that follows a reply. A pattern without a row ends the deletion
    /// with `PatternNotFound`, a row of another owner with `AccessDenied`. Then
    /// the steps and the header row are deleted; a header row that is gone by
    /// then ends it with `PatternNotFound` too. Any reply of another kind than
    /// the one awaited ends it on a fault.
    pub open spec fn next(state: Deletion, reply: ReplyView) -> DeleteStepView {
        match state.stage {
            DeleteStage::ReadingOwner => match reply {
                ReplyView::Owner(Some(owner)) => if owner != state.user_id {
                    DeleteStepView::Finished(Err(DeletePatternError::AccessDenied))
                } else {
                    DeleteStepView::Ask(state.at(DeleteStage::Beginning), RequestView::Begin)
                },
                ReplyView::Owner(None) => DeleteStepView::Finished(
                    Err(DeletePatternError::PatternNotFound(state.pattern_id)),
                ),
                _ => delete_fault(Fault::DeleteOwner),
            },
            DeleteStage::Beginning => if reply is Done {
                DeleteStepView::Ask(
                    state.at(DeleteStage::ClearingSteps),
                    RequestView::DeleteSteps { pattern_id: state.pattern_id },
                )
            } else {
                delete_fault(Fault::DeleteBegin)
            },
            DeleteStage::ClearingSteps => if reply is Done {
                DeleteStepView::Ask(
                    state.at(DeleteStage::DeletingPattern),
                    RequestView::DeleteOwnedPattern {
                        pattern_id: state.pattern_id,
                        user_id: state.user_id,
                    },
                )
            } else {
                delete_fault(Fault::DeleteSteps)
            },
            DeleteStage::DeletingPattern => match reply {
                ReplyView::Affected(rows) => if rows == 0 {
                    DeleteStepView::Finished(
                        Err(DeletePatternError::PatternNotFound(state.pattern_id)),
                    )
                } else {
                    DeleteStepView::Ask(state.at(DeleteStage::Committing), RequestView::Commit)
                },
                _ => delete_fault(Fault::DeletePattern),
            },
            DeleteStage::Committing => if reply is Done {
                DeleteStepView::Finished(Ok(()))
            } else {
                delete_fault(Fault::DeleteCommit)
            },
        }
    }

    fn to(self, stage: DeleteStage) -> (moved: Deletion)
        ensures
            moved == self.at(stage),
    {
        Deletion { stage, pattern_id: self.pattern_id, user_id: self.user_id }
    }

    /// Takes the reply to the request last asked and says what comes next.
    pub fn advance(self, reply: Reply) -> (step: DeleteStep)
        ensures
            step@ == Self::next(self, reply@),
    {
        match self.stage {
            DeleteStage::ReadingOwner => match reply {
                Reply::Owner(Some(owner)) => {
                    if owner != self.user_id {
                        DeleteStep::Finished(Err(DeletePatternError::AccessDenied))
                    } else {
                        DeleteStep::Ask(self.to(DeleteStage::Beginning), Request::Begin)
                    }
                },
                Reply::Owner(None) => DeleteStep::Finished(
                    Err(DeletePatternError::PatternNotFound(self.pattern_id)),
                ),
                _ => stop_on(Fault::DeleteOwner),
            },
            DeleteStage::Beginning => match reply {
                Reply::Done => DeleteStep::Ask(
                    self.to(DeleteStage::ClearingSteps),
                    Request::DeleteSteps { pattern_id: self.pattern_id },
                ),
                _ => stop_on(Fault::DeleteBegin),
            },
            DeleteStage::ClearingSteps => match reply {
                Reply::Done => DeleteStep::Ask(
                    self.to(DeleteStage::DeletingPattern),
                    Request::DeleteOwnedPattern {
                        pattern_id: self.pattern_id,
                        user_id: self.user_id,
                    },
                ),
                _ => stop_on(Fault::DeleteSteps),
            },
            DeleteStage::DeletingPattern => match reply {
                Reply::Affected(rows) => {
                    if rows == 0 {
                        DeleteStep::Finished(
                            Err(DeletePatternError::PatternNotFound(self.pattern_id)),
                        )
                    } else {
                        DeleteStep::Ask(self.to(DeleteStage::Committing), Request::Commit)
                    }
                },
                _ => stop_on(Fault::DeletePattern),
            },
            DeleteStage::Committing => match reply {
                Reply::Done => DeleteStep::Finished(Ok(())),
                _ => stop_on(Fault::DeleteCommit),
            },
        }
    }
}

fn stop_on(fault: Fault) -> (step: DeleteStep)
    ensures
        step@ == delete_fault(fault),
{
    DeleteStep::Finished(Err(DeletePatternError::UnexpectedError(fault)))
}

/// Begins to delete the pattern `pattern_id` on behalf of `user_id`.
pub fn delete_tb303_pattern(pattern_id: u128, user_id: u128) -> (begun: (Deletion, Request))
    ensures
        begun.0 == (Deletion { stage: DeleteStage::ReadingOwner, pattern_id, user_id }),
        begun.1@ == (RequestView::SelectOwner { pattern_id }),
{
    (
        Deletion { stage: DeleteStage::ReadingOwner, pattern_id, user_id },
        Request::SelectOwner { pattern_id },
    )
}

} // verus!
