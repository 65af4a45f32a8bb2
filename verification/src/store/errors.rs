//! How each operation of the store can fail, and how a failure is reported.

use crate::ids::{id_text, push_id};
use crate::store::protocol::Fault;
use crate::utils::PatternErrorResponse;
use vstd::prelude::*;
use vstd::string::*;

verus! {

/// The text that reports a pattern as missing.
pub open spec fn not_found_text(pattern_id: u128) -> Seq<char> {
    "Pattern with ID "@ + id_text(pattern_id) + " not found"@
}

/// The text that reports a deletion as not permitted.
pub open spec fn access_denied_text() -> Seq<char> {
    "Access denied: you don't have permission to delete this pattern"@
}

/// The text that reports that there is no pattern to pick from.
pub open spec fn no_patterns_text() -> Seq<char> {
    "No patterns found in the database"@
}

fn not_found_message(pattern_id: u128) -> (text: String)
    ensures
        text@ == not_found_text(pattern_id),
{
    let mut text = String::from_str("Pattern with ID ");
    push_id(&mut text, pattern_id);
    text.append(" not found");
    text
}

fn error_body(message: String) -> (body: PatternErrorResponse)
    ensures
        body.status@ == "error"@,
        body.message@ == message@,
{
    PatternErrorResponse { status: String::from_str("error"), message }
}

/// Why a pattern was not created.
#[derive(Debug, PartialEq, Eq)]
pub enum CreatePatternError {
    /// The submission was refused, for the reason held.
    ValidationError(String),
    /// The database failed at the step held.
    UnexpectedError(Fault),
}

/// Why a pattern was not created, as plain values.
pub enum CreatePatternErrorView {
    ValidationError(Seq<char>),
    UnexpectedError(Fault),
}

impl View for CreatePatternError {
    type V = CreatePatternErrorView;

    open spec fn view(&self) -> CreatePatternErrorView {
        match *self {
            CreatePatternError::ValidationError(reason) => CreatePatternErrorView::ValidationError(
                reason@,
            ),
            CreatePatternError::UnexpectedError(fault) => CreatePatternErrorView::UnexpectedError(
                fault,
            ),
        }
    }
}

impl CreatePatternErrorView {
    /// The status that reports the error: 400 for a refusal, 500 for a fault.
    pub open spec fn status(self) -> u16 {
        match self {
            CreatePatternErrorView::ValidationError(_) => 400,
            CreatePatternErrorView::UnexpectedError(_) => 500,
        }
    }

    /// The message that reports the error.
    pub open spec fn text(self) -> Seq<char> {
        match self {
            CreatePatternErrorView::ValidationError(reason) => reason,
            CreatePatternErrorView::UnexpectedError(fault) => fault.text(),
        }
    }
}

impl CreatePatternError {
    /// The status that reports the error.
    pub fn status_code(&self) -> (code: u16)
        ensures
            code == self@.status(),
    {
        match self {
            CreatePatternError::ValidationError(_) => 400,
            CreatePatternError::UnexpectedError(_) => 500,
        }
    }

    /// The message that reports the error.
    pub fn to_string(&self) -> (message: String)
        ensures
            message@ == self@.text(),
    {
        match self {
            CreatePatternError::ValidationError(reason) => String::from_str(reason.as_str()),
            CreatePatternError::UnexpectedError(fault) => String::from_str(fault.describe()),
        }
    }

    /// The body of the response that reports the error.
    pub fn error_response(&self) -> (body: PatternErrorResponse)
        ensures
            body.status@ == "error"@,
            body.message@ == self@.text(),
    {
        error_body(self.to_string())
    }
}

/// Why a pattern was not replaced.
#[derive(Debug, PartialEq, Eq)]
pub enum UpdatePatternError {
    /// No pattern with the identifier held belongs to the owner.
    PatternNotFound(u128),
    /// The submission was refused, for the reason held.
    ValidationError(String),
    /// The database failed at the step held.
    UnexpectedError(Fault),
}

/// Why a pattern was not replaced, as plain values.
pub enum UpdatePatternErrorView {
    PatternNotFound(u128),
    ValidationError(Seq<char>),
    UnexpectedError(Fault),
}

impl View for UpdatePatternError {
    type V = UpdatePatternErrorView;

    open spec fn view(&self) -> UpdatePatternErrorView {
        match *self {
            UpdatePatternError::PatternNotFound(id) => UpdatePatternErrorView::PatternNotFound(id),
            UpdatePatternError::ValidationError(reason) => UpdatePatternErrorView::ValidationError(
                reason@,
            ),
            UpdatePatternError::UnexpectedError(fault) => UpdatePatternErrorView::UnexpectedError(
                fault,
            ),
        }
    }
}

impl UpdatePatternErrorView {
    /// The status that reports the error: 404, 400 for a refusal, 500 for a fault.
    pub open spec fn status(self) -> u16 {
        match self {
            UpdatePatternErrorView::PatternNotFound(_) => 404,
            UpdatePatternErrorView::ValidationError(_) => 400,
            UpdatePatternErrorView::UnexpectedError(_) => 500,
        }
    }

    /// The message that reports the error.
    pub open spec fn text(self) -> Seq<char> {
        match self {
            UpdatePatternErrorView::PatternNotFound(id) => not_found_text(id),
            UpdatePatternErrorView::ValidationError(reason) => reason,
            UpdatePatternErrorView::UnexpectedError(fault) => fault.text(),
        }
    }
}

impl UpdatePatternError {
    /// The status that reports the error.
    pub fn status_code(&self) -> (code: u16)
        ensures
            code == self@.status(),
    {
        match self {
            UpdatePatternError::PatternNotFound(_) => 404,
            UpdatePatternError::ValidationError(_) => 400,
            UpdatePatternError::UnexpectedError(_) => 500,
        }
    }

    /// The message that reports the error.
    pub fn to_string(&self) -> (message: String)
        ensures
            message@ == self@.text(),
    {
        match self {
            UpdatePatternError::PatternNotFound(id) => not_found_message(*id),
            UpdatePatternError::ValidationError(reason) => String::from_str(reason.as_str()),
            UpdatePatternError::UnexpectedError(fault) => String::from_str(fault.describe()),
        }
    }

    /// The body of the response that reports the error.
    pub fn error_response(&self) -> (body: PatternErrorResponse)
        ensures
            body.status@ == "error"@,
            body.message@ == self@.text(),
    {
        error_body(self.to_string())
    }
}

/// Why a pattern was not deleted.
#[derive(Debug, Clone, Copy, PartialEq, Eq, Structural)]
pub enum DeletePatternError {
    /// There is no pattern with the identifier held.
    PatternNotFound(u128),
    /// The pattern exists and belongs to someone else.
    AccessDenied,
    /// The database failed at the step held.
    UnexpectedError(Fault),
}

impl DeletePatternError {
    /// The status that reports the error: 404, 403, or 500 for a fault.
    pub open spec fn status(self) -> u16 {
        match self {
            DeletePatternError::PatternNotFound(_) => 404,
            DeletePatternError::AccessDenied => 403,
            DeletePatternError::UnexpectedError(_) => 500,
        }
    }

    /// The message that reports the error.
    pub open spec fn text(self) -> Seq<char> {
        match self {
            DeletePatternError::PatternNotFound(id) => not_found_text(id),
            DeletePatternError::AccessDenied => access_denied_text(),
            DeletePatternError::UnexpectedError(fault) => fault.text(),
        }
    }

    /// The status that reports the error.
    pub fn status_code(&self) -> (code: u16)
        ensures
            code == self.status(),
    {
        match self {
            DeletePatternError::PatternNotFound(_) => 404,
            DeletePatternError::AccessDenied => 403,
            DeletePatternError::UnexpectedError(_) => 500,
        }
    }

    /// The message that reports the error.
    pub fn to_string(&self) -> (message: String)
        ensures
            message@ == self.text(),
    {
        match self {
            DeletePatternError::PatternNotFound(id) => not_found_message(*id),
            DeletePatternError::AccessDenied => String::from_str(
                "Access denied: you don't have permission to delete this pattern",
            ),
            DeletePatternError::UnexpectedError(fault) => String::from_str(fault.describe()),
        }
    }
}

/// Why a pattern was not read.
#[derive(Debug, Clone, Copy, PartialEq, Eq, Structural)]
pub enum GetPatternError {
    /// There is no pattern with the identifier held.
    PatternNotFound(u128),
    /// There is no public pattern to pick from.
    NoPatterns,
    /// The database failed at the step held.
    UnexpectedError(Fault),
}

impl GetPatternError {
    /// The status that reports the error: 404, or 500 for a fault.
    pub open spec fn status(self) -> u16 {
        match self {
            GetPatternError::PatternNotFound(_) => 404,
            GetPatternError::NoPatterns => 404,
            GetPatternError::UnexpectedError(_) => 500,
        }
    }

    /// The message that reports the error.
    pub open spec fn text(self) -> Seq<char> {
        match self {
            GetPatternError::PatternNotFound(id) => not_found_text(id),
            GetPatternError::NoPatterns => no_patterns_text(),
            GetPatternError::UnexpectedError(fault) => fault.text(),
        }
    }

    /// The status that reports the error.
    pub fn status_code(&self) -> (code: u16)
        ensures
            code == self.status(),
    {
        match self {
            GetPatternError::PatternNotFound(_) | GetPatternError::NoPatterns => 404,
            GetPatternError::UnexpectedError(_) => 500,
        }
    }

    /// The message that reports the error.
    pub fn to_string(&self) -> (message: String)
        ensures
            message@ == self.text(),
    {
        match self {
            GetPatternError::PatternNotFound(id) => not_found_message(*id),
            GetPatternError::NoPatterns => String::from_str("No patterns found in the database"),
            GetPatternError::UnexpectedError(fault) => String::from_str(fault.describe()),
        }
    }

    /// The body of the response that reports the error.
    pub fn error_response(&self) -> (body: PatternErrorResponse)
        ensures
            body.status@ == "error"@,
            body.message@ == self.text(),
    {
        error_body(self.to_string())
    }
}

/// Why the patterns of an owner were not listed.
#[derive(Debug, Clone, Copy, PartialEq, Eq, Structural)]
pub enum ListPatternsError {
    /// The database failed at the step held.
    UnexpectedError(Fault),
}

impl ListPatternsError {
    /// The message that reports the error.
    pub open spec fn text(self) -> Seq<char> {
        match self {
            ListPatternsError::UnexpectedError(fault) => fault.text(),
        }
    }

    /// The status that reports the error: always 500.
    pub fn status_code(&self) -> (code: u16)
        ensures
            code == 500,
    {
        match self {
            ListPatternsError::UnexpectedError(_) => 500,
        }
    }

    /// The message that reports the error.
    pub fn to_string(&self) -> (message: String)
        ensures
            message@ == self.text(),
    {
        match self {
            ListPatternsError::UnexpectedError(fault) => String::from_str(fault.describe()),
        }
    }

    /// The body of the response that reports the error.
    pub fn error_response(&self) -> (body: PatternErrorResponse)
        ensures
            body.status@ == "error"@,
            body.message@ == self.text(),
    {
        error_body(self.to_string())
    }
}

} // verus!
