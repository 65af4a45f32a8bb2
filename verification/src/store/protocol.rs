//! What the store asks of the database, one request at a time, and what the
//! database may answer.
//!
//! The store itself never touches a connection. Each operation says which
//! request comes next; whoever holds the connection performs it and hands the
//! reply back. A request that is made while a transaction is open belongs to
//! that transaction; an operation that ends without `Commit` leaves its
//! transaction to be rolled back.

use crate::models::text_of;
use crate::store::rows::{
    step_row_views, PatternFields, PatternFieldsView, PatternRow, PatternRowView, StepRow,
    StepRowView, Timestamp,
};
use vstd::prelude::*;

verus! {

/// The columns of a header row that a listing reads.
#[derive(Debug, Clone, PartialEq, Eq)]
pub struct SummaryRow {
    pub pattern_id: u128,
    pub name: String,
    pub author: Option<String>,
    pub title: Option<String>,
    pub is_public: Option<bool>,
    pub created_at: Timestamp,
    pub updated_at: Timestamp,
}

/// What a listed row holds, as plain values.
pub struct SummaryRowView {
    pub pattern_id: u128,
    pub name: Seq<char>,
    pub author: Option<Seq<char>>,
    pub title: Option<Seq<char>>,
    pub is_public: Option<bool>,
    pub created_at: Timestamp,
    pub updated_at: Timestamp,
}

impl View for SummaryRow {
    type V = SummaryRowView;

    open spec fn view(&self) -> SummaryRowView {
        SummaryRowView {
            pattern_id: self.pattern_id,
            name: self.name@,
            author: text_of(self.author),
            title: text_of(self.title),
            is_public: self.is_public,
            created_at: self.created_at,
            updated_at: self.updated_at,
        }
    }
}

/// Listed rows, as plain values and in the order they are held.
pub open spec fn summary_row_views(rows: Seq<SummaryRow>) -> Seq<SummaryRowView> {
    Seq::new(rows.len(), |i: int| rows[i]@)
}

/// A request to the database.
#[derive(Debug, PartialEq, Eq)]
pub enum Request {
    /// Open a transaction.
    Begin,
    /// Commit the open transaction.
    Commit,
    /// Insert a header row.
    InsertPattern(PatternRow),
    /// Insert step rows, all of them or none.
    InsertSteps(Vec<StepRow>),
    /// Ask whether a header row has this identifier and this owner.
    CheckOwned { pattern_id: u128, user_id: u128 },
    /// Overwrite the submitted columns and the update time of a header row.
    UpdatePattern { pattern_id: u128, fields: PatternFields, updated_at: Timestamp },
    /// Delete every step row of a pattern.
    DeleteSteps { pattern_id: u128 },
    /// Delete the header row with this identifier if it has this owner.
    DeleteOwnedPattern { pattern_id: u128, user_id: u128 },
    /// Read the owner of a header row.
    SelectOwner { pattern_id: u128 },
    /// Read a header row.
    SelectPattern { pattern_id: u128 },
    /// Read the step rows of a pattern, ascending by number.
    SelectSteps { pattern_id: u128 },
    /// Pick the identifier of one public pattern at random.
    SelectRandomPublic,
    /// Read the listed columns of an owner's header rows, newest first.
    SelectSummaries { user_id: u128 },
}

/// What a request holds, as plain values.
pub enum RequestView {
    Begin,
    Commit,
    InsertPattern(PatternRowView),
    InsertSteps(Seq<StepRowView>),
    CheckOwned { pattern_id: u128, user_id: u128 },
    UpdatePattern { pattern_id: u128, fields: PatternFieldsView, updated_at: Timestamp },
    DeleteSteps { pattern_id: u128 },
    DeleteOwnedPattern { pattern_id: u128, user_id: u128 },
    SelectOwner { pattern_id: u128 },
    SelectPattern { pattern_id: u128 },
    SelectSteps { pattern_id: u128 },
    SelectRandomPublic,
    SelectSummaries { user_id: u128 },
}

impl View for Request {
    type V = RequestView;

    open spec fn view(&self) -> RequestView {
        match *self {
            Request::Begin => RequestView::Begin,
            Request::Commit => RequestView::Commit,
            Request::InsertPattern(row) => RequestView::InsertPattern(row@),
            Request::InsertSteps(rows) => RequestView::InsertSteps(step_row_views(rows@)),
            Request::CheckOwned { pattern_id, user_id } => RequestView::CheckOwned {
                pattern_id,
                user_id,
            },
            Request::UpdatePattern { pattern_id, fields, updated_at } => {
                RequestView::UpdatePattern { pattern_id, fields: fields@, updated_at }
            },
            Request::DeleteSteps { pattern_id } => RequestView::DeleteSteps { pattern_id },
            Request::DeleteOwnedPattern { pattern_id, user_id } => {
                RequestView::DeleteOwnedPattern { pattern_id, user_id }
            },
            Request::SelectOwner { pattern_id } => RequestView::SelectOwner { pattern_id },
            Request::SelectPattern { pattern_id } => RequestView::SelectPattern { pattern_id },
            Request::SelectSteps { pattern_id } => RequestView::SelectSteps { pattern_id },
            Request::SelectRandomPublic => RequestView::SelectRandomPublic,
            Request::SelectSummaries { user_id } => RequestView::SelectSummaries { user_id },
        }
    }
}

/// A reply of the database to one request.
#[derive(Debug, PartialEq, Eq)]
pub enum Reply {
    /// The request could not be carried out.
    Failed,
    /// The request was carried out and has nothing to report.
    Done,
    /// Whether the row asked after exists.
    Exists(bool),
    /// How many rows a deletion removed.
    Affected(u64),
    /// The owner of the row asked after, if the row exists.
    Owner(Option<u128>),
    /// The header row asked for, if it exists.
    Pattern(Option<PatternRow>),
    /// The step rows asked for.
    Steps(Vec<StepRow>),
    /// The identifier picked, if there was one to pick.
    Picked(Option<u128>),
    /// The listed rows asked for.
    Summaries(Vec<SummaryRow>),
}

/// What a reply holds, as plain values.
pub enum ReplyView {
    Failed,
    Done,
    Exists(bool),
    Affected(u64),
    Owner(Option<u128>),
    Pattern(Option<PatternRowView>),
    Steps(Seq<StepRowView>),
    Picked(Option<u128>),
    Summaries(Seq<SummaryRowView>),
}

impl View for Reply {
    type V = ReplyView;

    open spec fn view(&self) -> ReplyView {
        match *self {
            Reply::Failed => ReplyView::Failed,
            Reply::Done => ReplyView::Done,
            Reply::Exists(exists) => ReplyView::Exists(exists),
            Reply::Affected(rows) => ReplyView::Affected(rows),
            Reply::Owner(owner) => ReplyView::Owner(owner),
            Reply::Pattern(row) => ReplyView::Pattern(
                match row {
                    Some(row) => Some(row@),
                    None => None,
                },
            ),
            Reply::Steps(rows) => ReplyView::Steps(step_row_views(rows@)),
            Reply::Picked(picked) => ReplyView::Picked(picked),
            Reply::Summaries(rows) => ReplyView::Summaries(summary_row_views(rows@)),
        }
    }
}

/// The step of an operation at which the database failed. An operation that
/// ends on a fault has changed nothing.
#[derive(Debug, Clone, Copy, PartialEq, Eq, Structural)]
pub enum Fault {
    CreateBegin,
    CreateInsertPattern,
    CreateInsertSteps,
    CreateCommit,
    UpdateBegin,
    UpdateCheck,
    UpdatePattern,
    UpdateDeleteSteps,
    UpdateInsertSteps,
    UpdateCommit,
    DeleteOwner,
    DeleteBegin,
    DeleteSteps,
    DeletePattern,
    DeleteCommit,
    FetchPattern,
    FetchSteps,
    FetchRandom,
    List,
}

impl Fault {
    /// The description of the step that failed.
    pub open spec fn text(self) -> Seq<char> {
        match self {
            Fault::CreateBegin => "Failed to start a new transaction."@,
            Fault::CreateInsertPattern => "Failed to insert new pattern in the database."@,
            Fault::CreateInsertSteps => "Failed to insert new pattern steps in the database."@,
            Fault::CreateCommit => "Failed to commit the transaction to save tb303 pattern."@,
            Fault::UpdateBegin => "Failed to start a transaction for update"@,
            Fault::UpdateCheck => "Failed to check if pattern exists"@,
            Fault::UpdatePattern => "Failed to update the pattern"@,
            Fault::UpdateDeleteSteps => "Failed to delete old steps"@,
            Fault::UpdateInsertSteps => "Failed to insert updated steps"@,
            Fault::UpdateCommit => "Failed to commit transaction"@,
            Fault::DeleteOwner => "Failed to fetch pattern owner."@,
            Fault::DeleteBegin => "Failed to begin a database transaction."@,
            Fault::DeleteSteps => "Failed to delete steps for pattern."@,
            Fault::DeletePattern => "Failed to delete pattern."@,
            Fault::DeleteCommit => "Failed to commit the database transaction."@,
            Fault::FetchPattern => "Failed to fetch pattern details."@,
            Fault::FetchSteps => "Failed to fetch steps for pattern."@,
            Fault::FetchRandom => "Failed to get a random pattern ID from database."@,
            Fault::List => "Failed to fetch patterns"@,
        }
    }

    /// The description of the step that failed.
    pub fn describe(&self) -> (text: &'static str)
        ensures
            text@ == self.text(),
    {
        match self {
            Fault::CreateBegin => "Failed to start a new transaction.",
            Fault::CreateInsertPattern => "Failed to insert new pattern in the database.",
            Fault::CreateInsertSteps => "Failed to insert new pattern steps in the database.",
            Fault::CreateCommit => "Failed to commit the transaction to save tb303 pattern.",
            Fault::UpdateBegin => "Failed to start a transaction for update",
            Fault::UpdateCheck => "Failed to check if pattern exists",
            Fault::UpdatePattern => "Failed to update the pattern",
            Fault::UpdateDeleteSteps => "Failed to delete old steps",
            Fault::UpdateInsertSteps => "Failed to insert updated steps",
            Fault::UpdateCommit => "Failed to commit transaction",
            Fault::DeleteOwner => "Failed to fetch pattern owner.",
            Fault::DeleteBegin => "Failed to begin a database transaction.",
            Fault::DeleteSteps => "Failed to delete steps for pattern.",
            Fault::DeletePattern => "Failed to delete pattern.",
            Fault::DeleteCommit => "Failed to commit the database transaction.",
            Fault::FetchPattern => "Failed to fetch pattern details.",
            Fault::FetchSteps => "Failed to fetch steps for pattern.",
            Fault::FetchRandom => "Failed to get a random pattern ID from database.",
            Fault::List => "Failed to fetch patterns",
        }
    }
}

} // verus!
