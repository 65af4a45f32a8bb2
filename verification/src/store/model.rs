//! The database as the store expects it to behave, written down as plain
//! mathematics, and every operation run against it.
//!
//! Nothing here is executed. The model fixes what each request means when the
//! database does not fail: what it changes in the two tables and what it
//! replies. Running an operation against the model plays the part of the code
//! that holds the connection: it answers each request and hands the reply back
//! until the operation is over.

use crate::models::{TB303PatternSummaryView, TB303PatternView};
use crate::store::create::{CreateStepView, Creation, CreationView};
use crate::store::delete::{DeleteStage, DeleteStepView, Deletion};
use crate::store::errors::{
    CreatePatternErrorView, DeletePatternError, GetPatternError, ListPatternsError,
    UpdatePatternErrorView,
};
use crate::store::get::{Fetch, FetchStepView, FetchView};
use crate::store::list::listed;
use crate::store::order::ordered_by_key;
use crate::store::protocol::{ReplyView, RequestView, SummaryRowView};
use crate::store::rows::{PatternRowView, StepRowView};
use crate::store::update::{ReplacementView, Update, UpdateStepView, UpdateView};
use vstd::prelude::*;

verus! {

/// The number by which step rows are ordered.
pub open spec fn by_number() -> spec_fn(StepRowView) -> int {
    |row: StepRowView| row.number as int
}

/// The key by which listed rows are ordered: the newest row comes first.
pub open spec fn by_newest() -> spec_fn(SummaryRowView) -> int {
    |row: SummaryRowView| -(row.created_at.micros as int)
}

/// The two tables: header rows by their identifier, and step rows in the
/// order in which they were written.
pub struct Tables {
    pub patterns: Map<u128, PatternRowView>,
    pub steps: Seq<StepRowView>,
}

impl Tables {
    /// Whether the tables are as a database keeps them: finitely many header
    /// rows, each under its own identifier, and no step row without its
    /// pattern.
    pub open spec fn consistent(self) -> bool {
        &&& self.patterns.dom().finite()
        &&& forall|id: u128| #[trigger]
            self.patterns.contains_key(id) ==> self.patterns[id].pattern_id == id
        &&& forall|i: int|
            0 <= i < self.steps.len() ==> self.patterns.contains_key(
                (#[trigger] self.steps[i]).pattern_id,
            )
    }

    /// Whether there is a header row `pattern_id`.
    pub open spec fn holds(self, pattern_id: u128) -> bool {
        self.patterns.contains_key(pattern_id)
    }

    /// Whether there is a header row `pattern_id` and it belongs to `user_id`.
    pub open spec fn owns(self, user_id: u128, pattern_id: u128) -> bool {
        self.patterns.contains_key(pattern_id) && self.patterns[pattern_id].user_id == user_id
    }

    /// Whether there is a header row `pattern_id` and it is flagged public.
    pub open spec fn is_public(self, pattern_id: u128) -> bool {
        self.patterns.contains_key(pattern_id) && self.patterns[pattern_id].fields.is_public
            == Some(true)
    }

    /// The step rows of a pattern, in the order in which they were written.
    pub open spec fn steps_of(self, pattern_id: u128) -> Seq<StepRowView> {
        self.steps.filter(|row: StepRowView| row.pattern_id == pattern_id)
    }

    /// The tables without the step rows of a pattern.
    pub open spec fn without_steps_of(self, pattern_id: u128) -> Tables {
        Tables {
            patterns: self.patterns,
            steps: self.steps.filter(|row: StepRowView| row.pattern_id != pattern_id),
        }
    }

    /// The identifiers of the patterns of an owner.
    pub open spec fn owned_by(self, user_id: u128) -> Set<u128> {
        Set::new(|id: u128| self.owns(user_id, id))
    }

    /// The columns of a header row that a listing reads.
    pub open spec fn summary(self, pattern_id: u128) -> SummaryRowView {
        let row = self.patterns[pattern_id];
        SummaryRowView {
            pattern_id: row.pattern_id,
            name: row.fields.name,
            author: row.fields.author,
            title: row.fields.title,
            is_public: row.fields.is_public,
            created_at: row.created_at,
            updated_at: row.updated_at,
        }
    }

    /// What a listing for an owner reads: the owner's header rows, newest first.
    pub open spec fn summaries_of(self, user_id: u128) -> Seq<SummaryRowView> {
        let ids = self.owned_by(user_id).to_seq();
        let rows = Seq::new(ids.len(), |i: int| self.summary(ids[i]));
        ordered_by_key(rows, by_newest(), rows.len() as int)
    }

    /// Whether every one of `rows` belongs to a pattern that has a header row.
    pub open spec fn holds_patterns_of(self, rows: Seq<StepRowView>) -> bool {
        forall|i: int|
            0 <= i < rows.len() ==> self.patterns.contains_key((#[trigger] rows[i]).pattern_id)
    }

    /// What a request replies on these tables, and the tables it leaves. A
    /// header row under an identifier in use, and a step row without its
    /// pattern, are refused. The opening and the end of a transaction change
    /// nothing in the tables themselves.
    pub open spec fn answer(self, request: RequestView) -> (Tables, ReplyView) {
        match request {
            RequestView::Begin => (self, ReplyView::Done),
            RequestView::Commit => (self, ReplyView::Done),
            RequestView::InsertPattern(row) => if self.patterns.contains_key(row.pattern_id) {
                (self, ReplyView::Failed)
            } else {
                (
                    Tables {
                        patterns: self.patterns.insert(row.pattern_id, row),
                        steps: self.steps,
                    },
                    ReplyView::Done,
                )
            },
            RequestView::InsertSteps(rows) => if self.holds_patterns_of(rows) {
                (Tables { patterns: self.patterns, steps: self.steps + rows }, ReplyView::Done)
            } else {
                (self, ReplyView::Failed)
            },
            RequestView::CheckOwned { pattern_id, user_id } => (
                self,
                ReplyView::Exists(self.owns(user_id, pattern_id)),
            ),
            RequestView::UpdatePattern { pattern_id, fields, updated_at } => if self.holds(
                pattern_id,
            ) {
                let old = self.patterns[pattern_id];
                let new = PatternRowView {
                    pattern_id: old.pattern_id,
                    user_id: old.user_id,
                    fields,
                    created_at: old.created_at,
                    updated_at,
                };
                (
                    Tables { patterns: self.patterns.insert(pattern_id, new), steps: self.steps },
                    ReplyView::Done,
                )
            } else {
                (self, ReplyView::Done)
            },
            RequestView::DeleteSteps { pattern_id } => (
                self.without_steps_of(pattern_id),
                ReplyView::Done,
            ),
            RequestView::DeleteOwnedPattern { pattern_id, user_id } => if self.owns(
                user_id,
                pattern_id,
            ) {
                (
                    Tables {
                        patterns: self.patterns.remove(pattern_id),
                        steps: self.without_steps_of(pattern_id).steps,
                    },
                    ReplyView::Affected(1),
                )
            } else {
                (self, ReplyView::Affected(0))
            },
            RequestView::SelectOwner { pattern_id } => (
                self,
                ReplyView::Owner(
                    if self.patterns.contains_key(pattern_id) {
                        Some(self.patterns[pattern_id].user_id)
                    } else {
                        None
                    },
                ),
            ),
            RequestView::SelectPattern { pattern_id } => (
                self,
                ReplyView::Pattern(
                    if self.patterns.contains_key(pattern_id) {
                        Some(self.patterns[pattern_id])
                    } else {
                        None
                    },
                ),
            ),
            RequestView::SelectSteps { pattern_id } => {
                let rows = self.steps_of(pattern_id);
                (self, ReplyView::Steps(ordered_by_key(rows, by_number(), rows.len() as int)))
            },
            RequestView::SelectRandomPublic => (
                self,
                ReplyView::Picked(
                    if exists|id: u128| self.is_public(id) {
                        Some(choose|id: u128| self.is_public(id))
                    } else {
                        None
                    },
                ),
            ),
            RequestView::SelectSummaries { user_id } => (
                self,
                ReplyView::Summaries(self.summaries_of(user_id)),
            ),
        }
    }
}

/// A database: the tables as committed, and the tables as an open
/// transaction has changed them so far.
pub struct Database {
    pub committed: Tables,
    pub pending: Option<Tables>,
}

impl Database {
    /// A database with these tables and no transaction open.
    pub open spec fn at_rest(tables: Tables) -> Database {
        Database { committed: tables, pending: None }
    }

    /// The database once the connection is given back: what was not committed is gone.
    pub open spec fn released(self) -> Database {
        Database { committed: self.committed, pending: None }
    }

    /// What a request replies, and the database it leaves. A request inside a
    /// transaction sees and changes the pending tables; outside of one it
    /// sees and changes the committed tables at once.
    pub open spec fn answer(self, request: RequestView) -> (Database, ReplyView) {
        match request {
            RequestView::Begin => match self.pending {
                Some(_) => (self, ReplyView::Failed),
                None => (
                    Database { committed: self.committed, pending: Some(self.committed) },
                    ReplyView::Done,
                ),
            },
            RequestView::Commit => match self.pending {
                Some(tables) => (Database { committed: tables, pending: None }, ReplyView::Done),
                None => (self, ReplyView::Failed),
            },
            _ => match self.pending {
                Some(tables) => {
                    let (after, reply) = tables.answer(request);
                    (Database { committed: self.committed, pending: Some(after) }, reply)
                },
                None => {
                    let (after, reply) = self.committed.answer(request);
                    (Database { committed: after, pending: None }, reply)
                },
            },
        }
    }

    /// Runs a creation until it is over, for at most `patience` requests.
    pub open spec fn run_creation(self, step: CreateStepView, patience: nat) -> (
        Database,
        Result<u128, CreatePatternErrorView>,
    )
        decreases patience,
    {
        match step {
            CreateStepView::Finished(result) => (self.released(), result),
            CreateStepView::Ask(state, request) => if patience == 0 {
                (self.released(), Err(arbitrary()))
            } else {
                let (after, reply) = self.answer(request);
                after.run_creation(Creation::next(state, reply), (patience - 1) as nat)
            },
        }
    }

    /// Runs an update until it is over, for at most `patience` requests.
    pub open spec fn run_update(self, step: UpdateStepView, patience: nat) -> (
        Database,
        Result<u128, UpdatePatternErrorView>,
    )
        decreases patience,
    {
        match step {
            UpdateStepView::Finished(result) => (self.released(), result),
            UpdateStepView::Ask(state, request) => if patience == 0 {
                (self.released(), Err(arbitrary()))
            } else {
                let (after, reply) = self.answer(request);
                after.run_update(Update::next(state, reply), (patience - 1) as nat)
            },
        }
    }

    /// Runs a deletion until it is over, for at most `patience` requests.
    pub open spec fn run_deletion(self, step: DeleteStepView, patience: nat) -> (
        Database,
        Result<(), DeletePatternError>,
    )
        decreases patience,
    {
        match step {
            DeleteStepView::Finished(result) => (self.released(), result),
            DeleteStepView::Ask(state, request) => if patience == 0 {
                (self.released(), Err(arbitrary()))
            } else {
                let (after, reply) = self.answer(request);
                after.run_deletion(Deletion::next(state, reply), (patience - 1) as nat)
            },
        }
    }

    /// Runs a reading until it is over, for at most `patience` requests.
    pub open spec fn run_fetch(self, step: FetchStepView, patience: nat) -> (
        Database,
        Result<TB303PatternView, GetPatternError>,
    )
        decreases patience,
    {
        match step {
            FetchStepView::Finished(result) => (self.released(), result),
            FetchStepView::Ask(state, request) => if patience == 0 {
                (self.released(), Err(arbitrary()))
            } else {
                let (after, reply) = self.answer(request);
                after.run_fetch(Fetch::next(state, reply), (patience - 1) as nat)
            },
        }
    }

    /// Creates a pattern from the rows that store it.
    pub open spec fn create(self, row: PatternRowView, steps: Seq<StepRowView>) -> (
        Database,
        Result<u128, CreatePatternErrorView>,
    ) {
        self.run_creation(
            CreateStepView::Ask(CreationView::Starting { row, steps }, RequestView::Begin),
            4,
        )
    }

    /// Replaces a pattern by what the plan holds.
    pub open spec fn update(self, plan: ReplacementView) -> (
        Database,
        Result<u128, UpdatePatternErrorView>,
    ) {
        self.run_update(UpdateStepView::Ask(UpdateView::Starting(plan), RequestView::Begin), 6)
    }

    /// Deletes the pattern `pattern_id` on behalf of `user_id`.
    pub open spec fn delete(self, user_id: u128, pattern_id: u128) -> (
        Database,
        Result<(), DeletePatternError>,
    ) {
        self.run_deletion(
            DeleteStepView::Ask(
                Deletion { stage: DeleteStage::ReadingOwner, pattern_id, user_id },
                RequestView::SelectOwner { pattern_id },
            ),
            5,
        )
    }

    /// Reads the pattern `pattern_id` with its steps.
    pub open spec fn fetch(self, pattern_id: u128) -> Result<TB303PatternView, GetPatternError> {
        self.run_fetch(
            FetchStepView::Ask(
                FetchView::ReadingPattern { pattern_id },
                RequestView::SelectPattern { pattern_id },
            ),
            2,
        ).1
    }

    /// Reads one public pattern picked at random.
    pub open spec fn fetch_random(self) -> Result<TB303PatternView, GetPatternError> {
        self.run_fetch(FetchStepView::Ask(FetchView::Picking, RequestView::SelectRandomPublic), 3).1
    }

    /// Lists the patterns of an owner.
    pub open spec fn list(self, user_id: u128) -> Result<
        Seq<TB303PatternSummaryView>,
        ListPatternsError,
    > {
        listed(self.answer(RequestView::SelectSummaries { user_id }).1)
    }
}

} // verus!
