//! What holds of the store on every database, proved against the model.

use crate::domain::new_tb303_pattern::PatternView;
use crate::models::TB303PatternView;
use crate::store::create::{store_steps, stored_pattern};
use crate::store::errors::{
    CreatePatternErrorView, DeletePatternError, GetPatternError, UpdatePatternErrorView,
};
use crate::store::get::{assembled, read_step};
use crate::store::list::summary_of;
use crate::store::model::{by_newest, by_number, Database, Tables};
use crate::store::order::{
    lemma_filter_all, lemma_filter_members, lemma_filter_none, lemma_filter_twice,
    lemma_ordered_by_key, lemma_ordered_run, ordered_by_key,
};
use crate::store::rows::{stored_fields, PatternFieldsView, PatternRowView, StepRowView};
use crate::store::update::ReplacementView;
use vstd::prelude::*;

verus! {

/// Deleting the step rows of a pattern leaves none of them, keeps every other
/// step row, and keeps the tables consistent.
pub proof fn lemma_without_steps(tables: Tables, pattern_id: u128)
    ensures
        tables.without_steps_of(pattern_id).steps_of(pattern_id) == Seq::<StepRowView>::empty(),
        tables.consistent() ==> tables.without_steps_of(pattern_id).consistent(),
        forall|i: int|
            0 <= i < tables.without_steps_of(pattern_id).steps.len() ==> {
                &&& (#[trigger] tables.without_steps_of(pattern_id).steps[i]).pattern_id
                    != pattern_id
                &&& tables.steps.contains(tables.without_steps_of(pattern_id).steps[i])
            },
{
    let others = |row: StepRowView| row.pattern_id != pattern_id;
    let own = |row: StepRowView| row.pattern_id == pattern_id;
    lemma_filter_members(tables.steps, others);
    lemma_filter_none(tables.steps.filter(others), own);
}

/// A creation under an identifier that is not in use writes the header row and
/// the step rows, and reports the identifier.
pub proof fn lemma_creation_writes(db: Database, row: PatternRowView, steps: Seq<StepRowView>)
    requires
        db.pending is None,
        !db.committed.patterns.contains_key(row.pattern_id),
        forall|i: int| 0 <= i < steps.len() ==> (#[trigger] steps[i]).pattern_id == row.pattern_id,
    ensures
        db.create(row, steps) == (
            Database::at_rest(
                Tables {
                    patterns: db.committed.patterns.insert(row.pattern_id, row),
                    steps: db.committed.steps + steps,
                },
            ),
            Ok::<_, CreatePatternErrorView>(row.pattern_id),
        ),
{
    reveal_with_fuel(Database::run_creation, 5);
}

/// The header row that an update leaves: the new columns and the time of the
/// update, under the identifier, the owner and the time of creation of the old row.
pub open spec fn renewed_row(old: PatternRowView, plan: ReplacementView) -> PatternRowView {
    PatternRowView {
        pattern_id: old.pattern_id,
        user_id: old.user_id,
        fields: plan.fields,
        created_at: old.created_at,
        updated_at: plan.updated_at,
    }
}

/// An update of a pattern that its owner has overwrites the header row and
/// puts the new step rows in the place of the old; any other update fails
/// with `PatternNotFound` and writes nothing.
pub proof fn lemma_update_writes(db: Database, plan: ReplacementView)
    requires
        db.pending is None,
        forall|i: int|
            0 <= i < plan.steps.len() ==> (#[trigger] plan.steps[i]).pattern_id == plan.pattern_id,
    ensures
        db.update(plan) == if db.committed.owns(plan.user_id, plan.pattern_id) {
            (
                Database::at_rest(
                    Tables {
                        patterns: db.committed.patterns.insert(
                            plan.pattern_id,
                            renewed_row(db.committed.patterns[plan.pattern_id], plan),
                        ),
                        steps: db.committed.without_steps_of(plan.pattern_id).steps + plan.steps,
                    },
                ),
                Ok::<_, UpdatePatternErrorView>(plan.pattern_id),
            )
        } else {
            (db, Err(UpdatePatternErrorView::PatternNotFound(plan.pattern_id)))
        },
{
    reveal_with_fuel(Database::run_update, 7);
}

/// A deletion by the owner leaves the tables without the header row and
/// without the step rows of the pattern.
pub proof fn lemma_deletion_writes(db: Database, user_id: u128, pattern_id: u128)
    requires
        db.pending is None,
        db.committed.owns(user_id, pattern_id),
    ensures
        db.delete(user_id, pattern_id) == (
            Database::at_rest(
                Tables {
                    patterns: db.committed.patterns.remove(pattern_id),
                    steps: db.committed.without_steps_of(pattern_id).steps,
                },
            ),
            Ok::<(), DeletePatternError>(()),
        ),
{
    reveal_with_fuel(Database::run_deletion, 6);
    let cleared = db.committed.without_steps_of(pattern_id);
    let others = |r: StepRowView| r.pattern_id != pattern_id;
    lemma_filter_all(cleared.steps, others);
}

/// Reading a pattern fails with `PatternNotFound` where there is no header
/// row; else it gives the header row with the step rows of the pattern,
/// ascending by number.
pub proof fn lemma_fetch_reads(db: Database, pattern_id: u128)
    requires
        db.pending is None,
    ensures
        db.fetch(pattern_id) == if db.committed.patterns.contains_key(pattern_id) {
            Ok::<_, GetPatternError>(
                assembled(
                    db.committed.patterns[pattern_id],
                    ordered_by_key(
                        db.committed.steps_of(pattern_id),
                        by_number(),
                        db.committed.steps_of(pattern_id).len() as int,
                    ),
                ),
            )
        } else {
            Err(GetPatternError::PatternNotFound(pattern_id))
        },
{
    reveal_with_fuel(Database::run_fetch, 3);
}

/// What a deletion comes to. It fails with `PatternNotFound` where there is
/// no such pattern and with `AccessDenied` where the pattern belongs to
/// someone else, and then changes nothing. Otherwise it succeeds: the pattern
/// and its steps are gone, and every other pattern is as it was.
pub proof fn lemma_delete(db: Database, user_id: u128, pattern_id: u128)
    requires
        db.pending is None,
    ensures
        ({
            let (after, result) = db.delete(user_id, pattern_id);
            let tables = db.committed;
            &&& after.pending is None
            &&& result == if !tables.patterns.contains_key(pattern_id) {
                Err::<(), _>(DeletePatternError::PatternNotFound(pattern_id))
            } else if tables.patterns[pattern_id].user_id != user_id {
                Err(DeletePatternError::AccessDenied)
            } else {
                Ok(())
            }
            &&& result is Err ==> after == db
            &&& result is Ok ==> {
                &&& after.committed.patterns == tables.patterns.remove(pattern_id)
                &&& after.committed.steps_of(pattern_id) == Seq::<StepRowView>::empty()
                &&& tables.consistent() ==> after.committed.consistent()
            }
        }),
{
    reveal_with_fuel(Database::run_deletion, 6);
    let tables = db.committed;
    lemma_without_steps(tables, pattern_id);
    let cleared = tables.without_steps_of(pattern_id);
    if tables.owns(user_id, pattern_id) {
        let others = |row: StepRowView| row.pattern_id != pattern_id;
        lemma_filter_all(cleared.steps, others);
    }
}

/// Deleting a pattern twice succeeds once: the second deletion finds nothing
/// and says `PatternNotFound`, never `AccessDenied`.
pub proof fn lemma_delete_twice(db: Database, user_id: u128, pattern_id: u128)
    requires
        db.pending is None,
    ensures
        db.delete(user_id, pattern_id).1 is Ok ==> db.delete(user_id, pattern_id).0.delete(
            user_id,
            pattern_id,
        ).1 == Err::<(), _>(DeletePatternError::PatternNotFound(pattern_id)),
{
    lemma_delete(db, user_id, pattern_id);
    lemma_delete(db.delete(user_id, pattern_id).0, user_id, pattern_id);
}

/// The submitted columns that a pattern read back shows.
pub open spec fn fields_read(pattern: TB303PatternView) -> PatternFieldsView {
    PatternFieldsView {
        name: pattern.name,
        author: pattern.author,
        title: pattern.title,
        description: pattern.description,
        waveform: pattern.waveform,
        triplets: pattern.triplets,
        tempo: pattern.tempo,
        tuning: pattern.tuning,
        cut_off_freq: pattern.cut_off_freq,
        resonance: pattern.resonance,
        env_mod: pattern.env_mod,
        decay: pattern.decay,
        accent: pattern.accent,
        is_public: pattern.is_public,
    }
}

/// Whatever the database holds, a pattern is read with its steps ascending
/// by number.
pub proof fn lemma_fetch_is_ascending(db: Database, pattern_id: u128)
    requires
        db.pending is None,
    ensures
        db.fetch(pattern_id) matches Ok(pattern) ==> forall|i: int, j: int|
            0 <= i < j < pattern.steps.len() ==> pattern.steps[i].number <= pattern.steps[j].number,
{
    lemma_fetch_reads(db, pattern_id);
    let rows = db.committed.steps_of(pattern_id);
    lemma_ordered_by_key(rows, by_number(), rows.len() as int);
    if db.fetch(pattern_id) is Ok {
        let pattern = db.fetch(pattern_id)->Ok_0;
        let ordered = ordered_by_key(rows, by_number(), rows.len() as int);
        assert forall|i: int, j: int| 0 <= i < j < pattern.steps.len() implies pattern.steps[i].number
            <= pattern.steps[j].number by {
            assert(by_number()(ordered[i]) <= by_number()(ordered[j]));
        }
    }
}

/// A pattern that is created can be read back under the identifier reported,
/// whatever else the database holds. The pattern read back shows every field
/// as it was stored, and the steps ascending by number from 1, whatever the
/// order in which they were submitted: the step numbered `k` is found at
/// position `k - 1`.
pub proof fn lemma_create_then_fetch(
    db: Database,
    p: PatternView,
    user_id: u128,
    row: PatternRowView,
    steps: Seq<StepRowView>,
)
    requires
        db.pending is None,
        db.committed.consistent(),
        p.well_formed(),
        row == stored_pattern(p, user_id, row.pattern_id, row.created_at),
        store_steps(steps, row.pattern_id, p.steps),
        !db.committed.patterns.contains_key(row.pattern_id),
    ensures
        ({
            let (after, created) = db.create(row, steps);
            &&& created == Ok::<_, CreatePatternErrorView>(row.pattern_id)
            &&& after.pending is None
            &&& after.committed.consistent()
            &&& after.committed.owns(user_id, row.pattern_id)
            &&& after.fetch(row.pattern_id) matches Ok(pattern)
            &&& pattern.id == Some(row.pattern_id)
            &&& fields_read(pattern) == stored_fields(p)
            &&& pattern.created_at == Some(row.created_at)
            &&& pattern.steps.len() == p.steps.len()
            &&& forall|k: int|
                0 <= k < pattern.steps.len() ==> (#[trigger] pattern.steps[k]).number == k + 1
            &&& forall|i: int|
                0 <= i < p.steps.len() ==> pattern.steps[p.steps[i].number - 1] == read_step(
                    #[trigger] steps[i],
                )
        }),
{
    let tables = db.committed;
    let id = row.pattern_id;
    let own = |r: StepRowView| r.pattern_id == id;
    let last = Tables { patterns: tables.patterns.insert(id, row), steps: tables.steps + steps };
    lemma_creation_writes(db, row, steps);
    let (after, created) = db.create(row, steps);
    lemma_fetch_reads(after, id);
    assert(last.steps_of(id) == steps) by {
        lemma_filter_none(tables.steps, own);
        lemma_filter_all(steps, own);
    }
    lemma_ordered_run(steps, by_number());
}

/// What an update comes to. Where the owner has no such pattern it fails with
/// `PatternNotFound` and changes nothing, whether the pattern is missing or
/// belongs to someone else. Otherwise it succeeds: the header row holds the new
/// columns and the time of the update under the same owner and time of
/// creation, and the steps of the pattern are exactly the new ones.
pub proof fn lemma_update(db: Database, plan: ReplacementView)
    requires
        db.pending is None,
        forall|i: int|
            0 <= i < plan.steps.len() ==> (#[trigger] plan.steps[i]).pattern_id == plan.pattern_id,
    ensures
        ({
            let (after, result) = db.update(plan);
            let tables = db.committed;
            let id = plan.pattern_id;
            &&& after.pending is None
            &&& !tables.owns(plan.user_id, id) ==> {
                &&& result == Err::<u128, _>(UpdatePatternErrorView::PatternNotFound(id))
                &&& after == db
            }
            &&& tables.owns(plan.user_id, id) ==> {
                &&& result == Ok::<_, UpdatePatternErrorView>(id)
                &&& after.committed.patterns == tables.patterns.insert(
                    id,
                    renewed_row(tables.patterns[id], plan),
                )
                &&& after.committed.steps_of(id) == plan.steps
                &&& tables.consistent() ==> after.committed.consistent()
            }
        }),
{
    let tables = db.committed;
    let id = plan.pattern_id;
    lemma_update_writes(db, plan);
    if tables.owns(plan.user_id, id) {
        let renewed = Tables {
            patterns: tables.patterns.insert(id, renewed_row(tables.patterns[id], plan)),
            steps: tables.steps,
        };
        lemma_without_steps(renewed, id);
        let own = |r: StepRowView| r.pattern_id == id;
        lemma_filter_all(plan.steps, own);
    }
}

/// A pattern that is replaced is read back as the replacement: the new
/// columns under the old owner and time of creation, and the new steps
/// ascending by number from 1.
pub proof fn lemma_update_then_fetch(db: Database, plan: ReplacementView, p: PatternView)
    requires
        db.pending is None,
        db.committed.consistent(),
        db.committed.owns(plan.user_id, plan.pattern_id),
        p.well_formed(),
        plan.replaces(plan.pattern_id, plan.user_id, p),
    ensures
        ({
            let (after, updated) = db.update(plan);
            &&& updated == Ok::<_, UpdatePatternErrorView>(plan.pattern_id)
            &&& after.committed.owns(plan.user_id, plan.pattern_id)
            &&& after.fetch(plan.pattern_id) matches Ok(pattern)
            &&& pattern.id == Some(plan.pattern_id)
            &&& fields_read(pattern) == stored_fields(p)
            &&& pattern.created_at == Some(db.committed.patterns[plan.pattern_id].created_at)
            &&& pattern.updated_at == Some(plan.updated_at)
            &&& pattern.steps.len() == p.steps.len()
            &&& forall|k: int|
                0 <= k < pattern.steps.len() ==> (#[trigger] pattern.steps[k]).number == k + 1
            &&& forall|i: int|
                0 <= i < p.steps.len() ==> pattern.steps[p.steps[i].number - 1] == read_step(
                    #[trigger] plan.steps[i],
                )
        }),
{
    let steps = plan.steps;
    let id = plan.pattern_id;
    lemma_update(db, plan);
    let (after, updated) = db.update(plan);
    lemma_fetch_reads(after, id);
    lemma_ordered_run(steps, by_number());
}

/// A creation or an update that does not succeed leaves every committed row
/// as it was.
pub proof fn lemma_failed_write_changes_nothing(
    db: Database,
    row: PatternRowView,
    steps: Seq<StepRowView>,
    plan: ReplacementView,
)
    requires
        db.pending is None,
    ensures
        db.create(row, steps).1 is Err ==> db.create(row, steps).0 == db,
        db.update(plan).1 is Err ==> db.update(plan).0 == db,
{
    assert(db.create(row, steps).1 is Err ==> db.create(row, steps).0 == db) by {
        reveal_with_fuel(Database::run_creation, 5);
    }
    assert(db.update(plan).1 is Err ==> db.update(plan).0 == db) by {
        reveal_with_fuel(Database::run_update, 7);
    }
}

/// Whether two databases hold the same header row, or none, and the same
/// step rows for a pattern.
pub open spec fn same_pattern(before: Database, after: Database, pattern_id: u128) -> bool {
    &&& before.committed.patterns.contains_key(pattern_id)
        == after.committed.patterns.contains_key(pattern_id)
    &&& before.committed.patterns.contains_key(pattern_id) ==> before.committed.patterns[pattern_id]
        == after.committed.patterns[pattern_id]
    &&& before.committed.steps_of(pattern_id) == after.committed.steps_of(pattern_id)
}

/// The header row and the step rows of a pattern are left as they are by
/// every creation, update and deletion of another pattern.
pub proof fn lemma_writes_leave_other_patterns(
    db: Database,
    row: PatternRowView,
    steps: Seq<StepRowView>,
    plan: ReplacementView,
    user_id: u128,
    pattern_id: u128,
    other: u128,
)
    requires
        db.pending is None,
        forall|i: int| 0 <= i < steps.len() ==> (#[trigger] steps[i]).pattern_id == row.pattern_id,
        forall|i: int|
            0 <= i < plan.steps.len() ==> (#[trigger] plan.steps[i]).pattern_id == plan.pattern_id,
    ensures
        other != row.pattern_id ==> same_pattern(db, db.create(row, steps).0, other),
        other != plan.pattern_id ==> same_pattern(db, db.update(plan).0, other),
        other != pattern_id ==> same_pattern(db, db.delete(user_id, pattern_id).0, other),
{
    let tables = db.committed;
    let pick = |r: StepRowView| r.pattern_id == other;
    if other != row.pattern_id {
        lemma_failed_write_changes_nothing(db, row, steps, plan);
        if db.create(row, steps).1 is Ok {
            if tables.patterns.contains_key(row.pattern_id) {
                assert(db.create(row, steps).1 is Err) by {
                    reveal_with_fuel(Database::run_creation, 5);
                }
            }
            lemma_creation_writes(db, row, steps);
            lemma_filter_none(steps, pick);
        }
    }
    if other != plan.pattern_id {
        lemma_update_writes(db, plan);
        if tables.owns(plan.user_id, plan.pattern_id) {
            let keep = |r: StepRowView| r.pattern_id != plan.pattern_id;
            lemma_filter_twice(tables.steps, keep, pick);
            lemma_filter_none(plan.steps, pick);
        }
    }
    if other != pattern_id {
        lemma_delete(db, user_id, pattern_id);
        if db.delete(user_id, pattern_id).1 is Ok {
            let keep = |r: StepRowView| r.pattern_id != pattern_id;
            lemma_deletion_writes(db, user_id, pattern_id);
            lemma_filter_twice(tables.steps, keep, pick);
        }
    }
}

/// Picking a public pattern at random fails with `NoPatterns` exactly where
/// no pattern is flagged public, however many private ones there are; where it
/// succeeds, the pattern read is flagged public.
pub proof fn lemma_random_pick(db: Database)
    requires
        db.pending is None,
    ensures
        (forall|id: u128| !db.committed.is_public(id)) ==> db.fetch_random() == Err::<
            TB303PatternView,
            _,
        >(GetPatternError::NoPatterns),
        (exists|id: u128| db.committed.is_public(id)) ==> (db.fetch_random() matches Ok(pattern)
            && pattern.is_public == Some(true)),
{
    reveal_with_fuel(Database::run_fetch, 4);
}

/// A listing shows the patterns of its owner and no others: every pattern
/// listed has a header row that belongs to the owner, and every header row of
/// the owner is listed, in every state of the database. The newest comes first.
pub proof fn lemma_listing_is_the_owners(db: Database, user_id: u128)
    requires
        db.committed.consistent(),
        db.pending is None,
    ensures
        db.list(user_id) matches Ok(list) ==> {
            &&& forall|i: int|
                0 <= i < list.len() ==> db.committed.owns(user_id, (#[trigger] list[i]).pattern_id)
            &&& forall|id: u128|
                db.committed.owns(user_id, id) ==> exists|i: int|
                    0 <= i < list.len() && (#[trigger] list[i]).pattern_id == id
            &&& forall|i: int, j: int|
                0 <= i < j < list.len() ==> list[i].created_at.micros >= list[j].created_at.micros
        },
{
    let tables = db.committed;
    let owned = tables.owned_by(user_id);
    vstd::set_lib::lemma_len_subset(owned, tables.patterns.dom());
    owned.lemma_to_seq_to_set_id();
    let ids = owned.to_seq();
    let rows = Seq::new(ids.len(), |i: int| tables.summary(ids[i]));
    let ordered = ordered_by_key(rows, by_newest(), rows.len() as int);
    lemma_ordered_by_key(rows, by_newest(), rows.len() as int);
    if db.list(user_id) is Ok {
        let list = db.list(user_id)->Ok_0;
        assert forall|i: int| 0 <= i < list.len() implies tables.owns(
            user_id,
            (#[trigger] list[i]).pattern_id,
        ) by {
            assert(ordered.contains(ordered[i]));
            let k = choose|k: int| 0 <= k < rows.len() && rows[k] == ordered[i];
            assert(ids.to_set().contains(ids[k]));
        }
        assert forall|id: u128| tables.owns(user_id, id) implies exists|i: int|
            0 <= i < list.len() && (#[trigger] list[i]).pattern_id == id by {
            assert(owned.contains(id));
            let k = choose|k: int| 0 <= k < ids.len() && ids[k] == id;
            let i = choose|i: int| 0 <= i < ordered.len() && ordered[i] == rows[k];
            assert(list[i] == summary_of(ordered[i]));
        }
    }
}

/// A pattern that one user creates never shows in the listing of another,
/// whatever both have created before.
pub proof fn lemma_listing_leaves_out_others(
    db: Database,
    row: PatternRowView,
    steps: Seq<StepRowView>,
    lister: u128,
)
    requires
        db.pending is None,
        db.committed.consistent(),
        !db.committed.patterns.contains_key(row.pattern_id),
        forall|i: int| 0 <= i < steps.len() ==> (#[trigger] steps[i]).pattern_id == row.pattern_id,
        row.user_id != lister,
    ensures
        db.create(row, steps).1 is Ok,
        db.create(row, steps).0.list(lister) matches Ok(list) ==> forall|i: int|
            0 <= i < list.len() ==> (#[trigger] list[i]).pattern_id != row.pattern_id,
{
    lemma_creation_writes(db, row, steps);
    let after = db.create(row, steps).0;
    let last = after.committed;
    assert(last.consistent()) by {
        assert forall|i: int| 0 <= i < last.steps.len() implies last.patterns.contains_key(
            (#[trigger] last.steps[i]).pattern_id,
        ) by {
            if i < db.committed.steps.len() {
                assert(last.steps[i] == db.committed.steps[i]);
            } else {
                assert(last.steps[i] == steps[i - db.committed.steps.len()]);
            }
        }
    }
    lemma_listing_is_the_owners(after, lister);
}

} // verus!
