use acid::domain::{Note, Time, Transpose, Waveform};
use acid::ids::id_to_string;
use acid::models::{CreateTB303Pattern, CreateTB303Step, TB303Pattern, TB303PatternSummary};
use acid::store::create::{
    create_tb303_pattern, insert_pattern, insert_steps_tb303, pattern_row, CreateStep, Creation,
};
use acid::store::delete::{delete_tb303_pattern, DeleteStage, DeleteStep, Deletion};
use acid::store::errors::{
    CreatePatternError, DeletePatternError, GetPatternError, ListPatternsError, UpdatePatternError,
};
use acid::store::get::{
    assemble, fetch_pattern_by_id, get_random_tb303_pattern, Fetch, FetchStep,
};
use acid::store::list::{fetch_pattern_list, list_tb303_patterns};
use acid::store::protocol::{Fault, Reply, Request, SummaryRow};
use acid::store::rows::{step_row, PatternFields, PatternRow, StepRow, Timestamp};
use acid::store::update::{update_tb303_pattern, Update, UpdateStep};

const ALICE: u128 = 0x11111111_1111_4111_8111_111111111111;
const BOB: u128 = 0x22222222_2222_4222_8222_222222222222;
const NOWHERE: u128 = 0x99999999_9999_4999_8999_999999999999;

#[derive(Clone, Default)]
struct Tables {
    patterns: Vec<PatternRow>,
    steps: Vec<StepRow>,
}

/// A database in memory that answers the requests of the store.
#[derive(Default)]
struct Database {
    committed: Tables,
    pending: Option<Tables>,
    requests: Vec<String>,
}

impl Database {
    fn answer(&mut self, request: Request) -> Reply {
        self.requests.push(format!("{:?}", request).split([' ', '(']).next().unwrap().to_string());
        match request {
            Request::Begin => {
                self.pending = Some(self.committed.clone());
                return Reply::Done;
            }
            Request::Commit => {
                self.committed = self.pending.take().unwrap();
                return Reply::Done;
            }
            _ => {}
        }
        let tables = match self.pending.as_mut() {
            Some(tables) => tables,
            None => &mut self.committed,
        };
        match request {
            Request::Begin | Request::Commit => unreachable!(),
            Request::InsertPattern(row) => {
                if tables.patterns.iter().any(|held| held.pattern_id == row.pattern_id) {
                    return Reply::Failed;
                }
                tables.patterns.push(row);
                Reply::Done
            }
            Request::InsertSteps(rows) => {
                tables.steps.extend(rows);
                Reply::Done
            }
            Request::CheckOwned { pattern_id, user_id } => Reply::Exists(
                tables
                    .patterns
                    .iter()
                    .any(|row| row.pattern_id == pattern_id && row.user_id == user_id),
            ),
            Request::UpdatePattern { pattern_id, fields, updated_at } => {
                for row in tables.patterns.iter_mut() {
                    if row.pattern_id == pattern_id {
                        row.fields = fields.clone();
                        row.updated_at = updated_at;
                    }
                }
                Reply::Done
            }
            Request::DeleteSteps { pattern_id } => {
                tables.steps.retain(|row| row.pattern_id != pattern_id);
                Reply::Done
            }
            Request::DeleteOwnedPattern { pattern_id, user_id } => {
                let before = tables.patterns.len();
                tables
                    .patterns
                    .retain(|row| !(row.pattern_id == pattern_id && row.user_id == user_id));
                Reply::Affected((before - tables.patterns.len()) as u64)
            }
            Request::SelectOwner { pattern_id } => Reply::Owner(
                tables
                    .patterns
                    .iter()
                    .find(|row| row.pattern_id == pattern_id)
                    .map(|row| row.user_id),
            ),
            Request::SelectPattern { pattern_id } => Reply::Pattern(
                tables.patterns.iter().find(|row| row.pattern_id == pattern_id).cloned(),
            ),
            Request::SelectSteps { pattern_id } => {
                let mut rows: Vec<StepRow> = tables
                    .steps
                    .iter()
                    .filter(|row| row.pattern_id == pattern_id)
                    .cloned()
                    .collect();
                rows.sort_by_key(|row| row.number);
                Reply::Steps(rows)
            }
            Request::SelectRandomPublic => Reply::Picked(
                tables
                    .patterns
                    .iter()
                    .find(|row| row.fields.is_public == Some(true))
                    .map(|row| row.pattern_id),
            ),
            Request::SelectSummaries { user_id } => {
                let mut rows: Vec<SummaryRow> = tables
                    .patterns
                    .iter()
                    .filter(|row| row.user_id == user_id)
                    .map(|row| SummaryRow {
                        pattern_id: row.pattern_id,
                        name: row.fields.name.clone(),
                        author: row.fields.author.clone(),
                        title: row.fields.title.clone(),
                        is_public: row.fields.is_public,
                        created_at: row.created_at,
                        updated_at: row.updated_at,
                    })
                    .collect();
                rows.sort_by_key(|row| std::cmp::Reverse(row.created_at.micros));
                Reply::Summaries(rows)
            }
        }
    }

    fn release(&mut self) {
        self.pending = None;
    }

    fn create(&mut self, pattern: CreateTB303Pattern, user_id: u128) -> Result<u128, CreatePatternError> {
        let (mut state, mut request) = create_tb303_pattern(pattern, user_id)?;
        loop {
            let reply = self.answer(request);
            match state.advance(reply) {
                CreateStep::Ask(next, asked) => {
                    state = next;
                    request = asked;
                }
                CreateStep::Finished(result) => {
                    self.release();
                    return result;
                }
            }
        }
    }

    fn update(
        &mut self,
        pattern_id: u128,
        pattern: CreateTB303Pattern,
        user_id: u128,
    ) -> Result<u128, UpdatePatternError> {
        let (mut state, mut request) = update_tb303_pattern(pattern_id, pattern, user_id)?;
        loop {
            let reply = self.answer(request);
            match state.advance(reply) {
                UpdateStep::Ask(next, asked) => {
                    state = next;
                    request = asked;
                }
                UpdateStep::Finished(result) => {
                    self.release();
                    return result;
                }
            }
        }
    }

    fn delete(&mut self, pattern_id: u128, user_id: u128) -> Result<(), DeletePatternError> {
        let (mut state, mut request) = delete_tb303_pattern(pattern_id, user_id);
        loop {
            let reply = self.answer(request);
            match state.advance(reply) {
                DeleteStep::Ask(next, asked) => {
                    state = next;
                    request = asked;
                }
                DeleteStep::Finished(result) => {
                    self.release();
                    return result;
                }
            }
        }
    }

    fn read(&mut self, begun: (Fetch, Request)) -> Result<TB303Pattern, GetPatternError> {
        let (mut state, mut request) = begun;
        loop {
            let reply = self.answer(request);
            match state.advance(reply) {
                FetchStep::Ask(next, asked) => {
                    state = next;
                    request = asked;
                }
                FetchStep::Finished(result) => return result,
            }
        }
    }

    fn fetch(&mut self, pattern_id: u128) -> Result<TB303Pattern, GetPatternError> {
        self.read(fetch_pattern_by_id(pattern_id))
    }

    fn fetch_random(&mut self) -> Result<TB303Pattern, GetPatternError> {
        self.read(get_random_tb303_pattern())
    }

    fn list(&mut self, user_id: u128) -> Result<Vec<TB303PatternSummary>, ListPatternsError> {
        let reply = self.answer(list_tb303_patterns(user_id));
        fetch_pattern_list(&reply)
    }
}

fn step(number: i32, time: Time, note: Option<Note>, transpose: Option<Transpose>) -> CreateTB303Step {
    CreateTB303Step { number, note, transpose, time, accent: None, slide: None }
}

fn sketch(title: &str, numbers: &[i32], is_public: Option<bool>) -> CreateTB303Pattern {
    CreateTB303Pattern {
        name: format!("Sketch {}", title),
        author: None,
        title: Some(title.to_string()),
        description: None,
        tempo: None,
        waveform: None,
        triplets: None,
        tuning: None,
        cut_off_freq: None,
        resonance: None,
        env_mod: None,
        decay: None,
        accent: None,
        is_public,
        steps: numbers.iter().map(|n| step(*n, Time::Note, Some(Note::C), None)).collect(),
    }
}

fn humanoid(is_public: Option<bool>) -> CreateTB303Pattern {
    let low = |number: i32, note: Note| step(number, Time::Note, Some(note), Some(Transpose::Down));
    let high = |number: i32, note: Note| step(number, Time::Note, Some(note), None);
    let tied = |number: i32| step(number, Time::Tied, None, None);
    let mut steps = vec![
        high(1, Note::D),
        high(2, Note::D),
        low(3, Note::B),
        tied(4),
        low(5, Note::B),
        low(6, Note::B),
        tied(7),
        low(8, Note::B),
        low(9, Note::D),
        high(10, Note::D),
        low(11, Note::B),
        high(12, Note::D),
        tied(13),
        low(14, Note::B),
        high(15, Note::F),
        tied(16),
    ];
    steps[4].slide = Some(true);
    steps[5].accent = Some(true);
    steps[5].slide = Some(true);
    CreateTB303Pattern {
        name: "Pattern 1".to_string(),
        author: Some("Humanoind".to_string()),
        title: Some("Stakker humanoid".to_string()),
        description: Some(
            "This is a demo pattern for the TB-303. It's a classic acid house pattern.".to_string(),
        ),
        tempo: Some(130),
        waveform: Some(Waveform::Sawtooth),
        triplets: Some(true),
        tuning: Some(60),
        cut_off_freq: Some(10),
        resonance: Some(20),
        env_mod: Some(30),
        decay: Some(40),
        accent: Some(50),
        is_public,
        steps,
    }
}

fn text(value: &str) -> Option<String> {
    Some(value.to_string())
}

#[test]
fn a_created_pattern_is_read_back_with_its_steps_in_order() {
    let mut db = Database::default();
    let id = db.create(humanoid(Some(true)), ALICE).unwrap();
    assert_eq!(db.requests, ["Begin", "InsertPattern", "InsertSteps", "Commit"]);
    assert!(db.pending.is_none());
    assert_eq!(db.committed.patterns.len(), 1);
    assert_eq!(db.committed.patterns[0].user_id, ALICE);
    assert_eq!(db.committed.steps.len(), 16);

    let pattern = db.fetch(id).unwrap();
    assert_eq!(pattern.id, Some(id));
    assert_eq!(pattern.name, "Pattern 1");
    assert_eq!(pattern.author, text("Humanoind"));
    assert_eq!(pattern.title, text("Stakker humanoid"));
    assert_eq!(
        pattern.description,
        text("This is a demo pattern for the TB-303. It's a classic acid house pattern.")
    );
    assert_eq!(pattern.waveform, text("sawtooth"));
    assert_eq!(pattern.triplets, Some(true));
    assert_eq!(pattern.tempo, Some(130));
    assert_eq!(pattern.cut_off_freq, Some(10));
    assert_eq!(pattern.resonance, Some(20));
    assert_eq!(pattern.env_mod, Some(30));
    assert_eq!(pattern.decay, Some(40));
    assert_eq!(pattern.accent, Some(50));
    assert_eq!(pattern.tuning, Some(60));
    assert_eq!(pattern.is_public, Some(true));
    assert_eq!(pattern.created_at, pattern.updated_at);
    assert!(pattern.created_at.is_some());

    assert_eq!(pattern.steps.len(), 16);
    let numbers: Vec<i32> = pattern.steps.iter().map(|step| step.number).collect();
    assert_eq!(numbers, (1..=16).collect::<Vec<i32>>());
    let step1 = &pattern.steps[0];
    assert_eq!(step1.note, text("D"));
    assert_eq!(step1.time, text("note"));
    assert_eq!(step1.accent, Some(false));
    assert_eq!(step1.slide, Some(false));
    let step6 = &pattern.steps[5];
    assert_eq!(step6.number, 6);
    assert_eq!(step6.note, text("B"));
    assert_eq!(step6.transpose, text("down"));
    assert_eq!(step6.time, text("note"));
    assert_eq!(step6.accent, Some(true));
    assert_eq!(step6.slide, Some(true));
    let step7 = &pattern.steps[6];
    assert_eq!(step7.number, 7);
    assert_eq!(step7.note, None);
    assert_eq!(step7.time, text("tied"));
    for tie in [4, 7, 13, 16] {
        assert_eq!(pattern.steps[tie - 1].time, text("tied"));
        assert_eq!(pattern.steps[tie - 1].note, None);
    }
}

#[test]
fn steps_submitted_out_of_order_are_read_back_ascending() {
    let mut db = Database::default();
    let mut pattern = sketch("shuffled", &[3, 1, 4, 2], None);
    pattern.steps[0].note = Some(Note::E);
    pattern.steps[1].note = Some(Note::FSharp);
    pattern.steps[2].note = Some(Note::Chigh);
    pattern.steps[3].note = Some(Note::ASharp);
    let id = db.create(pattern, ALICE).unwrap();
    let stored: Vec<i32> = db.committed.steps.iter().map(|row| row.number).collect();
    assert_eq!(stored, [3, 1, 4, 2]);
    let read = db.fetch(id).unwrap();
    let numbers: Vec<i32> = read.steps.iter().map(|step| step.number).collect();
    assert_eq!(numbers, [1, 2, 3, 4]);
    let notes: Vec<Option<String>> = read.steps.iter().map(|step| step.note.clone()).collect();
    assert_eq!(notes, [text("F#"), text("A#"), text("E"), text("Chigh")]);
}

#[test]
fn what_a_pattern_leaves_out_is_read_back_with_its_default() {
    let mut db = Database::default();
    let id = db.create(sketch("bare", &[1], None), ALICE).unwrap();
    let read = db.fetch(id).unwrap();
    assert_eq!(read.author, None);
    assert_eq!(read.description, None);
    assert_eq!(read.waveform, None);
    assert_eq!(read.tempo, None);
    assert_eq!(read.triplets, Some(false));
    assert_eq!(read.is_public, Some(false));
    assert_eq!(read.tuning, Some(0));
    assert_eq!(read.cut_off_freq, Some(0));
    assert_eq!(read.resonance, Some(0));
    assert_eq!(read.env_mod, Some(0));
    assert_eq!(read.decay, Some(0));
    assert_eq!(read.accent, Some(0));
    assert_eq!(read.steps[0].accent, Some(false));
    assert_eq!(read.steps[0].slide, Some(false));
    assert_eq!(read.steps[0].transpose, None);
}

#[test]
fn a_submission_with_a_duplicate_step_is_not_created() {
    let mut db = Database::default();
    let mut pattern = sketch("twice", &[1, 1], None);
    pattern.steps[1].note = Some(Note::D);
    let error = db.create(pattern, ALICE).unwrap_err();
    assert_eq!(error, CreatePatternError::ValidationError("Duplicate step number: 1".to_string()));
    assert_eq!(error.status_code(), 400);
    assert_eq!(error.to_string(), "Duplicate step number: 1");
    assert!(db.requests.is_empty());
    assert!(db.committed.patterns.is_empty());
}

#[test]
fn each_creation_gets_an_identifier_of_its_own() {
    let mut db = Database::default();
    let first = db.create(sketch("one", &[1], None), ALICE).unwrap();
    let second = db.create(sketch("one", &[1], None), ALICE).unwrap();
    assert_ne!(first, second);
    let ids: Vec<u128> = db.committed.steps.iter().map(|row| row.step_id).collect();
    assert_ne!(ids[0], ids[1]);
    assert_eq!(db.committed.steps[0].pattern_id, first);
    assert_eq!(db.committed.steps[1].pattern_id, second);
}

#[test]
fn deleting_the_pattern_of_another_user_is_denied() {
    let mut db = Database::default();
    let id = db.create(humanoid(None), ALICE).unwrap();
    db.requests.clear();
    let error = db.delete(id, BOB).unwrap_err();
    assert_eq!(error, DeletePatternError::AccessDenied);
    assert_eq!(error.status_code(), 403);
    assert_eq!(
        error.to_string(),
        "Access denied: you don't have permission to delete this pattern"
    );
    assert_eq!(db.requests, ["SelectOwner"]);
    assert_eq!(db.committed.patterns.len(), 1);
    assert_eq!(db.committed.steps.len(), 16);
}

#[test]
fn deleting_twice_succeeds_and_then_finds_nothing() {
    let mut db = Database::default();
    let id = db.create(humanoid(None), ALICE).unwrap();
    let other = db.create(sketch("kept", &[1, 2], None), BOB).unwrap();
    db.requests.clear();
    assert_eq!(db.delete(id, ALICE), Ok(()));
    assert_eq!(
        db.requests,
        ["SelectOwner", "Begin", "DeleteSteps", "DeleteOwnedPattern", "Commit"]
    );
    assert_eq!(db.committed.patterns.len(), 1);
    assert_eq!(db.committed.patterns[0].pattern_id, other);
    assert_eq!(db.committed.steps.len(), 2);
    let again = db.delete(id, ALICE).unwrap_err();
    assert_eq!(again, DeletePatternError::PatternNotFound(id));
    assert_eq!(again.status_code(), 404);
    assert_eq!(again.to_string(), format!("Pattern with ID {} not found", uuid::Uuid::from_u128(id)));
    assert_eq!(db.fetch(id), Err(GetPatternError::PatternNotFound(id)));
}

#[test]
fn deleting_a_pattern_that_does_not_exist_finds_nothing() {
    let mut db = Database::default();
    db.create(humanoid(None), ALICE).unwrap();
    assert_eq!(db.delete(NOWHERE, ALICE), Err(DeletePatternError::PatternNotFound(NOWHERE)));
}

#[test]
fn a_pattern_that_vanished_before_the_deletion_is_not_found() {
    let (state, request) = delete_tb303_pattern(7, ALICE);
    assert_eq!(request, Request::SelectOwner { pattern_id: 7 });
    let state = match state.advance(Reply::Owner(Some(ALICE))) {
        DeleteStep::Ask(state, Request::Begin) => state,
        other => panic!("{:?}", other),
    };
    let state = match state.advance(Reply::Done) {
        DeleteStep::Ask(state, Request::DeleteSteps { pattern_id: 7 }) => state,
        other => panic!("{:?}", other),
    };
    let state = match state.advance(Reply::Done) {
        DeleteStep::Ask(state, Request::DeleteOwnedPattern { pattern_id: 7, user_id: ALICE }) => {
            state
        }
        other => panic!("{:?}", other),
    };
    assert_eq!(state.stage, DeleteStage::DeletingPattern);
    assert_eq!(
        state.advance(Reply::Affected(0)),
        DeleteStep::Finished(Err(DeletePatternError::PatternNotFound(7)))
    );
    assert_eq!(
        state.advance(Reply::Affected(1)),
        DeleteStep::Ask(
            Deletion { stage: DeleteStage::Committing, pattern_id: 7, user_id: ALICE },
            Request::Commit
        )
    );
}

#[test]
fn a_fault_ends_a_deletion_at_every_stage() {
    let faults = [
        (DeleteStage::ReadingOwner, Fault::DeleteOwner, "Failed to fetch pattern owner."),
        (DeleteStage::Beginning, Fault::DeleteBegin, "Failed to begin a database transaction."),
        (DeleteStage::ClearingSteps, Fault::DeleteSteps, "Failed to delete steps for pattern."),
        (DeleteStage::DeletingPattern, Fault::DeletePattern, "Failed to delete pattern."),
        (DeleteStage::Committing, Fault::DeleteCommit, "Failed to commit the database transaction."),
    ];
    for (stage, fault, message) in faults {
        let state = Deletion { stage, pattern_id: 1, user_id: ALICE };
        let error = DeletePatternError::UnexpectedError(fault);
        assert_eq!(state.advance(Reply::Failed), DeleteStep::Finished(Err(error)));
        assert_eq!(state.advance(Reply::Exists(true)), DeleteStep::Finished(Err(error)));
        assert_eq!(error.to_string(), message);
        assert_eq!(error.status_code(), 500);
    }
}

#[test]
fn get_random_finds_no_pattern_when_none_is_public() {
    let mut db = Database::default();
    assert_eq!(db.fetch_random(), Err(GetPatternError::NoPatterns));
    db.create(humanoid(None), ALICE).unwrap();
    db.create(sketch("private", &[1], Some(false)), BOB).unwrap();
    let error = db.fetch_random().unwrap_err();
    assert_eq!(error, GetPatternError::NoPatterns);
    assert_eq!(error.status_code(), 404);
    assert_eq!(error.to_string(), "No patterns found in the database");
    assert_eq!(error.error_response().status, "error");
    assert_eq!(error.error_response().message, "No patterns found in the database");
}

#[test]
fn get_random_reads_a_public_pattern_with_its_steps() {
    let mut db = Database::default();
    db.create(sketch("private", &[1], None), BOB).unwrap();
    let id = db.create(humanoid(Some(true)), ALICE).unwrap();
    db.requests.clear();
    let pattern = db.fetch_random().unwrap();
    assert_eq!(db.requests, ["SelectRandomPublic", "SelectPattern", "SelectSteps"]);
    assert_eq!(pattern.id, Some(id));
    assert_eq!(pattern.title, text("Stakker humanoid"));
    assert_eq!(pattern.author, text("Humanoind"));
    assert_eq!(pattern.waveform, text("sawtooth"));
    assert_eq!(pattern.tempo, Some(130));
    assert_eq!(pattern.steps.len(), 16);
}

#[test]
fn a_reading_ends_on_a_fault_or_a_missing_row() {
    let (state, request) = fetch_pattern_by_id(5);
    assert_eq!(request, Request::SelectPattern { pattern_id: 5 });
    assert_eq!(
        state.advance(Reply::Pattern(None)),
        FetchStep::Finished(Err(GetPatternError::PatternNotFound(5)))
    );
    let faults = [
        (Fetch::Picking, Fault::FetchRandom, "Failed to get a random pattern ID from database."),
        (Fetch::ReadingPattern { pattern_id: 5 }, Fault::FetchPattern, "Failed to fetch pattern details."),
    ];
    for (state, fault, message) in faults {
        let error = GetPatternError::UnexpectedError(fault);
        assert_eq!(state.advance(Reply::Failed), FetchStep::Finished(Err(error)));
        assert_eq!(error.to_string(), message);
        assert_eq!(error.status_code(), 500);
    }
    let row = pattern_row(&accept(sketch("row", &[1], None)), ALICE, 5, Timestamp { micros: 9 });
    let reading = Fetch::ReadingPattern { pattern_id: 5 };
    let state = match reading.advance(Reply::Pattern(Some(row))) {
        FetchStep::Ask(state, Request::SelectSteps { pattern_id: 5 }) => state,
        other => panic!("{:?}", other),
    };
    assert_eq!(
        state.advance(Reply::Done),
        FetchStep::Finished(Err(GetPatternError::UnexpectedError(Fault::FetchSteps)))
    );
    assert_eq!(Fault::FetchSteps.describe(), "Failed to fetch steps for pattern.");
}

fn accept(pattern: CreateTB303Pattern) -> acid::domain::NewTB303Pattern {
    match pattern.try_into() {
        Ok(pattern) => pattern,
        Err(reason) => panic!("{}", reason),
    }
}

#[test]
fn a_listing_shows_the_patterns_of_its_owner_only() {
    let mut db = Database::default();
    let mut alices = vec![];
    let mut bobs = vec![];
    for i in 0..3 {
        alices.push(db.create(sketch(&format!("a{}", i), &[1], None), ALICE).unwrap());
        bobs.push(db.create(sketch(&format!("b{}", i), &[1, 2], Some(true)), BOB).unwrap());
    }
    bobs.push(db.create(sketch("b3", &[1], None), BOB).unwrap());
    let listed: Vec<u128> = db.list(ALICE).unwrap().iter().map(|p| p.pattern_id).collect();
    assert_eq!(listed.len(), 3);
    for id in &listed {
        assert!(alices.contains(id));
        assert!(!bobs.contains(id));
    }
    let listed = db.list(BOB).unwrap();
    assert_eq!(listed.len(), 4);
    assert!(listed.iter().all(|p| bobs.contains(&p.pattern_id)));
    assert!(db.list(NOWHERE).unwrap().is_empty());
}

#[test]
fn a_listing_keeps_the_rows_as_they_came() {
    let row = |id: u128, title: &str, is_public: Option<bool>, at: i64| SummaryRow {
        pattern_id: id,
        name: format!("Pattern {}", id),
        author: text("Humanoind"),
        title: text(title),
        is_public,
        created_at: Timestamp { micros: at },
        updated_at: Timestamp { micros: at + 1 },
    };
    let reply = Reply::Summaries(vec![
        row(3, "Pattern 3", Some(false), 30),
        row(2, "Pattern 2", Some(true), 20),
        row(1, "Stakker humanoid", Some(false), 10),
    ]);
    assert_eq!(list_tb303_patterns(ALICE), Request::SelectSummaries { user_id: ALICE });
    let list = fetch_pattern_list(&reply).unwrap();
    let titles: Vec<Option<String>> = list.iter().map(|p| p.title.clone()).collect();
    assert_eq!(titles, [text("Pattern 3"), text("Pattern 2"), text("Stakker humanoid")]);
    assert_eq!(
        list[2],
        TB303PatternSummary {
            pattern_id: 1,
            name: "Pattern 1".to_string(),
            author: text("Humanoind"),
            title: text("Stakker humanoid"),
            is_public: false,
            created_at: Timestamp { micros: 10 },
            updated_at: Timestamp { micros: 11 },
        }
    );
    assert!(list[1].is_public);
    assert_eq!(fetch_pattern_list(&Reply::Summaries(vec![])).unwrap(), vec![]);
}

#[test]
fn a_listing_fails_on_a_fault_or_a_row_without_visibility() {
    let error = ListPatternsError::UnexpectedError(Fault::List);
    assert_eq!(fetch_pattern_list(&Reply::Failed), Err(error));
    assert_eq!(fetch_pattern_list(&Reply::Done), Err(error));
    let row = SummaryRow {
        pattern_id: 1,
        name: "n".to_string(),
        author: None,
        title: None,
        is_public: None,
        created_at: Timestamp { micros: 0 },
        updated_at: Timestamp { micros: 0 },
    };
    assert_eq!(fetch_pattern_list(&Reply::Summaries(vec![row])), Err(error));
    assert_eq!(error.status_code(), 500);
    assert_eq!(error.to_string(), "Failed to fetch patterns");
    assert_eq!(error.error_response().message, "Failed to fetch patterns");
}

#[test]
fn an_update_replaces_the_header_and_every_step() {
    let mut db = Database::default();
    let id = db.create(humanoid(Some(true)), ALICE).unwrap();
    let bystander = db.create(sketch("bystander", &[1, 2], None), BOB).unwrap();
    let created = db.committed.patterns[0].clone();
    db.requests.clear();
    let mut change = sketch("changed", &[2, 1, 3], None);
    change.tempo = Some(99);
    assert_eq!(db.update(id, change, ALICE).unwrap(), id);
    assert_eq!(
        db.requests,
        ["Begin", "CheckOwned", "UpdatePattern", "DeleteSteps", "InsertSteps", "Commit"]
    );
    let row = &db.committed.patterns[0];
    assert_eq!(row.pattern_id, id);
    assert_eq!(row.user_id, ALICE);
    assert_eq!(row.created_at, created.created_at);
    assert_eq!(row.fields.name, "Sketch changed");
    assert_eq!(row.fields.author, None);
    assert_eq!(row.fields.tempo, Some(99));
    assert_eq!(row.fields.is_public, Some(false));
    let read = db.fetch(id).unwrap();
    assert_eq!(read.steps.len(), 3);
    assert_eq!(read.steps.iter().map(|s| s.number).collect::<Vec<i32>>(), [1, 2, 3]);
    assert_eq!(read.title, text("changed"));
    assert_eq!(db.fetch(bystander).unwrap().steps.len(), 2);
    assert_eq!(db.committed.steps.len(), 5);
}

#[test]
fn an_update_of_a_missing_or_foreign_pattern_finds_nothing() {
    let mut db = Database::default();
    let id = db.create(humanoid(None), ALICE).unwrap();
    let before = db.committed.clone().patterns;
    db.requests.clear();
    let error = db.update(id, sketch("theft", &[1], None), BOB).unwrap_err();
    assert_eq!(error, UpdatePatternError::PatternNotFound(id));
    assert_eq!(error.status_code(), 404);
    assert_eq!(error.to_string(), format!("Pattern with ID {} not found", uuid::Uuid::from_u128(id)));
    assert_eq!(error.error_response().status, "error");
    assert_eq!(db.requests, ["Begin", "CheckOwned"]);
    assert!(db.pending.is_none());
    assert_eq!(db.committed.patterns, before);
    assert_eq!(db.committed.steps.len(), 16);
    assert_eq!(
        db.update(NOWHERE, sketch("nothing", &[1], None), ALICE),
        Err(UpdatePatternError::PatternNotFound(NOWHERE))
    );
}

#[test]
fn an_update_with_invalid_data_is_refused_before_any_request() {
    let mut db = Database::default();
    let id = db.create(humanoid(None), ALICE).unwrap();
    db.requests.clear();
    let error = db.update(id, sketch("gap", &[1, 3], None), ALICE).unwrap_err();
    assert_eq!(
        error,
        UpdatePatternError::ValidationError(
            "Missing step in sequence: expected 2, found 3".to_string()
        )
    );
    assert_eq!(error.status_code(), 400);
    assert_eq!(error.error_response().message, "Missing step in sequence: expected 2, found 3");
    assert!(db.requests.is_empty());
}

#[test]
fn a_fault_ends_an_update_and_nothing_is_committed() {
    let descriptions = [
        (0, Fault::UpdateBegin, "Failed to start a transaction for update"),
        (1, Fault::UpdateCheck, "Failed to check if pattern exists"),
        (2, Fault::UpdatePattern, "Failed to update the pattern"),
        (3, Fault::UpdateDeleteSteps, "Failed to delete old steps"),
        (4, Fault::UpdateInsertSteps, "Failed to insert updated steps"),
        (5, Fault::UpdateCommit, "Failed to commit transaction"),
    ];
    for (failing, fault, message) in descriptions {
        let mut db = Database::default();
        let id = db.create(humanoid(None), ALICE).unwrap();
        let before = db.committed.clone();
        let (mut state, mut request) =
            update_tb303_pattern(id, sketch("doomed", &[1], None), ALICE).unwrap();
        let mut asked = 0;
        let result = loop {
            let reply = if asked == failing {
                Reply::Failed
            } else if matches!(request, Request::Commit) {
                Reply::Done
            } else {
                db.answer(request)
            };
            asked += 1;
            match state.advance(reply) {
                UpdateStep::Ask(next, then) => {
                    state = next;
                    request = then;
                }
                UpdateStep::Finished(result) => break result,
            }
        };
        db.release();
        let error = result.unwrap_err();
        assert_eq!(error, UpdatePatternError::UnexpectedError(fault));
        assert_eq!(error.to_string(), message);
        assert_eq!(error.status_code(), 500);
        assert_eq!(db.committed.patterns, before.patterns);
        assert_eq!(db.committed.steps, before.steps);
    }
    let begun = Update::start(acid::store::update::Replacement {
        pattern_id: 1,
        user_id: ALICE,
        fields: PatternFields::of(&accept(sketch("empty", &[1], None))),
        updated_at: Timestamp { micros: 1 },
        steps: vec![],
    });
    assert_eq!(begun.1, Request::Begin);
}

#[test]
fn a_fault_ends_a_creation_and_nothing_is_committed() {
    let descriptions = [
        (0, Fault::CreateBegin, "Failed to start a new transaction."),
        (1, Fault::CreateInsertPattern, "Failed to insert new pattern in the database."),
        (2, Fault::CreateInsertSteps, "Failed to insert new pattern steps in the database."),
        (3, Fault::CreateCommit, "Failed to commit the transaction to save tb303 pattern."),
    ];
    for (failing, fault, message) in descriptions {
        let mut db = Database::default();
        let (mut state, mut request) = create_tb303_pattern(humanoid(None), ALICE).unwrap();
        let mut asked = 0;
        let result = loop {
            let reply = if asked == failing {
                Reply::Failed
            } else if matches!(request, Request::Commit) {
                Reply::Done
            } else {
                db.answer(request)
            };
            asked += 1;
            match state.advance(reply) {
                CreateStep::Ask(next, then) => {
                    state = next;
                    request = then;
                }
                CreateStep::Finished(result) => break result,
            }
        };
        db.release();
        let error = result.unwrap_err();
        assert_eq!(error, CreatePatternError::UnexpectedError(fault));
        assert_eq!(error.to_string(), message);
        assert_eq!(error.status_code(), 500);
        assert_eq!(error.error_response().status, "error");
        assert_eq!(error.error_response().message, message);
        assert!(db.committed.patterns.is_empty());
        assert!(db.committed.steps.is_empty());
    }
}

#[test]
fn a_creation_without_steps_skips_the_step_rows() {
    let row = pattern_row(&accept(sketch("row", &[1], None)), ALICE, 42, Timestamp { micros: 7 });
    let (state, request) = Creation::start(row.clone(), vec![]);
    assert_eq!(request, Request::Begin);
    let state = match state.advance(Reply::Done) {
        CreateStep::Ask(state, Request::InsertPattern(asked)) => {
            assert_eq!(asked, row);
            state
        }
        other => panic!("{:?}", other),
    };
    let state = match state.advance(Reply::Done) {
        CreateStep::Ask(state, Request::Commit) => state,
        other => panic!("{:?}", other),
    };
    assert_eq!(state.advance(Reply::Done), CreateStep::Finished(Ok(42)));
}

#[test]
fn the_rows_of_a_pattern_hold_labels_and_defaults() {
    let pattern = accept(humanoid(None));
    let at = Timestamp { micros: 1_700_000_000_000_000 };
    let row = pattern_row(&pattern, ALICE, 77, at);
    assert_eq!(row.pattern_id, 77);
    assert_eq!(row.user_id, ALICE);
    assert_eq!(row.created_at, at);
    assert_eq!(row.updated_at, at);
    assert_eq!(row.fields, PatternFields::of(&pattern));
    assert_eq!(row.fields.waveform, text("sawtooth"));
    assert_eq!(row.fields.is_public, Some(false));
    assert_eq!(row.fields.tempo, Some(130));
    let third = step_row(77, 3, &pattern.steps[2], at);
    assert_eq!(
        third,
        StepRow {
            step_id: 3,
            pattern_id: 77,
            number: 3,
            note: text("B"),
            transpose: text("down"),
            time: text("note"),
            accent: Some(false),
            slide: Some(false),
            created_at: at,
        }
    );
    let fresh = insert_pattern(&pattern, BOB);
    assert_eq!(fresh.user_id, BOB);
    assert_eq!(fresh.fields, row.fields);
    assert_eq!(fresh.created_at, fresh.updated_at);
    assert!(fresh.created_at.micros > 1_600_000_000_000_000);
    assert_eq!(uuid::Uuid::from_u128(fresh.pattern_id).get_version_num(), 4);
    let rows = insert_steps_tb303(fresh.pattern_id, &pattern.steps);
    assert_eq!(rows.len(), 16);
    for (i, made) in rows.iter().enumerate() {
        assert_eq!(made.pattern_id, fresh.pattern_id);
        assert_eq!(made.number, i as i32 + 1);
        assert_eq!(*made, step_row(fresh.pattern_id, made.step_id, &pattern.steps[i], made.created_at));
    }
    assert_ne!(rows[0].step_id, rows[1].step_id);
}

#[test]
fn a_pattern_is_put_together_in_the_order_of_its_rows() {
    let pattern = accept(sketch("rows", &[1, 2, 3], Some(true)));
    let at = Timestamp { micros: 5 };
    let row = pattern_row(&pattern, ALICE, 9, at);
    let rows = vec![
        step_row(9, 30, &pattern.steps[2], at),
        step_row(9, 10, &pattern.steps[0], at),
        step_row(9, 20, &pattern.steps[1], at),
    ];
    let read = assemble(row, rows);
    assert_eq!(read.id, Some(9));
    assert_eq!(read.created_at, Some(at));
    assert_eq!(read.updated_at, Some(at));
    assert_eq!(read.is_public, Some(true));
    assert_eq!(read.steps.iter().map(|s| s.id).collect::<Vec<u128>>(), [30, 10, 20]);
    assert_eq!(read.steps.iter().map(|s| s.number).collect::<Vec<i32>>(), [3, 1, 2]);
    assert_eq!(read.steps[0].time, text("note"));
}

#[test]
fn an_identifier_is_written_as_a_hyphenated_uuid() {
    assert_eq!(id_to_string(0), "00000000-0000-0000-0000-000000000000");
    assert_eq!(id_to_string(u128::MAX), "ffffffff-ffff-ffff-ffff-ffffffffffff");
    assert_eq!(
        id_to_string(0x123e4567_e89b_12d3_a456_426614174000),
        "123e4567-e89b-12d3-a456-426614174000"
    );
    assert_eq!(
        id_to_string(0xa1a2a3a4_b1b2_c1c2_d1d2_d3d4d5d6d7d8),
        "a1a2a3a4-b1b2-c1c2-d1d2-d3d4d5d6d7d8"
    );
    for _ in 0..64 {
        let id = uuid::Uuid::new_v4();
        assert_eq!(id_to_string(id.as_u128()), id.to_string());
    }
}
