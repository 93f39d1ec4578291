use rusty_d20::{
    bumped_revision, check_fingerprint, check_save_schema, check_save_size,
    ensure_campaign_phase, ensure_mutation_capacity, ensure_revision, health, runtime_readout,
    validate_restored_log, ApiErrorKindDto, CampaignPhase, CommandProblem, GameLog,
    GameLogEntryDto, GameLogKindDto, GameRuntimeError, PhaseRequirement, RuntimeStatusDto,
    SaveProblem, SaveSchema, StaleRevision, GAME_SAVE_SCHEMA_VERSION, MAX_GAME_SAVE_BYTES,
};

fn entry(id: u64) -> GameLogEntryDto {
    GameLogEntryDto {
        id,
        turn: 0,
        kind: GameLogKindDto::System,
        source: "Camp".to_owned(),
        text: "Rest.".to_owned(),
        details: Vec::new(),
    }
}

#[test]
fn log_keeps_the_newest_entries_and_counts_omitted_details() {
    let mut log = GameLog { entries: Vec::new(), next_id: 1 };
    let details: Vec<String> = (0..40).map(|i| format!("detail {i}")).collect();
    log.push(3, GameLogKindDto::Turn, "Warden".to_owned(), "Strikes.".to_owned(), details).unwrap();
    let first = &log.entries[0];
    assert_eq!(first.id, 1);
    assert_eq!(first.turn, 3);
    assert_eq!(first.details.len(), 32);
    assert_eq!(first.details[30], "detail 30");
    assert_eq!(first.details[31], "9 additional receipt decision(s) omitted.");
    assert_eq!(log.next_id, 2);
    for _ in 0..70 {
        log.push(4, GameLogKindDto::System, "Camp".to_owned(), "Rest.".to_owned(), Vec::new()).unwrap();
    }
    assert_eq!(log.entries.len(), 64);
    assert_eq!(log.entries[0].id, 8);
    assert_eq!(log.entries[63].id, 71);
    assert_eq!(validate_restored_log(1, log.next_id, &log.entries), Ok(()));
}

#[test]
fn log_refuses_an_exhausted_identity() {
    let mut log = GameLog { entries: vec![entry(5)], next_id: u64::MAX };
    assert_eq!(
        log.push(0, GameLogKindDto::System, "Camp".to_owned(), "Rest.".to_owned(), Vec::new()),
        Err(GameRuntimeError::CounterOverflow)
    );
    assert_eq!(log.entries.len(), 1);
    assert_eq!(log.next_id, u64::MAX);
}

#[test]
fn restored_log_refusals() {
    assert_eq!(
        validate_restored_log(0, 3, &vec![entry(1)]),
        Err(GameRuntimeError::InvalidSave(SaveProblem::CountersOrLogInvalid))
    );
    assert_eq!(
        validate_restored_log(1, 9, &vec![entry(2), entry(2)]),
        Err(GameRuntimeError::InvalidSave(SaveProblem::LogOrder))
    );
    assert_eq!(
        validate_restored_log(1, 2, &vec![entry(1), entry(2)]),
        Err(GameRuntimeError::InvalidSave(SaveProblem::LogBounds))
    );
    let mut long = entry(1);
    long.source = "s".repeat(129);
    assert_eq!(
        validate_restored_log(1, 2, &vec![long]),
        Err(GameRuntimeError::InvalidSave(SaveProblem::LogBounds))
    );
    let mut wide = entry(1);
    wide.details = vec!["é".repeat(257)];
    assert_eq!(
        validate_restored_log(1, 2, &vec![wide]),
        Err(GameRuntimeError::InvalidSave(SaveProblem::LogBounds))
    );
    let too_many: Vec<GameLogEntryDto> = (1..=65).map(entry).collect();
    assert_eq!(
        validate_restored_log(1, 99, &too_many),
        Err(GameRuntimeError::InvalidSave(SaveProblem::CountersOrLogInvalid))
    );
}

#[test]
fn counters_revisions_and_phases() {
    assert_eq!(ensure_revision(4, 4), Ok(()));
    assert_eq!(
        ensure_revision(3, 4),
        Err(GameRuntimeError::StaleCommand(StaleRevision { expected: 3, current: 4 }))
    );
    assert_eq!(ensure_mutation_capacity(1, u64::MAX, 1, false, true), Ok(()));
    assert_eq!(
        ensure_mutation_capacity(1, u64::MAX, 1, true, true),
        Err(GameRuntimeError::CounterOverflow)
    );
    assert_eq!(ensure_mutation_capacity(u64::MAX, 1, 1, false, false), Err(GameRuntimeError::CounterOverflow));
    assert_eq!(bumped_revision(7), Ok(8));
    assert_eq!(bumped_revision(u64::MAX), Err(GameRuntimeError::CounterOverflow));
    assert_eq!(ensure_campaign_phase(Some(CampaignPhase::Camp), PhaseRequirement::Camp), Ok(()));
    assert_eq!(
        ensure_campaign_phase(Some(CampaignPhase::Outcome), PhaseRequirement::Camp),
        Err(GameRuntimeError::WrongPhase(PhaseRequirement::Camp))
    );
    assert_eq!(ensure_campaign_phase(None, PhaseRequirement::Encounter), Err(GameRuntimeError::NoEncounter));
}

#[test]
fn save_envelope_checks() {
    assert_eq!(check_save_size(MAX_GAME_SAVE_BYTES), Ok(()));
    assert_eq!(
        check_save_size(MAX_GAME_SAVE_BYTES + 1),
        Err(GameRuntimeError::InvalidSave(SaveProblem::TooLarge {
            bytes: 1_000_001,
            maximum: 1_000_000
        }))
    );
    assert_eq!(check_save_schema(GAME_SAVE_SCHEMA_VERSION), Ok(SaveSchema::Current));
    assert_eq!(check_save_schema(6), Ok(SaveSchema::SchemaSix));
    assert_eq!(check_save_schema(5), Ok(SaveSchema::SchemaFive));
    assert_eq!(check_save_schema(4), Ok(SaveSchema::SchemaFour));
    assert_eq!(check_save_schema(3), Ok(SaveSchema::CampaignOnly));
    assert_eq!(check_save_schema(2), Ok(SaveSchema::CampaignOnly));
    assert_eq!(check_save_schema(1), Ok(SaveSchema::EncounterOnly));
    assert_eq!(check_save_schema(0), Err(GameRuntimeError::UnsupportedSaveSchema { actual: 0 }));
    assert_eq!(check_save_schema(7), Err(GameRuntimeError::UnsupportedSaveSchema { actual: 7 }));
    assert_eq!(check_save_schema(9), Err(GameRuntimeError::UnsupportedSaveSchema { actual: 9 }));
    assert_eq!(check_fingerprint(&"abc".to_owned(), "abc".to_owned()), Ok(()));
    assert_eq!(
        check_fingerprint(&"abc".to_owned(), "abd".to_owned()),
        Err(GameRuntimeError::CompositionFingerprintMismatch {
            expected: "abc".to_owned(),
            actual: "abd".to_owned()
        })
    );
}

#[test]
fn api_errors_classify_refusals() {
    let stale = GameRuntimeError::StaleCommand(StaleRevision { expected: 1, current: 2 })
        .api_error("stale".to_owned());
    assert_eq!(stale.kind, ApiErrorKindDto::Stale);
    assert!(stale.retryable);
    assert_eq!(stale.message, "stale");
    let invalid = GameRuntimeError::InvalidCommand(CommandProblem::BlockedStep).api_error(String::new());
    assert_eq!(invalid.kind, ApiErrorKindDto::Invalid);
    assert!(!invalid.retryable);
    let persistence = GameRuntimeError::UnsupportedSaveSchema { actual: 9 }.api_error(String::new());
    assert_eq!(persistence.kind, ApiErrorKindDto::Persistence);
    assert_eq!(GameRuntimeError::NoEncounter.api_error(String::new()).kind, ApiErrorKindDto::NotFound);
    assert_eq!(GameRuntimeError::CounterOverflow.api_error(String::new()).kind, ApiErrorKindDto::Internal);
}

#[test]
fn readout_and_health() {
    let readout = runtime_readout(12);
    assert_eq!(readout.product, "Rusty D20");
    assert_eq!(readout.status, RuntimeStatusDto::Ready);
    assert_eq!(readout.entity_count, 12);
    let answer = health();
    assert_eq!(answer.status, "ok");
    assert_eq!(answer.version, readout.version);
}

#[test]
fn a_replayed_command_is_stale_after_the_revision_moves() {
    assert_eq!(ensure_revision(9, 9), Ok(()));
    let next = bumped_revision(9).unwrap();
    assert_eq!(next, 10);
    assert_eq!(
        ensure_revision(9, next),
        Err(GameRuntimeError::StaleCommand(StaleRevision { expected: 9, current: 10 }))
    );
}
