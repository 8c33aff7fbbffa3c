use harbormaster::domain::{DeliveryState, ObservationState, ProcessState, RunProjection, TurnKey, TurnState};
use harbormaster::protocol::{EventEnvelope, EventPayload, HarnessKind, TurnEvent};
use harbormaster::runtime::control::{ControlState, ProcessIdentity};
use harbormaster::runtime::ManagedRun;
use harbormaster::storage::engine::{checkpoint_after, invalidation_revision, same_owner, RequestKind};
use harbormaster::storage::files::{
    known, may_roll_back, may_stage_restore, recovery_applies, restore_revision, ManagedFile, Owned,
};
use harbormaster::storage::layout::{current, find_text, same_tables, schema_tables};
use harbormaster::storage::outcomes::{
    bounded_count, delivery_cutoff, distinct_count, history_cutoff, maintenance_result,
    outcome_revision, review, set_delivery, tombstone_cutoff,
};
use harbormaster::storage::reconcile::{add_discarded, projection, resolve_old, tombstone_terminal, ProjectionRow};
use harbormaster::storage::reducer_types::{EventReceipt, Reconciliation, ReconciliationBaseline};
use harbormaster::storage::runs::{
    identify, new_run, other_writers, reserve, reserve_run, reserved_revision, save, saved_revision, ControlSave,
    Reservation,
};
use harbormaster::storage::catalog::{
    preset_decision, project_decision, task_decision, CatalogWrite, PresetRecord, ProjectRecord, TaskRecord,
};
use harbormaster::storage::schema::{header, inspect, pressure, WAL_BOUND};
use harbormaster::storage::sequencing::{
    capacity, duplicate, next_sequence, receipt, require_revision, scope,
};
use harbormaster::storage::types::{DeliveryUpdate, HistoryRetention, OutcomeKey, ProducerRecord, Registration};
use harbormaster::storage::StorageError;
use harbormaster::domain::AttentionReason;
use harbormaster::storage::queries::{harness, outcome_attention, snapshot};
use harbormaster::storage::migration::{backfill_terminal, legacy_columns, migration_plan, rebuild_statement, upgrade};
use harbormaster::storage::attention::{inserts_attention, queues_notification};
use harbormaster::storage::files::{backup_progress, BackupStep};

const PRODUCER: &str = "00000000-0000-4000-8000-000000000002";
const GENERATION: &str = "00000000-0000-4000-8000-000000000003";
const RUN: &str = "00000000-0000-4000-8000-000000000004";

fn fact(seq: u64) -> EventEnvelope {
    EventEnvelope {
        event_id: format!("00000000-0000-4000-8000-{seq:012x}"),
        producer_id: PRODUCER.to_string(),
        generation: GENERATION.to_string(),
        run_id: RUN.to_string(),
        seq,
        event: EventPayload::Turn { phase: TurnEvent::Completed, turn_id: "t1".to_string(), reason: None },
    }
}

fn producer(next: Option<u64>) -> ProducerRecord {
    ProducerRecord {
        producer_id: PRODUCER.to_string(),
        harness: HarnessKind::Codex,
        generation: GENERATION.to_string(),
        run_id: RUN.to_string(),
        next_sequence: next,
        active: true,
        reconciled: true,
    }
}

#[test]
fn accepted_sequence_advances_by_exactly_one() {
    let before = producer(Some(5));
    assert_eq!(scope(Some(&before), &fact(5)), Ok(()));
    assert_eq!(scope(Some(&before), &fact(7)), Err(StorageError::SequenceGap));
    assert_eq!(scope(Some(&before), &fact(4)), Err(StorageError::Conflict));
    let after = producer(next_sequence(5));
    assert_eq!(scope(Some(&after), &fact(5)), Err(StorageError::Conflict));
    assert_eq!(scope(Some(&after), &fact(6)), Ok(()));
    assert_eq!(scope(Some(&after), &fact(8)), Err(StorageError::SequenceGap));
    assert_eq!(scope(None, &fact(5)), Err(StorageError::UnknownProducer));
    let mut retired = producer(Some(5));
    retired.active = false;
    assert_eq!(scope(Some(&retired), &fact(5)), Err(StorageError::StaleGeneration));
    assert_eq!(scope(Some(&producer(None)), &fact(5)), Err(StorageError::Conflict));
    assert_eq!(next_sequence(u64::MAX), None);
}

#[test]
fn revisions_and_capacity() {
    assert_eq!(require_revision(3, 3), Ok(4));
    assert_eq!(require_revision(3, 2), Err(StorageError::StaleRevision));
    assert_eq!(require_revision(u64::MAX, u64::MAX), Err(StorageError::ResourceExhausted));
    assert_eq!(capacity(9, 10, 1), Ok(()));
    assert_eq!(capacity(10, 10, 1), Err(StorageError::ResourceExhausted));
    assert_eq!(restore_revision(5, 9), Ok(10));
    assert_eq!(restore_revision(9, 5), Ok(10));
    assert_eq!(restore_revision(u64::MAX, 0), Err(StorageError::ResourceExhausted));
    assert_eq!(invalidation_revision(true, None, 4), Ok(Some(5)));
    assert_eq!(invalidation_revision(false, None, 4), Ok(None));
    assert_eq!(invalidation_revision(false, Some(9), 4), Ok(Some(9)));
}

#[test]
fn receipts_and_duplicates() {
    let f = fact(5);
    assert_eq!(receipt(Some((&fact(5), 12)), None, &f), EventReceipt::Exact { revision: 12 });
    assert_eq!(receipt(Some((&fact(6), 12)), None, &f), EventReceipt::Conflict);
    assert_eq!(receipt(None, Some(&producer(Some(9))), &f), EventReceipt::PriorSequenceUnverifiable);
    assert_eq!(receipt(None, Some(&producer(Some(5))), &f), EventReceipt::Missing);
    assert_eq!(receipt(None, Some(&producer(None)), &f), EventReceipt::PriorSequenceUnverifiable);
    assert_eq!(receipt(None, None, &f), EventReceipt::Missing);
    assert_eq!(duplicate(Some((b"ab", 3)), b"ab"), Ok(Some(3)));
    assert_eq!(duplicate(Some((b"ab", 3)), b"ac"), Err(StorageError::Conflict));
    assert_eq!(duplicate(None, b"ac"), Ok(None));
}

fn key() -> OutcomeKey {
    OutcomeKey {
        producer_id: PRODUCER.to_string(),
        generation: GENERATION.to_string(),
        event_id: "e".to_string(),
    }
}

#[test]
fn delivery_never_leaves_a_final_state() {
    let update = |state, at| DeliveryUpdate { expected_revision: 1, outcome: key(), state, at };
    let row = set_delivery(Some((0, 10)), &update(DeliveryState::AttemptedUncertain, 11)).unwrap();
    assert_eq!(row, (1, 11));
    let row = set_delivery(Some(row), &update(DeliveryState::Acknowledged, 12)).unwrap();
    assert_eq!(row, (2, 12));
    assert_eq!(
        set_delivery(Some(row), &update(DeliveryState::Expired, 13)),
        Err(StorageError::Conflict)
    );
    assert_eq!(
        set_delivery(Some((1, 20)), &update(DeliveryState::Acknowledged, 19)),
        Err(StorageError::Conflict)
    );
    assert_eq!(
        set_delivery(Some((1, 20)), &update(DeliveryState::Pending, 21)),
        Err(StorageError::Conflict)
    );
    assert_eq!(set_delivery(None, &update(DeliveryState::Expired, 1)), Err(StorageError::Conflict));
}

#[test]
fn maintenance_counts_and_cutoffs() {
    assert_eq!(bounded_count(7), Ok(7));
    let result = maintenance_result(100, 3, 2, 0).unwrap();
    assert!(result.more);
    assert_eq!(result.facts_removed, 100);
    assert!(!maintenance_result(99, 3, 2, 0).unwrap().more);
    assert_eq!(history_cutoff(1_000_000, HistoryRetention::Week), 1_000_000 - 7 * 86_400);
    assert_eq!(tombstone_cutoff(0), -30 * 86_400);
    assert_eq!(delivery_cutoff(i64::MIN + 5), i64::MIN);
    let names = vec!["a".to_string(), "b".to_string(), "a".to_string()];
    assert_eq!(distinct_count(&names), 2);
    assert_eq!(outcome_revision(&vec![]), Ok(None));
    assert_eq!(outcome_revision(&vec![4]), Ok(Some(4)));
    assert_eq!(outcome_revision(&vec![4, 5]), Err(StorageError::CorruptDatabase));
    assert_eq!(review(Some((Some(4), 1)), 4), Ok(()));
    assert_eq!(review(Some((Some(4), 0)), 4), Err(StorageError::Conflict));
    assert_eq!(review(Some((Some(3), 1)), 4), Err(StorageError::Conflict));
    assert_eq!(review(None, 4), Err(StorageError::Conflict));
}

fn database_header(version: u32, app: u32, page: u16) -> [u8; 100] {
    let mut h = [0u8; 100];
    h[..16].copy_from_slice(b"SQLite format 3\0");
    h[16..18].copy_from_slice(&page.to_be_bytes());
    h[60..64].copy_from_slice(&version.to_be_bytes());
    h[68..72].copy_from_slice(&app.to_be_bytes());
    h
}

#[test]
fn database_header_identity() {
    let ok = database_header(2, 0x4842_4d31, 4096);
    assert_eq!(header(8192, &ok), Ok(2));
    assert_eq!(header(99, &ok), Err(StorageError::CorruptDatabase));
    assert_eq!(header(16_384 * 4096 + 1, &ok), Err(StorageError::CorruptDatabase));
    let mut foreign = ok;
    foreign[0] = b's';
    assert_eq!(header(8192, &foreign), Err(StorageError::ForeignDatabase));
    assert_eq!(header(8192, &database_header(2, 1, 4096)), Err(StorageError::ForeignDatabase));
    assert_eq!(header(8192, &database_header(3, 0x4842_4d31, 4096)), Err(StorageError::FutureSchema));
    assert_eq!(header(8192, &database_header(0, 0x4842_4d31, 4096)), Err(StorageError::CorruptDatabase));
    assert_eq!(header(8192, &database_header(1, 0x4842_4d31, 1024)), Err(StorageError::CorruptDatabase));
    assert_eq!(inspect(0x4842_4d31, 2, true, "ok", 4096, 10), Ok(2));
    assert_eq!(inspect(0x4842_4d31, 2, false, "ok", 4096, 10), Err(StorageError::ForeignDatabase));
    assert_eq!(inspect(0x4842_4d31, 2, true, "bad", 4096, 10), Err(StorageError::CorruptDatabase));
    assert_eq!(inspect(0x4842_4d31, 2, true, "ok", 4096, 16_385), Err(StorageError::ResourceExhausted));
    assert_eq!(inspect(7, 2, true, "ok", 4096, 10), Err(StorageError::ForeignDatabase));
    assert_eq!(pressure(0), Ok(false));
    assert_eq!(pressure(4 * 1024 * 1024), Ok(true));
    assert_eq!(pressure(WAL_BOUND + 1), Err(StorageError::ResourceExhausted));
}

#[test]
fn layouts_insert_columns_before_constraints() {
    let tables = current();
    assert_eq!(tables.len(), 9);
    assert_eq!(tables[1].0, "producers");
    assert!(tables[1].1.ends_with(",reconciled INTEGER NOT NULL DEFAULT 0 CHECK(reconciled IN(0,1))) STRICT"));
    assert!(tables[4].1.contains("CHECK(scoped=0 OR resolution_generation IS NOT NULL),PRIMARY KEY(producer,generation,event,reason)"));
    assert_eq!(tables[8].0, "attention_active_scope");
    assert_eq!(find_text("abcabc", "ca"), Some(2));
    assert_eq!(find_text("abc", "x"), None);
    let v2 = schema_tables(2);
    let v1 = schema_tables(1);
    assert_eq!(v2.len(), 8);
    assert_eq!(v1.len(), 7);
    assert_eq!(v2[2].0, "maintenance");
    assert!(same_tables(&v2, &schema_tables(2)));
    assert!(!same_tables(&v2, &v1));
}

#[test]
fn owned_files_move_on_rename() {
    let mut owned = Owned::new();
    assert_eq!(owned.rename_plan(ManagedFile::Staging, ManagedFile::Backup, false), Err(StorageError::UnsafePath));
    owned.record(ManagedFile::Staging, (1, 2));
    assert_eq!(owned.rename_plan(ManagedFile::Staging, ManagedFile::Backup, true), Err(StorageError::UnsafePath));
    let id = owned.rename_plan(ManagedFile::Staging, ManagedFile::Backup, false).unwrap();
    owned.renamed(ManagedFile::Staging, ManagedFile::Backup, id);
    assert_eq!(owned.identity(ManagedFile::Backup), Some((1, 2)));
    assert_eq!(owned.identity(ManagedFile::Staging), None);
    assert_eq!(owned.remove_plan(ManagedFile::Staging), Err(StorageError::UnsafePath));
    assert_eq!(owned.remove_plan(ManagedFile::Backup), Ok(()));
    assert_eq!(ManagedFile::Rollback.name(), "state.rollback.db");
    assert_eq!(known().len(), 9);
    assert_eq!(may_stage_restore(true, false, false), Ok(()));
    assert_eq!(may_stage_restore(true, true, false), Err(StorageError::RecoveryRequired));
    assert_eq!(recovery_applies(0, Err(StorageError::CorruptDatabase)), Ok(()));
    assert_eq!(recovery_applies(1, Err(StorageError::CorruptDatabase)), Err(StorageError::RecoveryRequired));
    assert_eq!(recovery_applies(0, Ok(())), Err(StorageError::InvalidRequest));
    assert_eq!(recovery_applies(0, Err(StorageError::ForeignDatabase)), Err(StorageError::ForeignDatabase));
    assert!(may_roll_back(0, false));
    assert!(!may_roll_back(0, true));
}

fn process(pid: u32) -> ProcessIdentity {
    ProcessIdentity { pid, start_ticks: 1, boot_id: "00000000-0000-4000-8000-000000000000".to_string() }
}

fn run(server: Option<ProcessIdentity>) -> ManagedRun {
    ManagedRun {
        id: RUN.to_string(),
        task_id: "t".to_string(),
        project_id: "p".to_string(),
        runtime_root: "/r".to_string(),
        server,
    }
}

#[test]
fn runs_record_their_server_once() {
    let first = identify(Some(run(None)), process(7)).unwrap();
    assert_eq!(first.server.as_ref().unwrap().pid, 7);
    assert!(identify(Some(first.duplicate()), process(7)).is_ok());
    assert_eq!(identify(Some(first), process(8)).unwrap_err(), StorageError::Conflict);
    assert_eq!(identify(None, process(8)).unwrap_err(), StorageError::InvalidRequest);
    assert_eq!(reserve(true, false, 5000), Ok(Reservation::Existing));
    assert_eq!(reserve(false, false, 0), Err(StorageError::InvalidRequest));
    assert_eq!(reserve(false, true, 999), Ok(Reservation::Create));
    assert_eq!(reserve(false, true, 1000), Err(StorageError::ResourceExhausted));
}

#[test]
fn control_saves_are_validated_and_monotone() {
    let fresh = ControlState::new(RUN.to_string(), None);
    assert_eq!(save(None, &fresh, 100), Ok(ControlSave::Write));
    assert_eq!(save(Some(&fresh), &fresh, 100), Ok(ControlSave::Unchanged));
    assert_eq!(save(None, &fresh, 9000), Err(StorageError::InvalidRequest));
    let mut ending = ControlState::new(RUN.to_string(), None);
    ending.ending = true;
    assert_eq!(save(Some(&fresh), &ending, 100), Ok(ControlSave::Write));
    assert_eq!(save(Some(&ending), &fresh, 100), Err(StorageError::Conflict));
    let other_nonce = ControlState::new(RUN.to_string(), Some("n".to_string()));
    assert_eq!(save(Some(&fresh), &other_nonce, 100), Err(StorageError::Conflict));
    assert_eq!(other_writers(&vec![(false, None), (true, Some(true))]), Ok(false));
    assert_eq!(other_writers(&vec![(false, None), (true, None)]), Ok(true));
    assert_eq!(other_writers(&vec![(false, None); 1001]), Err(StorageError::ResourceExhausted));
    let mut late = vec![(false, None); 1001];
    late[999] = (true, Some(false));
    assert_eq!(other_writers(&late), Ok(true));
}

fn registration(previous: Option<&str>) -> Registration {
    Registration {
        producer_id: PRODUCER.to_string(),
        harness: HarnessKind::Claude,
        generation: "g2".to_string(),
        previous_generation: previous.map(|s| s.to_string()),
        run_id: RUN.to_string(),
    }
}

fn turn_key(generation: &str) -> TurnKey {
    TurnKey {
        producer_id: PRODUCER.to_string(),
        generation: generation.to_string(),
        run_id: RUN.to_string(),
        turn_id: "t1".to_string(),
    }
}

#[test]
fn reconciliation_resolves_only_the_stored_old_turn() {
    let request = Reconciliation {
        registration: registration(Some(GENERATION)),
        baseline: ReconciliationBaseline::Unavailable,
        discarded_events: 0,
        resolved_turn: Some(turn_key(GENERATION)),
    };
    assert_eq!(resolve_old(Some(&turn_key(GENERATION)), &request), Ok(()));
    assert_eq!(resolve_old(Some(&turn_key("other")), &request), Err(StorageError::Conflict));
    assert_eq!(resolve_old(None, &request), Err(StorageError::Conflict));
    let wrong_previous = Reconciliation {
        registration: registration(Some("other")),
        baseline: ReconciliationBaseline::Unavailable,
        discarded_events: 0,
        resolved_turn: Some(turn_key(GENERATION)),
    };
    assert_eq!(resolve_old(Some(&turn_key(GENERATION)), &wrong_previous), Err(StorageError::Conflict));
    assert_eq!(add_discarded(2, 3), Ok(5));
    assert_eq!(add_discarded(u64::MAX, 1), Err(StorageError::ResourceExhausted));
}

#[test]
fn stored_projection_rows_decode_exactly() {
    let run = RUN.to_string();
    let (unknown, current) = projection(&run, None).unwrap();
    assert_eq!((unknown.process, unknown.observation, unknown.turn), (ProcessState::Unknown, ObservationState::Stale, TurnState::Unknown));
    assert!(current.is_none());
    let row = ProjectionRow {
        process: 1,
        observation: 0,
        turn: 1,
        turn_id: Some("t1".to_string()),
        producer: Some(PRODUCER.to_string()),
        generation: Some(GENERATION.to_string()),
    };
    let (p, current): (RunProjection, Option<TurnKey>) = projection(&run, Some(row)).unwrap();
    assert_eq!((p.process, p.turn), (ProcessState::Alive, TurnState::Working));
    assert_eq!(current.unwrap().generation, GENERATION);
    let half = ProjectionRow {
        process: 1,
        observation: 0,
        turn: 1,
        turn_id: None,
        producer: Some(PRODUCER.to_string()),
        generation: None,
    };
    assert_eq!(projection(&run, Some(half)).unwrap_err(), StorageError::PersistenceUnavailable);
    let bad = ProjectionRow { process: 9, observation: 0, turn: 0, turn_id: None, producer: None, generation: None };
    assert_eq!(projection(&run, Some(bad)).unwrap_err(), StorageError::PersistenceUnavailable);
    assert_eq!(tombstone_terminal(Some(4)), Ok(Some(TurnState::Completed)));
    assert_eq!(tombstone_terminal(Some(1)), Err(StorageError::PersistenceUnavailable));
    assert_eq!(tombstone_terminal(None), Ok(None));
}

#[test]
fn engine_steps() {
    assert!(RequestKind::Snapshot.read_only());
    assert!(!RequestKind::Apply.read_only());
    assert_eq!(same_owner(1, 2), Err(StorageError::Conflict));
    assert_eq!(same_owner(2, 2), Ok(()));
    assert!(checkpoint_after(true, false, Some(4 * 1024 * 1024)));
    assert!(!checkpoint_after(false, false, Some(4 * 1024 * 1024)));
    assert!(!checkpoint_after(true, true, Some(4 * 1024 * 1024)));
    assert!(!checkpoint_after(true, false, None));
}

#[test]
fn snapshots_and_outcome_rows() {
    let projection = |id: &str| RunProjection {
        run_id: id.to_string(),
        process: ProcessState::Alive,
        observation: ObservationState::Fresh,
        turn: TurnState::Working,
        turn_id: None,
    };
    let page = snapshot(7, Some(7), vec![projection("a"), projection("b"), projection("c")], 2).unwrap();
    assert_eq!(page.runs.len(), 2);
    assert_eq!(page.next_after.as_deref(), Some("b"));
    let whole = snapshot(7, None, vec![projection("a")], 2).unwrap();
    assert_eq!(whole.runs.len(), 1);
    assert_eq!(whole.next_after, None);
    assert_eq!(snapshot(7, Some(6), vec![], 2).unwrap_err(), StorageError::StaleRevision);
    assert_eq!(harness(1), Some(HarnessKind::Claude));
    assert_eq!(harness(3), None);
    let id = "e".to_string();
    let (attention, resolved) = outcome_attention(&id, &vec![(0, true, true), (4, false, false)]).unwrap();
    assert_eq!(attention.len(), 2);
    assert_eq!(attention[1].reason, AttentionReason::Completion);
    assert!(attention[0].reviewed);
    assert_eq!(resolved, vec![AttentionReason::Input]);
    assert_eq!(outcome_attention(&id, &vec![(9, false, false)]).unwrap_err(), StorageError::PersistenceUnavailable);
    assert_eq!(outcome_attention(&id, &vec![(0, false, false); 9]).unwrap_err(), StorageError::CorruptDatabase);
}

#[test]
fn migrations_rebuild_with_legacy_columns() {
    let plan = migration_plan(2);
    assert!(plan.rebuild && plan.catalog);
    assert!(!migration_plan(3).rebuild && migration_plan(3).catalog);
    assert!(!migration_plan(4).catalog);
    assert_eq!(legacy_columns("metadata"), Some("id,revision,history_days"));
    assert_eq!(legacy_columns("facts"), None);
    assert_eq!(
        rebuild_statement("outbox", "CREATE TABLE outbox(x)", "x"),
        "ALTER TABLE outbox RENAME TO legacy_outbox;CREATE TABLE outbox(x);INSERT INTO outbox(x) SELECT x FROM legacy_outbox;DROP TABLE legacy_outbox"
    );
    assert_eq!(backfill_terminal(&fact(1), RUN, "t1"), Some(4));
    assert_eq!(backfill_terminal(&fact(1), RUN, "t2"), None);
    assert_eq!(backfill_terminal(&fact(1), "other", "t1"), None);
}

#[test]
fn attention_coalesces_and_backups_yield() {
    assert!(inserts_attention(AttentionReason::Input, false));
    assert!(!inserts_attention(AttentionReason::Input, true));
    assert!(inserts_attention(AttentionReason::Completion, true));
    assert!(queues_notification(true, true));
    assert!(!queues_notification(true, false));
    assert_eq!(backup_progress(false, BackupStep::Done), Ok(true));
    assert_eq!(backup_progress(false, BackupStep::More), Ok(false));
    assert_eq!(backup_progress(true, BackupStep::Done), Err(StorageError::Backpressure));
    assert_eq!(backup_progress(false, BackupStep::Locked), Err(StorageError::Backpressure));
    assert_eq!(backup_progress(false, BackupStep::Failed), Err(StorageError::PersistenceUnavailable));
}

#[test]
fn upgrades_follow_the_current_layout() {
    let layout = current();
    let v1 = upgrade(1, &layout);
    let v2 = upgrade(2, &layout);
    assert_eq!(v1.len(), 9);
    assert_eq!(v2.len(), 7);
    assert!(v2[0].starts_with("ALTER TABLE metadata RENAME TO legacy_metadata;CREATE TABLE metadata("));
    assert!(v2[0].ends_with("INSERT INTO metadata(id,revision,history_days) SELECT id,revision,history_days FROM legacy_metadata;DROP TABLE legacy_metadata"));
    assert_eq!(v1[7], "INSERT INTO maintenance VALUES(1,0,0,0,0)");
    assert!(v2[6].starts_with("CREATE UNIQUE INDEX attention_active_scope"));
}

#[test]
fn reservations_are_idempotent() {
    let fresh = |root: &str| new_run("r1".to_string(), "t1".to_string(), "p1".to_string(), root.to_string());
    let (first, created) = reserve_run(None, true, 3, fresh("/run/a")).unwrap();
    assert!(created);
    assert_eq!((first.task_id.as_str(), first.runtime_root.as_str()), ("t1", "/run/a"));
    assert!(first.server.is_none());
    let (again, created) = reserve_run(Some(first), false, 1000, fresh("/run/b")).unwrap();
    assert!(!created);
    assert_eq!(again.runtime_root, "/run/a");
    assert_eq!(reserve_run(None, false, 0, fresh("/run/a")).err(), Some(StorageError::InvalidRequest));
    assert_eq!(reserve_run(None, true, 1000, fresh("/run/a")).err(), Some(StorageError::ResourceExhausted));
    assert_eq!(reserved_revision(true, 7), Ok(8));
    assert_eq!(reserved_revision(false, 7), Ok(7));
}

#[test]
fn saves_advance_the_revision_only_when_written() {
    let fresh = ControlState::new(RUN.to_string(), None);
    let decision = save(Some(&fresh), &fresh, 100).unwrap();
    assert_eq!(saved_revision(decision, 41), Ok(41));
    let decision = save(None, &fresh, 100).unwrap();
    assert_eq!(saved_revision(decision, 41), Ok(42));
    assert_eq!(saved_revision(ControlSave::Write, u64::MAX), Err(StorageError::ResourceExhausted));
}

#[test]
fn catalog_writes_return_existing_records_or_conflict() {
    let task = TaskRecord {
        id: "t".to_string(),
        project_id: "p".to_string(),
        preset: "default".to_string(),
        label: "fix".to_string(),
    };
    assert_eq!(task_decision(false, true, None, "default", 0, 10), Err(StorageError::InvalidRequest));
    assert_eq!(task_decision(true, false, None, "default", 0, 10), Err(StorageError::InvalidRequest));
    assert_eq!(task_decision(true, true, Some(&task), "default", 10, 10), Ok(CatalogWrite::Existing));
    assert_eq!(task_decision(true, true, Some(&task), "other", 0, 10), Err(StorageError::Conflict));
    assert_eq!(task_decision(true, true, None, "default", 9, 10), Ok(CatalogWrite::Create));
    assert_eq!(task_decision(true, true, None, "default", 10, 10), Err(StorageError::ResourceExhausted));
    let project = ProjectRecord {
        id: "p".to_string(),
        root: "/src/app".to_string(),
        label: "app".to_string(),
        identity: vec![1, 2, 3],
    };
    assert_eq!(project_decision(Some(&project), "app", &[1, 2, 3], 10, 10), Ok(CatalogWrite::Existing));
    assert_eq!(project_decision(Some(&project), "app", &[1, 2, 4], 0, 10), Err(StorageError::Conflict));
    assert_eq!(project_decision(Some(&project), "other", &[1, 2, 3], 0, 10), Err(StorageError::Conflict));
    assert_eq!(project_decision(None, "app", &[1, 2, 3], 3, 10), Ok(CatalogWrite::Create));
    assert_eq!(project_decision(None, "app", &[1, 2, 3], 10, 10), Err(StorageError::ResourceExhausted));
    let preset = |profile: &str| PresetRecord {
        name: "default".to_string(),
        executable: "/usr/bin/hermes".to_string(),
        profile: profile.to_string(),
        identity: vec![9],
    };
    assert_eq!(preset_decision(Some(&preset("fast")), &preset("fast"), 10, 10), Ok(CatalogWrite::Existing));
    assert_eq!(preset_decision(Some(&preset("fast")), &preset("slow"), 0, 10), Err(StorageError::Conflict));
    assert_eq!(preset_decision(None, &preset("fast"), 0, 10), Ok(CatalogWrite::Create));
    assert_eq!(preset_decision(None, &preset("fast"), 10, 10), Err(StorageError::ResourceExhausted));
}
