use harbormaster::fsmeta::{
    directory_safe, file_kind, local_filesystem, owned_socket, private_file, trusted_tool, FileKind,
    FileStat,
};
use harbormaster::protocol::{EventEnvelope, EventPayload, TurnEvent};
use harbormaster::recovery::cleanup::{snapshot, summarize, CleanupPlan, CleanupReason, CleanupResult};
use harbormaster::recovery::files::{check_read_result, check_read_size, reserve_handle, scan, sort_by_name, Entry, Identity};
use harbormaster::recovery::logs::{is_log, plan_append, plan_rotation};
use harbormaster::recovery::names::SpoolName;
use harbormaster::recovery::spool::{budget, find_same_identity, replay_name, replay_selection};
use harbormaster::protocol::{EventKind, HarnessKind};
use harbormaster::recovery::provenance::{
    eligible, eligible_from, kind_from_text, mapping, payload_plan, reviewed, reviewed_input,
    validate_replay, AdapterRecord, Mapping, PayloadPlan, Source, SourceMetadata,
};
use harbormaster::recovery::{
    RecoveryError, StoreCounters, MAX_PRODUCER_BYTES, MAX_RECORD_BYTES, MAX_REPLAY_BATCH, MAX_SPOOL_BYTES,
};

fn stat(mode: u32, uid: u32, size: i64) -> FileStat {
    FileStat {
        mode,
        uid,
        nlink: 1,
        device: 1,
        inode: 2,
        size,
        modified_secs: 0,
        modified_nsecs: 0,
        changed_secs: 0,
        changed_nsecs: 0,
    }
}

fn event(producer: u64, sequence: u64, generation: u64) -> EventEnvelope {
    EventEnvelope {
        event_id: format!("00000000-0000-4000-8000-{sequence:012x}"),
        producer_id: format!("00000000-0000-4000-8000-{producer:012x}"),
        generation: format!("00000000-0000-4000-8000-{generation:012x}"),
        run_id: "00000000-0000-4000-8000-000000000004".to_string(),
        seq: sequence,
        event: EventPayload::Turn { phase: TurnEvent::Started, turn_id: "turn".to_string(), reason: None },
    }
}

fn identity(bytes: u64) -> Identity {
    Identity::from_stat(&stat(0o100600, 1000, bytes as i64)).unwrap()
}

fn spool_entry(e: &EventEnvelope, observed: u64, partial: bool, bytes: u64) -> Entry {
    Entry::scanned(SpoolName::new(e, observed, partial).filename(), identity(bytes))
}

#[test]
fn file_modes_are_classified_by_type_bits() {
    assert!(private_file(&stat(0o100600, 1000, 0), 1000));
    assert!(!private_file(&stat(0o040600, 1000, 0), 1000));
    assert!(!private_file(&stat(0o100644, 1000, 0), 1000));
    assert!(!private_file(&stat(0o100600, 1001, 0), 1000));
    assert!(directory_safe(&stat(0o040700, 1000, 0), 1000, true));
    assert!(!directory_safe(&stat(0o100700, 1000, 0), 1000, true));
    assert!(directory_safe(&stat(0o040755, 0, 0), 1000, false));
    assert!(!directory_safe(&stat(0o040777, 0, 0), 1000, false));
    assert!(trusted_tool(&stat(0o100755, 0, 0), 0o022));
    assert!(!trusted_tool(&stat(0o104755, 0, 0), 0o6022));
    assert!(!trusted_tool(&stat(0o100644, 0, 0), 0o022));
    assert!(owned_socket(&stat(0o140600, 1000, 0), 1000, true));
    assert!(!owned_socket(&stat(0o140666, 1000, 0), 1000, true));
    assert!(owned_socket(&stat(0o140666, 1000, 0), 1000, false));
    assert_eq!(file_kind(0o120777), FileKind::Symlink);
    assert_eq!(file_kind(0o010600), FileKind::Fifo);
    assert_eq!(file_kind(0o020600), FileKind::CharacterDevice);
    assert_eq!(file_kind(0o060600), FileKind::BlockDevice);
    assert_eq!(file_kind(0o140600), FileKind::Socket);
    assert_eq!(file_kind(0o000600), FileKind::Unknown);
    assert!(local_filesystem(0xef53));
    assert!(!local_filesystem(0x6969));
    assert_eq!(Identity::from_stat(&stat(0o100600, 1, -1)).unwrap_err(), RecoveryError::UnsafePath);
}

#[test]
fn exact_producer_byte_limit_counts_other_files() {
    let mine = event(2, 1, 3);
    let old_generation = event(2, 2, 1);
    let filler = MAX_PRODUCER_BYTES - MAX_RECORD_BYTES as u64;
    let entries = vec![spool_entry(&old_generation, 10, true, filler)];
    assert_eq!(budget(&entries, &mine, MAX_RECORD_BYTES), Ok(()));
    assert_eq!(budget(&entries, &mine, MAX_RECORD_BYTES + 1), Err(RecoveryError::BoundExceeded));
    let tight = vec![spool_entry(&old_generation, 10, true, filler + 1)];
    assert_eq!(budget(&tight, &mine, MAX_RECORD_BYTES), Err(RecoveryError::BoundExceeded));
    let other_producer = vec![spool_entry(&event(9, 2, 1), 10, false, filler + 1)];
    assert_eq!(budget(&other_producer, &mine, MAX_RECORD_BYTES), Ok(()));
}

#[test]
fn scan_sorts_and_classifies_entries() {
    let e = event(2, 1, 3);
    let children = vec![
        Ok((SpoolName::new(&e, 10, false).filename(), stat(0o100600, 1000, 5))),
        Ok(("recovery.lock".to_string(), stat(0o100600, 1000, 0))),
        Ok(("metadata.0.log".to_string(), stat(0o100600, 1000, 9))),
    ];
    let entries = scan(&children, 1000).unwrap();
    assert_eq!(entries.len(), 3);
    assert_eq!(entries[0].name, "metadata.0.log");
    assert_eq!(entries[1].name, "recovery.lock");
    assert!(entries[2].spool.is_some());
    let bad = vec![Ok(("x".to_string(), stat(0o100644, 1000, 5)))];
    assert!(scan(&bad, 1000).is_err());
    let failed: Vec<Result<(String, FileStat), RecoveryError>> = vec![Err(RecoveryError::Io)];
    assert_eq!(scan(&failed, 1000).unwrap_err(), RecoveryError::Io);
    let sorted = sort_by_name(vec![
        Entry::scanned("b".to_string(), identity(1)),
        Entry::scanned("a".to_string(), identity(1)),
    ]);
    assert_eq!(sorted[0].name, "a");
    assert!(is_log("metadata.3.log"));
    assert!(!is_log("metadata.4.log"));
}

#[test]
fn replay_selects_complete_unexpired_records_in_order() {
    let entries = vec![
        spool_entry(&event(2, 1, 3), 10, false, 5),
        spool_entry(&event(2, 2, 3), 10, true, 5),
        spool_entry(&event(2, 3, 3), 10, false, 5),
        Entry::scanned("unrelated".to_string(), identity(1)),
    ];
    assert_eq!(replay_selection(&entries, 100), vec![0, 2]);
    assert_eq!(replay_selection(&entries, 10 + 86_400_000), Vec::<usize>::new());
    assert_eq!(find_same_identity(&entries, &event(2, 3, 3)), Some(2));
    assert_eq!(find_same_identity(&entries, &event(2, 4, 3)), None);
    assert!(replay_name(&entries[0]).is_ok());
    assert_eq!(replay_name(&entries[1]).unwrap_err(), RecoveryError::InvalidRecord);
    assert_eq!(replay_name(&entries[3]).unwrap_err(), RecoveryError::InvalidRecord);
}

#[test]
fn cleanup_preview_selects_by_reason_and_protects_the_rest() {
    let entries = vec![
        Entry::scanned("metadata.0.log".to_string(), identity(7)),
        Entry::scanned("recovery.lock".to_string(), identity(0)),
        spool_entry(&event(2, 1, 3), 10, false, 5),
        Entry::scanned("unrecognized-orphan".to_string(), identity(3)),
    ];
    let expired = CleanupPlan::preview(&entries, &CleanupReason::Expired, 10 + 86_400_000, 4, 9);
    assert_eq!(expired.eligible_files(), 1);
    assert_eq!(expired.eligible_bytes(), 5);
    assert_eq!(expired.protected_files(), 2);
    assert_eq!(expired.deferred_files(), 0);
    let early = CleanupPlan::preview(&entries, &CleanupReason::Expired, 11, 4, 9);
    assert_eq!(early.eligible_files(), 0);
    let privacy = CleanupPlan::preview(&entries, &CleanupReason::PrivacyDisabled, 0, 4, 9);
    assert_eq!(privacy.eligible_files(), 2);
    assert_eq!(privacy.eligible_bytes(), 12);
    let retired = CleanupPlan::preview(
        &entries,
        &CleanupReason::RetiredGeneration {
            producer: "00000000-0000-4000-8000-000000000002".to_string(),
            generation: "00000000-0000-4000-8000-000000000003".to_string(),
        },
        0,
        4,
        9,
    );
    assert_eq!(retired.eligible_files(), 1);
    assert!(retired.check_current(4, 9).is_ok());
    assert!(retired.check_current(5, 9).is_err());
    assert!(retired.check_current(4, 8).is_err());
    let status = summarize(&entries, &StoreCounters::opened());
    assert_eq!(status.log_bytes, 7);
    assert_eq!(status.spool_files, 2);
    assert_eq!(status.spool_bytes, 8);
    assert_eq!(status.protected_files, 1);
    assert!(status.unknown_gap);
}

#[test]
fn bounded_reads_logs_and_handles() {
    assert_eq!(check_read_size(10, 10), Ok(()));
    assert_eq!(check_read_size(11, 10), Err(RecoveryError::BoundExceeded));
    assert_eq!(check_read_result(identity(4), identity(4), 4, 10), Ok(()));
    assert_eq!(check_read_result(identity(4), identity(5), 4, 10), Err(RecoveryError::IdentityChanged));
    assert_eq!(reserve_handle(0), Some(1));
    assert_eq!(reserve_handle(128), None);
    assert_eq!(plan_append(None, 10), Ok(false));
    assert_eq!(plan_append(Some(1024 * 1024 - 10), 10), Ok(false));
    assert_eq!(plan_append(Some(1024 * 1024 - 10), 11), Ok(true));
    assert_eq!(plan_append(None, 257), Err(RecoveryError::BoundExceeded));
    let plan = plan_rotation([true, false, true, true]);
    assert!(plan.remove_oldest);
    assert_eq!(plan.moves, vec![2, 0]);
    let mut counters = StoreCounters::opened();
    assert_eq!(counters.failure(RecoveryError::Io), RecoveryError::Io);
    assert_eq!(counters.rejected_attempts, 1);
    assert!(counters.changing().is_ok());
    assert_eq!(counters.revision, 1);
}

fn synthetic(turn: Source, session: Source, health_version: Source) -> Mapping {
    Mapping {
        harness: HarnessKind::Hermes,
        version: "synthetic-m1-only-v1".to_string(),
        turn,
        session,
        health_version,
    }
}

#[test]
fn provenance_refuses_unproven_sources_and_unreviewed_versions() {
    for bad in [Source::Prompt, Source::Environment, Source::Unproven] {
        let m = synthetic(bad, Source::Metadata, bad);
        assert_eq!(
            payload_plan(EventKind::Turn(TurnEvent::Started), &m, false),
            Err(RecoveryError::UnprovenSource)
        );
        assert_eq!(payload_plan(EventKind::ProducerHealth, &m, false), Err(RecoveryError::UnprovenSource));
    }
    let m = synthetic(Source::Metadata, Source::Environment, Source::Metadata);
    assert_eq!(
        payload_plan(EventKind::RunStarted, &m, false),
        Ok(PayloadPlan::RunStarted { keep_session: false })
    );
    assert_eq!(
        payload_plan(EventKind::Turn(TurnEvent::Failed), &m, false),
        Ok(PayloadPlan::Turn { keep_reason: true })
    );
    let mappings = vec![m];
    assert_eq!(mapping(HarnessKind::Hermes, "synthetic-m1-only-v1", &mappings), Ok(0));
    assert_eq!(
        mapping(HarnessKind::Hermes, "SYNTHETIC_CREDENTIAL_CANARY", &mappings),
        Err(RecoveryError::UnsupportedAdapter)
    );
    assert_eq!(mapping(HarnessKind::Claude, "synthetic-m1-only-v1", &mappings), Err(RecoveryError::UnsupportedAdapter));
    assert!(reviewed().is_empty());
    let source = vec![0u8; 10];
    let input = AdapterRecord { harness: HarnessKind::Hermes, version: "synthetic-m1-only-v1", source: &source };
    assert_eq!(reviewed_input(&input, &mappings), Ok(0));
    assert_eq!(reviewed_input(&input, &reviewed()), Err(RecoveryError::UnsupportedAdapter));
    let oversized = vec![0u8; MAX_RECORD_BYTES + 1];
    let big = AdapterRecord { harness: HarnessKind::Hermes, version: "v", source: &oversized };
    assert_eq!(reviewed_input(&big, &mappings), Err(RecoveryError::BoundExceeded));
    let mut started = event(2, 1, 3);
    started.event = EventPayload::RunStarted { harness_session_id: Some("s".to_string()) };
    assert_eq!(validate_replay(&started, &mappings[0]), Err(RecoveryError::UnprovenSource));
    started.event = EventPayload::RunStarted { harness_session_id: None };
    assert_eq!(validate_replay(&started, &mappings[0]), Ok(()));
}

const CANARIES: [&str; 5] = [
    "SYNTHETIC_PROMPT_CANARY",
    "SYNTHETIC_RESPONSE_CANARY",
    "SYNTHETIC_TERMINAL_CANARY",
    "SYNTHETIC_ERROR_CANARY",
    "SYNTHETIC_CREDENTIAL_CANARY",
];

/// An adapter source record: metadata plus content that must never be kept.
fn source_record(kind: &str, payload: &str, seq: &str) -> Vec<u8> {
    let ids = format!(
        r#""event_id":"{}","producer_id":"{}","generation":"{}","run_id":"{}""#,
        "00000000-0000-4000-8000-000000000001",
        "00000000-0000-4000-8000-000000000002",
        "00000000-0000-4000-8000-000000000003",
        "00000000-0000-4000-8000-000000000004"
    );
    let content = format!(
        r#""prompt":"{}","response":"{}","terminal":"{}","error":"{}","environment":"{}""#,
        CANARIES[0], CANARIES[1], CANARIES[2], CANARIES[3], CANARIES[4]
    );
    format!(r#"{{"metadata":{{{ids},"seq":{seq},"kind":"{kind}","payload":{payload}}},{content}}}"#).into_bytes()
}

fn synthetic_input(source: &[u8]) -> AdapterRecord<'_> {
    AdapterRecord { harness: HarnessKind::Hermes, version: "synthetic-m1-only-v1", source }
}

#[test]
fn eligible_metadata_keeps_only_reviewed_fields() {
    let reviewed_synthetic = vec![synthetic(Source::Metadata, Source::Metadata, Source::Metadata)];
    let bytes = source_record("turn.started", r#"{"turn_id":"metadata-turn-1"}"#, r#""1""#);
    let (event, harness, version) = eligible(&synthetic_input(&bytes), &reviewed_synthetic).unwrap().into_parts();
    assert_eq!(event.event_id, "00000000-0000-4000-8000-000000000001");
    assert_eq!(event.producer_id, "00000000-0000-4000-8000-000000000002");
    assert_eq!(event.generation, "00000000-0000-4000-8000-000000000003");
    assert_eq!(event.run_id, "00000000-0000-4000-8000-000000000004");
    assert_eq!(event.seq, 1);
    assert!(matches!(
        &event.event,
        EventPayload::Turn { phase: TurnEvent::Started, turn_id, reason: None } if turn_id == "metadata-turn-1"
    ));
    assert_eq!((harness, version.as_str()), (HarnessKind::Hermes, "synthetic-m1-only-v1"));
    let kept = format!("{event:?}");
    for canary in CANARIES {
        assert!(!kept.contains(canary));
    }
    let failed = source_record("turn.failed", r#"{"turn_id":"t","reason":"timeout"}"#, r#""7""#);
    let (event, _, _) = eligible(&synthetic_input(&failed), &reviewed_synthetic).unwrap().into_parts();
    assert_eq!(event.seq, 7);
    assert!(matches!(&event.event, EventPayload::Turn { phase: TurnEvent::Failed, reason: Some(r), .. } if r == "timeout"));
    let exited = source_record("run.exited", r#"{"exit_code":3}"#, r#""2""#);
    let (event, _, _) = eligible(&synthetic_input(&exited), &reviewed_synthetic).unwrap().into_parts();
    assert!(matches!(event.event, EventPayload::RunExited { exit_code: Some(3), reason: None }));
    let health = source_record("producer.health", &format!(r#"{{"adapter_version":"{}","signals":[]}}"#, CANARIES[4]), r#""2""#);
    let (event, _, _) = eligible(&synthetic_input(&health), &reviewed_synthetic).unwrap().into_parts();
    assert!(matches!(&event.event, EventPayload::ProducerHealth { adapter_version } if adapter_version == "synthetic-m1-only-v1"));
}

#[test]
fn eligible_refuses_unproven_and_malformed_sources() {
    for bad in [Source::Prompt, Source::Environment, Source::Unproven] {
        let mapping = vec![synthetic(bad, Source::Metadata, bad)];
        let turn = source_record("turn.started", &format!(r#"{{"turn_id":"{}"}}"#, CANARIES[0]), r#""1""#);
        assert_eq!(eligible(&synthetic_input(&turn), &mapping).err(), Some(RecoveryError::UnprovenSource));
        let health = source_record("producer.health", r#"{"signals":[]}"#, r#""1""#);
        assert_eq!(eligible(&synthetic_input(&health), &mapping).err(), Some(RecoveryError::UnprovenSource));
    }
    let unproven_session = vec![synthetic(Source::Metadata, Source::Environment, Source::Metadata)];
    let started = source_record("run.started", &format!(r#"{{"harness_session_id":"{}"}}"#, CANARIES[4]), r#""1""#);
    let (event, _, _) = eligible(&synthetic_input(&started), &unproven_session).unwrap().into_parts();
    assert!(matches!(event.event, EventPayload::RunStarted { harness_session_id: None }));
    let proven = vec![synthetic(Source::Metadata, Source::Metadata, Source::Metadata)];
    let (event, _, _) = eligible(&synthetic_input(&started), &proven).unwrap().into_parts();
    assert!(matches!(&event.event, EventPayload::RunStarted { harness_session_id: Some(s) } if s == CANARIES[4]));
    let invalid = |bytes: &[u8]| eligible(&synthetic_input(bytes), &proven).err();
    assert_eq!(invalid(b"not json"), Some(RecoveryError::InvalidRecord));
    assert_eq!(invalid(br#"{"other":{}}"#), Some(RecoveryError::InvalidRecord));
    assert_eq!(invalid(&source_record("turn.unknown", r#"{"turn_id":"t"}"#, r#""1""#)), Some(RecoveryError::InvalidRecord));
    assert_eq!(invalid(&source_record("turn.started", r#"{}"#, r#""1""#)), Some(RecoveryError::InvalidRecord));
    assert_eq!(invalid(&source_record("turn.started", r#"{"turn_id":"t"}"#, r#""x""#)), Some(RecoveryError::InvalidRecord));
    assert_eq!(invalid(&source_record("run.exited", r#"{"exit_code":"3"}"#, r#""1""#)), Some(RecoveryError::InvalidRecord));
    let unreviewed = AdapterRecord { harness: HarnessKind::Hermes, version: CANARIES[4], source: &started };
    assert_eq!(eligible(&unreviewed, &proven).err(), Some(RecoveryError::UnsupportedAdapter));
    let empty_version = AdapterRecord { harness: HarnessKind::Hermes, version: "", source: &started };
    assert_eq!(eligible(&empty_version, &proven).err(), Some(RecoveryError::BoundExceeded));
    let oversized = vec![b' '; MAX_RECORD_BYTES + 1];
    assert_eq!(eligible(&synthetic_input(&oversized), &proven).err(), Some(RecoveryError::BoundExceeded));
    assert_eq!(eligible(&synthetic_input(&started), &reviewed()).err(), Some(RecoveryError::UnsupportedAdapter));
}

#[test]
fn eligible_from_builds_events_from_plain_fields() {
    let id = |n: u32| Some(format!("00000000-0000-4000-8000-{n:012x}"));
    let fields = |kind: &str| SourceMetadata {
        kind: Some(kind.to_string()),
        event_id: id(1),
        producer_id: id(2),
        generation: id(3),
        run_id: id(4),
        seq: Some("42".to_string()),
        harness_session_id: None,
        exit_code: None,
        reason: Some("gone".to_string()),
        turn_id: Some("t".to_string()),
    };
    let mapping = synthetic(Source::Metadata, Source::Metadata, Source::Metadata);
    let (event, _, _) = eligible_from(Some(fields("run.exited")), &mapping, HarnessKind::Hermes).unwrap().into_parts();
    assert_eq!(event.seq, 42);
    assert!(matches!(&event.event, EventPayload::RunExited { exit_code: None, reason: Some(r) } if r == "gone"));
    assert_eq!(eligible_from(None, &mapping, HarnessKind::Hermes).err(), Some(RecoveryError::InvalidRecord));
    let mut upper = fields("turn.completed");
    upper.run_id = Some("00000000-0000-4000-8000-00000000000A".to_string());
    assert_eq!(eligible_from(Some(upper), &mapping, HarnessKind::Hermes).err(), Some(RecoveryError::InvalidRecord));
    assert_eq!(kind_from_text("turn.awaiting_input"), Some(EventKind::Turn(TurnEvent::AwaitingInput)));
    assert_eq!(kind_from_text("Turn.Started"), None);
}

#[test]
fn snapshot_counts_the_scanned_directory() {
    let e = event(2, 1, 3);
    let children = vec![
        Ok(("unrecognized-orphan".to_string(), stat(0o100600, 1000, 3))),
        Ok((SpoolName::new(&e, 10, false).filename(), stat(0o100600, 1000, 5))),
        Ok(("recovery.lock".to_string(), stat(0o100600, 1000, 0))),
        Ok(("metadata.0.log".to_string(), stat(0o100600, 1000, 9))),
    ];
    let status = snapshot(&children, 1000, &StoreCounters::opened()).unwrap();
    assert_eq!((status.spool_files, status.spool_bytes, status.protected_files, status.log_bytes), (2, 8, 1, 9));
    let full: Vec<Result<(String, FileStat), RecoveryError>> =
        (0..1024).map(|i| Ok((format!("orphan-{i}"), stat(0o100600, 1000, 1)))).collect();
    assert_eq!(snapshot(&full, 1000, &StoreCounters::opened()).unwrap().spool_files, 1024);
    let mut over = full.clone();
    over.push(Ok(("orphan-x".to_string(), stat(0o100600, 1000, 1))));
    assert_eq!(snapshot(&over, 1000, &StoreCounters::opened()).unwrap_err(), RecoveryError::BoundExceeded);
    assert_eq!(scan(&over, 1000).unwrap_err(), RecoveryError::BoundExceeded);
    let unsafe_child = vec![Ok(("x".to_string(), stat(0o100644, 1000, 5)))];
    assert_eq!(snapshot(&unsafe_child, 1000, &StoreCounters::opened()).unwrap_err(), RecoveryError::UnsafePath);
}

#[test]
fn applying_a_plan_without_failures_removes_its_eligible_entries() {
    let entries = vec![
        Entry::scanned("metadata.0.log".to_string(), identity(7)),
        spool_entry(&event(2, 1, 3), 10, false, 5),
        Entry::scanned("unrecognized-orphan".to_string(), identity(3)),
    ];
    let plan = CleanupPlan::preview(&entries, &CleanupReason::PrivacyDisabled, 0, 4, 9);
    let mut counters = StoreCounters::opened();
    counters.unknown_gap = false;
    let mut result = CleanupResult::empty();
    for entry in plan.selected() {
        assert!(result.record_unlink(&mut counters, entry, Ok(())));
        assert!(result.record_sync(&mut counters, Ok(())));
    }
    assert_eq!(result.removed_files, plan.eligible_files());
    assert_eq!(result.removed_bytes, plan.eligible_bytes());
    assert_eq!(result.failure, None);
    assert_eq!(counters.discarded_artifacts, 1);
    let mut partial = CleanupResult::empty();
    assert!(partial.record_unlink(&mut counters, &plan.selected()[0], Ok(())));
    assert!(!partial.record_sync(&mut counters, Err(RecoveryError::Io)));
    assert_eq!((partial.removed_files, partial.removed_bytes, partial.failure), (1, 7, Some(RecoveryError::Io)));
}

fn child(name: String, size: u64) -> Result<(String, FileStat), RecoveryError> {
    Ok((name, stat(0o100600, 1000, size as i64)))
}

#[test]
fn exact_producer_byte_limit_counts_partial_old_generation() {
    let original = event(2, 1, 3);
    let staged = 300u64;
    let partial = SpoolName::new(&original, 9, true).filename();
    let filler = MAX_PRODUCER_BYTES - staged;
    let before = vec![Entry::scanned(partial.clone(), identity(filler))];
    let second = event(2, 2, 4);
    assert_eq!(budget(&before, &second, staged as usize), Ok(()));
    let children = vec![child(partial, filler), child(SpoolName::new(&second, 10, false).filename(), staged)];
    let status = snapshot(&children, 1000, &StoreCounters::opened()).unwrap();
    assert_eq!(status.spool_bytes, MAX_PRODUCER_BYTES);
    let after = scan(&children, 1000).unwrap();
    assert_eq!(budget(&after, &event(2, 3, 5), 1), Err(RecoveryError::BoundExceeded));
    assert_eq!(status.spool_files, 2);
}

#[test]
fn global_limit_includes_unrecognized_orphan_without_deleting_it() {
    let entries = vec![Entry::scanned("unrecognized-orphan".to_string(), identity(MAX_SPOOL_BYTES))];
    assert_eq!(budget(&entries, &event(2, 1, 3), 100), Err(RecoveryError::BoundExceeded));
    let plan = CleanupPlan::preview(&entries, &CleanupReason::PrivacyDisabled, u64::MAX, 1, 1);
    assert_eq!(plan.eligible_files(), 0);
    assert_eq!(plan.protected_files(), 1);
    assert!(plan.selected().is_empty());
}

#[test]
fn bounded_replay_selects_predecessor_before_adversarial_uuid_order() {
    let mut entries = Vec::new();
    for sequence in 1..=64u64 {
        let mut e = event(2, sequence, 3);
        e.event_id = format!("00000000-0000-4000-8000-{:012x}", 1000 - sequence);
        entries.push(spool_entry(&e, 10, false, 100));
    }
    let sorted = sort_by_name(entries);
    let batch = replay_selection(&sorted, 10);
    assert_eq!(batch.len(), MAX_REPLAY_BATCH);
    let sequences: Vec<u64> = batch.iter().map(|&i| sorted[i].spool.as_ref().unwrap().sequence).collect();
    assert_eq!(sequences, (1..=32).collect::<Vec<_>>());
}

#[test]
fn mis_mapped_allowed_turn_and_version_strings_reject_before_temp() {
    for bad_source in [Source::Prompt, Source::Environment, Source::Unproven] {
        let mapping = vec![synthetic(bad_source, Source::Metadata, bad_source)];
        let turn = source_record("turn.started", &format!(r#"{{"turn_id":"{}"}}"#, CANARIES[0]), r#""1""#);
        assert_eq!(eligible(&synthetic_input(&turn), &mapping).err(), Some(RecoveryError::UnprovenSource));
        let health = source_record(
            "producer.health",
            &format!(r#"{{"adapter_version":"{}","signals":[]}}"#, CANARIES[4]),
            r#""1""#,
        );
        assert_eq!(eligible(&synthetic_input(&health), &mapping).err(), Some(RecoveryError::UnprovenSource));
    }
}

#[test]
fn unproven_optional_session_is_omitted_and_wrong_version_rejected() {
    let started = source_record("run.started", &format!(r#"{{"harness_session_id":"{}"}}"#, CANARIES[4]), r#""1""#);
    let mapping = vec![synthetic(Source::Metadata, Source::Environment, Source::Metadata)];
    let (event, _, _) = eligible(&synthetic_input(&started), &mapping).unwrap().into_parts();
    assert!(matches!(event.event, EventPayload::RunStarted { harness_session_id: None }));
    let bad_version = AdapterRecord { harness: HarnessKind::Hermes, version: CANARIES[4], source: &started };
    assert_eq!(eligible(&bad_version, &mapping).err(), Some(RecoveryError::UnsupportedAdapter));
}

#[test]
fn excluded_content_never_reaches_spool_temp_logs_or_cleanup() {
    let proven = vec![synthetic(Source::Metadata, Source::Metadata, Source::Metadata)];
    let bytes = source_record("turn.started", r#"{"turn_id":"metadata-turn-1"}"#, r#""1""#);
    let (event, _, _) = eligible(&synthetic_input(&bytes), &proven).unwrap().into_parts();
    let kept = format!("{event:?}");
    for canary in CANARIES {
        assert!(!kept.contains(canary));
    }
    let mut plain = event.clone();
    plain.event = EventPayload::Turn { phase: TurnEvent::Started, turn_id: "metadata-turn-1".to_string(), reason: None };
    assert!(event.same(&plain));
    let entries = vec![
        spool_entry(&event, 10, false, 200),
        Entry::scanned("metadata.0.log".to_string(), identity(50)),
    ];
    let plan = CleanupPlan::preview(&entries, &CleanupReason::PrivacyDisabled, 10, 1, 1);
    assert_eq!(plan.eligible_files(), 2);
}
