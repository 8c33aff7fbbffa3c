use harbormaster::protocol::{EventEnvelope, EventPayload, TurnEvent};
use harbormaster::recovery::names::SpoolName;

fn event(sequence: u64, generation: u64) -> EventEnvelope {
    EventEnvelope {
        event_id: format!("00000000-0000-4000-8000-{sequence:012x}"),
        producer_id: "00000000-0000-4000-8000-000000000002".to_string(),
        generation: format!("00000000-0000-4000-8000-{generation:012x}"),
        run_id: "00000000-0000-4000-8000-000000000004".to_string(),
        seq: sequence,
        event: EventPayload::Turn {
            phase: TurnEvent::Started,
            turn_id: "metadata-turn-1".to_string(),
            reason: None,
        },
    }
}

#[test]
fn spool_name_prints_fixed_layout() {
    let name = SpoolName::new(&event(1, 3), 10, false);
    assert_eq!(
        name.filename(),
        "spool-00000000-0000-4000-8000-000000000002_00000000-0000-4000-8000-000000000003_00000000000000000001_00000000-0000-4000-8000-000000000001_00000000000000000010.json"
    );
    let partial = SpoolName::new(&event(1, 3), 9, true);
    assert!(partial.filename().ends_with(".part"));
}

#[test]
fn spool_name_parse_roundtrip() {
    let name = SpoolName::new(&event(7, 3), u64::MAX, true);
    let text = name.filename();
    let parsed = SpoolName::parse(&text).unwrap();
    assert_eq!(parsed.filename(), text);
    assert_eq!(parsed.sequence, 7);
    assert_eq!(parsed.observed_ms, u64::MAX);
    assert!(parsed.partial);
    assert!(parsed.matches(&event(7, 3)));
    assert!(!parsed.matches(&event(7, 4)));
}

#[test]
fn spool_name_rejects_other_names() {
    for text in ["recovery.lock", "metadata.0.log", "unrecognized-orphan", "spool-"] {
        assert!(SpoolName::parse(text).is_none());
    }
    let text = SpoolName::new(&event(1, 3), 10, false).filename();
    assert!(SpoolName::parse(&text.replace(".json", ".tmp")).is_none());
    assert!(SpoolName::parse(&text.to_uppercase()).is_none());
    let overflow = text.replacen("00000000000000000010", "99999999999999999999", 1);
    assert!(SpoolName::parse(&overflow).is_none());
}

#[test]
fn spool_expiry_is_exact_and_never_in_the_future() {
    let name = SpoolName::new(&event(1, 3), 100, false);
    assert!(!name.expired(0));
    assert!(!name.expired(100 + 86_400_000 - 1));
    assert!(name.expired(100 + 86_400_000));
}
