use recallgate::abort::Abort;
use recallgate::cadence::GateCadence;
use recallgate::gate::{CooldownState, GateError, GatePhase, GateState, LockedState};
use recallgate::ids::{GateId, ItemId};
use recallgate::item::{ChoiceIndex, Deck, Item, ItemError, McqChoices};
use recallgate::store::{
    begin_lock_checked, cadence_from_ms, cadence_to_ms, check_schema, cooldown_from_ms,
    cooldown_to_ms, count_from_sql, decode_due_ids, decode_gate_row, decode_item_row, encode_abort,
    encode_answer, encode_gate, encode_item_row, item_from_push_prompt, needs_migration,
    open_error, read_gate_id, read_item_id, read_timestamp, write_timestamp, GateRow, PushPrompt,
    StoreError, DEFAULT_COOLDOWN_MS, SCHEMA_VERSION,
};
use recallgate::time::Timestamp;

fn sample_item() -> Item {
    Item::new(
        ItemId::new(),
        "2 + 2".to_string(),
        McqChoices::new(["3".into(), "4".into(), "5".into(), "6".into()]),
        ChoiceIndex::try_new(1).expect("index"),
        false,
        None,
    )
}

fn prompt(stem: &str, choices: &[&str], correct_index: u8) -> PushPrompt {
    PushPrompt {
        stem: stem.to_string(),
        choices: choices.iter().map(|c| c.to_string()).collect(),
        correct_index,
        external_ref: None,
    }
}

#[test]
fn store_roundtrip_reopens_locked_gate() {
    let gate_id = GateId::new();
    let item = sample_item();
    let item_id = item.id;
    let started_at = Timestamp::now();
    let mut gate = GateState::idle();
    begin_lock_checked(&Some(item), &mut gate, LockedState::new(gate_id, item_id, started_at))
        .expect("lock");
    let row = encode_gate(gate.phase()).expect("encode");
    match decode_gate_row(&row).expect("gate") {
        GatePhase::Locked(locked) => {
            assert_eq!(locked.gate_id, gate_id);
            assert_eq!(locked.item_id, item_id);
        }
        other => panic!("expected locked, got {other:?}"),
    }
}

#[test]
fn second_begin_lock_fails() {
    let item = sample_item();
    let item_id = item.id;
    let item = Some(item);
    let mut gate = GateState::idle();
    begin_lock_checked(&item, &mut gate, LockedState::new(GateId::new(), item_id, Timestamp::now()))
        .expect("first lock");
    let err = begin_lock_checked(
        &item,
        &mut gate,
        LockedState::new(GateId::new(), item_id, Timestamp::now()),
    )
    .expect_err("second lock");
    assert!(matches!(err, StoreError::Gate(GateError::AlreadyLocked)));
}

#[test]
fn import_json_prompt_lists_as_due() {
    let pushed = prompt("Capital of France?", &["London", "Paris", "Berlin", "Madrid"], 1);
    let item = item_from_push_prompt(pushed, ItemId::new()).expect("import");
    let deck = Deck::new(vec![item]);
    assert_eq!(deck.deck_items().len(), 1);
}

#[test]
fn suspended_item_absent_from_due() {
    let mut item = sample_item();
    item.suspended = true;
    let deck = Deck::new(vec![item]);
    assert_eq!(deck.deck_items().len(), 0);
}

#[test]
fn cadence_lock_interval_roundtrips() {
    let cadence = GateCadence::new(120 * 1000);
    let ms = cadence_to_ms(cadence).expect("set");
    assert_eq!(cadence_from_ms(ms).expect("get"), cadence);
}

#[test]
fn corrupt_header_returns_typed_error() {
    let err = open_error(true, "file is not a database".to_string());
    assert!(matches!(err, StoreError::CorruptDatabase | StoreError::Sqlite(_)));
    assert_eq!(err, StoreError::CorruptDatabase);
}

#[test]
fn persist_1000() {
    let mut items = Vec::new();
    for n in 0..1000 {
        let stem = format!("q{n}");
        let item = item_from_push_prompt(prompt(&stem, &["a", "b", "c", "d"], 0), ItemId::new())
            .expect("push");
        items.push(item);
    }
    assert_eq!(Deck::new(items).deck_items().len(), 1000);
}

#[test]
fn answer_roundtrip_through_store() {
    let item = sample_item();
    let at = Timestamp::from_millis(1_700_000_000_123);
    let answer = item.answer_for_choice(ChoiceIndex::try_new(1).expect("index"), at);
    let row = encode_answer(&answer).expect("answer");
    assert_eq!(row.chosen_index, 1);
    assert_eq!(row.correct, 1);
    assert_eq!(read_item_id(&Some(row.item_id.clone())).expect("id"), item.id);
    assert_eq!(read_timestamp(&Some(row.answered_at.clone())).expect("at"), at);
}

#[test]
fn invalid_json_prompt_rejected() {
    let err = item_from_push_prompt(prompt("x", &["a"], 0), ItemId::new()).expect_err("bad choices");
    assert!(matches!(err, StoreError::InvalidPrompt(_)));
}

#[test]
fn invalid_choice_index_rejected() {
    let err = item_from_push_prompt(prompt("x", &["a", "b", "c", "d"], 9), ItemId::new())
        .expect_err("bad index");
    assert!(matches!(err, StoreError::Item(ItemError::InvalidChosenIndex)));
}

#[test]
fn pushed_prompt_becomes_an_active_item() {
    let id = ItemId::new();
    let mut pushed = prompt("Capital?", &["a", "b", "c", "d"], 3);
    pushed.external_ref = Some("ext-1".to_string());
    let item = item_from_push_prompt(pushed, id).expect("item");
    assert_eq!(item.id, id);
    assert_eq!(item.stem, "Capital?");
    assert_eq!(item.correct_index.index(), 3);
    assert!(!item.suspended);
    assert_eq!(item.external_ref.as_deref(), Some("ext-1"));
    assert_eq!(item.choices.as_slice()[3], "d");
}

#[test]
fn begin_lock_checks_the_item() {
    let mut gate = GateState::idle();
    let locked = LockedState::new(GateId::new(), ItemId::new(), Timestamp::now());
    assert_eq!(begin_lock_checked(&None, &mut gate, locked), Err(StoreError::ItemMissing));
    let mut item = sample_item();
    item.suspended = true;
    assert_eq!(begin_lock_checked(&Some(item), &mut gate, locked), Err(StoreError::ItemSuspended));
    assert_eq!(*gate.phase(), GatePhase::Idle);
}

#[test]
fn gate_rows_round_trip_every_phase() {
    let gate = GateId::new();
    let item = ItemId::new();
    let phases = [
        GatePhase::Idle,
        GatePhase::Locked(LockedState::new(gate, item, Timestamp::from_millis(1_700_000_000_000))),
        GatePhase::Cooldown(CooldownState::new(gate, Timestamp::from_millis(1_700_000_060_500))),
    ];
    for phase in phases {
        let row = encode_gate(&phase).expect("encode");
        assert_eq!(decode_gate_row(&row).expect("decode"), phase);
    }
}

#[test]
fn gate_row_texts() {
    let row = encode_gate(&GatePhase::Idle).expect("idle");
    assert_eq!(row.phase, "idle");
    assert!(row.gate_id.is_none() && row.item_id.is_none());
    assert!(row.started_at.is_none() && row.until.is_none());
    let gate = GateId::new();
    let row = encode_gate(&GatePhase::Cooldown(CooldownState::new(gate, Timestamp::from_millis(0))))
        .expect("cooldown");
    assert_eq!(row.phase, "cooldown");
    assert_eq!(row.gate_id.as_deref(), Some(&gate.as_uuid().to_be_bytes()[..]));
    assert_eq!(row.until.as_deref(), Some("1970-01-01T00:00:00+00:00"));
    assert!(row.item_id.is_none());
}

#[test]
fn corrupt_gate_rows_are_rejected() {
    let unknown = GateRow {
        phase: "frozen".to_string(),
        gate_id: None,
        item_id: None,
        started_at: None,
        until: None,
    };
    assert_eq!(decode_gate_row(&unknown), Err(StoreError::CorruptDatabase));
    let missing_id = GateRow {
        phase: "locked".to_string(),
        gate_id: None,
        item_id: Some(ItemId::new().as_uuid().to_be_bytes().to_vec()),
        started_at: Some("2024-01-01T00:00:00+00:00".to_string()),
        until: None,
    };
    assert_eq!(decode_gate_row(&missing_id), Err(StoreError::CorruptDatabase));
    let bad_time = GateRow {
        phase: "cooldown".to_string(),
        gate_id: Some(GateId::new().as_uuid().to_be_bytes().to_vec()),
        item_id: None,
        started_at: None,
        until: Some("yesterday".to_string()),
    };
    assert_eq!(decode_gate_row(&bad_time), Err(StoreError::CorruptDatabase));
}

#[test]
fn identifier_blobs_must_be_sixteen_bytes_of_a_v4_uuid() {
    let id = ItemId::new();
    let bytes = id.as_uuid().to_be_bytes().to_vec();
    assert_eq!(read_item_id(&Some(bytes.clone())), Ok(id));
    assert_eq!(read_item_id(&Some(bytes[..15].to_vec())), Err(StoreError::CorruptDatabase));
    assert_eq!(read_item_id(&None), Err(StoreError::CorruptDatabase));
    let v3 = 0x6fa4_59ea_ee8a_3ca2_894e_db77_e160_355e_u128.to_be_bytes().to_vec();
    assert_eq!(read_gate_id(&Some(v3)), Err(StoreError::CorruptDatabase));
}

#[test]
fn timestamps_write_and_read_rfc3339() {
    let t = Timestamp::from_millis(1_700_000_000_123);
    let text = write_timestamp(t).expect("write");
    assert_eq!(text, "2023-11-14T22:13:20.123+00:00");
    assert_eq!(read_timestamp(&Some(text)), Ok(t));
    assert_eq!(read_timestamp(&None), Err(StoreError::CorruptDatabase));
    assert_eq!(read_timestamp(&Some("not a time".to_string())), Err(StoreError::CorruptDatabase));
    assert_eq!(write_timestamp(Timestamp::from_millis(i64::MAX)), Err(StoreError::TimestampOutOfRange));
    let fine = Timestamp { secs: 1_700_000_000, nanos: 123_456_789 };
    let text = write_timestamp(fine).expect("write");
    assert_eq!(text, "2023-11-14T22:13:20.123456789+00:00");
    assert_eq!(read_timestamp(&Some(text)), Ok(fine));
    let micros = Timestamp { secs: 1_700_000_000, nanos: 123_456_000 };
    assert_eq!(write_timestamp(micros).as_deref(), Ok("2023-11-14T22:13:20.123456+00:00"));
}

#[test]
fn item_rows_round_trip() {
    let mut item = sample_item();
    item.external_ref = Some("deck-7".to_string());
    let row = encode_item_row(&item);
    assert_eq!(row.stem, "2 + 2");
    assert_eq!(row.choices_json, r#"["3","4","5","6"]"#);
    assert_eq!(row.correct_index, 1);
    assert_eq!(row.suspended, 0);
    assert_eq!(decode_item_row(item.id, &row), Ok(item));
}

#[test]
fn item_rows_with_bad_columns_are_rejected() {
    let item = sample_item();
    let mut row = encode_item_row(&item);
    row.choices_json = r#"["3","4"]"#.to_string();
    assert_eq!(decode_item_row(item.id, &row), Err(StoreError::CorruptDatabase));
    let mut row = encode_item_row(&item);
    row.choices_json = "not json".to_string();
    assert_eq!(decode_item_row(item.id, &row), Err(StoreError::CorruptDatabase));
    let mut row = encode_item_row(&item);
    row.correct_index = 4;
    assert!(decode_item_row(item.id, &row).is_err());
}

#[test]
fn abort_rows_record_the_method_and_cost() {
    let gate = GateId::new();
    let abort = Abort::new(gate, "hatch".to_string(), Timestamp::from_millis(0), 1);
    let row = encode_abort(&abort).expect("abort");
    assert_eq!(row.method, "hatch");
    assert_eq!(row.cost_paid, 1);
    assert_eq!(row.at, "1970-01-01T00:00:00+00:00");
    assert_eq!(read_gate_id(&Some(row.gate_id)), Ok(gate));
}

#[test]
fn settings_and_counts_must_not_be_negative() {
    assert_eq!(cadence_from_ms(-1), Err(StoreError::CorruptDatabase));
    assert_eq!(cadence_from_ms(0), Ok(GateCadence::new(0)));
    assert_eq!(cadence_to_ms(GateCadence::new(u64::MAX)), Err(StoreError::CorruptDatabase));
    assert_eq!(cooldown_from_ms(DEFAULT_COOLDOWN_MS), Ok(60_000));
    assert_eq!(cooldown_from_ms(-5), Err(StoreError::CorruptDatabase));
    assert_eq!(cooldown_to_ms(60_000), Ok(60_000));
    assert_eq!(cooldown_to_ms(u64::MAX), Err(StoreError::CorruptDatabase));
    assert_eq!(count_from_sql(3), Ok(3));
    assert_eq!(count_from_sql(-1), Err(StoreError::CorruptDatabase));
}

#[test]
fn schema_checks() {
    assert!(needs_migration(0));
    assert!(!needs_migration(SCHEMA_VERSION));
    assert_eq!(check_schema(&[1, 1, 1, 1, 1], 1, 1), Ok(()));
    assert_eq!(check_schema(&[1, 0, 1, 1, 1], 1, 1), Err(StoreError::CorruptDatabase));
    assert_eq!(check_schema(&[1, 1, 1, 1, 1], 0, 1), Err(StoreError::CorruptDatabase));
    assert_eq!(check_schema(&[1, 1, 1, 1, 1], 1, 2), Err(StoreError::CorruptDatabase));
    assert_eq!(open_error(false, "disk I/O error".to_string()), StoreError::Sqlite("disk I/O error".to_string()));
}

#[test]
fn due_ids_decode_in_order() {
    let a = ItemId::new();
    let b = ItemId::new();
    let blobs = vec![a.as_uuid().to_be_bytes().to_vec(), b.as_uuid().to_be_bytes().to_vec()];
    assert_eq!(decode_due_ids(&blobs), Ok(vec![a, b]));
    let bad = vec![a.as_uuid().to_be_bytes().to_vec(), vec![1, 2, 3]];
    let message = "Invalid column type Blob at index: 0, name: id".to_string();
    assert_eq!(decode_due_ids(&bad), Err(StoreError::Sqlite(message.clone())));
    let sqlite_text =
        rusqlite::Error::InvalidColumnType(0, "id".into(), rusqlite::types::Type::Blob).to_string();
    assert_eq!(sqlite_text, message);
    let version_three = vec![vec![0x12, 0x34, 0x56, 0x78, 0x9a, 0xbc, 0x3d, 0xef, 0x80, 0, 0, 0, 0, 0, 0, 1]];
    assert_eq!(decode_due_ids(&version_three), Err(StoreError::Sqlite(message)));
}

#[test]
fn store_error_messages() {
    assert_eq!(StoreError::Sqlite("boom".to_string()).message(), "boom");
    assert_eq!(StoreError::from(GateError::AlreadyLocked), StoreError::Gate(GateError::AlreadyLocked));
    assert_eq!(StoreError::from(ItemError::InvalidChosenIndex), StoreError::Item(ItemError::InvalidChosenIndex));
    assert!(!StoreError::CorruptDatabase.message().is_empty());
}

#[test]
fn store_roundtrip_locked_survives_drop_without_unlock() {
    let item = sample_item();
    let item_id = item.id;
    let mut gate = GateState::idle();
    begin_lock_checked(&Some(item), &mut gate, LockedState::new(GateId::new(), item_id, Timestamp::now()))
        .expect("lock");
    let row = encode_gate(gate.phase()).expect("write");
    drop(gate);
    assert!(matches!(decode_gate_row(&row).expect("gate"), GatePhase::Locked(_)));
}

#[test]
fn gate_push_prompt_then_gate_due() {
    let pushed = prompt("Capital?", &["a", "b", "c", "d"], 1);
    let item = item_from_push_prompt(pushed, ItemId::new()).expect("push");
    let due = Deck::new(vec![item]).deck_items();
    assert_eq!(due.len(), 1);
}
