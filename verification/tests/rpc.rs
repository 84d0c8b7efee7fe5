use recallgate::cadence::GateCadence;
use recallgate::gate::{CooldownState, GateError, GatePhase, GateState, LockedState};
use recallgate::ids::{GateId, ItemId};
use recallgate::item::{ChoiceIndex, Item, McqChoices};
use recallgate::rpc::{
    abort_freeze, check_version, cooldown_expired, gate_lock_precheck, gate_status, map_store,
    open_after_ack, parse_request_line, relock_after_cooldown, request_method, resolve_lock_item, route_method,
    show_ack_result, submit_choice,
    DaemonCore, LockCapability, LockStart, RpcError, RpcMethod,
};
use recallgate::jsonrpc::{reply_error, reply_result, request_line};
use recallgate::rpc::{abort_method_param, chosen_index_param, lock_prompt_id, read_show_ack};
use recallgate::store::StoreError;
use recallgate::time::Timestamp;

fn card(id: ItemId) -> Item {
    Item::new(
        id,
        "Q".to_string(),
        McqChoices::new(["a".into(), "b".into(), "c".into(), "d".into()]),
        ChoiceIndex::try_new(0).expect("index"),
        false,
        None,
    )
}

fn locked_gate(item: ItemId) -> (GateState, GateId) {
    let gate_id = GateId::new();
    let mut gate = GateState::idle();
    gate.begin_lock(LockedState::new(gate_id, item, Timestamp::from_millis(1_000))).expect("lock");
    (gate, gate_id)
}

fn error_body(line: &str) -> serde_json::Value {
    let (err, id) = parse_request_line(line).err().expect("error");
    let (code, message) = err.code_and_message();
    serde_json::from_str(&reply_error(&id, code, &message)).expect("json response")
}

#[test]
fn rpc_rejects_unknown_method() {
    let body = error_body(r#"{"jsonrpc":"2.0","method":"nope","id":1}"#);
    assert_eq!(body["error"]["code"], -32601);
    assert_eq!(body["id"], 1);
}

#[test]
fn gate_unlock_is_method_not_found() {
    let body = error_body(r#"{"jsonrpc":"2.0","method":"gate_unlock","id":2}"#);
    assert_eq!(body["error"]["code"], -32601);
    assert_eq!(route_method("gate_unlock"), Err(RpcError::MethodNotFound));
}

#[test]
fn gate_status_idle_by_default() {
    let report = gate_status(&GatePhase::Idle, LockCapability::NoBackend).expect("status");
    assert_eq!(report.phase, "idle");
    assert_eq!(report.capability, "none");
    assert!(report.session_id.is_none());
}

#[test]
fn gate_lock_without_backend_errors() {
    let cadence = GateCadence::new(0);
    let err = gate_lock_precheck(LockCapability::NoBackend, cadence, None, 0, &GatePhase::Idle)
        .expect_err("no backend");
    assert_eq!(err.code_and_message().1, "no_lock_backend");
    let report = gate_status(&GatePhase::Idle, LockCapability::NoBackend).expect("status");
    assert_eq!(report.phase, "idle");
}

#[test]
fn malformed_json_then_next_call_works() {
    let bad_body = error_body("{not json");
    assert_eq!(bad_body["error"]["code"], -32700);
    assert!(bad_body["id"].is_null());
    let ok = parse_request_line(r#"{"jsonrpc":"2.0","method":"gate_status","id":8}"#).ok().expect("request");
    assert_eq!(ok.method, RpcMethod::GateStatus);
    assert_eq!(ok.id, "8");
    let report = gate_status(&GatePhase::Idle, LockCapability::NoBackend).expect("status");
    assert_eq!(report.phase, "idle");
}

#[test]
fn gate_lock_with_backend_then_submit() {
    let item = ItemId::new();
    let start = gate_lock_precheck(LockCapability::SessionLock, GateCadence::new(0), None, 0, &GatePhase::Idle)
        .expect("fresh");
    assert_eq!(start, LockStart::Fresh);
    let chosen = resolve_lock_item(None, &vec![item]).expect("item");
    assert_eq!(chosen, item);
    let (mut gate, gate_id) = locked_gate(item);
    let report = gate_status(gate.phase(), LockCapability::SessionLock).expect("status");
    assert_eq!(report.session_id, Some(gate_id.to_string()));
    let answer = submit_choice(&mut gate, &Some(card(item)), 0, Timestamp::from_millis(2_000)).expect("submit");
    assert!(answer.correct());
    let report = gate_status(gate.phase(), LockCapability::SessionLock).expect("status");
    assert_eq!(report.phase, "idle");
}

#[test]
fn gate_lock_while_locked_reshows() {
    let item = ItemId::new();
    let (gate, gate_id) = locked_gate(item);
    let start = gate_lock_precheck(LockCapability::SessionLock, GateCadence::new(60_000), Some(0), 1, gate.phase())
        .expect("reshow");
    match start {
        LockStart::Reshow(locked) => {
            assert_eq!(locked.gate_id, gate_id);
            assert_eq!(locked.item_id, item);
        }
        LockStart::Fresh => panic!("expected the open freeze"),
    }
}

#[test]
fn gate_abort_enters_cooldown_without_answer() {
    let item = ItemId::new();
    let (mut gate, gate_id) = locked_gate(item);
    let out = abort_freeze(&mut gate, Some("hatch".to_string()), Timestamp::from_millis(5_000), 60_000)
        .expect("abort");
    assert_eq!(out.until, Timestamp::from_millis(65_000));
    assert_eq!(out.abort.method, "hatch");
    assert_eq!(out.abort.cost_paid, 1);
    assert_eq!(out.abort.gate_id, gate_id);
    let report = gate_status(gate.phase(), LockCapability::SessionLock).expect("status");
    assert_eq!(report.phase, "cooldown");
    assert!(report.cooldown_until.is_some());
}

#[test]
fn gate_lock_grab_busy() {
    assert_eq!(show_ack_result(false, Some("grab_busy")), Err(RpcError::GrabBusy));
    assert_eq!(RpcError::GrabBusy.code_and_message().1, "grab_busy");
    let report = gate_status(&GatePhase::Idle, LockCapability::X11Grab).expect("status");
    assert_eq!(report.phase, "idle");
}

#[test]
fn cooldown_tick_relocks_without_gate_lock() {
    let item = ItemId::new();
    let (mut gate, _) = locked_gate(item);
    abort_freeze(&mut gate, None, Timestamp::from_millis(5_000), 0).expect("abort");
    let relocked = relock_after_cooldown(&mut gate, Timestamp::from_millis(5_000), GateId::new(), item)
        .expect("tick");
    assert_eq!(relocked.item_id, item);
    let report = gate_status(gate.phase(), LockCapability::SessionLock).expect("status");
    assert_eq!(report.phase, "locked");
}

#[test]
fn gate_abort_unknown_to_mcp_shape_is_still_daemon_method() {
    assert_eq!(route_method("gate_abort"), Ok(RpcMethod::GateAbort));
    let mut gate = GateState::idle();
    let err = abort_freeze(&mut gate, None, Timestamp::from_millis(0), 60_000).err().expect("not locked");
    assert_eq!(err.code_and_message().1, "not_locked");
}

#[test]
fn routes_every_daemon_method() {
    assert_eq!(route_method("gate_status"), Ok(RpcMethod::GateStatus));
    assert_eq!(route_method("gate_due"), Ok(RpcMethod::GateDue));
    assert_eq!(route_method("gate_push_prompt"), Ok(RpcMethod::GatePushPrompt));
    assert_eq!(route_method("gate_lock"), Ok(RpcMethod::GateLock));
    assert_eq!(route_method("gate_submit_choice"), Ok(RpcMethod::GateSubmitChoice));
    assert_eq!(route_method("Gate_status"), Err(RpcError::MethodNotFound));
    assert_eq!(check_version("2.0"), Ok(()));
    assert_eq!(check_version("1.0"), Err(RpcError::InvalidRequest));
}

#[test]
fn error_codes_and_messages() {
    let cases = [
        (RpcError::Parse, -32700, "parse error"),
        (RpcError::InvalidRequest, -32600, "invalid request"),
        (RpcError::MethodNotFound, -32601, "method not found"),
        (RpcError::InvalidParams, -32602, "invalid params"),
        (RpcError::NoLockBackend, -32000, "no_lock_backend"),
        (RpcError::AlreadyLocked, -32000, "already_locked"),
        (RpcError::EmptyDeck, -32000, "empty_deck"),
        (RpcError::CadenceActive, -32000, "cadence_active"),
        (RpcError::GrabBusy, -32000, "grab_busy"),
        (RpcError::NotLocked, -32000, "not_locked"),
        (RpcError::IllegalTransition, -32000, "illegal_transition"),
        (RpcError::Store("disk full".to_string()), -32000, "disk full"),
    ];
    for (err, code, message) in cases {
        let (c, m) = err.code_and_message();
        assert_eq!(c, code);
        assert_eq!(m, message);
    }
    assert_eq!(LockCapability::SessionLock.as_str(), "session_lock");
    assert_eq!(LockCapability::X11Grab.as_str(), "x11_grab");
}

#[test]
fn store_errors_map_to_request_errors() {
    assert_eq!(map_store(StoreError::Gate(GateError::AlreadyLocked)), RpcError::AlreadyLocked);
    assert_eq!(map_store(StoreError::Gate(GateError::NotLocked)), RpcError::NotLocked);
    assert_eq!(map_store(StoreError::Gate(GateError::IllegalTransition)), RpcError::IllegalTransition);
    assert_eq!(map_store(StoreError::InvalidPrompt("x".to_string())), RpcError::InvalidParams);
    assert_eq!(map_store(StoreError::ItemMissing), RpcError::InvalidParams);
    assert_eq!(map_store(StoreError::ItemSuspended), RpcError::InvalidParams);
    assert_eq!(map_store(StoreError::Sqlite("locked".to_string())), RpcError::Store("locked".to_string()));
    assert_eq!(
        map_store(StoreError::CorruptDatabase),
        RpcError::Store("database is corrupt or not a recallgate store".to_string())
    );
}

#[test]
fn lock_precheck_applies_the_cadence() {
    let cadence = GateCadence::new(60_000);
    assert_eq!(
        gate_lock_precheck(LockCapability::X11Grab, cadence, Some(1_000), 30_000, &GatePhase::Idle),
        Err(RpcError::CadenceActive)
    );
    assert_eq!(
        gate_lock_precheck(LockCapability::X11Grab, cadence, Some(1_000), 61_000, &GatePhase::Idle),
        Ok(LockStart::Fresh)
    );
    let cooldown = GatePhase::Cooldown(CooldownState::new(GateId::new(), Timestamp::from_millis(0)));
    assert_eq!(
        gate_lock_precheck(LockCapability::X11Grab, cadence, None, 0, &cooldown),
        Ok(LockStart::Fresh)
    );
}

#[test]
fn lock_item_resolution() {
    let a = ItemId::new();
    let b = ItemId::new();
    assert_eq!(resolve_lock_item(None, &vec![]), Err(RpcError::EmptyDeck));
    assert_eq!(resolve_lock_item(Some(&b.to_string()), &vec![a, b]), Ok(b));
    assert_eq!(resolve_lock_item(Some(&b.to_string()), &vec![a]), Err(RpcError::InvalidParams));
    assert_eq!(resolve_lock_item(Some("nonsense"), &vec![a]), Err(RpcError::InvalidParams));
    for _ in 0..20 {
        let picked = resolve_lock_item(None, &vec![a, b]).expect("pick");
        assert!(picked == a || picked == b);
    }
}

#[test]
fn show_acknowledgements() {
    assert_eq!(show_ack_result(true, None), Ok(()));
    assert_eq!(show_ack_result(false, Some("unsupported")), Err(RpcError::NoLockBackend));
    assert_eq!(show_ack_result(false, None), Err(RpcError::NoLockBackend));
}

#[test]
fn submit_checks_phase_index_and_item() {
    let item = ItemId::new();
    let mut idle = GateState::idle();
    assert_eq!(
        submit_choice(&mut idle, &Some(card(item)), 0, Timestamp::from_millis(0)).err(),
        Some(RpcError::NotLocked)
    );
    let (mut gate, _) = locked_gate(item);
    assert_eq!(
        submit_choice(&mut gate, &Some(card(item)), 4, Timestamp::from_millis(0)).err(),
        Some(RpcError::InvalidParams)
    );
    assert_eq!(
        submit_choice(&mut gate, &Some(card(ItemId::new())), 1, Timestamp::from_millis(0)).err(),
        Some(RpcError::InvalidParams)
    );
    assert_eq!(submit_choice(&mut gate, &None, 1, Timestamp::from_millis(0)).err(), Some(RpcError::InvalidParams));
    assert!(matches!(gate.phase(), GatePhase::Locked(_)));
    let answer = submit_choice(&mut gate, &Some(card(item)), 3, Timestamp::from_millis(9)).expect("wrong answer");
    assert!(!answer.correct());
    assert_eq!(answer.chosen_index().index(), 3);
    assert_eq!(*gate.phase(), GatePhase::Idle);
}

#[test]
fn abort_overflow_and_default_method() {
    let (mut gate, _) = locked_gate(ItemId::new());
    let last = Timestamp { secs: i64::MAX, nanos: 999_999_999 };
    let err = abort_freeze(&mut gate, None, last, 1).err().expect("overflow");
    assert_eq!(err, RpcError::Store("timestamp out of range".to_string()));
    assert!(matches!(gate.phase(), GatePhase::Locked(_)));
    let out = abort_freeze(&mut gate, None, Timestamp::from_millis(0), 60_000).expect("abort");
    assert_eq!(out.abort.method, "hatch");
}

#[test]
fn abort_cooldown_keeps_the_nanoseconds() {
    let (mut gate, _) = locked_gate(ItemId::new());
    let now = Timestamp { secs: 1_700_000_000, nanos: 999_123_456 };
    let out = abort_freeze(&mut gate, None, now, 1_500).expect("abort");
    assert_eq!(out.until, Timestamp { secs: 1_700_000_002, nanos: 499_123_456 });
    assert_eq!(out.until.to_rfc3339().as_deref(), Some("2023-11-14T22:13:22.499123456+00:00"));
    let phase = *gate.phase();
    assert!(!cooldown_expired(&phase, Timestamp { secs: 1_700_000_002, nanos: 499_123_455 }));
    assert!(cooldown_expired(&phase, Timestamp { secs: 1_700_000_002, nanos: 499_123_456 }));
    assert!(cooldown_expired(&phase, Timestamp { secs: 1_700_000_003, nanos: 0 }));
}

#[test]
fn cooldown_runs_out_at_its_end() {
    let phase = GatePhase::Cooldown(CooldownState::new(GateId::new(), Timestamp::from_millis(100)));
    assert!(!cooldown_expired(&phase, Timestamp::from_millis(99)));
    assert!(cooldown_expired(&phase, Timestamp::from_millis(100)));
    assert!(!cooldown_expired(&GatePhase::Idle, Timestamp::from_millis(100)));
    let mut gate = GateState::from_phase(phase);
    assert_eq!(relock_after_cooldown(&mut gate, Timestamp::from_millis(50), GateId::new(), ItemId::new()), None);
    assert_eq!(*gate.phase(), phase);
}

#[test]
fn daemon_core_remembers_the_last_unlock() {
    let mut core = DaemonCore::new(LockCapability::X11Grab);
    assert_eq!(core.last_unlock, None);
    core.note_unlock(42);
    assert_eq!(core.last_unlock, Some(42));
    assert_eq!(core.capability, LockCapability::X11Grab);
}

#[test]
fn request_envelopes() {
    assert_eq!(request_method(true, false, None), Err(RpcError::InvalidRequest));
    assert_eq!(request_method(false, true, None), Err(RpcError::InvalidRequest));
    assert_eq!(request_method(false, true, Some(("1.0", "gate_status"))), Err(RpcError::InvalidRequest));
    assert_eq!(request_method(false, true, Some(("2.0", "gate_abort"))), Ok(RpcMethod::GateAbort));
}

#[test]
fn freeze_opens_only_after_the_helper_acknowledged() {
    let item = card(ItemId::new());
    let locked = LockedState::new(GateId::new(), item.id, Timestamp::from_millis(0));
    let mut gate = GateState::idle();
    assert_eq!(open_after_ack(Err(RpcError::GrabBusy), &Some(item.clone()), &mut gate, locked), Err(RpcError::GrabBusy));
    assert_eq!(*gate.phase(), GatePhase::Idle);
    assert_eq!(open_after_ack(Err(RpcError::NoLockBackend), &Some(item.clone()), &mut gate, locked), Err(RpcError::NoLockBackend));
    assert_eq!(*gate.phase(), GatePhase::Idle);
    let mut suspended = item.clone();
    suspended.suspended = true;
    assert_eq!(open_after_ack(Ok(()), &Some(suspended), &mut gate, locked), Err(RpcError::InvalidParams));
    assert_eq!(open_after_ack(Ok(()), &None, &mut gate, locked), Err(RpcError::InvalidParams));
    assert_eq!(open_after_ack(Ok(()), &Some(item.clone()), &mut gate, locked), Ok(()));
    assert_eq!(*gate.phase(), GatePhase::Locked(locked));
    assert_eq!(open_after_ack(Ok(()), &Some(item), &mut gate, locked), Err(RpcError::AlreadyLocked));
}

#[test]
fn request_lines_are_read_through_serde_json() {
    let req = parse_request_line(
        r#"  {"jsonrpc":"2.0","method":"gate_submit_choice","params":{"chosen_index":2},"id":"a"}  "#,
    )
    .ok()
    .expect("request");
    assert_eq!(req.method, RpcMethod::GateSubmitChoice);
    assert_eq!(req.id, r#""a""#);
    assert_eq!(req.params.as_deref(), Some(r#"{"chosen_index":2}"#));
    assert_eq!(chosen_index_param(req.params.as_deref()), Some(2));
    let null_params = parse_request_line(r#"{"jsonrpc":"2.0","method":"gate_lock","params":null,"id":3}"#)
        .ok()
        .expect("request");
    assert_eq!(null_params.params, None);
    assert_eq!(parse_request_line("   ").err(), Some((RpcError::InvalidRequest, "null".to_string())));
    assert_eq!(
        parse_request_line(r#"{"jsonrpc":"2.0","method":"gate_status"}"#).err(),
        Some((RpcError::InvalidRequest, "null".to_string()))
    );
    assert_eq!(
        parse_request_line(r#"{"jsonrpc":"1.0","method":"gate_status","id":4}"#).err(),
        Some((RpcError::InvalidRequest, "4".to_string()))
    );
    assert_eq!(
        parse_request_line(r#"{"jsonrpc":"2.0","method":7,"id":5}"#).err(),
        Some((RpcError::InvalidRequest, "null".to_string()))
    );
    assert_eq!(abort_method_param(Some(r#"{"method":"hatch"}"#)), Some("hatch".to_string()));
    assert_eq!(abort_method_param(Some("{}")), None);
    assert_eq!(abort_method_param(None), None);
}

#[test]
fn reply_and_request_lines() {
    assert_eq!(reply_result("1", r#"{"phase":"idle"}"#), r#"{"id":1,"jsonrpc":"2.0","result":{"phase":"idle"}}"#);
    assert_eq!(
        reply_error("null", -32700, "parse error"),
        r#"{"error":{"code":-32700,"message":"parse error"},"id":null,"jsonrpc":"2.0"}"#
    );
    assert_eq!(reply_error("2", 0, "a\"b"), r#"{"error":{"code":0,"message":"a\"b"},"id":2,"jsonrpc":"2.0"}"#);
    assert_eq!(
        request_line("gate_status", "null"),
        r#"{"id":1,"jsonrpc":"2.0","method":"gate_status","params":null}"#
    );
    assert_eq!(
        reply_error("3", 1, "q\\ \n\t\u{1}\u{1f}\u{8}\u{c}\r/\u{7f}é"),
        "{\"error\":{\"code\":1,\"message\":\"q\\\\ \\n\\t\\u0001\\u001f\\b\\f\\r/\u{7f}é\"},\"id\":3,\"jsonrpc\":\"2.0\"}"
    );
    let big: serde_json::Value = serde_json::from_str(&reply_error("1", i64::MIN, "m")).expect("json");
    assert_eq!(big["error"]["code"], i64::MIN);
}

#[test]
fn helper_acknowledgement_lines() {
    assert_eq!(read_show_ack("{\"ok\":true}\n"), Ok(()));
    assert_eq!(read_show_ack(r#"{"error":"grab_busy","ok":false}"#), Err(RpcError::GrabBusy));
    assert_eq!(read_show_ack(r#"{"ok":false,"error":"unsupported"}"#), Err(RpcError::NoLockBackend));
    assert_eq!(read_show_ack(r#"{"ok":false}"#), Err(RpcError::NoLockBackend));
    assert_eq!(read_show_ack(r#"{"ok":"yes"}"#), Err(RpcError::NoLockBackend));
    assert_eq!(read_show_ack(r#"{"ok":true,"error":5}"#), Err(RpcError::NoLockBackend));
    assert_eq!(read_show_ack("garbage"), Err(RpcError::NoLockBackend));
}

#[test]
fn lock_params() {
    let id = ItemId::new().to_string();
    assert_eq!(lock_prompt_id(None), Ok(None));
    assert_eq!(lock_prompt_id(Some(&format!(r#"{{"prompt_id":"{id}","reason":"rpc"}}"#))), Ok(Some(id)));
    assert_eq!(lock_prompt_id(Some(r#"{"reason":"idle"}"#)), Ok(None));
    assert_eq!(lock_prompt_id(Some(r#"{"prompt_id":null}"#)), Ok(None));
    assert_eq!(lock_prompt_id(Some(r#"{"prompt_id":7}"#)), Err(RpcError::InvalidParams));
    assert_eq!(lock_prompt_id(Some(r#"{"reason":false}"#)), Err(RpcError::InvalidParams));
    assert_eq!(lock_prompt_id(Some("5")), Err(RpcError::InvalidParams));
}
