use recallgate::gate::{CooldownState, GateError, GatePhase, GateState, LockedState};
use recallgate::ids::{GateId, ItemId};
use recallgate::time::Timestamp;

#[test]
fn gate_rejects_idle_while_locked() {
    let mut state = GateState::idle();
    let locked = LockedState::new(GateId::new(), ItemId::new(), Timestamp::now());
    state.begin_lock(locked).expect("lock");
    assert_eq!(state.force_idle(), Err(GateError::IllegalTransition));
}

#[test]
fn unlock_to_idle_after_lock() {
    let mut state = GateState::idle();
    let locked = LockedState::new(GateId::new(), ItemId::new(), Timestamp::now());
    state.begin_lock(locked).expect("lock");
    state.unlock_to_idle().expect("unlock");
    assert!(matches!(state.phase(), GatePhase::Idle));
}

#[test]
fn cannot_lock_while_already_locked_or_in_cooldown() {
    let mut state = GateState::idle();
    let locked = LockedState::new(GateId::new(), ItemId::new(), Timestamp::now());
    state.begin_lock(locked).expect("lock");
    let again = LockedState::new(GateId::new(), ItemId::new(), Timestamp::now());
    assert_eq!(state.begin_lock(again), Err(GateError::AlreadyLocked));

    let cooldown = CooldownState::new(GateId::new(), Timestamp::now());
    state.begin_cooldown(cooldown).expect("cooldown");
    let from_cooldown = LockedState::new(GateId::new(), ItemId::new(), Timestamp::now());
    assert_eq!(state.begin_lock(from_cooldown), Err(GateError::IllegalTransition));
}

#[test]
fn abort_path_cooldown_then_relock() {
    let gate = GateId::new();
    let mut state = GateState::idle();
    let locked = LockedState::new(gate, ItemId::new(), Timestamp::now());
    state.begin_lock(locked).expect("lock");
    state.begin_cooldown(CooldownState::new(gate, Timestamp::now())).expect("cooldown");
    let relock = LockedState::new(GateId::new(), ItemId::new(), Timestamp::now());
    state.finish_cooldown_begin_lock(relock).expect("relock");
    assert!(matches!(state.phase(), GatePhase::Locked(_)));
}

#[test]
fn force_idle_from_cooldown_only() {
    let mut state = GateState::idle();
    let locked = LockedState::new(GateId::new(), ItemId::new(), Timestamp::now());
    state.begin_lock(locked).expect("lock");
    state.begin_cooldown(CooldownState::new(GateId::new(), Timestamp::now())).expect("cooldown");
    state.force_idle().expect("cancel cooldown");
    assert!(matches!(state.phase(), GatePhase::Idle));
}

#[test]
fn gate_gate_rejects_idle_while_locked() {
    let mut state = GateState::idle();
    let locked = LockedState::new(GateId::new(), ItemId::new(), Timestamp::now());
    state.begin_lock(locked).expect("lock");
    assert_eq!(state.force_idle(), Err(GateError::IllegalTransition));
}

#[test]
fn gate_unlock_to_idle_after_lock() {
    let mut state = GateState::idle();
    let locked = LockedState::new(GateId::new(), ItemId::new(), Timestamp::now());
    state.begin_lock(locked).expect("lock");
    state.unlock_to_idle().expect("unlock");
    assert!(matches!(state.phase(), GatePhase::Idle));
}

#[test]
fn gate_cannot_lock_while_already_locked_or_in_cooldown() {
    let mut state = GateState::idle();
    let locked = LockedState::new(GateId::new(), ItemId::new(), Timestamp::now());
    state.begin_lock(locked).expect("lock");
    let again = LockedState::new(GateId::new(), ItemId::new(), Timestamp::now());
    assert_eq!(state.begin_lock(again), Err(GateError::AlreadyLocked));

    let cooldown = CooldownState::new(GateId::new(), Timestamp::now());
    state.begin_cooldown(cooldown).expect("cooldown");
    let from_cooldown = LockedState::new(GateId::new(), ItemId::new(), Timestamp::now());
    assert_eq!(state.begin_lock(from_cooldown), Err(GateError::IllegalTransition));
}

#[test]
fn gate_abort_path_cooldown_then_relock() {
    let gate = GateId::new();
    let mut state = GateState::idle();
    let locked = LockedState::new(gate, ItemId::new(), Timestamp::now());
    state.begin_lock(locked).expect("lock");
    state.begin_cooldown(CooldownState::new(gate, Timestamp::now())).expect("cooldown");
    let relock = LockedState::new(GateId::new(), ItemId::new(), Timestamp::now());
    state.finish_cooldown_begin_lock(relock).expect("relock");
    assert!(matches!(state.phase(), GatePhase::Locked(_)));
}

#[test]
fn gate_force_idle_from_cooldown_only() {
    let mut state = GateState::idle();
    let locked = LockedState::new(GateId::new(), ItemId::new(), Timestamp::now());
    state.begin_lock(locked).expect("lock");
    state.begin_cooldown(CooldownState::new(GateId::new(), Timestamp::now())).expect("cooldown");
    state.force_idle().expect("cancel cooldown");
    assert!(matches!(state.phase(), GatePhase::Idle));
}

#[test]
fn refused_transitions_keep_the_phase() {
    let mut state = GateState::idle();
    assert_eq!(state.unlock_to_idle(), Err(GateError::NotLocked));
    assert!(matches!(state.phase(), GatePhase::Idle));
    let cooldown = CooldownState::new(GateId::new(), Timestamp::from_millis(5));
    assert_eq!(state.begin_cooldown(cooldown), Err(GateError::IllegalTransition));
    assert!(matches!(state.phase(), GatePhase::Idle));
    let locked = LockedState::new(GateId::new(), ItemId::new(), Timestamp::from_millis(1));
    assert_eq!(state.finish_cooldown_begin_lock(locked), Err(GateError::IllegalTransition));
    assert_eq!(state.force_idle(), Ok(()));
    assert!(matches!(state.phase(), GatePhase::Idle));
    state.begin_cooldown(cooldown).expect_err("idle has no freeze to cool down");
    state.begin_lock(locked).expect("lock");
    assert_eq!(state.finish_cooldown_begin_lock(locked), Err(GateError::IllegalTransition));
    assert_eq!(state.force_idle(), Err(GateError::IllegalTransition));
    state.begin_cooldown(cooldown).expect("cooldown");
    assert_eq!(state.unlock_to_idle(), Err(GateError::NotLocked));
    assert_eq!(state.begin_cooldown(cooldown), Err(GateError::IllegalTransition));
    assert!(matches!(state.phase(), GatePhase::Cooldown(_)));
}

#[test]
fn cooldown_keeps_the_session_and_instant() {
    let gate = GateId::new();
    let item = ItemId::new();
    let mut state = GateState::idle();
    state.begin_lock(LockedState::new(gate, item, Timestamp::from_millis(10))).expect("lock");
    match state.phase() {
        GatePhase::Locked(l) => {
            assert_eq!(l.gate_id, gate);
            assert_eq!(l.item_id, item);
            assert_eq!(l.started_at, Timestamp::from_millis(10));
        }
        other => panic!("expected locked, got {other:?}"),
    }
    state.begin_cooldown(CooldownState::new(gate, Timestamp::from_millis(70))).expect("cooldown");
    match state.phase() {
        GatePhase::Cooldown(c) => {
            assert_eq!(c.gate_id, gate);
            assert_eq!(c.until, Timestamp::from_millis(70));
        }
        other => panic!("expected cooldown, got {other:?}"),
    }
}
