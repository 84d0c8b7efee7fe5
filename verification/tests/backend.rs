use recallgate::backend::{live_capability, wayland_capability, x11_capability};
use recallgate::ipc::{ack_for_grab, ack_line, show_prompt_from_message, ShowAck};
use recallgate::lock_wayland::{submit_choice_reply, ChoiceState, ChoiceStep, UnlockStep};
use recallgate::notify::{live_notify, show_message_line, NotifyTarget};
use recallgate::rpc::{LockCapability, RpcError};

#[test]
fn backend_detection_prefers_wayland() {
    assert_eq!(wayland_capability(true, true, true), LockCapability::SessionLock);
    assert_eq!(wayland_capability(true, false, true), LockCapability::NoBackend);
    assert_eq!(wayland_capability(false, true, true), LockCapability::NoBackend);
    assert_eq!(x11_capability(true, false, true, true), LockCapability::X11Grab);
    assert_eq!(x11_capability(true, true, true, true), LockCapability::NoBackend);
    assert_eq!(x11_capability(false, false, true, true), LockCapability::NoBackend);
    assert_eq!(x11_capability(true, false, true, false), LockCapability::NoBackend);
    assert_eq!(live_capability(LockCapability::SessionLock, LockCapability::X11Grab), LockCapability::SessionLock);
    assert_eq!(live_capability(LockCapability::NoBackend, LockCapability::X11Grab), LockCapability::X11Grab);
    assert_eq!(live_capability(LockCapability::NoBackend, LockCapability::NoBackend), LockCapability::NoBackend);
}

#[test]
fn notify_goes_to_the_live_helper() {
    assert_eq!(live_notify(LockCapability::SessionLock), Ok(NotifyTarget::WaylandHelper));
    assert_eq!(live_notify(LockCapability::X11Grab), Ok(NotifyTarget::X11Helper));
    assert_eq!(live_notify(LockCapability::NoBackend), Err(RpcError::NoLockBackend));
}

#[test]
fn show_line_is_one_json_object() {
    let choices = ["a".to_string(), "b\"q".to_string(), "c".to_string(), "d".to_string()];
    let line = show_message_line("Capital?", &choices, 2, "sid-1");
    assert_eq!(
        line,
        r#"{"choices":["a","b\"q","c","d"],"correct_index":2,"session_id":"sid-1","stem":"Capital?"}"#
    );
    let parsed: serde_json::Value = serde_json::from_str(&line).expect("json");
    assert_eq!(parsed["choices"][1], "b\"q");
    assert_eq!(parsed["correct_index"], 2);
    let wide = show_message_line("s", &choices, 123, "x");
    assert!(wide.contains(r#""correct_index":123,"#));
}

#[test]
fn helper_acks() {
    assert_eq!(ack_line(ShowAck::Accepted), r#"{"ok":true}"#);
    assert_eq!(ack_line(ShowAck::GrabBusy), r#"{"error":"grab_busy","ok":false}"#);
    assert_eq!(ack_line(ShowAck::Unsupported), r#"{"error":"unsupported","ok":false}"#);
    assert_eq!(ack_for_grab(true, true), ShowAck::Accepted);
    assert_eq!(ack_for_grab(false, true), ShowAck::GrabBusy);
    assert_eq!(ack_for_grab(false, false), ShowAck::Unsupported);
}

#[test]
fn show_messages_need_four_choices_and_a_valid_index() {
    let four = vec!["a".to_string(), "b".to_string(), "c".to_string(), "d".to_string()];
    let p = show_prompt_from_message("Q".to_string(), four.clone(), 3).expect("prompt");
    assert_eq!(p.stem, "Q");
    assert_eq!(p.choices[3], "d");
    assert_eq!(p.correct_index, 3);
    assert!(show_prompt_from_message("Q".to_string(), four, 4).is_none());
    assert!(show_prompt_from_message("Q".to_string(), vec!["a".to_string()], 0).is_none());
}

#[test]
fn wayland_choices() {
    let four = vec!["a".to_string(), "Paris".to_string(), "c".to_string(), "d".to_string()];
    let prompt = show_prompt_from_message("Capital?".to_string(), four, 1).expect("prompt");
    let mut state = ChoiceState::new();
    assert_eq!(
        state.handle_choice(0, &prompt),
        ChoiceStep::Submit { chosen: 0, flash: Some("Correct: Paris".to_string()) }
    );
    assert_eq!(state.handle_choice(1, &prompt), ChoiceStep::Ignored);
    assert_eq!(state.on_submit_result(true, true), UnlockStep::UnlockAfterFlash);
    state.on_new_prompt();
    assert_eq!(state.handle_choice(1, &prompt), ChoiceStep::Submit { chosen: 1, flash: None });
    assert_eq!(state.on_submit_result(false, false), UnlockStep::StayLocked);
    assert_eq!(state.handle_choice(1, &prompt), ChoiceStep::Submit { chosen: 1, flash: None });
    assert_eq!(state.on_submit_result(true, false), UnlockStep::UnlockNow);
}

#[test]
fn submit_replies_seen_by_the_wayland_helper() {
    assert_eq!(submit_choice_reply(None, Some(Some(true))), Ok(true));
    assert_eq!(submit_choice_reply(None, Some(None)), Ok(false));
    assert_eq!(submit_choice_reply(None, None), Err("missing result".to_string()));
    assert_eq!(submit_choice_reply(Some(Some("not_locked".to_string())), Some(Some(true))), Err("not_locked".to_string()));
    assert_eq!(submit_choice_reply(Some(None), None), Err("rpc error".to_string()));
}
