use recallgate::gate::{CooldownState, GatePhase};
use recallgate::ids::{GateId, ItemId};
use recallgate::item::{ChoiceIndex, Item, McqChoices};
use recallgate::replies::{
    abort_result_json, due_result_json, lock_result_json, push_result_json, status_result_json,
    submit_result_json,
};
use recallgate::rpc::{gate_status, LockCapability};
use recallgate::time::Timestamp;

const FIRST: &str = "6fa459ea-ee8a-4ca2-894e-db77e160355e";
const SECOND: &str = "0b6e9a1c-3c1f-4d2a-9f2e-5a7b8c9d0e1f";

fn item_with_answer(correct: u8) -> Item {
    Item::new(
        ItemId::parse_str(FIRST).expect("id"),
        "2 + \"2\"?".to_string(),
        McqChoices::new(["3".into(), "4".into(), "five\n".into(), "\\".into()]),
        ChoiceIndex::try_new(correct).expect("index"),
        false,
        None,
    )
}

#[test]
fn status_results_name_every_member() {
    let idle = gate_status(&GatePhase::Idle, LockCapability::NoBackend).expect("status");
    assert_eq!(
        status_result_json(&idle),
        r#"{"capability":"none","cooldown_until":null,"phase":"idle","session_id":null}"#
    );
    let gate = GateId::parse_str(FIRST).expect("id");
    let until = Timestamp { secs: 1_700_000_000, nanos: 250_000_000 };
    let cooling = GatePhase::Cooldown(CooldownState::new(gate, until));
    let report = gate_status(&cooling, LockCapability::X11Grab).expect("status");
    let text = status_result_json(&report);
    let value: serde_json::Value = serde_json::from_str(&text).expect("json");
    assert_eq!(value["phase"], "cooldown");
    assert_eq!(value["session_id"], FIRST);
    assert_eq!(value["cooldown_until"], "2023-11-14T22:13:20.250+00:00");
    assert_eq!(value.to_string(), text);
}

#[test]
fn due_and_push_results_list_identifiers() {
    let a = ItemId::parse_str(FIRST).expect("id");
    let b = ItemId::parse_str(SECOND).expect("id");
    assert_eq!(due_result_json(&vec![]), r#"{"prompt_ids":[]}"#);
    assert_eq!(
        due_result_json(&vec![a, b]),
        format!(r#"{{"prompt_ids":["{FIRST}","{SECOND}"]}}"#)
    );
    assert_eq!(push_result_json(a), format!(r#"{{"card_id":"{FIRST}","prompt_id":"{FIRST}"}}"#));
}

#[test]
fn lock_result_hides_the_right_choice() {
    let expected = r#"{"prompt":{"choices":["3","4","five\n","\\"],"stem":"2 + \"2\"?"},"session_id":"s-1"}"#;
    assert_eq!(lock_result_json("s-1", &item_with_answer(1)), expected);
    assert_eq!(lock_result_json("s-1", &item_with_answer(3)), expected);
    let value: serde_json::Value = serde_json::from_str(expected).expect("json");
    assert!(value["prompt"].get("correct_index").is_none());
}

#[test]
fn submit_and_abort_results() {
    assert_eq!(submit_result_json(true), r#"{"correct":true}"#);
    assert_eq!(submit_result_json(false), r#"{"correct":false}"#);
    assert_eq!(
        abort_result_json("2023-11-14T22:13:20.123456789+00:00"),
        r#"{"cooldown_until":"2023-11-14T22:13:20.123456789+00:00"}"#
    );
}
