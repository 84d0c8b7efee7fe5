//! The result objects of the daemon's methods, as the compact JSON text that goes into the
//! `result` member of a reply. Keys stand in serde_json's sorted order.
use vstd::prelude::*;

use crate::ids::{ItemId, uuid_text};
use crate::item::Item;
use crate::json::{json_encode_str, spec_json_string};
use crate::rpc::StatusReport;
use crate::store::{json_encode_strings, spec_json_string_array, string_views};

verus! {

/// A JSON string, or `null` when there is none.
pub open spec fn opt_json_string(value: Option<Seq<char>>) -> Seq<char> {
    match value {
        Some(s) => spec_json_string(s),
        None => "null"@,
    }
}

/// The JSON string of an optional text, `null` for `None`.
fn opt_json(value: &Option<String>) -> (r: String)
    ensures
        r@ == opt_json_string(opt_text(*value)),
{
    match value {
        Some(s) => json_encode_str(s.as_str()),
        None => {
            proof {
                reveal_strlit("null");
            }
            String::from_str("null")
        },
    }
}

/// The text of an optional string.
pub open spec fn opt_text(value: Option<String>) -> Option<Seq<char>> {
    match value {
        Some(s) => Some(s@),
        None => None,
    }
}

/// The `gate_status` result: capability, cooldown end, phase and session.
pub open spec fn status_result_text(
    phase: Seq<char>,
    capability: Seq<char>,
    session_id: Option<Seq<char>>,
    cooldown_until: Option<Seq<char>>,
) -> Seq<char> {
    "{\"capability\":"@ + spec_json_string(capability) + ",\"cooldown_until\":"@ + opt_json_string(cooldown_until)
        + ",\"phase\":"@ + spec_json_string(phase) + ",\"session_id\":"@ + opt_json_string(session_id) + "}"@
}

/// The `gate_status` result object for a report.
pub fn status_result_json(report: &StatusReport) -> (r: String)
    ensures
        r@ == status_result_text(
            report.phase@,
            report.capability@,
            opt_text(report.session_id),
            opt_text(report.cooldown_until),
        ),
{
    proof {
        reveal_strlit("{\"capability\":");
        reveal_strlit(",\"cooldown_until\":");
        reveal_strlit(",\"phase\":");
        reveal_strlit(",\"session_id\":");
        reveal_strlit("}");
    }
    let mut out = String::from_str("{\"capability\":");
    let capability = json_encode_str(report.capability);
    out.append(capability.as_str());
    out.append(",\"cooldown_until\":");
    let until = opt_json(&report.cooldown_until);
    out.append(until.as_str());
    out.append(",\"phase\":");
    let phase = json_encode_str(report.phase);
    out.append(phase.as_str());
    out.append(",\"session_id\":");
    let session = opt_json(&report.session_id);
    out.append(session.as_str());
    out.append("}");
    out
}

/// The texts of a list of item identifiers.
pub open spec fn id_texts(ids: Seq<ItemId>) -> Seq<Seq<char>> {
    ids.map_values(|id: ItemId| uuid_text(id@))
}

/// The `gate_due` result: the identifiers of the cards that may be shown, in order.
pub open spec fn due_result_text(ids: Seq<ItemId>) -> Seq<char> {
    "{\"prompt_ids\":"@ + spec_json_string_array(id_texts(ids)) + "}"@
}

/// The `gate_due` result object.
pub fn due_result_json(ids: &Vec<ItemId>) -> (r: String)
    ensures
        r@ == due_result_text(ids@),
{
    let mut texts: Vec<String> = Vec::new();
    let n = ids.len();
    for i in 0..n
        invariant
            n == ids@.len(),
            texts@.len() == i,
            forall|j: int| 0 <= j < i ==> (#[trigger] texts@[j])@ == uuid_text(ids@[j]@),
    {
        let text = ids[i].to_string();
        texts.push(text);
    }
    assert(string_views(texts@) =~= id_texts(ids@));
    proof {
        reveal_strlit("{\"prompt_ids\":");
        reveal_strlit("}");
    }
    let mut out = String::from_str("{\"prompt_ids\":");
    let list = json_encode_strings(texts.as_slice());
    out.append(list.as_str());
    out.append("}");
    out
}

/// The `gate_push_prompt` result: the new card's identifier, under both of its names.
pub open spec fn push_result_text(id: ItemId) -> Seq<char> {
    "{\"card_id\":"@ + spec_json_string(uuid_text(id@)) + ",\"prompt_id\":"@ + spec_json_string(uuid_text(id@))
        + "}"@
}

/// The `gate_push_prompt` result object.
pub fn push_result_json(id: ItemId) -> (r: String)
    ensures
        r@ == push_result_text(id),
{
    proof {
        reveal_strlit("{\"card_id\":");
        reveal_strlit(",\"prompt_id\":");
        reveal_strlit("}");
    }
    let text = id.to_string();
    let quoted = json_encode_str(text.as_str());
    let mut out = String::from_str("{\"card_id\":");
    out.append(quoted.as_str());
    out.append(",\"prompt_id\":");
    out.append(quoted.as_str());
    out.append("}");
    out
}

/// The `gate_lock` result: the session and the prompt as shown, its stem and its choices.
pub open spec fn lock_result_text(session_id: Seq<char>, stem: Seq<char>, choices: Seq<Seq<char>>) -> Seq<char> {
    "{\"prompt\":{\"choices\":"@ + spec_json_string_array(choices) + ",\"stem\":"@ + spec_json_string(stem)
        + "},\"session_id\":"@ + spec_json_string(session_id) + "}"@
}

/// The `gate_lock` result object for the session that shows `item`. It carries the stem and
/// the choices and nothing else of the item: not the index of the right choice.
pub fn lock_result_json(session_id: &str, item: &Item) -> (r: String)
    ensures
        r@ == lock_result_text(session_id@, item.stem@, string_views(item.choices.choices())),
{
    proof {
        reveal_strlit("{\"prompt\":{\"choices\":");
        reveal_strlit(",\"stem\":");
        reveal_strlit("},\"session_id\":");
        reveal_strlit("}");
    }
    let mut out = String::from_str("{\"prompt\":{\"choices\":");
    let list = json_encode_strings(item.choices.as_slice());
    out.append(list.as_str());
    out.append(",\"stem\":");
    let stem = json_encode_str(item.stem.as_str());
    out.append(stem.as_str());
    out.append("},\"session_id\":");
    let session = json_encode_str(session_id);
    out.append(session.as_str());
    out.append("}");
    out
}

/// Two items that differ at most in their right answer, identifier, suspension or reference
/// give the same `gate_lock` result: the result never tells which choice is right.
pub proof fn law_lock_result_hides_the_answer(session_id: Seq<char>, a: Item, b: Item)
    requires
        a.stem@ == b.stem@,
        a.choices.choices() == b.choices.choices(),
    ensures
        lock_result_text(session_id, a.stem@, string_views(a.choices.choices())) == lock_result_text(
            session_id,
            b.stem@,
            string_views(b.choices.choices()),
        ),
{
}

/// The `gate_submit_choice` result: whether the choice was right.
pub open spec fn submit_result_text(correct: bool) -> Seq<char> {
    if correct {
        "{\"correct\":true}"@
    } else {
        "{\"correct\":false}"@
    }
}

/// The `gate_submit_choice` result object.
pub fn submit_result_json(correct: bool) -> (r: String)
    ensures
        r@ == submit_result_text(correct),
{
    if correct {
        String::from_str("{\"correct\":true}")
    } else {
        String::from_str("{\"correct\":false}")
    }
}

/// The `gate_abort` result: when the cooldown ends.
pub open spec fn abort_result_text(until: Seq<char>) -> Seq<char> {
    "{\"cooldown_until\":"@ + spec_json_string(until) + "}"@
}

/// The `gate_abort` result object.
pub fn abort_result_json(until: &str) -> (r: String)
    ensures
        r@ == abort_result_text(until@),
{
    proof {
        reveal_strlit("{\"cooldown_until\":");
        reveal_strlit("}");
    }
    let mut out = String::from_str("{\"cooldown_until\":");
    let text = json_encode_str(until);
    out.append(text.as_str());
    out.append("}");
    out
}

} // verus!
