//! The show request that the daemon sends to a lock helper, and the helper's acknowledgement.
use vstd::prelude::*;

verus! {

/// A prompt to put on the lock surface.
#[derive(Debug, Clone)]
pub struct ShowPrompt {
    pub stem: String,
    pub choices: [String; 4],
    pub correct_index: u8,
}

/// The helper's answer to a show request.
#[derive(Debug, Clone, Copy, PartialEq, Eq, Structural)]
pub enum ShowAck {
    /// The surface is up and holds the input.
    Accepted,
    /// Another client holds the grab.
    GrabBusy,
    /// The request or the session cannot be served.
    Unsupported,
}

/// Accepts a show message only with exactly four choices and a right index below four.
pub fn show_prompt_from_message(stem: String, choices: Vec<String>, correct_index: u8) -> (r: Option<ShowPrompt>)
    ensures
        (choices@.len() == 4 && correct_index < 4) ==> (r matches Some(p) && p.stem == stem && p.choices@
            == choices@ && p.correct_index == correct_index),
        !(choices@.len() == 4 && correct_index < 4) ==> r is None,
{
    if choices.len() != 4 || correct_index >= 4 {
        return None;
    }
    let ghost before = choices@;
    let mut choices = choices;
    let d = choices.pop().unwrap();
    let c = choices.pop().unwrap();
    let b = choices.pop().unwrap();
    let a = choices.pop().unwrap();
    let arr: [String; 4] = [a, b, c, d];
    assert(arr@ =~= before);
    Some(ShowPrompt { stem, choices: arr, correct_index })
}

/// The JSON line of an acknowledgement (keys in serde_json's sorted order).
pub open spec fn ack_text(ack: ShowAck) -> Seq<char> {
    match ack {
        ShowAck::Accepted => "{\"ok\":true}"@,
        ShowAck::GrabBusy => "{\"error\":\"grab_busy\",\"ok\":false}"@,
        ShowAck::Unsupported => "{\"error\":\"unsupported\",\"ok\":false}"@,
    }
}

/// The line a helper writes back for an acknowledgement.
pub fn ack_line(ack: ShowAck) -> (r: &'static str)
    ensures
        r@ == ack_text(ack),
{
    proof {
        reveal_strlit("{\"ok\":true}");
        reveal_strlit("{\"error\":\"grab_busy\",\"ok\":false}");
        reveal_strlit("{\"error\":\"unsupported\",\"ok\":false}");
    }
    match ack {
        ShowAck::Accepted => "{\"ok\":true}",
        ShowAck::GrabBusy => "{\"error\":\"grab_busy\",\"ok\":false}",
        ShowAck::Unsupported => "{\"error\":\"unsupported\",\"ok\":false}",
    }
}

/// The acknowledgement a helper gives after trying to grab: `GrabBusy` for a busy grab, and
/// `Unsupported` for any other failure.
pub fn ack_for_grab(result_ok: bool, busy: bool) -> (r: ShowAck)
    ensures
        result_ok ==> r == ShowAck::Accepted,
        !result_ok && busy ==> r == ShowAck::GrabBusy,
        !result_ok && !busy ==> r == ShowAck::Unsupported,
{
    if result_ok {
        ShowAck::Accepted
    } else if busy {
        ShowAck::GrabBusy
    } else {
        ShowAck::Unsupported
    }
}

} // verus!
