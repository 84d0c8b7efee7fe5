//! The daemon's half of the helper show exchange: which helper it asks, and the one JSON line
//! it writes to it. Connecting, writing and reading the acknowledgement stay with the caller;
//! what an acknowledgement means is `crate::rpc::show_ack_result`.
use vstd::prelude::*;

use crate::rpc::{LockCapability, RpcError};
use crate::text::{decimal_string, decimal_text};
use crate::json::{json_encode_str, spec_json_string};
use crate::store::{json_encode_strings, spec_json_string_array, string_views};

verus! {

/// The helper that receives a show request.
#[derive(Debug, Clone, Copy, PartialEq, Eq, Structural)]
pub enum NotifyTarget {
    /// The Wayland session-lock helper, on `recallgate-wayland.sock`.
    WaylandHelper,
    /// The X11 grab helper, on `recallgate-x11.sock`.
    X11Helper,
}

/// The helper to notify for the live backend; without one the request fails with
/// `no_lock_backend`.
pub fn live_notify(capability: LockCapability) -> (r: Result<NotifyTarget, RpcError>)
    ensures
        capability == LockCapability::SessionLock ==> r == Ok::<NotifyTarget, RpcError>(
            NotifyTarget::WaylandHelper,
        ),
        capability == LockCapability::X11Grab ==> r == Ok::<NotifyTarget, RpcError>(
            NotifyTarget::X11Helper,
        ),
        capability == LockCapability::NoBackend ==> r == Err::<NotifyTarget, RpcError>(
            RpcError::NoLockBackend,
        ),
{
    match capability {
        LockCapability::SessionLock => Ok(NotifyTarget::WaylandHelper),
        LockCapability::X11Grab => Ok(NotifyTarget::X11Helper),
        LockCapability::NoBackend => Err(RpcError::NoLockBackend),
    }
}

/// The show line, an object with its keys in serde_json's sorted order.
pub open spec fn show_message_text(
    stem: Seq<char>,
    choices: Seq<Seq<char>>,
    correct_index: u8,
    session_id: Seq<char>,
) -> Seq<char> {
    "{\"choices\":"@ + spec_json_string_array(choices) + ",\"correct_index\":"@ + decimal_text(correct_index) + ",\"session_id\":"@ + spec_json_string(session_id) + ",\"stem\":"@ + spec_json_string(stem)
        + "}"@
}

/// The JSON line the daemon writes to a helper: `stem`, `choices`, `correct_index` and
/// `session_id`, without the newline.
pub fn show_message_line(
    stem: &str,
    choices: &[String; 4],
    correct_index: u8,
    session_id: &str,
) -> (r: String)
    ensures
        r@ == show_message_text(stem@, string_views(choices@), correct_index, session_id@),
{
    proof {
        reveal_strlit("{\"choices\":");
        reveal_strlit(",\"correct_index\":");
        reveal_strlit(",\"session_id\":");
        reveal_strlit(",\"stem\":");
        reveal_strlit("}");
    }
    let mut line = String::from_str("{\"choices\":");
    let list = json_encode_strings(choices.as_slice());
    line.append(list.as_str());
    line.append(",\"correct_index\":");
    let digits = decimal_string(correct_index);
    line.append(digits.as_str());
    line.append(",\"session_id\":");
    let sid = json_encode_str(session_id);
    line.append(sid.as_str());
    line.append(",\"stem\":");
    let st = json_encode_str(stem);
    line.append(st.as_str());
    line.append("}");
    assert(line@ =~= show_message_text(stem@, string_views(choices@), correct_index, session_id@));
    line
}

} // verus!
