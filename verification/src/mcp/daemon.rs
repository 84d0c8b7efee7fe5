//! What the adapter makes of the daemon's replies and failures.
use vstd::prelude::*;

use crate::json::{
    json_member_i64, json_member_str, json_member_text, json_parse_error, spec_json_member_i64,
    spec_json_member_str, spec_json_member_text, spec_json_parse_error, spec_trim, trim_text,
};

verus! {

/// Why a daemon call failed.
#[derive(Debug, Clone, PartialEq, Eq)]
pub enum DaemonError {
    Connect(String),
    Timeout,
    Parse(String),
    Rpc { code: i64, message: String },
}

/// The text an agent sees for a daemon failure.
pub open spec fn user_message_spec(e: DaemonError) -> Seq<char> {
    match e {
        DaemonError::Connect(m) => "daemon unavailable: "@ + m@,
        DaemonError::Timeout => "daemon read timed out"@,
        DaemonError::Parse(m) => "daemon response invalid: "@ + m@,
        DaemonError::Rpc { message, .. } => message@,
    }
}

impl DaemonError {
    /// The text an agent sees: a prefix naming the failure, then its detail; an RPC error shows
    /// the daemon's own message.
    pub fn user_message(&self) -> (r: String)
        ensures
            r@ == user_message_spec(*self),
            self matches DaemonError::Connect(m) ==> r@ == "daemon unavailable: "@ + m@,
            self is Timeout ==> r@ == "daemon read timed out"@,
            self matches DaemonError::Parse(m) ==> r@ == "daemon response invalid: "@ + m@,
            self matches DaemonError::Rpc { message, .. } ==> r@ == message@,
    {
        match self {
            DaemonError::Connect(msg) => {
                let mut text = String::from_str("daemon unavailable: ");
                text.append(msg.as_str());
                text
            },
            DaemonError::Timeout => String::from_str("daemon read timed out"),
            DaemonError::Parse(msg) => {
                let mut text = String::from_str("daemon response invalid: ");
                text.append(msg.as_str());
                text
            },
            DaemonError::Rpc { message, .. } => message.clone(),
        }
    }
}

/// The error for a reply that carries an `error` object: its code (`-32000` when absent or not
/// an integer) and message (`rpc error` when absent or not a string).
pub fn rpc_error(code: Option<i64>, message: Option<String>) -> (r: DaemonError)
    ensures
        r matches DaemonError::Rpc { code: c, message: m } && c == (match code {
            Some(x) => x,
            None => -32000i64,
        }) && m@ == (match message {
            Some(s) => s@,
            None => "rpc error"@,
        }),
{
    let c = match code {
        Some(x) => x,
        None => -32000,
    };
    let m = match message {
        Some(s) => s,
        None => String::from_str("rpc error"),
    };
    DaemonError::Rpc { code: c, message: m }
}

/// The error for a failed read: a timeout when the socket timed out, a connection error
/// otherwise.
pub fn read_error(timed_out: bool, detail: String) -> (r: DaemonError)
    ensures
        timed_out ==> r == DaemonError::Timeout,
        !timed_out ==> r == DaemonError::Connect(detail),
{
    if timed_out {
        DaemonError::Timeout
    } else {
        DaemonError::Connect(detail)
    }
}

/// The error for a connection that the daemon closed before it replied.
pub fn closed_connection() -> (r: DaemonError)
    ensures
        r matches DaemonError::Connect(m) && m@ == "daemon closed connection"@,
{
    proof {
        reveal_strlit("daemon closed connection");
    }
    DaemonError::Connect(String::from_str("daemon closed connection"))
}

/// Checks a parsed reply: an `error` object (its code and message, when they have the right
/// types) fails as `rpc_error` says; a reply without `result` is invalid (`missing result`);
/// else the reply carries its result.
pub fn check_reply(error: Option<(Option<i64>, Option<String>)>, has_result: bool) -> (r: Result<(), DaemonError>)
    ensures
        (match error {
            Some((code, message)) => r matches Err(DaemonError::Rpc { code: c, message: m }) && c == (
            match code {
                Some(x) => x,
                None => -32000i64,
            }) && m@ == (match message {
                Some(t) => t@,
                None => "rpc error"@,
            }),
            None => if has_result {
                r is Ok
            } else {
                r matches Err(DaemonError::Parse(m)) && m@ == "missing result"@
            },
        }),
{
    proof {
        reveal_strlit("missing result");
    }
    match error {
        Some((code, message)) => Err(rpc_error(code, message)),
        None => if has_result {
            Ok(())
        } else {
            Err(DaemonError::Parse(String::from_str("missing result")))
        },
    }
}

/// Reads the daemon's reply line: a line that is not JSON is invalid (with serde_json's error
/// text); an `error` member fails as `rpc_error` says for its `code` and `message`; a reply
/// without `result` is invalid (`missing result`); otherwise the result, as JSON text.
pub fn read_reply(response: &str) -> (r: Result<String, DaemonError>)
    ensures
        ({
            let t = spec_trim(response@);
            match spec_json_parse_error(t) {
                Some(msg) => r matches Err(DaemonError::Parse(m)) && m@ == msg,
                None => match spec_json_member_text(t, "error"@) {
                    Some(err) => r matches Err(DaemonError::Rpc { code: c, message: m }) && c == (
                    match spec_json_member_i64(err, "code"@) {
                        Some(x) => x,
                        None => -32000i64,
                    }) && m@ == (match spec_json_member_str(err, "message"@) {
                        Some(x) => x,
                        None => "rpc error"@,
                    }),
                    None => match spec_json_member_text(t, "result"@) {
                        Some(res) => r matches Ok(text) && text@ == res,
                        None => r matches Err(DaemonError::Parse(m)) && m@ == "missing result"@,
                    },
                },
            }
        }),
{
    proof {
        reveal_strlit("error");
        reveal_strlit("code");
        reveal_strlit("message");
        reveal_strlit("result");
    }
    let t = trim_text(response);
    if let Some(msg) = json_parse_error(t) {
        return Err(DaemonError::Parse(msg));
    }
    let error = match json_member_text(t, "error") {
        Some(err) => Some((json_member_i64(err.as_str(), "code"), json_member_str(err.as_str(), "message"))),
        None => None,
    };
    let result = json_member_text(t, "result");
    match check_reply(error, result.is_some()) {
        Err(e) => Err(e),
        Ok(()) => match result {
            Some(text) => Ok(text),
            None => Err(DaemonError::Parse(String::from_str("missing result"))),
        },
    }
}

} // verus!
