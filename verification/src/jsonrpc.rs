//! The JSON-RPC 2.0 reply lines that the daemon and the MCP adapter write, with their keys in
//! serde_json's sorted order.
use vstd::prelude::*;

use crate::json::{json_encode_str, spec_json_string};
use crate::text::{i64_string, i64_text};

verus! {

/// The JSON text of an absent id.
pub open spec fn null_json() -> Seq<char> {
    seq!['n', 'u', 'l', 'l']
}

/// A reply that carries a result: the request's id (as JSON text) and the result's JSON text.
pub open spec fn reply_result_text(id: Seq<char>, result: Seq<char>) -> Seq<char> {
    "{\"id\":"@ + id + ",\"jsonrpc\":\"2.0\",\"result\":"@ + result + "}"@
}

/// A reply that carries an error code and message.
pub open spec fn reply_error_text(id: Seq<char>, code: i64, message: Seq<char>) -> Seq<char> {
    "{\"error\":{\"code\":"@ + i64_text(code) + ",\"message\":"@ + spec_json_string(message)
        + "},\"id\":"@ + id + ",\"jsonrpc\":\"2.0\"}"@
}

/// The reply line for a result.
pub fn reply_result(id: &str, result: &str) -> (r: String)
    ensures
        r@ == reply_result_text(id@, result@),
{
    proof {
        reveal_strlit("{\"id\":");
        reveal_strlit(",\"jsonrpc\":\"2.0\",\"result\":");
        reveal_strlit("}");
    }
    let mut line = String::from_str("{\"id\":");
    line.append(id);
    line.append(",\"jsonrpc\":\"2.0\",\"result\":");
    line.append(result);
    line.append("}");
    assert(line@ =~= reply_result_text(id@, result@));
    line
}

/// The reply line for an error.
pub fn reply_error(id: &str, code: i64, message: &str) -> (r: String)
    ensures
        r@ == reply_error_text(id@, code, message@),
{
    proof {
        reveal_strlit("{\"error\":{\"code\":");
        reveal_strlit(",\"message\":");
        reveal_strlit("},\"id\":");
        reveal_strlit(",\"jsonrpc\":\"2.0\"}");
    }
    let mut line = String::from_str("{\"error\":{\"code\":");
    let digits = i64_string(code);
    line.append(digits.as_str());
    line.append(",\"message\":");
    let text = json_encode_str(message);
    line.append(text.as_str());
    line.append("},\"id\":");
    line.append(id);
    line.append(",\"jsonrpc\":\"2.0\"}");
    assert(line@ =~= reply_error_text(id@, code, message@));
    line
}

/// A request line with id 1: the method's JSON string and the params' JSON text.
pub open spec fn request_text(method: Seq<char>, params: Seq<char>) -> Seq<char> {
    "{\"id\":1,\"jsonrpc\":\"2.0\",\"method\":"@ + spec_json_string(method) + ",\"params\":"@ + params + "}"@
}

/// The request line a client writes (without the newline).
pub fn request_line(method: &str, params: &str) -> (r: String)
    ensures
        r@ == request_text(method@, params@),
{
    proof {
        reveal_strlit("{\"id\":1,\"jsonrpc\":\"2.0\",\"method\":");
        reveal_strlit(",\"params\":");
        reveal_strlit("}");
    }
    let mut line = String::from_str("{\"id\":1,\"jsonrpc\":\"2.0\",\"method\":");
    let m = json_encode_str(method);
    line.append(m.as_str());
    line.append(",\"params\":");
    line.append(params);
    line.append("}");
    assert(line@ =~= request_text(method@, params@));
    line
}

} // verus!
