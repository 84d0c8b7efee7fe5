//! The daemon's request decisions: which method a request names, what each method may do in the
//! current gate phase, and how errors are reported. Sockets, JSON and SQL stay outside.
use vstd::prelude::*;

use crate::text::str_eq;
use crate::json::{
    json_is_object, spec_json_is_object, json_member_i64, spec_json_member_i64, json_member_str, json_member_text, json_parse_error, spec_json_member_str, spec_json_member_text,
    spec_json_parse_error, spec_trim, trim_text,
};
use crate::jsonrpc::null_json;

use crate::abort::Abort;
use crate::cadence::{GateCadence, cadence_allows};
use crate::gate::{CooldownState, GateOp, GatePhase, GateState, GateError, LockedState, gate_step};
use crate::ids::{GateId, ItemId, parse_id_spec};
use crate::item::{Answer, ChoiceIndex, Item, choose_random};
use crate::store::StoreError;
use crate::time::{Timestamp, after_millis, not_before};

verus! {

/// The version string that every request and response carries.
pub const JSONRPC_VERSION: &'static str = "2.0";

/// What the cost of an abort is recorded as: the one freeze it forfeits.
pub const ABORT_COST: u32 = 1;

/// Which lock backend the daemon can drive.
#[derive(Debug, Clone, Copy, PartialEq, Eq, Structural)]
pub enum LockCapability {
    NoBackend,
    SessionLock,
    X11Grab,
}

/// The name of a backend as `gate_status` reports it.
pub open spec fn capability_name(c: LockCapability) -> Seq<char> {
    match c {
        LockCapability::NoBackend => "none"@,
        LockCapability::SessionLock => "session_lock"@,
        LockCapability::X11Grab => "x11_grab"@,
    }
}

impl LockCapability {
    /// The name reported in `gate_status`.
    pub fn as_str(self) -> (r: &'static str)
        ensures
            r@ == capability_name(self),
    {
        proof {
            reveal_strlit("none");
            reveal_strlit("session_lock");
            reveal_strlit("x11_grab");
        }
        match self {
            LockCapability::NoBackend => "none",
            LockCapability::SessionLock => "session_lock",
            LockCapability::X11Grab => "x11_grab",
        }
    }
}

/// Why a request failed.
#[derive(Debug, Clone, PartialEq, Eq)]
pub enum RpcError {
    Parse,
    InvalidRequest,
    MethodNotFound,
    InvalidParams,
    NoLockBackend,
    AlreadyLocked,
    EmptyDeck,
    CadenceActive,
    GrabBusy,
    NotLocked,
    IllegalTransition,
    Store(String),
}

/// The JSON-RPC error code of an error.
pub open spec fn error_code(err: RpcError) -> int {
    match err {
        RpcError::Parse => -32700,
        RpcError::InvalidRequest => -32600,
        RpcError::MethodNotFound => -32601,
        RpcError::InvalidParams => -32602,
        _ => -32000,
    }
}

/// The message of an error: the protocol's error name for phase refusals.
pub open spec fn error_message(err: RpcError) -> Seq<char> {
    match err {
        RpcError::Parse => "parse error"@,
        RpcError::InvalidRequest => "invalid request"@,
        RpcError::MethodNotFound => "method not found"@,
        RpcError::InvalidParams => "invalid params"@,
        RpcError::NoLockBackend => "no_lock_backend"@,
        RpcError::AlreadyLocked => "already_locked"@,
        RpcError::EmptyDeck => "empty_deck"@,
        RpcError::CadenceActive => "cadence_active"@,
        RpcError::GrabBusy => "grab_busy"@,
        RpcError::NotLocked => "not_locked"@,
        RpcError::IllegalTransition => "illegal_transition"@,
        RpcError::Store(msg) => msg@,
    }
}

impl RpcError {
    /// The code and message that the error response carries.
    pub fn code_and_message(&self) -> (r: (i64, String))
        ensures
            r.0 == error_code(*self),
            r.1@ == error_message(*self),
    {
        proof {
            reveal_strlit("parse error");
            reveal_strlit("invalid request");
            reveal_strlit("method not found");
            reveal_strlit("invalid params");
            reveal_strlit("no_lock_backend");
            reveal_strlit("already_locked");
            reveal_strlit("empty_deck");
            reveal_strlit("cadence_active");
            reveal_strlit("grab_busy");
            reveal_strlit("not_locked");
            reveal_strlit("illegal_transition");
        }
        match self {
            RpcError::Parse => (-32700, String::from_str("parse error")),
            RpcError::InvalidRequest => (-32600, String::from_str("invalid request")),
            RpcError::MethodNotFound => (-32601, String::from_str("method not found")),
            RpcError::InvalidParams => (-32602, String::from_str("invalid params")),
            RpcError::NoLockBackend => (-32000, String::from_str("no_lock_backend")),
            RpcError::AlreadyLocked => (-32000, String::from_str("already_locked")),
            RpcError::EmptyDeck => (-32000, String::from_str("empty_deck")),
            RpcError::CadenceActive => (-32000, String::from_str("cadence_active")),
            RpcError::GrabBusy => (-32000, String::from_str("grab_busy")),
            RpcError::NotLocked => (-32000, String::from_str("not_locked")),
            RpcError::IllegalTransition => (-32000, String::from_str("illegal_transition")),
            RpcError::Store(msg) => (-32000, msg.clone()),
        }
    }
}

/// The request error for a store error: gate refusals keep their protocol names, bad prompts and
/// items are invalid params, anything else reports the store's message.
pub fn map_store(err: StoreError) -> (r: RpcError)
    ensures
        err == StoreError::Gate(GateError::AlreadyLocked) ==> r == RpcError::AlreadyLocked,
        err == StoreError::Gate(GateError::NotLocked) ==> r == RpcError::NotLocked,
        err == StoreError::Gate(GateError::IllegalTransition) ==> r == RpcError::IllegalTransition,
        (err is InvalidPrompt || err is Item || err is ItemMissing || err is ItemSuspended) ==> r
            == RpcError::InvalidParams,
        (err is CorruptDatabase || err is Sqlite || err is TimestampOutOfRange) ==> (r matches RpcError::Store(m)
            && m@ == crate::store::store_error_text(err)),
{
    match err {
        StoreError::Gate(GateError::AlreadyLocked) => RpcError::AlreadyLocked,
        StoreError::Gate(GateError::NotLocked) => RpcError::NotLocked,
        StoreError::Gate(GateError::IllegalTransition) => RpcError::IllegalTransition,
        StoreError::InvalidPrompt(_) | StoreError::Item(_) => RpcError::InvalidParams,
        StoreError::ItemMissing | StoreError::ItemSuspended => RpcError::InvalidParams,
        StoreError::Sqlite(msg) => RpcError::Store(msg),
        other => RpcError::Store(other.message()),
    }
}

/// The methods the daemon serves. There is no unlock method: a freeze ends only through the
/// lock backend's answer or abort.
#[derive(Debug, Clone, Copy, PartialEq, Eq, Structural)]
pub enum RpcMethod {
    GateStatus,
    GateDue,
    GatePushPrompt,
    GateLock,
    GateSubmitChoice,
    GateAbort,
}

/// The method a name selects, if any.
pub open spec fn method_named(name: Seq<char>) -> Option<RpcMethod> {
    if name == "gate_status"@ {
        Some(RpcMethod::GateStatus)
    } else if name == "gate_due"@ {
        Some(RpcMethod::GateDue)
    } else if name == "gate_push_prompt"@ {
        Some(RpcMethod::GatePushPrompt)
    } else if name == "gate_lock"@ {
        Some(RpcMethod::GateLock)
    } else if name == "gate_submit_choice"@ {
        Some(RpcMethod::GateSubmitChoice)
    } else if name == "gate_abort"@ {
        Some(RpcMethod::GateAbort)
    } else {
        None
    }
}


/// Selects the method a request names; any other name, `gate_unlock` among them, is
/// `MethodNotFound`.
pub fn route_method(name: &str) -> (r: Result<RpcMethod, RpcError>)
    ensures
        (match method_named(name@) {
            Some(m) => r == Ok::<RpcMethod, RpcError>(m),
            None => r == Err::<RpcMethod, RpcError>(RpcError::MethodNotFound),
        }),
{
    if str_eq(name, "gate_status") {
        Ok(RpcMethod::GateStatus)
    } else if str_eq(name, "gate_due") {
        Ok(RpcMethod::GateDue)
    } else if str_eq(name, "gate_push_prompt") {
        Ok(RpcMethod::GatePushPrompt)
    } else if str_eq(name, "gate_lock") {
        Ok(RpcMethod::GateLock)
    } else if str_eq(name, "gate_submit_choice") {
        Ok(RpcMethod::GateSubmitChoice)
    } else if str_eq(name, "gate_abort") {
        Ok(RpcMethod::GateAbort)
    } else {
        Err(RpcError::MethodNotFound)
    }
}

/// No name selects a method that ends a freeze: `gate_unlock` is not a method.
pub proof fn law_no_unlock_method()
    ensures
        method_named("gate_unlock"@) is None,
{
    reveal_strlit("gate_unlock");
    reveal_strlit("gate_status");
    reveal_strlit("gate_due");
    reveal_strlit("gate_push_prompt");
    reveal_strlit("gate_lock");
    reveal_strlit("gate_submit_choice");
    reveal_strlit("gate_abort");
    assert("gate_unlock"@ != "gate_status"@ && "gate_unlock"@ != "gate_due"@ && "gate_unlock"@
        != "gate_push_prompt"@ && "gate_unlock"@ != "gate_lock"@ && "gate_unlock"@
        != "gate_submit_choice"@ && "gate_unlock"@ != "gate_abort"@) by {
        assert("gate_unlock"@[5] != "gate_status"@[5]);
        assert("gate_unlock"@[5] != "gate_due"@[5]);
        assert("gate_unlock"@[5] != "gate_push_prompt"@[5]);
        assert("gate_unlock"@[5] != "gate_lock"@[5]);
        assert("gate_unlock"@[5] != "gate_submit_choice"@[5]);
        assert("gate_unlock"@[5] != "gate_abort"@[5]);
    }
}

/// Checks the envelope's version field.
pub fn check_version(jsonrpc: &str) -> (r: Result<(), RpcError>)
    ensures
        r is Ok <==> jsonrpc@ == JSONRPC_VERSION@,
        r is Err ==> r == Err::<(), RpcError>(RpcError::InvalidRequest),
{
    if str_eq(jsonrpc, JSONRPC_VERSION) {
        Ok(())
    } else {
        Err(RpcError::InvalidRequest)
    }
}

/// What a request line asks for: a blank line is an invalid request, a line that is not JSON a
/// parse error, a request without a string `jsonrpc` and `method` an invalid request, a version
/// other than `2.0` an invalid request; otherwise the method its name selects.
pub fn request_method(line_blank: bool, parsed: bool, envelope: Option<(&str, &str)>) -> (r: Result<RpcMethod, RpcError>)
    ensures
        line_blank ==> r == Err::<RpcMethod, RpcError>(RpcError::InvalidRequest),
        !line_blank && !parsed ==> r == Err::<RpcMethod, RpcError>(RpcError::Parse),
        !line_blank && parsed ==> (match envelope {
            None => r == Err::<RpcMethod, RpcError>(RpcError::InvalidRequest),
            Some((jsonrpc, method)) => if jsonrpc@ != JSONRPC_VERSION@ {
                r == Err::<RpcMethod, RpcError>(RpcError::InvalidRequest)
            } else {
                match method_named(method@) {
                    Some(m) => r == Ok::<RpcMethod, RpcError>(m),
                    None => r == Err::<RpcMethod, RpcError>(RpcError::MethodNotFound),
                }
            },
        }),
{
    if line_blank {
        return Err(RpcError::InvalidRequest);
    }
    if !parsed {
        return Err(RpcError::Parse);
    }
    match envelope {
        None => Err(RpcError::InvalidRequest),
        Some((jsonrpc, method)) => {
            check_version(jsonrpc)?;
            route_method(method)
        },
    }
}

/// A request line that names a method: the method, the request's id as JSON text, and its
/// params as JSON text (absent or `null` params are `None`).
pub struct RpcEnvelope {
    pub method: RpcMethod,
    pub id: String,
    pub params: Option<String>,
}

/// The params of a request as the daemon reads them: absent and `null` are the same.
pub open spec fn params_spec(member: Option<Seq<char>>) -> Option<Seq<char>> {
    match member {
        Some(p) => if p == null_json() {
            None
        } else {
            Some(p)
        },
        None => None,
    }
}

/// What a request line asks for, read through serde_json: a blank line is an invalid request
/// and a line that is not JSON a parse error, both answered with a `null` id; a request
/// without a string `jsonrpc`, a string `method` and an `id` is an invalid request (`null`
/// id); then, with the request's id, a version other than `2.0` is an invalid request and a
/// name that selects no method is `MethodNotFound`.
pub open spec fn request_line_spec(line: Seq<char>) -> Result<(RpcMethod, Seq<char>, Option<Seq<char>>), (RpcError, Seq<char>)> {
    let t = spec_trim(line);
    if t.len() == 0 {
        Err((RpcError::InvalidRequest, null_json()))
    } else if spec_json_parse_error(t) is Some {
        Err((RpcError::Parse, null_json()))
    } else {
        match (spec_json_member_str(t, "jsonrpc"@), spec_json_member_str(t, "method"@), spec_json_member_text(t, "id"@)) {
            (Some(jsonrpc), Some(method), Some(id)) => if jsonrpc != JSONRPC_VERSION@ {
                Err((RpcError::InvalidRequest, id))
            } else {
                match method_named(method) {
                    Some(m) => Ok((m, id, params_spec(spec_json_member_text(t, "params"@)))),
                    None => Err((RpcError::MethodNotFound, id)),
                }
            },
            _ => Err((RpcError::InvalidRequest, null_json())),
        }
    }
}

/// Reads a request line: its method, id and params, or the error to answer with and the id to
/// answer it under.
pub fn parse_request_line(line: &str) -> (r: Result<RpcEnvelope, (RpcError, String)>)
    ensures
        (match (r, request_line_spec(line@)) {
            (Ok(env), Ok((m, id, params))) => env.method == m && env.id@ == id && (match env.params {
                Some(p) => params == Some(p@),
                None => params is None,
            }),
            (Err((e, id)), Err((se, sid))) => e == se && id@ == sid,
            _ => false,
        }),
{
    proof {
        reveal_strlit("null");
        reveal_strlit("jsonrpc");
        reveal_strlit("method");
        reveal_strlit("id");
        reveal_strlit("params");
    }
    assert("null"@ =~= null_json());
    let t = trim_text(line);
    if t.unicode_len() == 0 {
        return Err((RpcError::InvalidRequest, String::from_str("null")));
    }
    if json_parse_error(t).is_some() {
        return Err((RpcError::Parse, String::from_str("null")));
    }
    let jsonrpc = json_member_str(t, "jsonrpc");
    let method = json_member_str(t, "method");
    let id = json_member_text(t, "id");
    let (jsonrpc, method, id) = match (jsonrpc, method, id) {
        (Some(j), Some(m), Some(i)) => (j, m, i),
        _ => return Err((RpcError::InvalidRequest, String::from_str("null"))),
    };
    if let Err(e) = check_version(jsonrpc.as_str()) {
        return Err((e, id));
    }
    let m = match route_method(method.as_str()) {
        Ok(m) => m,
        Err(e) => return Err((e, id)),
    };
    let params = match json_member_text(t, "params") {
        Some(p) => if str_eq(p.as_str(), "null") {
            None
        } else {
            Some(p)
        },
        None => None,
    };
    Ok(RpcEnvelope { method: m, id, params })
}

/// The `chosen_index` of `gate_submit_choice` params, when it is an integer.
pub fn chosen_index_param(params: Option<&str>) -> (r: Option<i64>)
    ensures
        r == (match params {
            Some(p) => spec_json_member_i64(p@, "chosen_index"@),
            None => None,
        }),
{
    proof {
        reveal_strlit("chosen_index");
    }
    match params {
        Some(p) => json_member_i64(p, "chosen_index"),
        None => None,
    }
}

/// The `method` of `gate_abort` params, when it is a string.
pub fn abort_method_param(params: Option<&str>) -> (r: Option<String>)
    ensures
        (match r {
            Some(m) => params matches Some(p) && spec_json_member_str(p@, "method"@) == Some(m@),
            None => params is None || spec_json_member_str(params->0@, "method"@) is None,
        }),
{
    proof {
        reveal_strlit("method");
    }
    match params {
        Some(p) => json_member_str(p, "method"),
        None => None,
    }
}

/// An optional string member of an object, as serde reads it into an `Option<String>` field:
/// absent or `null` is `Some(None)`, a string is `Some(Some(..))`; any other value is a type
/// error (`None`).
pub open spec fn optional_str_member(text: Seq<char>, key: Seq<char>) -> Option<Option<Seq<char>>> {
    match spec_json_member_text(text, key) {
        None => Some(None),
        Some(m) => if m == null_json() {
            Some(None)
        } else {
            match spec_json_member_str(text, key) {
                Some(v) => Some(Some(v)),
                None => None,
            }
        },
    }
}

fn read_optional_str(text: &str, key: &str) -> (r: Result<Option<String>, ()>)
    ensures
        (match (r, optional_str_member(text@, key@)) {
            (Ok(Some(v)), Some(Some(sv))) => v@ == sv,
            (Ok(None), Some(None)) => true,
            (Err(()), None) => true,
            _ => false,
        }),
{
    proof {
        reveal_strlit("null");
    }
    assert("null"@ =~= null_json());
    match json_member_text(text, key) {
        None => Ok(None),
        Some(m) => if str_eq(m.as_str(), "null") {
            Ok(None)
        } else {
            match json_member_str(text, key) {
                Some(v) => Ok(Some(v)),
                None => Err(()),
            }
        },
    }
}

/// The `prompt_id` of `gate_lock` params: no params give none; params must be an object
/// whose `prompt_id` and `reason` are strings, `null` or absent (`InvalidParams` otherwise).
pub fn lock_prompt_id(params: Option<&str>) -> (r: Result<Option<String>, RpcError>)
    ensures
        (match params {
            None => r matches Ok(None),
            Some(p) => if !spec_json_is_object(p@) || optional_str_member(p@, "prompt_id"@) is None
                || optional_str_member(p@, "reason"@) is None {
                r == Err::<Option<String>, RpcError>(RpcError::InvalidParams)
            } else {
                match (r, optional_str_member(p@, "prompt_id"@)) {
                    (Ok(Some(v)), Some(Some(sv))) => v@ == sv,
                    (Ok(None), Some(None)) => true,
                    _ => false,
                }
            },
        }),
{
    proof {
        reveal_strlit("prompt_id");
        reveal_strlit("reason");
    }
    let p = match params {
        None => return Ok(None),
        Some(p) => p,
    };
    if !json_is_object(p) {
        return Err(RpcError::InvalidParams);
    }
    let prompt_id = read_optional_str(p, "prompt_id");
    let reason = read_optional_str(p, "reason");
    match (prompt_id, reason) {
        (Ok(id), Ok(_)) => Ok(id),
        _ => Err(RpcError::InvalidParams),
    }
}

/// Reads a helper's acknowledgement line: it must be an object with a boolean `ok` and an
/// optional string `error` (`no_lock_backend` otherwise); then as `show_ack_result` says.
pub fn read_show_ack(line: &str) -> (r: Result<(), RpcError>)
    ensures
        ({
            let t = spec_trim(line@);
            let ok = spec_json_member_text(t, "ok"@);
            if !spec_json_is_object(t) || !(ok == Some("true"@) || ok == Some("false"@))
                || optional_str_member(t, "error"@) is None {
                r == Err::<(), RpcError>(RpcError::NoLockBackend)
            } else if ok == Some("true"@) {
                r is Ok
            } else {
                match optional_str_member(t, "error"@) {
                    Some(Some(e)) => if e == "grab_busy"@ {
                        r == Err::<(), RpcError>(RpcError::GrabBusy)
                    } else {
                        r == Err::<(), RpcError>(RpcError::NoLockBackend)
                    },
                    _ => r == Err::<(), RpcError>(RpcError::NoLockBackend),
                }
            }
        }),
{
    proof {
        reveal_strlit("ok");
        reveal_strlit("error");
        reveal_strlit("true");
        reveal_strlit("false");
    }
    let t = trim_text(line);
    if !json_is_object(t) {
        return Err(RpcError::NoLockBackend);
    }
    let ok = match json_member_text(t, "ok") {
        Some(o) => if str_eq(o.as_str(), "true") {
            true
        } else if str_eq(o.as_str(), "false") {
            false
        } else {
            return Err(RpcError::NoLockBackend);
        },
        None => return Err(RpcError::NoLockBackend),
    };
    let error = match read_optional_str(t, "error") {
        Ok(e) => e,
        Err(()) => return Err(RpcError::NoLockBackend),
    };
    match error {
        Some(e) => show_ack_result(ok, Some(e.as_str())),
        None => show_ack_result(ok, None),
    }
}

// ---------------------------------------------------------------------------------------------
// gate_status

/// The fields of a `gate_status` result.
pub struct StatusReport {
    pub phase: &'static str,
    pub capability: &'static str,
    pub session_id: Option<String>,
    pub cooldown_until: Option<String>,
}

/// The phase name that `gate_status` reports.
pub open spec fn phase_name(phase: GatePhase) -> Seq<char> {
    match phase {
        GatePhase::Idle => "idle"@,
        GatePhase::Locked(_) => "locked"@,
        GatePhase::Cooldown(_) => "cooldown"@,
    }
}

/// Reports the phase, the backend, the open session (while locked or cooling down) and when the
/// cooldown ends.
pub fn gate_status(phase: &GatePhase, capability: LockCapability) -> (r: Result<StatusReport, RpcError>)
    ensures
        (match r {
            Ok(report) => report.phase@ == phase_name(*phase) && report.capability@ == capability_name(capability)
                && (match *phase {
                    GatePhase::Idle => report.session_id is None && report.cooldown_until is None,
                    GatePhase::Locked(l) => (report.session_id matches Some(s) && s@
                        == crate::ids::uuid_text(l.gate_id@)) && report.cooldown_until is None,
                    GatePhase::Cooldown(c) => (report.session_id matches Some(s) && s@
                        == crate::ids::uuid_text(c.gate_id@)) && (report.cooldown_until matches Some(u)
                        && crate::time::timestamp_text(c.until) == Some(u@)),
                }),
            Err(e) => (e matches RpcError::Store(m) && m@ == "timestamp out of range"@) && (phase matches GatePhase::Cooldown(c)
                && crate::time::timestamp_text(c.until) is None),
        }),
{
    proof {
        reveal_strlit("idle");
        reveal_strlit("locked");
        reveal_strlit("cooldown");
    }
    let cap = capability.as_str();
    match phase {
        GatePhase::Idle => Ok(StatusReport { phase: "idle", capability: cap, session_id: None, cooldown_until: None }),
        GatePhase::Locked(locked) => Ok(
            StatusReport {
                phase: "locked",
                capability: cap,
                session_id: Some(locked.gate_id.to_string()),
                cooldown_until: None,
            },
        ),
        GatePhase::Cooldown(cooldown) => {
            let until = match cooldown.until.to_rfc3339() {
                Some(text) => text,
                None => return Err(map_store(StoreError::TimestampOutOfRange)),
            };
            Ok(
                StatusReport {
                    phase: "cooldown",
                    capability: cap,
                    session_id: Some(cooldown.gate_id.to_string()),
                    cooldown_until: Some(until),
                },
            )
        },
    }
}

// ---------------------------------------------------------------------------------------------
// gate_lock

/// How a `gate_lock` request proceeds once its checks pass.
#[derive(Debug, Clone, Copy, PartialEq, Eq, Structural)]
pub enum LockStart {
    /// A freeze is already open: show the open freeze again and report its session.
    Reshow(LockedState),
    /// Open a new freeze.
    Fresh,
}

/// The first checks of `gate_lock`: a lock backend must be bound; a freeze already open is shown
/// again; otherwise the cadence must allow a new freeze.
pub fn gate_lock_precheck(
    capability: LockCapability,
    cadence: GateCadence,
    last_unlock: Option<u64>,
    now: u64,
    phase: &GatePhase,
) -> (r: Result<LockStart, RpcError>)
    ensures
        capability is NoBackend ==> r == Err::<LockStart, RpcError>(RpcError::NoLockBackend),
        !(capability is NoBackend) ==> (match *phase {
            GatePhase::Locked(l) => r == Ok::<LockStart, RpcError>(LockStart::Reshow(l)),
            _ => if cadence_allows(cadence.lock_interval_ms, last_unlock, now) {
                r == Ok::<LockStart, RpcError>(LockStart::Fresh)
            } else {
                r == Err::<LockStart, RpcError>(RpcError::CadenceActive)
            },
        }),
{
    if capability == LockCapability::NoBackend {
        return Err(RpcError::NoLockBackend);
    }
    if let GatePhase::Locked(locked) = phase {
        return Ok(LockStart::Reshow(*locked));
    }
    if !cadence.allows_lock_at(last_unlock, now) {
        return Err(RpcError::CadenceActive);
    }
    Ok(LockStart::Fresh)
}

fn contains_id(ids: &Vec<ItemId>, id: ItemId) -> (r: bool)
    ensures
        r == ids@.contains(id),
{
    let n = ids.len();
    for i in 0..n
        invariant
            n == ids@.len(),
            forall|j: int| 0 <= j < i ==> ids@[j] != id,
    {
        if ids[i] == id {
            assert(ids@[i as int] == id);
            return true;
        }
    }
    false
}

/// The item to show: the requested one, which must name an item that may appear on the lock
/// surface (`InvalidParams` otherwise), or else a random one of those items (`EmptyDeck` when
/// there is none).
pub fn resolve_lock_item(prompt_id: Option<&str>, due: &Vec<ItemId>) -> (r: Result<ItemId, RpcError>)
    ensures
        (match prompt_id {
            Some(raw) => match parse_id_spec(raw@) {
                Some(Ok(value)) => if exists|i: int| 0 <= i < due@.len() && (#[trigger] due@[i])@ == value {
                    r matches Ok(id) && id@ == value && due@.contains(id)
                } else {
                    r == Err::<ItemId, RpcError>(RpcError::InvalidParams)
                },
                _ => r == Err::<ItemId, RpcError>(RpcError::InvalidParams),
            },
            None => if due@.len() == 0 {
                r == Err::<ItemId, RpcError>(RpcError::EmptyDeck)
            } else {
                r matches Ok(id) && due@.contains(id)
            },
        }),
{
    match prompt_id {
        Some(raw) => {
            let id = match ItemId::parse_str(raw) {
                Ok(id) => id,
                Err(_) => return Err(RpcError::InvalidParams),
            };
            if !contains_id(due, id) {
                proof {
                    assert forall|i: int| 0 <= i < due@.len() implies (#[trigger] due@[i])@ != id@ by {
                        if due@[i]@ == id@ {
                            crate::ids::lemma_item_id_view_injective(due@[i], id);
                        }
                    }
                }
                return Err(RpcError::InvalidParams);
            }
            Ok(id)
        },
        None => {
            if due.len() == 0 {
                return Err(RpcError::EmptyDeck);
            }
            match choose_random(due.as_slice()) {
                Some(id) => Ok(id),
                None => Err(RpcError::EmptyDeck),
            }
        },
    }
}

/// The daemon's answer to the lock helper's acknowledgement of a show request.
pub fn show_ack_result(ok: bool, error: Option<&str>) -> (r: Result<(), RpcError>)
    ensures
        ok ==> r is Ok,
        !ok ==> (match error {
            Some(e) => if e@ == "grab_busy"@ {
                r == Err::<(), RpcError>(RpcError::GrabBusy)
            } else {
                r == Err::<(), RpcError>(RpcError::NoLockBackend)
            },
            None => r == Err::<(), RpcError>(RpcError::NoLockBackend),
        }),
{
    if ok {
        return Ok(());
    }
    match error {
        Some(e) => if str_eq(e, "grab_busy") {
            Err(RpcError::GrabBusy)
        } else {
            Err(RpcError::NoLockBackend)
        },
        None => Err(RpcError::NoLockBackend),
    }
}

/// The request error for a refused phase change.
pub open spec fn gate_error_rpc(e: GateError) -> RpcError {
    match e {
        GateError::AlreadyLocked => RpcError::AlreadyLocked,
        GateError::NotLocked => RpcError::NotLocked,
        GateError::IllegalTransition => RpcError::IllegalTransition,
    }
}

/// Opens a new freeze only once the helper has acknowledged the show request: without the
/// acknowledgement nothing is opened and its error is the answer. With it, the item must exist
/// and not be suspended (`InvalidParams`), and the phase must accept the lock.
pub fn open_after_ack(
    ack: Result<(), RpcError>,
    item: &Option<Item>,
    gate: &mut GateState,
    locked: LockedState,
) -> (r: Result<(), RpcError>)
    ensures
        ack is Err ==> r == ack && final(gate)@ == old(gate)@,
        ack is Ok && (item is None || item->0.suspended) ==> r == Err::<(), RpcError>(RpcError::InvalidParams)
            && final(gate)@ == old(gate)@,
        item matches Some(it) && !it.suspended && ack is Ok ==> (match gate_step(old(gate)@, GateOp::BeginLock(locked)) {
            Ok(next) => r is Ok && final(gate)@ == next,
            Err(e) => r == Err::<(), RpcError>(gate_error_rpc(e)) && final(gate)@ == old(gate)@,
        }),
{
    if let Err(e) = ack {
        return Err(e);
    }
    match crate::store::begin_lock_checked(item, gate, locked) {
        Ok(()) => Ok(()),
        Err(e) => Err(map_store(e)),
    }
}

// ---------------------------------------------------------------------------------------------
// gate_submit_choice

/// Grades the lock backend's choice and ends the freeze: only while locked (`NotLocked`
/// otherwise); the index must be 0 to 3 (`InvalidParams`); the shown item must be known
/// (`InvalidParams`). A right and a wrong choice both unlock to idle.
pub fn submit_choice(
    gate: &mut GateState,
    item: &Option<Item>,
    chosen_index: i64,
    at: Timestamp,
) -> (r: Result<Answer, RpcError>)
    ensures
        !(old(gate)@ is Locked) ==> r == Err::<Answer, RpcError>(RpcError::NotLocked) && final(gate)@
            == old(gate)@,
        old(gate)@ matches GatePhase::Locked(l) ==> (if !(0 <= chosen_index <= 3) {
            r == Err::<Answer, RpcError>(RpcError::InvalidParams) && final(gate)@ == old(gate)@
        } else if !(item matches Some(it) && it.id == l.item_id) {
            r == Err::<Answer, RpcError>(RpcError::InvalidParams) && final(gate)@ == old(gate)@
        } else {
            r matches Ok(answer) && answer@.0 == l.item_id && answer@.1@ == chosen_index
                && answer@.2 == (chosen_index == item->0.correct_index@) && answer@.3 == at
                && final(gate)@ == GatePhase::Idle
        }),
{
    let locked = match gate.phase() {
        GatePhase::Locked(l) => *l,
        _ => return Err(RpcError::NotLocked),
    };
    if chosen_index < 0 || chosen_index > 3 {
        return Err(RpcError::InvalidParams);
    }
    let chosen = match ChoiceIndex::try_new(chosen_index as u8) {
        Ok(c) => c,
        Err(_) => return Err(RpcError::InvalidParams),
    };
    let it = match item {
        Some(it) => it,
        None => return Err(RpcError::InvalidParams),
    };
    if it.id != locked.item_id {
        return Err(RpcError::InvalidParams);
    }
    let answer = it.answer_for_choice(chosen, at);
    proof {
        crate::item::lemma_choice_index_view_injective(chosen, it.correct_index);
    }
    match gate.unlock_to_idle() {
        Ok(()) => Ok(answer),
        Err(e) => Err(map_store(StoreError::Gate(e))),
    }
}

// ---------------------------------------------------------------------------------------------
// gate_abort

/// What an abort produces: the abort event and the end of the cooldown.
pub struct AbortOutcome {
    pub abort: Abort,
    pub until: Timestamp,
}

/// Ends a freeze by a paid abort: only while locked (`NotLocked` otherwise). Records the
/// method (`hatch` when none is named) and enters a cooldown of `cooldown_ms` from `now` for the
/// same session. No answer is produced.
pub fn abort_freeze(
    gate: &mut GateState,
    method: Option<String>,
    now: Timestamp,
    cooldown_ms: u64,
) -> (r: Result<AbortOutcome, RpcError>)
    ensures
        !(old(gate)@ is Locked) ==> r == Err::<AbortOutcome, RpcError>(RpcError::NotLocked)
            && final(gate)@ == old(gate)@,
        old(gate)@ matches GatePhase::Locked(l) ==> (if after_millis(now, cooldown_ms as nat) is None {
            (r matches Err(RpcError::Store(m)) && m@ == "timestamp out of range"@) && final(gate)@ == old(gate)@
        } else {
            r matches Ok(out) && out.abort.gate_id == l.gate_id && out.abort.at == now
                && out.abort.cost_paid == ABORT_COST && (match method {
                    Some(m) => out.abort.method@ == m@,
                    None => out.abort.method@ == "hatch"@,
                }) && after_millis(now, cooldown_ms as nat) == Some(out.until) && final(gate)@
                == GatePhase::Cooldown(CooldownState { gate_id: l.gate_id, until: out.until })
        }),
{
    let locked = match gate.phase() {
        GatePhase::Locked(l) => *l,
        _ => return Err(RpcError::NotLocked),
    };
    let until = match now.plus_millis(cooldown_ms) {
        Some(t) => t,
        None => return Err(map_store(StoreError::TimestampOutOfRange)),
    };
    let method = match method {
        Some(m) => m,
        None => {
            proof {
                reveal_strlit("hatch");
            }
            String::from_str("hatch")
        },
    };
    let abort = Abort::new(locked.gate_id, method, now, ABORT_COST);
    match gate.begin_cooldown(CooldownState::new(locked.gate_id, until)) {
        Ok(()) => Ok(AbortOutcome { abort, until }),
        Err(e) => Err(map_store(StoreError::Gate(e))),
    }
}

// ---------------------------------------------------------------------------------------------
// Cooldown timer

/// Whether the cooldown has run out at `now`.
pub open spec fn cooldown_over(phase: GatePhase, now: Timestamp) -> bool {
    phase matches GatePhase::Cooldown(c) && not_before(now, c.until)
}

/// Whether the cooldown timer must freeze again now.
pub fn cooldown_expired(phase: &GatePhase, now: Timestamp) -> (r: bool)
    ensures
        r == cooldown_over(*phase, now),
{
    match phase {
        GatePhase::Cooldown(c) => now.is_not_before(&c.until),
        _ => false,
    }
}

/// Freezes again once a cooldown has run out, with a new session showing `item_id`. Before the
/// end of the cooldown, or in another phase, nothing changes.
pub fn relock_after_cooldown(
    gate: &mut GateState,
    now: Timestamp,
    gate_id: GateId,
    item_id: ItemId,
) -> (r: Option<LockedState>)
    ensures
        cooldown_over(old(gate)@, now) ==> r == Some(LockedState { gate_id, item_id, started_at: now })
            && final(gate)@ == GatePhase::Locked(r->0),
        !cooldown_over(old(gate)@, now) ==> r is None && final(gate)@ == old(gate)@,
{
    if !cooldown_expired(gate.phase(), now) {
        return None;
    }
    let locked = LockedState::new(gate_id, item_id, now);
    match gate.finish_cooldown_begin_lock(locked) {
        Ok(()) => Some(locked),
        Err(_) => None,
    }
}

// ---------------------------------------------------------------------------------------------
// The daemon's own memory.

/// What the daemon remembers between requests besides the store: the lock backend it can drive
/// and the monotonic instant (milliseconds) of the last unlock.
pub struct DaemonCore {
    pub capability: LockCapability,
    pub last_unlock: Option<u64>,
}

impl DaemonCore {
    pub fn new(capability: LockCapability) -> (r: DaemonCore)
        ensures
            r.capability == capability,
            r.last_unlock is None,
    {
        DaemonCore { capability, last_unlock: None }
    }

    /// Remembers that a freeze ended at `now`; the cadence counts from here.
    pub fn note_unlock(&mut self, now: u64)
        ensures
            final(self).last_unlock == Some(now),
            final(self).capability == old(self).capability,
    {
        self.last_unlock = Some(now);
    }
}

/// An answer always ends the freeze it answers, and an abort always starts the cooldown of the
/// session it ends: neither leaves a freeze open.
pub proof fn law_answer_and_abort_leave_locked(locked: LockedState, cooldown: CooldownState)
    ensures
        gate_step(GatePhase::Locked(locked), GateOp::UnlockToIdle) == Ok::<GatePhase, GateError>(GatePhase::Idle),
        gate_step(GatePhase::Locked(locked), GateOp::BeginCooldown(cooldown)) == Ok::<GatePhase, GateError>(
            GatePhase::Cooldown(cooldown),
        ),
{
}

} // verus!
