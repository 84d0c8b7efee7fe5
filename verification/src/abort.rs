//! A paid abort: a session event, never an answer.
use vstd::prelude::*;

use crate::ids::GateId;
use crate::time::Timestamp;

verus! {

/// The record of an abort: which session, by what method, when, and the cost paid. It carries no
/// item and no grade, so it cannot stand for an answer.
#[derive(Debug, Clone, PartialEq, Eq)]
pub struct Abort {
    pub gate_id: GateId,
    pub method: String,
    pub at: Timestamp,
    pub cost_paid: u32,
}

impl Abort {
    pub fn new(gate_id: GateId, method: String, at: Timestamp, cost_paid: u32) -> (r: Abort)
        ensures
            r == (Abort { gate_id, method, at, cost_paid }),
    {
        Abort { gate_id, method, at, cost_paid }
    }
}

} // verus!
