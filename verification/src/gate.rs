//! The phase machine of a recall gate. A freeze (`Locked`) ends only by an answer (back to `Idle`) or by a
//! paid abort (`Cooldown`); a cooldown ends by locking again.
use vstd::prelude::*;

use crate::ids::{GateId, ItemId};
use crate::time::Timestamp;

verus! {

/// An open freeze: which session, which item is shown, since when.
#[derive(Debug, Clone, Copy, PartialEq, Eq, Structural)]
pub struct LockedState {
    pub gate_id: GateId,
    pub item_id: ItemId,
    pub started_at: Timestamp,
}

/// The penalty after an abort: the session it ended and when the freeze comes back.
#[derive(Debug, Clone, Copy, PartialEq, Eq, Structural)]
pub struct CooldownState {
    pub gate_id: GateId,
    pub until: Timestamp,
}

/// Persisted gate state. There is no `Unlocked` variant: unlocking is a move to `Idle` or
/// `Cooldown`.
#[derive(Debug, Clone, Copy, PartialEq, Eq, Structural)]
pub enum GatePhase {
    Idle,
    Locked(LockedState),
    Cooldown(CooldownState),
}

/// Why a phase change was refused.
#[derive(Debug, Clone, Copy, PartialEq, Eq, Structural)]
pub enum GateError {
    AlreadyLocked,
    NotLocked,
    IllegalTransition,
}

/// The single gate of a desktop; it holds one phase, so two freezes cannot be open at once.
#[derive(Debug, Clone, PartialEq, Eq)]
pub struct GateState {
    phase: GatePhase,
}

/// A requested phase change.
pub enum GateOp {
    BeginLock(LockedState),
    UnlockToIdle,
    BeginCooldown(CooldownState),
    FinishCooldownBeginLock(LockedState),
    ForceIdle,
}

/// The phase after a change, or why the change is refused (the phase then stays as it was).
pub open spec fn gate_step(phase: GatePhase, op: GateOp) -> Result<GatePhase, GateError> {
    match op {
        GateOp::BeginLock(locked) => match phase {
            GatePhase::Idle => Ok(GatePhase::Locked(locked)),
            GatePhase::Locked(_) => Err(GateError::AlreadyLocked),
            GatePhase::Cooldown(_) => Err(GateError::IllegalTransition),
        },
        GateOp::UnlockToIdle => match phase {
            GatePhase::Locked(_) => Ok(GatePhase::Idle),
            _ => Err(GateError::NotLocked),
        },
        GateOp::BeginCooldown(cooldown) => match phase {
            GatePhase::Locked(_) => Ok(GatePhase::Cooldown(cooldown)),
            _ => Err(GateError::IllegalTransition),
        },
        GateOp::FinishCooldownBeginLock(locked) => match phase {
            GatePhase::Cooldown(_) => Ok(GatePhase::Locked(locked)),
            _ => Err(GateError::IllegalTransition),
        },
        GateOp::ForceIdle => match phase {
            GatePhase::Locked(_) => Err(GateError::IllegalTransition),
            _ => Ok(GatePhase::Idle),
        },
    }
}

/// The state after applying `op` to `old`, as the methods of `GateState` do it.
pub open spec fn gate_applied(old: GatePhase, op: GateOp, new: GatePhase, r: Result<(), GateError>) -> bool {
    match gate_step(old, op) {
        Ok(next) => r is Ok && new == next,
        Err(e) => r == Err::<(), GateError>(e) && new == old,
    }
}

impl LockedState {
    pub fn new(gate_id: GateId, item_id: ItemId, started_at: Timestamp) -> (r: LockedState)
        ensures
            r == (LockedState { gate_id, item_id, started_at }),
    {
        LockedState { gate_id, item_id, started_at }
    }
}

impl CooldownState {
    pub fn new(gate_id: GateId, until: Timestamp) -> (r: CooldownState)
        ensures
            r == (CooldownState { gate_id, until }),
    {
        CooldownState { gate_id, until }
    }
}

impl View for GateState {
    type V = GatePhase;

    closed spec fn view(&self) -> GatePhase {
        self.phase
    }
}

impl GateState {
    /// A gate with no freeze open.
    pub fn idle() -> (r: GateState)
        ensures
            r@ == GatePhase::Idle,
    {
        GateState { phase: GatePhase::Idle }
    }

    /// A gate in a phase read back from storage.
    pub fn from_phase(phase: GatePhase) -> (r: GateState)
        ensures
            r@ == phase,
    {
        GateState { phase }
    }

    pub fn phase(&self) -> (r: &GatePhase)
        ensures
            *r == self@,
    {
        &self.phase
    }

    /// Opens a freeze. Only an idle gate may lock: `AlreadyLocked` while locked,
    /// `IllegalTransition` during a cooldown.
    pub fn begin_lock(&mut self, locked: LockedState) -> (r: Result<(), GateError>)
        ensures
            gate_applied(old(self)@, GateOp::BeginLock(locked), final(self)@, r),
    {
        match self.phase {
            GatePhase::Idle => {
                self.phase = GatePhase::Locked(locked);
                Ok(())
            },
            GatePhase::Locked(_) => Err(GateError::AlreadyLocked),
            GatePhase::Cooldown(_) => Err(GateError::IllegalTransition),
        }
    }

    /// Ends a freeze after an answer. `NotLocked` when no freeze is open.
    pub fn unlock_to_idle(&mut self) -> (r: Result<(), GateError>)
        ensures
            gate_applied(old(self)@, GateOp::UnlockToIdle, final(self)@, r),
    {
        match self.phase {
            GatePhase::Locked(_) => {
                self.phase = GatePhase::Idle;
                Ok(())
            },
            GatePhase::Idle | GatePhase::Cooldown(_) => Err(GateError::NotLocked),
        }
    }

    /// Ends a freeze by a paid abort: it enters its cooldown.
    pub fn begin_cooldown(&mut self, cooldown: CooldownState) -> (r: Result<(), GateError>)
        ensures
            gate_applied(old(self)@, GateOp::BeginCooldown(cooldown), final(self)@, r),
    {
        match self.phase {
            GatePhase::Locked(_) => {
                self.phase = GatePhase::Cooldown(cooldown);
                Ok(())
            },
            GatePhase::Idle | GatePhase::Cooldown(_) => Err(GateError::IllegalTransition),
        }
    }

    /// Ends a cooldown by freezing again.
    pub fn finish_cooldown_begin_lock(&mut self, locked: LockedState) -> (r: Result<(), GateError>)
        ensures
            gate_applied(old(self)@, GateOp::FinishCooldownBeginLock(locked), final(self)@, r),
    {
        match self.phase {
            GatePhase::Cooldown(_) => {
                self.phase = GatePhase::Locked(locked);
                Ok(())
            },
            GatePhase::Idle | GatePhase::Locked(_) => Err(GateError::IllegalTransition),
        }
    }

    /// Skips a cooldown and returns to idle. Illegal while locked; a no-op when idle.
    pub fn force_idle(&mut self) -> (r: Result<(), GateError>)
        ensures
            gate_applied(old(self)@, GateOp::ForceIdle, final(self)@, r),
    {
        match self.phase {
            GatePhase::Locked(_) => Err(GateError::IllegalTransition),
            GatePhase::Idle => Ok(()),
            GatePhase::Cooldown(_) => {
                self.phase = GatePhase::Idle;
                Ok(())
            },
        }
    }
}

/// A freeze ends only by an answer or by a paid abort: from `Locked`, the only changes that
/// succeed are `UnlockToIdle` (to `Idle`) and `BeginCooldown` (to that cooldown).
pub proof fn law_freeze_ends_only_by_answer_or_abort(locked: LockedState, op: GateOp)
    ensures
        match gate_step(GatePhase::Locked(locked), op) {
            Ok(next) => (op is UnlockToIdle && next == GatePhase::Idle) || (op matches GateOp::BeginCooldown(c)
                && next == GatePhase::Cooldown(c)),
            Err(_) => !(op is UnlockToIdle) && !(op is BeginCooldown),
        },
{
}

/// A cooldown leaves only by locking again or by a forced return to idle; an answer or another
/// lock request cannot end it.
pub proof fn law_cooldown_ends_only_by_relock_or_force(cooldown: CooldownState, op: GateOp)
    ensures
        match gate_step(GatePhase::Cooldown(cooldown), op) {
            Ok(next) => (op matches GateOp::FinishCooldownBeginLock(l) && next == GatePhase::Locked(l))
                || (op is ForceIdle && next == GatePhase::Idle),
            Err(_) => !(op is FinishCooldownBeginLock) && !(op is ForceIdle),
        },
{
}

/// Every freeze that opens carries exactly the locked state it was opened with, and opens from
/// `Idle` by `BeginLock` or from `Cooldown` by `FinishCooldownBeginLock`.
pub proof fn law_freeze_opens_only_by_lock(phase: GatePhase, op: GateOp, locked: LockedState)
    requires
        !(phase is Locked),
        gate_step(phase, op) == Ok::<GatePhase, GateError>(GatePhase::Locked(locked)),
    ensures
        (phase is Idle && op == GateOp::BeginLock(locked)) || (phase is Cooldown && op
            == GateOp::FinishCooldownBeginLock(locked)),
{
}

/// A refused change leaves the phase as it was, and only a change that is refused reports an
/// error.
pub proof fn law_refused_change_keeps_phase(old: GatePhase, op: GateOp, new: GatePhase, r: Result<(), GateError>)
    requires
        gate_applied(old, op, new, r),
    ensures
        r is Err ==> new == old,
        r is Err <==> gate_step(old, op) is Err,
{
}

/// A cooldown that follows a freeze, then a relock, gives a freeze with the new locked state.
pub proof fn law_abort_then_relock(locked: LockedState, cooldown: CooldownState, relock: LockedState)
    ensures
        gate_step(GatePhase::Idle, GateOp::BeginLock(locked)) == Ok::<GatePhase, GateError>(GatePhase::Locked(locked)),
        gate_step(GatePhase::Locked(locked), GateOp::BeginCooldown(cooldown)) == Ok::<GatePhase, GateError>(GatePhase::Cooldown(cooldown)),
        gate_step(GatePhase::Cooldown(cooldown), GateOp::FinishCooldownBeginLock(relock)) == Ok::<GatePhase, GateError>(GatePhase::Locked(relock)),
{
}

} // verus!
