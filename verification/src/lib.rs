//! Recall Gate: a desktop freeze that asks one multiple-choice card before the
//! session continues. This crate holds the verified domain: identifiers, the
//! deck, the phase machine, the persistence codec, the daemon's request
//! decisions, the lock clients' input rules and the MCP adapter's routing.

pub mod ids;
pub mod time;

pub use ids::{GateId, IdError, ItemId};
pub use time::Timestamp;
pub mod item;
pub use item::{Answer, ChoiceIndex, Deck, Item, ItemError, McqChoices};
pub mod abort;
pub mod cadence;
pub mod gate;
pub use abort::Abort;
pub use cadence::GateCadence;
pub use gate::{CooldownState, GateError, GatePhase, GateState, LockedState};
pub mod hatch;
pub use hatch::{HatchOutcome, HatchTracker};
pub mod store;
pub use store::StoreError;
pub mod rpc;
pub mod lock_x11;
pub mod backend;
pub mod ipc;
pub mod notify;
pub mod lock_wayland;
pub mod text;
pub mod json;
pub mod jsonrpc;
pub mod replies;
pub mod mcp;
