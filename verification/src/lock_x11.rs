//! The X11 lock client's decisions: grab error mapping, key mapping, the prompt layout and the
//! per-prompt input state. The X connection itself is driven from outside this crate.
pub mod error;
pub mod keys;
pub mod layout;
pub mod session;
