//! The MCP adapter's decisions: which tools it offers (never an unlock), how it routes requests,
//! and how daemon failures read to an agent. Stdio, JSON and the daemon socket stay outside.
pub mod daemon;
pub mod server;
pub mod tools;
