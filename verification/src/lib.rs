//! Long-running sessions: a server runs child processes for a client and pipes their standard
//! streams over a message channel.
//!
//! The library holds every decision of both ends: which work comes next after each outcome, which
//! message is sent, which error ends a task. The surrounding program performs the work (processes,
//! pipes, channels) and hands the outcomes back.

pub mod client;
pub mod messages;
pub mod process;
pub mod results;
pub mod server;
pub mod text;
pub mod wire;
