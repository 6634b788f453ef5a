//! Requests to start a process.

use vstd::prelude::*;

verus! {

/// What a standard stream of a new process is connected to.
#[derive(Debug, Copy, Clone, PartialEq, Eq, Structural)]
pub enum Connection {
    /// A pipe to the program that starts the process.
    Piped,
    /// What the program that starts the process has there itself.
    Inherited,
}

/// A request to start a process. The program and its arguments are raw bytes; no shell reads them.
#[derive(Debug, PartialEq, Eq)]
pub struct StartRequest {
    pub program: Vec<u8>,
    pub args: Vec<Vec<u8>>,
    pub stdin: Connection,
    pub stdout: Connection,
    pub stderr: Connection,
}

} // verus!
