//! The session link a terminal-side client holds.
//!
//! A client entered into a session exchanges these with the session actor:
//! its lines go in, and print or read-line requests come back.

use vstd::prelude::*;

verus! {

/// What the client sends into its session.
#[derive(Debug, Clone)]
pub enum ClientSessionCommand {
    TerminalLine(String),
}

/// What the session sends back to the client.
#[derive(Debug, Clone)]
pub enum ServerSessionCommand {
    TerminalPrint(String),
    TerminalRequestLine,
}

} // verus!
