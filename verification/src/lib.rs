//! Session and game-process orchestration for a multi-user game host.
//!
//! Players connect to a persistent server, propose and join turn-based
//! games, and interact with game sessions through a line-oriented terminal
//! interface. Each game runs as an independent subprocess driven over a
//! JSON-line request/response protocol.
//!
//! This crate holds the verified core: the typed identifiers, the game wire
//! protocol and its pairing discipline, the command grammar, the decision
//! logic of the connection, proposal-session and game-session actors, the
//! connection and session registries, and the post-commit hook envelope.
//! The surrounding runtime (channels, subprocess I/O, persistence) drives
//! these functions from outside.

pub mod active_session;
pub mod connection;
pub mod driver;
pub mod game;
pub mod game_session;
pub mod ids;
pub mod launcher;
pub mod presentation;
pub mod process;
pub mod proposal;
pub mod records;
pub mod registry;
pub mod rps;
pub mod ssh;
pub mod terminal;
pub mod text;
pub mod tick;
pub mod transaction;
pub mod ui;
pub mod user_management;
