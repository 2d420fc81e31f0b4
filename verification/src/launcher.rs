//! Launchers: how a game type becomes a running game instance.
//!
//! The one built-in launcher starts a subprocess: it joins its configured
//! directory with the game type plus the platform's executable suffix, and
//! fails with `UnknownGameType` when no such file exists. The filesystem
//! check and the spawn happen outside; the name resolution is decided here.

use vstd::prelude::*;
use vstd::string::StringExecFns;

verus! {

/// Why a launch failed.
#[derive(Debug)]
pub enum LauncherError {
    /// No launcher provides this game type.
    UnknownGameType,
    /// Anything else, described.
    Other(String),
}

/// Why a game instance refused a presentation request.
#[derive(Debug)]
pub enum GameError {
    /// The game does not support this presentation mode.
    UnsupportedPresentationMode,
    /// Anything else, described.
    Other(String),
}

/// The subprocess launcher's configuration: the directory its game
/// executables live in.
#[derive(Debug, Clone)]
pub struct ProcessLauncherConfig {
    pub path: String,
}

/// The subprocess launcher.
#[derive(Debug, Clone)]
pub struct ProcessLauncher {
    pub config: ProcessLauncherConfig,
}

/// The executable file name a game type resolves to: the game type with
/// the platform's executable suffix appended.
pub fn game_binary_name(game_type: &str, exe_suffix: &str) -> (r: String)
    ensures
        r@ == game_type@ + exe_suffix@,
{
    let mut s = String::from_str(game_type);
    s.append(exe_suffix);
    s
}

impl ProcessLauncher {
    /// A launcher over the given configuration.
    pub fn new(config: ProcessLauncherConfig) -> (r: ProcessLauncher)
        ensures
            r.config.path == config.path,
    {
        ProcessLauncher { config }
    }

    /// The executable file name to look for under the configured
    /// directory when launching this game type.
    pub fn binary_name(&self, game_type: &str, exe_suffix: &str) -> (r: String)
        ensures
            r@ == game_type@ + exe_suffix@,
    {
        game_binary_name(game_type, exe_suffix)
    }
}

} // verus!
