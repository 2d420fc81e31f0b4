//! The SSH presentation's configuration.
//!
//! The SSH transport itself (key handling, channels, the line editor) is an
//! external collaborator; the core only fixes its configuration shape and
//! defaults: port 9000, and a key file beside the server that is generated
//! when missing.

use vstd::prelude::*;
use vstd::string::StringExecFns;

verus! {

/// The default listening port.
pub fn default_port() -> (r: u16)
    ensures
        r == 9000,
{
    9000
}

/// The default private-key path.
pub fn default_key_path() -> (r: String)
    ensures
        r@ == "server_key.p8"@,
{
    String::from_str("server_key.p8")
}

/// The SSH presentation's configuration.
#[derive(Debug, Clone)]
pub struct Config {
    pub port: u16,
    pub key_path: String,
}

impl Default for Config {
    /// The configuration used when the file names none.
    fn default() -> (r: Config)
        ensures
            r.port == 9000,
            r.key_path@ == "server_key.p8"@,
    {
        Config { port: default_port(), key_path: default_key_path() }
    }
}

/// The SSH presentation. The transport it drives (key exchange, channels,
/// the line editor) lives outside the core; this marks a running instance.
#[derive(Debug)]
pub struct PresentationSsh {
}

/// A sink buffer that discards whatever is written into it, used to drain
/// output nobody reads.
#[derive(Debug)]
pub struct NullBuf(pub [u8; 16]);

impl NullBuf {
    /// A fresh, zeroed sink.
    pub fn new() -> (r: NullBuf)
        ensures
            r.0@ =~= Seq::new(16, |i: int| 0u8),
    {
        NullBuf([0; 16])
    }
}

} // verus!
