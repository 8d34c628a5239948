//! The front-end's argument record.
//!
//! The surrounding application parses the command line into this record and
//! turns it into the connection parameters the session layer takes.

use vstd::prelude::*;

use crate::ssh_session::SSHConfig;

verus! {

/// The port used when none is given.
pub const DEFAULT_PORT: u16 = 22;

/// The arguments of one supervisor run.
pub struct Cli {
    /// The host to connect to.
    pub host: String,
    /// The port to connect to.
    pub port: u16,
    /// The user to authenticate as.
    pub username: String,
    /// The path of the PEM-encoded private key, without a passphrase.
    pub private_key: String,
}

impl Cli {
    /// The connection parameters these arguments denote.
    pub fn into_config(self) -> (c: SSHConfig)
        ensures
            c.hostname@ == self.host@,
            c.port == self.port,
            c.username@ == self.username@,
            c.private_key_path@ == self.private_key@,
    {
        SSHConfig {
            hostname: self.host,
            port: self.port,
            username: self.username,
            private_key_path: self.private_key,
        }
    }
}

} // verus!
