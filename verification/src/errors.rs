use vstd::prelude::*;

verus! {

/// The error taxonomy of the supervisor.
///
/// Connect-time errors (`KeyLoadFailed`, `TransportFailed`, `AuthFailed`) are
/// fatal to the runtime manager; per-command errors are returned to the
/// caller and leave the session usable.
#[derive(Clone, Copy, Debug, PartialEq, Eq, Structural)]
pub enum SSHError {
    /// The private key was missing, unreadable, or unparseable.
    KeyLoadFailed,
    /// The TCP connection or the SSH handshake failed.
    TransportFailed,
    /// The server rejected public-key authentication.
    AuthFailed,
    /// A fresh session channel could not be opened.
    ChannelOpenFailed,
    /// The exec request on an open channel was refused.
    ExecFailed,
    /// A read or write on an open channel failed.
    IOFailed,
    /// The channel ended without an exit-status message.
    NoExit,
    /// The stream ended before a matching announcement line was seen.
    PIDNotAnnounced,
    /// The clean-disconnect request failed.
    DisconnectFailed,
}

impl SSHError {
    /// A short human-readable description of the error.
    pub fn message(&self) -> (m: &'static str)
        ensures
            m@.len() > 0,
    {
        let m: &'static str = match self {
            SSHError::KeyLoadFailed => "failed to load the private key",
            SSHError::TransportFailed => "transport connection or handshake failed",
            SSHError::AuthFailed => "authentication failed",
            SSHError::ChannelOpenFailed => "failed to open a channel",
            SSHError::ExecFailed => "exec request failed",
            SSHError::IOFailed => "channel read or write failed",
            SSHError::NoExit => "program did not exit cleanly",
            SSHError::PIDNotAnnounced => "process identifier was not announced",
            SSHError::DisconnectFailed => "clean disconnect failed",
        };
        proof {
            reveal_strlit("failed to load the private key");
            reveal_strlit("transport connection or handshake failed");
            reveal_strlit("authentication failed");
            reveal_strlit("failed to open a channel");
            reveal_strlit("exec request failed");
            reveal_strlit("channel read or write failed");
            reveal_strlit("program did not exit cleanly");
            reveal_strlit("process identifier was not announced");
            reveal_strlit("clean disconnect failed");
        }
        m
    }
}

} // verus!
