//! The session layer: one authenticated SSH transport to one host.
//!
//! The model keeps the decisions and leaves the wire to the caller. A
//! `Session` value stands for the transport and tracks whether it is still
//! connected; `ConnectOutcome` and `ChannelOutcome` carry in what the
//! caller's I/O steps ended, and the functions here turn those outcomes into
//! the errors and results the supervisor promises.

use vstd::prelude::*;
use vstd::string::StringExecFns;

use crate::errors::SSHError;

verus! {

/// Transport inactivity timeout configured at connect, in seconds.
pub const INACTIVITY_TIMEOUT_SECS: u64 = 120;

/// Transport keepalive interval configured at connect, in seconds.
pub const KEEPALIVE_INTERVAL_SECS: u64 = 30;

/// The connection parameters for one host.
pub struct SSHConfig {
    pub hostname: String,
    pub username: String,
    pub port: u16,
    pub private_key_path: String,
}

/// One message received on a session channel bound to a remote command.
pub enum ChannelEvent {
    /// A chunk of the remote command's standard output.
    Data(Vec<u8>),
    /// The remote command's exit status; arrives at most once.
    ExitStatus(u32),
    /// Any other channel message; the supervisor ignores it.
    Other,
}

/// How far a one-shot command on a fresh channel got.
pub enum ChannelOutcome {
    /// No fresh channel could be opened over the transport.
    OpenError,
    /// The channel opened, but the exec request was refused.
    ExecError,
    /// The exec request was accepted and the channel delivered these events
    /// before the stream ended.
    Streamed(Vec<ChannelEvent>),
}

/// In what the connect steps ended: key loading, transport handshake, then
/// public-key authentication.
pub enum ConnectOutcome {
    /// The private key was missing, unreadable, or unparseable.
    KeyLoadError,
    /// The TCP connection or the SSH handshake failed, also when the failure
    /// came up during the authentication exchange.
    TransportError,
    /// The handshake completed and authentication answered this verdict.
    AuthResult(bool),
}

/// The reason code of a clean disconnect.
#[derive(Clone, Copy, Debug, PartialEq, Eq, Structural)]
pub enum DisconnectReason {
    /// The application asked for the disconnect.
    ByApplication,
}

/// The clean-disconnect request sent when the session closes.
pub struct DisconnectRequest {
    pub reason: DisconnectReason,
    pub description: String,
    pub language_tag: String,
}

/// An exit-status event.
pub open spec fn is_exit_event(e: ChannelEvent) -> bool {
    e is ExitStatus
}

/// The stream carried an exit status.
pub open spec fn has_exit(evs: Seq<ChannelEvent>) -> bool {
    exists|i: int| 0 <= i < evs.len() && is_exit_event(evs[i])
}

/// `i` is the position of the last exit-status event of the stream.
pub open spec fn is_last_exit(evs: Seq<ChannelEvent>, i: int) -> bool {
    &&& 0 <= i < evs.len()
    &&& is_exit_event(evs[i])
    &&& (forall|t: int| i < t < evs.len() ==> !is_exit_event(evs[t]))
}

/// The code recorded by the last exit-status event.
pub open spec fn last_exit_code(evs: Seq<ChannelEvent>) -> u32 {
    let i = choose|i: int| is_last_exit(evs, i);
    evs[i]->ExitStatus_0
}

/// The last exit-status position is unique.
pub proof fn lemma_last_exit_unique(evs: Seq<ChannelEvent>, a: int, b: int)
    requires
        is_last_exit(evs, a),
        is_last_exit(evs, b),
    ensures
        a == b,
{
    if a < b {
        assert(!is_exit_event(evs[b]));
    }
    if b < a {
        assert(!is_exit_event(evs[a]));
    }
}

/// Folds a finished event stream into the exit code it recorded: the last
/// exit status seen, or `NoExit` when the stream ended without one.
pub fn exit_of_stream(events: &Vec<ChannelEvent>) -> (r: Result<u32, SSHError>)
    ensures
        r is Ok <==> has_exit(events@),
        r matches Ok(c) ==> c == last_exit_code(events@),
        !has_exit(events@) ==> r == Err::<u32, SSHError>(SSHError::NoExit),
{
    let mut code: Option<u32> = None;
    let ghost mut gi: int = 0;
    let mut i: usize = 0;
    while i < events.len()
        invariant
            i <= events@.len(),
            code is None ==> forall|t: int| 0 <= t < i ==> !is_exit_event(events@[t]),
            code matches Some(c) ==> 0 <= gi < i && is_exit_event(events@[gi])
                && events@[gi]->ExitStatus_0 == c && (forall|t: int|
                gi < t < i ==> !is_exit_event(events@[t])),
        decreases events@.len() - i,
    {
        match &events[i] {
            ChannelEvent::ExitStatus(es) => {
                code = Some(*es);
                proof {
                    gi = i as int;
                }
            },
            _ => {},
        }
        i += 1;
    }
    match code {
        None => {
            proof {
                assert(!has_exit(events@));
            }
            Err(SSHError::NoExit)
        },
        Some(c) => {
            proof {
                assert(is_last_exit(events@, gi));
                let w = choose|w: int| is_last_exit(events@, w);
                lemma_last_exit_unique(events@, w, gi);
            }
            Ok(c)
        },
    }
}

/// One SSH transport. From a successful connect until `close`, the transport
/// is connected and authenticated; after `close` no operation is valid.
pub struct Session {
    connected: bool,
}

impl Session {
    /// The transport is connected and authenticated.
    pub closed spec fn spec_connected(&self) -> bool {
        self.connected
    }

    /// Whether the session still accepts operations.
    pub fn is_connected(&self) -> (b: bool)
        ensures
            b == self.spec_connected(),
    {
        self.connected
    }

    /// The decision core of connecting: classifies in what the caller's
    /// connect steps ended. A rejected public-key authentication — a plain
    /// `false` verdict — becomes `AuthFailed`; only a completed handshake
    /// with an accepting verdict yields a live session.
    pub fn connect(outcome: &ConnectOutcome) -> (r: Result<Session, SSHError>)
        ensures
            r is Ok <==> outcome matches ConnectOutcome::AuthResult(true),
            r matches Ok(s) ==> s.spec_connected(),
            outcome is KeyLoadError ==> (r matches Err(e) && e == SSHError::KeyLoadFailed),
            outcome is TransportError ==> (r matches Err(e) && e == SSHError::TransportFailed),
            outcome matches ConnectOutcome::AuthResult(false) ==> (r matches Err(e) && e
                == SSHError::AuthFailed),
    {
        match outcome {
            ConnectOutcome::KeyLoadError => Err(SSHError::KeyLoadFailed),
            ConnectOutcome::TransportError => Err(SSHError::TransportFailed),
            ConnectOutcome::AuthResult(ok) => {
                if *ok {
                    Ok(Session { connected: true })
                } else {
                    Err(SSHError::AuthFailed)
                }
            },
        }
    }

    /// The decision core of the one-shot command runner: turns what the
    /// fresh channel came to into the command's exit code. The caller
    /// forwards remote stdout chunks as they arrive; this fold records the
    /// exit status. On a closed session nothing can be opened.
    pub fn exec_command(&self, outcome: &ChannelOutcome) -> (r: Result<u32, SSHError>)
        ensures
            !self.spec_connected() ==> (r matches Err(e) && e == SSHError::ChannelOpenFailed),
            self.spec_connected() ==> match outcome {
                ChannelOutcome::OpenError => r matches Err(e) && e == SSHError::ChannelOpenFailed,
                ChannelOutcome::ExecError => r matches Err(e) && e == SSHError::ExecFailed,
                ChannelOutcome::Streamed(evs) => {
                    &&& (r is Ok <==> has_exit(evs@))
                    &&& (r matches Ok(c) ==> c == last_exit_code(evs@))
                    &&& (!has_exit(evs@) ==> (r matches Err(e) && e == SSHError::NoExit))
                },
            },
    {
        if !self.connected {
            return Err(SSHError::ChannelOpenFailed);
        }
        match outcome {
            ChannelOutcome::OpenError => Err(SSHError::ChannelOpenFailed),
            ChannelOutcome::ExecError => Err(SSHError::ExecFailed),
            ChannelOutcome::Streamed(events) => exit_of_stream(events),
        }
    }

    /// Closes the session: after this, no operation is valid. The request
    /// returned is the application-initiated disconnect with an empty
    /// description and the language tag `English`; the caller sends it.
    pub fn close(&mut self) -> (r: DisconnectRequest)
        requires
            old(self).spec_connected(),
        ensures
            !final(self).spec_connected(),
            r.reason == DisconnectReason::ByApplication,
            r.description@ == Seq::<char>::empty(),
            r.language_tag@ == "English"@,
    {
        self.connected = false;
        DisconnectRequest {
            reason: DisconnectReason::ByApplication,
            description: String::new(),
            language_tag: String::from_str("English"),
        }
    }
}

} // verus!
