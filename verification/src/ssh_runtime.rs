//! The runtime manager: launch a detached remote command, learn its process
//! identifier from the announcement it prints, kill it later, and shut the
//! session down.
//!
//! The manager is a two-state machine: `new` leaves it connected, `shutdown`
//! moves it to the terminal shut-down state. Launch and kill are valid only
//! while connected; after shutdown every request fails because no channel
//! can be opened any more.

use vstd::prelude::*;
use vstd::string::StringExecFns;

use crate::errors::SSHError;
use crate::scanner::{has_match, is_digit_char, lower_bytes, pid_bytes_of, pid_chars, pid_to_string,
    scan_chunk};
use crate::ssh_session::{ChannelEvent, ChannelOutcome, ConnectOutcome, DisconnectReason,
    DisconnectRequest, SSHConfig, Session};

verus! {

/// A `Data` event whose chunk holds an announcement.
pub open spec fn event_matches(e: ChannelEvent) -> bool {
    e matches ChannelEvent::Data(d) && has_match(lower_bytes(d@))
}

/// Some event of the stream announces an identifier.
pub open spec fn stream_has_pid(evs: Seq<ChannelEvent>) -> bool {
    exists|i: int| 0 <= i < evs.len() && event_matches(evs[i])
}

/// `i` is the first announcing event of the stream.
pub open spec fn is_first_match(evs: Seq<ChannelEvent>, i: int) -> bool {
    &&& 0 <= i < evs.len()
    &&& event_matches(evs[i])
    &&& (forall|t: int| 0 <= t < i ==> !event_matches(evs[t]))
}

/// The identifier the stream announces: the capture of the first announcing
/// chunk, as the decimal string it spells.
pub open spec fn stream_pid(evs: Seq<ChannelEvent>) -> Seq<char> {
    let i = choose|i: int| is_first_match(evs, i);
    pid_chars(pid_bytes_of(lower_bytes(evs[i]->Data_0@)))
}

/// The first announcing position is unique.
pub proof fn lemma_first_match_unique(evs: Seq<ChannelEvent>, a: int, b: int)
    requires
        is_first_match(evs, a),
        is_first_match(evs, b),
    ensures
        a == b,
{
    if a < b {
        assert(!event_matches(evs[a]));
    }
    if b < a {
        assert(!event_matches(evs[b]));
    }
}

/// Scans a launch channel's events in delivery order and returns the first
/// announced identifier. Events after the first announcing chunk play no
/// part; a stream that ends without an announcement is `PIDNotAnnounced`.
pub fn scan_stream(events: &Vec<ChannelEvent>) -> (r: Result<String, SSHError>)
    ensures
        r is Ok <==> stream_has_pid(events@),
        r matches Ok(p) ==> p@ == stream_pid(events@) && p@.len() > 0 && (forall|t: int|
            0 <= t < p@.len() ==> is_digit_char(p@[t])),
        !stream_has_pid(events@) ==> (r matches Err(e) && e == SSHError::PIDNotAnnounced),
{
    let mut i: usize = 0;
    while i < events.len()
        invariant
            i <= events@.len(),
            forall|t: int| 0 <= t < i ==> !event_matches(events@[t]),
        decreases events@.len() - i,
    {
        match &events[i] {
            ChannelEvent::Data(d) => {
                match scan_chunk(d) {
                    Some(digits) => {
                        let p = pid_to_string(&digits);
                        proof {
                            assert(event_matches(events@[i as int]));
                            assert(is_first_match(events@, i as int));
                            let w = choose|w: int| is_first_match(events@, w);
                            lemma_first_match_unique(events@, w, i as int);
                        }
                        return Ok(p);
                    },
                    None => {
                        proof {
                            assert(!event_matches(events@[i as int]));
                        }
                    },
                }
            },
            _ => {
                proof {
                    assert(!event_matches(events@[i as int]));
                }
            },
        }
        i += 1;
    }
    Err(SSHError::PIDNotAnnounced)
}

/// The launch request put on the wire: the command behind the detach
/// wrapper. `setsid` starts the remote program as a new session leader, so
/// dropping the launch channel later does not take the program down.
pub fn start_command(command: &str) -> (c: String)
    ensures
        c@ == "setsid "@ + command@,
{
    String::from_str("setsid ").concat(command)
}

/// The kill request put on the wire for an identifier.
pub fn kill_command(pid: &str) -> (c: String)
    ensures
        c@ == "kill "@ + pid@,
{
    String::from_str("kill ").concat(pid)
}

/// The remote-process supervisor. It exclusively owns one session and moves
/// from its initial connected state to the terminal shut-down state.
pub struct SSHRuntimeManager {
    ssh_config: SSHConfig,
    ssh_session: Session,
}

impl SSHRuntimeManager {
    /// The manager accepts work: its session is still connected.
    pub closed spec fn spec_connected(&self) -> bool {
        self.ssh_session.spec_connected()
    }

    /// Whether the manager still accepts work.
    pub fn is_connected(&self) -> (b: bool)
        ensures
            b == self.spec_connected(),
    {
        self.ssh_session.is_connected()
    }

    /// The configuration the manager was built for.
    pub closed spec fn spec_config(&self) -> SSHConfig {
        self.ssh_config
    }

    /// A view of the configuration the manager was built for.
    pub fn config(&self) -> (c: &SSHConfig)
        ensures
            *c == self.spec_config(),
    {
        &self.ssh_config
    }

    /// Wraps the session connect: a connect failure is surfaced as the
    /// error it classifies to, and only an accepting authentication verdict
    /// yields a connected manager.
    pub fn new(ssh_config: SSHConfig, outcome: &ConnectOutcome) -> (r: Result<
        SSHRuntimeManager,
        SSHError,
    >)
        ensures
            r is Ok <==> outcome matches ConnectOutcome::AuthResult(true),
            r matches Ok(m) ==> m.spec_connected(),
            outcome is KeyLoadError ==> (r matches Err(e) && e == SSHError::KeyLoadFailed),
            outcome is TransportError ==> (r matches Err(e) && e == SSHError::TransportFailed),
            outcome matches ConnectOutcome::AuthResult(false) ==> (r matches Err(e) && e
                == SSHError::AuthFailed),
    {
        match Session::connect(outcome) {
            Ok(s) => Ok(SSHRuntimeManager { ssh_config, ssh_session: s }),
            Err(e) => Err(e),
        }
    }

    /// The launch decision: while connected, the exec request to send for
    /// `command`; after shutdown, no channel can be opened and the launch
    /// fails.
    pub fn start_request(&self, command: &str) -> (r: Result<String, SSHError>)
        ensures
            self.spec_connected() ==> (r matches Ok(c) && c@ == "setsid "@ + command@),
            !self.spec_connected() ==> (r matches Err(e) && e == SSHError::ChannelOpenFailed),
    {
        if self.ssh_session.is_connected() {
            Ok(start_command(command))
        } else {
            Err(SSHError::ChannelOpenFailed)
        }
    }

    /// Launches a detached remote command: `outcome` is what the launch
    /// channel came to after the request built by `start_request` was sent.
    /// The first announced identifier is returned; a stream that ends
    /// without one fails with `PIDNotAnnounced`, and after shutdown the
    /// launch fails without looking at the outcome.
    pub fn start_new_process(&self, command: &str, outcome: &ChannelOutcome) -> (r: Result<
        String,
        SSHError,
    >)
        ensures
            !self.spec_connected() ==> (r matches Err(e) && e == SSHError::ChannelOpenFailed),
            self.spec_connected() ==> match outcome {
                ChannelOutcome::OpenError => r matches Err(e) && e == SSHError::ChannelOpenFailed,
                ChannelOutcome::ExecError => r matches Err(e) && e == SSHError::ExecFailed,
                ChannelOutcome::Streamed(evs) => {
                    &&& (r is Ok <==> stream_has_pid(evs@))
                    &&& (r matches Ok(p) ==> p@ == stream_pid(evs@) && p@.len() > 0 && (forall|
                        t: int,
                    |
                        0 <= t < p@.len() ==> is_digit_char(p@[t])))
                    &&& (!stream_has_pid(evs@) ==> (r matches Err(e) && e
                        == SSHError::PIDNotAnnounced))
                },
            },
    {
        match self.start_request(command) {
            Err(e) => Err(e),
            Ok(_) => match outcome {
                ChannelOutcome::OpenError => Err(SSHError::ChannelOpenFailed),
                ChannelOutcome::ExecError => Err(SSHError::ExecFailed),
                ChannelOutcome::Streamed(events) => scan_stream(events),
            },
        }
    }

    /// The kill decision: while connected, the exec request to send for
    /// `pid`; after shutdown, no channel can be opened and the kill fails.
    pub fn kill_request(&self, pid: &str) -> (r: Result<String, SSHError>)
        ensures
            self.spec_connected() ==> (r matches Ok(c) && c@ == "kill "@ + pid@),
            !self.spec_connected() ==> (r matches Err(e) && e == SSHError::ChannelOpenFailed),
    {
        if self.ssh_session.is_connected() {
            Ok(kill_command(pid))
        } else {
            Err(SSHError::ChannelOpenFailed)
        }
    }

    /// Best-effort termination of a previously announced identifier. While
    /// connected the call returns ok whatever the remote exit status or the
    /// channel came to; only a manager already shut down fails.
    pub fn kill_process(&self, pid: &str, outcome: &ChannelOutcome) -> (r: Result<(), SSHError>)
        ensures
            self.spec_connected() ==> r is Ok,
            !self.spec_connected() ==> (r matches Err(e) && e == SSHError::ChannelOpenFailed),
    {
        match self.kill_request(pid) {
            Err(e) => Err(e),
            Ok(_) => {
                let _ = self.ssh_session.exec_command(outcome);
                Ok(())
            },
        }
    }

    /// Tears the session down: moves to the terminal shut-down state and
    /// returns the clean-disconnect request for the caller to send. A
    /// manager already shut down fails with `DisconnectFailed` and stays
    /// shut down.
    pub fn shutdown(&mut self) -> (r: Result<DisconnectRequest, SSHError>)
        ensures
            !final(self).spec_connected(),
            old(self).spec_connected() ==> (r matches Ok(q) && q.reason
                == DisconnectReason::ByApplication && q.description@ == Seq::<char>::empty()
                && q.language_tag@ == "English"@),
            !old(self).spec_connected() ==> (r matches Err(e) && e == SSHError::DisconnectFailed),
    {
        if self.ssh_session.is_connected() {
            let req = self.ssh_session.close();
            Ok(req)
        } else {
            Err(SSHError::DisconnectFailed)
        }
    }
}

} // verus!
