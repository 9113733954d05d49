//! The session with the remote package-management daemon.
//!
//! A [`DnfDaemon`] value stands for one remote session: it records the
//! session's object path, granted by the session-manager handshake, and
//! whether the session is still connected.  The caller performs the bus
//! calls; the type decides them.  Opening hands the granted path to
//! [`DnfDaemon::new`]; closing asks [`DnfDaemon::close`], which consents
//! to the remote close exactly once and refuses a second attempt with
//! [`Error::NotConnected`].  A caller that discards a still
//! connected session is expected to run the same close sequence first, so
//! the remote daemon never retains a session whose owning value is gone.

use vstd::prelude::*;
use crate::errors::Error;

verus! {

/// Why opening a session failed.
#[derive(Debug)]
pub enum SessionError {
    /// The bus connection could not be established.
    Transport,
    /// The open-session call errored.
    HandshakeFailed,
    /// The call handle for the named remote interface could not be bound.
    /// Handles are bound all or nothing: one failed binding fails the
    /// whole open, and no partial session is exposed.
    InterfaceBindFailed(String),
}

/// The stable debug-style rendering of a session-open failure.
pub open spec fn spec_session_error_text(e: SessionError) -> Seq<char> {
    match e {
        SessionError::Transport => "Transport"@,
        SessionError::HandshakeFailed => "HandshakeFailed"@,
        SessionError::InterfaceBindFailed(m) => "InterfaceBindFailed(\""@ + m@ + "\")"@,
    }
}

impl SessionError {
    /// The failure's stable textual rendering, suitable for direct display.
    pub fn display_string(&self) -> (r: String)
        ensures
            r@ == spec_session_error_text(*self),
    {
        match self {
            SessionError::Transport => String::from_str("Transport"),
            SessionError::HandshakeFailed => String::from_str("HandshakeFailed"),
            SessionError::InterfaceBindFailed(m) => {
                let mut out = String::from_str("InterfaceBindFailed(\"");
                out.append(m.as_str());
                out.append("\")");
                out
            },
        }
    }
}

/// One session with the remote daemon.
#[derive(Debug)]
pub struct DnfDaemon {
    /// The session's object path; immutable after creation.
    path: String,
    /// Whether the remote session is still open.
    connected: bool,
}

/// How one close call relates the session before it, the session after
/// it, and the call's result.  A connected session closes successfully
/// and is disconnected afterwards, its object path kept; a session that
/// is not connected refuses with [`Error::NotConnected`] and is left
/// untouched.
pub open spec fn close_spec(pre: DnfDaemon, post: DnfDaemon, r: Result<(), Error>) -> bool {
    if pre.is_open() {
        r is Ok
        && !post.is_open()
        && post.session_path() == pre.session_path()
    } else {
        (r matches Err(e) && e is NotConnected)
        && post == pre
    }
}

impl DnfDaemon {
    /// Whether the remote session is still open.
    pub closed spec fn is_open(self) -> bool {
        self.connected
    }

    /// The session's object path.
    pub closed spec fn session_path(self) -> Seq<char> {
        self.path@
    }

    /// A freshly opened session at the object path granted by the
    /// session-manager handshake.
    pub fn new(path: String) -> (s: DnfDaemon)
        ensures
            s.is_open(),
            s.session_path() == path@,
    {
        DnfDaemon { path, connected: true }
    }

    /// The session's object path, at which every per-interface call
    /// handle is bound.
    pub fn path(&self) -> (r: &str)
        ensures
            r@ == self.session_path(),
    {
        self.path.as_str()
    }

    /// Whether the session is connected: a pure read of local state.
    pub fn is_connected(&self) -> (r: bool)
        ensures
            r == self.is_open(),
    {
        self.connected
    }

    /// Closes the session.  On a connected session this succeeds and
    /// marks the session disconnected; the caller then calls the remote
    /// close-session operation at the session's object path, whose own
    /// failure is reported, not swallowed, while the session counts as
    /// closed either way.  On a session that is not connected this
    /// refuses with [`Error::NotConnected`], signalling misuse rather
    /// than ignoring it.
    pub fn close(&mut self) -> (r: Result<(), Error>)
        ensures
            close_spec(*old(self), *final(self), r),
    {
        if self.connected {
            self.connected = false;
            Ok(())
        } else {
            Err(Error::NotConnected)
        }
    }
}

/// A session is torn down exactly once: from any open session, a first
/// close succeeds and leaves the session disconnected, and a second close
/// refuses with [`Error::NotConnected`] without changing anything.
pub proof fn lemma_close_exactly_once(
    s0: DnfDaemon,
    s1: DnfDaemon,
    r1: Result<(), Error>,
    s2: DnfDaemon,
    r2: Result<(), Error>,
)
    requires
        s0.is_open(),
        close_spec(s0, s1, r1),
        close_spec(s1, s2, r2),
    ensures
        r1 is Ok,
        !s1.is_open(),
        r2 matches Err(e) && e is NotConnected,
        s2 == s1,
{
}

} // verus!
