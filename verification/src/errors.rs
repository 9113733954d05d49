//! The error type shared by the library's operations.

use vstd::prelude::*;

verus! {

/// An error reported by a session, query or transaction operation.
#[derive(Debug)]
pub enum Error {
    /// The remote solver reported that the staged transaction cannot be
    /// resolved; the payload joins the solver's problem descriptions.
    TransactionNotResolved(String),
    /// Reserved for stricter validation of remote-supplied action strings.
    InvalidTransactionAction(String),
    /// The daemon could not be reached or the session handshake failed.
    DnfDaemon(String),
    /// An operation was attempted on a session that is no longer connected.
    NotConnected,
    /// A reply record was missing the named attribute, or carried it with
    /// the wrong wire type.
    MalformedRecord(String),
    /// A required input was empty.
    InvalidArgument,
}

/// The stable debug-style rendering of an error: the variant's name, with
/// any payload text quoted between parentheses.
pub open spec fn spec_error_text(e: Error) -> Seq<char> {
    match e {
        Error::TransactionNotResolved(m) => "TransactionNotResolved(\""@ + m@ + "\")"@,
        Error::InvalidTransactionAction(m) => "InvalidTransactionAction(\""@ + m@ + "\")"@,
        Error::DnfDaemon(m) => "DnfDaemon(\""@ + m@ + "\")"@,
        Error::NotConnected => "NotConnected"@,
        Error::MalformedRecord(m) => "MalformedRecord(\""@ + m@ + "\")"@,
        Error::InvalidArgument => "InvalidArgument"@,
    }
}

/// Renders `head`, then `msg`, then a closing quote and parenthesis.
fn render_payload(head: &str, msg: &String) -> (r: String)
    ensures
        r@ == head@ + msg@ + "\")"@,
{
    let mut out = String::from_str(head);
    out.append(msg.as_str());
    out.append("\")");
    out
}

impl Error {
    /// The error's stable textual rendering, suitable for direct display.
    pub fn display_string(&self) -> (r: String)
        ensures
            r@ == spec_error_text(*self),
    {
        match self {
            Error::TransactionNotResolved(m) => render_payload("TransactionNotResolved(\"", m),
            Error::InvalidTransactionAction(m) => render_payload("InvalidTransactionAction(\"", m),
            Error::DnfDaemon(m) => render_payload("DnfDaemon(\"", m),
            Error::NotConnected => String::from_str("NotConnected"),
            Error::MalformedRecord(m) => render_payload("MalformedRecord(\"", m),
            Error::InvalidArgument => String::from_str("InvalidArgument"),
        }
    }
}

} // verus!
