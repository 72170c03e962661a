//! The library's failure kinds: a transport-level failure, carrying the
//! transport's own description text, and an unrecognized IP-version token.

use vstd::prelude::*;
use vstd::string::*;

verus! {

/// A failure of the lookup: either the HTTP transport failed, or the
/// user-supplied IP-version token was not recognized.
#[derive(Debug)]
pub enum Error {
    /// A transport-level failure (connection, TLS, protocol), carrying the
    /// transport's own description text.
    Transport(String),
    /// An IP-version token other than `"4"` or `"6"`, carrying the
    /// offending token.
    UnsupportedIpVersion(String),
}

/// The human-readable text of an error: a transport failure is surfaced
/// verbatim, an unrecognized token is wrapped as `UnsupportedIpVersion(...)`.
pub open spec fn spec_message(e: Error) -> Seq<char> {
    match e {
        Error::Transport(description) => description@,
        Error::UnsupportedIpVersion(token) => "UnsupportedIpVersion("@ + token@ + ")"@,
    }
}

impl Error {
    /// Wraps a failure of the HTTP transport, keeping the transport's own
    /// description text unchanged.
    pub fn from_transport(description: String) -> (r: Error)
        ensures
            r == Error::Transport(description),
    {
        Error::Transport(description)
    }

    /// The error's description text, as `spec_message` states it.
    pub fn message(&self) -> (r: String)
        ensures
            r@ == spec_message(*self),
    {
        match self {
            Error::Transport(description) => description.clone(),
            Error::UnsupportedIpVersion(token) => {
                let mut text = String::from_str("UnsupportedIpVersion(");
                text.append(token.as_str());
                text.append(")");
                text
            },
        }
    }

    /// The closing line written to standard error when the program fails:
    /// `closed with error: ` followed by the error's description.
    pub fn closing_report(&self) -> (r: String)
        ensures
            r@ == "closed with error: "@ + spec_message(*self),
    {
        let mut text = String::from_str("closed with error: ");
        let message = self.message();
        text.append(message.as_str());
        text
    }
}

} // verus!
