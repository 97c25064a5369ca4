//! The failures a command can end in, and the words they are reported with.

use vstd::prelude::*;
use vstd::string::*;

verus! {

/// Why a command was aborted. Every failure reaches the top level and ends
/// the command; none is retried.
#[derive(Clone, Copy, Debug, PartialEq, Eq, Structural)]
pub enum Error {
    /// The signing agent's socket could not be contacted.
    AgentUnreachable,
    /// The passphrase did not decrypt the persisted key.
    InvalidPassphrase,
    /// No profile is marked active.
    NoActiveProfile,
    /// A signature was asked of a key that the agent does not hold.
    SigningKeyNotReady,
    /// A tracking relationship that had to exist does not.
    TrackingEdgeMissing,
    /// Any other failure of storage or I/O.
    Storage,
}

impl Error {
    /// The words shown to the user for this failure.
    pub open spec fn text(self) -> Seq<char> {
        match self {
            Error::AgentUnreachable => "signing agent is unreachable"@,
            Error::InvalidPassphrase => "invalid passphrase supplied"@,
            Error::NoActiveProfile => "no active profile"@,
            Error::SigningKeyNotReady => "signing key is not loaded in the agent"@,
            Error::TrackingEdgeMissing => "tracking relationship does not exist"@,
            Error::Storage => "storage failure"@,
        }
    }

    /// The user-facing message.
    pub fn message(&self) -> (s: String)
        ensures
            s@ == self.text(),
    {
        match self {
            Error::AgentUnreachable => String::from_str("signing agent is unreachable"),
            Error::InvalidPassphrase => String::from_str("invalid passphrase supplied"),
            Error::NoActiveProfile => String::from_str("no active profile"),
            Error::SigningKeyNotReady => String::from_str("signing key is not loaded in the agent"),
            Error::TrackingEdgeMissing => String::from_str("tracking relationship does not exist"),
            Error::Storage => String::from_str("storage failure"),
        }
    }

    /// Two different failures are never reported with the same words. In
    /// particular a wrong passphrase cannot be mistaken for an unreachable
    /// agent or a storage failure.
    pub proof fn law_messages_distinct(a: Error, b: Error)
        requires
            a != b,
        ensures
            a.text() != b.text(),
    {
        reveal_strlit("signing agent is unreachable");
        reveal_strlit("invalid passphrase supplied");
        reveal_strlit("no active profile");
        reveal_strlit("signing key is not loaded in the agent");
        reveal_strlit("tracking relationship does not exist");
        reveal_strlit("storage failure");
        assert(a.text().len() != b.text().len());
    }
}

} // verus!
