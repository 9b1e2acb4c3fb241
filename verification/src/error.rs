//! The kinds of failure that end a run.
use vstd::prelude::*;

verus! {

/// Why a run ended without publishing.
#[derive(Clone, Copy, Debug, PartialEq, Eq, Structural)]
pub enum Error {
    /// The state file exists but does not hold a session.
    ConfigCorrupt,
    /// The state file could not be written.
    IOError,
    /// The instance could not be reached, or did not answer in time.
    NetworkError,
    /// The instance answered with success but not with what was asked for.
    ProtocolError,
    /// The instance refused to register the client application.
    RegistrationFailed,
    /// The instance refused the credentials or the token.
    AuthRejected,
}

impl Error {
    /// The name of this kind of error, as text.
    pub open spec fn label(self) -> Seq<char> {
        match self {
            Error::ConfigCorrupt => "ConfigCorrupt"@,
            Error::IOError => "IOError"@,
            Error::NetworkError => "NetworkError"@,
            Error::ProtocolError => "ProtocolError"@,
            Error::RegistrationFailed => "RegistrationFailed"@,
            Error::AuthRejected => "AuthRejected"@,
        }
    }

    /// The name of this kind of error, for a diagnostic message.
    pub fn name(self) -> (text: &'static str)
        ensures
            text@ == self.label(),
    {
        match self {
            Error::ConfigCorrupt => "ConfigCorrupt",
            Error::IOError => "IOError",
            Error::NetworkError => "NetworkError",
            Error::ProtocolError => "ProtocolError",
            Error::RegistrationFailed => "RegistrationFailed",
            Error::AuthRejected => "AuthRejected",
        }
    }
}

} // verus!
