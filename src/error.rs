use vstd::prelude::*;
use vstd::string::*;

verus! {

/// Every failure the library reports. Failures that originate in an outside
/// component carry that component's description as text.
#[derive(Debug, Clone, PartialEq, Eq)]
pub enum Error {
    /// The transport, key exchange or session layer failed.
    Scattterbrain(String),
    /// The session state could not be written as structured text.
    TomlSerError(String),
    /// The session file could not be decoded: the stored state is corrupt.
    TomlDeError(String),
    /// The platform has no configuration directory.
    ConfigMissingError,
    /// The session file is already present and must not be overwritten.
    ConfigAlreadyExists(String),
    /// A path that was expected to exist (or to have a parent) does not.
    ConfigDoesNotExist(String),
    /// Reading or writing the disk failed.
    IoError(String),
    /// The command line was malformed.
    ClapError(String),
    /// A session was resumed with a peer that shares no trust with us.
    NotPaired,
    /// The human verification step was declined.
    PairingRejected,
}

pub type SbResult<T> = Result<T, Error>;

/// The text shown for each error.
pub open spec fn message_of(e: Error) -> Seq<char> {
    match e {
        Error::Scattterbrain(d) => "Scatterbrain error: "@ + d@,
        Error::TomlSerError(d) => "Toml serialize error: "@ + d@,
        Error::TomlDeError(d) => "Toml deserialize error: "@ + d@,
        Error::ConfigMissingError => "Config directory missing"@,
        Error::ConfigAlreadyExists(p) => "File already exist: "@ + p@,
        Error::ConfigDoesNotExist(p) => "File does not exist: "@ + p@,
        Error::IoError(d) => "IO error "@ + d@,
        Error::ClapError(d) => "Invalid argument: "@ + d@,
        Error::NotPaired => "Not paired, please attempt pairing."@,
        Error::PairingRejected => "Pairing rejected: the verification words were not confirmed."@,
    }
}

fn prefixed(prefix: &str, detail: &String) -> (r: String)
    ensures
        r@ == prefix@ + detail@,
{
    String::from_str(prefix).concat(detail.as_str())
}

impl Error {
    /// A description of the error for the user.
    pub fn message(&self) -> (r: String)
        ensures
            r@ == message_of(*self),
    {
        match self {
            Error::Scattterbrain(d) => prefixed("Scatterbrain error: ", d),
            Error::TomlSerError(d) => prefixed("Toml serialize error: ", d),
            Error::TomlDeError(d) => prefixed("Toml deserialize error: ", d),
            Error::ConfigMissingError => String::from_str("Config directory missing"),
            Error::ConfigAlreadyExists(p) => prefixed("File already exist: ", p),
            Error::ConfigDoesNotExist(p) => prefixed("File does not exist: ", p),
            Error::IoError(d) => prefixed("IO error ", d),
            Error::ClapError(d) => prefixed("Invalid argument: ", d),
            Error::NotPaired => String::from_str("Not paired, please attempt pairing."),
            Error::PairingRejected => String::from_str(
                "Pairing rejected: the verification words were not confirmed.",
            ),
        }
    }
}

} // verus!
