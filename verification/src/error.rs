//! The failures the configuration loader can surface.

use vstd::prelude::*;
use vstd::string::StringExecFns;

verus! {

/// A failure while loading the configuration. Both kinds are fatal to
/// startup: there is no partial-load or retry path.
#[derive(Debug)]
pub enum Error {
    /// The configuration file could not be opened or read.
    ReadError,
    /// The file's contents did not decode into the expected schema
    /// (malformed syntax, missing field, or a regex that does not compile).
    /// Carries the offending path for diagnostics.
    ConfigParseError(String),
}

impl Error {
    /// A short description of the failure, with the offending path where
    /// one is known.
    pub fn message(&self) -> (r: String)
        ensures
            self is ReadError ==> r@ == "configuration file could not be read"@,
            self matches Error::ConfigParseError(path) ==> r@ == "configuration file could not be parsed: "@
                + path@,
    {
        match self {
            Error::ReadError => "configuration file could not be read".to_owned(),
            Error::ConfigParseError(path) => {
                let mut m = "configuration file could not be parsed: ".to_owned();
                m.append(path.as_str());
                m
            },
        }
    }
}

} // verus!
