//! What can go wrong around the settings.

use vstd::prelude::*;

verus! {

/// The reasons for which an operation on the settings fails.
#[derive(Clone, Copy, Debug, PartialEq, Eq, Structural)]
pub enum ConfigError {
    /// The text is not valid JSON with comments, holds no value, or holds
    /// one that does not fit the schema.
    MalformedDocument,
    /// The configuration directory or file could not be created, read or
    /// written.
    Io,
    /// The settings could not be turned into text.
    Encode,
    /// The home directory is not known.
    Environment,
}

impl ConfigError {
    /// The words in which the error is reported.
    pub open spec fn message_text(self) -> Seq<char> {
        match self {
            ConfigError::MalformedDocument => "configuration document is malformed"@,
            ConfigError::Io => "configuration file or directory is not accessible"@,
            ConfigError::Encode => "settings could not be serialized"@,
            ConfigError::Environment => "home directory is not set"@,
        }
    }

    /// The words in which the error is reported.
    pub fn message(&self) -> (s: &'static str)
        ensures
            s@ == self.message_text(),
    {
        match self {
            ConfigError::MalformedDocument => "configuration document is malformed",
            ConfigError::Io => "configuration file or directory is not accessible",
            ConfigError::Encode => "settings could not be serialized",
            ConfigError::Environment => "home directory is not set",
        }
    }
}

} // verus!
