//! The errors of the sandbox host.

use vstd::prelude::*;
use vstd::string::StringExecFns;

verus! {

/// The host is not set up to run the requested language. Such an error is
/// fatal to the whole evaluation; the host never makes up output in its
/// place.
#[derive(Clone, Debug)]
pub enum ConfigurationError {
    /// No adapter is registered under the language id.
    UnknownLanguage(String),
    /// The language is known, but no runtime module is loaded for it.
    MissingRuntime(String),
    /// The runtime module offered for a language was rejected by the engine.
    InvalidRuntime(String),
}

/// Why the sandbox host did not produce a report.
#[derive(Clone, Debug)]
pub enum SandboxError {
    /// The host is not set up for the language.
    Configuration(ConfigurationError),
    /// The source failed to compile; the text is the compiler's diagnostics.
    Compilation(String),
    /// The engine could not set up or start the run.
    Host(String),
}

impl ConfigurationError {
    /// The text of the error.
    pub open spec fn message(self) -> Seq<char> {
        match self {
            ConfigurationError::UnknownLanguage(language) => "Unsupported language: "@
                + language@,
            ConfigurationError::MissingRuntime(language) => "No runtime module loaded for language: "@
                + language@,
            ConfigurationError::InvalidRuntime(reason) => "Invalid runtime module: "@ + reason@,
        }
    }

    /// Renders the error as text.
    pub fn to_string(&self) -> (s: String)
        ensures
            s@ == self.message(),
    {
        match self {
            ConfigurationError::UnknownLanguage(language) => String::from_str(
                "Unsupported language: ",
            ).concat(language.as_str()),
            ConfigurationError::MissingRuntime(language) => String::from_str(
                "No runtime module loaded for language: ",
            ).concat(language.as_str()),
            ConfigurationError::InvalidRuntime(reason) => String::from_str(
                "Invalid runtime module: ",
            ).concat(reason.as_str()),
        }
    }
}

impl SandboxError {
    /// The text of the error.
    pub open spec fn message(self) -> Seq<char> {
        match self {
            SandboxError::Configuration(e) => e.message(),
            SandboxError::Compilation(diagnostics) => "Compilation failed: "@ + diagnostics@,
            SandboxError::Host(reason) => "Sandbox host error: "@ + reason@,
        }
    }

    /// Renders the error as text.
    pub fn to_string(&self) -> (s: String)
        ensures
            s@ == self.message(),
    {
        match self {
            SandboxError::Configuration(e) => e.to_string(),
            SandboxError::Compilation(diagnostics) => String::from_str(
                "Compilation failed: ",
            ).concat(diagnostics.as_str()),
            SandboxError::Host(reason) => String::from_str("Sandbox host error: ").concat(
                reason.as_str(),
            ),
        }
    }

    /// Whether the error is a configuration error.
    pub fn is_configuration(&self) -> (b: bool)
        ensures
            b == (self is Configuration),
    {
        match self {
            SandboxError::Configuration(_) => true,
            _ => false,
        }
    }
}

} // verus!
