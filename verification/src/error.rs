//! The tagged error type shared by every stage of the build pipeline:
//! a kind that callers can branch on, and a human-readable context string.

use vstd::prelude::*;

verus! {

/// Classifies what went wrong during a build.
#[derive(Debug, Clone, Copy, PartialEq, Eq, Structural)]
pub enum ErrorKind {
    IoError,
    FilesNotSet,
    Lz2EncodeError,
    WalkDirError,
    StripPrefixError,
    SystemTimeError,
    InvalidConfError,
    AppImageCompilerError,
    NsisCompilerError,
    RpmCompilerError,
    /// Failed to get the git commit hash: the tool is unavailable
    /// or the working directory is not inside a repository.
    GitHashError,
    EnvironmentNotSetError,
    Utf8Error,
    JsonError,
    TomlError,
    RegexError,
    InvalidDirname,
    GlobPatternError,
    GlobError,
    /// The home directory does not refer to a valid path.
    HomeDirError,
    HttpError,
    CmdlineError,
}

/// A build error: a kind plus a context message.
#[derive(Debug, Clone)]
pub struct Error {
    kind: ErrorKind,
    message: String,
}

impl Error {
    /// The kind, as seen by specifications.
    pub closed spec fn spec_kind(&self) -> ErrorKind {
        self.kind
    }

    /// The message, as seen by specifications.
    pub closed spec fn spec_message(&self) -> Seq<char> {
        self.message@
    }

    pub fn new(kind: ErrorKind, message: &str) -> (e: Self)
        ensures
            e.spec_kind() == kind,
            e.spec_message() == message@,
    {
        Self { kind, message: message.to_owned() }
    }

    pub fn from_string(kind: ErrorKind, message: String) -> (e: Self)
        ensures
            e.spec_kind() == kind,
            e.spec_message() == message@,
    {
        Self { kind, message }
    }

    pub fn kind(&self) -> (k: ErrorKind)
        ensures
            k == self.spec_kind(),
    {
        self.kind
    }

    pub fn message(&self) -> (m: &str)
        ensures
            m@ == self.spec_message(),
    {
        self.message.as_str()
    }
}

} // verus!
