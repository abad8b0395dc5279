//! The errors every component reports: a kind and a descriptive message.

use vstd::prelude::*;

verus! {

/// What went wrong, independent of the wording.
#[derive(Clone, Copy, Debug, PartialEq, Eq, Structural)]
pub enum ErrorKind {
    /// The device could not be located by any method.
    NotFound,
    /// The device address did not answer a reachability probe.
    Unreachable,
    /// An HTTP exchange failed below the protocol level.
    NetworkError,
    /// The device rejected the one-time code.
    InvalidCode,
    /// The device accepted the code but sent no session token.
    TokenMissing,
    /// The session token is no longer accepted.
    SessionExpired,
    /// The device rejected the public key as malformed.
    MalformedKey,
    /// The device answered with a status that the protocol does not name.
    Unexpected { status: u16 },
    /// The user's home directory is unknown.
    HomeDirUnavailable,
    /// The key-generation tool could not be run or reported failure.
    KeygenFailed,
    /// A directory or file could not be created with, or restricted to, owner-only access.
    PermissionError,
    /// A local file could not be read or written.
    IOError,
    /// A local tool could not be started.
    LaunchError,
    /// A remote command ran and exited with failure.
    RemoteCommandFailed,
    /// A file copy to the device ran and exited with failure.
    RemoteTransferFailed,
    /// The local artifact is missing or is not a readable archive.
    ArtifactInvalid,
    /// The secret store refused an operation.
    SecretStore,
    /// The release service gave nothing usable.
    Catalog,
}

/// An error as callers see it.
#[derive(Clone, Debug, PartialEq, Eq)]
pub struct InstallerError {
    pub kind: ErrorKind,
    pub message: String,
}

/// The mathematical content of an [`InstallerError`].
pub struct ErrorModel {
    pub kind: ErrorKind,
    pub message: Seq<char>,
}

impl DeepView for InstallerError {
    type V = ErrorModel;

    open spec fn deep_view(&self) -> ErrorModel {
        ErrorModel { kind: self.kind, message: self.message@ }
    }
}

/// The mathematical content of a fallible result.
pub open spec fn result_model<T: DeepView>(result: Result<T, InstallerError>) -> Result<T::V, ErrorModel> {
    match result {
        Ok(value) => Ok(value.deep_view()),
        Err(error) => Err(error.deep_view()),
    }
}

/// The error of the given kind whose message is `message`.
pub open spec fn failure<V>(kind: ErrorKind, message: Seq<char>) -> Result<V, ErrorModel> {
    Err(ErrorModel { kind, message })
}

} // verus!
