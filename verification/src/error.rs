//! The failures a download can end in, and how an I/O failure is sorted
//! among them.

use vstd::prelude::*;
use vstd::std_specs::convert::FromSpecImpl;

verus! {

/// Trusted: `std::io::Error`, carried as an opaque value.
#[verifier::external_type_specification]
#[verifier::external_body]
pub struct ExIoError(std::io::Error);

/// Trusted: `std::io::ErrorKind`, with its variants in view so that a
/// category can be told apart by a `match`.
#[verifier::external_type_specification]
pub struct ExIoErrorKind(std::io::ErrorKind);

/// The category that `std::io::Error::kind` reports for `err`.
pub uninterp spec fn io_error_kind(err: std::io::Error) -> std::io::ErrorKind;

/// Trusted: `std::io::Error::kind` returns the category of the error, and
/// the same category each time it is asked of the same error.
pub assume_specification[ std::io::Error::kind ](err: &std::io::Error) -> (kind:
    std::io::ErrorKind)
    ensures
        kind == io_error_kind(*err),
;

/// Trusted: `ToString::to_string` on a `std::io::Error` renders the error
/// as text. The text of an operating-system error comes from the platform,
/// so nothing is claimed of it.
#[verifier::external_body]
fn io_error_text(err: &std::io::Error) -> (text: String) {
    err.to_string()
}

/// The ways a download can fail.
#[derive(Debug)]
pub enum ErrorKind {
    /// A regular file already stands at the destination.
    FileExists,
    /// The destination directory is absent or is not a directory.
    DirectoryMissing,
    /// The operating system denied access.
    PermissionDenied,
    /// The transport could not hand over a response body.
    InvalidResponse,
    /// Any other failure while reading the body or writing the file.
    IO(std::io::Error),
    /// A failure reported by a collaborator, kept as its description.
    Other(String),
}

/// A download failure.
#[derive(Debug)]
pub struct Error {
    kind: ErrorKind,
}

impl View for Error {
    type V = ErrorKind;

    closed spec fn view(&self) -> ErrorKind {
        self.kind
    }
}

/// Where an I/O failure falls: a denial of access has a kind of its own,
/// every other one is carried along unchanged.
pub open spec fn classify(err: std::io::Error) -> ErrorKind {
    if io_error_kind(err) is PermissionDenied {
        ErrorKind::PermissionDenied
    } else {
        ErrorKind::IO(err)
    }
}

impl Error {
    pub fn new(k: ErrorKind) -> (e: Error)
        ensures
            e@ == k,
    {
        Error { kind: k }
    }

    pub fn kind(&self) -> (k: &ErrorKind)
        ensures
            *k == self@,
    {
        &self.kind
    }

    /// The I/O failure inside, if this is one.
    pub fn into_inner_io(self) -> (inner: Option<std::io::Error>)
        ensures
            inner == match self@ {
                ErrorKind::IO(err) => Some(err),
                _ => None,
            },
    {
        match self.kind {
            ErrorKind::FileExists => None,
            ErrorKind::DirectoryMissing => None,
            ErrorKind::PermissionDenied => None,
            ErrorKind::InvalidResponse => None,
            ErrorKind::IO(err) => Some(err),
            ErrorKind::Other(_) => None,
        }
    }

    /// The collaborator's description inside, if this is one.
    pub fn into_inner_other(self) -> (inner: Option<String>)
        ensures
            inner == match self@ {
                ErrorKind::Other(detail) => Some(detail),
                _ => None,
            },
    {
        match self.kind {
            ErrorKind::FileExists => None,
            ErrorKind::DirectoryMissing => None,
            ErrorKind::PermissionDenied => None,
            ErrorKind::InvalidResponse => None,
            ErrorKind::IO(_) => None,
            ErrorKind::Other(detail) => Some(detail),
        }
    }

    /// The failure as a sentence for a person to read.
    pub fn message(&self) -> (text: String)
        ensures
            match self@ {
                ErrorKind::FileExists => text@ == "File already exists"@,
                ErrorKind::DirectoryMissing => text@
                    == "Destination path provided is not a valid directory"@,
                ErrorKind::PermissionDenied => text@ == "Cannot create file: permission denied"@,
                ErrorKind::InvalidResponse => text@ == "Invalid response from the remote host"@,
                ErrorKind::IO(_) => true,
                ErrorKind::Other(detail) => text@ == detail@,
            },
    {
        match &self.kind {
            ErrorKind::FileExists => "File already exists".to_owned(),
            ErrorKind::DirectoryMissing => {
                "Destination path provided is not a valid directory".to_owned()
            },
            ErrorKind::PermissionDenied => "Cannot create file: permission denied".to_owned(),
            ErrorKind::InvalidResponse => "Invalid response from the remote host".to_owned(),
            ErrorKind::IO(err) => io_error_text(err),
            ErrorKind::Other(detail) => detail.clone(),
        }
    }
}

impl From<std::io::Error> for Error {
    /// Sorts an I/O failure into the taxonomy.
    fn from(err: std::io::Error) -> (e: Error)
        ensures
            e@ == classify(err),
    {
        match err.kind() {
            std::io::ErrorKind::PermissionDenied => Error { kind: ErrorKind::PermissionDenied },
            _ => Error { kind: ErrorKind::IO(err) },
        }
    }
}

impl FromSpecImpl<std::io::Error> for Error {
    open spec fn obeys_from_spec() -> bool {
        true
    }

    closed spec fn from_spec(err: std::io::Error) -> Error {
        Error { kind: classify(err) }
    }
}

} // verus!
