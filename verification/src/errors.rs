//! The errors that the library's own logic reports.
use vstd::prelude::*;
use vstd::string::*;

verus! {

/// Why a file-system step was refused, in the terms of `std::io::ErrorKind`.
#[derive(Debug, Clone, Copy, PartialEq, Eq, Structural)]
pub enum FsErrorKind {
    /// The path does not exist.
    NotFound,
    /// The path exists but is neither a regular file nor a directory.
    InvalidInput,
    /// The path exists but is not a directory.
    NotADirectory,
}

/// Errors of the application core.
#[derive(Debug, Clone, Copy, PartialEq, Eq, Structural)]
pub enum CoreError {
    /// The platform reports no directory for local configuration.
    MissingConfigHome,
    /// A file-system step was refused.
    Io(FsErrorKind),
}

/// The description that std gives of the `std::io::ErrorKind` matching
/// `kind`, by `ErrorKind::to_string`.
///
/// Stated, as std's documentation of `Display for ErrorKind` shows: not found
/// reads "entity not found". Not stated: the other descriptions, which std's
/// documentation does not spell out.
#[verifier::external_body]
pub(crate) fn io_kind_description(kind: FsErrorKind) -> (text: String)
    ensures
        kind == FsErrorKind::NotFound ==> text@ == "entity not found"@,
{
    let kind = match kind {
        FsErrorKind::NotFound => std::io::ErrorKind::NotFound,
        FsErrorKind::InvalidInput => std::io::ErrorKind::InvalidInput,
        FsErrorKind::NotADirectory => std::io::ErrorKind::NotADirectory,
    };
    kind.to_string()
}

impl CoreError {
    /// The error's message: "missing config home", or "io error: " followed
    /// by std's description of the refused step's kind.
    pub fn message(&self) -> (text: String)
        ensures
            *self == CoreError::MissingConfigHome ==> text@ == "missing config home"@,
            *self is Io ==> text@.len() >= 10 && text@.subrange(0, 10) == "io error: "@,
            *self == CoreError::Io(FsErrorKind::NotFound) ==> text@ == "io error: "@ + "entity not found"@,
    {
        match self {
            CoreError::MissingConfigHome => String::from_str("missing config home"),
            CoreError::Io(kind) => {
                let description = io_kind_description(*kind);
                let text = String::from_str("io error: ").concat(description.as_str());
                proof {
                    reveal_strlit("io error: ");
                    assert(text@.subrange(0, 10) =~= "io error: "@);
                }
                text
            },
        }
    }
}

} // verus!
