use vstd::prelude::*;

verus! {

/// The fatal errors of the library. Per-entry link and unlink failures are
/// collected as values and never abort a whole batch.
#[derive(Debug, Clone)]
pub enum MageError {
    /// An unclassified failure, carrying its description.
    Unexpected(String),
    /// A file operation failed, carrying the underlying description.
    File(String),
    /// No file whose name starts with the manifest prefix was found.
    MageFileNotFound,
    /// The manifest file did not parse, or an entry lacks a required field.
    InvalidMageFile(String),
    /// The origin string is neither an existing directory nor a repository.
    InvalidDotfilesOrigin(String),
    /// A target path has no parent directory to create.
    InvalidPath(String),
}

/// The rendering of each error, one line, as the reporter prints it.
pub open spec fn spec_message(e: MageError) -> Seq<char> {
    match e {
        MageError::Unexpected(s) => "Error: "@ + s@,
        MageError::File(s) => "File error: "@ + s@,
        MageError::MageFileNotFound => "Magefile not found"@,
        MageError::InvalidMageFile(s) => "Invalid magefile: "@ + s@,
        MageError::InvalidDotfilesOrigin(s) => "Invalid path or url "@ + s@,
        MageError::InvalidPath(s) => "Invalid path "@ + s@,
    }
}

impl MageError {
    /// The human-readable message of this error.
    pub fn message(&self) -> (r: String)
        ensures
            r@ == spec_message(*self),
    {
        match self {
            MageError::Unexpected(s) => String::from_str("Error: ").concat(s.as_str()),
            MageError::File(s) => String::from_str("File error: ").concat(s.as_str()),
            MageError::MageFileNotFound => String::from_str("Magefile not found"),
            MageError::InvalidMageFile(s) => String::from_str("Invalid magefile: ").concat(
                s.as_str(),
            ),
            MageError::InvalidDotfilesOrigin(s) => String::from_str("Invalid path or url ").concat(
                s.as_str(),
            ),
            MageError::InvalidPath(s) => String::from_str("Invalid path ").concat(s.as_str()),
        }
    }
}

} // verus!
