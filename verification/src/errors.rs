//! The error cases the scaffolding commands report. Failures of the
//! calling layer's file operations are carried as their message text.

use vstd::prelude::*;
use vstd::string::*;

verus! {

/// Why writing a scaffolded server file failed.
pub enum ServerFileError {
    /// The project's source directory could not be located.
    BaseDirectoryNotFound,
    /// The configuration names a database flavour that is not recognized.
    InvalidDatabase(String),
    /// A file operation failed; the payload is its message.
    IoError(String),
}

impl ServerFileError {
    /// The human-readable message for this error.
    pub open spec fn spec_message(&self) -> Seq<char> {
        match self {
            ServerFileError::BaseDirectoryNotFound => "Base directory not found"@,
            ServerFileError::InvalidDatabase(db) => "Invalid database type: "@ + db@,
            ServerFileError::IoError(e) => "IO error: "@ + e@,
        }
    }

    /// Render this error as its message text.
    pub fn message(&self) -> (r: String)
        ensures
            r@ == self.spec_message(),
    {
        match self {
            ServerFileError::BaseDirectoryNotFound => String::from_str(
                "Base directory not found",
            ),
            ServerFileError::InvalidDatabase(db) => String::from_str(
                "Invalid database type: ",
            ).concat(db.as_str()),
            ServerFileError::IoError(e) => String::from_str("IO error: ").concat(e.as_str()),
        }
    }
}

} // verus!
