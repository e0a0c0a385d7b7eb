//! The ways in which generating a license file can fail.

use vstd::prelude::*;

verus! {

/// What went wrong.
#[derive(Clone, Copy, Debug, PartialEq, Eq, Structural)]
pub enum LicenseError {
    /// No manifest in the working directory or in any directory above it.
    ManifestNotFound,
    /// The manifest's text is not a well-formed document.
    ManifestParseError,
    /// The document has no `package` entry, or that entry is not a table.
    MalformedManifest,
    /// Something that is not a regular file stands at the path to write.
    PathConflict,
    /// Reading, creating, writing or removing a file failed.
    IOError,
    /// The document could not be turned back into text.
    SerializationError,
}

impl LicenseError {
    /// The one-line diagnostic shown for this error.
    pub fn message(self) -> (r: &'static str)
        ensures
            r@ == match self {
                LicenseError::ManifestNotFound => "Cargo.toml not found in path"@,
                LicenseError::ManifestParseError => "Failed to parse TOML value from string"@,
                LicenseError::MalformedManifest => "Cargo.toml has no package table"@,
                LicenseError::PathConflict => "Unable to write! The path already exists, but it is not a file."@,
                LicenseError::IOError => "File operation failed"@,
                LicenseError::SerializationError => "Failed to serialize the manifest"@,
            },
    {
        match self {
            LicenseError::ManifestNotFound => "Cargo.toml not found in path",
            LicenseError::ManifestParseError => "Failed to parse TOML value from string",
            LicenseError::MalformedManifest => "Cargo.toml has no package table",
            LicenseError::PathConflict => "Unable to write! The path already exists, but it is not a file.",
            LicenseError::IOError => "File operation failed",
            LicenseError::SerializationError => "Failed to serialize the manifest",
        }
    }
}

} // verus!
